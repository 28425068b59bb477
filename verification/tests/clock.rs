use reminder_bot::clock::{format_dmy, format_storage, readable_everywhere, usable_everywhere, Instant, LocalDate, LocalDateTime};
use reminder_bot::schedule::{get_date_for_reminder, get_time_for_reminder, Answer};
use reminder_bot::settings::UserSettings;

fn date(year: i32, month: u32, day: u32) -> LocalDate {
    LocalDate { year, month, day }
}

fn settings(zone: &str) -> UserSettings {
    UserSettings {
        chat_id: 1,
        timezone: zone.to_string(),
        style_path: "prompts/angry.txt".to_string(),
        language: "by".to_string(),
    }
}

/// 2024-01-01 12:00:00 UTC.
const NOON: Instant = Instant { secs: 1704110400, nanos: 0 };

#[test]
fn dates_format_day_first() {
    assert_eq!(format_dmy(&date(2024, 3, 5)), "05.03.2024");
    assert_eq!(format_dmy(&date(2024, 12, 31)), "31.12.2024");
    assert_eq!(format_dmy(&date(999, 1, 1)), "01.01.0999");
}

#[test]
fn storage_format_has_zero_seconds() {
    let t = LocalDateTime { date: date(2024, 3, 5), hour: 9, minute: 7, second: 42, nano: 5 };
    assert_eq!(format_storage(&t), "2024-03-05 09:07:00");
}

#[test]
fn typed_dates_are_read_by_chrono() {
    let s = settings("UTC");
    assert_eq!(get_date_for_reminder(true, "05.03.2024", &s, NOON), Answer::Accepted("05.03.2024".to_string()));
    let invalid = Answer::Rejected("Invalid date. Please enter a valid date in the format dd.mm.yyyy".to_string());
    assert_eq!(get_date_for_reminder(true, "31.02.2024", &s, NOON), invalid);
    assert_eq!(get_date_for_reminder(true, "tomorrow", &s, NOON), invalid);
}

#[test]
fn typed_times_are_read_by_chrono() {
    let s = settings("UTC");
    assert_eq!(get_time_for_reminder("12:30", "01.01.2024", &s, NOON), Answer::Accepted("12:30".to_string()));
    let invalid = Answer::Rejected("Пожалуйста введите корректное время.".to_string());
    assert_eq!(get_time_for_reminder("24:00", "01.01.2024", &s, NOON), invalid);
    assert_eq!(get_time_for_reminder("noon", "01.01.2024", &s, NOON), invalid);
}

#[test]
fn zones_are_looked_up_by_name() {
    let _moscow = settings("Europe/Moscow").get_tz();
    let _utc = settings("UTC").get_tz();
    let day = settings("Europe/Minsk").get_current_day(NOON);
    assert_eq!(day, "01.01.2024");
    let s = settings("Europe/Minsk");
    assert!(matches!(get_date_for_reminder(true, &day, &s, NOON), Answer::Accepted(_)));
}

#[test]
fn no_days_means_today_on_the_wall_clock() {
    let late = Instant { secs: 1718494200, nanos: 0 }; // 2024-06-15 23:30 UTC
    let s = settings("Asia/Tokyo");
    let today = s.get_current_day(late);
    assert_eq!(today, "16.06.2024");
    assert_eq!(get_date_for_reminder(false, "0", &s, late), Answer::Accepted(today.clone()));
    assert_eq!(settings("UTC").get_current_day(late), "15.06.2024");
    assert_eq!(get_date_for_reminder(false, "0", &settings("UTC"), late), Answer::Accepted("15.06.2024".to_string()));
}

#[test]
fn wall_clocks_are_read_a_day_inside_chronos_range() {
    assert!(readable_everywhere(NOON));
    assert!(readable_everywhere(Instant { secs: 8_210_266_790_399, nanos: 0 }));
    assert!(!readable_everywhere(Instant { secs: 8_210_266_790_400, nanos: 0 }));
    assert!(readable_everywhere(Instant { secs: -8_334_601_142_400, nanos: 0 }));
    assert!(!readable_everywhere(Instant { secs: -8_334_601_142_401, nanos: 0 }));
    // The last moment that still reads everywhere, on the clock that runs furthest ahead.
    let last = Instant { secs: 8_210_266_790_399, nanos: 0 };
    assert_eq!(settings("Pacific/Kiritimati").get_current_day(last), "31.12.+262142");
    // The first such moment, on the clock that runs furthest behind.
    let first = Instant { secs: -8_334_601_142_400, nanos: 0 };
    assert_eq!(settings("Etc/GMT+12").get_current_day(first), "01.01.-262143");
}

#[test]
fn wall_clock_depends_on_the_zone() {
    // At 12:00 UTC it is 15:00 in Moscow: 14:30 is past there but not in London.
    assert_eq!(
        get_time_for_reminder("14:30", "01.01.2024", &settings("Europe/Moscow"), NOON),
        Answer::Rejected("Пожалуйста введите будущее время.".to_string())
    );
    assert_eq!(
        get_time_for_reminder("14:30", "01.01.2024", &settings("Europe/London"), NOON),
        Answer::Accepted("14:30".to_string())
    );
    // UTC's date, not the user's, decides whether a typed date is past.
    let late = Instant { secs: 1718494200, nanos: 0 }; // 2024-06-15 23:30 UTC
    assert_eq!(
        get_date_for_reminder(true, "15.06.2024", &settings("Asia/Tokyo"), late),
        Answer::Accepted("15.06.2024".to_string())
    );
    assert_eq!(
        get_date_for_reminder(false, "1", &settings("Asia/Tokyo"), late),
        Answer::Accepted("17.06.2024".to_string())
    );
}

#[test]
fn leap_seconds_stand_only_at_the_end_of_a_minute() {
    assert!(usable_everywhere(NOON));
    assert!(usable_everywhere(Instant { secs: 1704110399, nanos: 1_500_000_000 }));
    assert!(!usable_everywhere(Instant { secs: 1704110400, nanos: 1_500_000_000 }));
    assert!(usable_everywhere(Instant { secs: -1, nanos: 1_200_000_000 }));
    assert!(!usable_everywhere(Instant { secs: -2, nanos: 1_200_000_000 }));
    assert!(!usable_everywhere(Instant { secs: 1704110399, nanos: 2_000_000_000 }));
    assert!(!usable_everywhere(Instant { secs: 8_210_266_790_400, nanos: 0 }));
}
