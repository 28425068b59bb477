use reminder_bot::buttons::filter_buttons;
use reminder_bot::clock::Instant;
use reminder_bot::effect::Effect;
use reminder_bot::keyboard::{InlineButton, InlineKeyboard, Markup};
use reminder_bot::reminders::{
    agreement_field_description, build_prompt, chat_to_purge, delivery_plan, reminder_field_description,
    Delivery, Reminder,
};
use reminder_bot::router::{on_button, on_message};
use reminder_bot::schedule::{
    edit_reminder_date, edit_reminder_time, get_date_for_reminder, get_time_for_reminder,
    recieve_reminder_date, recieve_reminder_time, Answer,
};
use reminder_bot::settings::{State, UserSettings};

/// 2024-01-01 12:00:00 UTC (15:00 in Moscow).
const NOON: Instant = Instant { secs: 1704110400, nanos: 0 };

fn settings(zone: &str) -> UserSettings {
    UserSettings {
        chat_id: 5,
        timezone: zone.to_string(),
        style_path: "prompts/angry.txt".to_string(),
        language: "ru".to_string(),
    }
}

fn send(text: &str) -> Effect {
    Effect::Send { text: text.to_string(), markup: Markup::Plain }
}

fn inline(rows: Vec<(&str, &str)>) -> Markup {
    Markup::Inline(InlineKeyboard {
        rows: rows
            .into_iter()
            .map(|(t, d)| vec![InlineButton { text: t.to_string(), data: d.to_string() }])
            .collect(),
    })
}

fn polish(date: &str, time: &str) -> State {
    State::ReminderFinalPolish {
        user_settings: settings("Europe/Moscow"),
        date: date.to_string(),
        time: time.to_string(),
        what_to_remind: "call mom".to_string(),
    }
}

#[test]
fn exact_dates_must_not_be_past() {
    let s = settings("Europe/Moscow");
    assert_eq!(
        get_date_for_reminder(true, "31.12.2023", &s, NOON),
        Answer::Rejected("Пожалуйста введите будущую дату".to_string())
    );
    assert_eq!(get_date_for_reminder(true, "01.01.2024", &s, NOON), Answer::Accepted("01.01.2024".to_string()));
    assert_eq!(get_date_for_reminder(true, "01.01.2030", &s, NOON), Answer::Accepted("01.01.2030".to_string()));
    assert_eq!(
        get_date_for_reminder(true, "32.01.2030", &s, NOON),
        Answer::Rejected("Invalid date. Please enter a valid date in the format dd.mm.yyyy".to_string())
    );
}

#[test]
fn day_counts_are_added_on_the_users_wall_clock() {
    let late = Instant { secs: 1718494200, nanos: 0 }; // 2024-06-15 23:30 UTC, 16th in Moscow
    assert_eq!(
        get_date_for_reminder(false, "3", &settings("Europe/Moscow"), late),
        Answer::Accepted("19.06.2024".to_string())
    );
    assert_eq!(get_date_for_reminder(false, "0", &settings("UTC"), late), Answer::Accepted("15.06.2024".to_string()));
    assert_eq!(
        get_date_for_reminder(false, "three", &settings("UTC"), late),
        Answer::Rejected("Invalid date. Please enter a valid day.".to_string())
    );
}

#[test]
fn times_must_not_be_past() {
    let s = settings("Europe/Moscow");
    assert_eq!(
        get_time_for_reminder("14:59", "01.01.2024", &s, NOON),
        Answer::Rejected("Пожалуйста введите будущее время.".to_string())
    );
    assert_eq!(get_time_for_reminder("15:00", "01.01.2024", &s, NOON), Answer::Accepted("15:00".to_string()));
    assert_eq!(get_time_for_reminder("08:00", "02.01.2024", &s, NOON), Answer::Accepted("08:00".to_string()));
    assert_eq!(
        get_time_for_reminder("8 o'clock", "02.01.2024", &s, NOON),
        Answer::Rejected("Пожалуйста введите корректное время.".to_string())
    );
}

#[test]
fn date_and_time_steps_of_a_new_reminder() {
    let s = settings("Europe/Moscow");
    assert_eq!(
        recieve_reminder_date(s.clone(), true, Some("02.01.2024"), NOON),
        vec![
            send("Пришлите время в формате ЧЧ:ММ"),
            Effect::SetState(State::RecieveReminderTime { user_settings: s.clone(), date: "02.01.2024".to_string() }),
        ]
    );
    assert_eq!(
        recieve_reminder_date(s.clone(), true, Some("01.01.2000"), NOON),
        vec![Effect::Notify { text: "Пожалуйста введите будущую дату".to_string() }]
    );
    assert_eq!(
        recieve_reminder_time(s.clone(), "02.01.2024".to_string(), Some("10:15"), NOON),
        vec![
            send("Напишите, о чём я должен вас напомнить."),
            Effect::SetState(State::RecieveReminderTheme {
                user_settings: s.clone(),
                date: "02.01.2024".to_string(),
                time: "10:15".to_string(),
            }),
        ]
    );
    assert_eq!(
        edit_reminder_time(s.clone(), "01.01.2024".to_string(), "x".to_string(), Some("10:00"), NOON),
        vec![send("Пожалуйста введите будущее время.")]
    );
    let edited = edit_reminder_date(s.clone(), "10:00".to_string(), "x".to_string(), false, Some("1"), NOON);
    assert_eq!(edited.len(), 2);
    assert_eq!(
        edited[1],
        Effect::SetState(State::ReminderFinalPolish {
            user_settings: s,
            date: "02.01.2024".to_string(),
            time: "10:00".to_string(),
            what_to_remind: "x".to_string(),
        })
    );
}

#[test]
fn confirming_saves_the_reminder_in_utc() {
    let effects = filter_buttons(polish("05.03.2024", "12:00"), Some("yes"), true, NOON).unwrap();
    assert_eq!(
        effects,
        vec![
            Effect::SaveReminderRequest {
                chat_id: 5,
                language: "ru".to_string(),
                style_path: "prompts/angry.txt".to_string(),
                what_to_remind: "call mom".to_string(),
                date_time: "2024-03-05 09:00:00".to_string(),
            },
            Effect::EditCallbackMessage { text: "Напоминание сохранено!".to_string(), markup: Markup::Plain },
            Effect::SetState(State::WaitForTask { user_settings: settings("Europe/Moscow") }),
            Effect::AnswerCallback,
        ]
    );
}

#[test]
fn final_check_buttons() {
    assert_eq!(
        filter_buttons(polish("05.03.2024", "12:00"), Some("delete"), false, NOON).unwrap(),
        vec![Effect::SetState(State::WaitForTask { user_settings: settings("Europe/Moscow") }), Effect::AnswerCallback]
    );
    assert_eq!(
        filter_buttons(polish("05.03.2024", "12:00"), Some("change_date"), true, NOON).unwrap(),
        vec![
            Effect::EditCallbackMessage {
                text: "Когда придёт напоминание?".to_string(),
                markup: inline(vec![("Через пару дней", "in_few_days"), ("Какого-то числа", "exact_day"), ("Сегодня", "today")]),
            },
            Effect::AnswerCallback,
        ]
    );
    assert_eq!(
        filter_buttons(polish("01.01.2024", "12:00"), Some("change_date"), true, NOON).unwrap(),
        vec![
            Effect::EditCallbackMessage {
                text: "Когда придёт напоминание?".to_string(),
                markup: inline(vec![("Через пару дней", "in_few_days"), ("Какого-то числа", "exact_day")]),
            },
            Effect::AnswerCallback,
        ]
    );
    let past = filter_buttons(polish("05.03.2024", "10:00"), Some("today"), true, NOON).unwrap();
    assert_eq!(
        past[0],
        Effect::EditCallbackMessage {
            text: "Ваше время находится в прошлом\n Что бы поменять дату на сегодня вам надо изменить время. Согласны?".to_string(),
            markup: inline(vec![("Да, хочу изменить время", "yes-change-time"), ("Нет, спасибо.", "no-dont-change-time")]),
        }
    );
    let later = filter_buttons(polish("05.03.2024", "18:00"), Some("today"), true, NOON).unwrap();
    assert_eq!(later.len(), 3);
    assert_eq!(
        later[1],
        Effect::SetState(State::ReminderFinalPolish {
            user_settings: settings("Europe/Moscow"),
            date: "01.01.2024".to_string(),
            time: "18:00".to_string(),
            what_to_remind: "call mom".to_string(),
        })
    );
    assert_eq!(
        filter_buttons(polish("05.03.2024", "18:00"), Some("exact_day"), false, NOON).unwrap(),
        vec![
            send("Напишите день в формате дд.мм.ГГ"),
            Effect::SetState(State::EditReminderDate {
                user_settings: settings("Europe/Moscow"),
                time: "18:00".to_string(),
                what_to_remind: "call mom".to_string(),
                exact_date: true,
            }),
            Effect::AnswerCallback,
        ]
    );
}

#[test]
fn new_reminder_buttons() {
    let creating = || State::CreateReminder { user_settings: settings("Europe/Moscow") };
    assert_eq!(
        filter_buttons(creating(), Some("today"), true, NOON).unwrap(),
        vec![
            Effect::EditCallbackMessage {
                text: "Напишите время для напоминания в виде Час:Минута".to_string(),
                markup: Markup::Plain,
            },
            Effect::SetState(State::RecieveReminderTime {
                user_settings: settings("Europe/Moscow"),
                date: "01.01.2024".to_string(),
            }),
            Effect::AnswerCallback,
        ]
    );
    assert_eq!(
        filter_buttons(creating(), Some("banana"), true, NOON),
        Err("шо та непонятное with buttons when creating reminder".to_string())
    );
    assert_eq!(filter_buttons(creating(), None, true, NOON), Ok(vec![]));
    assert_eq!(filter_buttons(State::Start, Some("x"), true, NOON), Ok(vec![Effect::AnswerCallback]));
}

#[test]
fn button_router_refuses_what_would_abort() {
    assert_eq!(on_button(polish("05.03.2024", "12:00"), Some("banana"), true, NOON), None);
    assert_eq!(on_button(polish("99.99.2024", "12:00"), Some("yes"), true, NOON), None);
    let berlin_gap = State::ReminderFinalPolish {
        user_settings: settings("Europe/Berlin"),
        date: "31.03.2024".to_string(),
        time: "02:30".to_string(),
        what_to_remind: "x".to_string(),
    };
    assert_eq!(on_button(berlin_gap, Some("yes"), true, NOON), None);
    assert!(on_button(polish("05.03.2024", "12:00"), Some("edit"), true, NOON).is_some());
    let far = Instant { secs: 8_210_266_800_000, nanos: 0 };
    assert_eq!(on_button(polish("05.03.2024", "12:00"), Some("edit"), true, far), None);
    assert_eq!(on_button(State::Start, Some("x"), true, far), Some(Ok(vec![Effect::AnswerCallback])));
}

#[test]
fn prompts_are_filled_in() {
    assert_eq!(
        build_prompt("Remind {what_to_remind} in {language}. {language}!", "to walk", "en"),
        "Remind to walk in en. en!"
    );
    assert_eq!(
        reminder_field_description("ru", "drink water"),
        "The aggressive troll message, written in ru, demanding the user to complete drink water, and containing the required agreement phrase."
    );
    assert_eq!(
        agreement_field_description("by"),
        "The exact humiliating surrender phrase the user must write back, in by."
    );
}

#[test]
fn due_reminders_are_marked_then_sent() {
    let due = vec![
        Reminder {
            id: 1,
            chat_id: 10,
            date_time: "t".to_string(),
            reminder_text: "first".to_string(),
            reminder_agreement: "a".to_string(),
            is_sent: false,
        },
        Reminder {
            id: 2,
            chat_id: 11,
            date_time: "t".to_string(),
            reminder_text: "second".to_string(),
            reminder_agreement: "b".to_string(),
            is_sent: true,
        },
    ];
    assert_eq!(
        delivery_plan(&due),
        vec![
            Delivery { mark_sent: Some(1), chat_id: 10, text: "first".to_string() },
            Delivery { mark_sent: None, chat_id: 11, text: "second".to_string() },
        ]
    );
    assert_eq!(chat_to_purge(true, 10), Some(10));
    assert_eq!(chat_to_purge(false, 10), None);
}

#[test]
fn summary_then_yes_saves_what_was_shown() {
    let shown = reminder_bot::dialogue::update_to_final_polish(
        settings("Asia/Tokyo"),
        "02.01.2024".to_string(),
        "08:05".to_string(),
        "water the plants".to_string(),
    );
    let state = match shown.last() {
        Some(Effect::SetState(s)) => s.clone(),
        other => panic!("unexpected {:?}", other),
    };
    let saved = filter_buttons(state.clone(), Some("yes"), false, NOON).unwrap();
    assert_eq!(
        saved,
        vec![
            Effect::SaveReminderRequest {
                chat_id: 5,
                language: "ru".to_string(),
                style_path: "prompts/angry.txt".to_string(),
                what_to_remind: "water the plants".to_string(),
                date_time: "2024-01-01 23:05:00".to_string(),
            },
            Effect::SetState(State::WaitForTask { user_settings: settings("Asia/Tokyo") }),
            Effect::AnswerCallback,
        ]
    );
    assert_eq!(
        filter_buttons(state, Some("delete"), false, NOON).unwrap(),
        vec![Effect::SetState(State::WaitForTask { user_settings: settings("Asia/Tokyo") }), Effect::AnswerCallback]
    );
}

#[test]
fn well_formed_states_always_get_an_answer() {
    let s = settings("Europe/Moscow");
    assert!(on_message(State::RecieveStyle { language: "by".to_string() }, 5, Some("🤬"), None, None, NOON).is_some());
    assert!(on_message(
        State::RecieveLocation { language: "ru".to_string(), style_path: "prompts/angry.txt".to_string() },
        5,
        None,
        Some("Europe/Moscow".to_string()),
        None,
        NOON
    )
    .is_some());
    assert!(on_message(State::WaitForTask { user_settings: s }, 5, Some("🆕"), None, None, NOON).is_some());
    assert!(on_message(State::WaitForTask { user_settings: settings("Europe/Moscow") }, 5, Some("hello"), None, None, NOON).is_some());
}
