use vstd::prelude::*;

use crate::clock::{
    date_before, date_time_before, dmy_text, format_dmy, known_zone, parse_date, parse_time,
    parsed_date, parsed_time, usable_instant, utc_at, utc_calendar, zone_add_days, zone_local_time,
    Instant,
    LocalDateTime,
};
use crate::dialogue::{final_polish_effects, opt_view, update_to_final_polish};
use crate::effect::{effects_view, plain, send_plain, Effect, EffectView};
use crate::settings::{State, StateView, UserSettings, UserSettingsView};
use crate::text::{parse_u64, parsed_u64};

verus! {

/// The bot's verdict on a date or time the user typed: the value to keep, or the message that
/// explains why it was refused.
#[derive(PartialEq, Eq, Debug)]
pub enum Answer {
    Accepted(String),
    Rejected(String),
}

pub enum AnswerView {
    Accepted(Seq<char>),
    Rejected(Seq<char>),
}

impl View for Answer {
    type V = AnswerView;

    open spec fn view(&self) -> AnswerView {
        match self {
            Answer::Accepted(s) => AnswerView::Accepted(s@),
            Answer::Rejected(s) => AnswerView::Rejected(s@),
        }
    }
}

/// The verdict on a reminder date, at the moment `now`, for a user in time zone `zone`: a date
/// typed as day.month.year must not lie before today's UTC date; a number of days is counted
/// from the user's wall clock. None where the handler would abort (an unknown time zone, or a
/// day count that chrono cannot add).
pub open spec fn date_answer(exact: bool, text: Seq<char>, zone: Seq<char>, now: Instant) -> Option<AnswerView> {
    if exact {
        match parsed_date(text) {
            Some(d) => if !known_zone(zone) {
                None
            } else if d.before(utc_calendar(now.secs as int, now.nanos as int).unwrap().date) {
                Some(AnswerView::Rejected("Пожалуйста введите будущую дату"@))
            } else {
                Some(AnswerView::Accepted(text))
            },
            None => Some(
                AnswerView::Rejected("Invalid date. Please enter a valid date in the format dd.mm.yyyy"@),
            ),
        }
    } else {
        match parsed_u64(text) {
            Some(days) => if !known_zone(zone) {
                None
            } else {
                match zone_add_days(zone, now.secs as int, now.nanos as int, days as int) {
                    Some(d) => Some(AnswerView::Accepted(dmy_text(d))),
                    None => None,
                }
            },
            None => Some(AnswerView::Rejected("Invalid date. Please enter a valid day."@)),
        }
    }
}

/// The verdict on a reminder time typed as hour:minute for the day `date`: it must not lie
/// before the user's wall clock at `now`. None where the handler would abort (an unknown time
/// zone, or a stored date chrono cannot read).
pub open spec fn time_answer(text: Seq<char>, date: Seq<char>, zone: Seq<char>, now: Instant) -> Option<AnswerView> {
    match parsed_time(text) {
        Some(t) => if !known_zone(zone) {
            None
        } else {
            match parsed_date(date) {
                Some(d) => if t.on(d).before(
                    zone_local_time(zone, now.secs as int, now.nanos as int),
                ) {
                    Some(AnswerView::Rejected("Пожалуйста введите будущее время."@))
                } else {
                    Some(AnswerView::Accepted(text))
                },
                None => None,
            }
        },
        None => Some(AnswerView::Rejected("Пожалуйста введите корректное время."@)),
    }
}

/// Judges a reminder date: a day.month.year date (`exact`) or a number of days from today; no
/// days at all give today's date on the user's wall clock.
pub fn get_date_for_reminder(
    exact_date: bool,
    text: &str,
    user_settings: &UserSettings,
    now: Instant,
) -> (res: Answer)
    requires
        usable_instant(now),
        date_answer(exact_date, text@, user_settings.timezone@, now) is Some,
    ensures
        Some(res@) == date_answer(exact_date, text@, user_settings.timezone@, now),
        !exact_date && parsed_u64(text@) == Some(0u64) ==> res@ == AnswerView::Accepted(
            dmy_text(zone_local_time(user_settings.timezone@, now.secs as int, now.nanos as int).date),
        ),
{
    if exact_date {
        match parse_date(text) {
            Some(date) => {
                let _zone = user_settings.get_tz();
                let today = utc_at(now);
                if date_before(&date, &today.date) {
                    Answer::Rejected(String::from_str("Пожалуйста введите будущую дату"))
                } else {
                    Answer::Accepted(text.to_owned())
                }
            },
            None => Answer::Rejected(
                String::from_str("Invalid date. Please enter a valid date in the format dd.mm.yyyy"),
            ),
        }
    } else {
        match parse_u64(text) {
            Some(days) => {
                let zone = user_settings.get_tz();
                let date = zone.add_days_at(now, days).unwrap();
                Answer::Accepted(format_dmy(&date))
            },
            None => Answer::Rejected(String::from_str("Invalid date. Please enter a valid day.")),
        }
    }
}

/// Judges a reminder time for the day `date`.
pub fn get_time_for_reminder(
    text: &str,
    date: &str,
    user_settings: &UserSettings,
    now: Instant,
) -> (res: Answer)
    requires
        usable_instant(now),
        time_answer(text@, date@, user_settings.timezone@, now) is Some,
    ensures
        Some(res@) == time_answer(text@, date@, user_settings.timezone@, now),
{
    match parse_time(text) {
        Some(time) => {
            let local_now = user_settings.get_tz().local_at(now);
            let day = parse_date(date).unwrap();
            let wanted = LocalDateTime { date: day, hour: time.hour, minute: time.minute, second: 0, nano: 0 };
            if date_time_before(&wanted, &local_now) {
                Answer::Rejected(String::from_str("Пожалуйста введите будущее время."))
            } else {
                Answer::Accepted(text.to_owned())
            }
        },
        None => Answer::Rejected(String::from_str("Пожалуйста введите корректное время.")),
    }
}

/// What a date message leads to while a new reminder is made; None where the handler aborts.
pub open spec fn recieve_date_effects(
    user_settings: UserSettingsView,
    exact_date: bool,
    text: Option<Seq<char>>,
    now: Instant,
) -> Option<Seq<EffectView>> {
    match text {
        None => Some(seq![]),
        Some(t) => match date_answer(exact_date, t, user_settings.timezone, now) {
            Some(AnswerView::Accepted(date)) => Some(
                seq![
                    send_plain("Пришлите время в формате ЧЧ:ММ"@),
                    EffectView::SetState(StateView::RecieveReminderTime { user_settings, date }),
                ],
            ),
            Some(AnswerView::Rejected(m)) => Some(seq![EffectView::Notify { text: m }]),
            None => None,
        },
    }
}

/// What a time message leads to while a new reminder is made; None where the handler aborts.
pub open spec fn recieve_time_effects(
    user_settings: UserSettingsView,
    date: Seq<char>,
    text: Option<Seq<char>>,
    now: Instant,
) -> Option<Seq<EffectView>> {
    match text {
        None => Some(seq![]),
        Some(t) => match time_answer(t, date, user_settings.timezone, now) {
            Some(AnswerView::Accepted(time)) => Some(
                seq![
                    send_plain("Напишите, о чём я должен вас напомнить."@),
                    EffectView::SetState(StateView::RecieveReminderTheme { user_settings, date, time }),
                ],
            ),
            Some(AnswerView::Rejected(m)) => Some(seq![send_plain(m)]),
            None => None,
        },
    }
}

/// What a new date leads to while a reminder is edited; None where the handler aborts.
pub open spec fn edit_date_effects(
    user_settings: UserSettingsView,
    time: Seq<char>,
    what_to_remind: Seq<char>,
    exact_date: bool,
    text: Option<Seq<char>>,
    now: Instant,
) -> Option<Seq<EffectView>> {
    match text {
        None => Some(seq![]),
        Some(t) => match date_answer(exact_date, t, user_settings.timezone, now) {
            Some(AnswerView::Accepted(date)) => Some(
                final_polish_effects(user_settings, date, time, what_to_remind),
            ),
            Some(AnswerView::Rejected(m)) => Some(seq![send_plain(m)]),
            None => None,
        },
    }
}

/// What a new time leads to while a reminder is edited; None where the handler aborts.
pub open spec fn edit_time_effects(
    user_settings: UserSettingsView,
    date: Seq<char>,
    what_to_remind: Seq<char>,
    text: Option<Seq<char>>,
    now: Instant,
) -> Option<Seq<EffectView>> {
    match text {
        None => Some(seq![]),
        Some(t) => match time_answer(t, date, user_settings.timezone, now) {
            Some(AnswerView::Accepted(time)) => Some(
                final_polish_effects(user_settings, date, time, what_to_remind),
            ),
            Some(AnswerView::Rejected(m)) => Some(seq![send_plain(m)]),
            None => None,
        },
    }
}

/// Takes the day of a new reminder and asks for its time.
pub fn recieve_reminder_date(
    user_settings: UserSettings,
    exact_date: bool,
    text: Option<&str>,
    now: Instant,
) -> (res: Vec<Effect>)
    requires
        usable_instant(now),
        recieve_date_effects(user_settings@, exact_date, opt_view(text), now) is Some,
    ensures
        Some(effects_view(res@)) == recieve_date_effects(user_settings@, exact_date, opt_view(text), now),
{
    let mut res: Vec<Effect> = Vec::new();
    if let Some(t) = text {
        match get_date_for_reminder(exact_date, t, &user_settings, now) {
            Answer::Accepted(date) => {
                res.push(plain("Пришлите время в формате ЧЧ:ММ"));
                res.push(Effect::SetState(State::RecieveReminderTime { user_settings, date }));
            },
            Answer::Rejected(m) => {
                res.push(Effect::Notify { text: m });
            },
        }
    }
    proof {
        assert(Some(effects_view(res@)) =~= recieve_date_effects(user_settings@, exact_date, opt_view(text), now));
    }
    res
}

/// Takes the time of a new reminder and asks what to remind of.
pub fn recieve_reminder_time(
    user_settings: UserSettings,
    date: String,
    text: Option<&str>,
    now: Instant,
) -> (res: Vec<Effect>)
    requires
        usable_instant(now),
        recieve_time_effects(user_settings@, date@, opt_view(text), now) is Some,
    ensures
        Some(effects_view(res@)) == recieve_time_effects(user_settings@, date@, opt_view(text), now),
{
    let mut res: Vec<Effect> = Vec::new();
    if let Some(t) = text {
        match get_time_for_reminder(t, date.as_str(), &user_settings, now) {
            Answer::Accepted(time) => {
                res.push(plain("Напишите, о чём я должен вас напомнить."));
                res.push(Effect::SetState(State::RecieveReminderTheme { user_settings, date, time }));
            },
            Answer::Rejected(m) => {
                res.push(Effect::Send { text: m, markup: crate::keyboard::Markup::Plain });
            },
        }
    }
    proof {
        assert(Some(effects_view(res@)) =~= recieve_time_effects(user_settings@, date@, opt_view(text), now));
    }
    res
}

/// Takes a new day for the reminder and goes back to the final check.
pub fn edit_reminder_date(
    user_settings: UserSettings,
    time: String,
    what_to_remind: String,
    exact_date: bool,
    text: Option<&str>,
    now: Instant,
) -> (res: Vec<Effect>)
    requires
        usable_instant(now),
        edit_date_effects(user_settings@, time@, what_to_remind@, exact_date, opt_view(text), now) is Some,
    ensures
        Some(effects_view(res@)) == edit_date_effects(
            user_settings@,
            time@,
            what_to_remind@,
            exact_date,
            opt_view(text),
            now,
        ),
{
    match text {
        Some(t) => match get_date_for_reminder(exact_date, t, &user_settings, now) {
            Answer::Accepted(date) => update_to_final_polish(user_settings, date, time, what_to_remind),
            Answer::Rejected(m) => {
                let mut res: Vec<Effect> = Vec::new();
                res.push(Effect::Send { text: m, markup: crate::keyboard::Markup::Plain });
                proof {
                    assert(Some(effects_view(res@)) =~= edit_date_effects(
                        user_settings@,
                        time@,
                        what_to_remind@,
                        exact_date,
                        opt_view(text),
                        now,
                    ));
                }
                res
            },
        },
        None => {
            let res: Vec<Effect> = Vec::new();
            proof {
                assert(effects_view(res@) =~= seq![]);
            }
            res
        },
    }
}

/// Takes a new time for the reminder and goes back to the final check.
pub fn edit_reminder_time(
    user_settings: UserSettings,
    date: String,
    what_to_remind: String,
    text: Option<&str>,
    now: Instant,
) -> (res: Vec<Effect>)
    requires
        usable_instant(now),
        edit_time_effects(user_settings@, date@, what_to_remind@, opt_view(text), now) is Some,
    ensures
        Some(effects_view(res@)) == edit_time_effects(
            user_settings@,
            date@,
            what_to_remind@,
            opt_view(text),
            now,
        ),
{
    match text {
        Some(t) => match get_time_for_reminder(t, date.as_str(), &user_settings, now) {
            Answer::Accepted(time) => update_to_final_polish(user_settings, date, time, what_to_remind),
            Answer::Rejected(m) => {
                let mut res: Vec<Effect> = Vec::new();
                res.push(Effect::Send { text: m, markup: crate::keyboard::Markup::Plain });
                proof {
                    assert(Some(effects_view(res@)) =~= edit_time_effects(
                        user_settings@,
                        date@,
                        what_to_remind@,
                        opt_view(text),
                        now,
                    ));
                }
                res
            },
        },
        None => {
            let res: Vec<Effect> = Vec::new();
            proof {
                assert(effects_view(res@) =~= seq![]);
            }
            res
        },
    }
}

}
