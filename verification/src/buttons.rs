use vstd::prelude::*;

use crate::clock::{
    dmy_text, format_storage, known_zone, parse_date, parse_date_time, parse_time, parsed_date,
    parsed_date_time, parsed_time, same_date, storage_text, usable_instant, zone_local_time, zone_local_to_utc, Instant, LocalDateTime, TimeOfDay,
};
use crate::dialogue::{final_polish_effects, inline_markup, opt_view, update_to_final_polish};
use crate::effect::{effects_view, plain, send_plain, Effect, EffectView};
use crate::keyboard::{make_inline_keyboard, str_views, Markup, MarkupView};
use crate::settings::{State, StateView, UserSettings, UserSettingsView};
use crate::text::str_eq;

verus! {

/// Replacing the text and keyboard of the message whose button was pressed.
pub open spec fn edit(text: Seq<char>, markup: MarkupView) -> EffectView {
    EffectView::EditCallbackMessage { text, markup }
}

/// The effects `e` when the pressed button belongs to a message the bot can still change.
pub open spec fn if_message(has_message: bool, e: Seq<EffectView>) -> Seq<EffectView> {
    if has_message { e } else { seq![] }
}

/// Today on the user's wall clock at `now`, as day.month.year.
pub open spec fn today_on(zone: Seq<char>, now: Instant) -> Seq<char> {
    dmy_text(zone_local_time(zone, now.secs as int, now.nanos as int).date)
}

/// Whether an hour:minute lies before the time of day of `clock` (as `NaiveTime` orders them).
pub open spec fn time_of_day_before(t: TimeOfDay, clock: LocalDateTime) -> bool {
    ||| t.hour < clock.hour
    ||| t.hour == clock.hour && t.minute < clock.minute
    ||| t.hour == clock.hour && t.minute == clock.minute && (clock.second > 0 || clock.nano > 0)
}

/// The request for a reminder time, by language code.
pub open spec fn time_request(code: Seq<char>) -> Seq<char> {
    if code == "en"@ {
        "Write your reminder time in the format Hour:Minute (only 24-hour format allowed!)"@
    } else if code == "ru"@ {
        "Напишите время для напоминания в виде Час:Минута"@
    } else if code == "by"@ {
        "Напішыце час для напамінка ў фармату Гадзіна:Мінута"@
    } else {
        "This should not happen, please report this issue"@
    }
}

/// The request for a number of days, by language code.
pub open spec fn days_request(code: Seq<char>) -> Seq<char> {
    if code == "en"@ {
        "Write in how many days the reminder will arrive."@
    } else if code == "ru"@ {
        "Напишите через сколько дней должно прийти напоминание."@
    } else if code == "by"@ {
        "Напішыце праз колькі дзён прыдзе напамінак."@
    } else {
        "This should not happen, please report this issue"@
    }
}

/// A button pressed while a new reminder's day is chosen: the effects before the press is
/// answered, or the handler's error. None where the handler aborts (an unknown time zone).
pub open spec fn create_button_effects(
    user_settings: UserSettingsView,
    data: Seq<char>,
    has_message: bool,
    now: Instant,
) -> Option<Result<Seq<EffectView>, Seq<char>>> {
    if data == "today"@ {
        if !known_zone(user_settings.timezone) {
            None
        } else {
            Some(
                Ok(
                    if_message(has_message, seq![edit(time_request(user_settings.language), MarkupView::Plain)])
                        + seq![
                        EffectView::SetState(
                            StateView::RecieveReminderTime {
                                user_settings,
                                date: today_on(user_settings.timezone, now),
                            },
                        ),
                    ],
                ),
            )
        }
    } else if data == "in_few_days"@ {
        Some(
            Ok(
                if_message(has_message, seq![edit(days_request(user_settings.language), MarkupView::Plain)])
                    + seq![
                    EffectView::SetState(
                        StateView::RecieveReminderDate { user_settings, exact_date: false },
                    ),
                ],
            ),
        )
    } else if data == "exact_day"@ {
        Some(
            Ok(
                if_message(
                    has_message,
                    seq![
                        edit("Напиши дату в формате дд.мм.гггг "@, MarkupView::Plain),
                        EffectView::SetState(
                            StateView::RecieveReminderDate { user_settings, exact_date: true },
                        ),
                    ],
                ),
            ),
        )
    } else {
        Some(Err("шо та непонятное with buttons when creating reminder"@))
    }
}

/// The buttons that offer other days.
pub open spec fn other_day_names() -> Seq<Seq<char>> {
    seq!["Через пару дней"@, "Какого-то числа"@]
}

pub open spec fn other_day_data() -> Seq<Seq<char>> {
    seq!["in_few_days"@, "exact_day"@]
}

/// A button pressed while a finished reminder waits for confirmation: the effects before the
/// press is answered. None where the handler aborts (an unknown button, an unknown time zone,
/// a stored date or time chrono cannot read, or a wall-clock time a clock change skips or
/// repeats).
pub open spec fn final_button_effects(
    user_settings: UserSettingsView,
    date: Seq<char>,
    time: Seq<char>,
    what_to_remind: Seq<char>,
    data: Seq<char>,
    has_message: bool,
    now: Instant,
) -> Option<Seq<EffectView>> {
    let zone = user_settings.timezone;
    if data == "yes"@ {
        match parsed_date_time(date + " "@ + time) {
            Some(local) => if !known_zone(zone) {
                None
            } else {
                match zone_local_to_utc(zone, local) {
                    Some(utc) => Some(
                        seq![
                            EffectView::SaveReminderRequest {
                                chat_id: user_settings.chat_id,
                                language: user_settings.language,
                                style_path: user_settings.style_path,
                                what_to_remind,
                                date_time: storage_text(utc),
                            },
                        ] + if_message(has_message, seq![edit("Напоминание сохранено!"@, MarkupView::Plain)])
                            + seq![EffectView::SetState(StateView::WaitForTask { user_settings })],
                    ),
                    None => None,
                }
            },
            None => None,
        }
    } else if data == "edit"@ {
        Some(
            if_message(
                has_message,
                seq![
                    edit(
                        "Что желаете изменить?"@,
                        inline_markup(
                            seq!["Дату"@, "Время"@, "Тему напоминания"@],
                            seq!["change_date"@, "change_time"@, "change_reminder_theme"@],
                            1,
                        ),
                    ),
                ],
            ),
        )
    } else if data == "delete"@ {
        Some(
            if_message(has_message, seq![edit("Напоминание отменено."@, MarkupView::Plain)]) + seq![
                EffectView::SetState(StateView::WaitForTask { user_settings }),
            ],
        )
    } else if data == "change_date"@ {
        if !has_message {
            Some(seq![])
        } else {
            match parsed_date(date) {
                Some(d) => if !known_zone(zone) {
                    None
                } else if d != zone_local_time(zone, now.secs as int, now.nanos as int).date {
                    Some(
                        seq![
                            edit(
                                "Когда придёт напоминание?"@,
                                inline_markup(
                                    other_day_names().push("Сегодня"@),
                                    other_day_data().push("today"@),
                                    1,
                                ),
                            ),
                        ],
                    )
                } else {
                    Some(
                        seq![
                            edit(
                                "Когда придёт напоминание?"@,
                                inline_markup(other_day_names(), other_day_data(), 1),
                            ),
                        ],
                    )
                },
                None => Some(
                    seq![
                        edit(
                            "Когда придёт напоминание?"@,
                            inline_markup(other_day_names(), other_day_data(), 1),
                        ),
                    ],
                ),
            }
        }
    } else if data == "change_time"@ {
        Some(
            if_message(
                has_message,
                seq![
                    EffectView::DeleteCallbackMessage,
                    send_plain("Введите время в формате ЧЧ:ММ"@),
                ],
            ) + seq![
                EffectView::SetState(StateView::EditReminderTime { user_settings, date, what_to_remind }),
            ],
        )
    } else if data == "change_reminder_theme"@ {
        Some(
            if_message(
                has_message,
                seq![EffectView::DeleteCallbackMessage, send_plain("Введите тему напоминания"@)],
            ) + seq![EffectView::SetState(StateView::EditReminderTheme { user_settings, date, time })],
        )
    } else if data == "today"@ {
        match parsed_time(time) {
            Some(t) => if !known_zone(zone) {
                None
            } else {
                let clock = zone_local_time(zone, now.secs as int, now.nanos as int);
                if time_of_day_before(t, clock) {
                    Some(
                        if_message(
                            has_message,
                            seq![
                                edit(
                                    "Ваше время находится в прошлом\n Что бы поменять дату на сегодня вам надо изменить время. Согласны?"@,
                                    inline_markup(
                                        seq!["Да, хочу изменить время"@, "Нет, спасибо."@],
                                        seq!["yes-change-time"@, "no-dont-change-time"@],
                                        1,
                                    ),
                                ),
                            ],
                        ),
                    )
                } else {
                    Some(final_polish_effects(user_settings, dmy_text(clock.date), time, what_to_remind))
                }
            },
            None => Some(seq![]),
        }
    } else if data == "yes-change-time"@ {
        if !has_message {
            Some(seq![])
        } else if !known_zone(zone) {
            None
        } else {
            Some(
                seq![
                    EffectView::DeleteCallbackMessage,
                    send_plain("Напишите время в формате ЧЧ:ММ"@),
                    EffectView::SetState(
                        StateView::EditReminderTime {
                            user_settings,
                            date: today_on(zone, now),
                            what_to_remind,
                        },
                    ),
                ],
            )
        }
    } else if data == "no-dont-change-time"@ {
        Some(
            if_message(
                has_message,
                seq![
                    edit(
                        "Так когда придёт напоминание?"@,
                        inline_markup(other_day_names(), other_day_data(), 1),
                    ),
                ],
            ),
        )
    } else if data == "in_few_days"@ {
        Some(
            if_message(has_message, seq![EffectView::DeleteCallbackMessage]) + seq![
                send_plain("Напишите через сколько дней придёт напоминание"@),
                EffectView::SetState(
                    StateView::EditReminderDate { user_settings, time, what_to_remind, exact_date: false },
                ),
            ],
        )
    } else if data == "exact_day"@ {
        Some(
            seq![
                send_plain("Напишите день в формате дд.мм.ГГ"@),
                EffectView::SetState(
                    StateView::EditReminderDate { user_settings, time, what_to_remind, exact_date: true },
                ),
            ],
        )
    } else {
        None
    }
}

/// What a button press leads to: effects ending with the answer to the press, or the
/// handler's error. None where the handler aborts.
pub open spec fn button_effects(
    state: StateView,
    data: Option<Seq<char>>,
    has_message: bool,
    now: Instant,
) -> Option<Result<Seq<EffectView>, Seq<char>>> {
    match data {
        None => Some(Ok(seq![])),
        Some(d) => match state {
            StateView::CreateReminder { user_settings } => match create_button_effects(
                user_settings,
                d,
                has_message,
                now,
            ) {
                Some(Ok(e)) => Some(Ok(e + seq![EffectView::AnswerCallback])),
                Some(Err(m)) => Some(Err(m)),
                None => None,
            },
            StateView::ReminderFinalPolish { user_settings, date, time, what_to_remind } =>
                match final_button_effects(user_settings, date, time, what_to_remind, d, has_message, now) {
                Some(e) => Some(Ok(e + seq![EffectView::AnswerCallback])),
                None => None,
            },
            _ => Some(Ok(seq![EffectView::AnswerCallback])),
        },
    }
}

/// A handler result, viewed.
pub open spec fn result_view(r: Result<Vec<Effect>, String>) -> Result<Seq<EffectView>, Seq<char>> {
    match r {
        Ok(v) => Ok(effects_view(v@)),
        Err(m) => Err(m@),
    }
}

/// Handles a button pressed while a new reminder's day is chosen (the press is not yet answered).
fn create_reminder_button(
    user_settings: UserSettings,
    data: &str,
    has_message: bool,
    now: Instant,
) -> (res: Result<Vec<Effect>, String>)
    requires
        usable_instant(now),
        create_button_effects(user_settings@, data@, has_message, now) is Some,
    ensures
        Some(result_view(res)) == create_button_effects(user_settings@, data@, has_message, now),
{
    let mut res: Vec<Effect> = Vec::new();
    let language = user_settings.language.as_str();
    if str_eq(data, "today") {
        let text: &str = if str_eq(language, "en") {
            "Write your reminder time in the format Hour:Minute (only 24-hour format allowed!)"
        } else if str_eq(language, "ru") {
            "Напишите время для напоминания в виде Час:Минута"
        } else if str_eq(language, "by") {
            "Напішыце час для напамінка ў фармату Гадзіна:Мінута"
        } else {
            "This should not happen, please report this issue"
        };
        if has_message {
            res.push(Effect::EditCallbackMessage { text: String::from_str(text), markup: Markup::Plain });
        }
        let date = user_settings.get_current_day(now);
        res.push(Effect::SetState(State::RecieveReminderTime { user_settings, date }));
    } else if str_eq(data, "in_few_days") {
        let text: &str = if str_eq(language, "en") {
            "Write in how many days the reminder will arrive."
        } else if str_eq(language, "ru") {
            "Напишите через сколько дней должно прийти напоминание."
        } else if str_eq(language, "by") {
            "Напішыце праз колькі дзён прыдзе напамінак."
        } else {
            "This should not happen, please report this issue"
        };
        if has_message {
            res.push(Effect::EditCallbackMessage { text: String::from_str(text), markup: Markup::Plain });
        }
        res.push(Effect::SetState(State::RecieveReminderDate { user_settings, exact_date: false }));
    } else if str_eq(data, "exact_day") {
        if has_message {
            res.push(
                Effect::EditCallbackMessage {
                    text: String::from_str("Напиши дату в формате дд.мм.гггг "),
                    markup: Markup::Plain,
                },
            );
            res.push(Effect::SetState(State::RecieveReminderDate { user_settings, exact_date: true }));
        }
    } else {
        return Err(String::from_str("шо та непонятное with buttons when creating reminder"));
    }
    proof {
        assert(effects_view(res@) =~= match create_button_effects(user_settings@, data@, has_message, now) {
            Some(Ok(e)) => e,
            _ => seq![],
        });
    }
    Ok(res)
}

/// The inline keyboard of the buttons that offer other days, with "today" when asked.
fn other_days_keyboard(with_today: bool) -> (res: Markup)
    ensures
        res@ == if with_today {
            inline_markup(other_day_names().push("Сегодня"@), other_day_data().push("today"@), 1)
        } else {
            inline_markup(other_day_names(), other_day_data(), 1)
        },
{
    let mut names: Vec<&str> = vec!["Через пару дней", "Какого-то числа"];
    let mut data: Vec<&str> = vec!["in_few_days", "exact_day"];
    if with_today {
        names.push("Сегодня");
        data.push("today");
    }
    proof {
        if with_today {
            assert(str_views(names@) =~= other_day_names().push("Сегодня"@));
            assert(str_views(data@) =~= other_day_data().push("today"@));
        } else {
            assert(str_views(names@) =~= other_day_names());
            assert(str_views(data@) =~= other_day_data());
        }
    }
    Markup::Inline(make_inline_keyboard(names, data, 1))
}

/// Handles a button pressed while a finished reminder waits for confirmation (the press is not
/// yet answered).
fn final_polish_button(
    user_settings: UserSettings,
    date: String,
    time: String,
    what_to_remind: String,
    data: &str,
    has_message: bool,
    now: Instant,
) -> (res: Vec<Effect>)
    requires
        usable_instant(now),
        final_button_effects(user_settings@, date@, time@, what_to_remind@, data@, has_message, now) is Some,
    ensures
        Some(effects_view(res@)) == final_button_effects(
            user_settings@,
            date@,
            time@,
            what_to_remind@,
            data@,
            has_message,
            now,
        ),
{
    let ghost expected = final_button_effects(
        user_settings@,
        date@,
        time@,
        what_to_remind@,
        data@,
        has_message,
        now,
    ).unwrap();
    let mut res: Vec<Effect> = Vec::new();
    if str_eq(data, "yes") {
        let stamp = date.clone().concat(" ").concat(time.as_str());
        proof {
            reveal_strlit(" ");
        }
        let local = match parse_date_time(stamp.as_str()) {
            Some(l) => l,
            None => {
                assert(false);
                return res;
            },
        };
        let zone = user_settings.get_tz();
        let utc = match zone.to_utc(local) {
            Some(u) => u,
            None => {
                assert(false);
                return res;
            },
        };
        res.push(
            Effect::SaveReminderRequest {
                chat_id: user_settings.chat_id,
                language: user_settings.language.clone(),
                style_path: user_settings.style_path.clone(),
                what_to_remind,
                date_time: format_storage(&utc),
            },
        );
        if has_message {
            res.push(
                Effect::EditCallbackMessage {
                    text: String::from_str("Напоминание сохранено!"),
                    markup: Markup::Plain,
                },
            );
        }
        res.push(Effect::SetState(State::WaitForTask { user_settings }));
    } else if str_eq(data, "edit") {
        if has_message {
            let names: Vec<&str> = vec!["Дату", "Время", "Тему напоминания"];
            let keys: Vec<&str> = vec!["change_date", "change_time", "change_reminder_theme"];
            proof {
                assert(str_views(names@) =~= seq!["Дату"@, "Время"@, "Тему напоминания"@]);
                assert(str_views(keys@) =~= seq!["change_date"@, "change_time"@, "change_reminder_theme"@]);
            }
            let keyboard = make_inline_keyboard(names, keys, 1);
            res.push(
                Effect::EditCallbackMessage {
                    text: String::from_str("Что желаете изменить?"),
                    markup: Markup::Inline(keyboard),
                },
            );
        }
    } else if str_eq(data, "delete") {
        if has_message {
            res.push(
                Effect::EditCallbackMessage {
                    text: String::from_str("Напоминание отменено."),
                    markup: Markup::Plain,
                },
            );
        }
        res.push(Effect::SetState(State::WaitForTask { user_settings }));
    } else if str_eq(data, "change_date") {
        if has_message {
            let with_today = match parse_date(date.as_str()) {
                Some(d) => !same_date(&d, &user_settings.get_tz().local_at(now).date),
                None => false,
            };
            res.push(
                Effect::EditCallbackMessage {
                    text: String::from_str("Когда придёт напоминание?"),
                    markup: other_days_keyboard(with_today),
                },
            );
        }
    } else if str_eq(data, "change_time") {
        if has_message {
            res.push(Effect::DeleteCallbackMessage);
            res.push(plain("Введите время в формате ЧЧ:ММ"));
        }
        res.push(Effect::SetState(State::EditReminderTime { user_settings, date, what_to_remind }));
    } else if str_eq(data, "change_reminder_theme") {
        if has_message {
            res.push(Effect::DeleteCallbackMessage);
            res.push(plain("Введите тему напоминания"));
        }
        res.push(Effect::SetState(State::EditReminderTheme { user_settings, date, time }));
    } else if str_eq(data, "today") {
        match parse_time(time.as_str()) {
            Some(t) => {
                let clock = user_settings.get_tz().local_at(now);
                let in_past = t.hour < clock.hour || (t.hour == clock.hour && t.minute < clock.minute)
                    || (t.hour == clock.hour && t.minute == clock.minute && (clock.second > 0
                    || clock.nano > 0));
                if in_past {
                    if has_message {
                        let names: Vec<&str> = vec!["Да, хочу изменить время", "Нет, спасибо."];
                        let keys: Vec<&str> = vec!["yes-change-time", "no-dont-change-time"];
                        proof {
                            assert(str_views(names@) =~= seq!["Да, хочу изменить время"@, "Нет, спасибо."@]);
                            assert(str_views(keys@) =~= seq!["yes-change-time"@, "no-dont-change-time"@]);
                        }
                        let keyboard = make_inline_keyboard(names, keys, 1);
                        res.push(
                            Effect::EditCallbackMessage {
                                text: String::from_str(
                                    "Ваше время находится в прошлом\n Что бы поменять дату на сегодня вам надо изменить время. Согласны?",
                                ),
                                markup: Markup::Inline(keyboard),
                            },
                        );
                    }
                } else {
                    let today = user_settings.get_current_day(now);
                    let polished = update_to_final_polish(user_settings, today, time, what_to_remind);
                    return polished;
                }
            },
            None => {},
        }
    } else if str_eq(data, "yes-change-time") {
        if has_message {
            let today = user_settings.get_current_day(now);
            res.push(Effect::DeleteCallbackMessage);
            res.push(plain("Напишите время в формате ЧЧ:ММ"));
            res.push(
                Effect::SetState(State::EditReminderTime { user_settings, date: today, what_to_remind }),
            );
        }
    } else if str_eq(data, "no-dont-change-time") {
        if has_message {
            res.push(
                Effect::EditCallbackMessage {
                    text: String::from_str("Так когда придёт напоминание?"),
                    markup: other_days_keyboard(false),
                },
            );
        }
    } else if str_eq(data, "in_few_days") {
        if has_message {
            res.push(Effect::DeleteCallbackMessage);
        }
        res.push(plain("Напишите через сколько дней придёт напоминание"));
        res.push(
            Effect::SetState(
                State::EditReminderDate { user_settings, time, what_to_remind, exact_date: false },
            ),
        );
    } else if str_eq(data, "exact_day") {
        res.push(plain("Напишите день в формате дд.мм.ГГ"));
        res.push(
            Effect::SetState(
                State::EditReminderDate { user_settings, time, what_to_remind, exact_date: true },
            ),
        );
    } else {
        assert(false);
    }
    proof {
        assert(effects_view(res@) =~= expected);
    }
    res
}

/// The presses whose handlers may read the user's wall clock: those that arrive while a new
/// reminder's day is chosen or a finished reminder waits for confirmation.
pub open spec fn button_reads_wall_clock(state: StateView, data: Option<Seq<char>>) -> bool {
    data is Some && (state is CreateReminder || state is ReminderFinalPolish)
}

/// Handles a button press in the chat's current state; the effects end with the answer to the
/// press, unless the handler fails with an error.
pub fn filter_buttons(
    state: State,
    data: Option<&str>,
    has_message: bool,
    now: Instant,
) -> (res: Result<Vec<Effect>, String>)
    requires
        button_reads_wall_clock(state@, opt_view(data)) ==> usable_instant(now),
        button_effects(state@, opt_view(data), has_message, now) is Some,
    ensures
        Some(result_view(res)) == button_effects(state@, opt_view(data), has_message, now),
{
    let d = match data {
        Some(d) => d,
        None => {
            let res: Vec<Effect> = Vec::new();
            proof {
                assert(effects_view(res@) =~= seq![]);
            }
            return Ok(res);
        },
    };
    match state {
        State::CreateReminder { user_settings } => {
            match create_reminder_button(user_settings, d, has_message, now) {
                Ok(mut res) => {
                    let ghost pre = effects_view(res@);
                    res.push(Effect::AnswerCallback);
                    proof {
                        assert(effects_view(res@) =~= pre + seq![EffectView::AnswerCallback]);
                    }
                    Ok(res)
                },
                Err(m) => Err(m),
            }
        },
        State::ReminderFinalPolish { user_settings, date, time, what_to_remind } => {
            let mut res = final_polish_button(
                user_settings,
                date,
                time,
                what_to_remind,
                d,
                has_message,
                now,
            );
            let ghost pre = effects_view(res@);
            res.push(Effect::AnswerCallback);
            proof {
                assert(effects_view(res@) =~= pre + seq![EffectView::AnswerCallback]);
            }
            Ok(res)
        },
        _ => {
            let mut res: Vec<Effect> = Vec::new();
            res.push(Effect::AnswerCallback);
            proof {
                assert(effects_view(res@) =~= seq![EffectView::AnswerCallback]);
            }
            Ok(res)
        },
    }
}

}
