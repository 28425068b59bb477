use vstd::prelude::*;

use crate::buttons::{
    button_effects, button_reads_wall_clock, filter_buttons, final_button_effects, result_view,
};
use crate::clock::{
    known_zone, parse_date, parse_date_time, parse_time, usable_everywhere, usable_instant,
    Instant, Zone,
};
use crate::dialogue::{
    command_effects, edit_reminder_theme, handle_commands, Command, final_polish_effects, opt_string_view, opt_view, receive_lang, receive_lang_effects,
    receive_location, receive_location_effects, receive_style, receive_style_effects,
    receive_style_ok, recieve_reminder_theme, reminder_final_polish, start, start_effects,
    wait_for_task, wait_for_task_ok, wait_for_task_outcome, MessageOutcome, MessageOutcomeView,
};
use crate::effect::{effects_view, send_plain, Effect, EffectView};
use crate::schedule::{
    date_answer, edit_date_effects, edit_reminder_date, edit_reminder_time, edit_time_effects,
    recieve_date_effects, recieve_reminder_date, recieve_reminder_time, recieve_time_effects,
    time_answer,
};
use crate::settings::{State, StateView, UserSettings};
use crate::styles::{find_style, is_language_code, main_buttons, styles_lang};
use crate::text::{parse_u64, str_eq};

verus! {

/// What a message leads to in each state of the dialogue, at the moment `now`; None where the
/// state's handler aborts.
pub open spec fn message_outcome(
    state: StateView,
    chat_id: i64,
    text: Option<Seq<char>>,
    zone: Option<Seq<char>>,
    now: Instant,
) -> Option<MessageOutcomeView> {
    match state {
        StateView::Start => Some(MessageOutcomeView::Reply(start_effects())),
        StateView::RecieveLanguage => Some(MessageOutcomeView::Reply(receive_lang_effects(text))),
        StateView::RecieveStyle { language } => if receive_style_ok(language, text) {
            Some(MessageOutcomeView::Reply(receive_style_effects(language, text)))
        } else {
            None
        },
        StateView::RecieveLocation { language, style_path } => if zone is Some && !is_language_code(
            language,
        ) {
            None
        } else {
            Some(
                MessageOutcomeView::Reply(receive_location_effects(language, style_path, chat_id, zone)),
            )
        },
        StateView::WaitForTask { user_settings } => if wait_for_task_ok(user_settings, text) {
            Some(wait_for_task_outcome(user_settings, text))
        } else {
            None
        },
        StateView::CreateReminder { .. } => Some(MessageOutcomeView::Reply(seq![])),
        StateView::RecieveReminderDate { user_settings, exact_date } => match recieve_date_effects(
            user_settings,
            exact_date,
            text,
            now,
        ) {
            Some(e) => Some(MessageOutcomeView::Reply(e)),
            None => None,
        },
        StateView::RecieveReminderTime { user_settings, date } => match recieve_time_effects(
            user_settings,
            date,
            text,
            now,
        ) {
            Some(e) => Some(MessageOutcomeView::Reply(e)),
            None => None,
        },
        StateView::RecieveReminderTheme { user_settings, date, time } => Some(
            MessageOutcomeView::Reply(
                match text {
                    Some(t) => final_polish_effects(user_settings, date, time, t),
                    None => seq![],
                },
            ),
        ),
        StateView::ReminderFinalPolish { .. } => Some(
            MessageOutcomeView::Reply(
                if text is Some {
                    seq![EffectView::DeleteIncomingMessage]
                } else {
                    seq![]
                },
            ),
        ),
        StateView::EditReminderDate { user_settings, time, what_to_remind, exact_date } =>
            match edit_date_effects(user_settings, time, what_to_remind, exact_date, text, now) {
            Some(e) => Some(MessageOutcomeView::Reply(e)),
            None => None,
        },
        StateView::EditReminderTime { user_settings, date, what_to_remind } => match edit_time_effects(
            user_settings,
            date,
            what_to_remind,
            text,
            now,
        ) {
            Some(e) => Some(MessageOutcomeView::Reply(e)),
            None => None,
        },
        StateView::EditReminderTheme { user_settings, date, time } => Some(
            MessageOutcomeView::Reply(
                match text {
                    Some(t) => final_polish_effects(user_settings, date, time, t),
                    None => seq![send_plain("Пожалуйста введите тему напоминания нормально."@)],
                },
            ),
        ),
    }
}

/// Whether the tz database knows the user's time zone.
fn zone_known(user_settings: &UserSettings) -> (res: bool)
    ensures
        res == known_zone(user_settings.timezone@),
{
    Zone::parse(user_settings.timezone.as_str()).is_some()
}

/// Whether judging a reminder date goes through (see `date_answer`).
fn date_answer_defined(exact_date: bool, text: &str, user_settings: &UserSettings, now: Instant) -> (res: bool)
    requires
        usable_instant(now),
    ensures
        res == date_answer(exact_date, text@, user_settings.timezone@, now) is Some,
{
    if exact_date {
        match parse_date(text) {
            Some(_) => zone_known(user_settings),
            None => true,
        }
    } else {
        match parse_u64(text) {
            Some(days) => zone_known(user_settings) && user_settings.get_tz().add_days_at(now, days).is_some(),
            None => true,
        }
    }
}

/// Whether judging a reminder time goes through (see `time_answer`).
fn time_answer_defined(text: &str, date: &str, user_settings: &UserSettings) -> (res: bool)
    ensures
        forall|now: Instant| res == (#[trigger] time_answer(text@, date@, user_settings.timezone@, now) is Some),
{
    match parse_time(text) {
        Some(_) => zone_known(user_settings) && parse_date(date).is_some(),
        None => true,
    }
}

/// The states whose message handlers may read the user's wall clock.
pub open spec fn message_reads_wall_clock(state: StateView) -> bool {
    ||| state is RecieveReminderDate
    ||| state is RecieveReminderTime
    ||| state is EditReminderDate
    ||| state is EditReminderTime
}

/// What a message leads to: a command the message carries is answered whatever the state;
/// any other message goes to the handler of the chat's state.
pub open spec fn message_route(
    state: StateView,
    chat_id: i64,
    text: Option<Seq<char>>,
    zone: Option<Seq<char>>,
    command: Option<Command>,
    now: Instant,
) -> Option<MessageOutcomeView> {
    match command {
        Some(cmd) => Some(MessageOutcomeView::Reply(command_effects(cmd, state))),
        None => message_outcome(state, chat_id, text, zone, now),
    }
}

/// Carries out what an incoming message leads to, at the moment `now`: the command it carries
/// (as the bot's command parser read it), or else the handler of the chat's state, given the
/// message's text and the time zone found for the location it holds. None where that handler
/// aborts, and where it may read a wall clock at a moment that chrono cannot read there.
pub fn on_message(
    state: State,
    chat_id: i64,
    text: Option<&str>,
    zone: Option<String>,
    command: Option<Command>,
    now: Instant,
) -> (res: Option<MessageOutcome>)
    ensures
        match res {
            Some(o) => message_route(
                state@,
                chat_id,
                opt_view(text),
                opt_string_view(zone),
                command,
                now,
            ) == Some(o@),
            None => command is None && (message_outcome(
                state@,
                chat_id,
                opt_view(text),
                opt_string_view(zone),
                now,
            ) is None || (message_reads_wall_clock(state@) && !usable_instant(now))),
        },
{
    if let Some(cmd) = command {
        return Some(MessageOutcome::Reply(handle_commands(cmd, &state)));
    }
    let ghost before = state@;
    let ghost zone_view = opt_string_view(zone);
    let readable = usable_everywhere(now);
    let res = match state {
        State::Start => Some(MessageOutcome::Reply(start())),
        State::RecieveLanguage => Some(MessageOutcome::Reply(receive_lang(text))),
        State::RecieveStyle { language } => {
            let dict = styles_lang();
            proof {
                assert(crate::styles::emojis_of(dict.styles@) =~= crate::dialogue::style_emojis());
            }
            let ok = match text {
                Some(t) => find_style(dict.styles, t).is_none() || is_code(&language),
                None => true,
            };
            if ok {
                Some(MessageOutcome::Reply(receive_style(language, text)))
            } else {
                None
            }
        },
        State::RecieveLocation { language, style_path } => {
            if zone.is_some() && !is_code(&language) {
                None
            } else {
                Some(MessageOutcome::Reply(receive_location(language, style_path, chat_id, zone)))
            }
        },
        State::WaitForTask { user_settings } => {
            let dict = main_buttons();
            proof {
                assert(crate::styles::emojis_of(dict.styles@) =~= crate::dialogue::menu_emojis());
            }
            let ok = match text {
                Some(t) => match find_style(dict.styles, t) {
                    Some(i) => i != 0 || is_code(&user_settings.language),
                    None => true,
                },
                None => true,
            };
            if ok {
                Some(wait_for_task(user_settings, text))
            } else {
                None
            }
        },
        State::CreateReminder { .. } => {
            let none: Vec<Effect> = Vec::new();
            proof {
                assert(effects_view(none@) =~= seq![]);
            }
            Some(MessageOutcome::Reply(none))
        },
        State::RecieveReminderDate { user_settings, exact_date } => {
            let ok = readable && match text {
                Some(t) => date_answer_defined(exact_date, t, &user_settings, now),
                None => true,
            };
            if ok {
                Some(MessageOutcome::Reply(recieve_reminder_date(user_settings, exact_date, text, now)))
            } else {
                None
            }
        },
        State::RecieveReminderTime { user_settings, date } => {
            let ok = match text {
                Some(t) => time_answer_defined(t, date.as_str(), &user_settings),
                None => true,
            } && readable;
            if ok {
                Some(MessageOutcome::Reply(recieve_reminder_time(user_settings, date, text, now)))
            } else {
                None
            }
        },
        State::RecieveReminderTheme { user_settings, date, time } => Some(
            MessageOutcome::Reply(recieve_reminder_theme(user_settings, date, time, text)),
        ),
        State::ReminderFinalPolish { .. } => Some(MessageOutcome::Reply(reminder_final_polish(text))),
        State::EditReminderDate { user_settings, time, what_to_remind, exact_date } => {
            let ok = readable && match text {
                Some(t) => date_answer_defined(exact_date, t, &user_settings, now),
                None => true,
            };
            if ok {
                Some(
                    MessageOutcome::Reply(
                        edit_reminder_date(user_settings, time, what_to_remind, exact_date, text, now),
                    ),
                )
            } else {
                None
            }
        },
        State::EditReminderTime { user_settings, date, what_to_remind } => {
            let ok = match text {
                Some(t) => time_answer_defined(t, date.as_str(), &user_settings),
                None => true,
            } && readable;
            if ok {
                Some(
                    MessageOutcome::Reply(edit_reminder_time(user_settings, date, what_to_remind, text, now)),
                )
            } else {
                None
            }
        },
        State::EditReminderTheme { user_settings, date, time } => Some(
            MessageOutcome::Reply(edit_reminder_theme(user_settings, date, time, text)),
        ),
    };
    assert(match res {
        Some(o) => message_outcome(before, chat_id, opt_view(text), zone_view, now) == Some(o@),
        None => message_outcome(before, chat_id, opt_view(text), zone_view, now) is None || (
        message_reads_wall_clock(before) && !usable_instant(now)),
    });
    res
}

/// Whether a string is one of the bot's language codes.
fn is_code(s: &String) -> (res: bool)
    ensures
        res == is_language_code(s@),
{
    str_eq(s.as_str(), "ru") || str_eq(s.as_str(), "en") || str_eq(s.as_str(), "by")
}

/// Whether a button press in the final check goes through (see `final_button_effects`).
fn final_button_defined(
    user_settings: &UserSettings,
    date: &String,
    time: &String,
    data: &str,
    has_message: bool,
) -> (res: bool)
    ensures
        forall|what: Seq<char>, now: Instant|
            res == (#[trigger] final_button_effects(
                user_settings@,
                date@,
                time@,
                what,
                data@,
                has_message,
                now,
            ) is Some),
{
    proof {
        reveal_strlit(" ");
    }
    if str_eq(data, "yes") {
        let stamp = date.clone().concat(" ").concat(time.as_str());
        match parse_date_time(stamp.as_str()) {
            Some(local) => zone_known(user_settings) && user_settings.get_tz().to_utc(local).is_some(),
            None => false,
        }
    } else if str_eq(data, "edit") || str_eq(data, "delete") {
        true
    } else if str_eq(data, "change_date") {
        !has_message || parse_date(date.as_str()).is_none() || zone_known(user_settings)
    } else if str_eq(data, "change_time") || str_eq(data, "change_reminder_theme") {
        true
    } else if str_eq(data, "today") {
        parse_time(time.as_str()).is_none() || zone_known(user_settings)
    } else if str_eq(data, "yes-change-time") {
        !has_message || zone_known(user_settings)
    } else {
        str_eq(data, "no-dont-change-time") || str_eq(data, "in_few_days") || str_eq(data, "exact_day")
    }
}

/// Carries out the handler of the chat's state for a button press (the button's data, and
/// whether the message that carried the button can still be changed), at the moment `now`.
/// None where that handler aborts, and where it may read a wall clock at a moment that chrono
/// cannot read there.
pub fn on_button(state: State, data: Option<&str>, has_message: bool, now: Instant) -> (res: Option<Result<Vec<Effect>, String>>)
    ensures
        match res {
            Some(r) => button_effects(state@, opt_view(data), has_message, now) == Some(result_view(r)),
            None => button_effects(state@, opt_view(data), has_message, now) is None || (
            button_reads_wall_clock(state@, opt_view(data)) && !usable_instant(now)),
        },
{
    let ok = match data {
        None => true,
        Some(d) => match &state {
            State::CreateReminder { user_settings } => usable_everywhere(now) && (!str_eq(d, "today")
                || zone_known(user_settings)),
            State::ReminderFinalPolish { user_settings, date, time, .. } => usable_everywhere(now)
                && final_button_defined(user_settings, date, time, d, has_message),
            _ => true,
        },
    };
    if ok {
        Some(filter_buttons(state, data, has_message, now))
    } else {
        None
    }
}

}
