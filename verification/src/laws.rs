use vstd::prelude::*;

use crate::buttons::{
    button_effects, create_button_effects, edit, final_button_effects, if_message, other_day_data,
    other_day_names, time_of_day_before,
};
use crate::clock::{
    dmy_text, known_zone, parsed_date, parsed_date_time, parsed_time, storage_text, utc_calendar,
    zone_add_days, zone_local_time, zone_local_to_utc, Instant, LocalDate, LocalDateTime, TimeOfDay,
};
use crate::dialogue::{
    command_effects, final_polish_effects, inline_markup, receive_lang_effects, receive_location_effects,
    receive_style_effects, wait_for_task_outcome, Command, MessageOutcomeView,
};
use crate::effect::{send_plain, EffectView};
use crate::reminders::{agreements, first_equal, lemma_first_equal, reminders_reply_effects, Reminder};
use crate::router::{message_outcome, message_route};
use crate::schedule::{
    date_answer, edit_date_effects, edit_time_effects, recieve_date_effects, recieve_time_effects,
    time_answer, AnswerView,
};
use crate::settings::{reminder_settings, StateView, UserSettingsView};
use crate::text::parsed_u64;
use crate::styles::{is_language_code, is_language_name, language_code, language_names};

verus! {

/// Every language a state carries is one of the bot's language codes.
pub open spec fn state_wf(s: StateView) -> bool {
    match s {
        StateView::Start => true,
        StateView::RecieveLanguage => true,
        StateView::RecieveStyle { language } => is_language_code(language),
        StateView::RecieveLocation { language, .. } => is_language_code(language),
        StateView::WaitForTask { user_settings } => is_language_code(user_settings.language),
        StateView::CreateReminder { user_settings } => is_language_code(user_settings.language),
        StateView::RecieveReminderDate { user_settings, .. } => is_language_code(user_settings.language),
        StateView::RecieveReminderTime { user_settings, .. } => is_language_code(user_settings.language),
        StateView::RecieveReminderTheme { user_settings, .. } => is_language_code(user_settings.language),
        StateView::ReminderFinalPolish { user_settings, .. } => is_language_code(user_settings.language),
        StateView::EditReminderDate { user_settings, .. } => is_language_code(user_settings.language),
        StateView::EditReminderTime { user_settings, .. } => is_language_code(user_settings.language),
        StateView::EditReminderTheme { user_settings, .. } => is_language_code(user_settings.language),
    }
}

/// Every state a list of effects moves the dialogue to is well formed.
pub open spec fn moves_to_wf(e: Seq<EffectView>) -> bool {
    forall|i: int| 0 <= i < e.len() ==> (#[trigger] e[i] matches EffectView::SetState(s) ==> state_wf(s))
}

/// `/reset` always sends the dialogue back to its start.
pub proof fn law_reset_restarts(state: StateView)
    ensures
        command_effects(Command::Reset, state).last() == EffectView::SetState(StateView::Start),
        moves_to_wf(command_effects(Command::Reset, state)),
{
}

/// A command is answered as a command in every state of the dialogue, before any state's
/// handler sees the message.
pub proof fn law_commands_come_first(
    state: StateView,
    chat_id: i64,
    text: Option<Seq<char>>,
    zone: Option<Seq<char>>,
    cmd: Command,
    now: Instant,
)
    ensures
        message_route(state, chat_id, text, zone, Some(cmd), now) == Some(
            MessageOutcomeView::Reply(command_effects(cmd, state)),
        ),
{
}

/// Any other message goes to the handler of the chat's state; while a new reminder's day is
/// chosen by button, a message reaches no handler and changes nothing.
pub proof fn law_other_messages_go_to_the_state(
    state: StateView,
    chat_id: i64,
    text: Option<Seq<char>>,
    zone: Option<Seq<char>>,
    now: Instant,
)
    ensures
        message_route(state, chat_id, text, zone, None, now) == message_outcome(
            state,
            chat_id,
            text,
            zone,
            now,
        ),
        state is CreateReminder ==> message_route(state, chat_id, text, zone, None, now) == Some(
            MessageOutcomeView::Reply(seq![]),
        ),
{
}

/// `/cancel` leaves the reminder being made for the main menu, keeping the user's settings; in
/// any other state it does nothing.
pub proof fn law_cancel_keeps_settings(state: StateView)
    ensures
        reminder_settings(state) matches Some(u) ==> command_effects(Command::Cancel, state).last()
            == EffectView::SetState(StateView::WaitForTask { user_settings: u }),
        reminder_settings(state) is None ==> command_effects(Command::Cancel, state).len() == 0,
        state_wf(state) ==> moves_to_wf(command_effects(Command::Cancel, state)),
{
}

/// The language keyboard offers only languages the bot speaks, each with its own code.
pub proof fn law_offered_languages_are_spoken()
    ensures
        forall|i: int|
            0 <= i < language_names().len() ==> is_language_name(#[trigger] language_names()[i])
                && is_language_code(language_code(language_names()[i])),
        forall|i: int, j: int|
            0 <= i < j < language_names().len() ==> language_code(#[trigger] language_names()[i])
                != language_code(#[trigger] language_names()[j]),
{
    reveal_strlit("ru");
    reveal_strlit("en");
    reveal_strlit("by");
    reveal_strlit("Русский");
    reveal_strlit("English");
    reveal_strlit("Беларускі");
    assert(language_names()[0] == "Русский"@);
    assert(language_names()[1] == "English"@);
    assert(language_names()[2] == "Беларускі"@);
    assert(language_names().contains(language_names()[0]));
    assert(language_names().contains(language_names()[1]));
    assert(language_names().contains(language_names()[2]));
    assert("English"@[0] != "Русский"@[0]);
    assert("Беларускі"@[0] != "Русский"@[0]);
    assert("Беларускі"@[0] != "English"@[0]);
    assert(language_code(language_names()[0]) == "ru"@);
    assert(language_code(language_names()[1]) == "en"@);
    assert(language_code(language_names()[2]) == "by"@);
    assert("ru"@[0] != "en"@[0]);
    assert("ru"@[0] != "by"@[0]);
    assert("en"@[0] != "by"@[0]);
}

/// From a well-formed state, a message is never refused for want of a known language, and
/// every state it moves the dialogue to is well formed again.
pub proof fn law_messages_keep_languages(
    state: StateView,
    chat_id: i64,
    text: Option<Seq<char>>,
    zone: Option<Seq<char>>,
    now: Instant,
)
    requires
        state_wf(state),
    ensures
        state is RecieveStyle ==> message_outcome(state, chat_id, text, zone, now) is Some,
        state is RecieveLocation ==> message_outcome(state, chat_id, text, zone, now) is Some,
        state is WaitForTask ==> message_outcome(state, chat_id, text, zone, now) is Some,
        message_outcome(state, chat_id, text, zone, now) matches Some(MessageOutcomeView::Reply(e))
            ==> moves_to_wf(e),
{
    match state {
        StateView::RecieveLanguage => {
            let e = receive_lang_effects(text);
            assert(moves_to_wf(e));
        },
        StateView::RecieveStyle { language } => {
            let e = receive_style_effects(language, text);
            assert(moves_to_wf(e));
        },
        StateView::RecieveLocation { language, style_path } => {
            let e = receive_location_effects(language, style_path, chat_id, zone);
            assert(moves_to_wf(e));
        },
        StateView::WaitForTask { user_settings } => {
            match wait_for_task_outcome(user_settings, text) {
                MessageOutcomeView::Reply(e) => assert(moves_to_wf(e)),
                _ => {},
            }
        },
        StateView::RecieveReminderDate { user_settings, exact_date } => {
            match recieve_date_effects(user_settings, exact_date, text, now) {
                Some(e) => assert(moves_to_wf(e)),
                None => {},
            }
        },
        StateView::RecieveReminderTime { user_settings, date } => {
            match recieve_time_effects(user_settings, date, text, now) {
                Some(e) => assert(moves_to_wf(e)),
                None => {},
            }
        },
        StateView::RecieveReminderTheme { user_settings, date, time } => {
            match text {
                Some(t) => assert(moves_to_wf(final_polish_effects(user_settings, date, time, t))),
                None => {},
            }
        },
        StateView::EditReminderDate { user_settings, time, what_to_remind, exact_date } => {
            match edit_date_effects(user_settings, time, what_to_remind, exact_date, text, now) {
                Some(e) => assert(moves_to_wf(e)),
                None => {},
            }
        },
        StateView::EditReminderTime { user_settings, date, what_to_remind } => {
            match edit_time_effects(user_settings, date, what_to_remind, text, now) {
                Some(e) => assert(moves_to_wf(e)),
                None => {},
            }
        },
        StateView::EditReminderTheme { user_settings, date, time } => {
            match text {
                Some(t) => assert(moves_to_wf(final_polish_effects(user_settings, date, time, t))),
                None => {},
            }
        },
        _ => {},
    }
}

/// From a well-formed state, every state a button press moves the dialogue to is well formed.
pub proof fn law_buttons_keep_languages(
    state: StateView,
    data: Option<Seq<char>>,
    has_message: bool,
    now: Instant,
)
    requires
        state_wf(state),
    ensures
        button_effects(state, data, has_message, now) matches Some(Ok(e)) ==> moves_to_wf(e),
{
    match data {
        Some(d) => match state {
            StateView::CreateReminder { user_settings } => {
                match create_button_effects(user_settings, d, has_message, now) {
                    Some(Ok(e)) => {
                        assert(moves_to_wf(e));
                        assert(moves_to_wf(e + seq![EffectView::AnswerCallback]));
                    },
                    _ => {},
                }
            },
            StateView::ReminderFinalPolish { user_settings, date, time, what_to_remind } => {
                match final_button_effects(user_settings, date, time, what_to_remind, d, has_message, now) {
                    Some(e) => {
                        assert(moves_to_wf(e));
                        assert(moves_to_wf(e + seq![EffectView::AnswerCallback]));
                    },
                    None => {},
                }
            },
            _ => {},
        },
        None => {},
    }
}

/// A day.month.year date is accepted only when chrono reads it and it is not before today's
/// UTC date; it is kept exactly as typed.
pub proof fn law_accepted_dates_are_not_past(text: Seq<char>, zone: Seq<char>, now: Instant)
    requires
        utc_calendar(now.secs as int, now.nanos as int) is Some,
    ensures
        date_answer(true, text, zone, now) == Some(AnswerView::Accepted(text)) ==> (parsed_date(
            text,
        ) matches Some(d) && !d.before(utc_calendar(now.secs as int, now.nanos as int).unwrap().date)),
        date_answer(true, text, zone, now) matches Some(AnswerView::Accepted(kept)) ==> kept == text,
{
}

/// A time is accepted only when chrono reads it and, on the reminder's day, it is not before
/// the user's wall clock; it is kept exactly as typed.
pub proof fn law_accepted_times_are_not_past(text: Seq<char>, date: Seq<char>, zone: Seq<char>, now: Instant)
    ensures
        time_answer(text, date, zone, now) matches Some(AnswerView::Accepted(kept)) ==> {
            &&& kept == text
            &&& parsed_time(text) matches Some(t)
            &&& parsed_date(date) matches Some(d)
            &&& !t.on(d).before(zone_local_time(zone, now.secs as int, now.nanos as int))
        },
{
}

/// A sent reminder is stopped only by a text equal to its agreement phrase, and it is the first
/// such reminder that is stopped.
pub proof fn law_stop_needs_the_agreement(text: Seq<char>, sent: Seq<Reminder>, id: i64)
    ensures
        reminders_reply_effects(text, sent).contains(EffectView::DeleteReminder { id }) ==> exists|i: int|
            0 <= i < sent.len() && #[trigger] sent[i].id == id && sent[i].reminder_agreement@ == text
                && forall|j: int| 0 <= j < i ==> sent[j].reminder_agreement@ != text,
{
    lemma_first_equal(agreements(sent), text);
    let e = reminders_reply_effects(text, sent);
    if e.contains(EffectView::DeleteReminder { id }) {
        let k = choose|k: int| 0 <= k < e.len() && e[k] == EffectView::DeleteReminder { id };
        match first_equal(agreements(sent), text) {
            Some(i) => {
                assert(sent[i].id == id);
                assert(agreements(sent)[i] == sent[i].reminder_agreement@);
                assert forall|j: int| 0 <= j < i implies sent[j].reminder_agreement@ != text by {
                    assert(agreements(sent)[j] == sent[j].reminder_agreement@);
                }
            },
            None => {},
        }
    }
}

/// The reminder shown for confirmation is the one saved: pressing "yes" on the summary queues a
/// reminder with the user's chat, language and style, the text that was shown, and the shown
/// day and time converted from the user's wall clock to UTC, then returns to the main menu.
/// Pressing "delete" returns to the main menu with nothing saved.
pub proof fn law_confirmation_saves_what_was_shown(
    user_settings: UserSettingsView,
    date: Seq<char>,
    time: Seq<char>,
    what_to_remind: Seq<char>,
    has_message: bool,
    now: Instant,
)
    ensures
        ({
            let shown = final_polish_effects(user_settings, date, time, what_to_remind);
            let state = StateView::ReminderFinalPolish { user_settings, date, time, what_to_remind };
            &&& shown.last() == EffectView::SetState(state)
            &&& button_effects(state, Some("yes"@), has_message, now) matches Some(Ok(e)) ==> {
                &&& e[0] == EffectView::SaveReminderRequest {
                    chat_id: user_settings.chat_id,
                    language: user_settings.language,
                    style_path: user_settings.style_path,
                    what_to_remind,
                    date_time: storage_text(
                        zone_local_to_utc(
                            user_settings.timezone,
                            parsed_date_time(date + " "@ + time).unwrap(),
                        ).unwrap(),
                    ),
                }
                &&& e[e.len() - 2] == EffectView::SetState(StateView::WaitForTask { user_settings })
                &&& e.last() == EffectView::AnswerCallback
            }
            &&& button_effects(state, Some("delete"@), has_message, now) == Some(
                Ok::<Seq<EffectView>, Seq<char>>(
                    if_message(
                        has_message,
                        seq![edit("Напоминание отменено."@, crate::keyboard::MarkupView::Plain)],
                    ) + seq![
                        EffectView::SetState(StateView::WaitForTask { user_settings }),
                        EffectView::AnswerCallback,
                    ],
                ),
            )
        }),
{
    let state = StateView::ReminderFinalPolish { user_settings, date, time, what_to_remind };
    reveal_strlit("yes");
    reveal_strlit("delete");
    reveal_strlit("edit");
    assert("yes"@ != "delete"@) by {
        assert("yes"@[0] != "delete"@[0]);
    }
    assert("edit"@ != "delete"@) by {
        assert("edit"@[0] != "delete"@[0]);
    }
    match button_effects(state, Some("yes"@), has_message, now) {
        Some(Ok(e)) => {
            let f = final_button_effects(user_settings, date, time, what_to_remind, "yes"@, has_message, now).unwrap();
            assert(e == f + seq![EffectView::AnswerCallback]);
        },
        _ => {},
    }
    let g = final_button_effects(user_settings, date, time, what_to_remind, "delete"@, has_message, now).unwrap();
    assert(g + seq![EffectView::AnswerCallback] =~= if_message(
        has_message,
        seq![edit("Напоминание отменено."@, crate::keyboard::MarkupView::Plain)],
    ) + seq![
        EffectView::SetState(StateView::WaitForTask { user_settings }),
        EffectView::AnswerCallback,
    ]);
}

}

verus! {

/// Dates are ordered by year, then month, then day: an earlier year, or the same year and an
/// earlier month, or the same month and an earlier day comes first; no date comes before itself,
/// and of two dates at most one comes before the other.
pub proof fn law_dates_are_ordered_by_year_month_day(a: LocalDate, b: LocalDate)
    ensures
        a.year < b.year ==> a.before(b),
        a.year == b.year && a.month < b.month ==> a.before(b),
        a.year == b.year && a.month == b.month && a.day < b.day ==> a.before(b),
        !a.before(a),
        !(a.before(b) && b.before(a)),
{
}

/// Wall-clock times are ordered by date, then hour, minute, second and nanosecond, each
/// deciding only where the ones before it are equal; no time comes before itself, and of two
/// times at most one comes before the other.
pub proof fn law_times_are_ordered_by_date_then_clock(a: LocalDateTime, b: LocalDateTime)
    ensures
        a.date.before(b.date) ==> a.before(b),
        a.date == b.date && a.hour < b.hour ==> a.before(b),
        a.date == b.date && a.hour == b.hour && a.minute < b.minute ==> a.before(b),
        a.date == b.date && a.hour == b.hour && a.minute == b.minute && a.second < b.second
            ==> a.before(b),
        a.date == b.date && a.hour == b.hour && a.minute == b.minute && a.second == b.second
            && a.nano < b.nano ==> a.before(b),
        !a.before(a),
        !(a.before(b) && b.before(a)),
{
}

/// A typed day.month.year date that chrono reads is accepted, as typed, exactly when it does not
/// come before today's UTC date, and refused as past otherwise (for a user whose zone is known).
pub proof fn law_dates_from_today_on_are_accepted(text: Seq<char>, d: LocalDate, zone: Seq<char>, now: Instant)
    requires
        utc_calendar(now.secs as int, now.nanos as int) is Some,
        parsed_date(text) == Some(d),
        known_zone(zone),
    ensures
        !d.before(utc_calendar(now.secs as int, now.nanos as int).unwrap().date) ==> date_answer(
            true,
            text,
            zone,
            now,
        ) == Some(AnswerView::Accepted(text)),
        d.before(utc_calendar(now.secs as int, now.nanos as int).unwrap().date) ==> date_answer(
            true,
            text,
            zone,
            now,
        ) == Some(AnswerView::Rejected("Пожалуйста введите будущую дату"@)),
{
}

/// A typed hour:minute that chrono reads, for a day chrono reads, is accepted, as typed,
/// exactly when that minute of that day does not come before the user's wall clock, and refused
/// as past otherwise (for a user whose zone is known).
pub proof fn law_times_from_now_on_are_accepted(
    text: Seq<char>,
    t: TimeOfDay,
    date: Seq<char>,
    d: LocalDate,
    zone: Seq<char>,
    now: Instant,
)
    requires
        parsed_time(text) == Some(t),
        parsed_date(date) == Some(d),
        known_zone(zone),
    ensures
        !t.on(d).before(zone_local_time(zone, now.secs as int, now.nanos as int)) ==> time_answer(
            text,
            date,
            zone,
            now,
        ) == Some(AnswerView::Accepted(text)),
        t.on(d).before(zone_local_time(zone, now.secs as int, now.nanos as int)) ==> time_answer(
            text,
            date,
            zone,
            now,
        ) == Some(AnswerView::Rejected("Пожалуйста введите будущее время."@)),
{
}

/// Text that chrono or the number parser cannot read is refused with the message for its
/// kind, whatever the zone.
pub proof fn law_unreadable_answers_are_refused(
    text: Seq<char>,
    date: Seq<char>,
    zone: Seq<char>,
    now: Instant,
)
    ensures
        parsed_date(text) is None ==> date_answer(true, text, zone, now) == Some(
            AnswerView::Rejected("Invalid date. Please enter a valid date in the format dd.mm.yyyy"@),
        ),
        parsed_u64(text) is None ==> date_answer(false, text, zone, now) == Some(
            AnswerView::Rejected("Invalid date. Please enter a valid day."@),
        ),
        parsed_time(text) is None ==> time_answer(text, date, zone, now) == Some(
            AnswerView::Rejected("Пожалуйста введите корректное время."@),
        ),
{
}

/// A day count that parses is counted on the user's wall clock: the answer is the date that
/// many days after now in the user's zone, printed as day.month.year.
pub proof fn law_days_are_counted_on_the_users_clock(
    text: Seq<char>,
    n: u64,
    d: LocalDate,
    zone: Seq<char>,
    now: Instant,
)
    requires
        parsed_u64(text) == Some(n),
        known_zone(zone),
        zone_add_days(zone, now.secs as int, now.nanos as int, n as int) == Some(d),
    ensures
        date_answer(false, text, zone, now) == Some(AnswerView::Accepted(dmy_text(d))),
{
}

/// A text that is no sent reminder's agreement phrase stops nothing: the reply is the single
/// message that lists the phrases, or nothing when no reminder was sent.
pub proof fn law_other_texts_stop_nothing(text: Seq<char>, sent: Seq<Reminder>)
    requires
        forall|j: int| 0 <= j < sent.len() ==> #[trigger] sent[j].reminder_agreement@ != text,
    ensures
        sent.len() == 0 ==> reminders_reply_effects(text, sent).len() == 0,
        sent.len() > 0 ==> reminders_reply_effects(text, sent).len() == 1 && reminders_reply_effects(
            text,
            sent,
        )[0] is Send,
{
    lemma_first_equal(agreements(sent), text);
    match first_equal(agreements(sent), text) {
        Some(k) => {
            assert(agreements(sent)[k] == sent[k].reminder_agreement@);
        },
        None => {},
    }
}

/// Typing the agreement phrase of a sent reminder stops the first reminder with that phrase,
/// wherever it stands in the list, and says so.
pub proof fn law_agreement_stops_its_reminder(text: Seq<char>, sent: Seq<Reminder>, i: int)
    requires
        0 <= i < sent.len(),
        sent[i].reminder_agreement@ == text,
        forall|j: int| 0 <= j < i ==> #[trigger] sent[j].reminder_agreement@ != text,
    ensures
        reminders_reply_effects(text, sent) == seq![
            EffectView::DeleteReminder { id: sent[i].id },
            send_plain("Окей всё всё всё."@),
        ],
{
    lemma_first_equal(agreements(sent), text);
    assert(agreements(sent)[i] == sent[i].reminder_agreement@);
    match first_equal(agreements(sent), text) {
        Some(k) => {
            if k < i {
                assert(agreements(sent)[k] == sent[k].reminder_agreement@);
            }
            if k > i {
                assert(agreements(sent)[i] != text);
            }
            assert(k == i);
        },
        None => {
            assert(agreements(sent)[i] != text);
        },
    }
}

/// The "today" button of a new reminder records the date on the user's wall clock, and goes
/// through whenever the user's zone is known.
pub proof fn law_today_is_the_users_date(user_settings: UserSettingsView, has_message: bool, now: Instant)
    ensures
        known_zone(user_settings.timezone) ==> create_button_effects(user_settings, "today"@, has_message, now) is Some,
        create_button_effects(user_settings, "today"@, has_message, now) matches Some(Ok(e)) ==> e.last()
            == EffectView::SetState(
            StateView::RecieveReminderTime {
                user_settings,
                date: dmy_text(
                    zone_local_time(user_settings.timezone, now.secs as int, now.nanos as int).date,
                ),
            },
        ),
{
}

/// On the summary, "today" moves the reminder to the date on the user's wall clock and shows the
/// summary again exactly when its time, on that date, does not come before the wall clock;
/// otherwise the dialogue stays where it is.
pub proof fn law_summary_today_is_the_users_date(
    user_settings: UserSettingsView,
    date: Seq<char>,
    time: Seq<char>,
    t: TimeOfDay,
    what_to_remind: Seq<char>,
    has_message: bool,
    now: Instant,
)
    requires
        parsed_time(time) == Some(t),
        known_zone(user_settings.timezone),
    ensures
        ({
            let clock = zone_local_time(user_settings.timezone, now.secs as int, now.nanos as int);
            !t.on(clock.date).before(clock) ==> final_button_effects(
                user_settings,
                date,
                time,
                what_to_remind,
                "today"@,
                has_message,
                now,
            ) == Some(final_polish_effects(user_settings, dmy_text(clock.date), time, what_to_remind))
        }),
        ({
            let clock = zone_local_time(user_settings.timezone, now.secs as int, now.nanos as int);
            let e = final_button_effects(user_settings, date, time, what_to_remind, "today"@, has_message, now);
            t.on(clock.date).before(clock) ==> (e is Some && forall|k: int|
                0 <= k < e.unwrap().len() ==> !(#[trigger] e.unwrap()[k] is SetState))
        }),
{
    summary_buttons_differ();
}

/// On the summary, "change date" offers "today" among the other days exactly when the
/// reminder's date, as chrono reads it, is not the date on the user's wall clock.
pub proof fn law_change_date_offers_today_unless_it_is_today(
    user_settings: UserSettingsView,
    date: Seq<char>,
    d: LocalDate,
    time: Seq<char>,
    what_to_remind: Seq<char>,
    now: Instant,
)
    requires
        parsed_date(date) == Some(d),
        known_zone(user_settings.timezone),
    ensures
        ({
            let today = zone_local_time(user_settings.timezone, now.secs as int, now.nanos as int).date;
            let e = final_button_effects(user_settings, date, time, what_to_remind, "change_date"@, true, now);
            &&& d != today ==> e == Some(
                seq![
                    edit(
                        "Когда придёт напоминание?"@,
                        inline_markup(other_day_names().push("Сегодня"@), other_day_data().push("today"@), 1),
                    ),
                ],
            )
            &&& d == today ==> e == Some(
                seq![edit("Когда придёт напоминание?"@, inline_markup(other_day_names(), other_day_data(), 1))],
            )
        }),
{
    reveal_strlit("change_date");
    reveal_strlit("yes");
    reveal_strlit("edit");
    reveal_strlit("delete");
    assert("change_date"@[0] != "yes"@[0]);
    assert("change_date"@[0] != "edit"@[0]);
    assert("change_date"@[0] != "delete"@[0]);
}

/// Agreeing, on the summary, to change a time that lies in the past keeps the date on the
/// user's wall clock for the new time.
pub proof fn law_changing_the_time_keeps_today(
    user_settings: UserSettingsView,
    date: Seq<char>,
    time: Seq<char>,
    what_to_remind: Seq<char>,
    now: Instant,
)
    requires
        known_zone(user_settings.timezone),
    ensures
        ({
            let e = final_button_effects(user_settings, date, time, what_to_remind, "yes-change-time"@, true, now);
            e is Some && e.unwrap().last() == EffectView::SetState(
                StateView::EditReminderTime {
                    user_settings,
                    date: dmy_text(
                        zone_local_time(user_settings.timezone, now.secs as int, now.nanos as int).date,
                    ),
                    what_to_remind,
                },
            )
        }),
{
    summary_buttons_differ();
}

proof fn summary_buttons_differ()
    ensures
        "today"@ != "yes"@,
        "today"@ != "edit"@,
        "today"@ != "delete"@,
        "today"@ != "change_date"@,
        "today"@ != "change_time"@,
        "today"@ != "change_reminder_theme"@,
        "yes-change-time"@ != "yes"@,
        "yes-change-time"@ != "edit"@,
        "yes-change-time"@ != "delete"@,
        "yes-change-time"@ != "change_date"@,
        "yes-change-time"@ != "change_time"@,
        "yes-change-time"@ != "change_reminder_theme"@,
        "yes-change-time"@ != "today"@,
{
    reveal_strlit("today");
    reveal_strlit("yes-change-time");
    reveal_strlit("yes");
    reveal_strlit("edit");
    reveal_strlit("delete");
    reveal_strlit("change_date");
    reveal_strlit("change_time");
    reveal_strlit("change_reminder_theme");
    assert("today"@[0] != "yes"@[0]);
    assert("today"@[0] != "edit"@[0]);
    assert("today"@[0] != "delete"@[0]);
    assert("today"@[0] != "change_date"@[0]);
    assert("today"@[0] != "change_time"@[0]);
    assert("today"@[0] != "change_reminder_theme"@[0]);
    assert("yes-change-time"@.len() != "yes"@.len());
    assert("yes-change-time"@[0] != "edit"@[0]);
    assert("yes-change-time"@[0] != "delete"@[0]);
    assert("yes-change-time"@[0] != "change_date"@[0]);
    assert("yes-change-time"@[0] != "change_time"@[0]);
    assert("yes-change-time"@[0] != "change_reminder_theme"@[0]);
    assert("yes-change-time"@[0] != "today"@[0]);
}

/// A new time typed while a reminder is edited, once accepted, keeps the reminder's day and text
/// and shows the summary again; so does a new day, keeping the time and text.
pub proof fn law_editing_keeps_the_rest_of_the_reminder(
    user_settings: UserSettingsView,
    date: Seq<char>,
    time: Seq<char>,
    what_to_remind: Seq<char>,
    exact_date: bool,
    text: Seq<char>,
    now: Instant,
)
    ensures
        time_answer(text, date, user_settings.timezone, now) matches Some(AnswerView::Accepted(t)) ==> {
            let e = edit_time_effects(user_settings, date, what_to_remind, Some(text), now);
            &&& e == Some(final_polish_effects(user_settings, date, text, what_to_remind))
            &&& e.unwrap().last() == EffectView::SetState(
                StateView::ReminderFinalPolish { user_settings, date, time: text, what_to_remind },
            )
            &&& t == text
        },
        date_answer(exact_date, text, user_settings.timezone, now) matches Some(AnswerView::Accepted(d)) ==> {
            let e = edit_date_effects(user_settings, time, what_to_remind, exact_date, Some(text), now);
            &&& e == Some(final_polish_effects(user_settings, d, time, what_to_remind))
            &&& e.unwrap().last() == EffectView::SetState(
                StateView::ReminderFinalPolish { user_settings, date: d, time, what_to_remind },
            )
        },
        time_answer(text, date, user_settings.timezone, now) matches Some(AnswerView::Accepted(t)) ==> {
            let e = recieve_time_effects(user_settings, date, Some(text), now).unwrap();
            e.last() == EffectView::SetState(StateView::RecieveReminderTheme { user_settings, date, time: text })
        },
{
}

/// The summary's "today" button calls a time past exactly when typing that time for today's
/// date would be refused as past.
pub proof fn law_today_button_agrees_with_typed_times(t: TimeOfDay, clock: LocalDateTime)
    ensures
        time_of_day_before(t, clock) <==> t.on(clock.date).before(clock),
{
}

}
