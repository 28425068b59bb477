use vstd::prelude::*;

use crate::keyboard::{Markup, MarkupView};
use crate::settings::{State, StateView};

verus! {

/// One thing a handler asks the bot to do. A handler's effects are carried out in order, and
/// the first one that fails ends the handler with that error (except `Notify`).
#[derive(PartialEq, Eq, Debug)]
pub enum Effect {
    /// Send a message to the chat.
    Send { text: String, markup: Markup },
    /// Send a message to the chat; a failure to send is ignored.
    Notify { text: String },
    /// Replace the text (and keyboard) of the message whose button was pressed.
    EditCallbackMessage { text: String, markup: Markup },
    /// Delete the message whose button was pressed.
    DeleteCallbackMessage,
    /// Delete the message the user just sent.
    DeleteIncomingMessage,
    /// Tell Telegram the button press was handled.
    AnswerCallback,
    /// Move the chat's dialogue to a new state.
    SetState(State),
    /// Queue a reminder to be generated (a row of the `reminder_query` table).
    SaveReminderRequest {
        chat_id: i64,
        language: String,
        style_path: String,
        what_to_remind: String,
        date_time: String,
    },
    /// Remove a reminder from the `reminders` table.
    DeleteReminder { id: i64 },
}

pub enum EffectView {
    Send { text: Seq<char>, markup: MarkupView },
    Notify { text: Seq<char> },
    EditCallbackMessage { text: Seq<char>, markup: MarkupView },
    DeleteCallbackMessage,
    DeleteIncomingMessage,
    AnswerCallback,
    SetState(StateView),
    SaveReminderRequest {
        chat_id: i64,
        language: Seq<char>,
        style_path: Seq<char>,
        what_to_remind: Seq<char>,
        date_time: Seq<char>,
    },
    DeleteReminder { id: i64 },
}

impl View for Effect {
    type V = EffectView;

    open spec fn view(&self) -> EffectView {
        match self {
            Effect::Send { text, markup } => EffectView::Send { text: text@, markup: markup@ },
            Effect::Notify { text } => EffectView::Notify { text: text@ },
            Effect::EditCallbackMessage { text, markup } => EffectView::EditCallbackMessage {
                text: text@,
                markup: markup@,
            },
            Effect::DeleteCallbackMessage => EffectView::DeleteCallbackMessage,
            Effect::DeleteIncomingMessage => EffectView::DeleteIncomingMessage,
            Effect::AnswerCallback => EffectView::AnswerCallback,
            Effect::SetState(s) => EffectView::SetState(s@),
            Effect::SaveReminderRequest { chat_id, language, style_path, what_to_remind, date_time } =>
                EffectView::SaveReminderRequest {
                    chat_id: *chat_id,
                    language: language@,
                    style_path: style_path@,
                    what_to_remind: what_to_remind@,
                    date_time: date_time@,
                },
            Effect::DeleteReminder { id } => EffectView::DeleteReminder { id: *id },
        }
    }
}

/// The effects of a list, viewed one by one.
pub open spec fn effects_view(v: Seq<Effect>) -> Seq<EffectView> {
    v.map_values(|e: Effect| e@)
}

/// A plain message.
pub open spec fn send_plain(text: Seq<char>) -> EffectView {
    EffectView::Send { text, markup: MarkupView::Plain }
}

/// Builds a plain message from a literal.
pub fn plain(text: &str) -> (res: Effect)
    ensures
        res@ == send_plain(text@),
{
    Effect::Send { text: String::from_str(text), markup: Markup::Plain }
}

}
