use vstd::prelude::*;

use crate::effect::{effects_view, send_plain, Effect, EffectView};
use crate::text::{replace_all, replaced, str_eq};

verus! {

/// A generated reminder as stored in the reminders table.
#[derive(Clone, PartialEq, Eq, Debug)]
pub struct Reminder {
    pub id: i64,
    pub chat_id: i64,
    pub date_time: String,
    pub reminder_text: String,
    pub reminder_agreement: String,
    pub is_sent: bool,
}

/// The agreement phrases of a list of reminders, in order.
pub open spec fn agreements(rs: Seq<Reminder>) -> Seq<Seq<char>> {
    rs.map_values(|r: Reminder| r.reminder_agreement@)
}

/// The position of the first phrase equal to `text`.
pub open spec fn first_equal(phrases: Seq<Seq<char>>, text: Seq<char>) -> Option<int>
    decreases phrases.len(),
{
    if phrases.len() == 0 {
        None
    } else if phrases[0] == text {
        Some(0)
    } else {
        match first_equal(phrases.skip(1), text) {
            Some(i) => Some(i + 1),
            None => None,
        }
    }
}

/// Each phrase on a line of its own, each line introduced by a line break.
pub open spec fn listing(phrases: Seq<Seq<char>>) -> Seq<char>
    decreases phrases.len(),
{
    if phrases.len() == 0 {
        Seq::empty()
    } else {
        listing(phrases.drop_last()) + "\n"@ + phrases.last()
    }
}

/// The answer to a text sent in the main menu, given the user's reminders that were sent:
/// the text that repeats an agreement stops that reminder; otherwise the agreements are listed.
pub open spec fn reminders_reply_effects(text: Seq<char>, sent: Seq<Reminder>) -> Seq<EffectView> {
    if sent.len() == 0 {
        seq![]
    } else {
        match first_equal(agreements(sent), text) {
            Some(i) => seq![
                EffectView::DeleteReminder { id: sent[i].id },
                send_plain("Окей всё всё всё."@),
            ],
            None => seq![
                send_plain(
                    "Что бы остановить напоминания нужно написать что то следующее:\n"@ + listing(
                        agreements(sent),
                    ),
                ),
            ],
        }
    }
}

/// A position found by `first_equal` holds the text; none found means no phrase equals it.
pub proof fn lemma_first_equal(phrases: Seq<Seq<char>>, text: Seq<char>)
    ensures
        first_equal(phrases, text) matches Some(i) ==> 0 <= i < phrases.len() && phrases[i] == text
            && forall|j: int| 0 <= j < i ==> #[trigger] phrases[j] != text,
        first_equal(phrases, text) is None ==> forall|j: int|
            0 <= j < phrases.len() ==> #[trigger] phrases[j] != text,
    decreases phrases.len(),
{
    if phrases.len() > 0 {
        lemma_first_equal(phrases.skip(1), text);
        assert forall|j: int| 1 <= j < phrases.len() implies phrases[j] == #[trigger] phrases.skip(
            1,
        )[j - 1] by {}
        if first_equal(phrases, text) is None {
            assert forall|j: int| 0 <= j < phrases.len() implies #[trigger] phrases[j] != text by {
                if j > 0 {
                    assert(phrases[j] == phrases.skip(1)[j - 1]);
                }
            }
        }
        match first_equal(phrases, text) {
            Some(i) => {
                assert forall|j: int| 0 <= j < i implies #[trigger] phrases[j] != text by {
                    if j > 0 {
                        assert(phrases[j] == phrases.skip(1)[j - 1]);
                    }
                }
            },
            None => {},
        }
    }
}

/// Answers a text sent in the main menu against the user's reminders that were sent.
pub fn reminders_reply(text: &str, sent: &Vec<Reminder>) -> (res: Vec<Effect>)
    ensures
        effects_view(res@) == reminders_reply_effects(text@, sent@),
{
    let mut res: Vec<Effect> = Vec::new();
    if sent.len() == 0 {
        proof {
            assert(effects_view(res@) =~= reminders_reply_effects(text@, sent@));
        }
        return res;
    }
    let ghost phrases = agreements(sent@);
    let mut i: usize = 0;
    proof {
        assert(phrases.skip(0) =~= phrases);
    }
    while i < sent.len()
        invariant
            phrases == agreements(sent@),
            i <= sent@.len(),
            res@.len() == 0,
            first_equal(phrases, text@) == match first_equal(phrases.skip(i as int), text@) {
                Some(k) => Some(k + i),
                None => None,
            },
        decreases sent@.len() - i,
    {
        let ghost rest = phrases.skip(i as int);
        assert(rest[0] == sent@[i as int].reminder_agreement@);
        if str_eq(sent[i].reminder_agreement.as_str(), text) {
            res.push(Effect::DeleteReminder { id: sent[i].id });
            res.push(crate::effect::plain("Окей всё всё всё."));
            proof {
                assert(effects_view(res@) =~= reminders_reply_effects(text@, sent@));
            }
            return res;
        }
        assert(rest.skip(1) =~= phrases.skip(i + 1));
        i = i + 1;
    }
    assert(phrases.skip(i as int).len() == 0);
    let mut list = String::from_str("Что бы остановить напоминания нужно написать что то следующее:\n");
    let ghost head = "Что бы остановить напоминания нужно написать что то следующее:\n"@;
    let mut k: usize = 0;
    proof {
        assert(phrases.take(0) =~= Seq::<Seq<char>>::empty());
    }
    while k < sent.len()
        invariant
            phrases == agreements(sent@),
            k <= sent@.len(),
            res@.len() == 0,
            list@ == head + listing(phrases.take(k as int)),
        decreases sent@.len() - k,
    {
        list.append("\n");
        list.append(sent[k].reminder_agreement.as_str());
        proof {
            assert(phrases.take(k + 1).drop_last() =~= phrases.take(k as int));
            assert(phrases.take(k + 1).last() == sent@[k as int].reminder_agreement@);
        }
        k = k + 1;
    }
    assert(phrases.take(k as int) =~= phrases);
    res.push(Effect::Send { text: list, markup: crate::keyboard::Markup::Plain });
    proof {
        assert(effects_view(res@) =~= reminders_reply_effects(text@, sent@));
    }
    res
}

/// A reminder waiting to be generated (a row of the `reminder_query` table).
#[derive(Clone, PartialEq, Eq, Debug)]
pub struct ReminderQuery {
    pub id: i64,
    pub chat_id: i64,
    pub language: String,
    pub style_path: String,
    pub what_to_remind: String,
    pub date_time: String,
    pub is_premium: bool,
}

/// The prompt for the language model: the style's template with `{what_to_remind}` and then
/// `{language}` filled in.
pub open spec fn prompt_text(template: Seq<char>, what_to_remind: Seq<char>, language: Seq<char>) -> Seq<char> {
    replaced(
        replaced(template, "{what_to_remind}"@, what_to_remind),
        "{language}"@,
        language,
    )
}

/// Fills a prompt template for one reminder.
pub fn build_prompt(template: &str, what_to_remind: &str, language: &str) -> (res: String)
    ensures
        res@ == prompt_text(template@, what_to_remind@, language@),
{
    proof {
        reveal_strlit("{what_to_remind}");
        reveal_strlit("{language}");
    }
    let first = replace_all(template, "{what_to_remind}", what_to_remind);
    replace_all(first.as_str(), "{language}", language)
}

/// The schema description of the generated reminder message.
pub open spec fn reminder_field_text(language: Seq<char>, what_to_remind: Seq<char>) -> Seq<char> {
    replaced(
        replaced(
            "The aggressive troll message, written in {language}, demanding the user to complete {what_to_remind}, and containing the required agreement phrase."@,
            "{language}"@,
            language,
        ),
        "{what_to_remind}"@,
        what_to_remind,
    )
}

/// The schema description of the agreement phrase.
pub open spec fn agreement_field_text(language: Seq<char>) -> Seq<char> {
    replaced(
        "The exact humiliating surrender phrase the user must write back, in {language}."@,
        "{language}"@,
        language,
    )
}

/// Describes, for the response schema, the reminder message the model must write.
pub fn reminder_field_description(language: &str, what_to_remind: &str) -> (res: String)
    ensures
        res@ == reminder_field_text(language@, what_to_remind@),
{
    proof {
        reveal_strlit("{what_to_remind}");
        reveal_strlit("{language}");
    }
    let first = replace_all(
        "The aggressive troll message, written in {language}, demanding the user to complete {what_to_remind}, and containing the required agreement phrase.",
        "{language}",
        language,
    );
    replace_all(first.as_str(), "{what_to_remind}", what_to_remind)
}

/// Describes, for the response schema, the agreement phrase the model must write.
pub fn agreement_field_description(language: &str) -> (res: String)
    ensures
        res@ == agreement_field_text(language@),
{
    proof {
        reveal_strlit("{language}");
    }
    replace_all(
        "The exact humiliating surrender phrase the user must write back, in {language}.",
        "{language}",
        language,
    )
}

/// One reminder to deliver: mark it sent first (when it was not), then send its text.
#[derive(PartialEq, Eq, Debug)]
pub struct Delivery {
    pub mark_sent: Option<i64>,
    pub chat_id: i64,
    pub text: String,
}

/// The deliveries for the reminders that are due, in order.
pub fn delivery_plan(due: &Vec<Reminder>) -> (res: Vec<Delivery>)
    ensures
        res@.len() == due@.len(),
        forall|i: int|
            0 <= i < due@.len() ==> {
                &&& (#[trigger] res@[i]).chat_id == due@[i].chat_id
                &&& res@[i].text@ == due@[i].reminder_text@
                &&& res@[i].mark_sent == if due@[i].is_sent {
                    None
                } else {
                    Some(due@[i].id)
                }
            },
{
    let mut res: Vec<Delivery> = Vec::new();
    let mut i: usize = 0;
    while i < due.len()
        invariant
            i <= due@.len(),
            res@.len() == i,
            forall|j: int|
                0 <= j < i ==> {
                    &&& (#[trigger] res@[j]).chat_id == due@[j].chat_id
                    &&& res@[j].text@ == due@[j].reminder_text@
                    &&& res@[j].mark_sent == if due@[j].is_sent {
                        None
                    } else {
                        Some(due@[j].id)
                    }
                },
        decreases due@.len() - i,
    {
        let r = &due[i];
        let mark_sent = if r.is_sent { None } else { Some(r.id) };
        res.push(Delivery { mark_sent, chat_id: r.chat_id, text: r.reminder_text.clone() });
        i = i + 1;
    }
    res
}

/// After a delivery failed: the chat whose reminders are all removed, when the user blocked
/// the bot.
pub fn chat_to_purge(bot_blocked: bool, chat_id: i64) -> (res: Option<i64>)
    ensures
        res == if bot_blocked {
            Some(chat_id)
        } else {
            None
        },
{
    if bot_blocked {
        Some(chat_id)
    } else {
        None
    }
}

}
