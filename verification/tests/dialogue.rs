use reminder_bot::dialogue::{
    edit_reminder_theme, handle_commands, receive_lang, receive_location, receive_style,
    recieve_reminder_theme, reminder_final_polish, start, update_to_final_polish, wait_for_task,
    Command, MessageOutcome,
};
use reminder_bot::effect::Effect;
use reminder_bot::keyboard::{InlineButton, InlineKeyboard, Markup, ReplyKeyboard};
use reminder_bot::reminders::{reminders_reply, Reminder};
use reminder_bot::clock::Instant;
use reminder_bot::router::on_message;
use reminder_bot::settings::{State, UserSettings};

fn settings(language: &str) -> UserSettings {
    UserSettings {
        chat_id: 77,
        timezone: "Europe/Moscow".to_string(),
        style_path: "prompts/angry.txt".to_string(),
        language: language.to_string(),
    }
}

fn reply(rows: Vec<Vec<&str>>) -> Markup {
    Markup::Reply(ReplyKeyboard {
        rows: rows.into_iter().map(|r| r.into_iter().map(|s| s.to_string()).collect()).collect(),
        resize: true,
        one_time: false,
        request_location: false,
    })
}

fn inline(rows: Vec<(&str, &str)>) -> Markup {
    Markup::Inline(InlineKeyboard {
        rows: rows
            .into_iter()
            .map(|(t, d)| vec![InlineButton { text: t.to_string(), data: d.to_string() }])
            .collect(),
    })
}

fn send(text: &str) -> Effect {
    Effect::Send { text: text.to_string(), markup: Markup::Plain }
}

const SORRY: &str = "⌨️⌨️⌨️⌨️👇👇👇🤦🤦";

#[test]
fn start_asks_for_language() {
    assert_eq!(
        start(),
        vec![
            Effect::Send { text: "🗣️❓".to_string(), markup: reply(vec![vec!["Русский", "English", "Беларускі"]]) },
            Effect::SetState(State::RecieveLanguage),
        ]
    );
}

#[test]
fn language_pick_leads_to_style_question() {
    assert_eq!(
        receive_lang(Some("English")),
        vec![
            Effect::Send {
                text: "Nice, what style do you prefer more?".to_string(),
                markup: reply(vec![vec!["🤬 Angry troll"]]),
            },
            Effect::SetState(State::RecieveStyle { language: "en".to_string() }),
        ]
    );
    let by = receive_lang(Some("Беларускі"));
    match &by[0] {
        Effect::Send { text, .. } => assert!(text.starts_with("Гэта цудоўна") && text.contains("\n                        \nКарыстуйцеся")),
        other => panic!("unexpected {:?}", other),
    }
    assert_eq!(receive_lang(Some("Deutsch")), vec![send(SORRY)]);
    assert_eq!(receive_lang(None), vec![send(SORRY)]);
}

#[test]
fn style_pick_asks_for_location() {
    let effects = receive_style("ru".to_string(), Some("🤬 Злой тролль"));
    assert_eq!(
        effects,
        vec![
            Effect::Send {
                text: "Теперь попрошу вас прислать геопозицию для точного присылания напоминаний. Нажмите на кнопочку ниже".to_string(),
                markup: Markup::Reply(ReplyKeyboard {
                    rows: vec![vec!["📍".to_string()]],
                    resize: true,
                    one_time: true,
                    request_location: true,
                }),
            },
            Effect::SetState(State::RecieveLocation {
                language: "ru".to_string(),
                style_path: "prompts/angry.txt".to_string(),
            }),
        ]
    );
    assert_eq!(receive_style("ru".to_string(), Some("something else")), vec![send(SORRY)]);
    assert_eq!(receive_style("xx".to_string(), Some("no style")), vec![send(SORRY)]);
}

#[test]
fn location_sets_time_zone_and_shows_menu() {
    let effects = receive_location("en".to_string(), "prompts/angry.txt".to_string(), 77, Some("Europe/Moscow".to_string()));
    assert_eq!(
        effects,
        vec![
            Effect::Send {
                text: "Time zone set to Europe/Moscow!\n\nAll done! Use buttons below.".to_string(),
                markup: reply(vec![vec!["🆕 New reminder"], vec!["⚙️ Manage reminders"], vec!["🌟 Buy premium"]]),
            },
            Effect::SetState(State::WaitForTask { user_settings: UserSettings { language: "en".to_string(), ..settings("en") } }),
        ]
    );
    assert_eq!(receive_location("en".to_string(), "p".to_string(), 1, None), vec![send(SORRY)]);
}

#[test]
fn reset_and_cancel_commands() {
    assert_eq!(
        handle_commands(Command::Reset, &State::RecieveLanguage),
        vec![send("Your settings will be reset. Send message to continue"), Effect::SetState(State::Start)]
    );
    let creating = State::RecieveReminderTime { user_settings: settings("ru"), date: "05.03.2024".to_string() };
    assert_eq!(
        handle_commands(Command::Cancel, &creating),
        vec![send("Хорошо, останавливаюсь!"), Effect::SetState(State::WaitForTask { user_settings: settings("ru") })]
    );
    assert_eq!(handle_commands(Command::Cancel, &State::WaitForTask { user_settings: settings("ru") }), vec![]);
    assert_eq!(State::default(), State::Start);
}

#[test]
fn main_menu_buttons() {
    assert_eq!(
        wait_for_task(settings("en"), Some("🆕 New reminder")),
        MessageOutcome::Reply(vec![
            Effect::Send {
                text: "When reminder will come to you?".to_string(),
                markup: inline(vec![("Today", "today"), ("Days later", "in_few_days"), ("In some exact date", "exact_day")]),
            },
            Effect::SetState(State::CreateReminder { user_settings: settings("en") }),
        ])
    );
    assert_eq!(
        wait_for_task(settings("ru"), Some("⚙️")),
        MessageOutcome::Reply(vec![send("Эта кнопка ещё в процессе создания, подождите немного")])
    );
    match wait_for_task(settings("ru"), Some("🌟 Купить премиум")) {
        MessageOutcome::Reply(e) => assert_eq!(e.len(), 1),
        other => panic!("unexpected {:?}", other),
    }
    assert_eq!(wait_for_task(settings("ru"), Some("I give up")), MessageOutcome::LookUpReminders);
    assert_eq!(wait_for_task(settings("ru"), None), MessageOutcome::Reply(vec![]));
}

fn reminder(id: i64, agreement: &str) -> Reminder {
    Reminder {
        id,
        chat_id: 77,
        date_time: "2024-03-05 09:00:00".to_string(),
        reminder_text: "Do it!".to_string(),
        reminder_agreement: agreement.to_string(),
        is_sent: true,
    }
}

#[test]
fn agreement_stops_a_reminder() {
    let sent = vec![reminder(1, "I surrender"), reminder(2, "I give up"), reminder(3, "I give up")];
    assert_eq!(
        reminders_reply("I give up", &sent),
        vec![Effect::DeleteReminder { id: 2 }, send("Окей всё всё всё.")]
    );
    assert_eq!(
        reminders_reply("nope", &sent),
        vec![send("Что бы остановить напоминания нужно написать что то следующее:\n\nI surrender\nI give up\nI give up")]
    );
    assert_eq!(reminders_reply("nope", &vec![]), vec![]);
}

#[test]
fn final_check_summary() {
    let effects = update_to_final_polish(settings("ru"), "05.03.2024".to_string(), "09:30".to_string(), "buy milk".to_string());
    assert_eq!(
        effects,
        vec![
            Effect::Send {
                text: "Всё правильно? \n\nДата: 05.03.2024 \nВремя: 09:30 \nО чём напомнить: buy milk".to_string(),
                markup: inline(vec![("Да ✅", "yes"), ("Изменить 🔄", "edit"), ("Удалить 🚮", "delete")]),
            },
            Effect::SetState(State::ReminderFinalPolish {
                user_settings: settings("ru"),
                date: "05.03.2024".to_string(),
                time: "09:30".to_string(),
                what_to_remind: "buy milk".to_string(),
            }),
        ]
    );
    assert_eq!(recieve_reminder_theme(settings("ru"), "d".to_string(), "t".to_string(), None), vec![]);
    assert_eq!(
        edit_reminder_theme(settings("ru"), "d".to_string(), "t".to_string(), None),
        vec![send("Пожалуйста введите тему напоминания нормально.")]
    );
    assert_eq!(reminder_final_polish(Some("hi")), vec![Effect::DeleteIncomingMessage]);
    assert_eq!(reminder_final_polish(None), vec![]);
}

/// 2024-01-01 12:00:00 UTC.
const NOON: Instant = Instant { secs: 1704110400, nanos: 0 };

#[test]
fn messages_are_routed_by_state() {
    assert_eq!(on_message(State::Start, 1, Some("hi"), None, None, NOON), Some(MessageOutcome::Reply(start())));
    assert_eq!(
        on_message(State::RecieveLanguage, 1, Some("Русский"), None, None, NOON),
        Some(MessageOutcome::Reply(receive_lang(Some("Русский"))))
    );
    assert_eq!(on_message(State::RecieveStyle { language: "xx".to_string() }, 1, Some("🤬"), None, None, NOON), None);
    assert_eq!(
        on_message(State::CreateReminder { user_settings: settings("ru") }, 1, Some("x"), None, None, NOON),
        Some(MessageOutcome::Reply(vec![]))
    );
    let unknown_zone = UserSettings { timezone: "Nowhere/Town".to_string(), ..settings("ru") };
    assert_eq!(
        on_message(State::RecieveReminderDate { user_settings: unknown_zone.clone(), exact_date: false }, 1, Some("2"), None, None, NOON),
        None
    );
    assert_eq!(
        on_message(State::RecieveReminderDate { user_settings: unknown_zone, exact_date: false }, 1, Some("two"), None, None, NOON),
        Some(MessageOutcome::Reply(vec![Effect::Notify { text: "Invalid date. Please enter a valid day.".to_string() }]))
    );
}

#[test]
fn commands_are_answered_in_every_state() {
    let reset = || vec![send("Your settings will be reset. Send message to continue"), Effect::SetState(State::Start)];
    for state in [
        State::Start,
        State::RecieveLanguage,
        State::WaitForTask { user_settings: settings("ru") },
        State::CreateReminder { user_settings: settings("ru") },
    ] {
        assert_eq!(
            on_message(state, 1, Some("/reset"), None, Some(Command::Reset), NOON),
            Some(MessageOutcome::Reply(reset()))
        );
    }
    assert_eq!(
        on_message(State::CreateReminder { user_settings: settings("ru") }, 1, Some("/cancel"), None, Some(Command::Cancel), NOON),
        Some(MessageOutcome::Reply(vec![
            send("Хорошо, останавливаюсь!"),
            Effect::SetState(State::WaitForTask { user_settings: settings("ru") }),
        ]))
    );
    assert_eq!(
        on_message(State::Start, 1, Some("/cancel"), None, Some(Command::Cancel), NOON),
        Some(MessageOutcome::Reply(vec![]))
    );
}

#[test]
fn clock_reading_handlers_refuse_an_unreadable_moment() {
    let far = Instant { secs: 8_210_266_800_000, nanos: 0 };
    let date_state = State::RecieveReminderDate { user_settings: settings("ru"), exact_date: false };
    assert_eq!(on_message(date_state, 1, Some("2"), None, None, far), None);
    assert_eq!(on_message(State::Start, 1, Some("hi"), None, None, far), Some(MessageOutcome::Reply(start())));
    let leap = Instant { secs: 1704110400, nanos: 1_500_000_000 };
    let date_state = State::RecieveReminderDate { user_settings: settings("ru"), exact_date: false };
    assert_eq!(on_message(date_state, 1, Some("2"), None, None, leap), None);
}
