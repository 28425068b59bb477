use vstd::prelude::*;

use crate::effect::{effects_view, plain, send_plain, Effect, EffectView};
use crate::keyboard::{
    chunked, location_keyboard, make_inline_keyboard, make_keyboard, str_views, string_views,
    zipped, Markup, MarkupView, ReplyKeyboardView,
};
use crate::settings::{reminder_settings, State, StateView, UserSettings, UserSettingsView};
use crate::styles::{
    first_mentioned, find_style, is_language_code, is_language_name, language_code,
    language_names, main_buttons, style_label, styles_lang, Language,
};
use crate::text::str_eq;

verus! {

/// The characters of an optional message text.
pub open spec fn opt_view(t: Option<&str>) -> Option<Seq<char>> {
    match t {
        Some(s) => Some(s@),
        None => None,
    }
}

/// The characters of an optional string.
pub open spec fn opt_string_view(t: Option<String>) -> Option<Seq<char>> {
    match t {
        Some(s) => Some(s@),
        None => None,
    }
}

/// The answer to input the bot does not understand.
pub open spec fn sorry() -> Seq<char> {
    "⌨️⌨️⌨️⌨️👇👇👇🤦🤦"@
}

/// A reply keyboard that fits its buttons and stays open.
pub open spec fn reply_markup(rows: Seq<Seq<Seq<char>>>) -> MarkupView {
    MarkupView::Reply(ReplyKeyboardView { rows, resize: true, one_time: false, request_location: false })
}

/// The one-time keyboard whose single button sends the user's location.
pub open spec fn location_markup() -> MarkupView {
    MarkupView::Reply(
        ReplyKeyboardView { rows: seq![seq!["📍"@]], resize: true, one_time: true, request_location: true },
    )
}

/// Buttons under a message, `n` per row, labelled `names` and sending back `data`.
pub open spec fn inline_markup(names: Seq<Seq<char>>, data: Seq<Seq<char>>, n: nat) -> MarkupView {
    MarkupView::Inline(chunked(zipped(names, data), n))
}

/// The message that asks for the reminder style, by language code.
pub open spec fn style_question(code: Seq<char>) -> Seq<char> {
    if code == "ru"@ {
        "Прекрасно, какой стиль напоминаний предпочитаете?"@
    } else if code == "en"@ {
        "Nice, what style do you prefer more?"@
    } else {
        "Гэта цудоўна, але, штучны інтэллект патрымлівае нашу мову вельмі дрэнна.\n                        \nКарыстуйцеся на сваю рызыку.\n                        \nЯкі стыль спадабаецца больш?"@
    }
}

/// The emojis of the reminder styles, in order.
pub open spec fn style_emojis() -> Seq<Seq<char>> {
    seq!["🤬"@]
}

/// The prompt files of the reminder styles, in order.
pub open spec fn style_paths() -> Seq<Seq<char>> {
    seq!["prompts/angry.txt"@]
}

/// The style buttons in a language.
pub open spec fn style_menu(code: Seq<char>) -> Seq<Seq<char>> {
    if code == "ru"@ {
        seq![style_label("🤬"@, "Злой тролль"@)]
    } else if code == "en"@ {
        seq![style_label("🤬"@, "Angry troll"@)]
    } else {
        seq![style_label("🤬"@, "Злы троль"@)]
    }
}

/// The emojis of the main-menu buttons, in order.
pub open spec fn menu_emojis() -> Seq<Seq<char>> {
    seq!["🆕"@, "⚙️"@, "🌟"@]
}

/// The main-menu buttons in a language.
pub open spec fn main_menu(code: Seq<char>) -> Seq<Seq<char>> {
    if code == "ru"@ {
        seq![
            style_label("🆕"@, "Новое напоминание"@),
            style_label("⚙️"@, "Настроить Напоминания"@),
            style_label("🌟"@, "Купить премиум"@),
        ]
    } else if code == "en"@ {
        seq![
            style_label("🆕"@, "New reminder"@),
            style_label("⚙️"@, "Manage reminders"@),
            style_label("🌟"@, "Buy premium"@),
        ]
    } else {
        seq![
            style_label("🆕"@, "Новы напамін"@),
            style_label("⚙️"@, "Наладзіць напамінкі"@),
            style_label("🌟"@, "Купіць прэміум"@),
        ]
    }
}

/// The message that asks for the user's location, by language code.
pub open spec fn location_question(code: Seq<char>) -> Seq<char> {
    if code == "ru"@ {
        "Теперь попрошу вас прислать геопозицию для точного присылания напоминаний. Нажмите на кнопочку ниже"@
    } else if code == "en"@ {
        "Now I want to ask you geolocation for proper reminder sending. Press the button below"@
    } else {
        "Цяпер я хачу запрасіць вашу геалакацыю для дакладнага адпраўлення напамінкаў. Націсніце на кнопку ніжэй"@
    }
}

/// The message that confirms the time zone, by language code.
pub open spec fn zone_confirmation(code: Seq<char>, zone: Seq<char>) -> Seq<char> {
    if code == "ru"@ {
        "Часовой пояс установлен для "@ + zone + "!\n\nВсё готово! Пользуйтесь кнопками ниже."@
    } else if code == "en"@ {
        "Time zone set to "@ + zone + "!\n\nAll done! Use buttons below."@
    } else {
        "Гадзінны пояс установленны на "@ + zone + "!\n\nУсё гатова! Карыстайцеся кнопкамі ніжэй"@
    }
}

/// The first message of the dialogue: the language question.
pub open spec fn start_effects() -> Seq<EffectView> {
    seq![
        EffectView::Send { text: "🗣️❓"@, markup: reply_markup(chunked(language_names(), 3)) },
        EffectView::SetState(StateView::RecieveLanguage),
    ]
}

/// The answer to the user's pick of a language.
pub open spec fn receive_lang_effects(text: Option<Seq<char>>) -> Seq<EffectView> {
    match text {
        Some(t) => if is_language_name(t) {
            let code = language_code(t);
            seq![
                EffectView::Send {
                    text: style_question(code),
                    markup: reply_markup(chunked(style_menu(code), 3)),
                },
                EffectView::SetState(StateView::RecieveStyle { language: code }),
            ]
        } else {
            seq![send_plain(sorry())]
        },
        None => seq![send_plain(sorry())],
    }
}

/// Whether the style answer can be handled: a recognised style needs a known language.
pub open spec fn receive_style_ok(language: Seq<char>, text: Option<Seq<char>>) -> bool {
    text matches Some(t) && first_mentioned(style_emojis(), t) is Some ==> is_language_code(language)
}

/// The answer to the user's pick of a style.
pub open spec fn receive_style_effects(language: Seq<char>, text: Option<Seq<char>>) -> Seq<EffectView> {
    match text {
        Some(t) => match first_mentioned(style_emojis(), t) {
            Some(i) => seq![
                EffectView::Send { text: location_question(language), markup: location_markup() },
                EffectView::SetState(
                    StateView::RecieveLocation { language, style_path: style_paths()[i] },
                ),
            ],
            None => seq![send_plain(sorry())],
        },
        None => seq![send_plain(sorry())],
    }
}

/// The answer to the user's location, given the zone found for it (if the message held one).
pub open spec fn receive_location_effects(
    language: Seq<char>,
    style_path: Seq<char>,
    chat_id: i64,
    zone: Option<Seq<char>>,
) -> Seq<EffectView> {
    match zone {
        Some(z) => seq![
            EffectView::Send {
                text: zone_confirmation(language, z),
                markup: reply_markup(chunked(main_menu(language), 1)),
            },
            EffectView::SetState(
                StateView::WaitForTask {
                    user_settings: UserSettingsView {
                        chat_id,
                        timezone: z,
                        style_path,
                        language,
                    },
                },
            ),
        ],
        None => seq![send_plain(sorry())],
    }
}

/// Starts the dialogue: asks for the language with a keyboard of language names.
pub fn start() -> (res: Vec<Effect>)
    ensures
        effects_view(res@) == start_effects(),
{
    let names = Language::get_vec();
    let keyboard = make_keyboard(names, 3);
    proof {
        assert(string_views(names@) =~= language_names());
    }
    let mut res: Vec<Effect> = Vec::new();
    res.push(Effect::Send { text: String::from_str("🗣️❓"), markup: Markup::Reply(keyboard) });
    res.push(Effect::SetState(State::RecieveLanguage));
    proof {
        assert(effects_view(res@) =~= start_effects());
    }
    res
}

/// The style buttons in the language `code`.
fn style_menu_strings(code: &String) -> (res: Vec<String>)
    requires
        is_language_code(code@),
    ensures
        string_views(res@) == style_menu(code@),
{
    let dict = styles_lang();
    let res = dict.get_vec_by_lang(code);
    proof {
        assert(string_views(res@) =~= style_menu(code@));
    }
    res
}

/// The main-menu buttons in the language `code`.
fn main_menu_strings(code: &String) -> (res: Vec<String>)
    requires
        is_language_code(code@),
    ensures
        string_views(res@) == main_menu(code@),
{
    let dict = main_buttons();
    let res = dict.get_vec_by_lang(code);
    proof {
        assert(string_views(res@) =~= main_menu(code@));
    }
    res
}

/// Answers the user's pick of a language: asks for a style, or repeats the question.
pub fn receive_lang(text: Option<&str>) -> (res: Vec<Effect>)
    ensures
        effects_view(res@) == receive_lang_effects(opt_view(text)),
{
    let mut res: Vec<Effect> = Vec::new();
    match text {
        Some(t) => {
            if Language::is_supported(t) {
                let language = Language::from_str(t);
                let msg: &str = if str_eq(language.as_str(), "ru") {
                    "Прекрасно, какой стиль напоминаний предпочитаете?"
                } else if str_eq(language.as_str(), "en") {
                    "Nice, what style do you prefer more?"
                } else {
                    "Гэта цудоўна, але, штучны інтэллект патрымлівае нашу мову вельмі дрэнна.\n                        \nКарыстуйцеся на сваю рызыку.\n                        \nЯкі стыль спадабаецца больш?"
                };
                let keyboard = make_keyboard(style_menu_strings(&language), 3);
                res.push(Effect::Send { text: String::from_str(msg), markup: Markup::Reply(keyboard) });
                res.push(Effect::SetState(State::RecieveStyle { language }));
            } else {
                res.push(plain("⌨️⌨️⌨️⌨️👇👇👇🤦🤦"));
            }
        },
        None => {
            res.push(plain("⌨️⌨️⌨️⌨️👇👇👇🤦🤦"));
        },
    }
    proof {
        assert(effects_view(res@) =~= receive_lang_effects(opt_view(text)));
    }
    res
}

/// Answers the user's pick of a style: asks for the location, or repeats the question.
pub fn receive_style(language: String, text: Option<&str>) -> (res: Vec<Effect>)
    requires
        receive_style_ok(language@, opt_view(text)),
    ensures
        effects_view(res@) == receive_style_effects(language@, opt_view(text)),
{
    let mut res: Vec<Effect> = Vec::new();
    let dict = styles_lang();
    proof {
        assert(crate::styles::emojis_of(dict.styles@) =~= style_emojis());
    }
    match text {
        Some(t) => {
            match find_style(dict.styles, t) {
                Some(i) => {
                    proof {
                        crate::styles::lemma_first_mentioned(style_emojis(), t@);
                    }
                    let msg: &str = if str_eq(language.as_str(), "ru") {
                        "Теперь попрошу вас прислать геопозицию для точного присылания напоминаний. Нажмите на кнопочку ниже"
                    } else if str_eq(language.as_str(), "en") {
                        "Now I want to ask you geolocation for proper reminder sending. Press the button below"
                    } else {
                        "Цяпер я хачу запрасіць вашу геалакацыю для дакладнага адпраўлення напамінкаў. Націсніце на кнопку ніжэй"
                    };
                    let style_path = String::from_str(dict.styles[i].prompt_path);
                    res.push(Effect::Send {
                        text: String::from_str(msg),
                        markup: Markup::Reply(location_keyboard()),
                    });
                    res.push(Effect::SetState(State::RecieveLocation { language, style_path }));
                },
                None => {
                    res.push(plain("⌨️⌨️⌨️⌨️👇👇👇🤦🤦"));
                },
            }
        },
        None => {
            res.push(plain("⌨️⌨️⌨️⌨️👇👇👇🤦🤦"));
        },
    }
    proof {
        assert(effects_view(res@) =~= receive_style_effects(language@, opt_view(text)));
    }
    res
}

/// Answers the user's location: confirms the time zone found for it and shows the main menu,
/// or asks again when the message held no location.
pub fn receive_location(
    language: String,
    style_path: String,
    chat_id: i64,
    zone: Option<String>,
) -> (res: Vec<Effect>)
    requires
        zone is Some ==> is_language_code(language@),
    ensures
        effects_view(res@) == receive_location_effects(
            language@,
            style_path@,
            chat_id,
            opt_string_view(zone),
        ),
{
    let mut res: Vec<Effect> = Vec::new();
    match zone {
        Some(timezone) => {
            let msg = if str_eq(language.as_str(), "ru") {
                String::from_str("Часовой пояс установлен для ").concat(timezone.as_str()).concat(
                    "!\n\nВсё готово! Пользуйтесь кнопками ниже.",
                )
            } else if str_eq(language.as_str(), "en") {
                String::from_str("Time zone set to ").concat(timezone.as_str()).concat(
                    "!\n\nAll done! Use buttons below.",
                )
            } else {
                String::from_str("Гадзінны пояс установленны на ").concat(timezone.as_str()).concat(
                    "!\n\nУсё гатова! Карыстайцеся кнопкамі ніжэй",
                )
            };
            let keyboard = make_keyboard(main_menu_strings(&language), 1);
            res.push(Effect::Send { text: msg, markup: Markup::Reply(keyboard) });
            let user_settings = UserSettings { chat_id, language, style_path, timezone };
            res.push(Effect::SetState(State::WaitForTask { user_settings }));
        },
        None => {
            res.push(plain("⌨️⌨️⌨️⌨️👇👇👇🤦🤦"));
        },
    }
    proof {
        assert(effects_view(res@) =~= receive_location_effects(
            language@,
            style_path@,
            chat_id,
            opt_string_view(zone),
        ));
    }
    res
}

/// The bot's commands.
#[derive(Clone, Copy, PartialEq, Eq, Debug)]
pub enum Command {
    /// Reset the current state and the user's settings.
    Reset,
    /// Leave the reminder being made and wait for a task again.
    Cancel,
}

/// The answer to a command.
pub open spec fn command_effects(cmd: Command, state: StateView) -> Seq<EffectView> {
    match cmd {
        Command::Reset => seq![
            send_plain("Your settings will be reset. Send message to continue"@),
            EffectView::SetState(StateView::Start),
        ],
        Command::Cancel => match reminder_settings(state) {
            Some(u) => seq![
                send_plain("Хорошо, останавливаюсь!"@),
                EffectView::SetState(StateView::WaitForTask { user_settings: u }),
            ],
            None => seq![],
        },
    }
}

/// Handles `/reset` and `/cancel`.
pub fn handle_commands(cmd: Command, state: &State) -> (res: Vec<Effect>)
    ensures
        effects_view(res@) == command_effects(cmd, state@),
{
    let mut res: Vec<Effect> = Vec::new();
    match cmd {
        Command::Reset => {
            res.push(plain("Your settings will be reset. Send message to continue"));
            res.push(Effect::SetState(State::Start));
        },
        Command::Cancel => {
            if let Some(user_settings) = state.user_settings() {
                res.push(plain("Хорошо, останавливаюсь!"));
                res.push(
                    Effect::SetState(State::WaitForTask { user_settings: user_settings.duplicate() }),
                );
            }
        },
    }
    proof {
        assert(effects_view(res@) =~= command_effects(cmd, state@));
    }
    res
}

/// The summary shown before a reminder is saved.
pub open spec fn summary_text(date: Seq<char>, time: Seq<char>, what_to_remind: Seq<char>) -> Seq<char> {
    "Всё правильно? \n\nДата: "@ + date + " \nВремя: "@ + time + " \nО чём напомнить: "@
        + what_to_remind
}

/// Shows the reminder for confirmation and waits for the answer.
pub open spec fn final_polish_effects(
    user_settings: UserSettingsView,
    date: Seq<char>,
    time: Seq<char>,
    what_to_remind: Seq<char>,
) -> Seq<EffectView> {
    seq![
        EffectView::Send {
            text: summary_text(date, time, what_to_remind),
            markup: inline_markup(
                seq!["Да ✅"@, "Изменить 🔄"@, "Удалить 🚮"@],
                seq!["yes"@, "edit"@, "delete"@],
                1,
            ),
        },
        EffectView::SetState(
            StateView::ReminderFinalPolish { user_settings, date, time, what_to_remind },
        ),
    ]
}

/// Shows the reminder with yes / edit / delete buttons and moves to the final check.
pub fn update_to_final_polish(
    user_settings: UserSettings,
    date: String,
    time: String,
    what_to_remind: String,
) -> (res: Vec<Effect>)
    ensures
        effects_view(res@) == final_polish_effects(user_settings@, date@, time@, what_to_remind@),
{
    let names: Vec<&str> = vec!["Да ✅", "Изменить 🔄", "Удалить 🚮"];
    let data: Vec<&str> = vec!["yes", "edit", "delete"];
    proof {
        assert(str_views(names@) =~= seq!["Да ✅"@, "Изменить 🔄"@, "Удалить 🚮"@]);
        assert(str_views(data@) =~= seq!["yes"@, "edit"@, "delete"@]);
    }
    let keyboard = make_inline_keyboard(names, data, 1);
    let text = String::from_str("Всё правильно? \n\nДата: ").concat(date.as_str()).concat(
        " \nВремя: ",
    ).concat(time.as_str()).concat(" \nО чём напомнить: ").concat(what_to_remind.as_str());
    let mut res: Vec<Effect> = Vec::new();
    res.push(Effect::Send { text, markup: Markup::Inline(keyboard) });
    res.push(
        Effect::SetState(State::ReminderFinalPolish { user_settings, date, time, what_to_remind }),
    );
    proof {
        assert(effects_view(res@) =~= final_polish_effects(
            user_settings@,
            date@,
            time@,
            what_to_remind@,
        ));
    }
    res
}

/// Takes the reminder's text and moves to the final check.
pub fn recieve_reminder_theme(
    user_settings: UserSettings,
    date: String,
    time: String,
    text: Option<&str>,
) -> (res: Vec<Effect>)
    ensures
        effects_view(res@) == match opt_view(text) {
            Some(t) => final_polish_effects(user_settings@, date@, time@, t),
            None => seq![],
        },
{
    match text {
        Some(t) => update_to_final_polish(user_settings, date, time, t.to_owned()),
        None => {
            let res: Vec<Effect> = Vec::new();
            proof {
                assert(effects_view(res@) =~= seq![]);
            }
            res
        },
    }
}

/// While the reminder waits for confirmation, text from the user is deleted.
pub fn reminder_final_polish(text: Option<&str>) -> (res: Vec<Effect>)
    ensures
        effects_view(res@) == if text is Some {
            seq![EffectView::DeleteIncomingMessage]
        } else {
            seq![]
        },
{
    let mut res: Vec<Effect> = Vec::new();
    if text.is_some() {
        res.push(Effect::DeleteIncomingMessage);
    }
    proof {
        assert(effects_view(res@) =~= if text is Some {
            seq![EffectView::DeleteIncomingMessage]
        } else {
            seq![]
        });
    }
    res
}

/// Takes a new text for the reminder and goes back to the final check.
pub fn edit_reminder_theme(
    user_settings: UserSettings,
    date: String,
    time: String,
    text: Option<&str>,
) -> (res: Vec<Effect>)
    ensures
        effects_view(res@) == match opt_view(text) {
            Some(t) => final_polish_effects(user_settings@, date@, time@, t),
            None => seq![send_plain("Пожалуйста введите тему напоминания нормально."@)],
        },
{
    match text {
        Some(t) => update_to_final_polish(user_settings, date, time, t.to_owned()),
        None => {
            let mut res: Vec<Effect> = Vec::new();
            res.push(plain("Пожалуйста введите тему напоминания нормально."));
            proof {
                assert(effects_view(res@) =~= seq![
                    send_plain("Пожалуйста введите тему напоминания нормально."@),
                ]);
            }
            res
        },
    }
}

/// What a message leads to: effects to carry out, or (in the main menu) a look at the user's
/// sent reminders, whose agreements the text may repeat.
#[derive(PartialEq, Eq, Debug)]
pub enum MessageOutcome {
    Reply(Vec<Effect>),
    LookUpReminders,
}

pub enum MessageOutcomeView {
    Reply(Seq<EffectView>),
    LookUpReminders,
}

impl View for MessageOutcome {
    type V = MessageOutcomeView;

    open spec fn view(&self) -> MessageOutcomeView {
        match self {
            MessageOutcome::Reply(v) => MessageOutcomeView::Reply(effects_view(v@)),
            MessageOutcome::LookUpReminders => MessageOutcomeView::LookUpReminders,
        }
    }
}

/// The question that starts a new reminder, by language code.
pub open spec fn when_question(code: Seq<char>) -> Seq<char> {
    if code == "ru"@ {
        "Когда придёт напоминание?"@
    } else if code == "en"@ {
        "When reminder will come to you?"@
    } else {
        "Калі прыдзе ваш напамінак?"@
    }
}

/// The labels of the when-buttons, by language code.
pub open spec fn when_names(code: Seq<char>) -> Seq<Seq<char>> {
    if code == "ru"@ {
        seq!["Сегодня"@, "Через пару дней"@, "Какого-то числа"@]
    } else if code == "en"@ {
        seq!["Today"@, "Days later"@, "In some exact date"@]
    } else {
        seq!["Сягодня"@, "Праз пару дзён"@, "Нейкага чысла"@]
    }
}

/// The data of the when-buttons.
pub open spec fn when_data() -> Seq<Seq<char>> {
    seq!["today"@, "in_few_days"@, "exact_day"@]
}

/// Whether a main-menu message can be handled: "new" needs a known language.
pub open spec fn wait_for_task_ok(user_settings: UserSettingsView, text: Option<Seq<char>>) -> bool {
    text matches Some(t) && first_mentioned(menu_emojis(), t) == Some(0int) ==> is_language_code(
        user_settings.language,
    )
}

/// What a message sent from the main menu leads to.
pub open spec fn wait_for_task_outcome(
    user_settings: UserSettingsView,
    text: Option<Seq<char>>,
) -> MessageOutcomeView {
    match text {
        None => MessageOutcomeView::Reply(seq![]),
        Some(t) => match first_mentioned(menu_emojis(), t) {
            Some(i) => if i == 0 {
                MessageOutcomeView::Reply(
                    seq![
                        EffectView::Send {
                            text: when_question(user_settings.language),
                            markup: inline_markup(when_names(user_settings.language), when_data(), 1),
                        },
                        EffectView::SetState(StateView::CreateReminder { user_settings }),
                    ],
                )
            } else if i == 1 {
                MessageOutcomeView::Reply(
                    seq![send_plain("Эта кнопка ещё в процессе создания, подождите немного"@)],
                )
            } else {
                MessageOutcomeView::Reply(
                    seq![
                        send_plain(
                            "Его пока что нету, но любым пожертвованиям я буду рад! Переходите в телеграмм канал в профиле, там можно отправлять подарки."@,
                        ),
                    ],
                )
            },
            None => MessageOutcomeView::LookUpReminders,
        },
    }
}

/// Handles a message in the main menu: a new reminder, the unfinished buttons, or (for any
/// other text) a look at the reminders the user may be answering.
pub fn wait_for_task(user_settings: UserSettings, text: Option<&str>) -> (res: MessageOutcome)
    requires
        wait_for_task_ok(user_settings@, opt_view(text)),
    ensures
        res@ == wait_for_task_outcome(user_settings@, opt_view(text)),
{
    let t = match text {
        Some(t) => t,
        None => {
            let res: Vec<Effect> = Vec::new();
            proof {
                assert(effects_view(res@) =~= seq![]);
            }
            return MessageOutcome::Reply(res);
        },
    };
    let dict = main_buttons();
    proof {
        assert(crate::styles::emojis_of(dict.styles@) =~= menu_emojis());
        crate::styles::lemma_first_mentioned(menu_emojis(), t@);
        reveal_strlit("new");
        reveal_strlit("manage");
        reveal_strlit("premium");
    }
    match find_style(dict.styles, t) {
        Some(i) => {
            let path = dict.styles[i].prompt_path;
            assert(i < 3);
            assert(path@ == dict.styles@[i as int].prompt_path@);
            assert(i == 0 ==> path@ == "new"@);
            assert(i == 1 ==> path@ == "manage"@);
            assert(i == 2 ==> path@ == "premium"@);
            let mut res: Vec<Effect> = Vec::new();
            if str_eq(path, "new") {
                let language = user_settings.language.as_str();
                let msg: &str;
                let names: Vec<&str>;
                if str_eq(language, "ru") {
                    msg = "Когда придёт напоминание?";
                    names = vec!["Сегодня", "Через пару дней", "Какого-то числа"];
                } else if str_eq(language, "en") {
                    msg = "When reminder will come to you?";
                    names = vec!["Today", "Days later", "In some exact date"];
                } else {
                    msg = "Калі прыдзе ваш напамінак?";
                    names = vec!["Сягодня", "Праз пару дзён", "Нейкага чысла"];
                }
                let data: Vec<&str> = vec!["today", "in_few_days", "exact_day"];
                proof {
                    assert(str_views(names@) =~= when_names(user_settings@.language));
                    assert(str_views(data@) =~= when_data());
                }
                let keyboard = make_inline_keyboard(names, data, 1);
                res.push(Effect::Send { text: String::from_str(msg), markup: Markup::Inline(keyboard) });
                res.push(Effect::SetState(State::CreateReminder { user_settings }));
                assert(i == 0);
            } else if str_eq(path, "manage") {
                assert(i == 1);
                res.push(plain("Эта кнопка ещё в процессе создания, подождите немного"));
            } else {
                res.push(
                    plain(
                        "Его пока что нету, но любым пожертвованиям я буду рад! Переходите в телеграмм канал в профиле, там можно отправлять подарки.",
                    ),
                );
            }
            proof {
                assert(effects_view(res@) =~= match wait_for_task_outcome(user_settings@, opt_view(text)) {
                    MessageOutcomeView::Reply(e) => e,
                    _ => seq![],
                });
            }
            MessageOutcome::Reply(res)
        },
        None => MessageOutcome::LookUpReminders,
    }
}

}
