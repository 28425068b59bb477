use vstd::prelude::*;

use crate::text::{contains_seq, contains_str, str_eq};

verus! {

/// A reminder style (or a main-menu button): the prompt file (or action name) it stands for,
/// whether it needs premium, and the emoji by which a user's message selects it.
#[derive(Clone, PartialEq, Eq, Debug)]
pub struct Style {
    pub prompt_path: &'static str,
    pub premium: bool,
    pub emoji: &'static str,
}

impl Style {
    /// Returns this style when `text` mentions its emoji.
    pub fn get_by_emoji(self, text: &str) -> (res: Style)
        requires
            contains_seq(text@, self.emoji@),
        ensures
            res == self,
    {
        let found = contains_str(text, self.emoji);
        assert(found);
        self
    }
}

/// Localised names of a list of styles, one list per supported language code.
pub struct StyleDict {
    pub ru: &'static [&'static str],
    pub en: &'static [&'static str],
    pub by: &'static [&'static str],
    pub styles: &'static [Style],
}

/// The language codes the bot speaks.
pub open spec fn is_language_code(lang: Seq<char>) -> bool {
    lang == "ru"@ || lang == "en"@ || lang == "by"@
}

/// A style's button label: its emoji, a space, and its localised name.
pub open spec fn style_label(emoji: Seq<char>, name: Seq<char>) -> Seq<char> {
    emoji + " "@ + name
}

impl StyleDict {
    /// The names that belong to the language code `lang`.
    pub open spec fn names_for(self, lang: Seq<char>) -> Seq<&'static str> {
        if lang == "ru"@ {
            self.ru@
        } else if lang == "en"@ {
            self.en@
        } else {
            self.by@
        }
    }

    /// The number of labels for `lang`: styles and names are paired up to the shorter list.
    pub open spec fn label_count(self, lang: Seq<char>) -> nat {
        if self.styles@.len() <= self.names_for(lang).len() {
            self.styles@.len()
        } else {
            self.names_for(lang).len()
        }
    }

    /// The button labels of this dictionary in the language `lang`, in style order.
    pub fn get_vec_by_lang(self, lang: &String) -> (res: Vec<String>)
        requires
            is_language_code(lang@),
        ensures
            res@.len() == self.label_count(lang@),
            forall|i: int|
                0 <= i < res@.len() ==> #[trigger] res@[i]@ == style_label(
                    self.styles@[i].emoji@,
                    self.names_for(lang@)[i]@,
                ),
    {
        let names: &'static [&'static str] = if str_eq(lang.as_str(), "ru") {
            self.ru
        } else if str_eq(lang.as_str(), "en") {
            self.en
        } else {
            self.by
        };
        let count: usize = if self.styles.len() <= names.len() {
            self.styles.len()
        } else {
            names.len()
        };
        let mut res: Vec<String> = Vec::new();
        let mut i: usize = 0;
        while i < count
            invariant
                names@ == self.names_for(lang@),
                count == self.label_count(lang@),
                count <= self.styles@.len(),
                count <= names@.len(),
                i <= count,
                res@.len() == i,
                forall|j: int|
                    0 <= j < i ==> #[trigger] res@[j]@ == style_label(
                        self.styles@[j].emoji@,
                        names@[j]@,
                    ),
            decreases count - i,
        {
            let label = String::from_str(self.styles[i].emoji).concat(" ").concat(names[i]);
            res.push(label);
            i = i + 1;
        }
        res
    }
}

/// Marker for the languages a user can pick.
pub struct Language;

/// The language names shown on the language keyboard.
pub open spec fn language_names() -> Seq<Seq<char>> {
    seq!["Русский"@, "English"@, "Беларускі"@]
}

/// A language name the bot understands.
pub open spec fn is_language_name(name: Seq<char>) -> bool {
    language_names().contains(name)
}

/// The code that belongs to a language name.
pub open spec fn language_code(name: Seq<char>) -> Seq<char> {
    if name == "Русский"@ {
        "ru"@
    } else if name == "English"@ {
        "en"@
    } else {
        "by"@
    }
}

impl Language {
    /// The language code of a language name shown on the keyboard.
    pub fn from_str(str: &str) -> (res: String)
        requires
            is_language_name(str@),
        ensures
            res@ == language_code(str@),
            is_language_code(res@),
    {
        if str_eq(str, "Русский") {
            String::from_str("ru")
        } else if str_eq(str, "English") {
            String::from_str("en")
        } else {
            proof {
                assert(language_names()[2] == "Беларускі"@);
            }
            String::from_str("by")
        }
    }

    /// The language names, in keyboard order.
    pub fn get_vec() -> (res: Vec<String>)
        ensures
            res@.len() == 3,
            forall|i: int| 0 <= i < 3 ==> #[trigger] res@[i]@ == language_names()[i],
    {
        let mut res: Vec<String> = Vec::new();
        res.push(String::from_str("Русский"));
        res.push(String::from_str("English"));
        res.push(String::from_str("Беларускі"));
        res
    }

    /// Whether `text` is exactly one of the language names.
    pub fn is_supported(text: &str) -> (res: bool)
        ensures
            res == is_language_name(text@),
    {
        let names = Language::get_vec();
        let wanted = text.to_owned();
        let mut i: usize = 0;
        while i < names.len()
            invariant
                names@.len() == 3,
                forall|k: int| 0 <= k < 3 ==> #[trigger] names@[k]@ == language_names()[k],
                wanted@ == text@,
                i <= names@.len(),
                forall|k: int| 0 <= k < i ==> language_names()[k] != text@,
            decreases names@.len() - i,
        {
            if names[i] == wanted {
                assert(language_names()[i as int] == text@);
                return true;
            }
            i = i + 1;
        }
        assert forall|k: int| 0 <= k < language_names().len() implies language_names()[k] != text@ by {}
        false
    }
}

/// The reminder styles a user can choose from.
pub fn styles_lang() -> (res: StyleDict)
    ensures
        res.ru@.len() == 1 && res.ru@[0]@ == "Злой тролль"@,
        res.en@.len() == 1 && res.en@[0]@ == "Angry troll"@,
        res.by@.len() == 1 && res.by@[0]@ == "Злы троль"@,
        res.styles@.len() == 1,
        res.styles@[0].prompt_path@ == "prompts/angry.txt"@,
        res.styles@[0].emoji@ == "🤬"@,
        !res.styles@[0].premium,
{
    StyleDict {
        ru: &["Злой тролль"],
        en: &["Angry troll"],
        by: &["Злы троль"],
        styles: &[Style { prompt_path: "prompts/angry.txt", emoji: "🤬", premium: false }],
    }
}

/// The main-menu buttons; `prompt_path` names the action a button starts.
pub fn main_buttons() -> (res: StyleDict)
    ensures
        res.ru@.len() == 3,
        res.ru@[0]@ == "Новое напоминание"@,
        res.ru@[1]@ == "Настроить Напоминания"@,
        res.ru@[2]@ == "Купить премиум"@,
        res.en@.len() == 3,
        res.en@[0]@ == "New reminder"@,
        res.en@[1]@ == "Manage reminders"@,
        res.en@[2]@ == "Buy premium"@,
        res.by@.len() == 3,
        res.by@[0]@ == "Новы напамін"@,
        res.by@[1]@ == "Наладзіць напамінкі"@,
        res.by@[2]@ == "Купіць прэміум"@,
        res.styles@.len() == 3,
        res.styles@[0].prompt_path@ == "new"@,
        res.styles@[0].emoji@ == "🆕"@,
        res.styles@[1].prompt_path@ == "manage"@,
        res.styles@[1].emoji@ == "⚙️"@,
        res.styles@[2].prompt_path@ == "premium"@,
        res.styles@[2].emoji@ == "🌟"@,
        forall|i: int| 0 <= i < 3 ==> !(#[trigger] res.styles@[i]).premium,
{
    StyleDict {
        ru: &["Новое напоминание", "Настроить Напоминания", "Купить премиум"],
        en: &["New reminder", "Manage reminders", "Buy premium"],
        by: &["Новы напамін", "Наладзіць напамінкі", "Купіць прэміум"],
        styles: &[
            Style { prompt_path: "new", emoji: "🆕", premium: false },
            Style { prompt_path: "manage", emoji: "⚙️", premium: false },
            Style { prompt_path: "premium", emoji: "🌟", premium: false },
        ],
    }
}

/// The emojis of a list of styles, in order.
pub open spec fn emojis_of(styles: Seq<Style>) -> Seq<Seq<char>> {
    styles.map_values(|s: Style| s.emoji@)
}

/// The position of the first emoji that `text` mentions.
pub open spec fn first_mentioned(emojis: Seq<Seq<char>>, text: Seq<char>) -> Option<int>
    decreases emojis.len(),
{
    if emojis.len() == 0 {
        None
    } else if contains_seq(text, emojis[0]) {
        Some(0)
    } else {
        match first_mentioned(emojis.skip(1), text) {
            Some(i) => Some(i + 1),
            None => None,
        }
    }
}

/// A position found by `first_mentioned` lies inside the list and its emoji is mentioned.
pub proof fn lemma_first_mentioned(emojis: Seq<Seq<char>>, text: Seq<char>)
    ensures
        first_mentioned(emojis, text) matches Some(i) ==> 0 <= i < emojis.len() && contains_seq(
            text,
            emojis[i],
        ),
        first_mentioned(emojis, text) is None ==> forall|j: int|
            0 <= j < emojis.len() ==> !contains_seq(text, #[trigger] emojis[j]),
    decreases emojis.len(),
{
    if emojis.len() > 0 {
        lemma_first_mentioned(emojis.skip(1), text);
        assert forall|j: int| 1 <= j < emojis.len() implies emojis[j] == #[trigger] emojis.skip(1)[j - 1] by {}
        if first_mentioned(emojis, text) is None {
            assert forall|j: int| 0 <= j < emojis.len() implies !contains_seq(text, #[trigger] emojis[j]) by {
                if j > 0 {
                    assert(emojis[j] == emojis.skip(1)[j - 1]);
                }
            }
        }
    }
}

/// The first style whose emoji `text` mentions (as `Iterator::find` over the styles).
pub fn find_style(styles: &[Style], text: &str) -> (res: Option<usize>)
    ensures
        match res {
            Some(i) => first_mentioned(emojis_of(styles@), text@) == Some(i as int),
            None => first_mentioned(emojis_of(styles@), text@) is None,
        },
{
    let ghost all = emojis_of(styles@);
    let mut i: usize = 0;
    proof {
        assert(all.skip(0) =~= all);
    }
    while i < styles.len()
        invariant
            all == emojis_of(styles@),
            i <= styles@.len(),
            first_mentioned(all, text@) == match first_mentioned(all.skip(i as int), text@) {
                Some(k) => Some(k + i),
                None => None,
            },
        decreases styles@.len() - i,
    {
        let ghost rest = all.skip(i as int);
        assert(rest[0] == styles@[i as int].emoji@);
        if contains_str(text, styles[i].emoji) {
            return Some(i);
        }
        assert(rest.skip(1) =~= all.skip(i + 1));
        i = i + 1;
    }
    assert(all.skip(i as int).len() == 0);
    None
}

}
