use reminder_bot::keyboard::{make_inline_keyboard, make_keyboard, InlineButton};
use reminder_bot::styles::{find_style, main_buttons, styles_lang, Language, Style};
use reminder_bot::text::{
    chars_of, contains_str, decimal_string, pad2_string, pad4_string, parse_u64, replace_all,
    str_eq, year_string,
};

#[test]
fn contains_finds_emoji_inside_text() {
    assert!(contains_str("🆕 New reminder", "🆕"));
    assert!(contains_str("abc", ""));
    assert!(!contains_str("abc", "abcd"));
    assert!(!contains_str("⚙ settings", "⚙️"));
    assert!(contains_str("x ⚙️ y", "⚙️"));
}

#[test]
fn str_eq_compares_characters() {
    assert!(str_eq("ru", "ru"));
    assert!(!str_eq("ru", "en"));
    assert_eq!(chars_of("Да ✅"), vec!['Д', 'а', ' ', '✅']);
}

#[test]
fn parse_u64_follows_std_rules() {
    assert_eq!(parse_u64("42"), Some(42));
    assert_eq!(parse_u64("+7"), Some(7));
    assert_eq!(parse_u64("007"), Some(7));
    assert_eq!(parse_u64("18446744073709551615"), Some(u64::MAX));
    assert_eq!(parse_u64("18446744073709551616"), None);
    assert_eq!(parse_u64("-1"), None);
    assert_eq!(parse_u64(""), None);
    assert_eq!(parse_u64("+"), None);
    assert_eq!(parse_u64(" 1"), None);
    assert_eq!(parse_u64("1a"), None);
    for s in ["0", "15", "+3", "99999", "x", "++1", "-0", "12 "] {
        assert_eq!(parse_u64(s), s.parse::<u64>().ok(), "{}", s);
    }
}

#[test]
fn decimal_formats_are_padded() {
    assert_eq!(decimal_string(0), "0");
    assert_eq!(decimal_string(1234567890), "1234567890");
    assert_eq!(pad2_string(5), "05");
    assert_eq!(pad2_string(12), "12");
    assert_eq!(pad4_string(7), "0007");
    assert_eq!(pad4_string(123), "0123");
    assert_eq!(year_string(2024), "2024");
    assert_eq!(year_string(33), "0033");
    assert_eq!(year_string(12345), "+12345");
    assert_eq!(year_string(-5), "-0005");
}

#[test]
fn replace_all_matches_std_replace() {
    let cases = [
        ("a{x}b{x}", "{x}", "Z"),
        ("aaa", "aa", "X"),
        ("no placeholder", "{language}", "en"),
        ("{language}{language}", "{language}", "ru"),
        ("ёжик {what}!", "{what}", "купить хлеб"),
    ];
    for (s, p, r) in cases {
        assert_eq!(replace_all(s, p, r), s.replace(p, r));
    }
    assert_eq!(replace_all("aaa", "aa", "X"), "Xa");
}

#[test]
fn style_lookup_by_emoji() {
    let style = Style { prompt_path: "prompts/angry.txt", premium: false, emoji: "🤬" };
    let found = style.clone().get_by_emoji("🤬 Злой тролль");
    assert_eq!(found, style);
    let dict = main_buttons();
    assert_eq!(find_style(dict.styles, "⚙️ Manage reminders"), Some(1));
    assert_eq!(find_style(dict.styles, "🌟🆕"), Some(0));
    assert_eq!(find_style(dict.styles, "hello"), None);
}

#[test]
fn style_labels_by_language() {
    assert_eq!(styles_lang().get_vec_by_lang(&"ru".to_string()), vec!["🤬 Злой тролль".to_string()]);
    assert_eq!(styles_lang().get_vec_by_lang(&"by".to_string()), vec!["🤬 Злы троль".to_string()]);
    assert_eq!(
        main_buttons().get_vec_by_lang(&"en".to_string()),
        vec!["🆕 New reminder".to_string(), "⚙️ Manage reminders".to_string(), "🌟 Buy premium".to_string()]
    );
}

#[test]
fn languages_round_trip() {
    assert_eq!(Language::get_vec(), vec!["Русский".to_string(), "English".to_string(), "Беларускі".to_string()]);
    assert_eq!(Language::from_str("Русский"), "ru");
    assert_eq!(Language::from_str("English"), "en");
    assert_eq!(Language::from_str("Беларускі"), "by");
    for name in Language::get_vec() {
        assert!(Language::is_supported(&name));
    }
    assert!(!Language::is_supported("english"));
    assert!(!Language::is_supported("Deutsch"));
}

#[test]
fn keyboard_rows_keep_every_label_in_order() {
    let labels: Vec<String> = ["a", "b", "c", "d", "e"].iter().map(|s| s.to_string()).collect();
    let kb = make_keyboard(labels.clone(), 2);
    assert_eq!(kb.rows, vec![vec!["a".to_string(), "b".to_string()], vec!["c".to_string(), "d".to_string()], vec!["e".to_string()]]);
    assert!(kb.resize && !kb.one_time && !kb.request_location);
    let flat: Vec<String> = kb.rows.concat();
    assert_eq!(flat, labels);
    assert_eq!(make_keyboard(vec![], 3).rows.len(), 0);
}

#[test]
fn inline_keyboard_pairs_labels_with_data() {
    let kb = make_inline_keyboard(vec!["Да", "Нет", "Может"], vec!["yes", "no"], 1);
    assert_eq!(
        kb.rows,
        vec![
            vec![InlineButton { text: "Да".to_string(), data: "yes".to_string() }],
            vec![InlineButton { text: "Нет".to_string(), data: "no".to_string() }],
        ]
    );
    let wide = make_inline_keyboard(vec!["a", "b", "c"], vec!["1", "2", "3"], 2);
    assert_eq!(wide.rows.len(), 2);
    assert_eq!(wide.rows[1][0].data, "3");
}
