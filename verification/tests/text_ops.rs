use dreambreaker::text::{
    after_last_text, chars_of, contains_text, decimal_string, join3, last_word_text, prefix_text,
    replace_text, split_once_text, str_equals, trim_text, xml_escape,
};

#[test]
fn xml_escape_replaces_markup_characters() {
    assert_eq!(xml_escape("a<b>&\"c\""), "a&lt;b&gt;&amp;&quot;c&quot;");
}

#[test]
fn xml_escape_keeps_plain_text() {
    assert_eq!(xml_escape("Арбат 7"), "Арбат 7");
    assert_eq!(xml_escape(""), "");
}

#[test]
fn xml_escape_does_not_escape_twice() {
    assert_eq!(xml_escape("&amp;"), "&amp;amp;");
}

#[test]
fn contains_finds_substrings() {
    assert!(contains_text("ERROR: GAME_OVER reached", "GAME_OVER"));
    assert!(!contains_text("GAME_OVE", "GAME_OVER"));
    assert!(contains_text("abc", ""));
    assert!(contains_text("duplicate key value", "duplicate"));
}

#[test]
fn decimal_strings() {
    assert_eq!(decimal_string(0), "0");
    assert_eq!(decimal_string(400), "400");
    assert_eq!(decimal_string(-42), "-42");
    assert_eq!(decimal_string(i64::MIN), "-9223372036854775808");
    assert_eq!(decimal_string(i64::MAX), "9223372036854775807");
}

#[test]
fn trimming_and_words() {
    assert_eq!(trim_text("  Иван \t"), "Иван");
    assert_eq!(trim_text("   "), "");
    assert_eq!(last_word_text("Улица  Ленина  "), Some("Ленина".to_string()));
    assert_eq!(last_word_text("   "), None);
    assert_eq!(last_word_text("Арбат"), Some("Арбат".to_string()));
}

#[test]
fn prefixes_count_characters() {
    assert_eq!(prefix_text("Набережная", 7), "Набереж");
    assert_eq!(prefix_text("abc", 8), "abc");
}

#[test]
fn splitting_at_separators() {
    assert_eq!(after_last_text("Усиление: Двойная аренда", ':'), " Двойная аренда");
    assert_eq!(after_last_text("без двоеточия", ':'), "без двоеточия");
    assert_eq!(after_last_text("a:b:", ':'), "");
    assert_eq!(split_once_text("Арбат:120", ':'), ("Арбат".to_string(), Some("120".to_string())));
    assert_eq!(split_once_text("a:b:c", ':'), ("a".to_string(), Some("b:c".to_string())));
    assert_eq!(split_once_text("abc", ':'), ("abc".to_string(), None));
}

#[test]
fn replacing_all_occurrences() {
    assert_eq!(replace_text("<svg></svg><svg></svg>", "</svg>", "X</svg>"), "<svg>X</svg><svg>X</svg>");
    assert_eq!(replace_text("aaa", "aa", "b"), "ba");
    assert_eq!(replace_text("none here", "</svg>", "x"), "none here");
}

#[test]
fn string_helpers() {
    assert!(str_equals("ok", "ok"));
    assert!(!str_equals("ok", "okay"));
    assert_eq!(chars_of("ёж"), vec!['ё', 'ж']);
    assert_eq!(join3("a", "б", "c"), "aбc");
}

#[test]
fn escape_undone_by_std_replace() {
    for s in ["", "plain", "a & b", "<tag attr=\"v\">", "&amp;", "&lt;&gt;\"&quot;", "\"\"<<>>&&"] {
        let back = xml_escape(s)
            .replace("&quot;", "\"")
            .replace("&gt;", ">")
            .replace("&lt;", "<")
            .replace("&amp;", "&");
        assert_eq!(back, s);
    }
}
