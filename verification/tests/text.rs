use omniemployee_gui::text::{
    bool_to_string, char_is_space, chars_of, int_to_string, join, nat_to_string, push_chars,
    split_words, squeeze_blank_lines, starts_with, str_eq, string_of, trim, trim_chars,
};

fn chars(s: &str) -> Vec<char> {
    s.chars().collect()
}

#[test]
fn white_space_is_what_std_says() {
    let mut code: u32 = 0;
    while code <= 0x3100 {
        if let Some(c) = char::from_u32(code) {
            assert_eq!(char_is_space(c), c.is_whitespace(), "U+{:04X}", code);
        }
        code += 1;
    }
    assert!(!char_is_space('\u{feff}'));
    assert!(!char_is_space('\u{10ffff}'));
}

#[test]
fn chars_and_back() {
    assert_eq!(chars_of("héllo ⚠️"), chars("héllo ⚠️"));
    assert_eq!(chars_of(""), Vec::<char>::new());
    assert_eq!(string_of(&chars("héllo ⚠️")), "héllo ⚠️");
    let mut out = "ab".to_string();
    push_chars(&mut out, &chars("012345"), 2, 5);
    assert_eq!(out, "ab234");
    push_chars(&mut out, &chars("012345"), 3, 3);
    assert_eq!(out, "ab234");
}

#[test]
fn equality_and_prefixes() {
    assert!(str_eq("abc", "abc"));
    assert!(!str_eq("abc", "abd"));
    assert!(!str_eq("abc", "ab"));
    assert!(str_eq("", ""));
    assert!(starts_with(&chars("data: x"), &chars("data: ")));
    assert!(starts_with(&chars("data: "), &chars("data: ")));
    assert!(!starts_with(&chars("data:x"), &chars("data: ")));
    assert!(!starts_with(&chars("dat"), &chars("data: ")));
    assert!(starts_with(&chars("abc"), &chars("")));
}

#[test]
fn trimming() {
    assert_eq!(trim("  a b \t\n"), "a b");
    assert_eq!(trim("a"), "a");
    assert_eq!(trim(""), "");
    assert_eq!(trim(" \u{3000}\u{85} "), "");
    assert_eq!(trim("\u{2028}x\u{2029}"), "x");
    assert_eq!(trim_chars(&chars(" x y ")), chars("x y"));
    for s in ["", " ", "a", " a", "a ", "  a  b  ", "\n\ta\u{a0}"] {
        assert_eq!(trim(s), s.trim());
    }
}

#[test]
fn splitting_into_words() {
    assert_eq!(split_words(&chars("a bb  ccc")), vec!["a", "bb", "ccc"]);
    assert_eq!(split_words(&chars("  lead trail  ")), vec!["lead", "trail"]);
    assert_eq!(split_words(&chars("")), Vec::<String>::new());
    assert_eq!(split_words(&chars(" \t\n")), Vec::<String>::new());
    assert_eq!(split_words(&chars("one")), vec!["one"]);
    for s in ["a b", " a\tb\nc ", "x\u{3000}y", "", "   ", "abc"] {
        let expected: Vec<String> = s.split_whitespace().map(|w| w.to_string()).collect();
        assert_eq!(split_words(&chars(s)), expected);
    }
}

#[test]
fn squeezing_blank_lines() {
    assert_eq!(squeeze_blank_lines(&chars("a\n\n\nb")), chars("a\n\nb"));
    assert_eq!(squeeze_blank_lines(&chars("a\n\nb")), chars("a\n\nb"));
    assert_eq!(squeeze_blank_lines(&chars("a\nb")), chars("a\nb"));
    assert_eq!(squeeze_blank_lines(&chars("\n\n\n\n\n\n\n")), chars("\n\n"));
    assert_eq!(squeeze_blank_lines(&chars("a\n\n\n\nb\n\n\nc\n")), chars("a\n\nb\n\nc\n"));
    assert_eq!(squeeze_blank_lines(&chars("")), chars(""));
    for s in ["\n\n\n\n", "a\n\n\n\n\n\nb", "x\n\n\ny\n\n\n\nz\n\n\n", "\n \n\n\n"] {
        let mut expected = s.to_string();
        while expected.contains("\n\n\n") {
            expected = expected.replace("\n\n\n", "\n\n");
        }
        assert_eq!(string_of(&squeeze_blank_lines(&chars(s))), expected);
    }
}

#[test]
fn joining() {
    let items = vec!["a".to_string(), "b".to_string(), "c".to_string()];
    assert_eq!(join(&items, ", "), "a, b, c");
    assert_eq!(join(&items[..1].to_vec(), ", "), "a");
    assert_eq!(join(&Vec::new(), ", "), "");
    assert_eq!(join(&vec!["".to_string(), "".to_string()], "-"), "-");
}

#[test]
fn decimal_rendering() {
    assert_eq!(int_to_string(0), "0");
    assert_eq!(int_to_string(7), "7");
    assert_eq!(int_to_string(10), "10");
    assert_eq!(int_to_string(-5), "-5");
    assert_eq!(int_to_string(1234567890), "1234567890");
    assert_eq!(int_to_string(i64::MAX), "9223372036854775807");
    assert_eq!(int_to_string(i64::MIN), "-9223372036854775808");
    assert_eq!(nat_to_string(0), "0");
    assert_eq!(nat_to_string(20), "20");
    assert_eq!(nat_to_string(u64::MAX), "18446744073709551615");
    assert_eq!(bool_to_string(true), "true");
    assert_eq!(bool_to_string(false), "false");
}
