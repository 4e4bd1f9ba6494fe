use quantumtv::clock::weekday_of_day;
use quantumtv::numtext::{i32_to_string, i64_to_string, parse_i32, parse_u64, u64_to_string, u64_zero_padded};
use quantumtv::text::{
    contains, ends_with, eq_ignore_ascii_case, replace, split, starts_with, str_eq, to_ascii_lowercase, trim,
};
use quantumtv::shell::{boss_key_action, boss_key_decision, greet, is_boss_shortcut, WindowToggle};

#[test]
fn greeting_text() {
    assert_eq!(greet("Ann"), "Hello, Ann! You've been greeted from Rust!");
}

#[test]
fn boss_key_toggles_window() {
    assert_eq!(boss_key_action(Some(true)), WindowToggle::Hide);
    assert_eq!(boss_key_action(None), WindowToggle::Hide);
    assert_eq!(boss_key_action(Some(false)), WindowToggle::ShowAndFocus);
}

#[test]
fn integer_parsing_matches_std() {
    for text in ["0", "42", "+7", "-7", "-2147483648", "2147483647", "2147483648", "-", "+", "", "1a", "-+1", " 1"] {
        assert_eq!(parse_i32(text), text.parse::<i32>().ok(), "{}", text);
    }
    for text in ["0", "18446744073709551615", "18446744073709551616", "+1", "-1"] {
        assert_eq!(parse_u64(text), text.parse::<u64>().ok(), "{}", text);
    }
    assert_eq!(u64_zero_padded(7, 3), "007");
    assert_eq!(u64_zero_padded(1234, 2), "1234");
}

#[test]
fn text_helpers_match_std() {
    let samples = ["", "  a b  ", "\u{3000}全角\u{3000}", "x.y.z", "..", "AbC-é", "a\tb\n"];
    for s in samples {
        assert_eq!(trim(s), s.trim(), "{:?}", s);
        assert_eq!(to_ascii_lowercase(s), s.to_ascii_lowercase(), "{:?}", s);
        assert_eq!(replace(s, ".", "::"), s.replace(".", "::"), "{:?}", s);
        assert_eq!(split(s, "."), s.split(".").map(|p| p.to_string()).collect::<Vec<_>>(), "{:?}", s);
        assert_eq!(contains(s, "b"), s.contains("b"), "{:?}", s);
        assert_eq!(starts_with(s, " "), s.starts_with(' '), "{:?}", s);
        assert_eq!(ends_with(s, "z"), s.ends_with('z'), "{:?}", s);
        assert_eq!(eq_ignore_ascii_case(s, "abc-é"), s.eq_ignore_ascii_case("abc-é"), "{:?}", s);
        assert!(str_eq(s, s));
    }
    assert!(!str_eq("a", "b"));
}

#[test]
fn integer_text_matches_std() {
    for n in [0u64, 9, 10, 18446744073709551615] {
        assert_eq!(u64_to_string(n), n.to_string());
    }
    for n in [0i64, -1, 42, i64::MIN, i64::MAX] {
        assert_eq!(i64_to_string(n), n.to_string());
    }
    for n in [0i32, -7, i32::MIN, i32::MAX] {
        assert_eq!(i32_to_string(n), n.to_string());
    }
}

#[test]
fn weekday_of_day_counts_from_a_thursday() {
    assert_eq!(weekday_of_day(0), "Thu");
    assert_eq!(weekday_of_day(3), "Sun");
    assert_eq!(weekday_of_day(19_723), "Mon");
}

#[test]
fn boss_key_acts_only_on_a_press_of_ctrl_alt_x() {
    assert!(is_boss_shortcut(true, true, false, "KeyX"));
    assert!(!is_boss_shortcut(true, false, false, "KeyX"));
    assert!(!is_boss_shortcut(true, true, true, "KeyX"));
    assert!(!is_boss_shortcut(true, true, false, "KeyY"));
    assert_eq!(boss_key_decision(true, true, Some(true)), Some(WindowToggle::Hide));
    assert_eq!(boss_key_decision(true, true, Some(false)), Some(WindowToggle::ShowAndFocus));
    assert_eq!(boss_key_decision(true, false, Some(true)), None);
    assert_eq!(boss_key_decision(false, true, Some(false)), None);
}
