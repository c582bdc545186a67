use terdo::text::{fit_prefix, is_blank, repeat_space, wrap_text};

fn strs(v: &[&str]) -> Vec<String> {
    v.iter().map(|s| s.to_string()).collect()
}

#[test]
fn wrap_text_breaks_ascii_greedily() {
    assert_eq!(wrap_text("hello world", 5), strs(&["hello", " worl", "d"]));
}

#[test]
fn wrap_text_of_empty_text_is_one_empty_line() {
    assert_eq!(wrap_text("", 10), strs(&[""]));
}

#[test]
fn wrap_text_keeps_short_text_on_one_line() {
    assert_eq!(wrap_text("abc", 3), strs(&["abc"]));
}

#[test]
fn wrap_text_counts_wide_characters_as_two_columns() {
    assert_eq!(wrap_text("あいう", 4), strs(&["あい", "う"]));
    assert_eq!(wrap_text("aあb", 2), strs(&["a", "あ", "b"]));
}

#[test]
fn wrap_text_gives_a_too_wide_character_its_own_line() {
    assert_eq!(wrap_text("ab", 0), strs(&["a", "b"]));
    assert_eq!(wrap_text("あa", 1), strs(&["あ", "a"]));
}

#[test]
fn wrap_text_joined_lines_give_back_the_text() {
    let text = "Write the weekly report for the team 今日";
    for w in 0..12 {
        let lines = wrap_text(text, w);
        assert_eq!(lines.concat(), text);
        assert!(lines.iter().all(|l| !l.is_empty()));
    }
}

#[test]
fn is_blank_detects_whitespace_only_text() {
    assert!(is_blank(""));
    assert!(is_blank("   "));
    assert!(is_blank(" \t\n\u{3000}"));
    assert!(!is_blank("  a "));
    assert!(!is_blank("x"));
}

#[test]
fn fit_prefix_cuts_at_the_width() {
    assert_eq!(fit_prefix("abcdef", 0, 4), ("abcd".to_string(), true));
    assert_eq!(fit_prefix("abc", 0, 4), ("abc".to_string(), false));
    assert_eq!(fit_prefix("abcdef", 2, 4), ("ab".to_string(), true));
    assert_eq!(fit_prefix("あいう", 0, 5), ("あい".to_string(), true));
    assert_eq!(fit_prefix("abc", 7, 4), ("".to_string(), true));
    assert_eq!(fit_prefix("", 7, 4), ("".to_string(), false));
}

#[test]
fn repeat_space_makes_spaces() {
    assert_eq!(repeat_space(0), "");
    assert_eq!(repeat_space(3), "   ");
}
