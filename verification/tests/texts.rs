use xcys::highlight::state_of;
use xcys::highlight::HighlightState;
use xcys::text::{chars_of, is_ascii_whitespace, lower, lowercase, string_of, text_is};

#[test]
fn ascii_whitespace_is_five_characters() {
    for c in [' ', '\t', '\n', '\x0C', '\r'] {
        assert!(is_ascii_whitespace(c), "{:?}", c);
    }
    for c in ['\x0B', '\u{A0}', '\u{2003}', 'a', '-', '"', '\0'] {
        assert!(!is_ascii_whitespace(c), "{:?}", c);
    }
}

#[test]
fn whitespace_agrees_with_std_on_every_ascii_character() {
    for b in 0u8..128 {
        let c = b as char;
        assert_eq!(is_ascii_whitespace(c), c.is_ascii_whitespace(), "{:?}", c);
    }
}

#[test]
fn lower_turns_ascii_capitals_only() {
    assert_eq!(lower('A'), 'a');
    assert_eq!(lower('Z'), 'z');
    assert_eq!(lower('M'), 'm');
    assert_eq!(lower('a'), 'a');
    assert_eq!(lower('@'), '@');
    assert_eq!(lower('['), '[');
    assert_eq!(lower('É'), 'É');
    assert_eq!(lower('1'), '1');
}

#[test]
fn lower_agrees_with_std_on_every_ascii_character() {
    for b in 0u8..128 {
        let c = b as char;
        assert_eq!(lower(c), c.to_ascii_lowercase(), "{:?}", c);
    }
}

#[test]
fn lowercase_of_a_text() {
    let text: Vec<char> = "RmDir ÄB".chars().collect();
    let expected: Vec<char> = "rmdir Äb".chars().collect();
    assert_eq!(lowercase(&text), expected);
    assert_eq!(lowercase(&vec![]), vec![]);
}

#[test]
fn characters_and_strings_convert_both_ways() {
    assert_eq!(chars_of("a→b"), vec!['a', '→', 'b']);
    assert_eq!(chars_of(""), vec![]);
    assert_eq!(string_of(&vec!['a', '→', 'b']), "a→b");
    assert_eq!(string_of(&vec![]), "");
    assert_eq!(string_of(&chars_of("git status")), "git status");
}

#[test]
fn a_string_reads_as_a_literal_or_not() {
    assert!(text_is(&"cd".to_string(), "cd"));
    assert!(!text_is(&"cd".to_string(), "cp"));
    assert!(!text_is(&"cd".to_string(), "cdd"));
    assert!(!text_is(&"CD".to_string(), "cd"));
    assert!(text_is(&String::new(), ""));
}

#[test]
fn state_after_a_text() {
    let after = |s: &str| {
        let chars: Vec<char> = s.chars().collect();
        state_of(&chars)
    };
    assert_eq!(after(""), HighlightState::Command);
    assert_eq!(after("ls"), HighlightState::Command);
    assert_eq!(after("ls "), HighlightState::Argument);
    assert_eq!(after("ls -l"), HighlightState::Flag);
    assert_eq!(after("ls \"a"), HighlightState::QuotedString);
    assert_eq!(after("ls \"a\""), HighlightState::Argument);
}
