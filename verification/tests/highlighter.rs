use xcys::color::{Color, ColorScheme};
use xcys::highlight::{classify, highlight, HighlightState};
use xcys::highlight::HighlightState::{Argument, Command, Flag, QuotedString};
use xcys::terminal::TerminalOp;

fn states_of(line: &str) -> Vec<HighlightState> {
    let chars: Vec<char> = line.chars().collect();
    classify(&chars)
}

fn four_colors() -> ColorScheme {
    ColorScheme::new(Color::Red, Color::Blue, Color::Magenta, Color::Cyan)
}

fn painted(c: char, color: Color) -> Vec<TerminalOp> {
    vec![
        TerminalOp::SetForegroundColor(color),
        TerminalOp::Print(c.to_string()),
        TerminalOp::ResetColor,
    ]
}

#[test]
fn command_flag_string_and_argument_are_told_apart() {
    assert_eq!(
        states_of("cmd -f \"str\" end"),
        vec![
            Command, Command, Command, // cmd
            Argument, // the space
            Flag, Flag, // -f
            Argument, // the space
            QuotedString, QuotedString, QuotedString, QuotedString, QuotedString, // "str"
            Argument, // the space
            Argument, Argument, Argument, // end
        ]
    );
}

#[test]
fn a_line_starts_in_command() {
    assert_eq!(states_of(""), vec![]);
    assert_eq!(states_of("ls"), vec![Command, Command]);
}

#[test]
fn a_flag_lasts_until_whitespace() {
    assert_eq!(states_of("-ab c"), vec![Flag, Flag, Flag, Argument, Argument]);
    assert_eq!(states_of("a-b"), vec![Command, Flag, Flag]);
}

#[test]
fn every_ascii_whitespace_starts_an_argument() {
    for blank in [' ', '\t', '\n', '\x0C', '\r'] {
        let line = format!("a{}b", blank);
        assert_eq!(states_of(&line), vec![Command, Argument, Argument], "{:?}", blank);
    }
}

#[test]
fn other_whitespace_changes_nothing() {
    assert_eq!(states_of("a\u{0B}b"), vec![Command, Command, Command]);
    assert_eq!(states_of("a\u{A0}b"), vec![Command, Command, Command]);
}

#[test]
fn dash_and_space_inside_quotes_stay_string() {
    assert_eq!(
        states_of("\"a -b\"c"),
        vec![
            QuotedString, QuotedString, QuotedString, QuotedString, QuotedString, QuotedString,
            Argument,
        ]
    );
}

#[test]
fn an_open_quote_lasts_to_the_end() {
    assert_eq!(states_of("x \"ab"), vec![Command, Argument, QuotedString, QuotedString, QuotedString]);
}

#[test]
fn quotes_pair_up_again_after_a_closed_string() {
    assert_eq!(
        states_of("\"\"\"a\"b"),
        vec![QuotedString, QuotedString, QuotedString, QuotedString, QuotedString, Argument]
    );
}

#[test]
fn single_steps_of_the_classifier() {
    assert_eq!(Command.paint('x'), Command);
    assert_eq!(Command.paint('-'), Flag);
    assert_eq!(Command.paint(' '), Argument);
    assert_eq!(Command.paint('"'), QuotedString);
    assert_eq!(QuotedString.paint('-'), QuotedString);
    assert_eq!(QuotedString.paint(' '), QuotedString);
    assert_eq!(QuotedString.paint('"'), QuotedString);
    assert_eq!(QuotedString.next('"'), Argument);
    assert_eq!(QuotedString.next('x'), QuotedString);
    assert_eq!(Flag.next('"'), QuotedString);
    assert_eq!(Flag.next('x'), Flag);
    assert_eq!(Argument.next('-'), Flag);
    assert_eq!(Flag.next('\t'), Argument);
}

#[test]
fn each_state_has_its_color() {
    let scheme = four_colors();
    assert_eq!(Command.color(scheme), Color::Red);
    assert_eq!(Argument.color(scheme), Color::Blue);
    assert_eq!(QuotedString.color(scheme), Color::Magenta);
    assert_eq!(Flag.color(scheme), Color::Cyan);
}

#[test]
fn highlight_redraws_the_line_from_column_two() {
    let chars: Vec<char> = "a -b".chars().collect();
    let mut expected = vec![TerminalOp::MoveTo(2, 7), TerminalOp::ClearFromCursorDown];
    expected.extend(painted('a', Color::Red));
    expected.extend(painted(' ', Color::Blue));
    expected.extend(painted('-', Color::Cyan));
    expected.extend(painted('b', Color::Cyan));
    assert_eq!(highlight(&chars, four_colors(), 7), expected);
}

#[test]
fn highlight_of_an_empty_line_only_clears() {
    assert_eq!(
        highlight(&[], four_colors(), 0),
        vec![TerminalOp::MoveTo(2, 0), TerminalOp::ClearFromCursorDown]
    );
}

#[test]
fn highlight_paints_quoted_text_in_the_string_color() {
    let chars: Vec<char> = "\"x\"y".chars().collect();
    let mut expected = vec![TerminalOp::MoveTo(2, 65535), TerminalOp::ClearFromCursorDown];
    expected.extend(painted('"', Color::Magenta));
    expected.extend(painted('x', Color::Magenta));
    expected.extend(painted('"', Color::Magenta));
    expected.extend(painted('y', Color::Blue));
    assert_eq!(highlight(&chars, four_colors(), 65535), expected);
}
