use xcys::color::{Color, ColorScheme};
use xcys::editor::{
    Cursor, Event, KeyCode, KeyEvent, KeyEventKind, KeyModifiers, LineEditor, Reaction, Step,
};
use xcys::highlight::{highlight, HighlightState};
use xcys::terminal::TerminalOp;

const NONE: KeyModifiers = KeyModifiers {
    shift: false,
    control: false,
    alt: false,
    super_key: false,
    hyper: false,
    meta: false,
};

const CONTROL: KeyModifiers = KeyModifiers {
    shift: false,
    control: true,
    alt: false,
    super_key: false,
    hyper: false,
    meta: false,
};

fn scheme() -> ColorScheme {
    ColorScheme::new(Color::Red, Color::Blue, Color::Magenta, Color::Cyan)
}

fn release(code: KeyCode) -> Event {
    Event::Key(KeyEvent { code, modifiers: NONE, kind: KeyEventKind::Release })
}

fn at(column: u16, row: u16) -> Cursor {
    Cursor { column, row }
}

fn editor_with(text: &str, anchor_row: u16, width: u16) -> LineEditor {
    let mut editor = LineEditor::new(anchor_row, width, scheme());
    for c in text.chars() {
        editor.handle(release(KeyCode::Char(c)), at(2, anchor_row));
    }
    editor
}

fn nothing() -> Reaction {
    Reaction { ops: vec![], step: Step::Continue }
}

#[test]
fn a_new_editor_is_empty() {
    assert_eq!(LineEditor::new(3, 80, scheme()).text(), "");
}

#[test]
fn typing_appends_and_redraws_the_line() {
    let mut editor = LineEditor::new(3, 80, scheme());
    let first = editor.handle(release(KeyCode::Char('l')), at(2, 3));
    assert_eq!(first.step, Step::Continue);
    assert_eq!(first.ops, highlight(&['l'], scheme(), 3));
    let second = editor.handle(release(KeyCode::Char('s')), at(3, 3));
    assert_eq!(second.ops, highlight(&['l', 's'], scheme(), 3));
    assert_eq!(editor.text(), "ls");
}

#[test]
fn redraw_goes_to_the_row_of_the_cursor() {
    let mut editor = editor_with("ab", 3, 80);
    let reaction = editor.handle(release(KeyCode::Char('c')), at(0, 9));
    assert_eq!(reaction.ops[0], TerminalOp::MoveTo(2, 9));
    assert_eq!(reaction.ops[1], TerminalOp::ClearFromCursorDown);
    assert_eq!(reaction.ops.len(), 2 + 3 * 3);
}

#[test]
fn characters_are_kept_in_the_case_typed() {
    let editor = editor_with("Ls -A", 0, 80);
    assert_eq!(editor.text(), "Ls -A");
}

#[test]
fn press_and_repeat_are_passed_over() {
    for kind in [KeyEventKind::Press, KeyEventKind::Repeat] {
        for code in [KeyCode::Char('x'), KeyCode::Enter, KeyCode::Backspace, KeyCode::Insert] {
            let mut editor = editor_with("ab", 3, 80);
            let event = Event::Key(KeyEvent { code, modifiers: NONE, kind });
            assert_eq!(editor.handle(event, at(4, 3)), nothing());
            assert_eq!(editor.text(), "ab");
        }
    }
}

#[test]
fn control_c_is_not_read_on_press() {
    let mut editor = editor_with("ab", 3, 80);
    let event = Event::Key(KeyEvent {
        code: KeyCode::Char('c'),
        modifiers: CONTROL,
        kind: KeyEventKind::Press,
    });
    assert_eq!(editor.handle(event, at(4, 3)), nothing());
}

#[test]
fn events_that_are_no_keys_are_passed_over() {
    for event in [
        Event::FocusGained,
        Event::FocusLost,
        Event::Mouse,
        Event::Paste,
        Event::Resize(10, 20),
    ] {
        let mut editor = editor_with("ab", 3, 80);
        assert_eq!(editor.handle(event, at(4, 3)), nothing());
        assert_eq!(editor.text(), "ab");
    }
}

#[test]
fn keys_without_a_meaning_are_passed_over() {
    for code in [
        KeyCode::Left,
        KeyCode::Right,
        KeyCode::Up,
        KeyCode::Down,
        KeyCode::Home,
        KeyCode::End,
        KeyCode::PageUp,
        KeyCode::PageDown,
        KeyCode::Tab,
        KeyCode::BackTab,
        KeyCode::Delete,
        KeyCode::Insert,
        KeyCode::F(5),
        KeyCode::Null,
        KeyCode::Esc,
        KeyCode::CapsLock,
        KeyCode::ScrollLock,
        KeyCode::NumLock,
        KeyCode::PrintScreen,
        KeyCode::Pause,
        KeyCode::Menu,
        KeyCode::KeypadBegin,
        KeyCode::Media,
        KeyCode::Modifier,
    ] {
        let mut editor = editor_with("ab", 3, 80);
        assert_eq!(editor.handle(release(code), at(4, 3)), nothing());
        assert_eq!(editor.text(), "ab");
    }
}

#[test]
fn enter_submits_the_text_and_empties_the_editor() {
    let mut editor = editor_with("git status", 3, 80);
    let reaction = editor.handle(release(KeyCode::Enter), at(12, 3));
    assert_eq!(reaction.step, Step::Submit("git status".to_string()));
    assert_eq!(reaction.ops, vec![TerminalOp::Print("\n".to_string())]);
    assert_eq!(editor.text(), "");
}

#[test]
fn enter_on_an_empty_line_submits_an_empty_text() {
    let mut editor = LineEditor::new(3, 80, scheme());
    let reaction = editor.handle(release(KeyCode::Enter), at(2, 3));
    assert_eq!(reaction.step, Step::Submit(String::new()));
}

#[test]
fn control_c_interrupts_in_either_case() {
    for c in ['c', 'C'] {
        let mut editor = editor_with("ab", 3, 80);
        let event = Event::Key(KeyEvent {
            code: KeyCode::Char(c),
            modifiers: CONTROL,
            kind: KeyEventKind::Release,
        });
        assert_eq!(editor.handle(event, at(4, 3)), Reaction { ops: vec![], step: Step::Interrupt });
        assert_eq!(editor.text(), "ab");
    }
}

#[test]
fn control_with_another_modifier_types_the_character() {
    let mut editor = editor_with("ab", 3, 80);
    let event = Event::Key(KeyEvent {
        code: KeyCode::Char('c'),
        modifiers: KeyModifiers { shift: true, ..CONTROL },
        kind: KeyEventKind::Release,
    });
    assert_eq!(editor.handle(event, at(4, 3)).step, Step::Continue);
    assert_eq!(editor.text(), "abc");
}

#[test]
fn control_with_another_letter_types_the_letter() {
    let mut editor = editor_with("ab", 3, 80);
    let event = Event::Key(KeyEvent {
        code: KeyCode::Char('d'),
        modifiers: CONTROL,
        kind: KeyEventKind::Release,
    });
    assert_eq!(editor.handle(event, at(4, 3)).step, Step::Continue);
    assert_eq!(editor.text(), "abd");
}

#[test]
fn backspace_steps_left_and_clears() {
    let mut editor = editor_with("abc", 3, 80);
    let reaction = editor.handle(release(KeyCode::Backspace), at(5, 3));
    assert_eq!(
        reaction,
        Reaction {
            ops: vec![TerminalOp::MoveLeft(1), TerminalOp::ClearFromCursorDown],
            step: Step::Continue,
        }
    );
    assert_eq!(editor.text(), "ab");
}

#[test]
fn backspace_on_an_empty_line_does_nothing() {
    let mut editor = LineEditor::new(3, 80, scheme());
    for cursor in [at(2, 3), at(0, 4), at(5, 3)] {
        assert_eq!(editor.handle(release(KeyCode::Backspace), cursor), nothing());
        assert_eq!(editor.text(), "");
    }
}

#[test]
fn backspace_at_the_start_of_a_wrapped_row_goes_up() {
    let mut editor = editor_with("abc", 3, 80);
    let reaction = editor.handle(release(KeyCode::Backspace), at(0, 4));
    assert_eq!(reaction, Reaction { ops: vec![TerminalOp::MoveTo(80, 3)], step: Step::Continue });
    assert_eq!(editor.text(), "ab");
}

#[test]
fn backspace_at_the_start_of_the_top_row_does_not_move() {
    let mut editor = editor_with("abc", 3, 80);
    let reaction = editor.handle(release(KeyCode::Backspace), at(0, 0));
    assert_eq!(reaction, nothing());
    assert_eq!(editor.text(), "ab");
}

#[test]
fn backspace_where_the_text_begins_draws_nothing() {
    let mut editor = editor_with("abc", 3, 80);
    let reaction = editor.handle(release(KeyCode::Backspace), at(2, 3));
    assert_eq!(reaction, nothing());
    assert_eq!(editor.text(), "ab");
}

#[test]
fn backspace_at_column_zero_of_the_anchor_row_steps_left() {
    let mut editor = editor_with("abc", 3, 80);
    let reaction = editor.handle(release(KeyCode::Backspace), at(0, 3));
    assert_eq!(reaction.ops, vec![TerminalOp::MoveLeft(1), TerminalOp::ClearFromCursorDown]);
}

#[test]
fn backspace_at_column_two_of_another_row_steps_left() {
    let mut editor = editor_with("abc", 3, 80);
    let reaction = editor.handle(release(KeyCode::Backspace), at(2, 4));
    assert_eq!(reaction.ops, vec![TerminalOp::MoveLeft(1), TerminalOp::ClearFromCursorDown]);
}

#[test]
fn backspace_undoes_the_last_character() {
    let mut editor = editor_with("ab", 3, 80);
    editor.handle(release(KeyCode::Char('c')), at(4, 3));
    editor.handle(release(KeyCode::Backspace), at(5, 3));
    assert_eq!(editor.text(), "ab");
}

#[test]
fn cursor_is_read_for_typing_and_erasing_only() {
    let editor = editor_with("ab", 3, 80);
    assert!(editor.reads_cursor(release(KeyCode::Char('x'))));
    assert!(editor.reads_cursor(release(KeyCode::Backspace)));
    assert!(!editor.reads_cursor(release(KeyCode::Enter)));
    assert!(!editor.reads_cursor(release(KeyCode::Insert)));
    assert!(!editor.reads_cursor(Event::Resize(1, 1)));
    assert!(!editor.reads_cursor(Event::Key(KeyEvent {
        code: KeyCode::Char('x'),
        modifiers: NONE,
        kind: KeyEventKind::Press,
    })));
    assert!(!editor.reads_cursor(Event::Key(KeyEvent {
        code: KeyCode::Char('C'),
        modifiers: CONTROL,
        kind: KeyEventKind::Release,
    })));
    let empty = LineEditor::new(3, 80, scheme());
    assert!(!empty.reads_cursor(release(KeyCode::Backspace)));
}

#[test]
fn only_control_alone_counts_as_control() {
    assert!(CONTROL.is_control());
    assert!(!NONE.is_control());
    assert!(!KeyModifiers { alt: true, ..CONTROL }.is_control());
    assert!(!KeyModifiers { meta: true, ..CONTROL }.is_control());
    assert!(!KeyModifiers { hyper: true, ..CONTROL }.is_control());
    assert!(!KeyModifiers { super_key: true, ..CONTROL }.is_control());
}

#[test]
fn a_typed_line_is_parsed_as_typed() {
    let mut editor = editor_with("git -C . status", 3, 80);
    let reaction = editor.handle(release(KeyCode::Enter), at(17, 3));
    let text = match reaction.step {
        Step::Submit(text) => text,
        other => panic!("{:?}", other),
    };
    match xcys::command::parse_command(&text).unwrap() {
        xcys::command::CommandType::Executable(command) => {
            assert_eq!(command.command, "git");
            assert_eq!(command.flags, vec!["-C", ".", "status"]);
        }
        other => panic!("{:?}", other),
    }
}

#[test]
fn editor_knows_the_state_of_the_highlighter() {
    assert_eq!(LineEditor::new(0, 80, scheme()).highlight_state(), HighlightState::Command);
    assert_eq!(editor_with("ls -", 0, 80).highlight_state(), HighlightState::Flag);
    assert_eq!(editor_with("ls \"", 0, 80).highlight_state(), HighlightState::QuotedString);
}
