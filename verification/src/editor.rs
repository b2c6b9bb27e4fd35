//! The line editor: the text typed so far on one line, and what each event
//! of the terminal does to it.
//!
//! An editor is made when the prompt has been drawn and lives until the line
//! is submitted. Only the release of a key acts; presses and repeats are
//! passed over, so that one keystroke acts once. The editor never reads the
//! terminal: whoever feeds it an event tells it where the cursor is.

use crate::color::ColorScheme;
use crate::highlight::{highlight, highlight_view, state_after, state_of, HighlightState};
use crate::terminal::{op_views, print, TerminalOp, TerminalOpView};
use crate::text::{lower, spec_lower, string_of};
use vstd::prelude::*;

verus! {

/// Which way a key moved.
#[derive(Clone, Copy, Debug, PartialEq, Eq, Structural)]
pub enum KeyEventKind {
    Press,
    Repeat,
    Release,
}

/// A key of the keyboard.
#[derive(Clone, Copy, Debug, PartialEq, Eq, Structural)]
pub enum KeyCode {
    Backspace,
    Enter,
    Left,
    Right,
    Up,
    Down,
    Home,
    End,
    PageUp,
    PageDown,
    Tab,
    BackTab,
    Delete,
    Insert,
    F(u8),
    Char(char),
    Null,
    Esc,
    CapsLock,
    ScrollLock,
    NumLock,
    PrintScreen,
    Pause,
    Menu,
    KeypadBegin,
    Media,
    Modifier,
}

/// The modifier keys that were held with a key.
#[derive(Clone, Copy, Debug, PartialEq, Eq, Structural)]
pub struct KeyModifiers {
    pub shift: bool,
    pub control: bool,
    pub alt: bool,
    pub super_key: bool,
    pub hyper: bool,
    pub meta: bool,
}

impl KeyModifiers {
    /// Control was held, and no other modifier.
    pub open spec fn spec_is_control(self) -> bool {
        self.control && !self.shift && !self.alt && !self.super_key && !self.hyper && !self.meta
    }

    /// Tells whether control was held, and no other modifier.
    #[verifier::when_used_as_spec(spec_is_control)]
    pub fn is_control(self) -> (b: bool)
        ensures
            b == self.spec_is_control(),
    {
        self.control && !self.shift && !self.alt && !self.super_key && !self.hyper && !self.meta
    }
}

/// A key, the modifiers held with it, and which way it moved.
#[derive(Clone, Copy, Debug, PartialEq, Eq, Structural)]
pub struct KeyEvent {
    pub code: KeyCode,
    pub modifiers: KeyModifiers,
    pub kind: KeyEventKind,
}

/// An event of the terminal. Only keys mean anything to the editor.
#[derive(Clone, Copy, Debug, PartialEq, Eq, Structural)]
pub enum Event {
    FocusGained,
    FocusLost,
    Key(KeyEvent),
    Mouse,
    Paste,
    Resize(u16, u16),
}

/// A cell of the terminal.
#[derive(Clone, Copy, Debug, PartialEq, Eq, Structural)]
pub struct Cursor {
    pub column: u16,
    pub row: u16,
}

/// What an editor is: the text typed so far, the row on which the prompt
/// ended and the text began, the width of the terminal, and the colours.
pub struct LineEditorView {
    pub buffer: Seq<char>,
    pub anchor_row: u16,
    pub width: u16,
    pub scheme: ColorScheme,
}

/// What follows an event.
#[derive(Debug, PartialEq, Eq)]
pub enum Step {
    /// The line goes on.
    Continue,
    /// The line is done: this is its text, for the parser.
    Submit(String),
    /// Control and `c`: the whole process is to end, at once.
    Interrupt,
}

/// `Step`, with the text as a sequence of characters.
pub enum StepView {
    Continue,
    Submit(Seq<char>),
    Interrupt,
}

impl View for Step {
    type V = StepView;

    open spec fn view(&self) -> StepView {
        match self {
            Step::Continue => StepView::Continue,
            Step::Submit(text) => StepView::Submit(text@),
            Step::Interrupt => StepView::Interrupt,
        }
    }
}

/// The answer of the editor to one event: what to draw, and what follows.
#[derive(Debug, PartialEq, Eq)]
pub struct Reaction {
    pub ops: Vec<TerminalOp>,
    pub step: Step,
}

/// `Reaction`, over sequences.
pub struct ReactionView {
    pub ops: Seq<TerminalOpView>,
    pub step: StepView,
}

impl View for Reaction {
    type V = ReactionView;

    open spec fn view(&self) -> ReactionView {
        ReactionView { ops: op_views(self.ops@), step: self.step@ }
    }
}

/// The release of the key `c` with control alone, `c` being the letter C in
/// either case.
pub open spec fn is_interrupt(key: KeyEvent) -> bool {
    &&& key.kind == KeyEventKind::Release
    &&& key.code matches KeyCode::Char(c)
    &&& key.modifiers.spec_is_control()
    &&& spec_lower(c) == 'c'
}

/// What is drawn when the last character has been erased and the cursor
/// was at `cursor`.
///
/// - At column 0 of a row that is not the anchor row the line had wrapped:
///   the cursor goes to the end of the row above, if there is a row above.
/// - At column 2 of the anchor row the cursor stands where the text begins.
///   Nothing is drawn: the prompt is not to be erased.
/// - Anywhere else the cursor steps one cell to the left, and the screen is
///   cleared from there on.
pub open spec fn erase_view(editor: LineEditorView, cursor: Cursor) -> Seq<TerminalOpView> {
    if cursor.column == 0 && cursor.row != editor.anchor_row {
        if cursor.row > 0 {
            seq![TerminalOpView::MoveTo(editor.width, (cursor.row - 1) as u16)]
        } else {
            Seq::empty()
        }
    } else if cursor.column == 2 && cursor.row == editor.anchor_row {
        Seq::empty()
    } else {
        seq![TerminalOpView::MoveLeft(1), TerminalOpView::ClearFromCursorDown]
    }
}

impl LineEditorView {
    /// This editor with another text.
    pub open spec fn with_buffer(self, buffer: Seq<char>) -> LineEditorView {
        LineEditorView { buffer, ..self }
    }

    /// The editor after an event.
    ///
    /// - Backspace takes the last character off the text, if there is one.
    /// - Enter ends the line: the text is handed over and the editor is
    ///   left empty.
    /// - A character is appended to the text as it was typed, unless it
    ///   is the interrupt.
    /// - Nothing else changes the editor, and neither does a key that is
    ///   pressed or repeated rather than released.
    pub open spec fn after(self, event: Event) -> LineEditorView {
        match event {
            Event::Key(key) if key.kind == KeyEventKind::Release => match key.code {
                KeyCode::Backspace if self.buffer.len() > 0 => self.with_buffer(
                    self.buffer.drop_last(),
                ),
                KeyCode::Enter => self.with_buffer(Seq::empty()),
                KeyCode::Char(c) if !is_interrupt(key) => self.with_buffer(self.buffer.push(c)),
                _ => self,
            },
            _ => self,
        }
    }

    /// What is drawn for an event that comes while the cursor is at
    /// `cursor`.
    ///
    /// - Backspace on a text that is not empty: see [`erase_view`].
    /// - Enter: a line break.
    /// - A character that is not the interrupt: the whole line anew, on
    ///   the row of the cursor, with the character in it.
    /// - Anything else: nothing.
    pub open spec fn drawn(self, event: Event, cursor: Cursor) -> Seq<TerminalOpView> {
        match event {
            Event::Key(key) if key.kind == KeyEventKind::Release => match key.code {
                KeyCode::Backspace if self.buffer.len() > 0 => erase_view(self, cursor),
                KeyCode::Enter => seq![TerminalOpView::Print(seq!['\n'])],
                KeyCode::Char(c) if !is_interrupt(key) => highlight_view(
                    self.buffer.push(c),
                    self.scheme,
                    cursor.row,
                ),
                _ => Seq::empty(),
            },
            _ => Seq::empty(),
        }
    }

    /// What follows an event: the release of Enter submits the text, the
    /// interrupt ends the process, and after anything else the line goes on.
    pub open spec fn step(self, event: Event) -> StepView {
        match event {
            Event::Key(key) if key.kind == KeyEventKind::Release => match key.code {
                KeyCode::Enter => StepView::Submit(self.buffer),
                KeyCode::Char(_) if is_interrupt(key) => StepView::Interrupt,
                _ => StepView::Continue,
            },
            _ => StepView::Continue,
        }
    }

    /// Whether what is drawn for an event depends on where the cursor is.
    pub open spec fn reads_cursor(self, event: Event) -> bool {
        match event {
            Event::Key(key) if key.kind == KeyEventKind::Release => match key.code {
                KeyCode::Backspace => self.buffer.len() > 0,
                KeyCode::Char(_) => !is_interrupt(key),
                _ => false,
            },
            _ => false,
        }
    }

    /// The editor after a run of events, each taken in turn; a submitted
    /// line leaves the editor empty and the run goes on from there.
    pub open spec fn after_all(self, events: Seq<Event>) -> LineEditorView
        decreases events.len(),
    {
        if events.len() == 0 {
            self
        } else {
            self.after_all(events.drop_last()).after(events.last())
        }
    }
}

/// The release of the key that types `c`, with no modifier held.
pub open spec fn typed(c: char) -> Event {
    Event::Key(
        KeyEvent {
            code: KeyCode::Char(c),
            modifiers: KeyModifiers {
                shift: false,
                control: false,
                alt: false,
                super_key: false,
                hyper: false,
                meta: false,
            },
            kind: KeyEventKind::Release,
        },
    )
}

/// The releases of the keys that type `text`.
pub open spec fn typing(text: Seq<char>) -> Seq<Event> {
    Seq::new(text.len(), |i: int| typed(text[i]))
}

/// An event that is not the release of a key changes nothing, draws nothing
/// and lets the line go on: a key acts once, when it is released.
pub proof fn lemma_only_releases_act(editor: LineEditorView, event: Event, cursor: Cursor)
    requires
        !(event matches Event::Key(key) && key.kind == KeyEventKind::Release),
    ensures
        editor.after(event) == editor,
        editor.drawn(event, cursor) == Seq::<TerminalOpView>::empty(),
        editor.step(event) == StepView::Continue,
{
}

/// Where an event does not read the cursor, what is drawn is the same
/// wherever the cursor is.
pub proof fn lemma_cursor_unread(editor: LineEditorView, event: Event, a: Cursor, b: Cursor)
    requires
        !editor.reads_cursor(event),
    ensures
        editor.drawn(event, a) == editor.drawn(event, b),
{
}

/// Typing a text appends it to the line, character by character as typed.
pub proof fn lemma_typing_appends(editor: LineEditorView, text: Seq<char>)
    ensures
        editor.after_all(typing(text)) == editor.with_buffer(editor.buffer + text),
    decreases text.len(),
{
    if text.len() == 0 {
        assert(editor.buffer + text =~= editor.buffer);
    } else {
        let front = text.drop_last();
        let events = typing(text);
        lemma_typing_appends(editor, front);
        assert(events.len() == text.len());
        assert(events.drop_last() =~= typing(front));
        assert(events.last() == typed(text.last()));
        assert(editor.buffer + text =~= (editor.buffer + front).push(text.last()));
    }
}

/// A line that is typed into an empty editor and ended with Enter is
/// submitted as it was typed.
pub proof fn lemma_typed_line_is_submitted(
    editor: LineEditorView,
    text: Seq<char>,
    modifiers: KeyModifiers,
)
    requires
        editor.buffer.len() == 0,
    ensures
        editor.after_all(typing(text)).step(
            Event::Key(KeyEvent { code: KeyCode::Enter, modifiers, kind: KeyEventKind::Release }),
        ) == StepView::Submit(text),
{
    lemma_typing_appends(editor, text);
    assert(editor.buffer + text =~= text);
}

/// Backspace undoes the character typed last.
pub proof fn lemma_backspace_undoes(editor: LineEditorView, key: KeyEvent, modifiers: KeyModifiers)
    requires
        key.kind == KeyEventKind::Release,
        key.code is Char,
        !is_interrupt(key),
    ensures
        editor.after(Event::Key(key)).after(
            Event::Key(
                KeyEvent { code: KeyCode::Backspace, modifiers, kind: KeyEventKind::Release },
            ),
        ) == editor,
{
    let c = key.code->Char_0;
    assert(editor.buffer.push(c).drop_last() =~= editor.buffer);
}

/// The editor of one line.
pub struct LineEditor {
    buffer: Vec<char>,
    anchor_row: u16,
    width: u16,
    scheme: ColorScheme,
}

impl View for LineEditor {
    type V = LineEditorView;

    closed spec fn view(&self) -> LineEditorView {
        LineEditorView {
            buffer: self.buffer@,
            anchor_row: self.anchor_row,
            width: self.width,
            scheme: self.scheme,
        }
    }
}

impl LineEditor {
    /// Makes the editor of a new line, empty. `anchor_row` is the row on
    /// which the prompt ended, `width` the number of columns of the
    /// terminal.
    pub fn new(anchor_row: u16, width: u16, scheme: ColorScheme) -> (editor: Self)
        ensures
            editor@ == (LineEditorView { buffer: Seq::empty(), anchor_row, width, scheme }),
    {
        Self { buffer: Vec::new(), anchor_row, width, scheme }
    }

    /// Returns the text typed so far.
    pub fn text(&self) -> (text: String)
        ensures
            text@ == self@.buffer,
    {
        string_of(&self.buffer)
    }

    /// Returns the state of the highlighter after the text typed so far:
    /// the state in which the next character comes.
    pub fn highlight_state(&self) -> (state: HighlightState)
        ensures
            state == state_after(self@.buffer),
    {
        state_of(self.buffer.as_slice())
    }

    /// Tells whether the answer to `event` depends on where the cursor is.
    /// Where it does not, any cursor may be handed to [`Self::handle`].
    pub fn reads_cursor(&self, event: Event) -> (b: bool)
        ensures
            b == self@.reads_cursor(event),
    {
        match event {
            Event::Key(key) => match key.kind {
                KeyEventKind::Release => match key.code {
                    KeyCode::Backspace => self.buffer.len() > 0,
                    KeyCode::Char(c) => !(key.modifiers.is_control() && lower(c) == 'c'),
                    _ => false,
                },
                _ => false,
            },
            _ => false,
        }
    }

    /// Takes one event of the terminal, `cursor` being where the cursor is
    /// when the event comes. Changes the text as [`LineEditorView::after`]
    /// says and answers with what [`LineEditorView::drawn`] and
    /// [`LineEditorView::step`] say.
    pub fn handle(&mut self, event: Event, cursor: Cursor) -> (reaction: Reaction)
        ensures
            final(self)@ == old(self)@.after(event),
            reaction@.ops == old(self)@.drawn(event, cursor),
            reaction@.step == old(self)@.step(event),
    {
        let mut ops: Vec<TerminalOp> = Vec::new();
        let mut step = Step::Continue;
        assert(op_views(ops@) =~= Seq::<TerminalOpView>::empty());
        match event {
            Event::Key(key) => match key.kind {
                KeyEventKind::Release => match key.code {
                    KeyCode::Backspace => {
                        if self.buffer.len() > 0 {
                            self.buffer.pop();
                            if cursor.column == 0 && cursor.row != self.anchor_row {
                                if cursor.row > 0 {
                                    ops.push(TerminalOp::MoveTo(self.width, cursor.row - 1));
                                }
                            } else if cursor.column == 2 && cursor.row == self.anchor_row {
                                // The cursor stands where the text begins:
                                // the prompt to its left is left alone.
                            } else {
                                ops.push(TerminalOp::MoveLeft(1));
                                ops.push(TerminalOp::ClearFromCursorDown);
                            }
                            assert(op_views(ops@) =~= erase_view(old(self)@, cursor));
                        }
                    },
                    KeyCode::Enter => {
                        let text = string_of(&self.buffer);
                        self.buffer.clear();
                        proof {
                            reveal_strlit("\n");
                            assert("\n"@ =~= seq!['\n']);
                        }
                        ops.push(print("\n"));
                        assert(op_views(ops@) =~= seq![TerminalOpView::Print(seq!['\n'])]);
                        step = Step::Submit(text);
                    },
                    KeyCode::Char(c) => {
                        if key.modifiers.is_control() && lower(c) == 'c' {
                            step = Step::Interrupt;
                        } else {
                            self.buffer.push(c);
                            ops = highlight(self.buffer.as_slice(), self.scheme, cursor.row);
                        }
                    },
                    _ => {},
                },
                _ => {},
            },
            _ => {},
        }
        Reaction { ops, step }
    }
}

} // verus!
