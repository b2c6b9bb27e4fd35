//! The highlighter: a four-state classifier that reads a line character by
//! character and says in which colour each is painted.
//!
//! A line starts in `Command`. A double quote opens a quoted string, or
//! closes the one that is open; both quotes are painted as the string is.
//! Outside a quoted string `-` starts a flag and whitespace starts an
//! argument. Any other character is painted in the state that holds.

use crate::color::{Color, ColorScheme};
use crate::terminal::{op_views, TerminalOp, TerminalOpView};
use crate::text::{is_ascii_whitespace, spec_is_ascii_whitespace};
use vstd::prelude::*;

verus! {

/// What the highlighter takes a character to be part of.
#[derive(Clone, Copy, Debug, PartialEq, Eq, Structural)]
pub enum HighlightState {
    Command,
    Argument,
    QuotedString,
    Flag,
}

impl HighlightState {
    /// The state in which `c` is painted when it comes in state `self`.
    pub open spec fn spec_paint(self, c: char) -> HighlightState {
        if c == '"' || self == HighlightState::QuotedString {
            HighlightState::QuotedString
        } else if c == '-' {
            HighlightState::Flag
        } else if spec_is_ascii_whitespace(c) {
            HighlightState::Argument
        } else {
            self
        }
    }

    /// The state that holds after `c` came in state `self`: the one in which
    /// `c` was painted, but for the quote that closes a string, after which
    /// an argument goes on.
    pub open spec fn spec_next(self, c: char) -> HighlightState {
        if c == '"' && self == HighlightState::QuotedString {
            HighlightState::Argument
        } else {
            self.spec_paint(c)
        }
    }

    /// The colour that a scheme gives this state.
    pub open spec fn spec_color(self, scheme: ColorScheme) -> Color {
        match self {
            HighlightState::Command => scheme.spec_command(),
            HighlightState::Argument => scheme.spec_sub_command(),
            HighlightState::QuotedString => scheme.spec_string(),
            HighlightState::Flag => scheme.spec_flags(),
        }
    }

    /// Returns the state in which `c` is painted when it comes in this
    /// state.
    #[verifier::when_used_as_spec(spec_paint)]
    pub fn paint(self, c: char) -> (state: HighlightState)
        ensures
            state == self.spec_paint(c),
    {
        if c == '"' {
            HighlightState::QuotedString
        } else {
            match self {
                HighlightState::QuotedString => HighlightState::QuotedString,
                _ => if c == '-' {
                    HighlightState::Flag
                } else if is_ascii_whitespace(c) {
                    HighlightState::Argument
                } else {
                    self
                },
            }
        }
    }

    /// Returns the state that holds after `c` came in this state.
    #[verifier::when_used_as_spec(spec_next)]
    pub fn next(self, c: char) -> (state: HighlightState)
        ensures
            state == self.spec_next(c),
    {
        match self {
            HighlightState::QuotedString => if c == '"' {
                HighlightState::Argument
            } else {
                HighlightState::QuotedString
            },
            _ => self.paint(c),
        }
    }

    /// Returns the colour that a scheme gives this state.
    #[verifier::when_used_as_spec(spec_color)]
    pub fn color(self, scheme: ColorScheme) -> (color: Color)
        ensures
            color == self.spec_color(scheme),
    {
        match self {
            HighlightState::Command => scheme.command(),
            HighlightState::Argument => scheme.sub_command(),
            HighlightState::QuotedString => scheme.string(),
            HighlightState::Flag => scheme.flags(),
        }
    }
}

/// The state that holds after the whole of `text` has been read, starting
/// from `Command`.
pub open spec fn state_after(text: Seq<char>) -> HighlightState
    decreases text.len(),
{
    if text.len() == 0 {
        HighlightState::Command
    } else {
        state_after(text.drop_last()).spec_next(text.last())
    }
}

/// The state in which the character at place `i` of `text` is painted.
pub open spec fn state_at(text: Seq<char>, i: int) -> HighlightState {
    state_after(text.take(i)).spec_paint(text[i])
}

/// The state of each character of `text`.
pub open spec fn states(text: Seq<char>) -> Seq<HighlightState> {
    Seq::new(text.len(), |i: int| state_at(text, i))
}

/// The three requests that paint one character: its colour, the character,
/// and the return to the terminal's own colours.
pub open spec fn painted_char(c: char, color: Color) -> Seq<TerminalOpView> {
    seq![
        TerminalOpView::SetForegroundColor(color),
        TerminalOpView::Print(seq![c]),
        TerminalOpView::ResetColor,
    ]
}

/// The requests that paint `text`, character by character.
pub open spec fn painted(text: Seq<char>, scheme: ColorScheme) -> Seq<TerminalOpView>
    decreases text.len(),
{
    if text.len() == 0 {
        Seq::empty()
    } else {
        painted(text.drop_last(), scheme) + painted_char(
            text.last(),
            state_at(text, text.len() - 1).spec_color(scheme),
        )
    }
}

/// The requests that draw the line anew: the cursor goes to column 2 of
/// `row`, where the editable region starts, the screen is cleared from there
/// on, and the text is painted.
pub open spec fn highlight_view(text: Seq<char>, scheme: ColorScheme, row: u16) -> Seq<
    TerminalOpView,
> {
    seq![TerminalOpView::MoveTo(2, row), TerminalOpView::ClearFromCursorDown] + painted(
        text,
        scheme,
    )
}

/// How a text is painted does not depend on what follows it: the state of a
/// character of `text` is its state in any text that `text` starts.
pub proof fn lemma_state_at_prefix(text: Seq<char>, n: int, i: int)
    requires
        0 <= i < n <= text.len(),
    ensures
        state_at(text.take(n), i) == state_at(text, i),
{
    assert(text.take(n).take(i) =~= text.take(i));
}

/// Painting takes three requests for each character.
pub proof fn lemma_painted_len(text: Seq<char>, scheme: ColorScheme)
    ensures
        painted(text, scheme).len() == 3 * text.len(),
    decreases text.len(),
{
    if text.len() > 0 {
        lemma_painted_len(text.drop_last(), scheme);
    }
}

/// The request that writes the character at place `i` is the middle one of
/// the three at `3 * i`, and it is painted in the colour of the state of
/// that character.
pub proof fn lemma_painted_at(text: Seq<char>, scheme: ColorScheme, i: int)
    requires
        0 <= i < text.len(),
    ensures
        painted(text, scheme).len() == 3 * text.len(),
        painted(text, scheme)[3 * i] == TerminalOpView::SetForegroundColor(
            state_at(text, i).spec_color(scheme),
        ),
        painted(text, scheme)[3 * i + 1] == TerminalOpView::Print(seq![text[i]]),
        painted(text, scheme)[3 * i + 2] == TerminalOpView::ResetColor,
    decreases text.len(),
{
    let front = text.drop_last();
    lemma_painted_len(text, scheme);
    lemma_painted_len(front, scheme);
    if i < text.len() - 1 {
        lemma_painted_at(front, scheme, i);
        lemma_state_at_prefix(text, text.len() - 1, i);
    }
}

/// Reads `text` from `Command` on and returns the state that holds after
/// it.
pub fn state_of(text: &[char]) -> (state: HighlightState)
    ensures
        state == state_after(text@),
{
    let mut state = HighlightState::Command;
    let mut i: usize = 0;
    assert(text@.take(0) =~= Seq::<char>::empty());
    while i < text.len()
        invariant
            i <= text.len(),
            state == state_after(text@.take(i as int)),
        decreases text.len() - i,
    {
        assert(text@.take(i + 1).drop_last() =~= text@.take(i as int));
        state = state.next(text[i]);
        i += 1;
    }
    assert(text@.take(i as int) =~= text@);
    state
}

/// Classifies each character of `text`.
pub fn classify(text: &[char]) -> (out: Vec<HighlightState>)
    ensures
        out@ == states(text@),
{
    let mut out: Vec<HighlightState> = Vec::new();
    let mut state = HighlightState::Command;
    let mut i: usize = 0;
    assert(text@.take(0) =~= Seq::<char>::empty());
    while i < text.len()
        invariant
            i <= text.len(),
            state == state_after(text@.take(i as int)),
            out@.len() == i,
            forall|k: int| 0 <= k < i ==> out@[k] == state_at(text@, k),
        decreases text.len() - i,
    {
        let c = text[i];
        out.push(state.paint(c));
        proof {
            let grown = text@.take(i + 1);
            assert(grown.drop_last() =~= text@.take(i as int));
            assert(grown.last() == c);
        }
        state = state.next(c);
        i += 1;
    }
    assert(out@ =~= states(text@));
    out
}

/// Builds the requests that draw the line anew on the row where the cursor
/// is: see [`highlight_view`].
pub fn highlight(input: &[char], scheme: ColorScheme, row: u16) -> (ops: Vec<TerminalOp>)
    ensures
        op_views(ops@) == highlight_view(input@, scheme, row),
{
    let mut ops: Vec<TerminalOp> = Vec::new();
    ops.push(TerminalOp::MoveTo(2, row));
    ops.push(TerminalOp::ClearFromCursorDown);
    let mut state = HighlightState::Command;
    let mut i: usize = 0;
    assert(input@.take(0) =~= Seq::<char>::empty());
    assert(op_views(ops@) =~= highlight_view(input@.take(0), scheme, row));
    while i < input.len()
        invariant
            i <= input.len(),
            state == state_after(input@.take(i as int)),
            op_views(ops@) == highlight_view(input@.take(i as int), scheme, row),
        decreases input.len() - i,
    {
        let c = input[i];
        let color = state.paint(c).color(scheme);
        let mut text = String::new();
        text.push(c);
        assert(text@ =~= seq![c]);
        let ghost before = ops@;
        let ghost grown = input@.take(i + 1);
        ops.push(TerminalOp::SetForegroundColor(color));
        ops.push(TerminalOp::Print(text));
        ops.push(TerminalOp::ResetColor);
        proof {
            assert(grown.drop_last() =~= input@.take(i as int));
            assert(grown.last() == c);
            assert(grown.take(i as int) =~= input@.take(i as int));
            assert(state_at(grown, i as int) == state.spec_paint(c));
            assert(op_views(ops@) =~= op_views(before) + painted_char(c, color));
            assert(op_views(ops@) =~= highlight_view(grown, scheme, row));
        }
        state = state.next(c);
        i += 1;
    }
    assert(input@.take(i as int) =~= input@);
    ops
}

} // verus!
