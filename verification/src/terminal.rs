//! What the shell asks of the terminal, as values: the library decides what
//! is drawn, its caller draws it.

use crate::color::Color;
use vstd::prelude::*;

verus! {

/// One request to the terminal.
#[derive(Debug, PartialEq, Eq)]
pub enum TerminalOp {
    /// Set the title of the window.
    SetTitle(String),
    /// Paint what follows in this colour.
    SetForegroundColor(Color),
    /// Go back to the terminal's own colours.
    ResetColor,
    /// Write this text at the cursor.
    Print(String),
    /// Move the cursor to this column and row.
    MoveTo(u16, u16),
    /// Move the cursor this many cells to the left.
    MoveLeft(u16),
    /// Clear from the cursor to the end of the screen.
    ClearFromCursorDown,
}

/// A request to the terminal, with its text as a sequence of characters.
pub enum TerminalOpView {
    SetTitle(Seq<char>),
    SetForegroundColor(Color),
    ResetColor,
    Print(Seq<char>),
    MoveTo(u16, u16),
    MoveLeft(u16),
    ClearFromCursorDown,
}

impl View for TerminalOp {
    type V = TerminalOpView;

    open spec fn view(&self) -> TerminalOpView {
        match self {
            TerminalOp::SetTitle(title) => TerminalOpView::SetTitle(title@),
            TerminalOp::SetForegroundColor(color) => TerminalOpView::SetForegroundColor(*color),
            TerminalOp::ResetColor => TerminalOpView::ResetColor,
            TerminalOp::Print(text) => TerminalOpView::Print(text@),
            TerminalOp::MoveTo(column, row) => TerminalOpView::MoveTo(*column, *row),
            TerminalOp::MoveLeft(cells) => TerminalOpView::MoveLeft(*cells),
            TerminalOp::ClearFromCursorDown => TerminalOpView::ClearFromCursorDown,
        }
    }
}

/// The views of a sequence of requests.
pub open spec fn op_views(ops: Seq<TerminalOp>) -> Seq<TerminalOpView> {
    Seq::new(ops.len(), |i: int| ops[i]@)
}

/// The request to write `text`.
pub fn print(text: &str) -> (op: TerminalOp)
    ensures
        op@ == TerminalOpView::Print(text@),
{
    TerminalOp::Print(String::from_str(text))
}

/// The requests that report `message` as an error: the prefix `Error: ` in
/// red, then the message in the terminal's own colours.
pub open spec fn error_report_view(message: Seq<char>) -> Seq<TerminalOpView> {
    seq![
        TerminalOpView::SetForegroundColor(Color::Red),
        TerminalOpView::Print("Error: "@),
        TerminalOpView::ResetColor,
        TerminalOpView::Print(message),
    ]
}

/// Builds the requests that report `message` as an error.
pub fn error_report(message: &str) -> (ops: Vec<TerminalOp>)
    ensures
        op_views(ops@) == error_report_view(message@),
{
    let mut ops: Vec<TerminalOp> = Vec::new();
    ops.push(TerminalOp::SetForegroundColor(Color::Red));
    ops.push(print("Error: "));
    ops.push(TerminalOp::ResetColor);
    ops.push(print(message));
    assert(op_views(ops@) =~= error_report_view(message@));
    ops
}

/// What is shown for the outcome of something that was carried out:
/// nothing where it went well, and the report of the error where it failed.
pub open spec fn report_view(outcome: Result<(), String>) -> Seq<TerminalOpView> {
    match outcome {
        Ok(_) => Seq::empty(),
        Err(message) => error_report_view(message@),
    }
}

/// Builds what is shown for an outcome: see [`report_view`]. A failure is
/// shown and nothing more: the session goes on.
pub fn report(outcome: &Result<(), String>) -> (ops: Vec<TerminalOp>)
    ensures
        op_views(ops@) == report_view(*outcome),
{
    match outcome {
        Ok(_) => {
            let ops: Vec<TerminalOp> = Vec::new();
            assert(op_views(ops@) =~= Seq::<TerminalOpView>::empty());
            ops
        },
        Err(message) => error_report(message.as_str()),
    }
}

} // verus!
