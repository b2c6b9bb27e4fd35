//! The process runner: what the shell does with each thing that happens to
//! the one child process it has spawned.
//!
//! The runner spawns nothing and reads nothing. Its caller spawns what
//! [`crate::command::ParsedCommand::run`] names, reads the child's standard
//! output line by line, and reports each outcome here; the answer says what
//! to write, or that the run is over and how it ended. The child's standard
//! error is left alone and its exit status is not looked at.

use vstd::prelude::*;

verus! {

/// What happened to the child process.
#[derive(Debug, PartialEq, Eq)]
pub enum ChildEvent {
    /// The child could not be spawned; the text says why.
    SpawnFailed(String),
    /// The child wrote this line.
    Line(String),
    /// Reading the child's output failed; the text says why.
    ReadFailed(String),
    /// The child's output has come to its end.
    End,
}

/// `ChildEvent`, with its text as a sequence of characters.
pub enum ChildEventView {
    SpawnFailed(Seq<char>),
    Line(Seq<char>),
    ReadFailed(Seq<char>),
    End,
}

impl View for ChildEvent {
    type V = ChildEventView;

    open spec fn view(&self) -> ChildEventView {
        match self {
            ChildEvent::SpawnFailed(why) => ChildEventView::SpawnFailed(why@),
            ChildEvent::Line(line) => ChildEventView::Line(line@),
            ChildEvent::ReadFailed(why) => ChildEventView::ReadFailed(why@),
            ChildEvent::End => ChildEventView::End,
        }
    }
}

/// Why a run failed.
#[derive(Debug, PartialEq, Eq)]
pub enum RunError {
    /// The command was not found, or could not be started.
    Spawn(String),
    /// The output of the child could not be read.
    ChildIo(String),
}

/// `RunError`, with its text as a sequence of characters.
pub enum RunErrorView {
    Spawn(Seq<char>),
    ChildIo(Seq<char>),
}

impl View for RunError {
    type V = RunErrorView;

    open spec fn view(&self) -> RunErrorView {
        match self {
            RunError::Spawn(why) => RunErrorView::Spawn(why@),
            RunError::ChildIo(why) => RunErrorView::ChildIo(why@),
        }
    }
}

impl RunError {
    /// The text that says why the run failed.
    pub open spec fn spec_message(&self) -> Seq<char> {
        match self {
            RunError::Spawn(why) => why@,
            RunError::ChildIo(why) => why@,
        }
    }

    /// Returns the text that says why the run failed, as it is shown after
    /// the prefix of an error.
    pub fn message(&self) -> (text: &str)
        ensures
            text@ == self.spec_message(),
    {
        match self {
            RunError::Spawn(why) => why.as_str(),
            RunError::ChildIo(why) => why.as_str(),
        }
    }
}

/// What the shell does next.
#[derive(Debug, PartialEq, Eq)]
pub enum RunnerAction {
    /// Write this line to the terminal, then wait for the next event.
    Write(String),
    /// The run is over; the prompt may come back.
    Finish(Result<(), RunError>),
}

/// `RunnerAction`, with its text as a sequence of characters.
pub enum RunnerActionView {
    Write(Seq<char>),
    Finished,
    Failed(RunErrorView),
}

impl View for RunnerAction {
    type V = RunnerActionView;

    open spec fn view(&self) -> RunnerActionView {
        match self {
            RunnerAction::Write(line) => RunnerActionView::Write(line@),
            RunnerAction::Finish(Ok(_)) => RunnerActionView::Finished,
            RunnerAction::Finish(Err(error)) => RunnerActionView::Failed(error@),
        }
    }
}

/// The action that answers an event: a line is written as it comes, the
/// end of the output ends the run well, and a failure ends it with an error
/// that says whether spawning or reading failed.
pub open spec fn answer(event: ChildEventView) -> RunnerActionView {
    match event {
        ChildEventView::SpawnFailed(why) => RunnerActionView::Failed(RunErrorView::Spawn(why)),
        ChildEventView::Line(line) => RunnerActionView::Write(line),
        ChildEventView::ReadFailed(why) => RunnerActionView::Failed(RunErrorView::ChildIo(why)),
        ChildEventView::End => RunnerActionView::Finished,
    }
}

/// The actions that answer a run of events, one for each, in order.
pub open spec fn answers(events: Seq<ChildEventView>) -> Seq<RunnerActionView> {
    Seq::new(events.len(), |i: int| answer(events[i]))
}

/// The event of a line.
pub open spec fn line_event(line: Seq<char>) -> ChildEventView {
    ChildEventView::Line(line)
}

/// The events of a child that writes `lines` and then ends.
pub open spec fn output_of(lines: Seq<Seq<char>>) -> Seq<ChildEventView> {
    Seq::new(lines.len(), |i: int| line_event(lines[i])).push(ChildEventView::End)
}

/// A child that writes `n` lines gets `n` writes, of those lines in the
/// order in which it wrote them, and the run is over only after the last
/// of them, when the output has come to its end.
pub proof fn lemma_lines_are_streamed(lines: Seq<Seq<char>>)
    ensures
        answers(output_of(lines)).len() == lines.len() + 1,
        forall|i: int|
            0 <= i < lines.len() ==> #[trigger] answers(output_of(lines))[i]
                == RunnerActionView::Write(lines[i]),
        answers(output_of(lines))[lines.len() as int] == RunnerActionView::Finished,
{
}

/// Answers one event of the child process: see [`answer`].
pub fn on_child_event(event: ChildEvent) -> (action: RunnerAction)
    ensures
        action@ == answer(event@),
{
    match event {
        ChildEvent::SpawnFailed(why) => RunnerAction::Finish(Err(RunError::Spawn(why))),
        ChildEvent::Line(line) => RunnerAction::Write(line),
        ChildEvent::ReadFailed(why) => RunnerAction::Finish(Err(RunError::ChildIo(why))),
        ChildEvent::End => RunnerAction::Finish(Ok(())),
    }
}

} // verus!
