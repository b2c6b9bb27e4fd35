//! Errors of the command parser.

use vstd::prelude::*;

verus! {

/// The reason a line could not be turned into a command.
#[derive(Clone, Copy, Debug, PartialEq, Eq, Structural)]
pub enum ErrorKind {
    /// The line held no token at all.
    Null,
}

impl ErrorKind {
    /// The sentence shown to the user for this kind.
    pub open spec fn description_text(self) -> Seq<char> {
        match self {
            ErrorKind::Null => "No command has been entered."@,
        }
    }

    /// Returns the sentence shown to the user for this kind.
    pub fn description(&self) -> (text: &'static str)
        ensures
            text@ == self.description_text(),
    {
        match self {
            ErrorKind::Null => "No command has been entered.",
        }
    }
}

#[derive(Debug)]
enum Repr {
    Simple(ErrorKind),
    Custom(ErrorKind, String),
}

/// A parse failure: its kind, and optionally the text of an underlying cause.
#[derive(Debug)]
pub struct CommandParseError {
    repr: Repr,
}

impl CommandParseError {
    /// The kind of this error.
    pub closed spec fn spec_kind(&self) -> ErrorKind {
        match self.repr {
            Repr::Simple(kind) => kind,
            Repr::Custom(kind, _) => kind,
        }
    }

    /// The text of the underlying cause, where the error was built with one.
    pub closed spec fn cause(&self) -> Option<Seq<char>> {
        match self.repr {
            Repr::Simple(_) => None,
            Repr::Custom(_, error) => Some(error@),
        }
    }

    /// Builds an error of the given kind that carries the text of its cause.
    pub fn new(kind: ErrorKind, error: String) -> (e: Self)
        ensures
            e.spec_kind() == kind,
            e.cause() == Some(error@),
    {
        CommandParseError { repr: Repr::Custom(kind, error) }
    }

    /// Builds an error of the given kind with no underlying cause.
    pub fn simple(kind: ErrorKind) -> (e: Self)
        ensures
            e.spec_kind() == kind,
            e.cause() is None,
    {
        CommandParseError { repr: Repr::Simple(kind) }
    }

    /// Returns the kind of this error.
    #[verifier::when_used_as_spec(spec_kind)]
    pub fn kind(&self) -> (kind: ErrorKind)
        ensures
            kind == self.spec_kind(),
    {
        match &self.repr {
            Repr::Simple(kind) => *kind,
            Repr::Custom(kind, _) => *kind,
        }
    }

    /// Returns what is shown for this error: the description of its kind,
    /// whether or not a cause is attached.
    pub fn to_string(&self) -> (text: String)
        ensures
            text@ == self.spec_kind().description_text(),
    {
        String::from_str(self.kind().description())
    }
}

} // verus!
