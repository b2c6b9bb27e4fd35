//! The builtin registry: what each builtin command does, as a list of
//! effects for the caller to carry out. No effect that fails ends the session:
//! its error is shown and the next effect follows.

use crate::command::CommandView;
use vstd::prelude::*;

verus! {

/// One thing a builtin command asks for.
#[derive(Debug, PartialEq, Eq)]
pub enum Effect {
    /// Make this directory the working directory of the process.
    ChangeDir(String),
    /// Copy the first file to the second path.
    Copy(String, String),
    /// Remove this file.
    RemoveFile(String),
    /// Remove this directory, which has to be empty.
    RemoveDir(String),
    /// Touch this path: see [`touch`].
    Touch(String),
    /// End the process with status 0.
    Exit,
}

/// An effect, with its paths as sequences of characters.
pub enum EffectView {
    ChangeDir(Seq<char>),
    Copy(Seq<char>, Seq<char>),
    RemoveFile(Seq<char>),
    RemoveDir(Seq<char>),
    Touch(Seq<char>),
    Exit,
}

impl View for Effect {
    type V = EffectView;

    open spec fn view(&self) -> EffectView {
        match self {
            Effect::ChangeDir(path) => EffectView::ChangeDir(path@),
            Effect::Copy(from, to) => EffectView::Copy(from@, to@),
            Effect::RemoveFile(path) => EffectView::RemoveFile(path@),
            Effect::RemoveDir(path) => EffectView::RemoveDir(path@),
            Effect::Touch(path) => EffectView::Touch(path@),
            Effect::Exit => EffectView::Exit,
        }
    }
}

/// The views of a sequence of effects.
pub open spec fn effect_views(effects: Seq<Effect>) -> Seq<EffectView> {
    Seq::new(effects.len(), |i: int| effects[i]@)
}

/// The names of the builtin commands, in lower case.
pub open spec fn builtin_names() -> Seq<Seq<char>> {
    seq!["cd"@, "cp"@, "exit"@, "help"@, "rm"@, "rmdir"@, "touch"@]
}

/// What a builtin command does.
///
/// - `cd` changes to its first argument, and does nothing without one;
/// - `cp` copies its first argument to its second, and does nothing with
///   fewer than two;
/// - `exit` ends the process;
/// - `rm`, `rmdir` and `touch` act on each argument in turn, one effect per
///   path, whatever becomes of the others;
/// - `help` does nothing, and neither does a name that is none of these as
///   it is written: the registry goes by the exact, lower-case name.
///
/// Flags are never read.
pub open spec fn builtin_effects(command: CommandView) -> Seq<EffectView> {
    let arguments = command.arguments;
    if command.name == "cd"@ {
        if arguments.len() >= 1 {
            seq![EffectView::ChangeDir(arguments[0])]
        } else {
            Seq::empty()
        }
    } else if command.name == "cp"@ {
        if arguments.len() >= 2 {
            seq![EffectView::Copy(arguments[0], arguments[1])]
        } else {
            Seq::empty()
        }
    } else if command.name == "exit"@ {
        seq![EffectView::Exit]
    } else if command.name == "rm"@ {
        Seq::new(arguments.len(), |i: int| EffectView::RemoveFile(arguments[i]))
    } else if command.name == "rmdir"@ {
        Seq::new(arguments.len(), |i: int| EffectView::RemoveDir(arguments[i]))
    } else if command.name == "touch"@ {
        Seq::new(arguments.len(), |i: int| EffectView::Touch(arguments[i]))
    } else {
        Seq::empty()
    }
}

/// `rm` asks for one removal for each of its arguments, in their order,
/// and for nothing else: what becomes of one path is nothing to the others.
pub proof fn lemma_rm_removes_each_path(command: CommandView)
    requires
        command.name == "rm"@,
    ensures
        builtin_effects(command).len() == command.arguments.len(),
        forall|i: int|
            0 <= i < command.arguments.len() ==> #[trigger] builtin_effects(command)[i]
                == EffectView::RemoveFile(command.arguments[i]),
{
    reveal_strlit("rm");
    reveal_strlit("cd");
    reveal_strlit("cp");
    reveal_strlit("exit");
    assert("rm"@.len() == 2);
    assert("exit"@.len() == 4);
    assert("rm"@[0] == 'r');
    assert("cd"@[0] == 'c');
    assert("cp"@[0] == 'c');
}

/// A builtin asks for the end of the process exactly when it is `exit`: no
/// other builtin ends the session, whatever its arguments.
pub proof fn lemma_only_exit_ends(command: CommandView)
    ensures
        builtin_effects(command).contains(EffectView::Exit) <==> command.name == "exit"@,
{
    reveal_strlit("cd");
    reveal_strlit("cp");
    reveal_strlit("exit");
    let effects = builtin_effects(command);
    if command.name == "exit"@ {
        assert("exit"@.len() == 4);
        assert("cd"@.len() == 2);
        assert("cp"@.len() == 2);
        assert(effects[0] == EffectView::Exit);
    } else {
        assert forall|i: int| 0 <= i < effects.len() implies effects[i] != EffectView::Exit by {}
    }
}

/// How a path is touched.
#[derive(Clone, Copy, Debug, PartialEq, Eq, Structural)]
pub enum TouchStep {
    /// The path exists: open it and set its modification time to now.
    SetModifiedNow,
    /// The path does not exist: create an empty file there.
    CreateEmpty,
}

/// Decides how a path is touched from whether it exists: a path that exists
/// gets its modification time set to now and keeps what it holds; one that
/// does not is created empty.
pub fn touch(exists: bool) -> (step: TouchStep)
    ensures
        exists ==> step == TouchStep::SetModifiedNow,
        !exists ==> step == TouchStep::CreateEmpty,
{
    if exists {
        TouchStep::SetModifiedNow
    } else {
        TouchStep::CreateEmpty
    }
}

} // verus!
