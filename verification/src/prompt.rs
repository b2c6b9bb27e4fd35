//! The prompt: who is at which machine, in which directory and on which
//! branch, and the requests that draw it. The names and the directory are
//! given to the library; it asks the system for none of them.

use crate::color::Color;
use crate::terminal::{op_views, print, TerminalOp, TerminalOpView};
use crate::text::{chars_of, string_of};
use vstd::prelude::*;

verus! {

/// A path as the prompt shows it: without its colons, and with each
/// backslash turned into a slash.
pub open spec fn suitable_style(s: Seq<char>) -> Seq<char>
    decreases s.len(),
{
    if s.len() == 0 {
        Seq::empty()
    } else {
        let front = suitable_style(s.drop_last());
        let c = s.last();
        if c == ':' {
            front
        } else if c == '\\' {
            front.push('/')
        } else {
            front.push(c)
        }
    }
}

/// A styled text holds neither a colon nor a backslash.
pub proof fn lemma_suitable_style_clean(s: Seq<char>)
    ensures
        forall|i: int|
            0 <= i < suitable_style(s).len() ==> (#[trigger] suitable_style(s)[i]) != ':'
                && suitable_style(s)[i] != '\\',
    decreases s.len(),
{
    if s.len() > 0 {
        let front = suitable_style(s.drop_last());
        lemma_suitable_style_clean(s.drop_last());
        assert forall|i: int| 0 <= i < suitable_style(s).len() implies (#[trigger] suitable_style(
            s,
        )[i]) != ':' && suitable_style(s)[i] != '\\' by {
            if i < front.len() {
                assert(suitable_style(s)[i] == front[i]);
            }
        }
    }
}

/// Styles a path for the prompt: see [`suitable_style`].
pub fn to_suitable_style(s: &str) -> (styled: String)
    ensures
        styled@ == suitable_style(s@),
{
    let chars = chars_of(s);
    let mut out: Vec<char> = Vec::new();
    let mut i: usize = 0;
    assert(chars@.take(0) =~= Seq::<char>::empty());
    while i < chars.len()
        invariant
            i <= chars.len(),
            out@ == suitable_style(chars@.take(i as int)),
        decreases chars.len() - i,
    {
        let c = chars[i];
        assert(chars@.take(i + 1).drop_last() =~= chars@.take(i as int));
        if c == ':' {
        } else if c == '\\' {
            out.push('/');
        } else {
            out.push(c);
        }
        i += 1;
    }
    assert(chars@.take(i as int) =~= chars@);
    string_of(&out)
}

/// What the prompt shows.
#[derive(Debug, PartialEq, Eq)]
pub struct Prompt {
    pub user: String,
    pub host: String,
    pub path: String,
    pub branch: Option<String>,
}

/// `Prompt`, over sequences of characters.
pub struct PromptView {
    pub user: Seq<char>,
    pub host: Seq<char>,
    pub path: Seq<char>,
    pub branch: Option<Seq<char>>,
}

impl View for Prompt {
    type V = PromptView;

    open spec fn view(&self) -> PromptView {
        PromptView {
            user: self.user@,
            host: self.host@,
            path: self.path@,
            branch: match self.branch {
                Some(branch) => Some(branch@),
                None => None,
            },
        }
    }
}

/// The requests that show the branch: a space, then the name in brackets,
/// in cyan.
pub open spec fn branch_view(branch: Seq<char>) -> Seq<TerminalOpView> {
    seq![
        TerminalOpView::Print(" "@),
        TerminalOpView::SetForegroundColor(Color::Cyan),
        TerminalOpView::Print("("@),
        TerminalOpView::Print(branch),
        TerminalOpView::Print(")"@),
        TerminalOpView::ResetColor,
    ]
}

/// The requests that draw the prompt: the path as the title of the window;
/// `user@host` in green; the path in yellow; the branch, where there is
/// one; and on a line of its own the mark `$ `, after which the text of the
/// line begins, in column 2.
pub open spec fn prompt_view(prompt: PromptView) -> Seq<TerminalOpView> {
    seq![
        TerminalOpView::SetTitle(prompt.path),
        TerminalOpView::SetForegroundColor(Color::Green),
        TerminalOpView::Print(prompt.user),
        TerminalOpView::Print("@"@),
        TerminalOpView::Print(prompt.host),
        TerminalOpView::SetForegroundColor(Color::Yellow),
        TerminalOpView::Print(" "@),
        TerminalOpView::Print(prompt.path),
        TerminalOpView::ResetColor,
    ] + match prompt.branch {
        Some(branch) => branch_view(branch),
        None => Seq::empty(),
    } + seq![TerminalOpView::Print("\n"@), TerminalOpView::Print("$ "@)]
}

impl Prompt {
    /// Makes the prompt of a user at a machine, for a working directory and
    /// the branch that is checked out there, if one is known. The names are
    /// shown as they are given; the path and the branch are styled: see
    /// [`suitable_style`].
    pub fn new(
        user: String,
        host: String,
        working_dir: &str,
        branch: Option<&str>,
    ) -> (prompt: Self)
        ensures
            prompt@.user == user@,
            prompt@.host == host@,
            prompt@.path == suitable_style(working_dir@),
            prompt@.branch == match branch {
                Some(name) => Some(suitable_style(name@)),
                None => None,
            },
    {
        let styled = match branch {
            Some(name) => Some(to_suitable_style(name)),
            None => None,
        };
        Self { user, host, path: to_suitable_style(working_dir), branch: styled }
    }

    /// Builds the requests that draw this prompt: see [`prompt_view`].
    pub fn draw(&self) -> (ops: Vec<TerminalOp>)
        ensures
            op_views(ops@) == prompt_view(self@),
    {
        let mut ops: Vec<TerminalOp> = Vec::new();
        ops.push(TerminalOp::SetTitle(self.path.clone()));
        ops.push(TerminalOp::SetForegroundColor(Color::Green));
        ops.push(print(self.user.as_str()));
        ops.push(print("@"));
        ops.push(print(self.host.as_str()));
        ops.push(TerminalOp::SetForegroundColor(Color::Yellow));
        ops.push(print(" "));
        ops.push(print(self.path.as_str()));
        ops.push(TerminalOp::ResetColor);
        match &self.branch {
            Some(branch) => {
                ops.push(print(" "));
                ops.push(TerminalOp::SetForegroundColor(Color::Cyan));
                ops.push(print("("));
                ops.push(print(branch.as_str()));
                ops.push(print(")"));
                ops.push(TerminalOp::ResetColor);
            },
            None => {},
        }
        ops.push(print("\n"));
        ops.push(print("$ "));
        assert(op_views(ops@) =~= prompt_view(self@));
        ops
    }
}

/// What a tool's answer holds once its line ending of `ending` bytes is
/// taken off; `None` where the answer is empty or shorter than that.
pub open spec fn answer_without_ending(stdout: Seq<u8>, ending: int) -> Option<Seq<u8>> {
    if stdout.len() == 0 || stdout.len() < ending {
        None
    } else {
        Some(stdout.take(stdout.len() - ending))
    }
}

/// Takes the last `ending` bytes off `stdout`.
fn strip_ending(stdout: Vec<u8>, ending: usize) -> (answer: Option<Vec<u8>>)
    ensures
        match answer {
            Some(bytes) => answer_without_ending(stdout@, ending as int) == Some(bytes@),
            None => answer_without_ending(stdout@, ending as int) is None,
        },
{
    let mut bytes = stdout;
    if bytes.len() == 0 || bytes.len() < ending {
        None
    } else {
        bytes.truncate(bytes.len() - ending);
        Some(bytes)
    }
}

/// Reads where a program is from what the lookup tool wrote: nothing where
/// it wrote nothing, and else its answer without the two bytes of its line
/// ending.
pub fn find(stdout: Vec<u8>) -> (path: Option<Vec<u8>>)
    ensures
        match path {
            Some(bytes) => answer_without_ending(stdout@, 2) == Some(bytes@),
            None => answer_without_ending(stdout@, 2) is None,
        },
{
    strip_ending(stdout, 2)
}

/// Reads the name of the branch from what the revision-control tool wrote:
/// nothing where it wrote nothing, and else its answer without the line
/// feed that ends it.
pub fn get_git_branch_name(stdout: Vec<u8>) -> (branch: Option<Vec<u8>>)
    ensures
        match branch {
            Some(bytes) => answer_without_ending(stdout@, 1) == Some(bytes@),
            None => answer_without_ending(stdout@, 1) is None,
        },
{
    strip_ending(stdout, 1)
}

} // verus!
