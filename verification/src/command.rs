//! The command parser, the two kinds of command it yields, and the
//! dispatcher that routes a command to the builtin registry or to the
//! process runner.
//!
//! A line is split into tokens. The first is the name of the command. The
//! tokens after it are arguments up to the first one that starts with `-`;
//! from that token on, every token is a flag, whether it starts with `-` or
//! not. There is no quoting: a double quote is a character like any other.

use crate::builtin::{builtin_effects, builtin_names, effect_views, Effect, EffectView};
use crate::error::{CommandParseError, ErrorKind};
use crate::text::{
    chars_of, lemma_texts_push, lowercase, string_of, text_is, texts, to_ascii_lowercase,
};
use crate::token::{is_word, lemma_tokens_are_words, token_views, tokenize, tokens};
use vstd::prelude::*;

verus! {

/// What a command holds: its name, its arguments and its flags, each in the
/// order in which they were typed.
pub struct CommandView {
    pub name: Seq<char>,
    pub arguments: Seq<Seq<char>>,
    pub flags: Seq<Seq<char>>,
}

/// A token that starts with `-`.
pub open spec fn is_flag(token: Seq<char>) -> bool {
    token.len() > 0 && token[0] == '-'
}

/// How many of the tokens after the name are arguments: those before the
/// first flag.
pub open spec fn arguments_len(rest: Seq<Seq<char>>) -> nat
    decreases rest.len(),
{
    if rest.len() == 0 || is_flag(rest[0]) {
        0
    } else {
        1 + arguments_len(rest.skip(1))
    }
}

/// The arguments among the tokens after the name.
pub open spec fn arguments_of(rest: Seq<Seq<char>>) -> Seq<Seq<char>> {
    rest.take(arguments_len(rest) as int)
}

/// The flags among the tokens after the name: the first token that starts
/// with `-`, and all that follow it.
pub open spec fn flags_of(rest: Seq<Seq<char>>) -> Seq<Seq<char>> {
    rest.skip(arguments_len(rest) as int)
}

/// What a line parses to; `None` where it holds no token.
pub open spec fn parse(line: Seq<char>) -> Option<CommandView> {
    let t = tokens(line);
    if t.len() == 0 {
        None
    } else {
        Some(
            CommandView {
                name: t[0],
                arguments: arguments_of(t.skip(1)),
                flags: flags_of(t.skip(1)),
            },
        )
    }
}

/// Whether a name is that of a builtin command, in whatever case it is
/// written.
pub open spec fn is_builtin_name(name: Seq<char>) -> bool {
    builtin_names().contains(to_ascii_lowercase(name))
}

impl CommandView {
    /// What holds of every command that came out of the parser: the name,
    /// the arguments and the flags are words, no argument starts with `-`,
    /// and the first flag, if there is one, does.
    pub open spec fn well_formed(self) -> bool {
        &&& is_word(self.name)
        &&& forall|i: int|
            0 <= i < self.arguments.len() ==> is_word(#[trigger] self.arguments[i]) && !is_flag(
                self.arguments[i],
            )
        &&& forall|i: int| 0 <= i < self.flags.len() ==> is_word(#[trigger] self.flags[i])
        &&& self.flags.len() > 0 ==> is_flag(self.flags[0])
    }

    /// The argument vector that the command is spawned with: the arguments
    /// first, then the flags.
    pub open spec fn argv(self) -> Seq<Seq<char>> {
        self.arguments + self.flags
    }

    /// What is spawned for the command: the program of its name, with its
    /// argument vector.
    pub open spec fn spawn(self) -> SpawnView {
        SpawnView { program: self.name, args: self.argv() }
    }
}

/// Where a line goes: nowhere where it holds no token; to the builtin
/// registry where its name is that of a builtin; to the process runner
/// otherwise.
pub open spec fn route_of(line: Seq<char>) -> Option<DispatchView> {
    match parse(line) {
        None => None,
        Some(command) => Some(
            if is_builtin_name(command.name) {
                DispatchView::Builtin(builtin_effects(command))
            } else {
                DispatchView::External(command.spawn())
            },
        ),
    }
}

/// Two names that differ in the case of their ASCII letters only are both
/// names of builtins, or neither is.
pub proof fn lemma_builtin_in_any_case(a: Seq<char>, b: Seq<char>)
    requires
        to_ascii_lowercase(a) == to_ascii_lowercase(b),
    ensures
        is_builtin_name(a) == is_builtin_name(b),
{
}

/// The arguments are never longer than the tokens they are taken from.
pub proof fn lemma_arguments_len_bound(rest: Seq<Seq<char>>)
    ensures
        arguments_len(rest) <= rest.len(),
    decreases rest.len(),
{
    if rest.len() > 0 && !is_flag(rest[0]) {
        lemma_arguments_len_bound(rest.skip(1));
    }
}

/// `arguments_len(rest)` is `k` exactly when none of the first `k` tokens is
/// a flag and the tokens end there or go on with a flag.
pub proof fn lemma_arguments_len_is(rest: Seq<Seq<char>>, k: int)
    requires
        0 <= k <= rest.len(),
        forall|j: int| 0 <= j < k ==> !is_flag(#[trigger] rest[j]),
        k == rest.len() || is_flag(rest[k]),
    ensures
        arguments_len(rest) == k,
    decreases k,
{
    if k > 0 {
        let tail = rest.skip(1);
        assert forall|j: int| 0 <= j < k - 1 implies !is_flag(#[trigger] tail[j]) by {
            assert(tail[j] == rest[j + 1]);
        }
        lemma_arguments_len_is(tail, k - 1);
    }
}

/// No token before `arguments_len(rest)` is a flag, and the one at that
/// place is, if there is one.
pub proof fn lemma_arguments_len_prefix(rest: Seq<Seq<char>>)
    ensures
        arguments_len(rest) <= rest.len(),
        forall|j: int| 0 <= j < arguments_len(rest) ==> !is_flag(#[trigger] rest[j]),
        arguments_len(rest) < rest.len() ==> is_flag(rest[arguments_len(rest) as int]),
    decreases rest.len(),
{
    if rest.len() > 0 && !is_flag(rest[0]) {
        let tail = rest.skip(1);
        lemma_arguments_len_prefix(tail);
        assert forall|j: int| 0 <= j < arguments_len(rest) implies !is_flag(
            #[trigger] rest[j],
        ) by {
            if j > 0 {
                assert(rest[j] == tail[j - 1]);
            }
        }
        if arguments_len(rest) < rest.len() {
            assert(rest[arguments_len(rest) as int] == tail[arguments_len(tail) as int]);
        }
    }
}

/// The arguments followed by the flags are the tokens after the name: the
/// parser drops no token and keeps their order.
pub proof fn lemma_arguments_then_flags(rest: Seq<Seq<char>>)
    ensures
        arguments_of(rest) + flags_of(rest) == rest,
{
    lemma_arguments_len_bound(rest);
    assert(arguments_of(rest) + flags_of(rest) =~= rest);
}

/// The flag latch: once a token that starts with `-` has been seen, at place
/// `i` after the name, it and every token after it is a flag, in the order
/// typed, and none of them is an argument, whether or not it starts with `-`.
pub proof fn lemma_flag_latch(rest: Seq<Seq<char>>, i: int, j: int)
    requires
        0 <= i <= j < rest.len(),
        is_flag(rest[i]),
    ensures
        arguments_of(rest).len() <= i,
        arguments_of(rest).len() + flags_of(rest).len() == rest.len(),
        flags_of(rest)[j - arguments_of(rest).len()] == rest[j],
{
    lemma_arguments_len_prefix(rest);
    if arguments_len(rest) > i {
        assert(!is_flag(rest[i]));
    }
}

/// Every command that the parser yields is well formed.
pub proof fn lemma_parse_well_formed(line: Seq<char>)
    requires
        parse(line) is Some,
    ensures
        parse(line)->0.well_formed(),
{
    let t = tokens(line);
    let rest = t.skip(1);
    let command = parse(line)->0;
    lemma_tokens_are_words(line);
    lemma_arguments_len_prefix(rest);
    assert(is_word(t[0]));
    assert forall|i: int| 0 <= i < command.arguments.len() implies is_word(
        #[trigger] command.arguments[i],
    ) && !is_flag(command.arguments[i]) by {
        assert(command.arguments[i] == rest[i]);
        assert(rest[i] == t[i + 1]);
    }
    assert forall|i: int| 0 <= i < command.flags.len() implies is_word(
        #[trigger] command.flags[i],
    ) by {
        assert(command.flags[i] == rest[i + arguments_len(rest)]);
        assert(rest[i + arguments_len(rest)] == t[i + arguments_len(rest) + 1]);
    }
    if command.flags.len() > 0 {
        assert(command.flags[0] == rest[arguments_len(rest) as int]);
    }
}

/// A command that is run as a process of its own.
#[derive(Debug, PartialEq, Eq)]
pub struct ParsedCommand {
    pub command: String,
    pub subcommand: Vec<String>,
    pub flags: Vec<String>,
}

/// A command that the shell carries out itself.
#[derive(Debug, PartialEq, Eq)]
pub struct BuiltinCommand {
    pub command: String,
    pub subcommand: Vec<String>,
    pub flags: Vec<String>,
}

/// A parsed command, by who carries it out.
#[derive(Debug, PartialEq, Eq)]
pub enum CommandType {
    Executable(ParsedCommand),
    Builtin(BuiltinCommand),
}

/// The program to spawn and the argument vector to spawn it with.
#[derive(Debug, PartialEq, Eq)]
pub struct Spawn {
    pub program: String,
    pub args: Vec<String>,
}

/// Where a command goes.
#[derive(Debug, PartialEq, Eq)]
pub enum Dispatch {
    /// To the builtin registry, which asks for these effects, in this order.
    Builtin(Vec<Effect>),
    /// To the process runner, which spawns this.
    External(Spawn),
}

/// `Spawn`, over sequences of characters.
pub struct SpawnView {
    pub program: Seq<char>,
    pub args: Seq<Seq<char>>,
}

impl View for Spawn {
    type V = SpawnView;

    open spec fn view(&self) -> SpawnView {
        SpawnView { program: self.program@, args: texts(self.args@) }
    }
}

/// `Dispatch`, over sequences.
pub enum DispatchView {
    Builtin(Seq<EffectView>),
    External(SpawnView),
}

impl View for Dispatch {
    type V = DispatchView;

    open spec fn view(&self) -> DispatchView {
        match self {
            Dispatch::Builtin(effects) => DispatchView::Builtin(effect_views(effects@)),
            Dispatch::External(spawn) => DispatchView::External(spawn@),
        }
    }
}

impl View for ParsedCommand {
    type V = CommandView;

    open spec fn view(&self) -> CommandView {
        CommandView {
            name: self.command@,
            arguments: texts(self.subcommand@),
            flags: texts(self.flags@),
        }
    }
}

impl View for BuiltinCommand {
    type V = CommandView;

    open spec fn view(&self) -> CommandView {
        CommandView {
            name: self.command@,
            arguments: texts(self.subcommand@),
            flags: texts(self.flags@),
        }
    }
}

impl View for CommandType {
    type V = CommandView;

    open spec fn view(&self) -> CommandView {
        match self {
            CommandType::Executable(command) => command@,
            CommandType::Builtin(command) => command@,
        }
    }
}

/// Pushes a copy of each string of `source` onto the end of `target`.
fn extend_with_clones(target: &mut Vec<String>, source: &Vec<String>)
    ensures
        texts(final(target)@) == texts(old(target)@) + texts(source@),
{
    let mut i: usize = 0;
    assert(texts(target@) =~= texts(old(target)@) + texts(source@.take(0)));
    while i < source.len()
        invariant
            i <= source.len(),
            texts(target@) == texts(old(target)@) + texts(source@.take(i as int)),
        decreases source.len() - i,
    {
        let ghost before = target@;
        target.push(source[i].clone());
        proof {
            lemma_texts_push(before, target@.last());
            assert(texts(source@.take(i + 1)) =~= texts(source@.take(i as int)).push(
                source@[i as int]@,
            ));
            assert(texts(target@) =~= texts(old(target)@) + texts(source@.take(i + 1)));
        }
        i += 1;
    }
    assert(source@.take(i as int) =~= source@);
}

impl ParsedCommand {
    /// Builds an external command from its parts.
    pub fn new(command: String, subcommand: Vec<String>, flags: Vec<String>) -> (parsed: Self)
        ensures
            parsed.command == command,
            parsed.subcommand == subcommand,
            parsed.flags == flags,
    {
        Self { command, subcommand, flags }
    }

    /// Prepares the run of this command: the program is its name, and the
    /// argument vector is its arguments followed by its flags. The flags
    /// do not go back to the places where they were typed.
    pub fn run(&self) -> (spawn: Spawn)
        ensures
            spawn@ == self@.spawn(),
    {
        let mut args: Vec<String> = Vec::new();
        assert(texts(args@) =~= Seq::<Seq<char>>::empty());
        extend_with_clones(&mut args, &self.subcommand);
        extend_with_clones(&mut args, &self.flags);
        assert(texts(args@) =~= self@.argv());
        Spawn { program: self.command.clone(), args }
    }
}

impl BuiltinCommand {
    /// Builds a builtin command from its parts.
    pub fn new(command: String, subcommand: Vec<String>, flags: Vec<String>) -> (builtin: Self)
        ensures
            builtin.command == command,
            builtin.subcommand == subcommand,
            builtin.flags == flags,
    {
        Self { command, subcommand, flags }
    }

    /// Lists what this command does, in the order in which it is to be
    /// done: see [`builtin_effects`].
    pub fn run(&self) -> (effects: Vec<Effect>)
        ensures
            effect_views(effects@) == builtin_effects(self@),
    {
        let mut effects: Vec<Effect> = Vec::new();
        let n = self.subcommand.len();
        if text_is(&self.command, "cd") {
            if n >= 1 {
                effects.push(Effect::ChangeDir(self.subcommand[0].clone()));
            }
        } else if text_is(&self.command, "cp") {
            if n >= 2 {
                effects.push(
                    Effect::Copy(self.subcommand[0].clone(), self.subcommand[1].clone()),
                );
            }
        } else if text_is(&self.command, "exit") {
            effects.push(Effect::Exit);
        } else if text_is(&self.command, "rm") {
            let mut i: usize = 0;
            while i < n
                invariant
                    i <= n,
                    n == self.subcommand.len(),
                    effects.len() == i,
                    forall|k: int|
                        0 <= k < i ==> (#[trigger] effects[k])@ == EffectView::RemoveFile(
                            self.subcommand[k]@,
                        ),
                decreases n - i,
            {
                effects.push(Effect::RemoveFile(self.subcommand[i].clone()));
                i += 1;
            }
        } else if text_is(&self.command, "rmdir") {
            let mut i: usize = 0;
            while i < n
                invariant
                    i <= n,
                    n == self.subcommand.len(),
                    effects.len() == i,
                    forall|k: int|
                        0 <= k < i ==> (#[trigger] effects[k])@ == EffectView::RemoveDir(
                            self.subcommand[k]@,
                        ),
                decreases n - i,
            {
                effects.push(Effect::RemoveDir(self.subcommand[i].clone()));
                i += 1;
            }
        } else if text_is(&self.command, "touch") {
            let mut i: usize = 0;
            while i < n
                invariant
                    i <= n,
                    n == self.subcommand.len(),
                    effects.len() == i,
                    forall|k: int|
                        0 <= k < i ==> (#[trigger] effects[k])@ == EffectView::Touch(
                            self.subcommand[k]@,
                        ),
                decreases n - i,
            {
                effects.push(Effect::Touch(self.subcommand[i].clone()));
                i += 1;
            }
        }
        assert(effect_views(effects@) =~= builtin_effects(self@));
        effects
    }
}

impl CommandType {
    /// Where the command goes.
    pub open spec fn spec_dispatch(&self) -> DispatchView {
        match self {
            CommandType::Builtin(builtin) => DispatchView::Builtin(builtin_effects(builtin@)),
            CommandType::Executable(parsed) => DispatchView::External(parsed@.spawn()),
        }
    }

    /// Routes the command: a builtin to the registry, anything else to the
    /// process runner. Nothing is carried out here, and no command ends
    /// the session but `exit`, by the effect it asks for.
    pub fn dispatch(&self) -> (route: Dispatch)
        ensures
            route@ == self.spec_dispatch(),
    {
        match self {
            CommandType::Builtin(builtin) => Dispatch::Builtin(builtin.run()),
            CommandType::Executable(parsed) => Dispatch::External(parsed.run()),
        }
    }
}

/// Tells whether a token starts with `-`.
fn starts_with_dash(token: &Vec<char>) -> (b: bool)
    ensures
        b == is_flag(token@),
{
    token.len() > 0 && token[0] == '-'
}

/// Tells whether a name is that of a builtin command, in whatever case it
/// is written.
fn is_builtin(name: &Vec<char>) -> (b: bool)
    ensures
        b == is_builtin_name(name@),
{
    let lowered = string_of(&lowercase(name));
    let names = Ghost(builtin_names());
    proof {
        assert(names@[0] == "cd"@);
        assert(names@[1] == "cp"@);
        assert(names@[2] == "exit"@);
        assert(names@[3] == "help"@);
        assert(names@[4] == "rm"@);
        assert(names@[5] == "rmdir"@);
        assert(names@[6] == "touch"@);
    }
    text_is(&lowered, "cd") || text_is(&lowered, "cp") || text_is(&lowered, "exit") || text_is(
        &lowered,
        "help",
    ) || text_is(&lowered, "rm") || text_is(&lowered, "rmdir") || text_is(&lowered, "touch")
}

/// Parses a line into a command.
///
/// The line is rejected, with an error of kind `Null`, exactly when it holds
/// no token. Otherwise the command holds what [`parse`] says: the first
/// token as its name, the tokens before the first flag as its arguments and
/// the rest as its flags. It is a builtin exactly when its name, in lower
/// case, is the name of one.
pub fn parse_command(line: &str) -> (result: Result<CommandType, CommandParseError>)
    ensures
        result is Ok <==> tokens(line@).len() > 0,
        result matches Ok(command) ==> {
            &&& Some(command@) == parse(line@)
            &&& command@.name == tokens(line@)[0]
            &&& command@.well_formed()
            &&& command is Builtin <==> is_builtin_name(command@.name)
        },
        result matches Err(error) ==> error.kind() == ErrorKind::Null && error.cause() is None,
{
    let chars = chars_of(line);
    let words = tokenize(chars.as_slice());
    let ghost t = tokens(line@);
    let ghost rest = t.skip(1);
    if words.len() == 0 {
        return Err(CommandParseError::simple(ErrorKind::Null));
    }
    let command = string_of(&words[0]);
    let builtin = is_builtin(&words[0]);
    let mut subcommand: Vec<String> = Vec::new();
    let mut flags: Vec<String> = Vec::new();
    let mut i: usize = 1;
    assert(texts(subcommand@) =~= rest.take(0));
    while i < words.len() && !starts_with_dash(&words[i])
        invariant
            1 <= i <= words.len(),
            token_views(words@) == t,
            rest == t.skip(1),
            texts(subcommand@) == rest.take(i - 1),
            forall|k: int| 0 <= k < i - 1 ==> !is_flag(#[trigger] rest[k]),
        decreases words.len() - i,
    {
        let ghost before = subcommand@;
        subcommand.push(string_of(&words[i]));
        proof {
            lemma_texts_push(before, subcommand@.last());
            assert(rest[i - 1] == t[i as int]);
            assert(texts(subcommand@) =~= rest.take(i as int));
        }
        i += 1;
    }
    let ghost split = i - 1;
    proof {
        if i < words.len() {
            assert(rest[split] == t[i as int]);
        }
        lemma_arguments_len_is(rest, split);
        assert(texts(flags@) =~= rest.subrange(split, i - 1));
    }
    while i < words.len()
        invariant
            0 <= split,
            split + 1 <= i <= words.len(),
            t.len() == words.len(),
            token_views(words@) == t,
            rest == t.skip(1),
            texts(flags@) == rest.subrange(split, i - 1),
        decreases words.len() - i,
    {
        let ghost before = flags@;
        flags.push(string_of(&words[i]));
        proof {
            lemma_texts_push(before, flags@.last());
            assert(rest[i - 1] == t[i as int]);
            assert(texts(flags@) =~= rest.subrange(split, i as int));
        }
        i += 1;
    }
    proof {
        assert(rest.subrange(split, i - 1) =~= rest.skip(split));
        lemma_parse_well_formed(line@);
    }
    if builtin {
        Ok(CommandType::Builtin(BuiltinCommand::new(command, subcommand, flags)))
    } else {
        Ok(CommandType::Executable(ParsedCommand::new(command, subcommand, flags)))
    }
}

/// Takes a finished line to where it goes: see [`route_of`]. A line
/// without a token goes nowhere, and nothing is to be shown for it: the
/// prompt comes back.
pub fn submit(line: &str) -> (route: Option<Dispatch>)
    ensures
        match route {
            Some(route) => route_of(line@) == Some(route@),
            None => route_of(line@) is None,
        },
{
    match parse_command(line) {
        Ok(command) => Some(command.dispatch()),
        Err(_) => None,
    }
}

} // verus!
