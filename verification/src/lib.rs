//! The core of an interactive command-line shell: the command parser, the
//! builtin registry, the syntax highlighter and the line editor, each stated
//! over mathematical models and proved against them.

pub mod builtin;
pub mod color;
pub mod command;
pub mod editor;
pub mod error;
pub mod highlight;
pub mod prompt;
pub mod runner;
pub mod terminal;
pub mod text;
pub mod token;
pub mod toml;
