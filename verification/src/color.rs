//! Colours, and the four of them that the highlighter paints with.

use vstd::prelude::*;

verus! {

/// A foreground colour of the terminal.
#[derive(Clone, Copy, Debug, PartialEq, Eq, Structural)]
pub enum Color {
    Reset,
    Black,
    DarkGrey,
    Red,
    DarkRed,
    Green,
    DarkGreen,
    Yellow,
    DarkYellow,
    Blue,
    DarkBlue,
    Magenta,
    DarkMagenta,
    Cyan,
    DarkCyan,
    White,
    Grey,
    Rgb { r: u8, g: u8, b: u8 },
    AnsiValue(u8),
}

/// The colours of the four kinds of text on a command line. A scheme is
/// fixed when a session starts and never changed after.
#[derive(Clone, Copy, Debug, PartialEq, Eq, Structural)]
pub struct ColorScheme {
    command: Color,
    sub_command: Color,
    string: Color,
    flags: Color,
}

impl ColorScheme {
    /// The colour of the command name.
    pub closed spec fn spec_command(&self) -> Color {
        self.command
    }

    /// The colour of plain arguments.
    pub closed spec fn spec_sub_command(&self) -> Color {
        self.sub_command
    }

    /// The colour of quoted text.
    pub closed spec fn spec_string(&self) -> Color {
        self.string
    }

    /// The colour of flags.
    pub closed spec fn spec_flags(&self) -> Color {
        self.flags
    }

    /// The scheme that `Default` gives: yellow commands, white arguments,
    /// green strings and dark grey flags.
    pub open spec fn is_default(&self) -> bool {
        &&& self.spec_command() == Color::Yellow
        &&& self.spec_sub_command() == Color::White
        &&& self.spec_string() == Color::Green
        &&& self.spec_flags() == Color::DarkGrey
    }

    /// Two schemes with the same four colours are the same scheme.
    pub proof fn lemma_determined_by_colors(a: Self, b: Self)
        requires
            a.spec_command() == b.spec_command(),
            a.spec_sub_command() == b.spec_sub_command(),
            a.spec_string() == b.spec_string(),
            a.spec_flags() == b.spec_flags(),
        ensures
            a == b,
    {
    }

    /// Builds a scheme from its four colours.
    pub fn new(command: Color, sub_command: Color, string: Color, flags: Color) -> (scheme: Self)
        ensures
            scheme.spec_command() == command,
            scheme.spec_sub_command() == sub_command,
            scheme.spec_string() == string,
            scheme.spec_flags() == flags,
    {
        Self { command, sub_command, string, flags }
    }

    /// Returns the colour of the command name.
    #[verifier::when_used_as_spec(spec_command)]
    pub fn command(&self) -> (color: Color)
        ensures
            color == self.spec_command(),
    {
        self.command
    }

    /// Returns the colour of plain arguments.
    #[verifier::when_used_as_spec(spec_sub_command)]
    pub fn sub_command(&self) -> (color: Color)
        ensures
            color == self.spec_sub_command(),
    {
        self.sub_command
    }

    /// Returns the colour of quoted text.
    #[verifier::when_used_as_spec(spec_string)]
    pub fn string(&self) -> (color: Color)
        ensures
            color == self.spec_string(),
    {
        self.string
    }

    /// Returns the colour of flags.
    #[verifier::when_used_as_spec(spec_flags)]
    pub fn flags(&self) -> (color: Color)
        ensures
            color == self.spec_flags(),
    {
        self.flags
    }
}

impl Default for ColorScheme {
    fn default() -> (scheme: Self)
        ensures
            scheme.is_default(),
    {
        Self {
            command: Color::Yellow,
            sub_command: Color::White,
            string: Color::Green,
            flags: Color::DarkGrey,
        }
    }
}

} // verus!
