//! The settings of the shell: the colour scheme that the user asked for,
//! with a default for each colour that was left out.

use crate::color::{Color, ColorScheme};
use crate::text::{chars_of, lowercase, string_of, text_is, to_ascii_lowercase};
use vstd::prelude::*;

verus! {

/// The settings as the user wrote them.
#[allow(non_snake_case)]
#[derive(Debug, PartialEq, Eq)]
pub struct UD {
    pub ColorScheme: Option<UDColorScheme>,
}

/// The colours as the user wrote them: a name for each, or nothing.
#[derive(Debug, PartialEq, Eq)]
pub struct UDColorScheme {
    pub command: Option<String>,
    pub sub_command: Option<String>,
    pub string: Option<String>,
    pub flags: Option<String>,
}

/// The settings of a session.
#[allow(non_snake_case)]
#[derive(Clone, Copy, Debug, PartialEq, Eq, Structural)]
pub struct Config {
    ColorScheme: ColorScheme,
}

/// The colour that a name stands for, in whatever case the name is written.
/// A name that is not known stands for white.
pub open spec fn color_named(name: Seq<char>) -> Color {
    let lowered = to_ascii_lowercase(name);
    if lowered == "white"@ {
        Color::White
    } else if lowered == "black"@ {
        Color::Black
    } else if lowered == "grey"@ {
        Color::Grey
    } else if lowered == "red"@ {
        Color::Red
    } else if lowered == "darkred"@ {
        Color::DarkRed
    } else if lowered == "green"@ {
        Color::Green
    } else if lowered == "darkgreen"@ {
        Color::DarkGreen
    } else if lowered == "blue"@ {
        Color::Blue
    } else if lowered == "darkblue"@ {
        Color::DarkBlue
    } else if lowered == "darkgrey"@ {
        Color::DarkGrey
    } else {
        Color::White
    }
}

/// The colour that the user asked for, or `default` where none was named.
pub open spec fn color_or(name: Option<String>, default: Color) -> Color {
    match name {
        Some(name) => color_named(name@),
        None => default,
    }
}

/// The scheme that the user's settings come to: the default scheme where
/// they name no colours at all, and else each colour by its name, or by its
/// default where it was left out: yellow for commands, white for arguments,
/// green for strings and dark grey for flags.
pub open spec fn scheme_of(decoded: UD, scheme: ColorScheme) -> bool {
    match decoded.ColorScheme {
        None => scheme.is_default(),
        Some(colors) => {
            &&& scheme.spec_command() == color_or(colors.command, Color::Yellow)
            &&& scheme.spec_sub_command() == color_or(colors.sub_command, Color::White)
            &&& scheme.spec_string() == color_or(colors.string, Color::Green)
            &&& scheme.spec_flags() == color_or(colors.flags, Color::DarkGrey)
        },
    }
}

/// Returns the colour that a name stands for: see [`color_named`].
pub fn get_color_from_name(color: &str) -> (named: Color)
    ensures
        named == color_named(color@),
{
    let lowered = string_of(&lowercase(&chars_of(color)));
    if text_is(&lowered, "white") {
        Color::White
    } else if text_is(&lowered, "black") {
        Color::Black
    } else if text_is(&lowered, "grey") {
        Color::Grey
    } else if text_is(&lowered, "red") {
        Color::Red
    } else if text_is(&lowered, "darkred") {
        Color::DarkRed
    } else if text_is(&lowered, "green") {
        Color::Green
    } else if text_is(&lowered, "darkgreen") {
        Color::DarkGreen
    } else if text_is(&lowered, "blue") {
        Color::Blue
    } else if text_is(&lowered, "darkblue") {
        Color::DarkBlue
    } else if text_is(&lowered, "darkgrey") {
        Color::DarkGrey
    } else {
        Color::White
    }
}

/// Returns the colour that the user asked for, or `default`.
fn resolve(name: &Option<String>, default: Color) -> (color: Color)
    ensures
        color == color_or(*name, default),
{
    match name {
        Some(name) => get_color_from_name(name.as_str()),
        None => default,
    }
}

impl Config {
    /// The colour scheme of these settings.
    pub closed spec fn spec_get_scheme(&self) -> ColorScheme {
        self.ColorScheme
    }

    /// Makes the settings of a session from what the user wrote: see
    /// [`scheme_of`].
    pub fn load(decoded: &UD) -> (config: Self)
        ensures
            scheme_of(*decoded, config.spec_get_scheme()),
    {
        let scheme = match &decoded.ColorScheme {
            None => ColorScheme::default(),
            Some(colors) => ColorScheme::new(
                resolve(&colors.command, Color::Yellow),
                resolve(&colors.sub_command, Color::White),
                resolve(&colors.string, Color::Green),
                resolve(&colors.flags, Color::DarkGrey),
            ),
        };
        Self { ColorScheme: scheme }
    }

    /// Returns the colour scheme of these settings.
    #[verifier::when_used_as_spec(spec_get_scheme)]
    pub fn get_scheme(&self) -> (scheme: ColorScheme)
        ensures
            scheme == self.spec_get_scheme(),
    {
        self.ColorScheme
    }
}

impl Default for Config {
    fn default() -> (config: Self)
        ensures
            config.spec_get_scheme().is_default(),
    {
        Self { ColorScheme: ColorScheme::default() }
    }
}

} // verus!
