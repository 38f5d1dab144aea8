//! Terminal colors.

use vstd::prelude::*;

verus! {

/// A terminal color: the terminal's default, one of the sixteen ANSI colors,
/// a 24-bit RGB triple, or an entry of the 256-color table.
#[derive(Debug, Clone, Copy, PartialEq, Eq, Hash, Structural)]
pub enum Color {
    /// The terminal's default foreground or background.
    Reset,
    /// ANSI black.
    Black,
    /// ANSI red.
    Red,
    /// ANSI green.
    Green,
    /// ANSI yellow.
    Yellow,
    /// ANSI blue.
    Blue,
    /// ANSI magenta.
    Magenta,
    /// ANSI cyan.
    Cyan,
    /// ANSI white, the darker of the two whites.
    Gray,
    /// ANSI bright black.
    DarkGray,
    /// ANSI bright red.
    LightRed,
    /// ANSI bright green.
    LightGreen,
    /// ANSI bright yellow.
    LightYellow,
    /// ANSI bright blue.
    LightBlue,
    /// ANSI bright magenta.
    LightMagenta,
    /// ANSI bright cyan.
    LightCyan,
    /// ANSI bright white.
    White,
    /// A 24-bit color given by its red, green and blue channels.
    Rgb(u8, u8, u8),
    /// An entry of the 256-color table.
    Indexed(u8),
}

/// Perceived brightness of an RGB triple by the ITU-R BT.601 luma weights,
/// rounded down. It lies between 0 (black) and 255 (white).
pub open spec fn perceived_brightness(r: u8, g: u8, b: u8) -> int {
    (299 * r + 587 * g + 114 * b) / 1000
}

/// The perceived brightness of any RGB triple is itself a channel value:
/// the three weights add up to one thousand.
pub proof fn perceived_brightness_is_a_channel_value(r: u8, g: u8, b: u8)
    ensures
        0 <= perceived_brightness(r, g, b) <= 255,
{
}

impl Color {
    /// The perceived brightness of a color given in RGB form; `None` for a
    /// color whose channels are not known (a named or indexed color).
    pub open spec fn brightness(self) -> Option<int> {
        match self {
            Color::Rgb(r, g, b) => Some(perceived_brightness(r, g, b)),
            _ => None,
        }
    }
}

} // verus!
