//! The ten semantic colors of a theme.

use vstd::prelude::*;
use crate::color::Color;
use crate::theme::ThemeName;

verus! {

/// The colors of one theme, by role.
#[derive(Debug, Clone, Copy, PartialEq, Eq, Structural)]
pub struct ThemePalette {
    /// Primary accent: highlights and active elements.
    pub accent: Color,
    /// Secondary accent: less prominent highlights.
    pub secondary: Color,
    /// Main background.
    pub bg: Color,
    /// Primary text.
    pub fg: Color,
    /// Dimmed text: comments, placeholders, disabled elements.
    pub muted: Color,
    /// Background of a selection or a highlighted row.
    pub selection: Color,
    /// Errors and critical states.
    pub error: Color,
    /// Warnings and pending states.
    pub warning: Color,
    /// Success and confirmations.
    pub success: Color,
    /// Informational highlights.
    pub info: Color,
}

impl ThemePalette {
    /// A palette is well formed when its text color differs from its
    /// background color. Every palette of the catalog is; one put together
    /// by hand need not be.
    pub open spec fn well_formed(self) -> bool {
        self.fg != self.bg
    }

    /// A palette is light when its background is an RGB color whose
    /// perceived brightness exceeds 127. A background that is not given in
    /// RGB has no known brightness and does not count as light.
    pub open spec fn light(self) -> bool {
        match self.bg.brightness() {
            Some(level) => level > 127,
            None => false,
        }
    }

    /// Whether this palette belongs to a light theme.
    #[must_use]
    pub fn is_light(&self) -> (light: bool)
        ensures
            light == self.light(),
    {
        match self.bg {
            Color::Rgb(r, g, b) => {
                let brightness: u32 = (u32::from(r) * 299 + u32::from(g) * 587 + u32::from(b)
                    * 114) / 1000;
                brightness > 127
            },
            _ => false,
        }
    }

    /// Whether this palette belongs to a dark theme: the negation of
    /// [`is_light`](Self::is_light).
    #[must_use]
    pub fn is_dark(&self) -> (dark: bool)
        ensures
            dark == !self.light(),
    {
        !self.is_light()
    }
}

impl Default for ThemePalette {
    /// The default palette is that of the default theme, Dracula.
    fn default() -> (palette: ThemePalette)
        ensures
            palette == ThemeName::Dracula.colors(),
            palette.well_formed(),
    {
        ThemeName::default().palette()
    }
}

} // verus!
