//! Theme names and the cursor over them.

use vstd::prelude::*;
use crate::color::Color;
use crate::laws::catalog_lists_every_theme_once;
use crate::palette::ThemePalette;

verus! {

/// The themes of the catalog, in catalog order.
#[derive(Debug, Clone, Copy, PartialEq, Eq, Hash, Structural)]
#[non_exhaustive]
pub enum ThemeName {
    /// Dracula: dark, with a purple accent.
    Dracula,
    /// One Dark Pro: the dark theme of the Atom editor.
    OneDarkPro,
    /// Nord: an arctic, bluish palette.
    Nord,
    /// Catppuccin Mocha: warm pastels on a dark base.
    CatppuccinMocha,
    /// Catppuccin Latte: warm pastels on a light base.
    CatppuccinLatte,
    /// Gruvbox Dark: retro, earthy tones.
    GruvboxDark,
    /// Gruvbox Light: the light variant of Gruvbox.
    GruvboxLight,
    /// Tokyo Night: deep blue with vivid accents.
    TokyoNight,
    /// Solarized Dark: the dark variant of Solarized.
    SolarizedDark,
    /// Solarized Light: the light variant of Solarized.
    SolarizedLight,
    /// Monokai Pro: refined Monokai colors.
    MonokaiPro,
    /// Rosé Pine: muted, natural colors.
    RosePine,
    /// Kanagawa: after Hokusai's great wave.
    Kanagawa,
    /// Everforest: soft greens.
    Everforest,
    /// Cyberpunk: neon on dark purple.
    Cyberpunk,
}

impl ThemeName {
    /// The catalog: every theme once, in the order that iteration and
    /// cycling follow.
    pub open spec fn catalog() -> Seq<ThemeName> {
        seq![
            ThemeName::Dracula,
            ThemeName::OneDarkPro,
            ThemeName::Nord,
            ThemeName::CatppuccinMocha,
            ThemeName::CatppuccinLatte,
            ThemeName::GruvboxDark,
            ThemeName::GruvboxLight,
            ThemeName::TokyoNight,
            ThemeName::SolarizedDark,
            ThemeName::SolarizedLight,
            ThemeName::MonokaiPro,
            ThemeName::RosePine,
            ThemeName::Kanagawa,
            ThemeName::Everforest,
            ThemeName::Cyberpunk,
        ]
    }

    /// The human-readable name, as a sequence of characters.
    pub open spec fn display_text(self) -> Seq<char> {
        match self {
            ThemeName::Dracula => "Dracula"@,
            ThemeName::OneDarkPro => "One Dark Pro"@,
            ThemeName::Nord => "Nord"@,
            ThemeName::CatppuccinMocha => "Catppuccin Mocha"@,
            ThemeName::CatppuccinLatte => "Catppuccin Latte"@,
            ThemeName::GruvboxDark => "Gruvbox Dark"@,
            ThemeName::GruvboxLight => "Gruvbox Light"@,
            ThemeName::TokyoNight => "Tokyo Night"@,
            ThemeName::SolarizedDark => "Solarized Dark"@,
            ThemeName::SolarizedLight => "Solarized Light"@,
            ThemeName::MonokaiPro => "Monokai Pro"@,
            ThemeName::RosePine => "Rosé Pine"@,
            ThemeName::Kanagawa => "Kanagawa"@,
            ThemeName::Everforest => "Everforest"@,
            ThemeName::Cyberpunk => "Cyberpunk"@,
        }
    }

    /// The slug: the lowercase, hyphen-separated form under which a theme
    /// is stored in configuration files.
    pub open spec fn slug_text(self) -> Seq<char> {
        match self {
            ThemeName::Dracula => "dracula"@,
            ThemeName::OneDarkPro => "one-dark-pro"@,
            ThemeName::Nord => "nord"@,
            ThemeName::CatppuccinMocha => "catppuccin-mocha"@,
            ThemeName::CatppuccinLatte => "catppuccin-latte"@,
            ThemeName::GruvboxDark => "gruvbox-dark"@,
            ThemeName::GruvboxLight => "gruvbox-light"@,
            ThemeName::TokyoNight => "tokyo-night"@,
            ThemeName::SolarizedDark => "solarized-dark"@,
            ThemeName::SolarizedLight => "solarized-light"@,
            ThemeName::MonokaiPro => "monokai-pro"@,
            ThemeName::RosePine => "rose-pine"@,
            ThemeName::Kanagawa => "kanagawa"@,
            ThemeName::Everforest => "everforest"@,
            ThemeName::Cyberpunk => "cyberpunk"@,
        }
    }

    /// The place of a theme in the catalog, counted from zero.
    pub open spec fn position(self) -> int {
        match self {
            ThemeName::Dracula => 0,
            ThemeName::OneDarkPro => 1,
            ThemeName::Nord => 2,
            ThemeName::CatppuccinMocha => 3,
            ThemeName::CatppuccinLatte => 4,
            ThemeName::GruvboxDark => 5,
            ThemeName::GruvboxLight => 6,
            ThemeName::TokyoNight => 7,
            ThemeName::SolarizedDark => 8,
            ThemeName::SolarizedLight => 9,
            ThemeName::MonokaiPro => 10,
            ThemeName::RosePine => 11,
            ThemeName::Kanagawa => 12,
            ThemeName::Everforest => 13,
            ThemeName::Cyberpunk => 14,
        }
    }

    /// The theme one place further in the catalog; the first follows the
    /// last.
    pub open spec fn successor(self) -> ThemeName {
        Self::catalog()[(self.position() + 1) % 15]
    }

    /// The theme one place back in the catalog; the last precedes the
    /// first.
    pub open spec fn predecessor(self) -> ThemeName {
        Self::catalog()[(self.position() + 14) % 15]
    }

    /// The theme reached by moving `steps` places forward, one at a time.
    pub open spec fn after(self, steps: nat) -> ThemeName
        decreases steps,
    {
        if steps == 0 {
            self
        } else {
            self.after((steps - 1) as nat).successor()
        }
    }

    /// The theme reached by moving `steps` places back, one at a time.
    pub open spec fn before(self, steps: nat) -> ThemeName
        decreases steps,
    {
        if steps == 0 {
            self
        } else {
            self.before((steps - 1) as nat).predecessor()
        }
    }

    /// The palette of each theme.
    pub open spec fn colors(self) -> ThemePalette {
        match self {
            ThemeName::Dracula => ThemePalette {
                accent: Color::Rgb(189, 147, 249),
                secondary: Color::Rgb(255, 121, 198),
                bg: Color::Rgb(40, 42, 54),
                fg: Color::Rgb(248, 248, 242),
                muted: Color::Rgb(98, 114, 164),
                selection: Color::Rgb(68, 71, 90),
                error: Color::Rgb(255, 85, 85),
                warning: Color::Rgb(255, 184, 108),
                success: Color::Rgb(80, 250, 123),
                info: Color::Rgb(139, 233, 253),
            },
            ThemeName::OneDarkPro => ThemePalette {
                accent: Color::Rgb(97, 175, 239),
                secondary: Color::Rgb(198, 120, 221),
                bg: Color::Rgb(40, 44, 52),
                fg: Color::Rgb(171, 178, 191),
                muted: Color::Rgb(92, 99, 112),
                selection: Color::Rgb(62, 68, 81),
                error: Color::Rgb(224, 108, 117),
                warning: Color::Rgb(229, 192, 123),
                success: Color::Rgb(152, 195, 121),
                info: Color::Rgb(86, 182, 194),
            },
            ThemeName::Nord => ThemePalette {
                accent: Color::Rgb(136, 192, 208),
                secondary: Color::Rgb(129, 161, 193),
                bg: Color::Rgb(46, 52, 64),
                fg: Color::Rgb(236, 239, 244),
                muted: Color::Rgb(76, 86, 106),
                selection: Color::Rgb(67, 76, 94),
                error: Color::Rgb(191, 97, 106),
                warning: Color::Rgb(235, 203, 139),
                success: Color::Rgb(163, 190, 140),
                info: Color::Rgb(94, 129, 172),
            },
            ThemeName::CatppuccinMocha => ThemePalette {
                accent: Color::Rgb(137, 180, 250),
                secondary: Color::Rgb(245, 194, 231),
                bg: Color::Rgb(30, 30, 46),
                fg: Color::Rgb(205, 214, 244),
                muted: Color::Rgb(108, 112, 134),
                selection: Color::Rgb(49, 50, 68),
                error: Color::Rgb(243, 139, 168),
                warning: Color::Rgb(249, 226, 175),
                success: Color::Rgb(166, 227, 161),
                info: Color::Rgb(148, 226, 213),
            },
            ThemeName::CatppuccinLatte => ThemePalette {
                accent: Color::Rgb(30, 102, 245),
                secondary: Color::Rgb(234, 118, 203),
                bg: Color::Rgb(239, 241, 245),
                fg: Color::Rgb(76, 79, 105),
                muted: Color::Rgb(140, 143, 161),
                selection: Color::Rgb(204, 208, 218),
                error: Color::Rgb(210, 15, 57),
                warning: Color::Rgb(223, 142, 29),
                success: Color::Rgb(64, 160, 43),
                info: Color::Rgb(23, 146, 153),
            },
            ThemeName::GruvboxDark => ThemePalette {
                accent: Color::Rgb(250, 189, 47),
                secondary: Color::Rgb(211, 134, 155),
                bg: Color::Rgb(40, 40, 40),
                fg: Color::Rgb(235, 219, 178),
                muted: Color::Rgb(146, 131, 116),
                selection: Color::Rgb(80, 73, 69),
                error: Color::Rgb(251, 73, 52),
                warning: Color::Rgb(254, 128, 25),
                success: Color::Rgb(184, 187, 38),
                info: Color::Rgb(131, 165, 152),
            },
            ThemeName::GruvboxLight => ThemePalette {
                accent: Color::Rgb(181, 118, 20),
                secondary: Color::Rgb(143, 63, 113),
                bg: Color::Rgb(251, 241, 199),
                fg: Color::Rgb(60, 56, 54),
                muted: Color::Rgb(146, 131, 116),
                selection: Color::Rgb(213, 196, 161),
                error: Color::Rgb(157, 0, 6),
                warning: Color::Rgb(175, 58, 3),
                success: Color::Rgb(121, 116, 14),
                info: Color::Rgb(66, 123, 88),
            },
            ThemeName::TokyoNight => ThemePalette {
                accent: Color::Rgb(122, 162, 247),
                secondary: Color::Rgb(187, 154, 247),
                bg: Color::Rgb(26, 27, 38),
                fg: Color::Rgb(192, 202, 245),
                muted: Color::Rgb(86, 95, 137),
                selection: Color::Rgb(41, 46, 66),
                error: Color::Rgb(247, 118, 142),
                warning: Color::Rgb(224, 175, 104),
                success: Color::Rgb(158, 206, 106),
                info: Color::Rgb(125, 207, 255),
            },
            ThemeName::SolarizedDark => ThemePalette {
                accent: Color::Rgb(38, 139, 210),
                secondary: Color::Rgb(108, 113, 196),
                bg: Color::Rgb(0, 43, 54),
                fg: Color::Rgb(131, 148, 150),
                muted: Color::Rgb(88, 110, 117),
                selection: Color::Rgb(7, 54, 66),
                error: Color::Rgb(220, 50, 47),
                warning: Color::Rgb(181, 137, 0),
                success: Color::Rgb(133, 153, 0),
                info: Color::Rgb(42, 161, 152),
            },
            ThemeName::SolarizedLight => ThemePalette {
                accent: Color::Rgb(38, 139, 210),
                secondary: Color::Rgb(108, 113, 196),
                bg: Color::Rgb(253, 246, 227),
                fg: Color::Rgb(101, 123, 131),
                muted: Color::Rgb(147, 161, 161),
                selection: Color::Rgb(238, 232, 213),
                error: Color::Rgb(220, 50, 47),
                warning: Color::Rgb(181, 137, 0),
                success: Color::Rgb(133, 153, 0),
                info: Color::Rgb(42, 161, 152),
            },
            ThemeName::MonokaiPro => ThemePalette {
                accent: Color::Rgb(255, 216, 102),
                secondary: Color::Rgb(171, 157, 242),
                bg: Color::Rgb(45, 42, 46),
                fg: Color::Rgb(252, 252, 250),
                muted: Color::Rgb(114, 113, 105),
                selection: Color::Rgb(81, 80, 79),
                error: Color::Rgb(255, 97, 136),
                warning: Color::Rgb(252, 152, 103),
                success: Color::Rgb(169, 220, 118),
                info: Color::Rgb(120, 220, 232),
            },
            ThemeName::RosePine => ThemePalette {
                accent: Color::Rgb(235, 188, 186),
                secondary: Color::Rgb(196, 167, 231),
                bg: Color::Rgb(25, 23, 36),
                fg: Color::Rgb(224, 222, 244),
                muted: Color::Rgb(110, 106, 134),
                selection: Color::Rgb(38, 35, 58),
                error: Color::Rgb(235, 111, 146),
                warning: Color::Rgb(246, 193, 119),
                success: Color::Rgb(156, 207, 216),
                info: Color::Rgb(49, 116, 143),
            },
            ThemeName::Kanagawa => ThemePalette {
                accent: Color::Rgb(127, 180, 202),
                secondary: Color::Rgb(149, 127, 184),
                bg: Color::Rgb(31, 31, 40),
                fg: Color::Rgb(220, 215, 186),
                muted: Color::Rgb(84, 84, 109),
                selection: Color::Rgb(54, 54, 70),
                error: Color::Rgb(195, 64, 67),
                warning: Color::Rgb(255, 169, 107),
                success: Color::Rgb(118, 148, 106),
                info: Color::Rgb(126, 156, 216),
            },
            ThemeName::Everforest => ThemePalette {
                accent: Color::Rgb(131, 193, 120),
                secondary: Color::Rgb(214, 153, 182),
                bg: Color::Rgb(47, 53, 55),
                fg: Color::Rgb(211, 198, 170),
                muted: Color::Rgb(133, 146, 137),
                selection: Color::Rgb(68, 78, 79),
                error: Color::Rgb(230, 126, 128),
                warning: Color::Rgb(219, 188, 127),
                success: Color::Rgb(167, 192, 128),
                info: Color::Rgb(124, 195, 191),
            },
            ThemeName::Cyberpunk => ThemePalette {
                accent: Color::Rgb(0, 255, 255),
                secondary: Color::Rgb(255, 0, 255),
                bg: Color::Rgb(13, 2, 33),
                fg: Color::Rgb(240, 240, 240),
                muted: Color::Rgb(100, 100, 140),
                selection: Color::Rgb(40, 20, 80),
                error: Color::Rgb(255, 0, 60),
                warning: Color::Rgb(255, 230, 0),
                success: Color::Rgb(0, 255, 100),
                info: Color::Rgb(0, 180, 255),
            },
        }
    }

    /// Every theme, in catalog order.
    #[must_use]
    pub fn all() -> (themes: &'static [ThemeName])
        ensures
            themes@ == Self::catalog(),
            themes@.len() == 15,
            themes@.no_duplicates(),
            forall|name: ThemeName| themes@.contains(name),
    {
        proof {
            catalog_lists_every_theme_once();
        }
        &[
            ThemeName::Dracula,
            ThemeName::OneDarkPro,
            ThemeName::Nord,
            ThemeName::CatppuccinMocha,
            ThemeName::CatppuccinLatte,
            ThemeName::GruvboxDark,
            ThemeName::GruvboxLight,
            ThemeName::TokyoNight,
            ThemeName::SolarizedDark,
            ThemeName::SolarizedLight,
            ThemeName::MonokaiPro,
            ThemeName::RosePine,
            ThemeName::Kanagawa,
            ThemeName::Everforest,
            ThemeName::Cyberpunk,
        ]
    }

    /// The human-readable name of the theme.
    #[must_use]
    pub fn display_name(self) -> (name: &'static str)
        ensures
            name@ == self.display_text(),
    {
        match self {
            ThemeName::Dracula => "Dracula",
            ThemeName::OneDarkPro => "One Dark Pro",
            ThemeName::Nord => "Nord",
            ThemeName::CatppuccinMocha => "Catppuccin Mocha",
            ThemeName::CatppuccinLatte => "Catppuccin Latte",
            ThemeName::GruvboxDark => "Gruvbox Dark",
            ThemeName::GruvboxLight => "Gruvbox Light",
            ThemeName::TokyoNight => "Tokyo Night",
            ThemeName::SolarizedDark => "Solarized Dark",
            ThemeName::SolarizedLight => "Solarized Light",
            ThemeName::MonokaiPro => "Monokai Pro",
            ThemeName::RosePine => "Rosé Pine",
            ThemeName::Kanagawa => "Kanagawa",
            ThemeName::Everforest => "Everforest",
            ThemeName::Cyberpunk => "Cyberpunk",
        }
    }
    /// The slug of the theme: its stable, lowercase, hyphen-separated
    /// identifier.
    #[must_use]
    pub fn slug(self) -> (slug: &'static str)
        ensures
            slug@ == self.slug_text(),
    {
        match self {
            ThemeName::Dracula => "dracula",
            ThemeName::OneDarkPro => "one-dark-pro",
            ThemeName::Nord => "nord",
            ThemeName::CatppuccinMocha => "catppuccin-mocha",
            ThemeName::CatppuccinLatte => "catppuccin-latte",
            ThemeName::GruvboxDark => "gruvbox-dark",
            ThemeName::GruvboxLight => "gruvbox-light",
            ThemeName::TokyoNight => "tokyo-night",
            ThemeName::SolarizedDark => "solarized-dark",
            ThemeName::SolarizedLight => "solarized-light",
            ThemeName::MonokaiPro => "monokai-pro",
            ThemeName::RosePine => "rose-pine",
            ThemeName::Kanagawa => "kanagawa",
            ThemeName::Everforest => "everforest",
            ThemeName::Cyberpunk => "cyberpunk",
        }
    }

    /// The display name as an owned string.
    #[must_use]
    pub fn to_string(&self) -> (text: String)
        ensures
            text@ == self.display_text(),
    {
        self.display_name().to_owned()
    }

    /// The next theme in the catalog, wrapping around at the end.
    #[must_use]
    pub fn next(self) -> (following: ThemeName)
        ensures
            following == self.successor(),
    {
        let themes = Self::all();
        let current: usize = match first_index_of(themes, self) {
            Some(found) => found,
            None => 0,
        };
        themes[(current + 1) % themes.len()]
    }

    /// The previous theme in the catalog, wrapping around at the beginning.
    #[must_use]
    pub fn prev(self) -> (preceding: ThemeName)
        ensures
            preceding == self.predecessor(),
    {
        let themes = Self::all();
        let current: usize = match first_index_of(themes, self) {
            Some(found) => found,
            None => 0,
        };
        themes[(current + themes.len() - 1) % themes.len()]
    }

    /// The palette of the theme.
    #[must_use]
    pub fn palette(self) -> (palette: ThemePalette)
        ensures
            palette == self.colors(),
            palette.well_formed(),
    {
        match self {
            ThemeName::Dracula => ThemePalette {
                accent: Color::Rgb(189, 147, 249),
                secondary: Color::Rgb(255, 121, 198),
                bg: Color::Rgb(40, 42, 54),
                fg: Color::Rgb(248, 248, 242),
                muted: Color::Rgb(98, 114, 164),
                selection: Color::Rgb(68, 71, 90),
                error: Color::Rgb(255, 85, 85),
                warning: Color::Rgb(255, 184, 108),
                success: Color::Rgb(80, 250, 123),
                info: Color::Rgb(139, 233, 253),
            },
            ThemeName::OneDarkPro => ThemePalette {
                accent: Color::Rgb(97, 175, 239),
                secondary: Color::Rgb(198, 120, 221),
                bg: Color::Rgb(40, 44, 52),
                fg: Color::Rgb(171, 178, 191),
                muted: Color::Rgb(92, 99, 112),
                selection: Color::Rgb(62, 68, 81),
                error: Color::Rgb(224, 108, 117),
                warning: Color::Rgb(229, 192, 123),
                success: Color::Rgb(152, 195, 121),
                info: Color::Rgb(86, 182, 194),
            },
            ThemeName::Nord => ThemePalette {
                accent: Color::Rgb(136, 192, 208),
                secondary: Color::Rgb(129, 161, 193),
                bg: Color::Rgb(46, 52, 64),
                fg: Color::Rgb(236, 239, 244),
                muted: Color::Rgb(76, 86, 106),
                selection: Color::Rgb(67, 76, 94),
                error: Color::Rgb(191, 97, 106),
                warning: Color::Rgb(235, 203, 139),
                success: Color::Rgb(163, 190, 140),
                info: Color::Rgb(94, 129, 172),
            },
            ThemeName::CatppuccinMocha => ThemePalette {
                accent: Color::Rgb(137, 180, 250),
                secondary: Color::Rgb(245, 194, 231),
                bg: Color::Rgb(30, 30, 46),
                fg: Color::Rgb(205, 214, 244),
                muted: Color::Rgb(108, 112, 134),
                selection: Color::Rgb(49, 50, 68),
                error: Color::Rgb(243, 139, 168),
                warning: Color::Rgb(249, 226, 175),
                success: Color::Rgb(166, 227, 161),
                info: Color::Rgb(148, 226, 213),
            },
            ThemeName::CatppuccinLatte => ThemePalette {
                accent: Color::Rgb(30, 102, 245),
                secondary: Color::Rgb(234, 118, 203),
                bg: Color::Rgb(239, 241, 245),
                fg: Color::Rgb(76, 79, 105),
                muted: Color::Rgb(140, 143, 161),
                selection: Color::Rgb(204, 208, 218),
                error: Color::Rgb(210, 15, 57),
                warning: Color::Rgb(223, 142, 29),
                success: Color::Rgb(64, 160, 43),
                info: Color::Rgb(23, 146, 153),
            },
            ThemeName::GruvboxDark => ThemePalette {
                accent: Color::Rgb(250, 189, 47),
                secondary: Color::Rgb(211, 134, 155),
                bg: Color::Rgb(40, 40, 40),
                fg: Color::Rgb(235, 219, 178),
                muted: Color::Rgb(146, 131, 116),
                selection: Color::Rgb(80, 73, 69),
                error: Color::Rgb(251, 73, 52),
                warning: Color::Rgb(254, 128, 25),
                success: Color::Rgb(184, 187, 38),
                info: Color::Rgb(131, 165, 152),
            },
            ThemeName::GruvboxLight => ThemePalette {
                accent: Color::Rgb(181, 118, 20),
                secondary: Color::Rgb(143, 63, 113),
                bg: Color::Rgb(251, 241, 199),
                fg: Color::Rgb(60, 56, 54),
                muted: Color::Rgb(146, 131, 116),
                selection: Color::Rgb(213, 196, 161),
                error: Color::Rgb(157, 0, 6),
                warning: Color::Rgb(175, 58, 3),
                success: Color::Rgb(121, 116, 14),
                info: Color::Rgb(66, 123, 88),
            },
            ThemeName::TokyoNight => ThemePalette {
                accent: Color::Rgb(122, 162, 247),
                secondary: Color::Rgb(187, 154, 247),
                bg: Color::Rgb(26, 27, 38),
                fg: Color::Rgb(192, 202, 245),
                muted: Color::Rgb(86, 95, 137),
                selection: Color::Rgb(41, 46, 66),
                error: Color::Rgb(247, 118, 142),
                warning: Color::Rgb(224, 175, 104),
                success: Color::Rgb(158, 206, 106),
                info: Color::Rgb(125, 207, 255),
            },
            ThemeName::SolarizedDark => ThemePalette {
                accent: Color::Rgb(38, 139, 210),
                secondary: Color::Rgb(108, 113, 196),
                bg: Color::Rgb(0, 43, 54),
                fg: Color::Rgb(131, 148, 150),
                muted: Color::Rgb(88, 110, 117),
                selection: Color::Rgb(7, 54, 66),
                error: Color::Rgb(220, 50, 47),
                warning: Color::Rgb(181, 137, 0),
                success: Color::Rgb(133, 153, 0),
                info: Color::Rgb(42, 161, 152),
            },
            ThemeName::SolarizedLight => ThemePalette {
                accent: Color::Rgb(38, 139, 210),
                secondary: Color::Rgb(108, 113, 196),
                bg: Color::Rgb(253, 246, 227),
                fg: Color::Rgb(101, 123, 131),
                muted: Color::Rgb(147, 161, 161),
                selection: Color::Rgb(238, 232, 213),
                error: Color::Rgb(220, 50, 47),
                warning: Color::Rgb(181, 137, 0),
                success: Color::Rgb(133, 153, 0),
                info: Color::Rgb(42, 161, 152),
            },
            ThemeName::MonokaiPro => ThemePalette {
                accent: Color::Rgb(255, 216, 102),
                secondary: Color::Rgb(171, 157, 242),
                bg: Color::Rgb(45, 42, 46),
                fg: Color::Rgb(252, 252, 250),
                muted: Color::Rgb(114, 113, 105),
                selection: Color::Rgb(81, 80, 79),
                error: Color::Rgb(255, 97, 136),
                warning: Color::Rgb(252, 152, 103),
                success: Color::Rgb(169, 220, 118),
                info: Color::Rgb(120, 220, 232),
            },
            ThemeName::RosePine => ThemePalette {
                accent: Color::Rgb(235, 188, 186),
                secondary: Color::Rgb(196, 167, 231),
                bg: Color::Rgb(25, 23, 36),
                fg: Color::Rgb(224, 222, 244),
                muted: Color::Rgb(110, 106, 134),
                selection: Color::Rgb(38, 35, 58),
                error: Color::Rgb(235, 111, 146),
                warning: Color::Rgb(246, 193, 119),
                success: Color::Rgb(156, 207, 216),
                info: Color::Rgb(49, 116, 143),
            },
            ThemeName::Kanagawa => ThemePalette {
                accent: Color::Rgb(127, 180, 202),
                secondary: Color::Rgb(149, 127, 184),
                bg: Color::Rgb(31, 31, 40),
                fg: Color::Rgb(220, 215, 186),
                muted: Color::Rgb(84, 84, 109),
                selection: Color::Rgb(54, 54, 70),
                error: Color::Rgb(195, 64, 67),
                warning: Color::Rgb(255, 169, 107),
                success: Color::Rgb(118, 148, 106),
                info: Color::Rgb(126, 156, 216),
            },
            ThemeName::Everforest => ThemePalette {
                accent: Color::Rgb(131, 193, 120),
                secondary: Color::Rgb(214, 153, 182),
                bg: Color::Rgb(47, 53, 55),
                fg: Color::Rgb(211, 198, 170),
                muted: Color::Rgb(133, 146, 137),
                selection: Color::Rgb(68, 78, 79),
                error: Color::Rgb(230, 126, 128),
                warning: Color::Rgb(219, 188, 127),
                success: Color::Rgb(167, 192, 128),
                info: Color::Rgb(124, 195, 191),
            },
            ThemeName::Cyberpunk => ThemePalette {
                accent: Color::Rgb(0, 255, 255),
                secondary: Color::Rgb(255, 0, 255),
                bg: Color::Rgb(13, 2, 33),
                fg: Color::Rgb(240, 240, 240),
                muted: Color::Rgb(100, 100, 140),
                selection: Color::Rgb(40, 20, 80),
                error: Color::Rgb(255, 0, 60),
                warning: Color::Rgb(255, 230, 0),
                success: Color::Rgb(0, 255, 100),
                info: Color::Rgb(0, 180, 255),
            },
        }
    }
}

/// The first index at which `wanted` stands in `themes`, if it stands there
/// at all.
fn first_index_of(themes: &[ThemeName], wanted: ThemeName) -> (found: Option<usize>)
    ensures
        match found {
            Some(at) => {
                &&& at < themes@.len()
                &&& themes@[at as int] == wanted
                &&& forall|earlier: int| 0 <= earlier < at ==> themes@[earlier] != wanted
            },
            None => forall|any: int| 0 <= any < themes@.len() ==> themes@[any] != wanted,
        },
{
    let mut at: usize = 0;
    while at < themes.len()
        invariant
            at <= themes@.len(),
            forall|earlier: int| 0 <= earlier < at ==> themes@[earlier] != wanted,
        decreases themes@.len() - at,
    {
        if themes[at] == wanted {
            return Some(at);
        }
        at += 1;
    }
    None
}

impl Default for ThemeName {
    /// The default theme is Dracula, the first of the catalog.
    fn default() -> (name: ThemeName)
        ensures
            name == ThemeName::Dracula,
    {
        ThemeName::Dracula
    }
}

/// The currently selected theme: a cursor over the catalog.
#[derive(Debug, Clone, Copy, PartialEq, Eq, Structural)]
pub struct Theme {
    /// The selected theme.
    pub name: ThemeName,
}

impl Theme {
    /// A cursor that stands on `name`.
    #[must_use]
    pub fn new(name: ThemeName) -> (theme: Theme)
        ensures
            theme.name == name,
    {
        Theme { name }
    }

    /// The palette of the selected theme.
    #[must_use]
    pub fn palette(&self) -> (palette: ThemePalette)
        ensures
            palette == self.name.colors(),
            palette.well_formed(),
    {
        self.name.palette()
    }

    /// Whether the selected theme is light.
    #[must_use]
    pub fn is_light(&self) -> (light: bool)
        ensures
            light == self.name.colors().light(),
    {
        self.palette().is_light()
    }

    /// Whether the selected theme is dark.
    #[must_use]
    pub fn is_dark(&self) -> (dark: bool)
        ensures
            dark == !self.name.colors().light(),
    {
        self.palette().is_dark()
    }

    /// Moves to the next theme of the catalog, wrapping around at the end.
    pub fn next(&mut self)
        ensures
            final(self).name == old(self).name.successor(),
    {
        self.name = self.name.next();
    }

    /// Moves to the previous theme of the catalog, wrapping around at the
    /// beginning.
    pub fn prev(&mut self)
        ensures
            final(self).name == old(self).name.predecessor(),
    {
        self.name = self.name.prev();
    }

    /// The display name of the selected theme as an owned string.
    #[must_use]
    pub fn to_string(&self) -> (text: String)
        ensures
            text@ == self.name.display_text(),
    {
        self.name.to_string()
    }
}

impl Default for Theme {
    /// The default cursor stands on the default theme.
    fn default() -> (theme: Theme)
        ensures
            theme.name == ThemeName::Dracula,
    {
        Theme { name: ThemeName::Dracula }
    }
}

impl From<ThemeName> for Theme {
    fn from(name: ThemeName) -> (theme: Theme) {
        Theme::new(name)
    }
}

impl vstd::std_specs::convert::FromSpecImpl<ThemeName> for Theme {
    open spec fn obeys_from_spec() -> bool {
        true
    }

    open spec fn from_spec(name: ThemeName) -> Theme {
        Theme { name }
    }
}

} // verus!
