//! Reading a theme name from text.

use vstd::prelude::*;
use crate::error::UnknownTheme;
use crate::normalize::{normal_form, normalize};
use crate::theme::ThemeName;

verus! {

impl ThemeName {
    /// Whether `normal` is one of the spellings, in normal form, under
    /// which this theme is known: its full name or its shorthand.
    pub open spec fn answers_to(self, normal: Seq<char>) -> bool {
        match self {
            ThemeName::Dracula => normal == "dracula"@,
            ThemeName::OneDarkPro => normal == "onedarkpro"@ || normal == "onedark"@,
            ThemeName::Nord => normal == "nord"@,
            ThemeName::CatppuccinMocha => normal == "catppuccinmocha"@ || normal == "mocha"@,
            ThemeName::CatppuccinLatte => normal == "catppuccinlatte"@ || normal == "latte"@,
            ThemeName::GruvboxDark => normal == "gruvboxdark"@ || normal == "gruvbox"@,
            ThemeName::GruvboxLight => normal == "gruvboxlight"@,
            ThemeName::TokyoNight => normal == "tokyonight"@ || normal == "tokyo"@,
            ThemeName::SolarizedDark => normal == "solarizeddark"@ || normal == "solarized"@,
            ThemeName::SolarizedLight => normal == "solarizedlight"@,
            ThemeName::MonokaiPro => normal == "monokaipro"@ || normal == "monokai"@,
            ThemeName::RosePine => normal == "rosepine"@ || normal == "rose"@,
            ThemeName::Kanagawa => normal == "kanagawa"@,
            ThemeName::Everforest => normal == "everforest"@,
            ThemeName::Cyberpunk => normal == "cyberpunk"@,
        }
    }

    /// The theme that answers to a spelling in normal form, if one does.
    pub open spec fn named_by(normal: Seq<char>) -> Option<ThemeName> {
        if exists|theme: ThemeName| theme.answers_to(normal) {
            Some(choose|theme: ThemeName| theme.answers_to(normal))
        } else {
            None
        }
    }

    /// The theme that a text names: the one that answers to its normal
    /// form.
    pub open spec fn parsed_from(text: Seq<char>) -> Option<ThemeName> {
        Self::named_by(normal_form(text))
    }

    /// No spelling belongs to two themes.
    pub proof fn spellings_are_unambiguous(self, other: ThemeName, normal: Seq<char>)
        requires
            self.answers_to(normal),
            other.answers_to(normal),
        ensures
            self == other,
    {
        reveal_strlit("dracula");
        reveal_strlit("onedarkpro");
        reveal_strlit("onedark");
        reveal_strlit("nord");
        reveal_strlit("catppuccinmocha");
        reveal_strlit("mocha");
        reveal_strlit("catppuccinlatte");
        reveal_strlit("latte");
        reveal_strlit("gruvboxdark");
        reveal_strlit("gruvbox");
        reveal_strlit("gruvboxlight");
        reveal_strlit("tokyonight");
        reveal_strlit("tokyo");
        reveal_strlit("solarizeddark");
        reveal_strlit("solarized");
        reveal_strlit("solarizedlight");
        reveal_strlit("monokaipro");
        reveal_strlit("monokai");
        reveal_strlit("rosepine");
        reveal_strlit("rose");
        reveal_strlit("kanagawa");
        reveal_strlit("everforest");
        reveal_strlit("cyberpunk");
        // Two spellings of different themes differ in length, in their
        // first letter, or in their eleventh.
        assert(normal.len() > 0 && 'a' <= normal[0] <= 'z');
        assert(normal.len() > 10 ==> 'a' <= normal[10] <= 'z');
    }

    /// A spelling names a theme exactly when that theme answers to it.
    pub proof fn named_by_the_theme_that_answers(self, normal: Seq<char>)
        ensures
            Self::named_by(normal) == Some(self) <==> self.answers_to(normal),
    {
        if self.answers_to(normal) {
            let chosen = choose|theme: ThemeName| theme.answers_to(normal);
            self.spellings_are_unambiguous(chosen, normal);
        }
    }

    /// Looks a spelling in normal form up in the catalog.
    pub fn from_normal_form(normal: &[char]) -> (found: Option<ThemeName>)
        ensures
            found == Self::named_by(normal@),
    {
        let found = if spells(normal, "dracula") {
            Some(ThemeName::Dracula)
        } else if spells(normal, "onedarkpro") || spells(normal, "onedark") {
            Some(ThemeName::OneDarkPro)
        } else if spells(normal, "nord") {
            Some(ThemeName::Nord)
        } else if spells(normal, "catppuccinmocha") || spells(normal, "mocha") {
            Some(ThemeName::CatppuccinMocha)
        } else if spells(normal, "catppuccinlatte") || spells(normal, "latte") {
            Some(ThemeName::CatppuccinLatte)
        } else if spells(normal, "gruvboxdark") || spells(normal, "gruvbox") {
            Some(ThemeName::GruvboxDark)
        } else if spells(normal, "gruvboxlight") {
            Some(ThemeName::GruvboxLight)
        } else if spells(normal, "tokyonight") || spells(normal, "tokyo") {
            Some(ThemeName::TokyoNight)
        } else if spells(normal, "solarizeddark") || spells(normal, "solarized") {
            Some(ThemeName::SolarizedDark)
        } else if spells(normal, "solarizedlight") {
            Some(ThemeName::SolarizedLight)
        } else if spells(normal, "monokaipro") || spells(normal, "monokai") {
            Some(ThemeName::MonokaiPro)
        } else if spells(normal, "rosepine") || spells(normal, "rose") {
            Some(ThemeName::RosePine)
        } else if spells(normal, "kanagawa") {
            Some(ThemeName::Kanagawa)
        } else if spells(normal, "everforest") {
            Some(ThemeName::Everforest)
        } else if spells(normal, "cyberpunk") {
            Some(ThemeName::Cyberpunk)
        } else {
            None
        };
        proof {
            if let Some(theme) = found {
                theme.named_by_the_theme_that_answers(normal@);
            } else {
                assert forall|any: ThemeName| !any.answers_to(normal@) by {}
            }
        }
        found
    }

    /// Reads a theme name from text. The text is brought into normal form
    /// (lowercase, letters and digits only) and looked up among the full
    /// names and shorthands of the catalog. A text that names no theme is
    /// handed back in the error.
    pub fn parse(text: &str) -> (parsed: Result<ThemeName, UnknownTheme>)
        ensures
            match Self::parsed_from(text@) {
                Some(theme) => parsed == Ok::<ThemeName, UnknownTheme>(theme),
                None => parsed is Err && parsed->Err_0.input@ == text@,
            },
    {
        let normal = normalize(text);
        match Self::from_normal_form(normal.as_slice()) {
            Some(theme) => Ok(theme),
            None => Err(UnknownTheme { input: text.to_owned() }),
        }
    }
}

impl core::str::FromStr for ThemeName {
    type Err = String;

    /// Reads a theme name as [`ThemeName::parse`] does. A text that names
    /// no theme gives the message of [`UnknownTheme`]: a fixed heading
    /// followed by the text as it was given.
    fn from_str(text: &str) -> (read: Result<ThemeName, String>)
        ensures
            match ThemeName::parsed_from(text@) {
                Some(theme) => read == Ok::<ThemeName, String>(theme),
                None => read is Err && read->Err_0@ == "Unknown theme: "@ + text@,
            },
    {
        match ThemeName::parse(text) {
            Ok(theme) => Ok(theme),
            Err(unknown) => Err(unknown.message()),
        }
    }
}

/// Whether `chars` holds exactly the characters of `word`.
fn spells(chars: &[char], word: &str) -> (same: bool)
    ensures
        same == (chars@ == word@),
{
    let mut at: usize = 0;
    for c in it: word.chars()
        invariant
            it.seq() == word@,
            at == it.index(),
            at <= chars@.len(),
            forall|earlier: int| 0 <= earlier < at ==> chars@[earlier] == word@[earlier],
    {
        if at >= chars.len() || chars[at] != c {
            return false;
        }
        at += 1;
    }
    proof {
        if at == chars@.len() {
            assert(chars@ =~= word@);
        }
    }
    at == chars.len()
}

} // verus!
