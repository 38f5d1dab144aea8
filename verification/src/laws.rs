//! What holds of the catalog as a whole.

use vstd::prelude::*;
use crate::normalize::{
    alike, all_ascii, ascii_alphanumeric, is_ascii_char, is_plain, normal_form,
    normal_form_ignores_ascii_separator, normal_form_of_alike_ascii_texts,
    normal_form_of_plain_text,
};
use crate::theme::ThemeName;

verus! {

/// The catalog holds fifteen themes and each theme exactly once, at the
/// place that `position` gives.
pub proof fn catalog_lists_every_theme_once()
    ensures
        ThemeName::catalog().len() == 15,
        ThemeName::catalog().no_duplicates(),
        forall|name: ThemeName| ThemeName::catalog().contains(name),
        forall|name: ThemeName|
            0 <= #[trigger] name.position() < 15 && ThemeName::catalog()[name.position()] == name,
{
    let catalog = ThemeName::catalog();
    assert forall|name: ThemeName|
        0 <= #[trigger] name.position() < 15 && catalog[name.position()] == name by {}
    assert forall|name: ThemeName| catalog.contains(name) by {
        assert(catalog[name.position()] == name);
    }
    assert forall|i: int, j: int| 0 <= i < catalog.len() && 0 <= j < catalog.len() && i != j
        implies catalog[i] != catalog[j] by {
        assert(catalog[i].position() == i);
        assert(catalog[j].position() == j);
    }
}

/// Every palette of the catalog is well formed: its text color differs
/// from its background color.
pub proof fn foreground_differs_from_background(name: ThemeName)
    ensures
        name.colors().well_formed(),
        name.colors().fg != name.colors().bg,
{
}

/// Moving forward and moving back undo each other.
pub proof fn successor_and_predecessor_are_inverse(name: ThemeName)
    ensures
        name.successor().predecessor() == name,
        name.predecessor().successor() == name,
{
}

/// Moving `steps` places forward adds `steps` to the position, modulo
/// fifteen.
pub proof fn position_after(name: ThemeName, steps: nat)
    ensures
        name.after(steps).position() == (name.position() + steps) % 15,
    decreases steps,
{
    if steps > 0 {
        position_after(name, (steps - 1) as nat);
    }
}

/// Moving `steps` places back subtracts `steps` from the position, modulo
/// fifteen.
pub proof fn position_before(name: ThemeName, steps: nat)
    ensures
        name.before(steps).position() == (name.position() - steps) % 15,
    decreases steps,
{
    if steps > 0 {
        position_before(name, (steps - 1) as nat);
    }
}

/// Fifteen steps forward lead back to the theme they started from, and so
/// do fifteen steps back.
pub proof fn fifteen_steps_close_the_cycle(name: ThemeName)
    ensures
        name.after(15) == name,
        name.before(15) == name,
{
    position_after(name, 15);
    position_before(name, 15);
    catalog_lists_every_theme_once();
    assert(ThemeName::catalog()[name.after(15).position()] == name.after(15));
    assert(ThemeName::catalog()[name.before(15).position()] == name.before(15));
}

/// The slug of every theme parses back to that theme.
pub proof fn slug_parses_back(name: ThemeName)
    ensures
        ThemeName::parsed_from(name.slug_text()) == Some(name),
{
    let slug = name.slug_text();
    match name {
        ThemeName::Dracula => {
            reveal_strlit("dracula");
            normal_form_of_plain_text(slug);
        },
        ThemeName::OneDarkPro => {
            reveal_strlit("one-dark-pro");
            reveal_strlit("onedarkpro");
            let head = slug.take(3);
            let tail = slug.skip(4);
            assert(slug =~= head + seq!['-'] + tail);
            normal_form_ignores_ascii_separator(head, '-', tail);
            lemma_one_hyphen(head + tail, 7);
            assert((head + tail).take(7) + (head + tail).skip(8) =~= "onedarkpro"@);
        },
        ThemeName::Nord => {
            reveal_strlit("nord");
            normal_form_of_plain_text(slug);
        },
        ThemeName::CatppuccinMocha => {
            reveal_strlit("catppuccin-mocha");
            reveal_strlit("catppuccinmocha");
            lemma_one_hyphen(slug, 10);
            assert(slug.take(10) + slug.skip(11) =~= "catppuccinmocha"@);
        },
        ThemeName::CatppuccinLatte => {
            reveal_strlit("catppuccin-latte");
            reveal_strlit("catppuccinlatte");
            lemma_one_hyphen(slug, 10);
            assert(slug.take(10) + slug.skip(11) =~= "catppuccinlatte"@);
        },
        ThemeName::GruvboxDark => {
            reveal_strlit("gruvbox-dark");
            reveal_strlit("gruvboxdark");
            lemma_one_hyphen(slug, 7);
            assert(slug.take(7) + slug.skip(8) =~= "gruvboxdark"@);
        },
        ThemeName::GruvboxLight => {
            reveal_strlit("gruvbox-light");
            reveal_strlit("gruvboxlight");
            lemma_one_hyphen(slug, 7);
            assert(slug.take(7) + slug.skip(8) =~= "gruvboxlight"@);
        },
        ThemeName::TokyoNight => {
            reveal_strlit("tokyo-night");
            reveal_strlit("tokyonight");
            lemma_one_hyphen(slug, 5);
            assert(slug.take(5) + slug.skip(6) =~= "tokyonight"@);
        },
        ThemeName::SolarizedDark => {
            reveal_strlit("solarized-dark");
            reveal_strlit("solarizeddark");
            lemma_one_hyphen(slug, 9);
            assert(slug.take(9) + slug.skip(10) =~= "solarizeddark"@);
        },
        ThemeName::SolarizedLight => {
            reveal_strlit("solarized-light");
            reveal_strlit("solarizedlight");
            lemma_one_hyphen(slug, 9);
            assert(slug.take(9) + slug.skip(10) =~= "solarizedlight"@);
        },
        ThemeName::MonokaiPro => {
            reveal_strlit("monokai-pro");
            reveal_strlit("monokaipro");
            lemma_one_hyphen(slug, 7);
            assert(slug.take(7) + slug.skip(8) =~= "monokaipro"@);
        },
        ThemeName::RosePine => {
            reveal_strlit("rose-pine");
            reveal_strlit("rosepine");
            lemma_one_hyphen(slug, 4);
            assert(slug.take(4) + slug.skip(5) =~= "rosepine"@);
        },
        ThemeName::Kanagawa => {
            reveal_strlit("kanagawa");
            normal_form_of_plain_text(slug);
        },
        ThemeName::Everforest => {
            reveal_strlit("everforest");
            normal_form_of_plain_text(slug);
        },
        ThemeName::Cyberpunk => {
            reveal_strlit("cyberpunk");
            normal_form_of_plain_text(slug);
        },
    }
    name.named_by_the_theme_that_answers(normal_form(slug));
}

/// The display name of every theme parses back to that theme, but for the
/// one display name that is not written in ASCII: the accented letter of
/// "Rosé Pine" is a letter, so it stays in the normal form.
pub proof fn display_name_parses_back(name: ThemeName)
    requires
        name != ThemeName::RosePine,
    ensures
        ThemeName::parsed_from(name.display_text()) == Some(name),
{
    let shown = name.display_text();
    let slug = name.slug_text();
    match name {
        ThemeName::Dracula => {
            reveal_strlit("Dracula");
            reveal_strlit("dracula");
        },
        ThemeName::OneDarkPro => {
            reveal_strlit("One Dark Pro");
            reveal_strlit("one-dark-pro");
        },
        ThemeName::Nord => {
            reveal_strlit("Nord");
            reveal_strlit("nord");
        },
        ThemeName::CatppuccinMocha => {
            reveal_strlit("Catppuccin Mocha");
            reveal_strlit("catppuccin-mocha");
        },
        ThemeName::CatppuccinLatte => {
            reveal_strlit("Catppuccin Latte");
            reveal_strlit("catppuccin-latte");
        },
        ThemeName::GruvboxDark => {
            reveal_strlit("Gruvbox Dark");
            reveal_strlit("gruvbox-dark");
        },
        ThemeName::GruvboxLight => {
            reveal_strlit("Gruvbox Light");
            reveal_strlit("gruvbox-light");
        },
        ThemeName::TokyoNight => {
            reveal_strlit("Tokyo Night");
            reveal_strlit("tokyo-night");
        },
        ThemeName::SolarizedDark => {
            reveal_strlit("Solarized Dark");
            reveal_strlit("solarized-dark");
        },
        ThemeName::SolarizedLight => {
            reveal_strlit("Solarized Light");
            reveal_strlit("solarized-light");
        },
        ThemeName::MonokaiPro => {
            reveal_strlit("Monokai Pro");
            reveal_strlit("monokai-pro");
        },
        ThemeName::Kanagawa => {
            reveal_strlit("Kanagawa");
            reveal_strlit("kanagawa");
        },
        ThemeName::Everforest => {
            reveal_strlit("Everforest");
            reveal_strlit("everforest");
        },
        ThemeName::Cyberpunk => {
            reveal_strlit("Cyberpunk");
            reveal_strlit("cyberpunk");
        },
        ThemeName::RosePine => {},
    }
    assert(all_ascii(shown) && all_ascii(slug));
    assert(alike(shown, slug));
    normal_form_of_alike_ascii_texts(shown, slug);
    slug_parses_back(name);
}

/// Parsing ASCII text depends neither on the case of its letters nor on
/// which character separates them: texts that are alike name the same
/// theme, or both name none.
pub proof fn parse_of_alike_ascii_texts(a: Seq<char>, b: Seq<char>)
    requires
        all_ascii(a),
        all_ascii(b),
        alike(a, b),
    ensures
        ThemeName::parsed_from(a) == ThemeName::parsed_from(b),
{
    normal_form_of_alike_ascii_texts(a, b);
}

/// Parsing ASCII text ignores a separator: an ASCII character that is
/// neither a letter nor a digit can be put in or taken out anywhere.
pub proof fn parse_ignores_ascii_separator(a: Seq<char>, separator: char, b: Seq<char>)
    requires
        all_ascii(a),
        all_ascii(b),
        is_ascii_char(separator),
        !ascii_alphanumeric(separator),
    ensures
        ThemeName::parsed_from(a + seq![separator] + b) == ThemeName::parsed_from(a + b),
{
    normal_form_ignores_ascii_separator(a, separator, b);
}

/// The normal form of a slug with one hyphen is the slug without it.
proof fn lemma_one_hyphen(text: Seq<char>, hyphen: int)
    requires
        0 <= hyphen < text.len(),
        text[hyphen] == '-',
        forall|i: int| 0 <= i < text.len() && i != hyphen ==> is_plain(#[trigger] text[i]),
    ensures
        normal_form(text) == text.take(hyphen) + text.skip(hyphen + 1),
{
    let head = text.take(hyphen);
    let tail = text.skip(hyphen + 1);
    assert(text =~= head + seq!['-'] + tail);
    normal_form_of_plain_text(head);
    normal_form_of_plain_text(tail);
    normal_form_ignores_ascii_separator(head, '-', tail);
    normal_form_of_plain_text(head + tail);
}

} // verus!
