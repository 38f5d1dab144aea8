use ratatui_themes::normalize::normalize;
use ratatui_themes::{ThemeName, UnknownTheme};

fn chars(text: &str) -> Vec<char> {
    text.chars().collect()
}

#[test]
fn slug_round_trips_through_parse() {
    for theme in ThemeName::all() {
        assert_eq!(ThemeName::parse(theme.slug()), Ok(*theme));
    }
}

#[test]
fn parse_ignores_case_and_separators() {
    assert_eq!(ThemeName::parse("Tokyo Night"), Ok(ThemeName::TokyoNight));
    assert_eq!(ThemeName::parse("tokyo-night"), Ok(ThemeName::TokyoNight));
    assert_eq!(ThemeName::parse("TOKYONIGHT"), Ok(ThemeName::TokyoNight));
    assert_eq!(ThemeName::parse("tokyo_night"), Ok(ThemeName::TokyoNight));
    assert_eq!(ThemeName::parse("  ToKyO--NiGhT  "), Ok(ThemeName::TokyoNight));
}

#[test]
fn parse_rejects_an_unknown_name() {
    assert_eq!(
        ThemeName::parse("not-a-real-theme"),
        Err(UnknownTheme { input: "not-a-real-theme".to_string() })
    );
}

#[test]
fn parse_error_keeps_the_text_as_given() {
    assert_eq!(
        ThemeName::parse("  Not A Theme! "),
        Err(UnknownTheme { input: "  Not A Theme! ".to_string() })
    );
    assert_eq!(ThemeName::parse(""), Err(UnknownTheme { input: String::new() }));
    assert_eq!(ThemeName::parse("---"), Err(UnknownTheme { input: "---".to_string() }));
}

#[test]
fn parse_accepts_every_full_name_and_shorthand() {
    let table = [
        ("dracula", ThemeName::Dracula),
        ("onedarkpro", ThemeName::OneDarkPro),
        ("onedark", ThemeName::OneDarkPro),
        ("nord", ThemeName::Nord),
        ("catppuccinmocha", ThemeName::CatppuccinMocha),
        ("mocha", ThemeName::CatppuccinMocha),
        ("catppuccinlatte", ThemeName::CatppuccinLatte),
        ("latte", ThemeName::CatppuccinLatte),
        ("gruvboxdark", ThemeName::GruvboxDark),
        ("gruvbox", ThemeName::GruvboxDark),
        ("gruvboxlight", ThemeName::GruvboxLight),
        ("tokyonight", ThemeName::TokyoNight),
        ("tokyo", ThemeName::TokyoNight),
        ("solarizeddark", ThemeName::SolarizedDark),
        ("solarized", ThemeName::SolarizedDark),
        ("solarizedlight", ThemeName::SolarizedLight),
        ("monokaipro", ThemeName::MonokaiPro),
        ("monokai", ThemeName::MonokaiPro),
        ("rosepine", ThemeName::RosePine),
        ("rose", ThemeName::RosePine),
        ("kanagawa", ThemeName::Kanagawa),
        ("everforest", ThemeName::Everforest),
        ("cyberpunk", ThemeName::Cyberpunk),
    ];
    for (spelling, theme) in table {
        assert_eq!(ThemeName::parse(spelling), Ok(theme));
        assert_eq!(ThemeName::from_normal_form(&chars(spelling)), Some(theme));
        assert_eq!(ThemeName::parse(&spelling.to_uppercase()), Ok(theme));
    }
}

#[test]
fn parse_accepts_display_names_written_in_ascii() {
    for theme in ThemeName::all() {
        if *theme != ThemeName::RosePine {
            assert_eq!(ThemeName::parse(theme.display_name()), Ok(*theme));
        }
    }
    assert_eq!(ThemeName::parse("Rose Pine"), Ok(ThemeName::RosePine));
}

#[test]
fn parse_keeps_letters_outside_ascii() {
    // The accented letter is a letter: it stays, and the name is unknown.
    assert_eq!(
        ThemeName::parse("Rosé Pine"),
        Err(UnknownTheme { input: "Rosé Pine".to_string() })
    );
}

#[test]
fn parse_rejects_near_misses() {
    for text in ["dracul", "draculaa", "nor", "light", "dark", "catppuccin", "pine", "pro", "one"] {
        assert_eq!(ThemeName::parse(text), Err(UnknownTheme { input: text.to_string() }));
    }
}

#[test]
fn from_normal_form_matches_exactly() {
    assert_eq!(ThemeName::from_normal_form(&chars("mocha")), Some(ThemeName::CatppuccinMocha));
    assert_eq!(ThemeName::from_normal_form(&chars("Mocha")), None);
    assert_eq!(ThemeName::from_normal_form(&chars("tokyo-night")), None);
    assert_eq!(ThemeName::from_normal_form(&chars("tokyonigh")), None);
    assert_eq!(ThemeName::from_normal_form(&chars("tokyonights")), None);
    assert_eq!(ThemeName::from_normal_form(&[]), None);
}

#[test]
fn normalize_lowers_and_keeps_letters_and_digits() {
    assert_eq!(normalize("Tokyo Night"), chars("tokyonight"));
    assert_eq!(normalize("one-dark_pro"), chars("onedarkpro"));
    assert_eq!(normalize("ABC xyz 019 !?"), chars("abcxyz019"));
    assert_eq!(normalize(""), chars(""));
    assert_eq!(normalize(" -_.,;:/\\|'\"()[]{}<>@#$%^&*+=~`"), chars(""));
}

#[test]
fn normalize_on_every_ascii_character() {
    for code in 0u8..128 {
        let c = char::from(code);
        let expected: Vec<char> = match c {
            'a'..='z' | '0'..='9' => vec![c],
            'A'..='Z' => vec![char::from(code + 32)],
            _ => vec![],
        };
        assert_eq!(normalize(&c.to_string()), expected);
    }
}

#[test]
fn normalize_ascii_text_piece_by_piece() {
    let (a, b) = ("Solarized", "LIGHT 2");
    let mut joined = normalize(a);
    joined.extend(normalize(b));
    assert_eq!(normalize("SolarizedLIGHT 2"), joined);
    assert_eq!(normalize("Solarized-LIGHT 2"), joined);
    assert_eq!(normalize("sOLARIZED_light+2"), joined);
    assert_eq!(joined, chars("solarizedlight2"));
}

#[test]
fn normalize_follows_unicode_outside_ascii() {
    assert_eq!(normalize("ROSÉ"), chars("rosé"));
    assert_eq!(normalize("Ünï-cødé"), chars("ünïcødé"));
    // The Kelvin sign is a capital letter whose small form is the ASCII k.
    assert_eq!(normalize("To\u{212A}yo"), chars("tokyo"));
    assert_eq!(ThemeName::parse("To\u{212A}yo"), Ok(ThemeName::TokyoNight));
    // Digits of other scripts are kept.
    assert_eq!(normalize("٣-7"), chars("٣7"));
}

#[test]
fn from_str_reads_theme_names() {
    assert_eq!("tokyo-night".parse::<ThemeName>(), Ok(ThemeName::TokyoNight));
    assert_eq!("Tokyo Night".parse::<ThemeName>(), Ok(ThemeName::TokyoNight));
    assert_eq!("dracula".parse::<ThemeName>(), Ok(ThemeName::Dracula));
    assert_eq!(
        "not-a-real-theme".parse::<ThemeName>(),
        Err("Unknown theme: not-a-real-theme".to_string())
    );
}

#[test]
fn unknown_theme_message_names_the_input() {
    let unknown = UnknownTheme { input: "Neon Dreams".to_string() };
    assert_eq!(unknown.message(), "Unknown theme: Neon Dreams");
    let empty = UnknownTheme { input: String::new() };
    assert_eq!(empty.message(), "Unknown theme: ");
}
