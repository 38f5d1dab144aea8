use ratatui_themes::{Theme, ThemeName};

#[test]
fn test_all_themes_have_palettes() {
    for theme in ThemeName::all() {
        let palette = theme.palette();
        assert_ne!(palette.fg, palette.bg);
    }
}

#[test]
fn test_theme_cycling() {
    let mut theme = ThemeName::Dracula;
    let start = theme;

    for _ in 0..ThemeName::all().len() {
        theme = theme.next();
    }

    assert_eq!(theme, start);
}

#[test]
fn test_theme_cycling_backward() {
    let mut theme = ThemeName::Dracula;
    let start = theme;

    for _ in 0..ThemeName::all().len() {
        theme = theme.prev();
    }

    assert_eq!(theme, start);
}

#[test]
fn test_light_dark_detection() {
    assert!(ThemeName::CatppuccinLatte.palette().is_light());
    assert!(ThemeName::GruvboxLight.palette().is_light());
    assert!(ThemeName::SolarizedLight.palette().is_light());

    assert!(ThemeName::Dracula.palette().is_dark());
    assert!(ThemeName::Nord.palette().is_dark());
    assert!(ThemeName::TokyoNight.palette().is_dark());
}

#[test]
fn test_display_name() {
    assert_eq!(ThemeName::Dracula.display_name(), "Dracula");
    assert_eq!(ThemeName::TokyoNight.display_name(), "Tokyo Night");
    assert_eq!(
        ThemeName::CatppuccinMocha.display_name(),
        "Catppuccin Mocha"
    );
}

#[test]
fn test_theme_display_trait() {
    assert_eq!(ThemeName::Dracula.to_string(), "Dracula");
    assert_eq!(ThemeName::TokyoNight.to_string(), "Tokyo Night");
}

#[test]
fn test_theme_wrapper() {
    let mut theme = Theme::new(ThemeName::Dracula);
    assert_eq!(theme.name, ThemeName::Dracula);
    assert!(theme.is_dark());

    theme.next();
    assert_eq!(theme.name, ThemeName::OneDarkPro);

    theme.prev();
    assert_eq!(theme.name, ThemeName::Dracula);
}

#[test]
fn test_theme_from_name() {
    let theme: Theme = ThemeName::Nord.into();
    assert_eq!(theme.name, ThemeName::Nord);
}

#[test]
fn test_default_theme() {
    assert_eq!(ThemeName::default(), ThemeName::Dracula);
    assert_eq!(Theme::default().name, ThemeName::Dracula);
}

#[test]
fn test_theme_count() {
    assert_eq!(ThemeName::all().len(), 15);
}

#[test]
fn catalog_is_in_the_documented_order() {
    let expected = [
        ThemeName::Dracula,
        ThemeName::OneDarkPro,
        ThemeName::Nord,
        ThemeName::CatppuccinMocha,
        ThemeName::CatppuccinLatte,
        ThemeName::GruvboxDark,
        ThemeName::GruvboxLight,
        ThemeName::TokyoNight,
        ThemeName::SolarizedDark,
        ThemeName::SolarizedLight,
        ThemeName::MonokaiPro,
        ThemeName::RosePine,
        ThemeName::Kanagawa,
        ThemeName::Everforest,
        ThemeName::Cyberpunk,
    ];
    assert_eq!(ThemeName::all(), &expected[..]);
}

#[test]
fn catalog_has_no_duplicates() {
    let all = ThemeName::all();
    for i in 0..all.len() {
        for j in 0..all.len() {
            if i != j {
                assert_ne!(all[i], all[j]);
            }
        }
    }
}

#[test]
fn next_follows_the_catalog_and_wraps() {
    let all = ThemeName::all();
    for i in 0..all.len() {
        assert_eq!(all[i].next(), all[(i + 1) % 15]);
    }
    assert_eq!(ThemeName::Dracula.next(), ThemeName::OneDarkPro);
    assert_eq!(ThemeName::Cyberpunk.next(), ThemeName::Dracula);
}

#[test]
fn prev_follows_the_catalog_and_wraps() {
    let all = ThemeName::all();
    for i in 0..all.len() {
        assert_eq!(all[i].prev(), all[(i + 14) % 15]);
    }
    assert_eq!(ThemeName::OneDarkPro.prev(), ThemeName::Dracula);
    assert_eq!(ThemeName::Dracula.prev(), ThemeName::Cyberpunk);
}

#[test]
fn next_and_prev_undo_each_other() {
    for theme in ThemeName::all() {
        assert_eq!(theme.next().prev(), *theme);
        assert_eq!(theme.prev().next(), *theme);
    }
}

#[test]
fn fifteen_steps_return_from_every_theme() {
    for start in ThemeName::all() {
        let mut forward = *start;
        let mut backward = *start;
        for step in 1..=15 {
            forward = forward.next();
            backward = backward.prev();
            if step < 15 {
                assert_ne!(forward, *start);
                assert_ne!(backward, *start);
            }
        }
        assert_eq!(forward, *start);
        assert_eq!(backward, *start);
    }
}

#[test]
fn display_names_of_all_themes() {
    let names: Vec<&str> = ThemeName::all().iter().map(|t| t.display_name()).collect();
    assert_eq!(
        names,
        vec![
            "Dracula",
            "One Dark Pro",
            "Nord",
            "Catppuccin Mocha",
            "Catppuccin Latte",
            "Gruvbox Dark",
            "Gruvbox Light",
            "Tokyo Night",
            "Solarized Dark",
            "Solarized Light",
            "Monokai Pro",
            "Rosé Pine",
            "Kanagawa",
            "Everforest",
            "Cyberpunk",
        ]
    );
}

#[test]
fn slugs_of_all_themes() {
    let slugs: Vec<&str> = ThemeName::all().iter().map(|t| t.slug()).collect();
    assert_eq!(
        slugs,
        vec![
            "dracula",
            "one-dark-pro",
            "nord",
            "catppuccin-mocha",
            "catppuccin-latte",
            "gruvbox-dark",
            "gruvbox-light",
            "tokyo-night",
            "solarized-dark",
            "solarized-light",
            "monokai-pro",
            "rose-pine",
            "kanagawa",
            "everforest",
            "cyberpunk",
        ]
    );
}

#[test]
fn cursor_walks_from_the_default() {
    let mut cursor = Theme::default();
    assert_eq!(cursor.name, ThemeName::Dracula);

    cursor.next();
    assert_eq!(cursor.name, ThemeName::OneDarkPro);
    assert_eq!(cursor.name.display_name(), "One Dark Pro");
    assert_eq!(cursor.name.slug(), "one-dark-pro");
    assert_eq!(cursor.to_string(), "One Dark Pro");

    cursor.prev();
    assert_eq!(cursor.name, ThemeName::Dracula);
}

#[test]
fn cursor_delegates_to_its_theme() {
    for name in ThemeName::all() {
        let cursor = Theme::new(*name);
        assert_eq!(cursor.palette(), name.palette());
        assert_eq!(cursor.is_light(), name.palette().is_light());
        assert_eq!(cursor.is_dark(), !cursor.is_light());
        assert_eq!(cursor.to_string(), name.display_name());
        assert_eq!(Theme::from(*name), cursor);
    }
}
