use ratatui_themes::widgets::{PickerContent, PickerLine};
use ratatui_themes::{ThemeName, ThemePicker};

fn line(label: &'static str, fg: Option<ratatui_themes::Color>, bg: Option<ratatui_themes::Color>) -> PickerLine {
    PickerLine { label, fg, bg }
}

#[test]
fn new_picker_has_no_title_and_no_instructions() {
    let content = ThemePicker::new(ThemeName::Nord).content();
    assert_eq!(content.title, None);
    assert_eq!(content.instructions, None);
}

#[test]
fn picker_keeps_title_and_instructions() {
    let content = ThemePicker::new(ThemeName::TokyoNight)
        .title("Theme Gallery")
        .instructions("Previous <Left> Next <Right> Quit <Q>")
        .content();
    assert_eq!(content.title, Some("Theme Gallery".to_string()));
    assert_eq!(
        content.instructions,
        Some("Previous <Left> Next <Right> Quit <Q>".to_string())
    );
}

#[test]
fn empty_text_removes_title_and_instructions() {
    let content = ThemePicker::new(ThemeName::TokyoNight)
        .title("Theme Gallery")
        .instructions("Quit <Q>")
        .title("")
        .instructions("")
        .content();
    assert_eq!(content.title, None);
    assert_eq!(content.instructions, None);
}

#[test]
fn setting_one_border_text_leaves_the_other() {
    let content = ThemePicker::new(ThemeName::Nord).title("Only a title").content();
    assert_eq!(content.title, Some("Only a title".to_string()));
    assert_eq!(content.instructions, None);

    let content = ThemePicker::new(ThemeName::Nord).instructions("Only a hint").content();
    assert_eq!(content.title, None);
    assert_eq!(content.instructions, Some("Only a hint".to_string()));
}

#[test]
fn picker_content_for_dracula() {
    let palette = ThemeName::Dracula.palette();
    let content = ThemePicker::new(ThemeName::Dracula).content();
    let expected = PickerContent {
        title: None,
        instructions: None,
        border: palette.muted,
        heading: palette.accent,
        lines: vec![
            line("Dracula", Some(palette.fg), None),
            line("  - accent", Some(palette.accent), None),
            line("  - secondary", Some(palette.secondary), None),
            line("  - bg (on fg)", Some(palette.bg), Some(palette.fg)),
            line("  - fg (on bg)", Some(palette.fg), Some(palette.bg)),
            line("  - muted", Some(palette.muted), None),
            line("  - selection (as bg)", None, Some(palette.selection)),
            line("  - error", Some(palette.error), None),
            line("  - warning", Some(palette.warning), None),
            line("  - success", Some(palette.success), None),
            line("  - info", Some(palette.info), None),
        ],
    };
    assert_eq!(content, expected);
}

#[test]
fn picker_shows_eleven_lines_headed_by_the_display_name() {
    for theme in ThemeName::all() {
        let content = ThemePicker::new(*theme).content();
        assert_eq!(content.lines.len(), 11);
        assert_eq!(content.lines[0].label, theme.display_name());
        assert_eq!(content.lines[0].fg, Some(theme.palette().fg));
        assert_eq!(content.border, theme.palette().muted);
        assert_eq!(content.heading, theme.palette().accent);
    }
}
