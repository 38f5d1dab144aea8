//! A picker that shows one theme with a sample of each of its colors.

use vstd::prelude::*;
use crate::color::Color;
use crate::theme::{Theme, ThemeName};

verus! {

/// One line of the picker: a label and the colors it is drawn in. A color
/// that is `None` is left as the terminal has it.
#[derive(Debug, Clone, Copy, PartialEq, Eq)]
pub struct PickerLine {
    /// The text of the line.
    pub label: &'static str,
    /// The color of the text.
    pub fg: Option<Color>,
    /// The color behind the text.
    pub bg: Option<Color>,
}

/// A line of the picker as contracts see it: the characters of
/// its label and its colors.
pub struct LineText {
    /// The characters of the label.
    pub label: Seq<char>,
    /// The color of the text.
    pub fg: Option<Color>,
    /// The color behind the text.
    pub bg: Option<Color>,
}

impl View for PickerLine {
    type V = LineText;

    open spec fn view(&self) -> LineText {
        LineText { label: self.label@, fg: self.fg, bg: self.bg }
    }
}

/// All that the picker shows, ready to be drawn.
#[derive(Debug, Clone, PartialEq, Eq)]
pub struct PickerContent {
    /// The title on the top border, centered; `None` for no title.
    pub title: Option<String>,
    /// The instructions on the bottom border, centered; `None` for none.
    pub instructions: Option<String>,
    /// The color of the border.
    pub border: Color,
    /// The color of the title and the instructions, which are drawn bold.
    pub heading: Color,
    /// The lines inside the border, from top to bottom.
    pub lines: Vec<PickerLine>,
}

/// The characters of an optional string.
pub open spec fn text_of(text: Option<String>) -> Option<Seq<char>> {
    match text {
        Some(text) => Some(text@),
        None => None,
    }
}

/// What a border text is set to: an empty text removes it.
pub open spec fn border_text(text: Seq<char>) -> Option<Seq<char>> {
    if text.len() == 0 {
        None
    } else {
        Some(text)
    }
}

/// The lines that the picker shows for a theme: its display name in the
/// text color, then one sample line for each color of the palette.
pub open spec fn sample_lines(name: ThemeName) -> Seq<LineText> {
    let palette = name.colors();
    seq![
        LineText { label: name.display_text(), fg: Some(palette.fg), bg: None },
        LineText { label: "  - accent"@, fg: Some(palette.accent), bg: None },
        LineText { label: "  - secondary"@, fg: Some(palette.secondary), bg: None },
        LineText { label: "  - bg (on fg)"@, fg: Some(palette.bg), bg: Some(palette.fg) },
        LineText { label: "  - fg (on bg)"@, fg: Some(palette.fg), bg: Some(palette.bg) },
        LineText { label: "  - muted"@, fg: Some(palette.muted), bg: None },
        LineText { label: "  - selection (as bg)"@, fg: None, bg: Some(palette.selection) },
        LineText { label: "  - error"@, fg: Some(palette.error), bg: None },
        LineText { label: "  - warning"@, fg: Some(palette.warning), bg: None },
        LineText { label: "  - success"@, fg: Some(palette.success), bg: None },
        LineText { label: "  - info"@, fg: Some(palette.info), bg: None },
    ]
}

/// A picker for one theme, with an optional title and optional
/// instructions.
#[derive(Debug, Clone)]
pub struct ThemePicker {
    theme: Theme,
    title: Option<String>,
    instructions: Option<String>,
}

impl ThemePicker {
    /// The theme that the picker shows.
    pub closed spec fn theme(self) -> Theme {
        self.theme
    }

    /// The title of the picker, if it has one.
    pub closed spec fn title_text(self) -> Option<Seq<char>> {
        text_of(self.title)
    }

    /// The instructions of the picker, if it has any.
    pub closed spec fn instructions_text(self) -> Option<Seq<char>> {
        text_of(self.instructions)
    }

    /// A picker for `theme`, without title or instructions.
    #[must_use]
    pub fn new(theme: ThemeName) -> (picker: ThemePicker)
        ensures
            picker.theme().name == theme,
            picker.title_text() is None,
            picker.instructions_text() is None,
    {
        ThemePicker { theme: Theme::new(theme), title: None, instructions: None }
    }

    /// Sets the title. An empty title removes it.
    #[must_use]
    pub fn title(self, title: &str) -> (picker: ThemePicker)
        ensures
            picker.title_text() == border_text(title@),
            picker.theme() == self.theme(),
            picker.instructions_text() == self.instructions_text(),
    {
        let mut picker = self;
        picker.title = if title.is_empty() {
            None
        } else {
            Some(title.to_owned())
        };
        picker
    }

    /// Sets the instructions shown at the bottom. An empty text removes
    /// them.
    #[must_use]
    pub fn instructions(self, instructions: &str) -> (picker: ThemePicker)
        ensures
            picker.instructions_text() == border_text(instructions@),
            picker.theme() == self.theme(),
            picker.title_text() == self.title_text(),
    {
        let mut picker = self;
        picker.instructions = if instructions.is_empty() {
            None
        } else {
            Some(instructions.to_owned())
        };
        picker
    }

    /// What the picker shows: the border in the muted color, title and
    /// instructions in the accent color, and the sample lines of the
    /// theme.
    #[must_use]
    pub fn content(self) -> (content: PickerContent)
        ensures
            text_of(content.title) == self.title_text(),
            text_of(content.instructions) == self.instructions_text(),
            content.border == self.theme().name.colors().muted,
            content.heading == self.theme().name.colors().accent,
            content.lines@.len() == 11,
            forall|i: int|
                0 <= i < 11 ==> (#[trigger] content.lines@[i])@ == sample_lines(
                    self.theme().name,
                )[i],
    {
        let palette = self.theme.palette();
        let lines = vec![
            PickerLine { label: self.theme.name.display_name(), fg: Some(palette.fg), bg: None },
            PickerLine { label: "  - accent", fg: Some(palette.accent), bg: None },
            PickerLine { label: "  - secondary", fg: Some(palette.secondary), bg: None },
            PickerLine { label: "  - bg (on fg)", fg: Some(palette.bg), bg: Some(palette.fg) },
            PickerLine { label: "  - fg (on bg)", fg: Some(palette.fg), bg: Some(palette.bg) },
            PickerLine { label: "  - muted", fg: Some(palette.muted), bg: None },
            PickerLine { label: "  - selection (as bg)", fg: None, bg: Some(palette.selection) },
            PickerLine { label: "  - error", fg: Some(palette.error), bg: None },
            PickerLine { label: "  - warning", fg: Some(palette.warning), bg: None },
            PickerLine { label: "  - success", fg: Some(palette.success), bg: None },
            PickerLine { label: "  - info", fg: Some(palette.info), bg: None },
        ];
        PickerContent {
            title: self.title,
            instructions: self.instructions,
            border: palette.muted,
            heading: palette.accent,
            lines,
        }
    }
}

} // verus!
