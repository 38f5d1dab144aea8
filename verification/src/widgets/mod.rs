//! Widgets built on the catalog.

pub mod theme_picker;

pub use theme_picker::{PickerContent, PickerLine, ThemePicker};
