//! Color themes for terminal user interfaces.
//!
//! A fixed catalog of fifteen named palettes. Each [`ThemeName`] maps to one
//! [`ThemePalette`] of ten semantic colors; the catalog is ordered, can be
//! walked cyclically in both directions, and converts to and from text.
//! [`Theme`] is a small cursor that remembers the currently selected name.

pub mod color;
pub mod error;
pub mod laws;
pub mod normalize;
pub mod palette;
pub mod parse;
pub mod theme;
pub mod widgets;

pub use color::Color;
pub use error::UnknownTheme;
pub use palette::ThemePalette;
pub use theme::{Theme, ThemeName};
pub use widgets::ThemePicker;
