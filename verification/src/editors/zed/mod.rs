//! Zed themes, icon themes and extensions.

pub mod extension;
pub mod family_laws;
pub mod icon_theme;
pub mod installed;
pub mod manifest;
pub mod theme;

pub use theme::{
    Appearance, BackgroundAppearance, FontStyle, FontWeight, HighlightStyle, NamedFontWeight, PlayerColor,
    ZedTheme, ZedThemeFamily, ZedThemeStyle,
};
pub use icon_theme::{DirectoryIcons, FileIcon, ZedIconTheme, ZedIconThemeFamily};
pub use manifest::ZedManifest;
pub use extension::ZedExtension;
