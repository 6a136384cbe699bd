//! VSCode themes, icon themes and extensions.

pub mod extension;
pub mod icon_theme;
pub mod metadata;
pub mod theme;

pub use extension::VsCodeExtension;
pub use icon_theme::{IconDefinition, VsCodeIconTheme};
pub use metadata::{Contributions, IconThemePointer, Repository, ThemePointer, VsCodePackageJson};
pub use theme::{TokenColorRule, TokenColorSettings, TokenColors, TokenScope, VsCodeTheme};
