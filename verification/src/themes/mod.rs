//! VSCode extensions kept as a directory of theme files named
//! `<name>-color-theme.json`, and the paths of theme files.

pub mod vsc_extension;

pub use vsc_extension::{ThemePointer, VSCMetadata, VsCodeExtension};
pub mod json_file;
