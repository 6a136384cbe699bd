//! Conversions between VSCode and Zed themes.

pub mod code_to_zed;
pub mod color;
pub mod icons;
pub mod zed_to_code;
pub mod laws;
pub mod icon_laws;
pub mod scope_laws;
pub mod mapping_laws;
