//! Thematic
//!
//! A library for converting Zed color & icon themes to VSCode, and vice
//! versa.

pub mod cli;
pub mod convert;
pub mod editors;
pub mod grouping;
pub mod errors;
pub mod icon_files;
pub mod order;
pub mod paths;
pub mod slugs;
pub mod strmap;
pub mod text;
pub mod themes;
