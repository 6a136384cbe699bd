//! Theme representations of the editors we convert between.

pub mod vscode;
pub mod zed;
pub mod globbing;
pub mod layout;
