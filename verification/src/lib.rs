//! Renders a one-line, color-coded status summary for a terminal prompt:
//! the active model name, the working-directory leaf, an optional git
//! branch, and the context-window token usage with its percentage band.

pub mod branch;
pub mod compose;
pub mod json;
pub mod payload;
pub mod text;
pub mod tokens;
