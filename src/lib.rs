//! A personal memory log: titled snippets appended to one markdown file,
//! and the decisions behind each command of the `giru` tool.

pub mod controller;
pub mod log;
pub mod save;
pub mod text;
