//! Configuration handling and pattern layout decisions of a Rust source formatter.

pub mod config;
pub mod docs;
pub mod loader;
pub mod options;
pub mod output;
pub mod patterns;
pub mod reading;
pub mod text;
pub mod toml_text;
