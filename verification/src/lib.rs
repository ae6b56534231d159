//! Configuration loading for a terminal typing trainer.
//!
//! A configuration file holds up to five tables of optional string-valued
//! entries: theme colors, graph colors, cursor style, typing modes, and
//! language selection.  The loader parses such a file and falls back to an
//! all-unset configuration whenever the text is not valid TOML or a
//! recognized entry has the wrong kind of value.

pub mod config;
pub mod model;
pub mod toml_bridge;

pub use config::{ConfigToml, CursorTable, GraphTable, LanguageTable, ModesTable, ThemeTable};
