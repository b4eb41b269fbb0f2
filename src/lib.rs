//! A line-oriented substring search: resolve a configuration from the
//! invocation arguments, then select the lines of a text that contain a query,
//! with or without case folding.

pub mod config;
pub mod search;
pub mod text;

pub use config::{Config, ConfigError, SENSITIVITY_VAR};
pub use search::{search, search_folded, search_insensitive, search_sensitive};
