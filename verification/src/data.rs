//! Settings, built-in texts and startup values.
pub mod config;
pub mod locale;
pub mod runtime;
