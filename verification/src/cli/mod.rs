//! Command-line configuration values.
pub mod args;
