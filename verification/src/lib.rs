//! Layered configuration resolution: defaults, configuration files,
//! environment variables and command-line overrides are merged field by
//! field and the result is validated as a whole.

pub mod cli;
pub mod config;
pub mod error;
pub mod files;
pub mod text;

pub use error::Error;
