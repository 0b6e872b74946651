//! Configuration intake for a small command-line text search tool.
//!
//! An invocation hands the tool an ordered list of tokens: the program's own
//! name first, then a query and the path of the file to search. This library
//! validates such a list and turns it into a [`Config`], or rejects it with a
//! [`ConfigError`]. It performs no I/O and never ends the process: reporting a
//! rejection is left to the caller.

pub mod config;
pub mod error;

pub use config::Config;
pub use error::ConfigError;
