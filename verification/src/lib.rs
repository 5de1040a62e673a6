//! Specification processing for the compact error-type framework:
//! the error kinds of the library itself, the specification model,
//! the YAML and TOML specification parsers and the bit layout of
//! generated error kinds.

pub mod args;
pub mod coder;
pub mod common;
pub mod errors;
pub mod linter;
pub mod location;
pub mod parser;
pub mod spec;
pub mod traits;
pub mod util;
