//! Helpers shared by the parsers and the code generator.

pub mod casing;
pub mod paths;
pub mod text;
