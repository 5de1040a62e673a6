//! Error kind constants.

pub mod general;
