//! Syntax-error values for a scanner, with diagnostics that mark the offending
//! byte offset inside the source line.

pub mod errors;
pub mod position;
