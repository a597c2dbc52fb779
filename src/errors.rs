//! The syntax errors a scanner reports.

use crate::position::is_char_start;
use vstd::prelude::*;

verus! {

/// A syntax error found while scanning a line: exactly one of the kinds.
#[derive(Debug)]
pub enum Error {
    ExpectedIdentifier(error_kinds::ExpectedIdentifier),
    ExpectedToken(error_kinds::ExpectedToken),
    ExpectedEscape(error_kinds::ExpectedEscape),
    UnexpectedToken(error_kinds::UnexpectedToken),
    InvalidEscape(error_kinds::InvalidEscape),
    InvalidIdentifier(error_kinds::InvalidIdentifier),
}

impl Error {
    /// The error can be rendered: where it marks a byte offset with no
    /// character of its own, that offset starts a character.
    pub open spec fn renderable(&self) -> bool {
        match self {
            Error::ExpectedIdentifier(err) => is_char_start(err.line(), err.index()),
            Error::ExpectedToken(err) => is_char_start(err.line(), err.index()),
            _ => true,
        }
    }

    /// The diagnostic text: that of the wrapped kind.
    pub open spec fn text(&self) -> Seq<char> {
        match self {
            Error::ExpectedIdentifier(err) => err.text(),
            Error::ExpectedToken(err) => err.text(),
            Error::ExpectedEscape(err) => err.text(),
            Error::UnexpectedToken(err) => err.text(),
            Error::InvalidEscape(err) => err.text(),
            Error::InvalidIdentifier(err) => err.text(),
        }
    }

    /// Whether the error can be rendered.
    pub fn is_renderable(&self) -> (r: bool)
        ensures
            r == self.renderable(),
    {
        match self {
            Error::ExpectedIdentifier(err) => err.is_renderable(),
            Error::ExpectedToken(err) => err.is_renderable(),
            _ => true,
        }
    }

    /// Renders the diagnostic of the wrapped kind.
    pub fn to_string(&self) -> (r: String)
        requires
            self.renderable(),
        ensures
            r@ == self.text(),
    {
        match self {
            Error::ExpectedIdentifier(err) => err.to_string(),
            Error::ExpectedToken(err) => err.to_string(),
            Error::ExpectedEscape(err) => err.to_string(),
            Error::UnexpectedToken(err) => err.to_string(),
            Error::InvalidEscape(err) => err.to_string(),
            Error::InvalidIdentifier(err) => err.to_string(),
        }
    }
}

} // verus!

/// Contains all the error types used in `Error`'s variants.
pub mod error_kinds;
