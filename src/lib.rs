//! Conversion of ASCII betacode into precomposed Unicode Greek.
//!
//! Two dialects are supported: the default (Robinson-Pierpont style) encoding
//! and the TLG encoding. A conversion either yields the whole Greek string or
//! stops at the first byte that cannot be read.

use vstd::prelude::*;

pub mod alphabet;
pub mod compose;
pub mod convert;

pub use alphabet::{is_ascii_whitespace, is_valid_betacode_symbol, lookup_greek_letter};
pub use compose::apply_accent;
pub use convert::to_greek;

verus! {

/// Choose which betacode format to convert.
#[derive(Copy, Clone, Debug, PartialEq, Eq)]
pub enum Type {
    Default,
    TLG,
}

/// Conversion fails when an unexpected character is found.
#[derive(Copy, Clone, Debug, PartialEq, Eq)]
pub enum ConversionError {
    /// The invalid character, and its byte position in the input.
    UnexpectedCharacter(char, usize),
    /// The letter that carries an invalid accent combination, and the byte
    /// position where that letter starts.
    UnexpectedAccent(char, usize),
}

} // verus!
