use vstd::prelude::*;

verus! {

/// Errors that may occur when parsing values from strings.
#[derive(Clone, Copy, Debug, PartialEq, Eq, Structural)]
pub enum ParseError {
    /// Invalid length.
    InvalidLength,
    /// An invalid hex digit.
    InvalidHexDigit {
        /// The offending character.
        ch: char,
        /// Its position among the expanded hex channels.
        index: usize,
    },
    /// An invalid color name.
    InvalidColorName,
}

} // verus!
