use vstd::prelude::*;

verus! {

/// The ways in which an identifier can be rejected.
#[derive(Clone, Copy, Debug, PartialEq, Eq, Structural)]
pub enum Error {
    /// The localpart holds bytes that are allowed neither for current nor for
    /// historical identifiers.
    InvalidCharacters,
    /// The identifier is longer than [`crate::MAX_BYTES`] bytes.
    MaximumLengthExceeded,
    /// The identifier is empty or does not start with the expected sigil.
    MissingLeadingSigil,
    /// No separator follows the sigil.
    MissingDelimiter,
    /// Nothing stands between the sigil and the separator.
    EmptyLocalpart,
    /// Nothing follows the separator.
    EmptyServerName,
}

impl Error {
    /// Whether the error comes from the structure of the identifier rather
    /// than from the characters of its localpart.
    pub open spec fn is_structural(self) -> bool {
        !(self is InvalidCharacters)
    }
}

} // verus!
