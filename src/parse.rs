use vstd::prelude::*;
use vstd::string::StringSliceAdditionalSpecFns;
use crate::error::Error;

verus! {

/// The largest number of bytes an identifier may have.
pub const MAX_BYTES: usize = 255;

/// The byte that separates the localpart from the server name (`:`).
pub const SEPARATOR: u8 = 0x3a;

/// The index of the first separator at or after `i`, or `bytes.len()` if
/// there is none.
pub open spec fn separator_from(bytes: Seq<u8>, i: int) -> int
    decreases bytes.len() - i,
{
    if i >= bytes.len() {
        bytes.len() as int
    } else if bytes[i] == SEPARATOR {
        i
    } else {
        separator_from(bytes, i + 1)
    }
}

/// What splitting an identifier gives: the index of the separator that ends
/// the localpart, or the structural error that the identifier breaks first.
pub open spec fn id_split(bytes: Seq<u8>, sigil: u8) -> Result<usize, Error> {
    if bytes.len() > MAX_BYTES {
        Err(Error::MaximumLengthExceeded)
    } else if bytes.len() == 0 || bytes[0] != sigil {
        Err(Error::MissingLeadingSigil)
    } else {
        let c = separator_from(bytes, 1);
        if c == bytes.len() {
            Err(Error::MissingDelimiter)
        } else if c == 1 {
            Err(Error::EmptyLocalpart)
        } else if c + 1 == bytes.len() {
            Err(Error::EmptyServerName)
        } else {
            Ok(c as usize)
        }
    }
}

pub(crate) proof fn lemma_separator_from_bounds(bytes: Seq<u8>, i: int)
    requires
        0 <= i <= bytes.len(),
    ensures
        i <= separator_from(bytes, i) <= bytes.len(),
        separator_from(bytes, i) < bytes.len() ==> bytes[separator_from(bytes, i)] == SEPARATOR,
    decreases bytes.len() - i,
{
    if i < bytes.len() && bytes[i] != SEPARATOR {
        lemma_separator_from_bounds(bytes, i + 1);
    }
}

/// Checks the structure of an identifier that should start with `sigil`.
///
/// On success, returns the byte index of the first separator after the sigil:
/// the localpart is `id[1..index]`, the server name what follows the index.
pub fn parse_id(id: &str, sigil: u8) -> (r: Result<usize, Error>)
    ensures
        r == id_split(id.spec_bytes(), sigil),
        r matches Ok(c) ==> 2 <= c < id.spec_bytes().len() && id.spec_bytes()[c as int] == SEPARATOR,
{
    let bytes = id.as_bytes();
    let len = bytes.len();
    if len > MAX_BYTES {
        return Err(Error::MaximumLengthExceeded);
    }
    if len == 0 || bytes[0] != sigil {
        return Err(Error::MissingLeadingSigil);
    }
    let mut i: usize = 1;
    while i < len && bytes[i] != SEPARATOR
        invariant
            1 <= i <= len,
            len == bytes@.len(),
            separator_from(bytes@, i as int) == separator_from(bytes@, 1),
        decreases len - i,
    {
        i = i + 1;
    }
    proof {
        lemma_separator_from_bounds(bytes@, i as int);
    }
    if i == len {
        Err(Error::MissingDelimiter)
    } else if i == 1 {
        Err(Error::EmptyLocalpart)
    } else if i + 1 == len {
        Err(Error::EmptyServerName)
    } else {
        Ok(i)
    }
}

} // verus!
