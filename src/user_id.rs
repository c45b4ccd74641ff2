use vstd::prelude::*;
use vstd::string::StringSliceAdditionalSpecFns;
use crate::error::Error;
use crate::parse::{id_split, lemma_separator_from_bounds, parse_id, MAX_BYTES, SEPARATOR};

verus! {

/// The sigil that starts every user identifier (`@`).
pub const USER_ID_SIGIL: u8 = 0x40;

/// How strictly localparts are checked.
#[derive(Clone, Copy, Debug, PartialEq, Eq, Structural)]
pub struct Config {
    /// When set, a localpart that is not fully conforming is accepted as
    /// historical even where it holds bytes that historical identifiers
    /// do not allow.
    pub compat: bool,
}

/// A byte allowed in a fully conforming localpart: `0-9`, `a-z`, or one of
/// `- . = _ /`.
pub open spec fn is_fully_conforming_byte(b: u8) -> bool {
    ||| 0x30 <= b <= 0x39
    ||| 0x61 <= b <= 0x7a
    ||| b == 0x2d
    ||| b == 0x2e
    ||| b == 0x3d
    ||| b == 0x5f
    ||| b == 0x2f
}

/// A byte that even historical localparts may not hold: a control byte or
/// space, the separator, or a byte outside printable ASCII.
pub open spec fn is_historically_illegal_byte(b: u8) -> bool {
    b < 0x21 || b == SEPARATOR || b > 0x7e
}

/// Every byte of the localpart is allowed in a fully conforming one.
pub open spec fn all_fully_conforming(bytes: Seq<u8>) -> bool {
    forall|i: int| 0 <= i < bytes.len() ==> is_fully_conforming_byte(#[trigger] bytes[i])
}

/// Some byte of the localpart is not allowed even in a historical one.
pub open spec fn has_historically_illegal(bytes: Seq<u8>) -> bool {
    exists|i: int| 0 <= i < bytes.len() && is_historically_illegal_byte(#[trigger] bytes[i])
}

/// The verdict on a localpart: `Ok(true)` when fully conforming, `Ok(false)`
/// when historical, `Err(InvalidCharacters)` when neither (which compatibility
/// mode never reports).
pub open spec fn localpart_verdict(bytes: Seq<u8>, compat: bool) -> Result<bool, Error> {
    if all_fully_conforming(bytes) {
        Ok(true)
    } else if !compat && has_historically_illegal(bytes) {
        Err(Error::InvalidCharacters)
    } else {
        Ok(false)
    }
}

/// The verdict on a whole user identifier: the structural error, if any,
/// else the error of its localpart, if any.
pub open spec fn user_id_verdict(bytes: Seq<u8>, compat: bool) -> Result<(), Error> {
    match id_split(bytes, USER_ID_SIGIL) {
        Err(e) => Err(e),
        Ok(c) => match localpart_verdict(bytes.subrange(1, c as int), compat) {
            Ok(_) => Ok(()),
            Err(e) => Err(e),
        },
    }
}

fn byte_is_fully_conforming(b: u8) -> (r: bool)
    ensures
        r == is_fully_conforming_byte(b),
{
    (0x30 <= b && b <= 0x39) || (0x61 <= b && b <= 0x7a) || b == 0x2d || b == 0x2e || b == 0x3d
        || b == 0x5f || b == 0x2f
}

fn bytes_are_fully_conforming(bytes: &[u8]) -> (r: bool)
    ensures
        r == all_fully_conforming(bytes@),
{
    let mut i: usize = 0;
    while i < bytes.len()
        invariant
            i <= bytes@.len(),
            forall|j: int| 0 <= j < i ==> is_fully_conforming_byte(#[trigger] bytes@[j]),
        decreases bytes@.len() - i,
    {
        if !byte_is_fully_conforming(bytes[i]) {
            return false;
        }
        i = i + 1;
    }
    true
}

fn bytes_have_historically_illegal(bytes: &[u8]) -> (r: bool)
    ensures
        r == has_historically_illegal(bytes@),
{
    let mut i: usize = 0;
    while i < bytes.len()
        invariant
            i <= bytes@.len(),
            forall|j: int| 0 <= j < i ==> !is_historically_illegal_byte(#[trigger] bytes@[j]),
        decreases bytes@.len() - i,
    {
        let b = bytes[i];
        if b < 0x21 || b == SEPARATOR || b > 0x7e {
            return true;
        }
        i = i + 1;
    }
    false
}

fn check_localpart_bytes(bytes: &[u8], config: Config) -> (r: Result<bool, Error>)
    ensures
        r == localpart_verdict(bytes@, config.compat),
{
    let is_fully_conforming = bytes_are_fully_conforming(bytes);
    if !is_fully_conforming && !config.compat && bytes_have_historically_illegal(bytes) {
        return Err(Error::InvalidCharacters);
    }
    Ok(is_fully_conforming)
}

/// Checks whether a user identifier localpart is valid and fully conforming,
/// under the given configuration.
///
/// Returns `Ok(true)` for fully conforming localparts, `Ok(false)` for
/// historical ones, and `Err(Error::InvalidCharacters)` for localparts that
/// meet neither rule set, unless `config.compat` is set: then those are
/// `Ok(false)` too.
pub fn localpart_is_fully_conforming_with_config(localpart: &str, config: Config) -> (r: Result<
    bool,
    Error,
>)
    ensures
        r == localpart_verdict(localpart.spec_bytes(), config.compat),
{
    check_localpart_bytes(localpart.as_bytes(), config)
}

/// Checks whether a user identifier localpart is valid and fully conforming.
///
/// Returns an `Err` for invalid localparts, `Ok(false)` for historical
/// localparts and `Ok(true)` for fully conforming ones.
pub fn localpart_is_fully_conforming(localpart: &str) -> (r: Result<bool, Error>)
    ensures
        r == localpart_verdict(localpart.spec_bytes(), false),
{
    localpart_is_fully_conforming_with_config(localpart, Config { compat: false })
}

/// Validates a whole user identifier `@localpart:server_name` under the given
/// configuration.
pub fn validate_with_config(s: &str, config: Config) -> (r: Result<(), Error>)
    ensures
        r == user_id_verdict(s.spec_bytes(), config.compat),
{
    let colon_idx = match parse_id(s, USER_ID_SIGIL) {
        Ok(c) => c,
        Err(e) => return Err(e),
    };
    let bytes = s.as_bytes();
    let localpart = &bytes[1..colon_idx];
    match check_localpart_bytes(localpart, config) {
        Ok(_) => Ok(()),
        Err(e) => Err(e),
    }
}

/// Validates a whole user identifier `@localpart:server_name`.
pub fn validate(s: &str) -> (r: Result<(), Error>)
    ensures
        r == user_id_verdict(s.spec_bytes(), false),
{
    validate_with_config(s, Config { compat: false })
}


/// A localpart made only of digits, lowercase letters and `- . = _ /` is
/// fully conforming, whatever the configuration.
pub proof fn lemma_conforming_bytes_are_fully_conforming(bytes: Seq<u8>, compat: bool)
    requires
        all_fully_conforming(bytes),
    ensures
        localpart_verdict(bytes, compat) == Ok::<bool, Error>(true),
{
}

/// A localpart that is not fully conforming but holds only printable ASCII
/// other than the separator is historical in strict mode.
pub proof fn lemma_printable_bytes_are_historical(bytes: Seq<u8>)
    requires
        !all_fully_conforming(bytes),
        forall|i: int|
            0 <= i < bytes.len() ==> 0x21 <= #[trigger] bytes[i] <= 0x7e && bytes[i] != SEPARATOR,
    ensures
        localpart_verdict(bytes, false) == Ok::<bool, Error>(false),
{
}

/// A localpart that holds a control byte, the separator, or a byte above
/// `0x7e` is rejected with `InvalidCharacters` in strict mode.
pub proof fn lemma_illegal_bytes_are_invalid(bytes: Seq<u8>)
    requires
        has_historically_illegal(bytes),
    ensures
        localpart_verdict(bytes, false) == Err::<bool, Error>(Error::InvalidCharacters),
{
    lemma_illegal_bytes_are_not_conforming(bytes);
}

/// The same localparts are accepted as historical in compatibility mode.
pub proof fn lemma_illegal_bytes_are_historical_in_compat(bytes: Seq<u8>)
    requires
        has_historically_illegal(bytes),
    ensures
        localpart_verdict(bytes, true) == Ok::<bool, Error>(false),
{
    lemma_illegal_bytes_are_not_conforming(bytes);
}

proof fn lemma_illegal_bytes_are_not_conforming(bytes: Seq<u8>)
    requires
        has_historically_illegal(bytes),
    ensures
        !all_fully_conforming(bytes),
{
    let i = choose|i: int| 0 <= i < bytes.len() && is_historically_illegal_byte(#[trigger] bytes[i]);
    assert(!is_fully_conforming_byte(bytes[i]));
}

/// The verdicts depend on the text alone: two strings with the same
/// characters get the same verdict, as a localpart and as a user identifier,
/// so validating the same text twice gives the same answer.
pub proof fn lemma_verdict_depends_on_text_alone(a: &str, b: &str, compat: bool)
    requires
        a@ == b@,
    ensures
        localpart_verdict(a.spec_bytes(), compat) == localpart_verdict(b.spec_bytes(), compat),
        user_id_verdict(a.spec_bytes(), compat) == user_id_verdict(b.spec_bytes(), compat),
{
}

/// An identifier whose separator follows the sigil directly fails as a
/// structural error, before any localpart is checked.
pub proof fn lemma_empty_localpart_is_structural(bytes: Seq<u8>, compat: bool)
    requires
        2 <= bytes.len() <= MAX_BYTES,
        bytes[0] == USER_ID_SIGIL,
        bytes[1] == SEPARATOR,
    ensures
        user_id_verdict(bytes, compat) == Err::<(), Error>(Error::EmptyLocalpart),
        Error::EmptyLocalpart.is_structural(),
{
}

/// A user identifier is accepted only with a non-empty localpart.
pub proof fn lemma_accepted_localpart_is_nonempty(bytes: Seq<u8>, compat: bool)
    ensures
        user_id_verdict(bytes, compat) is Ok ==> (id_split(bytes, USER_ID_SIGIL) matches Ok(c)
            && c >= 2),
{
    if bytes.len() > 0 {
        lemma_separator_from_bounds(bytes, 1);
    }
}

} // verus!
