//! Validation of user identifiers of the form `@localpart:server_name`.
//!
//! The structural splitter ([`parse_id`]) finds the sigil and the separator;
//! the conformance checker ([`localpart_is_fully_conforming`] and
//! [`localpart_is_fully_conforming_with_config`]) classifies the localpart as
//! fully conforming, historical, or invalid.

mod check_3pid_validity;
mod error;
mod parse;
mod user_id;

pub use error::Error;
pub use parse::{parse_id, id_split, separator_from, MAX_BYTES, SEPARATOR};
pub use user_id::{
    Config, localpart_is_fully_conforming, localpart_is_fully_conforming_with_config, validate,
    validate_with_config, is_fully_conforming_byte, is_historically_illegal_byte,
    all_fully_conforming, has_historically_illegal, localpart_verdict, user_id_verdict, USER_ID_SIGIL,
    lemma_conforming_bytes_are_fully_conforming, lemma_printable_bytes_are_historical,
    lemma_illegal_bytes_are_invalid, lemma_illegal_bytes_are_historical_in_compat,
    lemma_verdict_depends_on_text_alone, lemma_empty_localpart_is_structural,
    lemma_accepted_localpart_is_nonempty,
};
pub use check_3pid_validity::{Medium, Request, Response};
