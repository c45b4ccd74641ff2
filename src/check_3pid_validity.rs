//! Request and response of the identity service call that asks whether a
//! third-party identifier (an email address or a phone number) was validated
//! by a user.

use vstd::prelude::*;

verus! {

/// Declares `js_int::UInt`, a non-negative integer that an `f64` represents
/// exactly; values of it are only carried through here.
#[verifier::external_type_specification]
#[verifier::external_body]
pub struct ExUInt(js_int::UInt);

/// The kind of a third-party identifier.
#[derive(Clone, Debug, PartialEq, Eq)]
pub enum Medium {
    /// An email address.
    Email,
    /// A phone number.
    Msisdn,
    /// A medium that this library does not know, by its name.
    Custom(String),
}

/// The query of the call: the session to look up and its secret.
pub struct Request<'a> {
    /// The session ID generated by the `requestToken` call.
    pub sid: &'a str,
    /// The client secret passed to the `requestToken` call.
    pub client_secret: &'a str,
}

/// The answer of the call: which identifier was validated, and when.
pub struct Response {
    /// The medium type of the identifier.
    pub medium: Medium,
    /// The address of the identifier being looked up.
    pub address: String,
    /// When the identifier was validated, in milliseconds since the Unix epoch.
    pub validated_at: js_int::UInt,
}

impl<'a> Request<'a> {
    /// Creates a `Request` with the given session ID and client secret.
    pub fn new(sid: &'a str, client_secret: &'a str) -> (r: Self)
        ensures
            r.sid == sid,
            r.client_secret == client_secret,
    {
        Request { sid, client_secret }
    }
}

impl Response {
    /// Creates a `Response` with the given medium, address and validation
    /// timestamp.
    pub fn new(medium: Medium, address: String, validated_at: js_int::UInt) -> (r: Self)
        ensures
            r.medium == medium,
            r.address == address,
            r.validated_at == validated_at,
    {
        Response { medium, address, validated_at }
    }
}

} // verus!
