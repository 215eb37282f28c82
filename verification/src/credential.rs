//! The bearer credential of a request.
//!
//! A request presents its credential in the `Authorization` header, as the
//! word `Bearer`, one space, and the token. The header is parsed by
//! `actix_web_httpauth`, which is not verified here: what the rest of the
//! crate relies on is stated on the function at the end of this module.

use actix_web_httpauth::headers::authorization::Scheme;
use vstd::prelude::*;

verus! {

/// A byte that may stand in a header that is read as text: a tab or a
/// printable ASCII character.
pub open spec fn is_text(byte: u8) -> bool {
    byte == 9 || (32 <= byte && byte < 127)
}

/// The bytes of `Bearer` and the space that follows it.
pub open spec fn bearer_prefix() -> Seq<u8> {
    seq![66u8, 101u8, 97u8, 114u8, 101u8, 114u8, 32u8]
}

/// The credential in the value of an `Authorization` header: what follows
/// `Bearer` and one space, if the header is text, begins so and goes on for
/// at least one character more.
pub open spec fn bearer_credential(header: Seq<u8>) -> Option<Seq<char>> {
    if header.len() >= 8 && header.subrange(0, 7) == bearer_prefix() && (forall|i: int|
        0 <= i < header.len() ==> is_text(#[trigger] header[i])) {
        Some(Seq::new((header.len() - 7) as nat, |i: int| header[i + 7] as char))
    } else {
        None
    }
}

/// The credential of a request, given the value of its `Authorization`
/// header if it has one.
pub open spec fn credential_of(authorization: Option<Seq<u8>>) -> Option<Seq<char>> {
    match authorization {
        Some(header) => bearer_credential(header),
        None => None,
    }
}

/// Finds the bearer credential of a request, given the value of its
/// `Authorization` header if it has one.
pub fn extract(authorization: Option<&[u8]>) -> (credential: Option<String>)
    ensures
        credential.deep_view() == credential_of(
            match authorization {
                Some(header) => Some(header@),
                None => None,
            },
        ),
{
    match authorization {
        Some(header) => parse_bearer(header),
        None => None,
    }
}

/// Makes a header value of the bytes with
/// `actix_web::http::header::HeaderValue::from_bytes` and parses it with
/// `actix_web_httpauth::headers::authorization::Bearer::parse`.
///
/// Trusted: the result is the credential in the header as `bearer_credential`
/// defines it. Bytes that make no header value, or one that is not text, give
/// no credential.
#[verifier::external_body]
pub(crate) fn parse_bearer(header: &[u8]) -> (credential: Option<String>)
    ensures
        credential.deep_view() == bearer_credential(header@),
{
    let value = actix_web::http::header::HeaderValue::from_bytes(header).ok()?;
    let bearer = actix_web_httpauth::headers::authorization::Bearer::parse(&value).ok()?;
    Some(bearer.token().to_string())
}

} // verus!
