//! Reading claims out of a token's payload.
//!
//! Decoding is done by `jsonwebtokens` and the decoded payload is a
//! `serde_json::Value`. Neither is verified here: what the rest of the crate
//! relies on is stated on the three functions at the end of this module, and
//! everything else is proved from that.

use vstd::prelude::*;

verus! {

#[verifier::external_type_specification]
#[verifier::external_body]
pub struct ExJsonValue(serde_json::Value);

/// The text claims of a token: for each member of the decoded payload whose
/// value is a JSON string, that string under the member's name. `None` for a
/// token that `jsonwebtokens::raw::decode_only` does not decode.
pub uninterp spec fn decoded_claims(token: Seq<char>) -> Option<Map<Seq<char>, Seq<char>>>;

/// The text members of a JSON value: for each member of a JSON object whose
/// value is a JSON string, that string under the member's name. Empty for a
/// value that is no object.
pub uninterp spec fn text_members(value: serde_json::Value) -> Map<Seq<char>, Seq<char>>;

/// The text of a JSON value: the string it holds, `None` where it is no
/// JSON string.
pub uninterp spec fn json_text(value: serde_json::Value) -> Option<Seq<char>>;

/// The text of the claim `name` in `token`, where the token decodes and its
/// payload has a member of that name holding a string.
pub open spec fn claim_text(token: Seq<char>, name: Seq<char>) -> Option<Seq<char>> {
    match decoded_claims(token) {
        Some(claims) => if claims.contains_key(name) {
            Some(claims[name])
        } else {
            None
        },
        None => None,
    }
}

/// Calls `jsonwebtokens::raw::decode_only` and keeps the decoded payload.
///
/// Trusted: the call succeeds exactly on the tokens that `decoded_claims`
/// decodes, and the text members of the payload it returns are those claims.
#[verifier::external_body]
pub(crate) fn decode_claims(token: &str) -> (claims: Option<serde_json::Value>)
    ensures
        claims is Some <==> decoded_claims(token@) is Some,
        claims matches Some(value) ==> decoded_claims(token@) == Some(text_members(value)),
{
    jsonwebtokens::raw::decode_only(token).ok().map(|data| data.claims)
}

/// Calls `serde_json::Value::get` with a member's name.
///
/// Trusted: a text member is found, and is the JSON string recorded for it;
/// where something else is found under the name, it is no JSON string.
#[verifier::external_body]
pub(crate) fn member<'a>(value: &'a serde_json::Value, name: &str) -> (found: Option<&'a serde_json::Value>)
    ensures
        text_members(*value).contains_key(name@) ==> found is Some,
        found matches Some(inner) ==> json_text(*inner) == (if text_members(*value).contains_key(
            name@,
        ) {
            Some(text_members(*value)[name@])
        } else {
            None
        }),
{
    value.get(name)
}

/// Calls `serde_json::Value::as_str`.
///
/// Trusted: the result is the text of the value.
#[verifier::external_body]
pub(crate) fn text_of<'a>(value: &'a serde_json::Value) -> (text: Option<&'a str>)
    ensures
        text.deep_view() == json_text(*value),
{
    value.as_str()
}

} // verus!
