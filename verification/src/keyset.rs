//! The key set of a Cognito user pool and the verifiers made for it.
//!
//! Key sets and verifiers are values of `jsonwebtokens_cognito` and
//! `jsonwebtokens`. Nothing of them is verified here. What the rest of the
//! crate relies on is what they were made with: the issuer and the address of
//! a key set, and the claims that a verifier requires and the times that it
//! checks. It is stated on the four functions at the end of this module.

use vstd::prelude::*;

verus! {

#[verifier::external_type_specification]
#[verifier::external_body]
pub struct ExKeySet(jsonwebtokens_cognito::KeySet);

#[verifier::external_type_specification]
#[verifier::external_body]
pub struct ExKeySetError(jsonwebtokens_cognito::Error);

#[verifier::external_type_specification]
#[verifier::external_body]
pub struct ExVerifierBuilder(jsonwebtokens::VerifierBuilder);

#[verifier::external_type_specification]
#[verifier::external_body]
pub struct ExVerifier(jsonwebtokens::Verifier);

#[verifier::external_type_specification]
#[verifier::external_body]
pub struct ExTokenError(jsonwebtokens::error::Error);

/// Which of the two kinds of token a pool issues is to be accepted.
#[derive(Debug, Clone, Copy, PartialEq, Eq, Structural)]
pub enum TokenUse {
    /// Identity tokens: `token_use` is `id`, the client is named by `aud`.
    Id,
    /// Access tokens: `token_use` is `access`, the client is named by
    /// `client_id`.
    Access,
}

impl TokenUse {
    /// The value of the `token_use` claim in tokens of this kind.
    pub open spec fn text(self) -> Seq<char> {
        match self {
            TokenUse::Id => "id"@,
            TokenUse::Access => "access"@,
        }
    }

    /// The name of the claim that holds the client in tokens of this kind.
    pub open spec fn client_claim(self) -> Seq<char> {
        match self {
            TokenUse::Id => "aud"@,
            TokenUse::Access => "client_id"@,
        }
    }
}

/// The issuer of the tokens of a user pool.
pub open spec fn issuer(region: Seq<char>, pool_id: Seq<char>) -> Seq<char> {
    "https://cognito-idp."@ + region + ".amazonaws.com/"@ + pool_id
}

/// The address at which a user pool publishes its key set.
pub open spec fn key_set_address(region: Seq<char>, pool_id: Seq<char>) -> Seq<char> {
    "https://cognito-idp."@ + region + ".amazonaws.com/"@ + pool_id + "/.well-known/jwks.json"@
}

/// The claims required of a token: the issuer, the kind of token, and the
/// client under the claim that this kind of token names it by. Each claim
/// must be present, hold a string, and that string must be the one given.
pub open spec fn required_claims(issuer: Seq<char>, token_use: TokenUse, client_id: Seq<char>) -> Map<
    Seq<char>,
    Set<Seq<char>>,
> {
    Map::<Seq<char>, Set<Seq<char>>>::empty().insert("iss"@, set![issuer]).insert(
        token_use.client_claim(),
        set![client_id],
    ).insert("token_use"@, set![token_use.text()])
}

/// The times that are checked when nothing is relaxed: when a token was
/// issued, from when and until when it is valid, each to the second.
pub open spec fn strict_times() -> Map<Seq<char>, nat> {
    Map::<Seq<char>, nat>::empty().insert("iat"@, 0nat).insert("nbf"@, 0nat).insert("exp"@, 0nat)
}

/// Whether `jsonwebtokens_cognito::KeySet::new` makes a key set for a pool
/// in a region.
pub uninterp spec fn key_set_can_be_made(region: Seq<char>, pool_id: Seq<char>) -> bool;

/// Whether `jsonwebtokens::VerifierBuilder::build` builds a verifier that
/// requires these claims and checks these times.
pub uninterp spec fn verifier_can_be_built(
    claims: Map<Seq<char>, Set<Seq<char>>>,
    times: Map<Seq<char>, nat>,
) -> bool;

/// The issuer whose tokens a key set is for.
pub uninterp spec fn keyset_issuer(keyset: jsonwebtokens_cognito::KeySet) -> Seq<char>;

/// The address from which a key set fetches its keys.
pub uninterp spec fn keyset_address(keyset: jsonwebtokens_cognito::KeySet) -> Seq<char>;

/// The claims that the verifier made by a builder will require: for each
/// claim by name, the strings it may hold.
pub uninterp spec fn builder_claims(builder: jsonwebtokens::VerifierBuilder) -> Map<
    Seq<char>,
    Set<Seq<char>>,
>;

/// The claims that a verifier requires: for each claim by name, the strings
/// it may hold.
pub uninterp spec fn verifier_claims(verifier: jsonwebtokens::Verifier) -> Map<
    Seq<char>,
    Set<Seq<char>>,
>;

/// The times that the verifier made by a builder will check: for each of the
/// claims `iat`, `nbf` and `exp` that it will not ignore, the leeway in
/// seconds that it will allow.
pub uninterp spec fn builder_times(builder: jsonwebtokens::VerifierBuilder) -> Map<Seq<char>, nat>;

/// The times that a verifier checks: for each of the claims `iat`, `nbf` and
/// `exp` that it does not ignore, the leeway in seconds that it allows. With
/// no leeway a token is refused from the second in which it expires.
pub uninterp spec fn verifier_times(verifier: jsonwebtokens::Verifier) -> Map<Seq<char>, nat>;

/// Calls `jsonwebtokens_cognito::KeySet::new`.
///
/// Trusted: whether a key set is returned depends on the region and the
/// pool alone. One that is returned is for the issuer of that pool in that
/// region, and fetches its keys from that pool's address. Nothing is fetched
/// by this call.
#[verifier::external_body]
pub(crate) fn new_key_set(region: String, pool_id: String) -> (made: Result<
    jsonwebtokens_cognito::KeySet,
    jsonwebtokens_cognito::Error,
>)
    ensures
        made is Ok <==> key_set_can_be_made(region@, pool_id@),
        made matches Ok(keyset) ==> keyset_issuer(keyset) == issuer(region@, pool_id@)
            && keyset_address(keyset) == key_set_address(region@, pool_id@),
{
    jsonwebtokens_cognito::KeySet::new(region, pool_id)
}

/// Calls `jsonwebtokens_cognito::KeySet::new_id_token_verifier` for one
/// client.
///
/// Trusted: the builder requires what identity tokens of the key set's issuer
/// for that client hold, and relaxes no check of a time.
#[verifier::external_body]
pub(crate) fn id_token_builder(keyset: &jsonwebtokens_cognito::KeySet, client_id: &str) -> (builder:
    jsonwebtokens::VerifierBuilder)
    ensures
        builder_claims(builder) == required_claims(
            keyset_issuer(*keyset),
            TokenUse::Id,
            client_id@,
        ),
        builder_times(builder) == strict_times(),
{
    keyset.new_id_token_verifier(&[client_id])
}

/// Calls `jsonwebtokens_cognito::KeySet::new_access_token_verifier` for one
/// client.
///
/// Trusted: the builder requires what access tokens of the key set's issuer
/// for that client hold, and relaxes no check of a time.
#[verifier::external_body]
pub(crate) fn access_token_builder(keyset: &jsonwebtokens_cognito::KeySet, client_id: &str) -> (builder:
    jsonwebtokens::VerifierBuilder)
    ensures
        builder_claims(builder) == required_claims(
            keyset_issuer(*keyset),
            TokenUse::Access,
            client_id@,
        ),
        builder_times(builder) == strict_times(),
{
    keyset.new_access_token_verifier(&[client_id])
}

/// Calls `jsonwebtokens::VerifierBuilder::build`.
///
/// Trusted: whether a verifier is returned depends on the claims and the
/// times that the builder was set up with alone. One that is returned
/// requires those claims and checks those times.
#[verifier::external_body]
pub(crate) fn build_verifier(builder: &jsonwebtokens::VerifierBuilder) -> (built: Result<
    jsonwebtokens::Verifier,
    jsonwebtokens::error::Error,
>)
    ensures
        built is Ok <==> verifier_can_be_built(builder_claims(*builder), builder_times(*builder)),
        built matches Ok(verifier) ==> verifier_claims(verifier) == builder_claims(*builder)
            && verifier_times(verifier) == builder_times(*builder),
{
    builder.build()
}

} // verus!
