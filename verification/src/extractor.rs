//! The identity attached to a request that is admitted.

use crate::claims::{claim_text, decode_claims, member, text_of};
use vstd::prelude::*;

verus! {

/// What a [`CognitoInfo`] holds, as plain text.
pub struct InfoView {
    pub user: Option<Seq<char>>,
    pub token: Option<Seq<char>>,
}

impl InfoView {
    /// The name of the claim that identifies the user.
    pub open spec fn subject() -> Seq<char> {
        "sub"@
    }

    /// The identity of a request that was admitted without a token.
    pub open spec fn disabled() -> InfoView {
        InfoView { user: None, token: None }
    }

    /// The identity carried by `token`: the token itself, and its `sub`
    /// claim as the user where it has one.
    pub open spec fn enabled(token: Seq<char>) -> InfoView {
        InfoView { user: claim_text(token, Self::subject()), token: Some(token) }
    }

    /// The text of the claim `name` in the token, if there is a token and it
    /// has such a claim.
    pub open spec fn claim(self, name: Seq<char>) -> Option<Seq<char>> {
        match self.token {
            Some(token) => claim_text(token, name),
            None => None,
        }
    }

    /// The user is the `sub` claim of the token. In particular there is no
    /// user without a token.
    pub open spec fn wf(self) -> bool {
        self.user == self.claim(Self::subject())
    }
}

/// Information about the token of a request and the user it was issued to.
#[derive(Debug, Clone)]
pub struct CognitoInfo {
    /// The sub claim
    pub user: Option<String>,
    /// The Cognito JWT
    pub token: Option<String>,
}

impl View for CognitoInfo {
    type V = InfoView;

    open spec fn view(&self) -> InfoView {
        InfoView { user: self.user.deep_view(), token: self.token.deep_view() }
    }
}

/// The failure to find a [`CognitoInfo`] on a request: nothing attached one
/// to it.
#[derive(Debug, Clone, Copy, PartialEq, Eq)]
pub struct InfoNotFound;

impl InfoNotFound {
    /// The HTTP status that answers the request: 400, bad request.
    pub fn status(&self) -> (code: u16)
        ensures
            code == 400,
    {
        400
    }

    /// The text that answers the request.
    pub fn message(&self) -> (text: &'static str)
        ensures
            text@ == "No Cognito info found"@,
    {
        "No Cognito info found"
    }
}

impl CognitoInfo {
    /// Creates a CognitoInfo with no information about the token or the user.
    pub fn disabled() -> (info: Self)
        ensures
            info@ == InfoView::disabled(),
            info@.wf(),
    {
        Self { user: None, token: None }
    }

    /// Creates a CognitoInfo with information regarding the token and the user.
    pub fn enabled(token: String) -> (info: Self)
        ensures
            info@ == InfoView::enabled(token@),
            info@.wf(),
    {
        Self { user: CognitoInfo::get_claim("sub", token.as_str()), token: Some(token) }
    }

    /// Extracts a claim from the token.
    pub fn claim(&self, claim: &str) -> (text: Option<String>)
        ensures
            text.deep_view() == self@.claim(claim@),
    {
        match &self.token {
            Some(token) => Self::get_claim(claim, token.as_str()),
            None => None,
        }
    }

    /// Extracts any claim from a token, without checking the token's
    /// signature or any other claim.
    pub fn get_claim(claim: &str, token: &str) -> (text: Option<String>)
        ensures
            text.deep_view() == claim_text(token@, claim@),
    {
        match decode_claims(token) {
            None => None,
            Some(claims) => match member(&claims, claim) {
                None => None,
                Some(value) => match text_of(value) {
                    None => None,
                    Some(text) => Some(text.to_owned()),
                },
            },
        }
    }

    /// Hands on what was found attached to a request, or reports that nothing
    /// was.
    pub fn from_attached(attached: Option<CognitoInfo>) -> (found: Result<CognitoInfo, InfoNotFound>)
        ensures
            found == match attached {
                Some(info) => Ok::<CognitoInfo, InfoNotFound>(info),
                None => Err(InfoNotFound),
            },
    {
        match attached {
            Some(info) => Ok(info),
            None => Err(InfoNotFound),
        }
    }
}

/// Looking a claim up twice gives the same answer: whatever two lookups of
/// one name on one identity return, they return the same text.
pub proof fn lemma_claim_lookup_repeats(
    info: CognitoInfo,
    name: Seq<char>,
    first: Option<String>,
    second: Option<String>,
)
    requires
        first.deep_view() == info@.claim(name),
        second.deep_view() == info@.claim(name),
    ensures
        first.deep_view() == second.deep_view(),
{
}

} // verus!
