//! A request-authentication gate for Amazon Cognito bearer tokens.
//!
//! The crate holds the decisions taken for each request, each with a
//! contract that Verus proves: which requests are admitted, which are turned
//! away and why, what identity is attached to an admitted request, and how a
//! validator is made from its configuration. Everything that waits on the
//! network or touches a live request is left to the host, which reports what
//! it observes as plain values.

pub mod claims;
pub mod credential;
pub mod extractor;
pub mod gate;
pub mod keyset;
pub mod validator;

pub use extractor::CognitoInfo;
pub use validator::CognitoValidator;
