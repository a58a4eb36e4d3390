//! The token with which the host authenticates to the engine: what it
//! claims, and how it is signed and put together.
//!
//! A token is three segments joined by dots: the header, the claims, and the
//! signature over the first two. Header and claims come in as base64 text;
//! this module computes the claims' content, has the signature made, and
//! joins the segments.
use vstd::prelude::*;
use vstd::string::StringExecFns;

use hmac::{Hmac, Mac};
use sha2::Sha256;

verus! {

/// For how many hours a token is accepted.
pub const TOKEN_VALIDATION_HOURS: i64 = 6;

/// For how many seconds the session that a token opens may last.
pub const SESSION_SECONDS: i64 = 86400;

/// What a token claims.
#[derive(Debug, Clone)]
pub struct Payload {
    /// The key of the application.
    pub app_key: String,
    /// When the token was issued, in seconds since the epoch.
    pub iat: i64,
    /// When the token expires.
    pub exp: i64,
    /// When the session that the token opens expires.
    pub token_exp: i64,
}

/// Why no token was made.
#[derive(Debug, Clone, Copy, PartialEq, Eq, Structural)]
pub enum TokenError {
    /// The signature could not be made.
    Signing,
}

/// The claims of a token that is issued at `now` for the application
/// `sdk_key`: it expires [`TOKEN_VALIDATION_HOURS`] hours later, and its
/// session a day later.
///
/// `now` must leave room for that day in the range of seconds.
pub fn payload_at(sdk_key: &str, now: i64) -> (r: Payload)
    requires
        now + SESSION_SECONDS <= i64::MAX,
    ensures
        r.app_key@ == sdk_key@,
        r.iat == now,
        r.exp == now + 3600 * TOKEN_VALIDATION_HOURS,
        r.token_exp == now + SESSION_SECONDS,
{
    Payload {
        app_key: String::from_str(sdk_key),
        iat: now,
        exp: now + 3600 * TOKEN_VALIDATION_HOURS,
        token_exp: now + SESSION_SECONDS,
    }
}

/// The claims of a token issued at `now`, where `now` leaves room for its
/// expiry in the range of seconds; else `None`.
pub fn payload_if_in_range(sdk_key: &str, now: i64) -> (r: Option<Payload>)
    ensures
        now + SESSION_SECONDS > i64::MAX ==> r is None,
        now + SESSION_SECONDS <= i64::MAX ==> {
            &&& r is Some
            &&& r->0.app_key@ == sdk_key@
            &&& r->0.iat == now
            &&& r->0.exp == now + 3600 * TOKEN_VALIDATION_HOURS
            &&& r->0.token_exp == now + SESSION_SECONDS
        },
{
    if now > i64::MAX - SESSION_SECONDS {
        None
    } else {
        Some(payload_at(sdk_key, now))
    }
}

/// The error of the `jwt` crate.
#[verifier::external_type_specification]
#[verifier::external_body]
pub struct ExJwtError(jwt::Error);

/// The signature of a token's first two segments under the key `secret`: the
/// HMAC-SHA256 of the header, a dot and the claims, in base64 for addresses
/// without padding, as the `jwt` crate makes it.
pub uninterp spec fn hs256_signature(secret: Seq<char>, header: Seq<char>, claims: Seq<char>) -> Seq<char>;

/// Makes the key with `hmac::Mac::new_from_slice` and signs with
/// `jwt::SigningAlgorithm::sign`.
///
/// The contract claims that a signature is always made and that it is a
/// function of the secret and the two segments. For a key of HMAC,
/// `new_from_slice` takes a secret of any length (a short one is padded, a
/// long one hashed) and returns `Ok` on its only path, and so does `sign`.
#[verifier::external_body]
fn sign_segments(secret: &str, header: &str, claims: &str) -> (r: Result<String, jwt::Error>)
    ensures
        r is Ok,
        r->Ok_0@ == hs256_signature(secret@, header@, claims@),
{
    let key: Hmac<Sha256> = Hmac::new_from_slice(secret.as_bytes())?;
    jwt::SigningAlgorithm::sign(&key, header, claims)
}

/// The token made of a header, claims and a signature: the three joined by
/// dots.
pub open spec fn joined(header: Seq<char>, claims: Seq<char>, signature: Seq<char>) -> Seq<char> {
    header + "."@ + claims + "."@ + signature
}

/// Puts a token together from its header, its claims and the outcome of
/// signing them: the three segments joined by dots, and
/// [`TokenError::Signing`] where no signature was made.
pub fn assemble_token(header: &str, claims: &str, signed: Result<String, jwt::Error>) -> (r: Result<
    String,
    TokenError,
>)
    ensures
        signed is Err ==> r == Err::<String, TokenError>(TokenError::Signing),
        signed is Ok ==> r is Ok && r->Ok_0@ == joined(header@, claims@, signed->Ok_0@),
{
    match signed {
        Ok(signature) => {
            let token = String::from_str(header).concat(".").concat(claims).concat(".").concat(
                signature.as_str(),
            );
            Ok(token)
        },
        Err(_) => Err(TokenError::Signing),
    }
}

/// Signs a header and claims with `sdk_secret` and puts the token together:
/// the result is always the token, the two segments and their signature
/// under the secret, joined by dots.
pub fn sign_token(header: &str, claims: &str, sdk_secret: &str) -> (r: Result<String, TokenError>)
    ensures
        r is Ok,
        r->Ok_0@ == joined(header@, claims@, hs256_signature(sdk_secret@, header@, claims@)),
{
    let signed = sign_segments(sdk_secret, header, claims);
    assemble_token(header, claims, signed)
}

} // verus!
