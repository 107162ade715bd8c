//! The steps that take a request from its `Authorization` header to
//! verified claims.

use crate::auth::claims::Claims;
use crate::auth::jose::header_key_id;
use crate::auth::jwks::{
    fetched_entries, jwks_error_text, lookup, refreshed, resolution_after_fetch, FetchOutcome,
    JwksCache, JwksError, KeyLookup,
};
use crate::auth::key_set::SigningKey;
use crate::auth::token::{is_verification_outcome, token_key_id, verify_token};
use crate::config::ClerkConfig;
use vstd::prelude::*;
use vstd::string::*;

verus! {

/// The claims of the user a request was authenticated for.
#[derive(Debug, Clone)]
pub struct AuthenticatedUser(pub Claims);

/// Why a request was not authenticated.
#[derive(Debug)]
pub enum AuthError {
    /// The request carries no bearer token.
    MissingToken,
    /// The token is malformed, wrongly signed or fails a check.
    InvalidToken(String),
    /// The token has expired.
    ExpiredToken,
    /// The token names another issuer than the configured one.
    InvalidIssuer,
    /// No signing key could be had for the token.
    JwksError(String),
}

/// The mathematical value of an [`AuthError`].
pub enum AuthErrorView {
    MissingToken,
    InvalidToken(Seq<char>),
    ExpiredToken,
    InvalidIssuer,
    JwksError(Seq<char>),
}

impl View for AuthError {
    type V = AuthErrorView;

    open spec fn view(&self) -> AuthErrorView {
        match self {
            AuthError::MissingToken => AuthErrorView::MissingToken,
            AuthError::InvalidToken(text) => AuthErrorView::InvalidToken(text@),
            AuthError::ExpiredToken => AuthErrorView::ExpiredToken,
            AuthError::InvalidIssuer => AuthErrorView::InvalidIssuer,
            AuthError::JwksError(text) => AuthErrorView::JwksError(text@),
        }
    }
}

/// The HTTP status an error is answered with: 500 where the key service
/// failed, 401 where the request is at fault.
pub open spec fn auth_error_status(error: AuthErrorView) -> u16 {
    match error {
        AuthErrorView::JwksError(_) => 500,
        _ => 401,
    }
}

/// The text an error is answered with.
pub open spec fn auth_error_text(error: AuthErrorView) -> Seq<char> {
    match error {
        AuthErrorView::MissingToken => "Missing authorization header"@,
        AuthErrorView::InvalidToken(text) => "Invalid token: "@ + text,
        AuthErrorView::ExpiredToken => "Token has expired"@,
        AuthErrorView::InvalidIssuer => "Invalid token issuer"@,
        AuthErrorView::JwksError(text) => "Authentication service error: "@ + text,
    }
}

impl AuthError {
    /// The HTTP status the error is answered with.
    pub fn status_code(&self) -> (status: u16)
        ensures
            status == auth_error_status(self@),
    {
        match self {
            AuthError::JwksError(_) => 500,
            _ => 401,
        }
    }

    /// The text the error is answered with.
    pub fn message(&self) -> (text: String)
        ensures
            text@ == auth_error_text(self@),
    {
        match self {
            AuthError::MissingToken => String::from_str("Missing authorization header"),
            AuthError::InvalidToken(detail) => String::from_str("Invalid token: ").concat(
                detail.as_str(),
            ),
            AuthError::ExpiredToken => String::from_str("Token has expired"),
            AuthError::InvalidIssuer => String::from_str("Invalid token issuer"),
            AuthError::JwksError(detail) => String::from_str(
                "Authentication service error: ",
            ).concat(detail.as_str()),
        }
    }
}

/// Whether `c` is the letter `lower` in either case; `lower` is a small
/// ASCII letter and `upper` its capital.
pub open spec fn is_letter(c: char, lower: char, upper: char) -> bool {
    c == lower || c == upper
}

/// Whether a header value starts with the scheme `Bearer` in any mix of
/// cases, followed by one space.
pub open spec fn has_bearer_scheme(header: Seq<char>) -> bool {
    &&& header.len() >= 7
    &&& is_letter(header[0], 'b', 'B')
    &&& is_letter(header[1], 'e', 'E')
    &&& is_letter(header[2], 'a', 'A')
    &&& is_letter(header[3], 'r', 'R')
    &&& is_letter(header[4], 'e', 'E')
    &&& is_letter(header[5], 'r', 'R')
    &&& header[6] == ' '
}

/// The token of a header value: what follows the bearer scheme.
pub open spec fn bearer_token_of(header: Seq<char>) -> Option<Seq<char>> {
    if has_bearer_scheme(header) {
        Some(header.skip(7))
    } else {
        None
    }
}

/// Extracts the bearer token from the value of an `Authorization` header.
pub fn extract_bearer_token(auth_header: &str) -> (token: Option<&str>)
    ensures
        token is Some == bearer_token_of(auth_header@) is Some,
        token matches Some(t) ==> Some(t@) == bearer_token_of(auth_header@),
{
    let len = auth_header.unicode_len();
    if len < 7 {
        return None;
    }
    let b = auth_header.get_char(0);
    let e = auth_header.get_char(1);
    let a = auth_header.get_char(2);
    let r = auth_header.get_char(3);
    let e2 = auth_header.get_char(4);
    let r2 = auth_header.get_char(5);
    let space = auth_header.get_char(6);
    if (b == 'b' || b == 'B') && (e == 'e' || e == 'E') && (a == 'a' || a == 'A') && (r == 'r'
        || r == 'R') && (e2 == 'e' || e2 == 'E') && (r2 == 'r' || r2 == 'R') && space == ' ' {
        let token = auth_header.substring_char(7, len);
        assert(token@ =~= auth_header@.skip(7));
        Some(token)
    } else {
        None
    }
}

/// Reads the bearer token of a request from its `Authorization` header, if
/// it has one that can be read as text.
pub fn bearer_token<'a>(auth_header: Option<&'a str>) -> (r: Result<&'a str, AuthError>)
    ensures
        match auth_header {
            Some(header) => match bearer_token_of(header@) {
                Some(token) => r matches Ok(t) && t@ == token,
                None => r matches Err(e) && e@ == AuthErrorView::MissingToken,
            },
            None => r matches Err(e) && e@ == AuthErrorView::MissingToken,
        },
{
    match auth_header {
        Some(header) => match extract_bearer_token(header) {
            Some(token) => Ok(token),
            None => Err(AuthError::MissingToken),
        },
        None => Err(AuthError::MissingToken),
    }
}

/// The error of a request whose signing key could not be resolved.
pub fn key_unavailable(error: &JwksError) -> (e: AuthError)
    ensures
        e@ == AuthErrorView::JwksError(jwks_error_text(error@)),
{
    AuthError::JwksError(error.message())
}

/// Where the authentication of a request stands once its header was read
/// and the key cache was asked.
pub enum AuthStep<'a> {
    /// The request is refused.
    Rejected(AuthError),
    /// The key set has to be fetched before the token can be verified.
    FetchKeys { token: &'a str, kid: String },
    /// The signing key is at hand: the token can be verified.
    Verify { token: &'a str, key: SigningKey },
}

/// The first steps of authenticating a request at `now`: extracts the
/// bearer token from the `Authorization` header, reads the key identifier
/// from the token header, and asks the cache for the key.
pub fn begin_authentication<'a>(
    auth_header: Option<&'a str>,
    cache: &JwksCache,
    now: u64,
) -> (step: AuthStep<'a>)
    ensures
        match auth_header {
            Some(header) if has_bearer_scheme(header@) => match header_key_id(header@.skip(7)) {
                Some(Some(kid)) => match lookup(cache@, kid, now) {
                    KeyLookup::Found(found) => step matches AuthStep::Verify { token, key }
                        && token@ == header@.skip(7) && key == found,
                    KeyLookup::Refresh => step matches AuthStep::FetchKeys { token, kid: wanted }
                        && token@ == header@.skip(7) && wanted@ == kid,
                },
                Some(None) => step matches AuthStep::Rejected(e) && e@
                    == AuthErrorView::InvalidToken("Missing key ID in token header"@),
                None => step matches AuthStep::Rejected(e) && exists|reason: Seq<char>|
                    e@ == AuthErrorView::InvalidToken("Invalid JWT header: "@ + reason),
            },
            _ => step matches AuthStep::Rejected(e) && e@ == AuthErrorView::MissingToken,
        },
{
    let token = match bearer_token(auth_header) {
        Ok(token) => token,
        Err(e) => { return AuthStep::Rejected(e); },
    };
    let kid = match token_key_id(token) {
        Ok(kid) => kid,
        Err(e) => { return AuthStep::Rejected(e); },
    };
    match cache.get_key(kid.as_str(), now) {
        KeyLookup::Found(key) => AuthStep::Verify { token, key },
        KeyLookup::Refresh => AuthStep::FetchKeys { token, kid },
    }
}

/// The step after the key set was fetched at `now`: refreshes the cache
/// with the outcome and resolves the key again. A failed fetch and a key
/// that is still unknown are both errors of the key service.
pub fn resolve_fetched_key(
    cache: &mut JwksCache,
    kid: &str,
    fetched: FetchOutcome,
    now: u64,
) -> (r: Result<SigningKey, AuthError>)
    ensures
        final(cache)@ == refreshed(old(cache)@, fetched_entries(fetched), now),
        match resolution_after_fetch(kid@, fetched_entries(fetched)) {
            Ok(key) => r matches Ok(k) && k == key,
            Err(error) => r matches Err(e) && e@ == AuthErrorView::JwksError(
                jwks_error_text(error),
            ),
        },
{
    match cache.get_key_after_fetch(kid, fetched, now) {
        Ok(key) => Ok(key),
        Err(error) => Err(key_unavailable(&error)),
    }
}

/// The last step: verifies the token with its key and hands out the
/// authenticated user.
pub fn complete_authentication(token: &str, key: &SigningKey, config: &ClerkConfig) -> (r: Result<
    AuthenticatedUser,
    AuthError,
>)
    ensures
        match r {
            Ok(user) => is_verification_outcome(Ok(user.0@)),
            Err(e) => is_verification_outcome(Err(e@)),
        },
        r matches Err(e) ==> e@ is InvalidToken || e@ is ExpiredToken || e@ is InvalidIssuer,
{
    match verify_token(token, key, config) {
        Ok(claims) => Ok(AuthenticatedUser(claims)),
        Err(e) => Err(e),
    }
}

} // verus!
