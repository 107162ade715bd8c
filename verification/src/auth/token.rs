//! Tokens: reading the key identifier, the checks a token has to pass, and
//! the claims of a token that passed them.

use crate::auth::claims::{Claims, ClaimsView};
use crate::auth::jose::{
    decode_header_key_id, decode_payload, error_kind, error_text, header_key_id, to_json,
};
use crate::auth::json::{
    as_integer, as_optional_integer, as_optional_text, as_text, found, read_integer,
    read_optional_integer, read_optional_text, read_text, Json,
};
use crate::auth::key_set::{KeyAlgorithm, SigningKey};
use crate::auth::middleware::{AuthError, AuthErrorView};
use crate::config::ClerkConfig;
use crate::text::text_view;
use vstd::prelude::*;
use vstd::string::*;

verus! {

/// The key identifier of a decoded token header, or the error for a header
/// that could not be decoded (`Err` with the reason) or names no key.
pub fn key_id_from_header(decoded: Result<Option<String>, String>) -> (r: Result<String, AuthError>)
    ensures
        match decoded {
            Ok(Some(kid)) => r matches Ok(k) && k@ == kid@,
            Ok(None) => r matches Err(e) && e@ == AuthErrorView::InvalidToken(
                "Missing key ID in token header"@,
            ),
            Err(reason) => r matches Err(e) && e@ == AuthErrorView::InvalidToken(
                "Invalid JWT header: "@ + reason@,
            ),
        },
{
    match decoded {
        Ok(Some(kid)) => Ok(kid),
        Ok(None) => Err(AuthError::InvalidToken(String::from_str("Missing key ID in token header"))),
        Err(reason) => Err(
            AuthError::InvalidToken(
                String::from_str("Invalid JWT header: ").concat(reason.as_str()),
            ),
        ),
    }
}

/// Reads the key identifier from the header of a token, without verifying
/// the token.
pub fn token_key_id(token: &str) -> (r: Result<String, AuthError>)
    ensures
        match header_key_id(token@) {
            Some(Some(kid)) => r matches Ok(k) && k@ == kid,
            Some(None) => r matches Err(e) && e@ == AuthErrorView::InvalidToken(
                "Missing key ID in token header"@,
            ),
            None => r matches Err(e) && exists|reason: Seq<char>|
                e@ == AuthErrorView::InvalidToken("Invalid JWT header: "@ + reason),
        },
{
    let decoded = match decode_header_key_id(token) {
        Ok(kid) => Ok(kid),
        Err(error) => Err(error_text(&error)),
    };
    key_id_from_header(decoded)
}

/// The checks a token has to pass besides its signature.
pub struct TokenRules {
    /// The one algorithm the signature may use.
    pub algorithm: KeyAlgorithm,
    /// The issuer the token must name.
    pub issuer: String,
    /// The audience the token must name, where the audience is checked.
    pub audience: Option<String>,
    /// Whether the audience is checked at all.
    pub validate_aud: bool,
    /// Whether a token is rejected before its not-before time.
    pub validate_nbf: bool,
    /// Seconds of clock skew that the time checks tolerate.
    pub leeway: u64,
}

/// The checks for a token signed with `algorithm` under `config`: the
/// configured issuer exactly; the configured audience, or no audience check
/// where none is configured; expiry and not-before time without leeway.
pub fn token_rules(config: &ClerkConfig, algorithm: KeyAlgorithm) -> (rules: TokenRules)
    ensures
        rules.algorithm == algorithm,
        rules.issuer@ == config.issuer@,
        text_view(rules.audience) == text_view(config.audience),
        rules.validate_aud == config.audience is Some,
        rules.validate_nbf,
        rules.leeway == 0,
{
    let audience = match &config.audience {
        Some(audience) => Some(audience.clone()),
        None => None,
    };
    let validate_aud = audience.is_some();
    TokenRules {
        algorithm,
        issuer: config.issuer.clone(),
        audience,
        validate_aud,
        validate_nbf: true,
        leeway: 0,
    }
}

/// The kinds of decoding failure the library tells apart.
#[derive(Debug, Clone, Copy, PartialEq, Eq, Structural)]
pub enum DecodeFailure {
    /// The token has expired.
    Expired,
    /// The token names another issuer than the expected one.
    WrongIssuer,
    /// Anything else.
    Other,
}

/// The error a failed verification is reported as.
pub open spec fn rejection_of(kind: DecodeFailure, reason: Seq<char>) -> AuthErrorView {
    match kind {
        DecodeFailure::Expired => AuthErrorView::ExpiredToken,
        DecodeFailure::WrongIssuer => AuthErrorView::InvalidIssuer,
        DecodeFailure::Other => AuthErrorView::InvalidToken(reason),
    }
}

/// Classifies a failed verification: expiry and a wrong issuer have errors
/// of their own, every other failure is an invalid token with its reason.
pub fn rejection(kind: DecodeFailure, reason: String) -> (e: AuthError)
    ensures
        e@ == rejection_of(kind, reason@),
{
    match kind {
        DecodeFailure::Expired => AuthError::ExpiredToken,
        DecodeFailure::WrongIssuer => AuthError::InvalidIssuer,
        DecodeFailure::Other => AuthError::InvalidToken(reason),
    }
}

/// The error for a claim that cannot be read: missing where the payload has
/// no such member, malformed where the member has the wrong kind.
pub open spec fn claim_fault(name: Seq<char>, entry: Option<Json>) -> AuthErrorView {
    match entry {
        None => AuthErrorView::InvalidToken("Missing claim: "@ + name),
        Some(_) => AuthErrorView::InvalidToken("Malformed claim: "@ + name),
    }
}

fn fault(name: &str, entry: Option<&Json>) -> (e: AuthError)
    ensures
        e@ == claim_fault(name@, found(entry)),
{
    match entry {
        None => AuthError::InvalidToken(String::from_str("Missing claim: ").concat(name)),
        Some(_) => AuthError::InvalidToken(String::from_str("Malformed claim: ").concat(name)),
    }
}

/// Reads a claim that must be a text.
pub fn text_claim(name: &str, entry: Option<&Json>) -> (r: Result<String, AuthError>)
    ensures
        match as_text(found(entry)) {
            Some(text) => r matches Ok(t) && t == text,
            None => r matches Err(e) && e@ == claim_fault(name@, found(entry)),
        },
{
    match read_text(entry) {
        Some(text) => Ok(text),
        None => Err(fault(name, entry)),
    }
}

/// Reads a text claim that may be left out.
pub fn optional_text_claim(name: &str, entry: Option<&Json>) -> (r: Result<
    Option<String>,
    AuthError,
>)
    ensures
        match as_optional_text(found(entry)) {
            Some(text) => r matches Ok(t) && t == text,
            None => r matches Err(e) && e@ == claim_fault(name@, found(entry)),
        },
{
    match read_optional_text(entry) {
        Some(text) => Ok(text),
        None => Err(fault(name, entry)),
    }
}

/// Reads a claim that must be an integer.
pub fn integer_claim(name: &str, entry: Option<&Json>) -> (r: Result<i64, AuthError>)
    ensures
        match as_integer(found(entry)) {
            Some(number) => r matches Ok(n) && n == number,
            None => r matches Err(e) && e@ == claim_fault(name@, found(entry)),
        },
{
    match read_integer(entry) {
        Some(number) => Ok(number),
        None => Err(fault(name, entry)),
    }
}

/// Reads an integer claim that may be left out.
pub fn optional_integer_claim(name: &str, entry: Option<&Json>) -> (r: Result<
    Option<i64>,
    AuthError,
>)
    ensures
        match as_optional_integer(found(entry)) {
            Some(number) => r matches Ok(n) && n == number,
            None => r matches Err(e) && e@ == claim_fault(name@, found(entry)),
        },
{
    match read_optional_integer(entry) {
        Some(number) => Ok(number),
        None => Err(fault(name, entry)),
    }
}

/// The claims of a payload, or the error for the first claim, in the order
/// of the record, that cannot be read. Subject, issuer, expiry and time of
/// issue are required; every other claim may be left out or null. A payload
/// that is no object has no claims.
pub open spec fn payload_claims(payload: Json) -> Result<ClaimsView, AuthErrorView> {
    let sub = payload.member("sub"@);
    let iss = payload.member("iss"@);
    let aud = payload.member("aud"@);
    let exp = payload.member("exp"@);
    let iat = payload.member("iat"@);
    let nbf = payload.member("nbf"@);
    let jti = payload.member("jti"@);
    let azp = payload.member("azp"@);
    let sid = payload.member("sid"@);
    let org_id = payload.member("org_id"@);
    let org_role = payload.member("org_role"@);
    let org_slug = payload.member("org_slug"@);
    if as_text(sub) is None {
        Err(claim_fault("sub"@, sub))
    } else if as_text(iss) is None {
        Err(claim_fault("iss"@, iss))
    } else if as_optional_text(aud) is None {
        Err(claim_fault("aud"@, aud))
    } else if as_integer(exp) is None {
        Err(claim_fault("exp"@, exp))
    } else if as_integer(iat) is None {
        Err(claim_fault("iat"@, iat))
    } else if as_optional_integer(nbf) is None {
        Err(claim_fault("nbf"@, nbf))
    } else if as_optional_text(jti) is None {
        Err(claim_fault("jti"@, jti))
    } else if as_optional_text(azp) is None {
        Err(claim_fault("azp"@, azp))
    } else if as_optional_text(sid) is None {
        Err(claim_fault("sid"@, sid))
    } else if as_optional_text(org_id) is None {
        Err(claim_fault("org_id"@, org_id))
    } else if as_optional_text(org_role) is None {
        Err(claim_fault("org_role"@, org_role))
    } else if as_optional_text(org_slug) is None {
        Err(claim_fault("org_slug"@, org_slug))
    } else {
        Ok(
            ClaimsView {
                sub: as_text(sub)->0@,
                iss: as_text(iss)->0@,
                aud: text_view(as_optional_text(aud)->0),
                exp: as_integer(exp)->0,
                iat: as_integer(iat)->0,
                nbf: as_optional_integer(nbf)->0,
                jti: text_view(as_optional_text(jti)->0),
                azp: text_view(as_optional_text(azp)->0),
                sid: text_view(as_optional_text(sid)->0),
                org_id: text_view(as_optional_text(org_id)->0),
                org_role: text_view(as_optional_text(org_role)->0),
                org_slug: text_view(as_optional_text(org_slug)->0),
            },
        )
    }
}

/// Reading the claims does not turn on the audience a token names. Of two
/// payloads that differ in nothing but the audience, where the claims of
/// the one can be read and the audience of the other is a text, null or
/// left out, the other yields the same claims but for the audience.
pub proof fn lemma_audience_does_not_decide(payload: Json, other: Json)
    requires
        payload_claims(payload) is Ok,
        forall|name: Seq<char>| name != "aud"@ ==> other.member(name) == payload.member(name),
        as_optional_text(other.member("aud"@)) is Some,
    ensures
        payload_claims(other) == Ok::<ClaimsView, AuthErrorView>(
            ClaimsView {
                aud: text_view(as_optional_text(other.member("aud"@))->0),
                ..payload_claims(payload)->Ok_0
            },
        ),
{
    reveal_strlit("aud");
    reveal_strlit("sub");
    reveal_strlit("iss");
    reveal_strlit("exp");
    reveal_strlit("iat");
    reveal_strlit("nbf");
    reveal_strlit("jti");
    reveal_strlit("azp");
    reveal_strlit("sid");
    reveal_strlit("org_id");
    reveal_strlit("org_role");
    reveal_strlit("org_slug");
    // No other claim has the name of the audience: each differs from it in
    // its first or second letter.
    assert("aud"@[0] == 'a' && "aud"@[1] == 'u');
    assert("sub"@[0] == 's');
    assert("iss"@[0] == 'i');
    assert("exp"@[0] == 'e');
    assert("iat"@[0] == 'i');
    assert("nbf"@[0] == 'n');
    assert("jti"@[0] == 'j');
    assert("azp"@[1] == 'z');
    assert("sid"@[0] == 's');
    assert("org_id"@[0] == 'o');
    assert("org_role"@[0] == 'o');
    assert("org_slug"@[0] == 'o');
}

/// Reads the claims from the decoded payload of a token.
pub fn claims_from_payload(payload: &Json) -> (r: Result<Claims, AuthError>)
    ensures
        match payload_claims(*payload) {
            Ok(claims) => r matches Ok(c) && c@ == claims,
            Err(error) => r matches Err(e) && e@ == error,
        },
{
    let sub = match text_claim("sub", payload.get("sub")) {
        Ok(sub) => sub,
        Err(e) => { return Err(e); },
    };
    let iss = match text_claim("iss", payload.get("iss")) {
        Ok(iss) => iss,
        Err(e) => { return Err(e); },
    };
    let aud = match optional_text_claim("aud", payload.get("aud")) {
        Ok(aud) => aud,
        Err(e) => { return Err(e); },
    };
    let exp = match integer_claim("exp", payload.get("exp")) {
        Ok(exp) => exp,
        Err(e) => { return Err(e); },
    };
    let iat = match integer_claim("iat", payload.get("iat")) {
        Ok(iat) => iat,
        Err(e) => { return Err(e); },
    };
    let nbf = match optional_integer_claim("nbf", payload.get("nbf")) {
        Ok(nbf) => nbf,
        Err(e) => { return Err(e); },
    };
    let jti = match optional_text_claim("jti", payload.get("jti")) {
        Ok(jti) => jti,
        Err(e) => { return Err(e); },
    };
    let azp = match optional_text_claim("azp", payload.get("azp")) {
        Ok(azp) => azp,
        Err(e) => { return Err(e); },
    };
    let sid = match optional_text_claim("sid", payload.get("sid")) {
        Ok(sid) => sid,
        Err(e) => { return Err(e); },
    };
    let org_id = match optional_text_claim("org_id", payload.get("org_id")) {
        Ok(org_id) => org_id,
        Err(e) => { return Err(e); },
    };
    let org_role = match optional_text_claim("org_role", payload.get("org_role")) {
        Ok(org_role) => org_role,
        Err(e) => { return Err(e); },
    };
    let org_slug = match optional_text_claim("org_slug", payload.get("org_slug")) {
        Ok(org_slug) => org_slug,
        Err(e) => { return Err(e); },
    };
    Ok(Claims { sub, iss, aud, exp, iat, nbf, jti, azp, sid, org_id, org_role, org_slug })
}

/// What a verification leads to: the claims of the payload where decoding
/// let the token pass, else the error for the kind and reason of its
/// failure.
pub open spec fn verification_outcome(decoded: Result<Json, (DecodeFailure, String)>) -> Result<
    ClaimsView,
    AuthErrorView,
> {
    match decoded {
        Ok(payload) => payload_claims(payload),
        Err((kind, reason)) => Err(rejection_of(kind, reason@)),
    }
}

/// The claims of a verification that succeeded with `payload`, or the error
/// for one that failed with a kind and a reason.
pub fn claims_or_rejection(decoded: Result<Json, (DecodeFailure, String)>) -> (r: Result<
    Claims,
    AuthError,
>)
    ensures
        match verification_outcome(decoded) {
            Ok(claims) => r matches Ok(c) && c@ == claims,
            Err(error) => r matches Err(e) && e@ == error,
        },
{
    match decoded {
        Ok(payload) => claims_from_payload(&payload),
        Err((kind, reason)) => Err(rejection(kind, reason)),
    }
}

/// Whether the outcome of a verification is one that some result of
/// decoding leads to.
pub open spec fn is_verification_outcome(outcome: Result<ClaimsView, AuthErrorView>) -> bool {
    exists|decoded: Result<Json, (DecodeFailure, String)>| verification_outcome(decoded) == outcome
}

/// A failed verification is never reported as a missing token or as an
/// error of the key service.
pub proof fn lemma_verification_blames_the_token(decoded: Result<Json, (DecodeFailure, String)>)
    ensures
        verification_outcome(decoded) matches Err(error) ==> error is InvalidToken || error
            is ExpiredToken || error is InvalidIssuer,
{
}

/// Expiry and a wrong issuer are told apart from every other failure of
/// decoding, whatever its reason is and whatever else holds of the token:
/// the one is reported as an expired token, the other as an invalid issuer,
/// anything else as an invalid token with the reason.
pub proof fn lemma_decoding_failures_are_classified(reason: String)
    ensures
        verification_outcome(Err((DecodeFailure::Expired, reason))) == Err::<
            ClaimsView,
            AuthErrorView,
        >(AuthErrorView::ExpiredToken),
        verification_outcome(Err((DecodeFailure::WrongIssuer, reason))) == Err::<
            ClaimsView,
            AuthErrorView,
        >(AuthErrorView::InvalidIssuer),
        verification_outcome(Err((DecodeFailure::Other, reason))) == Err::<
            ClaimsView,
            AuthErrorView,
        >(AuthErrorView::InvalidToken(reason@)),
{
}

/// Verifies a token with its signing key under `config`: the signature with
/// the algorithm of the key, then expiry, not-before time, issuer and, where
/// one is configured, audience, all by the rules of [`token_rules`].
/// Verification reads the system clock, so the contract states what holds
/// of every outcome; [`claims_or_rejection`] says what each result of
/// decoding leads to.
pub fn verify_token(token: &str, key: &SigningKey, config: &ClerkConfig) -> (r: Result<
    Claims,
    AuthError,
>)
    ensures
        match r {
            Ok(claims) => is_verification_outcome(Ok(claims@)),
            Err(e) => is_verification_outcome(Err(e@)),
        },
        r matches Err(e) ==> e@ is InvalidToken || e@ is ExpiredToken || e@ is InvalidIssuer,
{
    let rules = token_rules(config, key.algorithm);
    let decoded = match decode_payload(token, &key.decoding_key, &rules) {
        Ok(payload) => Ok(to_json(&payload)),
        Err(error) => Err((error_kind(&error), error_text(&error))),
    };
    proof {
        lemma_verification_blames_the_token(decoded);
    }
    claims_or_rejection(decoded)
}

} // verus!
