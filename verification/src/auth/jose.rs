//! The boundary to `jsonwebtoken` and `serde_json`: the outside types the
//! library carries, and the calls it makes into them. Nothing in this file
//! is proved; each contract restates what the called function does.

use crate::auth::json::Json;
use crate::auth::key_set::KeyAlgorithm;
use crate::auth::token::{DecodeFailure, TokenRules};
use crate::text::text_view;
use jsonwebtoken::errors::{Error, ErrorKind};
use jsonwebtoken::{Algorithm, DecodingKey, Validation};
use serde_json::Value;
use std::collections::HashSet;
use vstd::prelude::*;

verus! {

/// A signature verification key of `jsonwebtoken`. Its contents are not
/// visible to the library.
#[verifier::external_type_specification]
#[verifier::external_body]
pub struct ExDecodingKey(jsonwebtoken::DecodingKey);

/// An error of `jsonwebtoken`.
#[verifier::external_type_specification]
#[verifier::external_body]
pub struct ExJwtError(jsonwebtoken::errors::Error);

/// A JSON value of `serde_json`.
#[verifier::external_type_specification]
#[verifier::external_body]
pub struct ExJsonValue(serde_json::Value);

/// The key that `jsonwebtoken::DecodingKey::from_rsa_components` builds
/// from a modulus and an exponent in their published text form, or `None`
/// where it rejects them.
pub uninterp spec fn rsa_decoding_key(modulus: Seq<char>, exponent: Seq<char>) -> Option<
    DecodingKey,
>;

/// Calls `DecodingKey::from_rsa_components`, which decodes both texts as
/// unpadded URL-safe base64 and keeps the bytes as an RSA key; it fails
/// where either text is not such base64. The contract claims that the
/// result depends on the two texts alone.
#[verifier::external_body]
pub(crate) fn decoding_key_from_rsa_components(modulus: &str, exponent: &str) -> (r: Option<
    DecodingKey,
>)
    ensures
        r == rsa_decoding_key(modulus@, exponent@),
{
    DecodingKey::from_rsa_components(modulus, exponent).ok()
}

/// `DecodingKey::clone`, which is derived, copies the key: the contract
/// claims that the copy is the same key.
pub assume_specification[ <DecodingKey as Clone>::clone ](key: &DecodingKey) -> (copy: DecodingKey)
    ensures
        copy == *key,
;

/// What `jsonwebtoken::decode_header` reads from a token: `None` where it
/// rejects the token, else the key identifier of the header, which may be
/// absent.
pub uninterp spec fn header_key_id(token: Seq<char>) -> Option<Option<Seq<char>>>;

/// Calls `jsonwebtoken::decode_header`, which splits the token at its last
/// two dots and decodes the part before them as a header, without checking
/// any signature, and hands out the `kid` field of that header. The
/// contract claims that the result depends on the token alone.
#[verifier::external_body]
pub(crate) fn decode_header_key_id(token: &str) -> (r: Result<Option<String>, Error>)
    ensures
        match r {
            Ok(kid) => header_key_id(token@) == Some(text_view(kid)),
            Err(_) => header_key_id(token@) is None,
        },
{
    jsonwebtoken::decode_header(token).map(|header| header.kid)
}

/// Reads the kind of an error with `Error::kind`, as far as the library
/// tells kinds apart. Nothing is stated of the result.
#[verifier::external_body]
pub(crate) fn error_kind(error: &Error) -> DecodeFailure {
    match error.kind() {
        ErrorKind::ExpiredSignature => DecodeFailure::Expired,
        ErrorKind::InvalidIssuer => DecodeFailure::WrongIssuer,
        _ => DecodeFailure::Other,
    }
}

/// The text of an error, as its `Display` writes it. Nothing is stated of
/// the result.
#[verifier::external_body]
pub(crate) fn error_text(error: &Error) -> String {
    error.to_string()
}

/// Calls `jsonwebtoken::decode` with a `Validation` that holds `rules`, and
/// hands out the payload. The call checks shape, algorithm and signature of
/// the token, then expiry and not-before time against the system clock,
/// which it takes to be past 1970, then issuer and audience. Its result
/// depends on the clock, so nothing is stated of it. The time checks
/// subtract the leeway from the clock reading, which a leeway of zero keeps
/// from overflowing.
#[verifier::external_body]
pub(crate) fn decode_payload(token: &str, key: &DecodingKey, rules: &TokenRules) -> (r: Result<
    Value,
    Error,
>)
    requires
        rules.leeway == 0,
{
    let mut validation = Validation::new(
        match rules.algorithm {
            KeyAlgorithm::RS256 => Algorithm::RS256,
            KeyAlgorithm::RS384 => Algorithm::RS384,
            KeyAlgorithm::RS512 => Algorithm::RS512,
        },
    );
    validation.leeway = rules.leeway;
    validation.validate_nbf = rules.validate_nbf;
    validation.validate_aud = rules.validate_aud;
    validation.set_issuer(&[&rules.issuer]);
    validation.aud = rules.audience.as_ref().map(|audience| HashSet::from([audience.clone()]));
    jsonwebtoken::decode::<Value>(token, key, &validation).map(|data| data.claims)
}

/// What a `serde_json::Value` holds, as a value of the library: null, a
/// boolean, a number with the integer that `Number::as_i64` gives for it, a
/// string, the items of an array in order, or the members of an object.
pub uninterp spec fn json_of(value: Value) -> Json;

/// Copies a `serde_json::Value` into a value of the library, variant by
/// variant, its items and members with it; a number becomes what
/// `Number::as_i64` gives for it. The contract claims that the copy depends
/// on the value alone.
#[verifier::external_body]
pub(crate) fn to_json(value: &Value) -> (json: Json)
    ensures
        json == json_of(*value),
{
    match value {
        Value::Null => Json::Null,
        Value::Bool(flag) => Json::Bool(*flag),
        Value::Number(number) => Json::Number(number.as_i64()),
        Value::String(text) => Json::Text(text.clone()),
        Value::Array(items) => Json::Array(items.iter().map(to_json).collect()),
        Value::Object(members) => Json::Object(
            members.iter().map(|(name, member)| (name.clone(), to_json(member))).collect(),
        ),
    }
}

/// What `serde_json::from_slice` reads from bytes: the JSON value they
/// write, as a value of the library, or the text of its error where they
/// write none.
pub uninterp spec fn parsed_json(bytes: Seq<u8>) -> Result<Json, Seq<char>>;

/// Calls `serde_json::from_slice` for a `Value`, and hands out the text
/// that `Display` writes for the error where it fails. The contract claims
/// that value and text depend on the bytes alone.
#[verifier::external_body]
pub(crate) fn json_from_slice(bytes: &[u8]) -> (r: Result<Value, String>)
    ensures
        match r {
            Ok(value) => parsed_json(bytes@) == Ok::<Json, Seq<char>>(json_of(value)),
            Err(reason) => parsed_json(bytes@) == Err::<Json, Seq<char>>(reason@),
        },
{
    serde_json::from_slice::<Value>(bytes).map_err(|error| error.to_string())
}

} // verus!
