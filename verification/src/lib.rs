//! Bearer-token authentication against a published JSON Web Key Set.
//!
//! The crate holds the key cache and the token verification steps of an
//! HTTP backend, together with the settings they consume and the wording of
//! what the backend answers. All waiting (network, clock, request handling)
//! is left to the caller: the library takes what was read as plain values
//! and answers with the next decision.
//!
//! - [`auth::key_set`]: the entries of a key set and the keys they yield.
//! - [`auth::jwks`]: key-set documents and the cache that holds their keys
//!   for an hour.
//! - [`auth::token`]: the checks on a token and the claims it carries.
//! - [`auth::middleware`]: the steps from the `Authorization` header of a
//!   request to its authenticated user.
//! - [`auth::jose`]: the calls into `jsonwebtoken` and `serde_json`, whose
//!   contracts are stated and not proved.
//! - [`config`]: the settings and how they are assembled.

pub mod auth;
pub mod config;
pub mod routes;
pub mod text;
pub mod validation;
