//! Token authentication: the claims of a token, the cache of signing keys,
//! the checks on a token and the steps of authenticating a request.

pub mod claims;
pub mod jose;
pub mod json;
pub mod jwks;
pub mod key_set;
pub mod middleware;
pub mod token;

pub use claims::Claims;
pub use middleware::AuthenticatedUser;
