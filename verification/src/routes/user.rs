//! The answer that tells a user who they are.

use crate::auth::claims::Claims;
use vstd::prelude::*;
use vstd::string::*;

verus! {

/// What the claims of a request say of its user.
#[derive(Debug, Clone)]
pub struct CurrentUser {
    pub user_id: String,
    pub organization_id: Option<String>,
    pub organization_role: Option<String>,
}

/// Copies an optional text.
fn owned(text: Option<&str>) -> (copy: Option<String>)
    ensures
        copy is Some == text is Some,
        copy matches Some(c) ==> c@ == text->0@,
{
    match text {
        Some(text) => Some(String::from_str(text)),
        None => None,
    }
}

impl CurrentUser {
    /// The user of the given claims, with their organization and role where
    /// the claims name them.
    pub fn from_claims(claims: &Claims) -> (user: Self)
        ensures
            user.user_id@ == claims@.sub,
            crate::text::text_view(user.organization_id) == claims@.org_id,
            crate::text::text_view(user.organization_role) == claims@.org_role,
    {
        CurrentUser {
            user_id: String::from_str(claims.user_id()),
            organization_id: owned(claims.organization_id()),
            organization_role: owned(claims.organization_role()),
        }
    }
}

} // verus!
