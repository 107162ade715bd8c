//! The claims of a verified token.

use crate::text::text_view;
use vstd::prelude::*;

verus! {

/// Claims decoded from the payload of a verified token.
#[derive(Debug, Clone)]
pub struct Claims {
    /// Subject: the identifier of the user the token was issued to.
    pub sub: String,
    /// Issuer URL.
    pub iss: String,
    /// Audience, where the issuer sets one.
    pub aud: Option<String>,
    /// Expiration time, in seconds since the Unix epoch.
    pub exp: i64,
    /// Time of issue, in seconds since the Unix epoch.
    pub iat: i64,
    /// Time before which the token is not valid.
    pub nbf: Option<i64>,
    /// Unique identifier of the token.
    pub jti: Option<String>,
    /// Authorized party: the client the token was issued to.
    pub azp: Option<String>,
    /// Session identifier.
    pub sid: Option<String>,
    /// Organization the user acts for.
    pub org_id: Option<String>,
    /// Role of the user in that organization.
    pub org_role: Option<String>,
    /// Short name of that organization.
    pub org_slug: Option<String>,
}

/// The mathematical value of a [`Claims`] record: every text as a sequence
/// of characters.
pub struct ClaimsView {
    pub sub: Seq<char>,
    pub iss: Seq<char>,
    pub aud: Option<Seq<char>>,
    pub exp: i64,
    pub iat: i64,
    pub nbf: Option<i64>,
    pub jti: Option<Seq<char>>,
    pub azp: Option<Seq<char>>,
    pub sid: Option<Seq<char>>,
    pub org_id: Option<Seq<char>>,
    pub org_role: Option<Seq<char>>,
    pub org_slug: Option<Seq<char>>,
}

impl View for Claims {
    type V = ClaimsView;

    open spec fn view(&self) -> ClaimsView {
        ClaimsView {
            sub: self.sub@,
            iss: self.iss@,
            aud: text_view(self.aud),
            exp: self.exp,
            iat: self.iat,
            nbf: self.nbf,
            jti: text_view(self.jti),
            azp: text_view(self.azp),
            sid: text_view(self.sid),
            org_id: text_view(self.org_id),
            org_role: text_view(self.org_role),
            org_slug: text_view(self.org_slug),
        }
    }
}

/// Borrows an optional text.
fn borrow_text(text: &Option<String>) -> (r: Option<&str>)
    ensures
        r is Some == text is Some,
        r matches Some(s) ==> s@ == text->0@,
{
    match text {
        Some(s) => Some(s.as_str()),
        None => None,
    }
}

impl Claims {
    /// The identifier of the user the token was issued to.
    pub fn user_id(&self) -> (id: &str)
        ensures
            id@ == self@.sub,
    {
        self.sub.as_str()
    }

    /// The organization the user acts for, if the token names one.
    pub fn organization_id(&self) -> (id: Option<&str>)
        ensures
            id is Some == self@.org_id is Some,
            id matches Some(s) ==> s@ == self@.org_id->0,
    {
        borrow_text(&self.org_id)
    }

    /// Whether the token names an organization.
    pub fn has_organization(&self) -> (has: bool)
        ensures
            has == self@.org_id is Some,
    {
        self.org_id.is_some()
    }

    /// The role of the user in the organization, if the token names one.
    pub fn organization_role(&self) -> (role: Option<&str>)
        ensures
            role is Some == self@.org_role is Some,
            role matches Some(s) ==> s@ == self@.org_role->0,
    {
        borrow_text(&self.org_role)
    }
}

} // verus!
