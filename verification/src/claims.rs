//! Claims asserted by the identity provider, and the user rows built from
//! them.
//!
//! Claims arrive once per request: a stable subject, and optional display
//! name and email. A first-time login turns them into a new user row, which
//! requires all three fields; a missing display name or email is an
//! authorization failure for the request, never an internal error, and no
//! partial row is built.

use vstd::prelude::*;

use crate::ids::UserId;
use crate::ids::UserIdView;

verus! {

/// Extra claims carried alongside the standard ones: the groups the identity
/// provider places the user in. Not consulted by identity resolution.
#[derive(Debug, Clone)]
pub struct GroupClaims {
    pub groups: Vec<String>,
}

impl Default for GroupClaims {
    fn default() -> (r: Self)
        ensures
            r.groups@.len() == 0,
    {
        GroupClaims { groups: Vec::new() }
    }
}

/// Mathematical model of a request's claims.
#[verifier::ext_equal]
pub struct ClaimsV {
    pub subject: Seq<char>,
    pub name: Option<Seq<char>>,
    pub email: Option<Seq<char>>,
}

/// The per-request claims the identity provider asserted: the stable
/// subject, and the display name and email when the provider supplied them.
/// The display name is the provider's first available localized value,
/// already chosen by the integration that extracted the claims.
pub struct Claims {
    pub subject: String,
    pub name: Option<String>,
    pub email: Option<String>,
}

impl View for Claims {
    type V = ClaimsV;

    open spec fn view(&self) -> ClaimsV {
        ClaimsV {
            subject: self.subject@,
            name: match self.name {
                Some(n) => Some(n@),
                None => None,
            },
            email: match self.email {
                Some(e) => Some(e@),
                None => None,
            },
        }
    }
}

/// Mathematical model of a user row about to be inserted.
#[verifier::ext_equal]
pub struct PartialUserV {
    pub subject: Seq<char>,
    pub name: Seq<char>,
    pub email: Seq<char>,
}

/// A user row without its identifier, as handed to the store's create call.
pub struct PartialUser {
    pub subject: String,
    pub name: String,
    pub email: String,
}

impl View for PartialUser {
    type V = PartialUserV;

    open spec fn view(&self) -> PartialUserV {
        PartialUserV { subject: self.subject@, name: self.name@, email: self.email@ }
    }
}

/// Mathematical model of a persistent user row.
#[verifier::ext_equal]
pub struct UserView {
    pub id: UserIdView,
    pub subject: Seq<char>,
    pub name: Seq<char>,
    pub email: Seq<char>,
}

/// A persistent user row: durable identifier, identity-provider subject,
/// display name, email.
pub struct User {
    pub id: UserId,
    pub subject: String,
    pub name: String,
    pub email: String,
}

impl View for User {
    type V = UserView;

    open spec fn view(&self) -> UserView {
        UserView { id: self.id@, subject: self.subject@, name: self.name@, email: self.email@ }
    }
}

/// Why a request's identity resolution failed. Every variant surfaces to the
/// caller as an authorization failure, never as an internal error.
#[derive(Debug, Clone, Copy, PartialEq, Eq, Structural)]
pub enum ResolveError {
    /// The claims carry no display name, so a first-time user row cannot be
    /// built.
    MissingDisplayName,
    /// The claims carry no email, so a first-time user row cannot be built.
    MissingEmail,
    /// A database round trip during lookup or create failed.
    Database,
    /// The create call reported success but yielded no row.
    NoIdentity,
}

/// The claims hold everything a new user row needs.
pub open spec fn claims_complete(c: ClaimsV) -> bool {
    c.name is Some && c.email is Some
}

/// The row a first-time login inserts, defined when the claims are complete.
pub open spec fn spec_new_user(c: ClaimsV) -> PartialUserV {
    PartialUserV { subject: c.subject, name: c.name->Some_0, email: c.email->Some_0 }
}

/// The error owed when the claims are incomplete: the display name is
/// reported first, then the email.
pub open spec fn missing_field_error(c: ClaimsV) -> ResolveError {
    if c.name is None {
        ResolveError::MissingDisplayName
    } else {
        ResolveError::MissingEmail
    }
}

impl PartialUser {
    /// Builds the user row a first-time login inserts. Succeeds exactly when
    /// the claims carry both required fields; otherwise reports which one is
    /// missing, and builds nothing.
    pub fn from_claims(claims: &Claims) -> (r: Result<PartialUser, ResolveError>)
        ensures
            match r {
                Ok(u) => claims_complete(claims@) && u@ == spec_new_user(claims@),
                Err(e) => !claims_complete(claims@) && e == missing_field_error(claims@),
            },
    {
        let name = match &claims.name {
            Some(n) => n.clone(),
            None => {
                return Err(ResolveError::MissingDisplayName);
            },
        };
        let email = match &claims.email {
            Some(e) => e.clone(),
            None => {
                return Err(ResolveError::MissingEmail);
            },
        };
        Ok(PartialUser { subject: claims.subject.clone(), name, email })
    }
}

} // verus!
