//! The persisted rows of the auth subsystem and the error taxonomy.
//!
//! Each executable record carries a mathematical model (`View`) over
//! `Seq<char>` so that every contract in the crate can be stated over plain
//! mathematical values.

use vstd::prelude::*;

verus! {

/// A user row: surrogate key plus the email address reported by the
/// identity provider.  Users are created on first successful callback for a
/// given email and are immutable afterwards.
#[derive(Debug)]
pub struct User {
    pub id: u64,
    pub email: String,
}

/// Mathematical model of a user row.
#[verifier::ext_equal]
pub ghost struct UserModel {
    pub id: u64,
    pub email: Seq<char>,
}

impl View for User {
    type V = UserModel;

    open spec fn view(&self) -> UserModel {
        UserModel { id: self.id, email: self.email@ }
    }
}

/// A session row: surrogate key, the owning user, the opaque token placed in
/// the browser cookie, and the provider's bearer token.  Sessions are created
/// once per successful callback and never mutated.
#[derive(Debug)]
pub struct Session {
    pub id: u64,
    pub user_id: u64,
    pub session_token: String,
    pub access_token: String,
}

/// Mathematical model of a session row.
#[verifier::ext_equal]
pub ghost struct SessionModel {
    pub id: u64,
    pub user_id: u64,
    pub session_token: Seq<char>,
    pub access_token: Seq<char>,
}

impl View for Session {
    type V = SessionModel;

    open spec fn view(&self) -> SessionModel {
        SessionModel {
            id: self.id,
            user_id: self.user_id,
            session_token: self.session_token@,
            access_token: self.access_token@,
        }
    }
}

/// Errors that abort a login attempt.  Every failure leaves the flow with no
/// cookie issued; the variants say which step failed and which HTTP class
/// the browser sees.
#[derive(Clone, Copy, Debug, PartialEq, Eq, Structural)]
pub enum AuthError {
    /// The `state` query parameter did not match the token issued at login
    /// initiation, or no token had been issued.  User-visible 401.
    CsrfMismatch,
    /// The authorization-code exchange against the provider failed.  5xx.
    ProviderExchangeFailed,
    /// The provider's userinfo endpoint failed or returned no usable email.
    /// 5xx.
    ProviderUserInfoFailed,
    /// A required store operation could not complete.  5xx.
    StoreUnavailable,
}

impl AuthError {
    /// The HTTP status code surfaced to the browser for this failure.
    pub fn status_code(&self) -> (code: u16)
        ensures
            code == self.spec_status_code(),
    {
        match self {
            AuthError::CsrfMismatch => 401,
            AuthError::ProviderExchangeFailed => 500,
            AuthError::ProviderUserInfoFailed => 500,
            AuthError::StoreUnavailable => 500,
        }
    }

    /// Only the CSRF mismatch is the client's fault; everything else is a
    /// server-side failure.
    pub open spec fn spec_status_code(self) -> u16 {
        match self {
            AuthError::CsrfMismatch => 401u16,
            AuthError::ProviderExchangeFailed => 500u16,
            AuthError::ProviderUserInfoFailed => 500u16,
            AuthError::StoreUnavailable => 500u16,
        }
    }
}

/// Errors reported by a session store.
#[derive(Clone, Copy, Debug, PartialEq, Eq, Structural)]
pub enum StoreError {
    /// A uniqueness constraint (user email, session token) was violated.
    /// Recovered locally during the user upsert; never surfaced to clients.
    ConstraintViolation,
    /// The store could not be reached or the query failed.
    Unavailable,
}

} // verus!
