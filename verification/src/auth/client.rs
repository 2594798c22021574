//! Classification of the auth endpoints' HTTP statuses into the outcomes
//! the credential lifecycle distinguishes. The HTTP calls themselves are
//! the caller's business.

use vstd::prelude::*;

verus! {

/// How the login endpoint answered, by HTTP status.
#[derive(Debug, Clone, Copy, PartialEq, Eq, Structural)]
pub enum LoginStatusClass {
    /// The body carries a token pair.
    Success,
    /// The email or password was wrong.
    InvalidCredentials,
    /// A multi-factor code is required or was invalid.
    MfaRequired,
    /// Any other status: surfaced with its code.
    Other,
}

/// How the refresh endpoint answered, by HTTP status.
#[derive(Debug, Clone, Copy, PartialEq, Eq, Structural)]
pub enum RefreshStatusClass {
    /// The body carries a fresh access token.
    Success,
    /// The refresh token is invalid or expired; the user must log in again.
    Rejected,
    /// Any other status: surfaced with its code.
    Other,
}

/// The class `classify_login_status` assigns to each status code.
pub open spec fn spec_login_status_class(status: u16) -> LoginStatusClass {
    if status == 200 {
        LoginStatusClass::Success
    } else if status == 401 {
        LoginStatusClass::InvalidCredentials
    } else if status == 403 {
        LoginStatusClass::MfaRequired
    } else {
        LoginStatusClass::Other
    }
}

/// Classifies the login endpoint's HTTP status.
pub fn classify_login_status(status: u16) -> (c: LoginStatusClass)
    ensures
        c == spec_login_status_class(status),
{
    if status == 200 {
        LoginStatusClass::Success
    } else if status == 401 {
        LoginStatusClass::InvalidCredentials
    } else if status == 403 {
        LoginStatusClass::MfaRequired
    } else {
        LoginStatusClass::Other
    }
}

/// The class `classify_refresh_status` assigns to each status code.
pub open spec fn spec_refresh_status_class(status: u16) -> RefreshStatusClass {
    if status == 200 {
        RefreshStatusClass::Success
    } else if status == 401 {
        RefreshStatusClass::Rejected
    } else {
        RefreshStatusClass::Other
    }
}

/// Classifies the refresh endpoint's HTTP status. A rejection is an
/// authentication failure and must never be retried automatically.
pub fn classify_refresh_status(status: u16) -> (c: RefreshStatusClass)
    ensures
        c == spec_refresh_status_class(status),
{
    if status == 200 {
        RefreshStatusClass::Success
    } else if status == 401 {
        RefreshStatusClass::Rejected
    } else {
        RefreshStatusClass::Other
    }
}

} // verus!
