//! Request and response shapes of the auth endpoints, over plain values;
//! timestamps are unix seconds and durations plain second counts.

use vstd::prelude::*;

verus! {

/// A password login request.
#[derive(Debug, PartialEq)]
pub struct LoginRequest {
    pub email: String,
    pub password: String,
    pub mfa_code: Option<String>,
}

/// The account data the auth endpoints report.
#[derive(Debug, PartialEq)]
pub struct UserInfo {
    pub id: String,
    pub email: String,
    pub first_name: Option<String>,
    pub last_name: Option<String>,
    pub email_verified: bool,
    pub subscription_tier: Option<String>,
    pub mfa_enabled: bool,
}

/// A successful login: the token pair and its lifetime in seconds.
#[derive(Debug, PartialEq)]
pub struct LoginResponse {
    pub user: UserInfo,
    pub access_token: String,
    pub refresh_token: String,
    pub expires_in: i64,
}

/// A refresh-token exchange request.
#[derive(Debug, PartialEq)]
pub struct RefreshRequest {
    pub refresh_token: String,
}

/// A successful refresh: the new access token and its lifetime in seconds.
#[derive(Debug, PartialEq)]
pub struct RefreshResponse {
    pub user: UserInfo,
    pub access_token: String,
    pub expires_in: i64,
}

/// A bundle of live tokens with their absolute expiry (unix seconds).
#[derive(Debug, PartialEq)]
pub struct AuthTokens {
    pub access_token: String,
    pub refresh_token: String,
    pub expires_at: i64,
    pub user: UserInfo,
}

/// A typed failure body an endpoint may return.
#[derive(Debug, PartialEq)]
pub struct ErrorResponse {
    pub error: String,
    pub message: String,
}

/// One active session of this client, as the sessions endpoint reports it;
/// timestamps are unix seconds.
#[derive(Debug, PartialEq)]
pub struct CliSessionResponse {
    pub id: String,
    pub device_name: Option<String>,
    pub platform: Option<String>,
    pub hostname: Option<String>,
    pub ip_address: Option<String>,
    pub last_used_at: i64,
    pub scopes: Vec<String>,
    pub is_current: bool,
    pub is_active: bool,
    pub created_at: i64,
}

/// A request to revoke one session.
#[derive(Debug, PartialEq)]
pub struct RevokeSessionRequest {
    pub reason: Option<String>,
}

} // verus!
