//! Error taxonomy of the session layer.
//!
//! Authentication failures are never retried automatically; connectivity
//! failures are retried by the bounded reconnection policy and become fatal
//! once it is exhausted; a malformed inbound frame is discarded without
//! tearing down the connection; a failed command enqueue is surfaced to the
//! immediate caller; and a bounded wait that runs out of time is reported
//! distinctly from a server-reported failure.

use vstd::prelude::*;

verus! {

/// The category of a failure, used to route it to the right handling policy.
#[derive(Debug, Clone, Copy, PartialEq, Eq, Structural)]
pub enum ErrorKind {
    Authentication,
    Connectivity,
    Protocol,
    Subscription,
    Timeout,
}

/// A failure of the credential lifecycle.
#[derive(Debug, Clone, Copy, PartialEq, Eq, Structural)]
pub enum AuthError {
    /// No credential record is available at all.
    NotAuthenticated,
    /// The auth endpoint rejected the refresh token; the user must log in again.
    RefreshRejected,
    /// An OAuth-only operation was attempted on an API-key credential.
    WrongCredentialKind,
    /// A supplied API key is not of the accepted shape.
    InvalidApiKeyFormat,
}

/// A failure to enqueue a stream command.
#[derive(Debug, Clone, Copy, PartialEq, Eq, Structural)]
pub enum SubscriptionError {
    /// There is no live connection to carry the command.
    NotConnected,
}

/// A fatal connectivity failure, reported once reconnection is exhausted.
#[derive(Debug, Clone, Copy, PartialEq, Eq, Structural)]
pub enum ConnectivityError {
    /// The configured maximum number of reconnection attempts was reached.
    AttemptsExhausted,
    /// The overall elapsed-time ceiling for reconnection was reached.
    ElapsedExceeded,
}

impl AuthError {
    /// Authentication failures all belong to the authentication category.
    pub fn category(&self) -> (k: ErrorKind)
        ensures
            k == ErrorKind::Authentication,
    {
        ErrorKind::Authentication
    }

    /// The message `describe` renders for each failure.
    pub open spec fn describe_spec(&self) -> Seq<char> {
        match self {
            AuthError::NotAuthenticated => "Not authenticated. Please run 'kanuni auth login'"@,
            AuthError::RefreshRejected => "Refresh token is invalid or expired. Please login again."@,
            AuthError::WrongCredentialKind => "Cannot update OAuth tokens for API key auth"@,
            AuthError::InvalidApiKeyFormat => "Invalid API key format"@,
        }
    }

    /// A clear message for the user, telling them to log in again where
    /// that is the remedy.
    pub fn describe(&self) -> (r: String)
        ensures
            r@ == self.describe_spec(),
    {
        match self {
            AuthError::NotAuthenticated => String::from_str(
                "Not authenticated. Please run 'kanuni auth login'",
            ),
            AuthError::RefreshRejected => String::from_str(
                "Refresh token is invalid or expired. Please login again.",
            ),
            AuthError::WrongCredentialKind => String::from_str(
                "Cannot update OAuth tokens for API key auth",
            ),
            AuthError::InvalidApiKeyFormat => String::from_str("Invalid API key format"),
        }
    }
}

impl SubscriptionError {
    /// Command-enqueue failures belong to the subscription category.
    pub fn category(&self) -> (k: ErrorKind)
        ensures
            k == ErrorKind::Subscription,
    {
        ErrorKind::Subscription
    }

    /// The message `describe` renders for each failure.
    pub open spec fn describe_spec(&self) -> Seq<char> {
        match self {
            SubscriptionError::NotConnected => "WebSocket not connected"@,
        }
    }

    /// A clear message for the user.
    pub fn describe(&self) -> (r: String)
        ensures
            r@ == self.describe_spec(),
    {
        match self {
            SubscriptionError::NotConnected => String::from_str("WebSocket not connected"),
        }
    }
}

impl ConnectivityError {
    /// Reconnection exhaustion belongs to the connectivity category.
    pub fn category(&self) -> (k: ErrorKind)
        ensures
            k == ErrorKind::Connectivity,
    {
        ErrorKind::Connectivity
    }

    /// The message `describe` renders for each failure.
    pub open spec fn describe_spec(&self) -> Seq<char> {
        match self {
            ConnectivityError::AttemptsExhausted => "Max reconnection attempts reached"@,
            ConnectivityError::ElapsedExceeded => "Reconnection time limit reached"@,
        }
    }

    /// A clear message for the user: the connection is gone for good and
    /// will not be retried behind their back.
    pub fn describe(&self) -> (r: String)
        ensures
            r@ == self.describe_spec(),
    {
        match self {
            ConnectivityError::AttemptsExhausted => String::from_str(
                "Max reconnection attempts reached",
            ),
            ConnectivityError::ElapsedExceeded => String::from_str(
                "Reconnection time limit reached",
            ),
        }
    }
}

} // verus!
