//! Client-side core of a document-analysis service: the real-time session
//! layer (stream connection state, subscription registry, progress tracking)
//! and the credential lifecycle manager that feeds it bearer tokens.
//!
//! All I/O (HTTP, the websocket transport, the credential file, the system
//! key store) lives outside this crate; the types and decision logic here are
//! pure over plain values and carry full functional contracts.

pub mod api;
pub mod auth;
pub mod config;
pub mod error;
pub mod progress;
pub mod registry;
pub mod text;
pub mod tracker;
pub mod utils;
pub mod websocket;

use vstd::prelude::*;

verus! {

/// Seconds of validity an OAuth access token must still have before it is
/// served from the cache instead of being refreshed.
pub const REFRESH_MARGIN_SECS: i64 = 300;

} // verus!
