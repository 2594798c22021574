//! The credential lifecycle: the persisted record, the auth endpoint
//! shapes, and the manager that owns the cached credential and decides, for
//! each token request, whether to serve the cache, start the one refresh,
//! or make the caller wait for a refresh already in flight.
//!
//! The refresh call itself is an HTTP exchange the caller performs; the
//! manager only hands out the decision and absorbs the outcome, so that at
//! most one refresh is ever in flight and a rejected refresh leaves the
//! stored record untouched.

pub mod client;
pub mod models;
pub mod sessions;
pub mod storage;
pub mod token_store;

use vstd::prelude::*;

use crate::error::AuthError;
use crate::text::{has_prefix, str_has_prefix};
use crate::REFRESH_MARGIN_SECS;
use self::token_store::{creds_equiv, AuthType, StoredCredentials};

verus! {

/// What the one refresh call brought back on success: the new access token,
/// a replacement refresh token if the server issued one, and the lifetime
/// in seconds.
#[derive(Debug, PartialEq)]
pub struct RefreshGrant {
    pub access_token: String,
    pub refresh_token: Option<String>,
    pub expires_in: i64,
}

/// What a token request decides, as the caller sees it.
#[derive(Debug, PartialEq)]
pub enum TokenAction {
    /// No credential is available; the caller must log in.
    Fail(AuthError),
    /// Serve this token: an API key, or a cached access token still beyond
    /// the safety margin.
    UseToken(String),
    /// This caller, and only this caller, performs the refresh exchange
    /// with the given refresh token, then reports back.
    StartRefresh(String),
    /// A refresh is already in flight; wait for its result instead of
    /// starting another.
    AwaitRefresh,
}

/// What a token request decides, at the specification level.
pub enum TokenDecision {
    DenyNotAuthenticated,
    Serve(Seq<char>),
    BeginRefresh(Seq<char>),
    AwaitInFlight,
}

/// The decision a token request at time `now` (unix seconds) must take,
/// given the cached credential and whether a refresh is in flight: no
/// credential fails; an API key is served as is; an OAuth access token
/// still valid beyond the safety margin is served from the cache; otherwise
/// a refresh is joined if one is in flight, else started.
pub open spec fn token_decision(
    creds: Option<StoredCredentials>,
    refreshing: bool,
    now: i64,
) -> TokenDecision {
    match creds {
        None => TokenDecision::DenyNotAuthenticated,
        Some(c) => match c.auth_type {
            AuthType::ApiKey { key, .. } => TokenDecision::Serve(key@),
            AuthType::OAuth { access_token, refresh_token, expires_at } => if expires_at > now
                + REFRESH_MARGIN_SECS {
                TokenDecision::Serve(access_token@)
            } else if refreshing {
                TokenDecision::AwaitInFlight
            } else {
                TokenDecision::BeginRefresh(refresh_token@)
            },
        },
    }
}

/// The executable action carries out the specified decision, token contents
/// compared by characters.
pub open spec fn action_matches(a: &TokenAction, d: TokenDecision) -> bool {
    match (a, d) {
        (TokenAction::Fail(e), TokenDecision::DenyNotAuthenticated) => e
            == AuthError::NotAuthenticated,
        (TokenAction::UseToken(t), TokenDecision::Serve(s)) => t@ == s,
        (TokenAction::StartRefresh(rt), TokenDecision::BeginRefresh(s)) => rt@ == s,
        (TokenAction::AwaitRefresh, TokenDecision::AwaitInFlight) => true,
        _ => false,
    }
}

/// Addition on i64 clamped at the type bounds.
pub open spec fn sat_add_i64(a: int, b: int) -> int {
    if a + b > i64::MAX {
        i64::MAX as int
    } else if a + b < i64::MIN {
        i64::MIN as int
    } else {
        a + b
    }
}

/// Adds two i64 values, clamping at the type bounds.
fn sat_add(a: i64, b: i64) -> (r: i64)
    ensures
        r as int == sat_add_i64(a as int, b as int),
{
    if b >= 0 {
        if a <= i64::MAX - b {
            a + b
        } else {
            i64::MAX
        }
    } else {
        if a >= i64::MIN - b {
            a + b
        } else {
            i64::MIN
        }
    }
}

/// Relies on chrono's `Utc::now` and `DateTime::timestamp` for the current
/// unix time in seconds; chrono's supported date range keeps the value
/// within ten trillion seconds of the epoch either way.
#[verifier::external_body]
fn now_unix() -> (r: i64)
    ensures
        -10_000_000_000_000 <= r <= 10_000_000_000_000,
{
    chrono::Utc::now().timestamp()
}

/// Owns the in-memory cached credential and serializes refreshes: concurrent
/// callers never trigger a second refresh with the same refresh token.
#[derive(Debug)]
pub struct CredentialManager {
    credentials: Option<StoredCredentials>,
    refresh_in_flight: bool,
}

impl CredentialManager {
    /// The cached credential record.
    pub closed spec fn creds(&self) -> Option<StoredCredentials> {
        self.credentials
    }

    /// Whether a refresh exchange is currently in flight.
    pub closed spec fn refreshing(&self) -> bool {
        self.refresh_in_flight
    }

    /// A refresh is only ever in flight for a cached OAuth credential.
    pub open spec fn wf(&self) -> bool {
        self.refreshing() ==> (self.creds() matches Some(c) && c.auth_type is OAuth)
    }

    /// Creates a manager over whatever credential record the store loaded.
    pub fn new(loaded: Option<StoredCredentials>) -> (r: Self)
        ensures
            r.creds() == loaded,
            !r.refreshing(),
            r.wf(),
    {
        CredentialManager { credentials: loaded, refresh_in_flight: false }
    }

    /// Whether any credential is cached.
    pub fn is_authenticated(&self) -> (r: bool)
        ensures
            r == self.creds() is Some,
    {
        self.credentials.is_some()
    }

    /// Replaces the cached record, e.g. after a fresh login reloaded the
    /// store. Any stale in-flight mark is dropped.
    pub fn set_credentials(&mut self, creds: Option<StoredCredentials>)
        ensures
            final(self).creds() == creds,
            !final(self).refreshing(),
            final(self).wf(),
    {
        self.credentials = creds;
        self.refresh_in_flight = false;
    }

    /// Drops the cached credential; the caller clears the store alongside.
    pub fn logout(&mut self)
        ensures
            final(self).creds() is None,
            !final(self).refreshing(),
            final(self).wf(),
    {
        self.credentials = None;
        self.refresh_in_flight = false;
    }

    /// A copy of the cached record, for the caller that persists it.
    pub fn current_credentials(&self) -> (r: Option<StoredCredentials>)
        ensures
            match (self.creds(), &r) {
                (Some(c), Some(rc)) => creds_equiv(&c, rc),
                (None, None) => true,
                _ => false,
            },
    {
        match &self.credentials {
            Some(c) => Some(c.clone()),
            None => None,
        }
    }

    /// Decides one token request at time `now`. The cached record is not
    /// changed; if the decision is to start a refresh, the in-flight mark
    /// is set so that every later request joins that refresh instead of
    /// starting another.
    pub fn get_access_token(&mut self, now: i64) -> (a: TokenAction)
        requires
            old(self).wf(),
            now < i64::MAX - REFRESH_MARGIN_SECS,
        ensures
            final(self).wf(),
            final(self).creds() == old(self).creds(),
            action_matches(&a, token_decision(old(self).creds(), old(self).refreshing(), now)),
            final(self).refreshing() == (old(self).refreshing() || token_decision(
                old(self).creds(),
                old(self).refreshing(),
                now,
            ) is BeginRefresh),
    {
        let mut start_refresh = false;
        let a = match &self.credentials {
            None => TokenAction::Fail(AuthError::NotAuthenticated),
            Some(c) => match &c.auth_type {
                AuthType::ApiKey { key, .. } => TokenAction::UseToken(key.clone()),
                AuthType::OAuth { access_token, refresh_token, expires_at } => {
                    if *expires_at > now + REFRESH_MARGIN_SECS {
                        TokenAction::UseToken(access_token.clone())
                    } else if self.refresh_in_flight {
                        TokenAction::AwaitRefresh
                    } else {
                        start_refresh = true;
                        TokenAction::StartRefresh(refresh_token.clone())
                    }
                },
            },
        };
        if start_refresh {
            self.refresh_in_flight = true;
        }
        a
    }

    /// Decides one token request at the current time, which is returned
    /// beside the action.
    pub fn get_access_token_now(&mut self) -> (r: (i64, TokenAction))
        requires
            old(self).wf(),
        ensures
            final(self).wf(),
            final(self).creds() == old(self).creds(),
            action_matches(&r.1, token_decision(old(self).creds(), old(self).refreshing(), r.0)),
            final(self).refreshing() == (old(self).refreshing() || token_decision(
                old(self).creds(),
                old(self).refreshing(),
                r.0,
            ) is BeginRefresh),
    {
        let now = now_unix();
        let a = self.get_access_token(now);
        (now, a)
    }

    /// Absorbs the outcome of the one in-flight refresh. On a grant the
    /// cached OAuth record gets the new access token, the server's
    /// replacement refresh token if it issued one (the prior one is kept
    /// otherwise), an expiry of `now` plus the granted lifetime, and a
    /// fresh update stamp; the new access token is returned for every
    /// waiting caller. On a rejection the record is left exactly as it was
    /// — nothing is half-updated, nothing new is there to persist — and the
    /// caller gets an authentication failure telling the user to log in
    /// again. Either way the in-flight mark is cleared.
    pub fn complete_refresh(&mut self, grant: Option<RefreshGrant>, now: i64) -> (r: Result<
        String,
        AuthError,
    >)
        requires
            old(self).wf(),
            old(self).refreshing(),
        ensures
            final(self).wf(),
            !final(self).refreshing(),
            grant is None ==> {
                &&& r == Result::<String, AuthError>::Err(AuthError::RefreshRejected)
                &&& final(self).creds() == old(self).creds()
            },
            grant matches Some(g) ==> r matches Ok(t) && t@ == g.access_token@,
            grant matches Some(g) ==> old(self).creds() matches Some(oldc)
                ==> oldc.auth_type matches AuthType::OAuth {
                access_token: oa,
                refresh_token: orr,
                expires_at: oe,
            } ==> {
                &&& final(self).creds() matches Some(c)
                &&& c.auth_type matches AuthType::OAuth {
                    access_token: na,
                    refresh_token: nr,
                    expires_at: ne,
                }
                &&& na@ == g.access_token@
                &&& nr@ == (match g.refresh_token {
                    Some(t2) => t2@,
                    None => orr@,
                })
                &&& ne as int == sat_add_i64(now as int, g.expires_in as int)
                &&& c.user_id == oldc.user_id
                &&& c.email == oldc.email
                &&& c.created_at == oldc.created_at
                &&& c.updated_at == now
            },
    {
        self.refresh_in_flight = false;
        match grant {
            None => Err(AuthError::RefreshRejected),
            Some(g) => {
                let token_out = g.access_token.clone();
                let expires_at = sat_add(now, g.expires_in);
                match &mut self.credentials {
                    Some(c) => {
                        match &mut c.auth_type {
                            AuthType::OAuth {
                                access_token: at,
                                refresh_token: rt,
                                expires_at: exp,
                            } => {
                                *at = g.access_token;
                                match g.refresh_token {
                                    Some(t2) => {
                                        *rt = t2;
                                    },
                                    None => {},
                                }
                                *exp = expires_at;
                                c.updated_at = now;
                            },
                            AuthType::ApiKey { .. } => {},
                        }
                    },
                    None => {},
                }
                Ok(token_out)
            },
        }
    }
}

/// The single-flight law: while a refresh is in flight, no sequence of
/// further token requests, at any times, ever starts a second refresh —
/// each such request is told to wait, or is served a token.
pub proof fn lemma_refresh_single_flight(creds: Option<StoredCredentials>, times: Seq<i64>)
    ensures
        forall|i: int|
            0 <= i < times.len() ==> !(#[trigger] token_decision(creds, true, times[i])
                is BeginRefresh),
{
}

/// The shared-result law: every request that arrives while a cached OAuth
/// access token is still beyond the safety margin — in particular, each of
/// the callers that waited for one refresh, once it lands — is served
/// exactly that access token.
pub proof fn lemma_refreshed_token_shared(c: StoredCredentials, refreshing: bool, t: i64)
    requires
        c.auth_type is OAuth,
        c.auth_type->OAuth_expires_at > t + REFRESH_MARGIN_SECS,
    ensures
        token_decision(Some(c), refreshing, t) == TokenDecision::Serve(
            c.auth_type->OAuth_access_token@,
        ),
{
}

/// Splits an API key of the accepted shape into its prefix and its last
/// four characters, as the key-creation flow records them. A key is
/// accepted exactly when it starts with one of the two known prefixes and
/// carries at least four characters after it.
pub fn parse_api_key(key: &str) -> (r: Result<(String, String), AuthError>)
    ensures
        r is Ok <==> (key@.len() >= 16 && (has_prefix(key@, "kanuni_live_"@) || has_prefix(
            key@,
            "kanuni_test_"@,
        ))),
        r matches Ok(p) ==> p.0@ == key@.take(12) && p.1@ == key@.skip(key@.len() - 4),
        r is Err ==> r == Result::<(String, String), AuthError>::Err(AuthError::InvalidApiKeyFormat),
{
    proof {
        reveal_strlit("kanuni_live_");
        reveal_strlit("kanuni_test_");
    }
    let live = str_has_prefix(key, "kanuni_live_");
    let test = str_has_prefix(key, "kanuni_test_");
    if !live && !test {
        return Err(AuthError::InvalidApiKeyFormat);
    }
    let len = key.unicode_len();
    if len < 16 {
        return Err(AuthError::InvalidApiKeyFormat);
    }
    let prefix = String::from_str(key.substring_char(0, 12));
    let last_4 = String::from_str(key.substring_char(len - 4, len));
    proof {
        assert(prefix@ =~= key@.take(12));
        assert(last_4@ =~= key@.skip(key@.len() - 4));
    }
    Ok((prefix, last_4))
}

} // verus!
