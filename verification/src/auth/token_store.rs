//! The persisted credential record: one tagged credential (OAuth tokens or
//! an API key) plus account metadata.
//!
//! Reading and writing the record on disk is the caller's business; this
//! module owns the record's shape and the one mutation the lifecycle needs,
//! replacing the OAuth tokens after a refresh.

use vstd::prelude::*;

use crate::error::AuthError;
use crate::progress::opt_text_equiv;

verus! {

/// The credential itself: exactly one variant is active at a time, and only
/// the OAuth variant changes over time (its access token and expiry are
/// replaced on refresh).
#[derive(Debug, PartialEq)]
pub enum AuthType {
    OAuth { access_token: String, refresh_token: String, expires_at: i64 },
    ApiKey { key: String, name: String, prefix: String, last_4: String },
}

/// Two credentials carry the same variant and field contents.
pub open spec fn auth_type_equiv(a: &AuthType, b: &AuthType) -> bool {
    match (a, b) {
        (
            AuthType::OAuth { access_token: aa, refresh_token: ar, expires_at: ae },
            AuthType::OAuth { access_token: ba, refresh_token: br, expires_at: be },
        ) => aa@ == ba@ && ar@ == br@ && ae == be,
        (
            AuthType::ApiKey { key: ak, name: an, prefix: ap, last_4: al },
            AuthType::ApiKey { key: bk, name: bn, prefix: bp, last_4: bl },
        ) => ak@ == bk@ && an@ == bn@ && ap@ == bp@ && al@ == bl@,
        _ => false,
    }
}

impl Clone for AuthType {
    /// Copies the credential, keeping its variant and field contents.
    fn clone(&self) -> (r: Self)
        ensures
            auth_type_equiv(self, &r),
    {
        match self {
            AuthType::OAuth { access_token, refresh_token, expires_at } => AuthType::OAuth {
                access_token: access_token.clone(),
                refresh_token: refresh_token.clone(),
                expires_at: *expires_at,
            },
            AuthType::ApiKey { key, name, prefix, last_4 } => AuthType::ApiKey {
                key: key.clone(),
                name: name.clone(),
                prefix: prefix.clone(),
                last_4: last_4.clone(),
            },
        }
    }
}

/// The record persisted to disk: the credential plus account metadata and
/// bookkeeping timestamps (unix seconds).
#[derive(Debug, PartialEq)]
pub struct StoredCredentials {
    pub auth_type: AuthType,
    pub user_id: Option<u128>,
    pub email: Option<String>,
    pub created_at: i64,
    pub updated_at: i64,
}

/// Two records agree on the credential and on every metadata field.
pub open spec fn creds_equiv(a: &StoredCredentials, b: &StoredCredentials) -> bool {
    &&& auth_type_equiv(&a.auth_type, &b.auth_type)
    &&& a.user_id == b.user_id
    &&& opt_text_equiv(&a.email, &b.email)
    &&& a.created_at == b.created_at
    &&& a.updated_at == b.updated_at
}

impl Clone for StoredCredentials {
    /// Copies the record, keeping every field's content.
    fn clone(&self) -> (r: Self)
        ensures
            creds_equiv(self, &r),
    {
        StoredCredentials {
            auth_type: self.auth_type.clone(),
            user_id: self.user_id,
            email: match &self.email {
                Some(e) => Some(e.clone()),
                None => None,
            },
            created_at: self.created_at,
            updated_at: self.updated_at,
        }
    }
}

impl StoredCredentials {
    /// Replaces the OAuth tokens after a successful refresh and stamps the
    /// update time. Fails, changing nothing, exactly when the record holds
    /// an API key: API keys have no tokens to rotate.
    pub fn update_oauth_tokens(
        &mut self,
        access_token: String,
        refresh_token: String,
        expires_at: i64,
        now: i64,
    ) -> (r: Result<(), AuthError>)
        ensures
            r is Ok <==> old(self).auth_type is OAuth,
            r is Ok ==> {
                &&& final(self).auth_type matches AuthType::OAuth {
                    access_token: at,
                    refresh_token: rt,
                    expires_at: exp,
                } && at@ == access_token@ && rt@ == refresh_token@ && exp == expires_at
                &&& final(self).user_id == old(self).user_id
                &&& final(self).email == old(self).email
                &&& final(self).created_at == old(self).created_at
                &&& final(self).updated_at == now
            },
            r is Err ==> {
                &&& r == Result::<(), AuthError>::Err(AuthError::WrongCredentialKind)
                &&& *final(self) == *old(self)
            },
    {
        match &mut self.auth_type {
            AuthType::OAuth { access_token: at, refresh_token: rt, expires_at: exp } => {
                *at = access_token;
                *rt = refresh_token;
                *exp = expires_at;
                self.updated_at = now;
                Ok(())
            },
            AuthType::ApiKey { .. } => Err(AuthError::WrongCredentialKind),
        }
    }
}

/// Knows where the credential record lives under the configuration
/// directory. The directory itself is established by the caller.
#[derive(Debug)]
pub struct TokenStore {
    config_dir: String,
}

impl TokenStore {
    /// The configuration directory the store was created with.
    pub closed spec fn dir(&self) -> Seq<char> {
        self.config_dir@
    }

    /// Creates a store rooted at the given configuration directory.
    pub fn new(config_dir: String) -> (r: Self)
        ensures
            r.dir() == config_dir@,
    {
        TokenStore { config_dir }
    }

    /// The path of the credential file within the configuration directory.
    pub fn auth_file_path(&self) -> (r: String)
        ensures
            r@ == self.dir() + "/auth.json"@,
    {
        let mut p = self.config_dir.clone();
        p.append("/auth.json");
        p
    }
}

} // verus!
