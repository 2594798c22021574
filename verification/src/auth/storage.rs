//! The handle naming the operating system's secret store entry used for the
//! refresh token. The secret store itself is reached by the caller; this
//! module only fixes the service name the entries live under.

use vstd::prelude::*;

verus! {

/// Names the secret-store service the refresh token is filed under.
#[derive(Debug)]
pub struct TokenStorage {
    service: String,
}

impl TokenStorage {
    /// The service name entries are filed under.
    pub closed spec fn spec_service(&self) -> Seq<char> {
        self.service@
    }

    /// Creates the handle with the fixed service name.
    pub fn new() -> (r: Self)
        ensures
            r.spec_service() == "kanuni"@,
    {
        TokenStorage { service: String::from_str("kanuni") }
    }

    /// The service name, for the caller that opens the secret store.
    pub fn service_name(&self) -> (r: &str)
        ensures
            r@ == self.spec_service(),
    {
        self.service.as_str()
    }
}

} // verus!
