//! The authentication injection point for outgoing requests.

use vstd::prelude::*;

use crate::api::params::QueryParams;
use crate::auth::Auth;

verus! {

/// The context that attaches a credential to a request's parameters.
#[derive(Debug, Clone)]
pub struct AuthContext {
    /// The auth token to use for the request.
    pub token: Auth,
}

impl AuthContext {
    /// Wrap a credential.
    pub fn new(token: Auth) -> (r: Self)
        ensures
            r == (AuthContext { token }),
    {
        AuthContext { token }
    }

    /// Attach the token as the reserved `access_key` query parameter.
    pub fn apply(&self, params: &mut QueryParams)
        ensures
            final(params)@ == old(params)@.push(("access_key"@, self.token.token_spec())),
    {
        match &self.token {
            Auth::Token(t) => params.push("access_key", t.as_str()),
        }
    }
}

} // verus!
