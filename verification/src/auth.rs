//! Authentication tokens for the Marketstack API.

use vstd::prelude::*;

use crate::api::client::Client;
use crate::api::eod::Eod;
use crate::api::error::ApiError;
use crate::api::probe::classify_body;
use crate::api::query::send_with_auth;

verus! {

/// A Marketstack API token.
///
/// Marketstack only supports one kind of token.
#[derive(Debug, Clone)]
pub enum Auth {
    /// A personal access token, obtained through the Marketstack dashboard.
    Token(String),
}

impl Auth {
    /// The token string carried by this credential.
    pub fn token(&self) -> (r: &String)
        ensures
            r@ == self.token_spec(),
    {
        match self {
            Auth::Token(t) => t,
        }
    }

    /// The token string, as seen by specifications.
    pub open spec fn token_spec(&self) -> Seq<char> {
        match self {
            Auth::Token(t) => t@,
        }
    }

    /// Confirm that the configured client can reach the service: query
    /// end-of-day data for one well-known symbol, check that the response
    /// is structured data, and discard it — surfacing any authentication,
    /// transport or service failure.
    pub fn check_connection<C: Client>(&self, api: &C) -> Result<(), ApiError<C::Error>> {
        let endpoint = match Eod::builder().symbol("AAPL").build() {
            Ok(endpoint) => endpoint,
            Err(_) => {
                // A fresh builder sets neither `date` nor `latest`, so its
                // `build` cannot fail.
                proof {
                    assert(false);
                }
                return Err(ApiError::auth_error());
            },
        };
        let rsp = match send_with_auth(&endpoint, api) {
            Ok(rsp) => rsp,
            Err(e) => {
                return Err(e);
            },
        };
        classify_body(rsp.status, &rsp.body)
    }
}

/// Errors concerning the presence of authentication information.
#[derive(Debug, Clone, PartialEq, Eq)]
pub enum AuthError {
    /// No credential was configured on the client.
    MissingAuth,
}

impl AuthError {
    /// A human-readable description of the error.
    pub fn to_string(&self) -> (r: String)
        ensures
            r@ == self.message_spec(),
    {
        match self {
            AuthError::MissingAuth => String::from_str("missing auth error"),
        }
    }

    /// The description returned by [`Self::to_string`].
    pub open spec fn message_spec(&self) -> Seq<char> {
        match self {
            AuthError::MissingAuth => "missing auth error"@,
        }
    }
}

} // verus!
