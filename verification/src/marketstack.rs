//! Client configuration shared by the blocking and asynchronous transports.
//!
//! The builder holds the protocol, host and credential, and computes the
//! base REST URL; the HTTP machinery that consumes them lives with the
//! caller, outside the verified library.

use vstd::prelude::*;

use crate::auth::Auth;

verus! {

/// A builder for a Marketstack API client.
#[derive(Debug, Clone)]
pub struct MarketstackBuilder {
    /// The protocol to reach the service with: `https`, or `http` after
    /// [`Self::insecure`].
    pub protocol: String,
    /// The host name of the service.
    pub host: String,
    /// The credential attached to every request.
    pub token: Auth,
}

impl MarketstackBuilder {
    /// Create a new client builder for a host and personal access token,
    /// using a secure protocol.
    pub fn new(host: &str, token: &str) -> (r: Self)
        ensures
            r.protocol@ == "https"@,
            r.host@ == host@,
            r.token.token_spec() == token@,
    {
        MarketstackBuilder {
            protocol: String::from_str("https"),
            host: host.to_owned(),
            token: Auth::Token(token.to_owned()),
        }
    }

    /// Switch to an insecure protocol (http instead of https).
    pub fn insecure(self) -> (r: Self)
        ensures
            r.protocol@ == "http"@,
            r.host == self.host,
            r.token == self.token,
    {
        MarketstackBuilder { protocol: String::from_str("http"), ..self }
    }

    /// The base REST URL that requests are resolved against:
    /// `protocol://host/v1/`.
    pub fn rest_url(&self) -> (r: String)
        ensures
            r@ == self.protocol@ + "://"@ + self.host@ + "/v1/"@,
    {
        self.protocol.clone().concat("://").concat(self.host.as_str()).concat("/v1/")
    }
}

} // verus!
