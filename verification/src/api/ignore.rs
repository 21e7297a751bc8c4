//! A query modifier that ignores the data returned from an endpoint.

use vstd::prelude::*;

use crate::api::client::Client;
use crate::api::endpoint::Endpoint;
use crate::api::error::ApiError;
use crate::api::probe::error_from_response;
use crate::api::probe::status_is_success;
use crate::api::query::send_with_auth;

verus! {

/// A query modifier that ignores the data returned from an endpoint.
#[derive(Debug, Clone)]
pub struct Ignore<E> {
    /// The wrapped endpoint.
    pub endpoint: E,
}

/// Ignore the resulting data from an endpoint.
pub fn ignore<E>(endpoint: E) -> (r: Ignore<E>)
    ensures
        r == (Ignore { endpoint }),
{
    Ignore { endpoint }
}

impl<E: Endpoint> Ignore<E> {
    /// Perform the call and discard the body, surfacing only transport and
    /// HTTP-level failures.
    ///
    /// The request is built by the same path as the typed query and the
    /// `Raw` modifier, so a wrapped endpoint puts exactly the same traffic
    /// on the wire as a normal dispatch of it.  A body under a non-success
    /// status is classified by the usual rules; a successful call returns
    /// unit without reading the body.
    pub fn query<C: Client>(&self, client: &C) -> Result<(), ApiError<C::Error>> {
        let rsp = match send_with_auth(&self.endpoint, client) {
            Ok(rsp) => rsp,
            Err(e) => {
                return Err(e);
            },
        };
        if !status_is_success(rsp.status) {
            return Err(error_from_response(rsp.status, &rsp.body));
        }
        Ok(())
    }
}

} // verus!
