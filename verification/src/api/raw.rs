//! A query modifier that returns the raw data from the endpoint.

use vstd::prelude::*;

use crate::api::client::Client;
use crate::api::endpoint::Endpoint;
use crate::api::error::ApiError;
use crate::api::probe::error_from_response;
use crate::api::probe::status_is_success;
use crate::api::query::send_with_auth;

verus! {

/// A query modifier that returns the raw data from the endpoint.
#[derive(Debug, Clone)]
pub struct Raw<E> {
    /// The wrapped endpoint.
    pub endpoint: E,
}

/// Return the raw data from the endpoint.
pub fn raw<E>(endpoint: E) -> (r: Raw<E>)
    ensures
        r == (Raw { endpoint }),
{
    Raw { endpoint }
}

impl<E: Endpoint> Raw<E> {
    /// Perform the call and hand back the body bytes unparsed.
    ///
    /// The request is built by the same path as the typed query.  A body
    /// under a non-success status is still classified: a structured error
    /// payload maps to the remote error it reports, and an unstructured one
    /// to a service error carrying status and bytes.  A successful response
    /// returns its body bytes untouched.
    pub fn query<C: Client>(&self, client: &C) -> Result<Vec<u8>, ApiError<C::Error>> {
        let rsp = match send_with_auth(&self.endpoint, client) {
            Ok(rsp) => rsp,
            Err(e) => {
                return Err(e);
            },
        };
        if !status_is_success(rsp.status) {
            return Err(error_from_response(rsp.status, &rsp.body));
        }
        Ok(rsp.body)
    }
}

} // verus!
