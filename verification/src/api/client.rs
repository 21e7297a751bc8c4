//! The transport capability consumed by dispatch and pagination.
//!
//! The traits below are implemented by callers (a real HTTP client, or a mock
//! in tests).  Nothing is assumed of a transport: the dispatch layer fixes
//! what it hands one (the request it built, with verified contracts on the
//! pure construction steps) and classifies whatever comes back.

use vstd::prelude::*;

use crate::api::common::Method;
use crate::api::error::ApiError;
use crate::auth::Auth;

verus! {

/// One prepared HTTP request, as handed to a transport.
#[derive(Debug, Clone)]
pub struct Request {
    /// The HTTP method.
    pub method: Method,
    /// The complete request URL.
    pub url: String,
    /// The content type of the body, when a body is present.
    pub content_type: Option<String>,
    /// The request body bytes.
    pub body: Vec<u8>,
}

/// One HTTP response, as returned by a transport.
#[derive(Debug, Clone)]
pub struct Response {
    /// The HTTP status code.
    pub status: u16,
    /// The response headers, as name/value pairs in order.
    pub headers: Vec<(String, String)>,
    /// The response body bytes.
    pub body: Vec<u8>,
}

/// A client which can resolve endpoint paths and report its credential.
pub trait RestClient {
    /// The transport's own error type.
    type Error;

    /// Resolve an endpoint path against the client's base URL.
    fn rest_endpoint(&self, endpoint: &str) -> Result<String, ApiError<Self::Error>>;

    /// The credential configured on the client, if any.
    fn get_auth(&self) -> Option<Auth>;
}

/// A client which can send a prepared request and return the response.
pub trait Client: RestClient {
    /// Send a request, blocking until the response arrives.
    fn rest(&self, request: &Request) -> Result<Response, ApiError<Self::Error>>;
}

} // verus!
