//! A dummy endpoint that is not tied to any remote operation.

use vstd::prelude::*;

use crate::api::common::Method;
use crate::api::endpoint::Endpoint;
use crate::api::error::BodyError;
use crate::api::params::QueryParams;

verus! {

/// Dummy endpoint with an empty path and no parameters.
#[derive(Debug, Clone, Copy, PartialEq, Eq, Structural)]
pub struct BasicEndpoint {}

/// Builder for [`BasicEndpoint`].
#[derive(Debug, Clone, Copy, Default)]
pub struct BasicEndpointBuilder {}

impl BasicEndpoint {
    /// Create a builder for the endpoint.
    pub fn builder() -> BasicEndpointBuilder {
        BasicEndpointBuilder {}
    }
}

impl BasicEndpointBuilder {
    /// Build the endpoint; it has no options.
    pub fn build(self) -> (r: Result<BasicEndpoint, String>)
        ensures
            r == Ok::<BasicEndpoint, String>(BasicEndpoint {}),
    {
        Ok(BasicEndpoint {})
    }
}

impl Endpoint for BasicEndpoint {
    open spec fn method_spec(&self) -> Method {
        Method::Get
    }

    open spec fn endpoint_spec(&self) -> Seq<char> {
        ""@
    }

    open spec fn parameters_spec(&self) -> Seq<(Seq<char>, Seq<char>)> {
        Seq::empty()
    }

    open spec fn body_spec(&self) -> Option<(Seq<char>, Seq<u8>)> {
        None
    }

    fn method(&self) -> (m: Method) {
        Method::Get
    }

    fn endpoint(&self) -> (s: String) {
        String::from_str("")
    }

    fn parameters(&self) -> (p: QueryParams) {
        let params = QueryParams::new();
        params
    }

    fn body(&self) -> (r: Result<Option<(String, Vec<u8>)>, BodyError>) {
        Ok(None)
    }
}

} // verus!
