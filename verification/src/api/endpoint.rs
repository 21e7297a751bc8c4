//! The endpoint capability: what one remote operation looks like.

use vstd::prelude::*;

use crate::api::common::Method;
use crate::api::error::BodyError;
use crate::api::params::QueryParams;

verus! {

/// A description of one remote operation.
///
/// The spec methods express the invariant that an endpoint's path and
/// parameters are pure functions of its already-validated state: every
/// endpoint of this library overrides them and proves that the executable
/// methods return exactly the values they describe.  The defaults describe
/// the simplest endpoint (a GET of the empty path with no parameters and no
/// body), so that implementations outside the verifier only need to supply
/// the executable methods.
pub trait Endpoint {
    /// The HTTP method, as seen by specifications.
    open spec fn method_spec(&self) -> Method {
        Method::Get
    }

    /// The path, as seen by specifications.
    open spec fn endpoint_spec(&self) -> Seq<char> {
        Seq::empty()
    }

    /// The query parameters, as seen by specifications.
    open spec fn parameters_spec(&self) -> Seq<(Seq<char>, Seq<char>)> {
        Seq::empty()
    }

    /// The body, as seen by specifications: a content type and payload, or
    /// nothing.
    open spec fn body_spec(&self) -> Option<(Seq<char>, Seq<u8>)> {
        None
    }

    /// The HTTP method to use for the endpoint.
    fn method(&self) -> (m: Method)
        ensures
            m == self.method_spec(),
    ;

    /// The path to the endpoint.
    fn endpoint(&self) -> (s: String)
        ensures
            s@ == self.endpoint_spec(),
    ;

    /// Query parameters for the endpoint.
    fn parameters(&self) -> (p: QueryParams)
        ensures
            p@ == self.parameters_spec(),
    ;

    /// The body for the endpoint: the content type for the data as well as
    /// the data itself, or nothing.
    fn body(&self) -> (r: Result<Option<(String, Vec<u8>)>, BodyError>)
        ensures
            r matches Ok(b) ==> match (b, self.body_spec()) {
                (Some((ct, data)), Some((ct_s, data_s))) => ct@ == ct_s && data@ == data_s,
                (None, None) => true,
                _ => false,
            },
    ;
}

/// An endpoint which may be paginated.
pub trait Pageable: Endpoint {
    /// Whether the endpoint uses keyset pagination, as seen by
    /// specifications.  The default describes offset pagination.
    open spec fn use_keyset_pagination_spec(&self) -> bool {
        false
    }

    /// Whether the endpoint uses keyset pagination.
    fn use_keyset_pagination(&self) -> (b: bool)
        ensures
            b == self.use_keyset_pagination_spec(),
    ;
}

} // verus!
