//! Base query dispatch: one endpoint, one request, one classified result.

use vstd::prelude::*;

use crate::api::auth::AuthContext;
use crate::api::client::Client;
use crate::api::client::Request;
use crate::api::client::Response;
use crate::api::endpoint::Endpoint;
use crate::api::error::ApiError;
use crate::api::params::bytes_as_chars;
use crate::api::params::rendered_query;
use crate::api::params::QueryParams;
use crate::api::probe::classify_body;
use crate::auth::Auth;
use crate::auth::AuthError;

verus! {

/// The separator put before a query string: `&` when the URL already has a
/// query, else `?`.
pub open spec fn query_sep(url: Seq<char>) -> Seq<char> {
    if url.contains('?') {
        "&"@
    } else {
        "?"@
    }
}

/// A URL with a rendered query string attached; an empty parameter list
/// leaves the URL untouched.
pub open spec fn url_with_query(url: Seq<char>, ps: Seq<(Seq<char>, Seq<char>)>) -> Seq<char> {
    if ps.len() == 0 {
        url
    } else {
        url + query_sep(url) + bytes_as_chars(rendered_query(ps))
    }
}

/// Whether `s` contains the character `c`.
fn contains_char(s: &str, c: char) -> (r: bool)
    ensures
        r == s@.contains(c),
{
    let n = s.unicode_len();
    let mut i: usize = 0;
    while i < n
        invariant
            n == s@.len(),
            i <= n,
            forall|j: int| 0 <= j < i ==> s@[j] != c,
        decreases n - i,
    {
        if s.get_char(i) == c {
            proof {
                assert(s@[i as int] == c);
            }
            return true;
        }
        i = i + 1;
    }
    false
}

/// Attach the rendered parameters to a URL.
pub fn url_with_params(url: String, params: &QueryParams) -> (r: String)
    ensures
        r@ == url_with_query(url@, params@),
{
    if params.len() == 0 {
        return url;
    }
    let sep: &str = if contains_char(url.as_str(), '?') {
        "&"
    } else {
        "?"
    };
    url.concat(sep).concat(params.render().as_str())
}

/// A type that can be decoded from a response body.
///
/// The protocol layer treats decoding as a capability of the caller: an
/// implementation parses the body bytes, and reports a failure as a
/// description string which dispatch wraps into a data-type error.  The
/// spec label has a default so that implementations outside the verifier
/// only need to supply the executable methods.
pub trait FromBody: Sized {
    /// The name of the decoded type, as seen by specifications.
    open spec fn type_label_spec() -> Seq<char> {
        Seq::empty()
    }

    /// The name of the decoded type, used in data-type error reports.
    fn type_label() -> (r: String)
        ensures
            r@ == Self::type_label_spec(),
    ;

    /// Decode a value from the body bytes.
    fn from_body(body: &Vec<u8>) -> Result<Self, String>;
}

/// Decode a successful body into the caller's type; a decode failure is
/// exactly a data-type error naming the target type.
pub fn decode_body<T: FromBody, TErr>(body: &Vec<u8>) -> (r: Result<T, ApiError<TErr>>)
    ensures
        r matches Err(e) ==> (e matches ApiError::DataType { source, typename } && typename@
            == T::type_label_spec()),
{
    match T::from_body(body) {
        Ok(value) => Ok(value),
        Err(reason) => Err(ApiError::DataType { source: reason, typename: T::type_label() }),
    }
}

/// The parts of an endpoint's request body; an encoding failure is exactly
/// a body error.
pub(crate) fn endpoint_body_parts<E: Endpoint, TErr>(endpoint: &E) -> (r: Result<
    (Option<String>, Vec<u8>),
    ApiError<TErr>,
>)
    ensures
        r matches Err(e) ==> e is Body,
        r matches Ok(parts) ==> match (parts.0, endpoint.body_spec()) {
            (Some(ct), Some(spec_body)) => ct@ == spec_body.0 && parts.1@ == spec_body.1,
            (None, None) => parts.1@ == Seq::<u8>::empty(),
            _ => false,
        },
{
    match endpoint.body() {
        Ok(Some((content_type, data))) => Ok((Some(content_type), data)),
        Ok(None) => {
            let empty: Vec<u8> = Vec::new();
            proof {
                assert(empty@ =~= Seq::<u8>::empty());
            }
            Ok((None, empty))
        },
        Err(source) => Err(ApiError::Body { source }),
    }
}

/// Assemble the one request that dispatch puts on the wire: the endpoint's
/// method, the resolved path carrying the endpoint's parameters with the
/// credential appended as the reserved `access_key` parameter, and the
/// endpoint's body with its content type.
pub fn prepare_request<E: Endpoint, TErr>(endpoint: &E, resolved: String, token: Auth) -> (r:
    Result<Request, ApiError<TErr>>)
    ensures
        r matches Err(e) ==> e is Body,
        r matches Ok(req) ==> {
            &&& req.method == endpoint.method_spec()
            &&& req.url@ == url_with_query(
                resolved@,
                endpoint.parameters_spec().push(("access_key"@, token.token_spec())),
            )
            &&& match (req.content_type, endpoint.body_spec()) {
                (Some(ct), Some(spec_body)) => ct@ == spec_body.0 && req.body@ == spec_body.1,
                (None, None) => req.body@ == Seq::<u8>::empty(),
                _ => false,
            }
        },
{
    let mut params = endpoint.parameters();
    AuthContext::new(token).apply(&mut params);
    let url = url_with_params(resolved, &params);
    let (content_type, body_data) = match endpoint_body_parts::<E, TErr>(endpoint) {
        Ok(parts) => parts,
        Err(e) => {
            return Err(e);
        },
    };
    Ok(Request { method: endpoint.method(), url, content_type, body: body_data })
}

/// Demand a credential: a missing one is exactly the missing-auth error,
/// and a present one is handed back for injection.
pub fn require_auth<E>(auth: Option<Auth>) -> (r: Result<Auth, ApiError<E>>)
    ensures
        auth matches Some(token) ==> r == Ok::<Auth, ApiError<E>>(token),
        auth is None ==> r == Err::<Auth, ApiError<E>>(
            ApiError::Auth { source: AuthError::MissingAuth },
        ),
{
    match auth {
        Some(token) => Ok(token),
        None => Err(ApiError::auth_error()),
    }
}

/// Build and send one authenticated request for an endpoint.
///
/// This is the single request-construction path shared by the typed query
/// and the `Ignore` and `Raw` modifiers, so all three put exactly the same
/// traffic on the wire for a given endpoint: [`require_auth`] decides the
/// missing-credential error, and [`prepare_request`] fixes the request that
/// is handed to the transport.
pub(crate) fn send_with_auth<E: Endpoint, C: Client>(endpoint: &E, client: &C) -> Result<
    Response,
    ApiError<C::Error>,
> {
    let token = match require_auth(client.get_auth()) {
        Ok(token) => token,
        Err(e) => {
            return Err(e);
        },
    };
    let resolved = match client.rest_endpoint(endpoint.endpoint().as_str()) {
        Ok(url) => url,
        Err(e) => {
            return Err(e);
        },
    };
    let req = match prepare_request(endpoint, resolved, token) {
        Ok(req) => req,
        Err(e) => {
            return Err(e);
        },
    };
    client.rest(&req)
}

/// Execute one non-paginated call for an endpoint and decode the result.
///
/// The request is built by [`send_with_auth`].  The response is classified
/// by [`classify_body`]: a body that is not JSON is a service error
/// whatever the status, a structured error payload maps to the remote error
/// it reports, and a successful body that fails to decode becomes a
/// data-type error naming the target type (see [`decode_body`]).
pub fn query<T: FromBody, E: Endpoint, C: Client>(endpoint: &E, client: &C) -> Result<
    T,
    ApiError<C::Error>,
> {
    let rsp = match send_with_auth(endpoint, client) {
        Ok(rsp) => rsp,
        Err(e) => {
            return Err(e);
        },
    };
    match classify_body::<C::Error>(rsp.status, &rsp.body) {
        Ok(()) => (),
        Err(e) => {
            return Err(e);
        },
    }
    decode_body(&rsp.body)
}

} // verus!
