//! The error taxonomy shared by every component of the protocol layer.

use vstd::prelude::*;

use crate::api::paged::PaginationError;
use crate::api::params::dec_str;
use crate::api::params::u64_dec;
use crate::auth::AuthError;

verus! {

/// Errors which may occur when creating form data.
#[derive(Debug, Clone, PartialEq, Eq)]
pub enum BodyError {
    /// Body data could not be serialized from form parameters.
    UrlEncoded {
        /// A description of the encoding failure.
        reason: String,
    },
}

impl BodyError {
    /// A human-readable description of the error.
    pub fn to_string(&self) -> (r: String)
        ensures
            r@ == self.message_spec(),
    {
        match self {
            BodyError::UrlEncoded { reason } => {
                String::from_str("failed to URL encode form parameters: ").concat(reason.as_str())
            },
        }
    }

    /// The description returned by [`Self::to_string`].
    pub open spec fn message_spec(&self) -> Seq<char> {
        match self {
            BodyError::UrlEncoded { reason } => "failed to URL encode form parameters: "@
                + reason@,
        }
    }
}

/// Errors which may occur when using API endpoints.
///
/// The type parameter is the transport's own error type, so that the protocol
/// layer stays agnostic to which concrete transport backs it.
#[derive(Debug, Clone, PartialEq, Eq)]
pub enum ApiError<E> {
    /// Missing authentication information.
    Auth {
        /// The auth error.
        source: AuthError,
    },
    /// Issues with setting a pagination parameter.
    Pagination {
        /// The pagination error.
        source: PaginationError,
    },
    /// The transport encountered an error.
    Client {
        /// The transport error.
        source: E,
    },
    /// The URL failed to parse or resolve.
    UrlParse {
        /// A description of the failure.
        reason: String,
    },
    /// Body data could not be created.
    Body {
        /// The source of the error.
        source: BodyError,
    },
    /// The remote service returned an error message.
    Marketstack {
        /// The error message from Marketstack.
        msg: String,
    },
    /// The remote service returned a body that was not structured data.
    MarketstackService {
        /// The status code of the response.
        status: u16,
        /// The raw body bytes of the response.
        data: Vec<u8>,
    },
    /// The remote service returned an error object in a recognized field.
    MarketstackObject {
        /// The JSON text of the error object.
        obj: String,
    },
    /// The remote service returned structured data with no recognized field.
    MarketstackUnrecognized {
        /// The JSON text of the full response body.
        obj: String,
    },
    /// The response parsed as structured data but did not coerce into the
    /// caller's expected shape.
    DataType {
        /// A description of the coercion failure.
        source: String,
        /// The name of the type that could not be decoded.
        typename: String,
    },
}

impl<E> ApiError<E> {
    /// Wrap a transport error.
    pub fn client(source: E) -> (r: Self)
        ensures
            r == (ApiError::Client { source }),
    {
        ApiError::Client { source }
    }

    /// The error used when dispatch is attempted without a credential.
    pub fn auth_error() -> (r: Self)
        ensures
            r == (ApiError::<E>::Auth { source: AuthError::MissingAuth }),
    {
        ApiError::Auth { source: AuthError::MissingAuth }
    }

    /// The error used when a response body is not structured data.
    pub fn server_error(status: u16, body: &Vec<u8>) -> (r: Self)
        ensures
            r matches ApiError::MarketstackService { status: s, data } && s == status && data@
                == body@,
    {
        let data = body.clone();
        proof {
            assert(data@ =~= body@);
        }
        ApiError::MarketstackService { status, data }
    }

    /// Map the transport-error parameter, leaving every other variant
    /// untouched.
    pub fn map_client<W, F: FnOnce(E) -> W>(self, f: F) -> (r: ApiError<W>)
        requires
            forall|x: E| #[trigger] f.requires((x,)),
        ensures
            self matches ApiError::Client { source } ==> (r matches ApiError::Client {
                source: mapped,
            } && f.ensures((source,), mapped)),
            !(self is Client) ==> r == self.map_client_spec::<W>(),
    {
        match self {
            ApiError::Auth { source } => ApiError::Auth { source },
            ApiError::Pagination { source } => ApiError::Pagination { source },
            ApiError::Client { source } => ApiError::Client { source: f(source) },
            ApiError::UrlParse { reason } => ApiError::UrlParse { reason },
            ApiError::Body { source } => ApiError::Body { source },
            ApiError::Marketstack { msg } => ApiError::Marketstack { msg },
            ApiError::MarketstackService { status, data } => {
                ApiError::MarketstackService { status, data }
            },
            ApiError::MarketstackObject { obj } => ApiError::MarketstackObject { obj },
            ApiError::MarketstackUnrecognized { obj } => ApiError::MarketstackUnrecognized { obj },
            ApiError::DataType { source, typename } => ApiError::DataType { source, typename },
        }
    }

    /// The value [`Self::map_client`] gives for the variants that carry no
    /// transport error.
    pub open spec fn map_client_spec<W>(self) -> ApiError<W>
        recommends
            !(self is Client),
    {
        match self {
            ApiError::Auth { source } => ApiError::Auth { source },
            ApiError::Pagination { source } => ApiError::Pagination { source },
            ApiError::Client { .. } => vstd::pervasive::arbitrary(),
            ApiError::UrlParse { reason } => ApiError::UrlParse { reason },
            ApiError::Body { source } => ApiError::Body { source },
            ApiError::Marketstack { msg } => ApiError::Marketstack { msg },
            ApiError::MarketstackService { status, data } => {
                ApiError::MarketstackService { status, data }
            },
            ApiError::MarketstackObject { obj } => ApiError::MarketstackObject { obj },
            ApiError::MarketstackUnrecognized { obj } => ApiError::MarketstackUnrecognized { obj },
            ApiError::DataType { source, typename } => ApiError::DataType { source, typename },
        }
    }

    /// A short, fixed description of the error kind.
    ///
    /// Transport errors and embedded payloads are named but not rendered, so
    /// the description is a pure function of the error's variant (and, for
    /// pagination errors, of the pagination error's variant).
    pub fn to_string(&self) -> (r: String)
        ensures
            r@ == self.message_spec(),
    {
        match self {
            ApiError::Auth { source } => {
                String::from_str("missing auth error: ").concat(source.to_string().as_str())
            },
            ApiError::Pagination { source } => {
                String::from_str("pagination error: ").concat(source.to_string().as_str())
            },
            ApiError::Client { .. } => String::from_str("client error"),
            ApiError::UrlParse { reason } => {
                String::from_str("failed to parse URL: ").concat(reason.as_str())
            },
            ApiError::Body { source } => {
                String::from_str("failed to create request body: ").concat(
                    source.to_string().as_str(),
                )
            },
            ApiError::Marketstack { msg } => {
                String::from_str("marketstack server error: ").concat(msg.as_str())
            },
            ApiError::MarketstackService { status, .. } => {
                String::from_str("marketstack internal server error: ").concat(
                    u64_dec(*status as u64).as_str(),
                )
            },
            ApiError::MarketstackObject { obj } => {
                String::from_str("marketstack server error: ").concat(obj.as_str())
            },
            ApiError::MarketstackUnrecognized { obj } => {
                String::from_str("marketstack server error: ").concat(obj.as_str())
            },
            ApiError::DataType { source, typename } => {
                String::from_str("could not parse ")
                    .concat(typename.as_str())
                    .concat(" data from JSON: ")
                    .concat(source.as_str())
            },
        }
    }

    /// The description returned by [`Self::to_string`].
    pub open spec fn message_spec(&self) -> Seq<char> {
        match self {
            ApiError::Auth { source } => "missing auth error: "@ + source.message_spec(),
            ApiError::Pagination { source } => "pagination error: "@ + source.message_spec(),
            ApiError::Client { .. } => "client error"@,
            ApiError::UrlParse { reason } => "failed to parse URL: "@ + reason@,
            ApiError::Body { source } => "failed to create request body: "@
                + source.message_spec(),
            ApiError::Marketstack { msg } => "marketstack server error: "@ + msg@,
            ApiError::MarketstackService { status, .. } => "marketstack internal server error: "@
                + dec_str(status as nat),
            ApiError::MarketstackObject { obj } => "marketstack server error: "@ + obj@,
            ApiError::MarketstackUnrecognized { obj } => "marketstack server error: "@ + obj@,
            ApiError::DataType { source, typename } => {
                "could not parse "@ + typename@ + " data from JSON: "@ + source@
            },
        }
    }
}

} // verus!
