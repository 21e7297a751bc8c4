//! The `currencies` API endpoint, used to look up the currencies supported
//! by the remote service.

use vstd::prelude::*;

use crate::api::common::Method;
use crate::api::endpoint::Endpoint;
use crate::api::endpoint::Pageable;
use crate::api::error::ApiError;
use crate::api::error::BodyError;
use crate::api::paged::PageLimit;
use crate::api::paged::PaginationError;
use crate::api::paged::MAX_PAGE_SIZE;
use crate::api::params::dec_str;
use crate::api::params::opt_pair;
use crate::api::params::u64_dec;
use crate::api::params::QueryParams;

verus! {

/// Query for `currencies`.
#[derive(Debug, Clone)]
pub struct Currencies {
    /// Pagination limit for the request.
    pub limit: Option<PageLimit>,
    /// Pagination offset for the request.
    pub offset: Option<u64>,
}

/// Builder for [`Currencies`].
#[derive(Debug, Clone, Default)]
pub struct CurrenciesBuilder {
    /// Pagination limit held so far.
    pub limit: Option<PageLimit>,
    /// Pagination offset held so far.
    pub offset: Option<u64>,
}

impl Currencies {
    /// Create a builder for this endpoint.
    pub fn builder() -> (r: CurrenciesBuilder)
        ensures
            r == (CurrenciesBuilder { limit: None, offset: None }),
    {
        CurrenciesBuilder { limit: None, offset: None }
    }
}

impl CurrenciesBuilder {
    /// Limit the number of results returned, rejecting limits above the
    /// page-size ceiling.
    pub fn limit(self, limit: u16) -> (r: Result<Self, ApiError<PaginationError>>)
        ensures
            limit <= MAX_PAGE_SIZE ==> r == Ok::<Self, ApiError<PaginationError>>(
                (CurrenciesBuilder { limit: Some(PageLimit(limit)), ..self }),
            ),
            limit > MAX_PAGE_SIZE ==> r == Err::<Self, ApiError<PaginationError>>(
                (ApiError::Pagination { source: PaginationError::ExceedLimit }),
            ),
    {
        match PageLimit::new(limit) {
            Ok(page_limit) => Ok(CurrenciesBuilder { limit: Some(page_limit), ..self }),
            Err(e) => Err(e),
        }
    }

    /// Set the pagination offset.
    pub fn offset(self, offset: u64) -> (r: Self)
        ensures
            r == (CurrenciesBuilder { offset: Some(offset), ..self }),
    {
        CurrenciesBuilder { offset: Some(offset), ..self }
    }

    /// Build the endpoint; every combination of held options is valid.
    pub fn build(self) -> (r: Result<Currencies, String>)
        ensures
            r == Ok::<Currencies, String>(
                (Currencies { limit: self.limit, offset: self.offset }),
            ),
    {
        Ok(Currencies { limit: self.limit, offset: self.offset })
    }
}

impl Endpoint for Currencies {
    open spec fn method_spec(&self) -> Method {
        Method::Get
    }

    open spec fn endpoint_spec(&self) -> Seq<char> {
        "currencies"@
    }

    open spec fn parameters_spec(&self) -> Seq<(Seq<char>, Seq<char>)> {
        opt_pair(
            opt_pair(
                Seq::empty(),
                "limit"@,
                match self.limit {
                    Some(l) => Some(dec_str(l.0 as nat)),
                    None => None,
                },
            ),
            "offset"@,
            match self.offset {
                Some(o) => Some(dec_str(o as nat)),
                None => None,
            },
        )
    }

    open spec fn body_spec(&self) -> Option<(Seq<char>, Seq<u8>)> {
        None
    }

    fn method(&self) -> (m: Method) {
        Method::Get
    }

    fn endpoint(&self) -> (s: String) {
        String::from_str("currencies")
    }

    fn parameters(&self) -> (p: QueryParams) {
        let mut params = QueryParams::new();
        let limit_str: Option<String> = match &self.limit {
            Some(l) => Some(u64_dec(l.0 as u64)),
            None => None,
        };
        params.push_opt("limit", &limit_str);
        let offset_str: Option<String> = match self.offset {
            Some(o) => Some(u64_dec(o)),
            None => None,
        };
        params.push_opt("offset", &offset_str);
        proof {
            assert(params@ =~= self.parameters_spec());
        }
        params
    }

    fn body(&self) -> (r: Result<Option<(String, Vec<u8>)>, BodyError>) {
        Ok(None)
    }
}

impl Pageable for Currencies {
    open spec fn use_keyset_pagination_spec(&self) -> bool {
        false
    }

    fn use_keyset_pagination(&self) -> (b: bool) {
        false
    }
}

} // verus!
