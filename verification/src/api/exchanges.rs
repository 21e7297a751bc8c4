//! The `exchanges` endpoint and its nested variants.
//!
//! An exchange request may carry a MIC identification for the
//! `exchanges/[mic]` path, and may nest either the literal `tickers` suffix
//! or an `eod` endpoint, reusing the nested endpoint's parameters.

use vstd::prelude::*;

use crate::api::common::Method;
use crate::api::endpoint::Endpoint;
use crate::api::endpoint::Pageable;
use crate::api::eod::Eod;
use crate::api::error::ApiError;
use crate::api::error::BodyError;
use crate::api::paged::PageLimit;
use crate::api::paged::PaginationError;
use crate::api::paged::MAX_PAGE_SIZE;
use crate::api::params::dec_str;
use crate::api::params::opt_pair;
use crate::api::params::u64_dec;
use crate::api::params::QueryParams;

verus! {

/// Query for `exchanges`.
#[derive(Debug, Clone)]
pub struct Exchanges {
    /// MIC identification for the `exchanges/[mic]` path.
    pub mic: Option<String>,
    /// Suffix for the `exchanges/[mic]/tickers` path.
    pub tickers: Option<String>,
    /// Nested `eod` endpoint, for `exchanges/[mic]/eod`.
    pub eod: Option<Eod>,
    /// Search stock exchanges by name or MIC.
    pub search: Option<String>,
    /// Pagination limit for the request.
    pub limit: Option<PageLimit>,
    /// Pagination offset for the request.
    pub offset: Option<u64>,
}

/// Builder for [`Exchanges`].
#[derive(Debug, Clone, Default)]
pub struct ExchangesBuilder {
    /// MIC identification held so far.
    pub mic: Option<String>,
    /// Tickers suffix held so far.
    pub tickers: Option<String>,
    /// Nested `eod` endpoint held so far.
    pub eod: Option<Eod>,
    /// Search text held so far.
    pub search: Option<String>,
    /// Pagination limit held so far.
    pub limit: Option<PageLimit>,
    /// Pagination offset held so far.
    pub offset: Option<u64>,
}

impl Exchanges {
    /// Create a builder for the endpoint.
    pub fn builder() -> (r: ExchangesBuilder)
        ensures
            r.mic is None,
            r.tickers is None,
            r.eod is None,
            r.search is None,
            r.limit is None,
            r.offset is None,
    {
        ExchangesBuilder {
            mic: None,
            tickers: None,
            eod: None,
            search: None,
            limit: None,
            offset: None,
        }
    }
}

impl ExchangesBuilder {
    /// Set the MIC identification.
    pub fn mic(self, mic: &str) -> (r: Self)
        ensures
            r == (ExchangesBuilder { mic: Some(r.mic->0), ..self }),
            r.mic matches Some(m) && m@ == mic@,
    {
        ExchangesBuilder { mic: Some(mic.to_owned()), ..self }
    }

    /// Ask for the tickers of the exchange.
    pub fn tickers(self, tickers: &str) -> (r: Self)
        ensures
            r == (ExchangesBuilder { tickers: Some(r.tickers->0), ..self }),
            r.tickers matches Some(t) && t@ == tickers@,
    {
        ExchangesBuilder { tickers: Some(tickers.to_owned()), ..self }
    }

    /// Nest an `eod` endpoint.
    pub fn eod(self, eod: Eod) -> (r: Self)
        ensures
            r == (ExchangesBuilder { eod: Some(eod), ..self }),
    {
        ExchangesBuilder { eod: Some(eod), ..self }
    }

    /// Search exchanges by name or MIC.
    pub fn search(self, search: &str) -> (r: Self)
        ensures
            r == (ExchangesBuilder { search: Some(r.search->0), ..self }),
            r.search matches Some(s) && s@ == search@,
    {
        ExchangesBuilder { search: Some(search.to_owned()), ..self }
    }

    /// Limit the number of results returned, rejecting limits above the
    /// page-size ceiling.
    pub fn limit(self, limit: u16) -> (r: Result<Self, ApiError<PaginationError>>)
        ensures
            limit <= MAX_PAGE_SIZE ==> r == Ok::<Self, ApiError<PaginationError>>(
                (ExchangesBuilder { limit: Some(PageLimit(limit)), ..self }),
            ),
            limit > MAX_PAGE_SIZE ==> r == Err::<Self, ApiError<PaginationError>>(
                (ApiError::Pagination { source: PaginationError::ExceedLimit }),
            ),
    {
        match PageLimit::new(limit) {
            Ok(page_limit) => Ok(ExchangesBuilder { limit: Some(page_limit), ..self }),
            Err(e) => Err(e),
        }
    }

    /// Set the pagination offset.
    pub fn offset(self, offset: u64) -> (r: Self)
        ensures
            r == (ExchangesBuilder { offset: Some(offset), ..self }),
    {
        ExchangesBuilder { offset: Some(offset), ..self }
    }

    /// Build the endpoint.  The `tickers` suffix and a nested `eod` cannot
    /// be used together; every other combination of held options is valid.
    pub fn build(self) -> (r: Result<Exchanges, String>)
        ensures
            self.tickers is Some && self.eod is Some ==> (r matches Err(msg) && msg@
                == "Invalid combinations of `eod`, `tickers` or `intraday`"@),
            !(self.tickers is Some && self.eod is Some) ==> r == Ok::<Exchanges, String>(
                (Exchanges {
                    mic: self.mic,
                    tickers: self.tickers,
                    eod: self.eod,
                    search: self.search,
                    limit: self.limit,
                    offset: self.offset,
                }),
            ),
    {
        if self.tickers.is_some() && self.eod.is_some() {
            Err(String::from_str("Invalid combinations of `eod`, `tickers` or `intraday`"))
        } else {
            Ok(
                Exchanges {
                    mic: self.mic,
                    tickers: self.tickers,
                    eod: self.eod,
                    search: self.search,
                    limit: self.limit,
                    offset: self.offset,
                },
            )
        }
    }
}

impl Endpoint for Exchanges {
    open spec fn method_spec(&self) -> Method {
        Method::Get
    }

    open spec fn endpoint_spec(&self) -> Seq<char> {
        match self.mic {
            None => "exchanges"@,
            Some(m) => {
                let with_mic = "exchanges"@ + "/"@ + m@;
                let with_tickers = match self.tickers {
                    Some(t) => with_mic + "/"@ + t@,
                    None => with_mic,
                };
                match self.eod {
                    Some(e) => with_tickers + "/"@ + e.endpoint_spec(),
                    None => with_tickers,
                }
            },
        }
    }

    open spec fn parameters_spec(&self) -> Seq<(Seq<char>, Seq<char>)> {
        let nested = match self.eod {
            Some(e) => e.parameters_spec(),
            None => Seq::empty(),
        };
        opt_pair(
            opt_pair(
                opt_pair(
                    nested,
                    "search"@,
                    match self.search {
                        Some(s) => Some(s@),
                        None => None,
                    },
                ),
                "limit"@,
                match self.limit {
                    Some(l) => Some(dec_str(l.0 as nat)),
                    None => None,
                },
            ),
            "offset"@,
            match self.offset {
                Some(o) => Some(dec_str(o as nat)),
                None => None,
            },
        )
    }

    open spec fn body_spec(&self) -> Option<(Seq<char>, Seq<u8>)> {
        None
    }

    fn method(&self) -> (m: Method) {
        Method::Get
    }

    fn endpoint(&self) -> (s: String) {
        let mut endpoint = String::from_str("exchanges");
        if let Some(m) = &self.mic {
            endpoint = endpoint.concat("/").concat(m.as_str());
            if let Some(t) = &self.tickers {
                endpoint = endpoint.concat("/").concat(t.as_str());
            }
            if let Some(e) = &self.eod {
                endpoint = endpoint.concat("/").concat(e.endpoint().as_str());
            }
        }
        endpoint
    }

    fn parameters(&self) -> (p: QueryParams) {
        let mut params = if let Some(e) = &self.eod {
            e.parameters()
        } else {
            QueryParams::new()
        };
        params.push_opt("search", &self.search);
        let limit_str: Option<String> = match &self.limit {
            Some(l) => Some(u64_dec(l.0 as u64)),
            None => None,
        };
        params.push_opt("limit", &limit_str);
        let offset_str: Option<String> = match self.offset {
            Some(o) => Some(u64_dec(o)),
            None => None,
        };
        params.push_opt("offset", &offset_str);
        proof {
            assert(params@ =~= self.parameters_spec());
        }
        params
    }

    fn body(&self) -> (r: Result<Option<(String, Vec<u8>)>, BodyError>) {
        Ok(None)
    }
}

impl Pageable for Exchanges {
    open spec fn use_keyset_pagination_spec(&self) -> bool {
        false
    }

    fn use_keyset_pagination(&self) -> (b: bool) {
        false
    }
}

} // verus!
