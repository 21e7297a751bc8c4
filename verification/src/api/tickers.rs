//! The `tickers` endpoint and its nested variants.
//!
//! A ticker request may nest one of the `eod`, `splits` or `dividends`
//! endpoints, steering the request to `tickers/[symbol]/eod` and friends
//! while reusing the nested endpoint's parameters.

use vstd::prelude::*;

use crate::api::common::Method;
use crate::api::dividends::Dividends;
use crate::api::endpoint::Endpoint;
use crate::api::endpoint::Pageable;
use crate::api::eod::Eod;
use crate::api::error::ApiError;
use crate::api::error::BodyError;
use crate::api::paged::PageLimit;
use crate::api::paged::PaginationError;
use crate::api::paged::MAX_PAGE_SIZE;
use crate::api::params::dec_str;
use crate::api::params::opt_pair;
use crate::api::params::u64_dec;
use crate::api::params::QueryParams;
use crate::api::splits::Splits;

verus! {

/// Query for `tickers`.
#[derive(Debug, Clone)]
pub struct Tickers {
    /// Ticker symbol for the `tickers/[symbol]` path.
    pub ticker: Option<String>,
    /// Filter results by the MIC identification of a stock exchange.
    pub exchange: Option<String>,
    /// Search stock tickers by name or symbol.
    pub search: Option<String>,
    /// Pagination limit for the request.
    pub limit: Option<PageLimit>,
    /// Pagination offset for the request.
    pub offset: Option<u64>,
    /// Nested `eod` endpoint, for `tickers/[symbol]/eod`.
    pub eod: Option<Eod>,
    /// Nested `splits` endpoint, for `tickers/[symbol]/splits`.
    pub splits: Option<Splits>,
    /// Nested `dividends` endpoint, for `tickers/[symbol]/dividends`.
    pub dividends: Option<Dividends>,
}

/// Builder for [`Tickers`].
#[derive(Debug, Clone, Default)]
pub struct TickersBuilder {
    /// Ticker symbol held so far.
    pub ticker: Option<String>,
    /// Exchange held so far.
    pub exchange: Option<String>,
    /// Search text held so far.
    pub search: Option<String>,
    /// Pagination limit held so far.
    pub limit: Option<PageLimit>,
    /// Pagination offset held so far.
    pub offset: Option<u64>,
    /// Nested `eod` endpoint held so far.
    pub eod: Option<Eod>,
    /// Nested `splits` endpoint held so far.
    pub splits: Option<Splits>,
    /// Nested `dividends` endpoint held so far.
    pub dividends: Option<Dividends>,
}

impl Tickers {
    /// Create a builder for the endpoint.
    pub fn builder() -> (r: TickersBuilder)
        ensures
            r.ticker is None,
            r.exchange is None,
            r.search is None,
            r.limit is None,
            r.offset is None,
            r.eod is None,
            r.splits is None,
            r.dividends is None,
    {
        TickersBuilder {
            ticker: None,
            exchange: None,
            search: None,
            limit: None,
            offset: None,
            eod: None,
            splits: None,
            dividends: None,
        }
    }
}

impl TickersBuilder {
    /// Set the ticker symbol.
    pub fn ticker(self, ticker: &str) -> (r: Self)
        ensures
            r == (TickersBuilder { ticker: Some(r.ticker->0), ..self }),
            r.ticker matches Some(t) && t@ == ticker@,
    {
        TickersBuilder { ticker: Some(ticker.to_owned()), ..self }
    }

    /// Filter by an exchange MIC.
    pub fn exchange(self, exchange: &str) -> (r: Self)
        ensures
            r == (TickersBuilder { exchange: Some(r.exchange->0), ..self }),
            r.exchange matches Some(e) && e@ == exchange@,
    {
        TickersBuilder { exchange: Some(exchange.to_owned()), ..self }
    }

    /// Search tickers by name or symbol.
    pub fn search(self, search: &str) -> (r: Self)
        ensures
            r == (TickersBuilder { search: Some(r.search->0), ..self }),
            r.search matches Some(s) && s@ == search@,
    {
        TickersBuilder { search: Some(search.to_owned()), ..self }
    }

    /// Limit the number of results returned, rejecting limits above the
    /// page-size ceiling.
    pub fn limit(self, limit: u16) -> (r: Result<Self, ApiError<PaginationError>>)
        ensures
            limit <= MAX_PAGE_SIZE ==> r == Ok::<Self, ApiError<PaginationError>>(
                (TickersBuilder { limit: Some(PageLimit(limit)), ..self }),
            ),
            limit > MAX_PAGE_SIZE ==> r == Err::<Self, ApiError<PaginationError>>(
                (ApiError::Pagination { source: PaginationError::ExceedLimit }),
            ),
    {
        match PageLimit::new(limit) {
            Ok(page_limit) => Ok(TickersBuilder { limit: Some(page_limit), ..self }),
            Err(e) => Err(e),
        }
    }

    /// Set the pagination offset.
    pub fn offset(self, offset: u64) -> (r: Self)
        ensures
            r == (TickersBuilder { offset: Some(offset), ..self }),
    {
        TickersBuilder { offset: Some(offset), ..self }
    }

    /// Nest an `eod` endpoint.
    pub fn eod(self, eod: Eod) -> (r: Self)
        ensures
            r == (TickersBuilder { eod: Some(eod), ..self }),
    {
        TickersBuilder { eod: Some(eod), ..self }
    }

    /// Nest a `splits` endpoint.
    pub fn splits(self, splits: Splits) -> (r: Self)
        ensures
            r == (TickersBuilder { splits: Some(splits), ..self }),
    {
        TickersBuilder { splits: Some(splits), ..self }
    }

    /// Nest a `dividends` endpoint.
    pub fn dividends(self, dividends: Dividends) -> (r: Self)
        ensures
            r == (TickersBuilder { dividends: Some(dividends), ..self }),
    {
        TickersBuilder { dividends: Some(dividends), ..self }
    }

    /// How many nested endpoints are held.
    pub open spec fn nested_count(&self) -> int {
        (if self.eod is Some {
            1int
        } else {
            0int
        }) + (if self.splits is Some {
            1int
        } else {
            0int
        }) + (if self.dividends is Some {
            1int
        } else {
            0int
        })
    }

    /// Build the endpoint.  At most one of the nested `eod`, `splits` and
    /// `dividends` endpoints may be active; every other combination of held
    /// options is valid.
    pub fn build(self) -> (r: Result<Tickers, String>)
        ensures
            self.nested_count() > 1 ==> (r matches Err(msg) && msg@
                == "Invalid combinations of `eod`, `splits` or `dividends`"@),
            self.nested_count() <= 1 ==> r == Ok::<Tickers, String>(
                (Tickers {
                    ticker: self.ticker,
                    exchange: self.exchange,
                    search: self.search,
                    limit: self.limit,
                    offset: self.offset,
                    eod: self.eod,
                    splits: self.splits,
                    dividends: self.dividends,
                }),
            ),
    {
        let mut count: u8 = 0;
        if self.eod.is_some() {
            count = count + 1;
        }
        if self.splits.is_some() {
            count = count + 1;
        }
        if self.dividends.is_some() {
            count = count + 1;
        }
        if count > 1 {
            Err(String::from_str("Invalid combinations of `eod`, `splits` or `dividends`"))
        } else {
            Ok(
                Tickers {
                    ticker: self.ticker,
                    exchange: self.exchange,
                    search: self.search,
                    limit: self.limit,
                    offset: self.offset,
                    eod: self.eod,
                    splits: self.splits,
                    dividends: self.dividends,
                },
            )
        }
    }
}

impl Endpoint for Tickers {
    open spec fn method_spec(&self) -> Method {
        Method::Get
    }

    open spec fn endpoint_spec(&self) -> Seq<char> {
        match self.ticker {
            None => "tickers"@,
            Some(t) => {
                let with_ticker = "tickers"@ + "/"@ + t@;
                let with_eod = match self.eod {
                    Some(e) => with_ticker + "/"@ + e.endpoint_spec(),
                    None => with_ticker,
                };
                let with_splits = match self.splits {
                    Some(sp) => with_eod + "/"@ + sp.endpoint_spec(),
                    None => with_eod,
                };
                match self.dividends {
                    Some(d) => with_splits + "/"@ + d.endpoint_spec(),
                    None => with_splits,
                }
            },
        }
    }

    open spec fn parameters_spec(&self) -> Seq<(Seq<char>, Seq<char>)> {
        let nested = match self.dividends {
            Some(d) => d.parameters_spec(),
            None => match self.splits {
                Some(sp) => sp.parameters_spec(),
                None => match self.eod {
                    Some(e) => e.parameters_spec(),
                    None => Seq::empty(),
                },
            },
        };
        opt_pair(
            opt_pair(
                opt_pair(
                    opt_pair(
                        nested,
                        "exchange"@,
                        match self.exchange {
                            Some(e) => Some(e@),
                            None => None,
                        },
                    ),
                    "search"@,
                    match self.search {
                        Some(s) => Some(s@),
                        None => None,
                    },
                ),
                "limit"@,
                match self.limit {
                    Some(l) => Some(dec_str(l.0 as nat)),
                    None => None,
                },
            ),
            "offset"@,
            match self.offset {
                Some(o) => Some(dec_str(o as nat)),
                None => None,
            },
        )
    }

    open spec fn body_spec(&self) -> Option<(Seq<char>, Seq<u8>)> {
        None
    }

    fn method(&self) -> (m: Method) {
        Method::Get
    }

    fn endpoint(&self) -> (s: String) {
        let mut endpoint = String::from_str("tickers");
        if let Some(t) = &self.ticker {
            endpoint = endpoint.concat("/").concat(t.as_str());
            if let Some(e) = &self.eod {
                endpoint = endpoint.concat("/").concat(e.endpoint().as_str());
            }
            if let Some(sp) = &self.splits {
                endpoint = endpoint.concat("/").concat(sp.endpoint().as_str());
            }
            if let Some(d) = &self.dividends {
                endpoint = endpoint.concat("/").concat(d.endpoint().as_str());
            }
        }
        endpoint
    }

    fn parameters(&self) -> (p: QueryParams) {
        let mut params = if let Some(d) = &self.dividends {
            d.parameters()
        } else if let Some(sp) = &self.splits {
            sp.parameters()
        } else if let Some(e) = &self.eod {
            e.parameters()
        } else {
            QueryParams::new()
        };
        params.push_opt("exchange", &self.exchange);
        params.push_opt("search", &self.search);
        let limit_str: Option<String> = match &self.limit {
            Some(l) => Some(u64_dec(l.0 as u64)),
            None => None,
        };
        params.push_opt("limit", &limit_str);
        let offset_str: Option<String> = match self.offset {
            Some(o) => Some(u64_dec(o)),
            None => None,
        };
        params.push_opt("offset", &offset_str);
        proof {
            assert(params@ =~= self.parameters_spec());
        }
        params
    }

    fn body(&self) -> (r: Result<Option<(String, Vec<u8>)>, BodyError>) {
        Ok(None)
    }
}

impl Pageable for Tickers {
    open spec fn use_keyset_pagination_spec(&self) -> bool {
        false
    }

    fn use_keyset_pagination(&self) -> (b: bool) {
        false
    }
}

} // verus!
