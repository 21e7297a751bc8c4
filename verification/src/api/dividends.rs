//! The `dividends` API endpoint.

use vstd::prelude::*;

use crate::api::common::Method;
use crate::api::common::SortOrder;
use crate::api::common::SymbolSet;
use crate::api::date::Date;
use crate::api::date::date_str;
use crate::api::endpoint::Endpoint;
use crate::api::endpoint::Pageable;
use crate::api::error::ApiError;
use crate::api::error::BodyError;
use crate::api::paged::MAX_PAGE_SIZE;
use crate::api::paged::PageLimit;
use crate::api::paged::PaginationError;
use crate::api::params::QueryParams;
use crate::api::params::dec_str;
use crate::api::params::opt_pair;
use crate::api::params::u64_dec;

verus! {

/// Query for `dividends`.
#[derive(Debug, Clone)]
pub struct Dividends {
    /// Symbols to search data for.
    pub symbols: SymbolSet,
    /// The sort order for the returned results.
    pub sort: Option<SortOrder>,
    /// Earliest date to query data from.
    pub date_from: Option<Date>,
    /// Latest date to query data to.
    pub date_to: Option<Date>,
    /// Pagination limit for the request.
    pub limit: Option<PageLimit>,
    /// Pagination offset for the request.
    pub offset: Option<u64>,
}

/// Builder for [`Dividends`].
#[derive(Debug, Clone, Default)]
pub struct DividendsBuilder {
    /// Symbols held so far.
    pub symbols: SymbolSet,
    /// Sort order held so far.
    pub sort: Option<SortOrder>,
    /// Earliest date held so far.
    pub date_from: Option<Date>,
    /// Latest date held so far.
    pub date_to: Option<Date>,
    /// Pagination limit held so far.
    pub limit: Option<PageLimit>,
    /// Pagination offset held so far.
    pub offset: Option<u64>,
}

impl Dividends {
    /// Create a builder for the endpoint.
    pub fn builder() -> (r: DividendsBuilder)
        ensures
            r.symbols@.len() == 0,
            r.symbols.wf(),
            r.sort is None,
            r.date_from is None,
            r.date_to is None,
            r.limit is None,
            r.offset is None,
    {
        DividendsBuilder {
            symbols: SymbolSet::new(),
            sort: None,
            date_from: None,
            date_to: None,
            limit: None,
            offset: None,
        }
    }
}

impl DividendsBuilder {
    /// Search the given symbol, without the caller needing to build a
    /// symbol collection first.
    pub fn symbol(self, symbol: &str) -> (r: Self)
        requires
            self.symbols.wf(),
        ensures
            r == (DividendsBuilder { symbols: r.symbols, ..self }),
            r.symbols.wf(),
            forall|s: Seq<char>|
                #[trigger] r.symbols@.contains(s) <==> (self.symbols@.contains(s) || s
                    == symbol@),
    {
        let mut next = self;
        next.symbols.insert(symbol);
        next
    }

    /// Search the given symbols.
    pub fn symbols(self, symbols: &Vec<String>) -> (r: Self)
        requires
            self.symbols.wf(),
        ensures
            r == (DividendsBuilder { symbols: r.symbols, ..self }),
            r.symbols.wf(),
            forall|s: Seq<char>|
                #[trigger] r.symbols@.contains(s) <==> (self.symbols@.contains(s) || exists|j: int|
                    0 <= j < symbols@.len() && #[trigger] symbols@[j]@ == s),
    {
        let mut next = self;
        let n = symbols.len();
        let mut i: usize = 0;
        while i < n
            invariant
                n == symbols@.len(),
                i <= n,
                next == (DividendsBuilder { symbols: next.symbols, ..self }),
                next.symbols.wf(),
                forall|s: Seq<char>|
                    #[trigger] next.symbols@.contains(s) <==> (self.symbols@.contains(s)
                        || exists|j: int| 0 <= j < i && #[trigger] symbols@[j]@ == s),
            decreases n - i,
        {
            let ghost before = next.symbols@;
            next.symbols.insert(symbols[i].as_str());
            proof {
                assert forall|s: Seq<char>| #[trigger] next.symbols@.contains(s) implies (
                self.symbols@.contains(s) || exists|j: int|
                    0 <= j < i + 1 && #[trigger] symbols@[j]@ == s) by {
                    if s == symbols@[i as int]@ {
                        assert(0 <= i < i + 1 && symbols@[i as int]@ == s);
                    }
                }
                assert forall|s: Seq<char>|
                    (self.symbols@.contains(s) || exists|j: int|
                        0 <= j < i + 1 && #[trigger] symbols@[j]@ == s) implies #[trigger] next
                    .symbols@.contains(s) by {
                    if !self.symbols@.contains(s) {
                        let j = choose|j: int|
                            0 <= j < i + 1 && #[trigger] symbols@[j]@ == s;
                        if j < i {
                            assert(before.contains(s));
                        }
                    }
                }
            }
            i = i + 1;
        }
        next
    }

    /// Set the sort order.
    pub fn sort(self, sort: SortOrder) -> (r: Self)
        ensures
            r == (DividendsBuilder { sort: Some(sort), ..self }),
    {
        DividendsBuilder { sort: Some(sort), ..self }
    }

    /// Set the earliest date to query data from.
    pub fn date_from(self, date_from: Date) -> (r: Self)
        ensures
            r == (DividendsBuilder { date_from: Some(date_from), ..self }),
    {
        DividendsBuilder { date_from: Some(date_from), ..self }
    }

    /// Set the latest date to query data to.
    pub fn date_to(self, date_to: Date) -> (r: Self)
        ensures
            r == (DividendsBuilder { date_to: Some(date_to), ..self }),
    {
        DividendsBuilder { date_to: Some(date_to), ..self }
    }

    /// Limit the number of results returned, rejecting limits above the
    /// page-size ceiling.
    pub fn limit(self, limit: u16) -> (r: Result<Self, ApiError<PaginationError>>)
        ensures
            limit <= MAX_PAGE_SIZE ==> r == Ok::<Self, ApiError<PaginationError>>(
                (DividendsBuilder { limit: Some(PageLimit(limit)), ..self }),
            ),
            limit > MAX_PAGE_SIZE ==> r == Err::<Self, ApiError<PaginationError>>(
                (ApiError::Pagination { source: PaginationError::ExceedLimit }),
            ),
    {
        match PageLimit::new(limit) {
            Ok(page_limit) => Ok(DividendsBuilder { limit: Some(page_limit), ..self }),
            Err(e) => Err(e),
        }
    }

    /// Set the pagination offset.
    pub fn offset(self, offset: u64) -> (r: Self)
        ensures
            r == (DividendsBuilder { offset: Some(offset), ..self }),
    {
        DividendsBuilder { offset: Some(offset), ..self }
    }

    /// Build the endpoint; every combination of held options is valid.
    pub fn build(self) -> (r: Result<Dividends, String>)
        ensures
            r == Ok::<Dividends, String>(
                (Dividends {
                    symbols: self.symbols,
                    sort: self.sort,
                    date_from: self.date_from,
                    date_to: self.date_to,
                    limit: self.limit,
                    offset: self.offset,
                }),
            ),
    {
        Ok(
            Dividends {
                    symbols: self.symbols,
                    sort: self.sort,
                    date_from: self.date_from,
                    date_to: self.date_to,
                    limit: self.limit,
                    offset: self.offset,
            },
        )
    }
}

impl Endpoint for Dividends {
    open spec fn method_spec(&self) -> Method {
        Method::Get
    }

    open spec fn endpoint_spec(&self) -> Seq<char> {
        "dividends"@
    }

    open spec fn parameters_spec(&self) -> Seq<(Seq<char>, Seq<char>)> {
        opt_pair(
            opt_pair(
            opt_pair(
            opt_pair(
            opt_pair(
            self.symbols@.map_values(|v: Seq<char>| ("symbols"@, v)),
            "sort"@,
            match self.sort {
                Some(s) => Some(s.as_str_spec()),
                None => None,
            },
        ),
            "date_from"@,
            match self.date_from {
                Some(d) => Some(date_str(d.year as nat, d.month as nat, d.day as nat)),
                None => None,
            },
        ),
            "date_to"@,
            match self.date_to {
                Some(d) => Some(date_str(d.year as nat, d.month as nat, d.day as nat)),
                None => None,
            },
        ),
            "limit"@,
            match self.limit {
                Some(l) => Some(dec_str(l.0 as nat)),
                None => None,
            },
        ),
            "offset"@,
            match self.offset {
                Some(o) => Some(dec_str(o as nat)),
                None => None,
            },
        )
    }

    open spec fn body_spec(&self) -> Option<(Seq<char>, Seq<u8>)> {
        None
    }

    fn method(&self) -> (m: Method) {
        Method::Get
    }

    fn endpoint(&self) -> (s: String) {
        String::from_str("dividends")
    }

    fn parameters(&self) -> (p: QueryParams) {
        let mut params = QueryParams::new();
        params.extend("symbols", self.symbols.items());
        proof {
            assert(params@ =~= self.symbols@.map_values(|v: Seq<char>| ("symbols"@, v)));
        }
        let sort_str: Option<String> = match &self.sort {
            Some(s) => Some(String::from_str(s.as_str())),
            None => None,
        };
        params.push_opt("sort", &sort_str);
        let from_str: Option<String> = match &self.date_from {
            Some(d) => Some(d.render()),
            None => None,
        };
        params.push_opt("date_from", &from_str);
        let to_str: Option<String> = match &self.date_to {
            Some(d) => Some(d.render()),
            None => None,
        };
        params.push_opt("date_to", &to_str);
        let limit_str: Option<String> = match &self.limit {
            Some(l) => Some(u64_dec(l.0 as u64)),
            None => None,
        };
        params.push_opt("limit", &limit_str);
        let offset_str: Option<String> = match self.offset {
            Some(o) => Some(u64_dec(o)),
            None => None,
        };
        params.push_opt("offset", &offset_str);
        proof {
            assert(params@ =~= self.parameters_spec());
        }
        params
    }

    fn body(&self) -> (r: Result<Option<(String, Vec<u8>)>, BodyError>) {
        Ok(None)
    }
}

impl Pageable for Dividends {
    open spec fn use_keyset_pagination_spec(&self) -> bool {
        false
    }

    fn use_keyset_pagination(&self) -> (b: bool) {
        false
    }
}

} // verus!
