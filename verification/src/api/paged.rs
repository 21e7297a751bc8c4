//! Pagination policies, limits, and the paged query drivers.

pub mod all_at_once;
pub mod lazy;
pub mod link_header;

use vstd::prelude::*;

use crate::api::error::ApiError;

pub use self::all_at_once::paged;
pub use self::all_at_once::Paged;
pub use self::lazy::KeysetPage;
pub use self::lazy::LazilyPagedIter;
pub use self::lazy::LazilyPagedState;
pub use self::lazy::Page;
pub use self::lazy::PageState;
pub use self::link_header::next_page_from_headers;

verus! {

/// The hard ceiling on the page size accepted by the remote service.
pub const MAX_PAGE_SIZE: u16 = 1000;

/// New-type reflecting pagination limits.
#[derive(Clone, Debug, PartialEq, Eq)]
pub struct PageLimit(pub u16);

impl PageLimit {
    /// Construct a page limit, rejecting values above the hard ceiling.
    ///
    /// Returns `Ok` exactly when `limit <= 1000`; otherwise the
    /// [`PaginationError::ExceedLimit`] error, before any network activity.
    pub fn new(limit: u16) -> (r: Result<Self, ApiError<PaginationError>>)
        ensures
            limit <= MAX_PAGE_SIZE <==> r == Ok::<Self, ApiError<PaginationError>>(
                PageLimit(limit),
            ),
            limit > MAX_PAGE_SIZE <==> r == Err::<Self, ApiError<PaginationError>>(
                ApiError::Pagination { source: PaginationError::ExceedLimit },
            ),
    {
        if limit <= MAX_PAGE_SIZE {
            Ok(PageLimit(limit))
        } else {
            Err(ApiError::Pagination { source: PaginationError::ExceedLimit })
        }
    }
}

/// Errors which may occur while paginating.
#[derive(Debug, Clone, PartialEq, Eq)]
pub enum PaginationError {
    /// A requested page size exceeds the hard ceiling.
    ExceedLimit,
    /// A `Link` HTTP header failed to parse.
    LinkHeader {
        /// A description of the parse failure.
        reason: String,
    },
}

impl PaginationError {
    /// A human-readable description of the error.
    pub fn to_string(&self) -> (r: String)
        ensures
            r@ == self.message_spec(),
    {
        match self {
            PaginationError::ExceedLimit => String::from_str("pagination exceeds limit error"),
            PaginationError::LinkHeader { .. } => {
                String::from_str("failed to parse a Link HTTP header")
            },
        }
    }

    /// The description returned by [`Self::to_string`].
    pub open spec fn message_spec(&self) -> Seq<char> {
        match self {
            PaginationError::ExceedLimit => "pagination exceeds limit error"@,
            PaginationError::LinkHeader { .. } => "failed to parse a Link HTTP header"@,
        }
    }
}

/// Pagination policies for a paged query.
#[derive(Debug, Clone, Copy, PartialEq, Eq, Structural)]
pub enum Pagination {
    /// Return all results.
    All,
    /// Stop requesting pages once at least this many results were collected.
    Limit(usize),
}

impl Default for Pagination {
    /// The default policy fetches everything.
    fn default() -> (r: Self)
        ensures
            r == Pagination::All,
    {
        Pagination::All
    }
}

impl Pagination {
    /// The page size requested from the server under this policy.
    pub open spec fn page_limit_spec(self) -> int {
        match self {
            Pagination::All => MAX_PAGE_SIZE as int,
            Pagination::Limit(size) => {
                if size < MAX_PAGE_SIZE as int {
                    size as int
                } else {
                    MAX_PAGE_SIZE as int
                }
            },
        }
    }

    /// The page size requested from the server: the policy's limit, clamped
    /// to the hard ceiling.
    pub fn page_limit(self) -> (r: usize)
        ensures
            r == self.page_limit_spec(),
    {
        match self {
            Pagination::All => MAX_PAGE_SIZE as usize,
            Pagination::Limit(size) => {
                if size < MAX_PAGE_SIZE as usize {
                    size
                } else {
                    MAX_PAGE_SIZE as usize
                }
            },
        }
    }

    /// The termination rule: a page smaller than the requested size means the
    /// server is exhausted, and under `Limit(n)` reaching `n` collected
    /// results also stops the query.
    pub open spec fn is_last_page_spec(self, last_page_size: int, num_results: int) -> bool {
        last_page_size < self.page_limit_spec() || (match self {
            Pagination::All => false,
            Pagination::Limit(limit) => limit <= num_results,
        })
    }

    /// Decide whether the page just received is the last one to request.
    pub fn is_last_page(self, last_page_size: usize, num_results: usize) -> (r: bool)
        ensures
            r == self.is_last_page_spec(last_page_size as int, num_results as int),
    {
        if last_page_size < self.page_limit() {
            return true;
        }
        if let Pagination::Limit(limit) = self {
            return limit <= num_results;
        }
        false
    }
}

} // verus!
