//! The eager pagination driver: collect every page into one vector.

use vstd::prelude::*;

use crate::api::client::Client;
use crate::api::endpoint::Pageable;
use crate::api::error::ApiError;
use crate::api::paged::lazy::LazilyPagedIter;
use crate::api::paged::lazy::LazilyPagedState;
use crate::api::paged::Pagination;

verus! {

/// A query modifier that paginates an endpoint.
#[derive(Debug, Clone)]
pub struct Paged<E> {
    /// The endpoint being paginated.
    pub endpoint: E,
    /// The pagination policy.
    pub pagination: Pagination,
}

/// Collect data from a paged endpoint.
pub fn paged<E>(endpoint: E, pagination: Pagination) -> (r: Paged<E>)
    ensures
        r == (Paged { endpoint, pagination }),
{
    Paged { endpoint, pagination }
}

impl<E: Pageable> Paged<E> {
    /// Eagerly collect the items of every page, in page order.
    ///
    /// Pages are requested strictly in sequence until the termination rule
    /// stops the cursor; the first failed page fetch aborts the whole query.
    /// `Limit(n)` caps page requests, not the returned item count: when the
    /// final page overshoots the limit, every fetched item is returned.
    pub fn query<C: Client>(self, client: &C) -> Result<Vec<Vec<u8>>, ApiError<C::Error>> {
        let mut state = LazilyPagedState::new(self);
        Self::drain(&mut state, client)
    }

    /// Drive a pagination state machine until its cursor is done,
    /// collecting the items of every fetched page in page order.
    ///
    /// A success means the cursor reached `Done` — the only exception is a
    /// result already holding as many items as the machine can count, where
    /// the request budget of the termination measure runs out first.
    pub fn drain<C: Client>(state: &mut LazilyPagedState<E>, client: &C) -> (r: Result<
        Vec<Vec<u8>>,
        ApiError<C::Error>,
    >)
        ensures
            final(state).paged == old(state).paged,
            r matches Ok(items) ==> (final(state).page_state.next_page is Done || items@.len()
                >= usize::MAX),
    {
        let mut results: Vec<Vec<u8>> = Vec::new();
        // The request counter gives the loop a termination measure; no real
        // transport answers anywhere near that many page requests.
        let mut requests: usize = 0;
        while requests < usize::MAX && !state.is_done()
            invariant
                state.paged == old(state).paged,
                !(state.page_state.next_page is Done) ==> requests <= results@.len(),
            decreases usize::MAX - requests,
        {
            let mut page = match state.query(client) {
                Ok(page) => page,
                Err(e) => {
                    return Err(e);
                },
            };
            results.append(&mut page);
            requests = requests + 1;
        }
        Ok(results)
    }

    /// Create an iterator over the results of the paginated endpoint.
    pub fn iter(self) -> (r: LazilyPagedIter<E>)
        ensures
            r.state.paged == self,
            r.current_page@.len() == 0,
    {
        LazilyPagedIter::new(self)
    }
}

} // verus!
