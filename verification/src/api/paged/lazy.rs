//! The lazy pagination driver: cursor state, one page-fetch step, and a
//! pull-based iterator over items.

use vstd::prelude::*;

use crate::api::client::Client;
use crate::api::client::Request;
use crate::api::client::RestClient;
use crate::api::endpoint::Pageable;
use crate::api::error::ApiError;
use crate::api::paged::all_at_once::Paged;
use crate::api::paged::link_header::next_page_from_headers;
use crate::api::paged::Pagination;
use crate::api::params::dec_str;
use crate::api::params::u64_dec;
use crate::api::paged::link_header::no_link_headers;
use crate::api::probe::classify_body;
use crate::api::probe::is_success_status;
use crate::api::probe::json_array;
use crate::api::probe::json_array_items;
use crate::api::probe::json_canon;
use crate::api::probe::json_field_of;
use crate::api::probe::json_parses;
use crate::api::probe::remote_error_matches;
use crate::api::query::endpoint_body_parts;
use crate::api::query::url_with_params;
use crate::api::query::url_with_query;

verus! {

/// The keyset flavour of a page cursor.
#[derive(Debug, Clone, PartialEq, Eq)]
pub enum KeysetPage {
    /// No continuation URL yet: the first request carries only the
    /// pagination-mode marker.
    First,
    /// The next request must re-issue exactly this server-supplied URL.
    Next(String),
}

/// A page cursor.
#[derive(Debug, Clone, PartialEq, Eq)]
pub enum Page {
    /// The next request uses this page number.
    Number(u64),
    /// The endpoint paginates by keyset.
    Keyset(KeysetPage),
    /// Terminal: no further requests are made.
    Done,
}

impl Page {
    /// The cursor after a page that did not satisfy the termination rule:
    /// offset cursors advance by one (saturating at the integer limit),
    /// keyset cursors follow the continuation URL or stop without one, and
    /// `Done` stays `Done`.
    pub open spec fn next_page_spec(&self, next_url: Option<String>) -> Page {
        match self {
            Page::Number(k) => {
                if *k < u64::MAX {
                    Page::Number((*k + 1) as u64)
                } else {
                    Page::Number(*k)
                }
            },
            Page::Keyset(_) => match next_url {
                Some(url) => Page::Keyset(KeysetPage::Next(url)),
                None => Page::Done,
            },
            Page::Done => Page::Done,
        }
    }

    /// Compute the cursor after a page that did not satisfy the termination
    /// rule.
    pub fn next_page(&self, next_url: Option<String>) -> (r: Page)
        ensures
            r == self.next_page_spec(next_url),
    {
        match self {
            Page::Number(k) => {
                if *k < u64::MAX {
                    Page::Number(*k + 1)
                } else {
                    Page::Number(*k)
                }
            },
            Page::Keyset(_) => match next_url {
                Some(url) => Page::Keyset(KeysetPage::Next(url)),
                None => Page::Done,
            },
            Page::Done => Page::Done,
        }
    }

    /// Append this cursor's query parameter: the page number for offset
    /// cursors, the pagination-mode marker for keyset cursors.
    pub fn apply_to(&self, params: &mut crate::api::params::QueryParams)
        requires
            !(self is Done),
        ensures
            match self {
                Page::Number(k) => final(params)@ == old(params)@.push(
                    ("page"@, dec_str(*k as nat)),
                ),
                Page::Keyset(_) => final(params)@ == old(params)@.push(
                    ("pagination"@, "keyset"@),
                ),
                Page::Done => false,
            },
    {
        match self {
            Page::Number(k) => {
                let page_str = u64_dec(*k);
                params.push("page", page_str.as_str());
            },
            Page::Keyset(_) => {
                params.push("pagination", "keyset");
            },
            Page::Done => (),
        }
    }
}

/// The mutable state of one in-flight paginated query.
#[derive(Debug, Clone, PartialEq, Eq)]
pub struct PageState {
    /// Items successfully parsed across pages so far.
    pub total_results: usize,
    /// The cursor deciding the next request.
    pub next_page: Page,
}

/// The accumulated total after a page of `size` items, saturating at the
/// integer limit.
pub open spec fn advanced_total(total: nat, size: nat) -> nat {
    if total + size <= usize::MAX {
        total + size
    } else {
        usize::MAX as nat
    }
}

/// The cursor after processing a page: `Done` when the termination rule is
/// satisfied, else the advanced cursor.
pub open spec fn advanced_page(
    pagination: Pagination,
    page: Page,
    new_total: nat,
    size: nat,
    next_url: Option<String>,
) -> Page {
    if pagination.is_last_page_spec(size as int, new_total as int) {
        Page::Done
    } else {
        page.next_page_spec(next_url)
    }
}

/// Short-page termination: a page smaller than the requested page size moves
/// any cursor to `Done`, whatever the policy and continuation are.
pub proof fn lemma_short_page_stops(
    pagination: Pagination,
    page: Page,
    new_total: nat,
    size: nat,
    next_url: Option<String>,
)
    requires
        (size as int) < pagination.page_limit_spec(),
    ensures
        advanced_page(pagination, page, new_total, size, next_url) == Page::Done,
{
}

/// Limit termination: under `Limit(n)`, a total of at least `n` collected
/// items moves any cursor to `Done`, whatever the page size and continuation
/// are.
pub proof fn lemma_limit_stops(
    limit: usize,
    page: Page,
    new_total: nat,
    size: nat,
    next_url: Option<String>,
)
    requires
        limit <= new_total,
    ensures
        advanced_page(Pagination::Limit(limit), page, new_total, size, next_url) == Page::Done,
{
}

/// Keyset termination without a continuation: a keyset cursor whose response
/// carried no continuation URL moves to `Done` even when the page was full
/// and the policy asks for more, so the driver never loops forever waiting
/// for a continuation the server does not supply.
pub proof fn lemma_keyset_without_continuation_stops(
    pagination: Pagination,
    page: Page,
    new_total: nat,
    size: nat,
)
    requires
        page is Keyset,
    ensures
        advanced_page(pagination, page, new_total, size, None::<String>) == Page::Done,
{
}

/// Empty-page termination: a page with no items moves any cursor to
/// `Done`, whatever the policy and continuation are — so once the server is
/// exhausted, the driver asks nothing further.
pub proof fn lemma_empty_page_stops(
    pagination: Pagination,
    page: Page,
    new_total: nat,
    next_url: Option<String>,
)
    ensures
        advanced_page(pagination, page, new_total, 0, next_url) == Page::Done,
{
}

/// The URL of a page request built from the endpoint itself (rather than a
/// continuation URL): the resolved endpoint path with the endpoint's own
/// parameters, the clamped page size, and the cursor's parameter attached.
pub open spec fn paged_url_spec<E: Pageable>(
    resolved: Seq<char>,
    paged: Paged<E>,
    page: Page,
) -> Seq<char> {
    url_with_query(
        resolved,
        paged.endpoint.parameters_spec() + seq![
            ("per_page"@, dec_str(paged.pagination.page_limit_spec() as nat)),
        ] + (match page {
            Page::Number(k) => seq![("page"@, dec_str(k as nat))],
            Page::Keyset(_) => seq![("pagination"@, "keyset"@)],
            Page::Done => Seq::empty(),
        }),
    )
}

/// The state machine of one lazily paginated query.
#[derive(Debug, Clone)]
pub struct LazilyPagedState<E> {
    /// The paged endpoint being driven.
    pub paged: Paged<E>,
    /// The cursor and accumulated count.
    pub page_state: PageState,
}

impl<E: Pageable> LazilyPagedState<E> {
    /// Fresh state for a paged query: a keyset endpoint starts before its
    /// first continuation, any other at page number one.
    pub fn new(paged: Paged<E>) -> (r: Self)
        ensures
            r.paged == paged,
            r.page_state.total_results == 0,
            r.page_state.next_page == (if paged.endpoint.use_keyset_pagination_spec() {
                Page::Keyset(KeysetPage::First)
            } else {
                Page::Number(1)
            }),
    {
        let next_page = if paged.endpoint.use_keyset_pagination() {
            Page::Keyset(KeysetPage::First)
        } else {
            Page::Number(1)
        };
        LazilyPagedState { paged, page_state: PageState { total_results: 0, next_page } }
    }

    /// Whether the query is finished.
    pub fn is_done(&self) -> (r: bool)
        ensures
            r == (self.page_state.next_page is Done),
    {
        match self.page_state.next_page {
            Page::Done => true,
            _ => false,
        }
    }

    /// Account one received page: add its size to the total and move the
    /// cursor by the termination rule.
    pub fn next_page(&mut self, last_page_size: usize, next_url: Option<String>)
        ensures
            final(self).paged == old(self).paged,
            final(self).page_state.total_results as nat == advanced_total(
                old(self).page_state.total_results as nat,
                last_page_size as nat,
            ),
            final(self).page_state.next_page == advanced_page(
                old(self).paged.pagination,
                old(self).page_state.next_page,
                advanced_total(old(self).page_state.total_results as nat, last_page_size as nat),
                last_page_size as nat,
                next_url,
            ),
    {
        let total = self.page_state.total_results.saturating_add(last_page_size);
        self.page_state.total_results = total;
        if self.paged.pagination.is_last_page(last_page_size, total) {
            self.page_state.next_page = Page::Done;
        } else {
            let advanced = self.page_state.next_page.next_page(next_url);
            self.page_state.next_page = advanced;
        }
    }

    /// Build the URL of a page request from a resolved base URL: the
    /// endpoint's own parameters, the clamped page size, and the cursor's
    /// parameter, attached to the resolved path.
    ///
    /// For an offset cursor `Number(k)` the result carries `page=k` exactly,
    /// so the second page of a query asks for `page=2`.
    pub fn build_page_url(&self, resolved: String) -> (r: String)
        requires
            !(self.page_state.next_page is Done),
        ensures
            r@ == paged_url_spec(resolved@, self.paged, self.page_state.next_page),
    {
        let mut params = self.paged.endpoint.parameters();
        let per_page = self.paged.pagination.page_limit();
        let per_page_str = u64_dec(per_page as u64);
        params.push("per_page", per_page_str.as_str());
        self.page_state.next_page.apply_to(&mut params);
        proof {
            assert(params@ =~= self.paged.endpoint.parameters_spec() + seq![
                ("per_page"@, dec_str(self.paged.pagination.page_limit_spec() as nat)),
            ] + (match self.page_state.next_page {
                Page::Number(k) => seq![("page"@, dec_str(k as nat))],
                Page::Keyset(_) => seq![("pagination"@, "keyset"@)],
                Page::Done => Seq::empty(),
            }));
        }
        url_with_params(resolved, &params)
    }

    /// The URL of the next request: none when the query is done, the
    /// server's continuation URL verbatim when one is held, and otherwise a
    /// URL built by [`Self::build_page_url`] from the resolved endpoint
    /// path.
    pub fn page_url<C: RestClient>(&self, client: &C) -> (r: Result<
        Option<String>,
        ApiError<C::Error>,
    >)
        ensures
            self.page_state.next_page is Done ==> r == Ok::<Option<String>, ApiError<C::Error>>(
                None,
            ),
            self.page_state.next_page matches Page::Keyset(KeysetPage::Next(next)) ==> (
            r matches Ok(found) && found matches Some(url) && url@ == next@),
            !(self.page_state.next_page is Done) && !(self.page_state.next_page matches
            Page::Keyset(KeysetPage::Next(_))) ==> (r is Err || (r matches Ok(found)
                && found matches Some(url) && exists|resolved: Seq<char>|
                url@ == paged_url_spec(resolved, self.paged, self.page_state.next_page))),
            r is Err ==> !(self.page_state.next_page is Done) && !(self.page_state.next_page
                matches Page::Keyset(KeysetPage::Next(_))),
    {
        match &self.page_state.next_page {
            Page::Done => Ok(None),
            Page::Keyset(KeysetPage::Next(url)) => Ok(Some(url.clone())),
            _ => {
                let resolved = match client.rest_endpoint(
                    self.paged.endpoint.endpoint().as_str(),
                ) {
                    Ok(url) => url,
                    Err(e) => {
                        return Err(e);
                    },
                };
                Ok(Some(self.build_page_url(resolved)))
            },
        }
    }

    /// Build the request for a page URL from the endpoint's method and
    /// body; an encoding failure is exactly a body error.
    pub fn build_request<TErr>(&self, url: String) -> (r: Result<Request, ApiError<TErr>>)
        ensures
            r matches Err(e) ==> e is Body,
            r matches Ok(req) ==> {
                &&& req.method == self.paged.endpoint.method_spec()
                &&& req.url@ == url@
                &&& match (req.content_type, self.paged.endpoint.body_spec()) {
                    (Some(ct), Some(spec_body)) => ct@ == spec_body.0 && req.body@ == spec_body.1,
                    (None, None) => req.body@ == Seq::<u8>::empty(),
                    _ => false,
                }
            },
    {
        let (content_type, body_data) = match endpoint_body_parts::<E, TErr>(
            &self.paged.endpoint,
        ) {
            Ok(parts) => parts,
            Err(e) => {
                return Err(e);
            },
        };
        Ok(Request { method: self.paged.endpoint.method(), url, content_type, body: body_data })
    }

    /// Process one response: extract the continuation URL under keyset mode,
    /// classify the response, parse the body as an array of items, and move
    /// the cursor.  Any failure leaves the state untouched (fail-fast).
    pub fn process_response<TErr>(
        &mut self,
        status: u16,
        headers: &Vec<(String, String)>,
        body: &Vec<u8>,
    ) -> (r: Result<Vec<Vec<u8>>, ApiError<TErr>>)
        ensures
            r is Err ==> *final(self) == *old(self),
            r matches Ok(items) ==> {
                &&& json_array_items(body@) == Some(items.deep_view())
                &&& final(self).paged == old(self).paged
                &&& final(self).page_state.total_results as nat == advanced_total(
                    old(self).page_state.total_results as nat,
                    items@.len(),
                )
                &&& exists|next_url: Option<String>|
                    final(self).page_state.next_page == advanced_page(
                        old(self).paged.pagination,
                        old(self).page_state.next_page,
                        advanced_total(old(self).page_state.total_results as nat, items@.len()),
                        items@.len(),
                        next_url,
                    ) && (!old(self).paged.endpoint.use_keyset_pagination_spec() ==> next_url
                        is None)
            },
            (!old(self).paged.endpoint.use_keyset_pagination_spec() || no_link_headers(headers@))
                ==> {
                &&& !json_parses(body@) ==> (r matches Err(e)
                    && e matches ApiError::MarketstackService {
                    status: s,
                    data,
                } && s == status && data@ == body@)
                &&& json_parses(body@) && !is_success_status(status) ==> (r matches Err(e)
                    && remote_error_matches(
                    e,
                    json_field_of(body@, "/message"@),
                    json_field_of(body@, "/error"@),
                    json_canon(body@),
                ))
                &&& json_parses(body@) && is_success_status(status) && json_array_items(body@)
                    is Some ==> r is Ok
                &&& json_parses(body@) && is_success_status(status) && json_array_items(body@)
                    is None ==> (r matches Err(e) && e is DataType)
            },
    {
        let next_url: Option<String> = if self.paged.endpoint.use_keyset_pagination() {
            match next_page_from_headers(headers) {
                Ok(url) => url,
                Err(source) => {
                    return Err(ApiError::Pagination { source });
                },
            }
        } else {
            None
        };
        match classify_body::<TErr>(status, body) {
            Ok(()) => (),
            Err(e) => {
                return Err(e);
            },
        }
        let items = match json_array(body) {
            Some(items) => items,
            None => {
                return Err(
                    ApiError::DataType {
                        source: String::from_str("expected a JSON array of items"),
                        typename: String::from_str("Vec"),
                    },
                );
            },
        };
        self.next_page(items.len(), next_url);
        Ok(items)
    }

    /// Fetch and process one page.  A finished query returns an empty page
    /// immediately, without a network call and without touching the state;
    /// a failed fetch leaves the state untouched, and an empty page always
    /// finishes the query.
    pub fn query<C: Client>(&mut self, client: &C) -> (r: Result<Vec<Vec<u8>>, ApiError<C::Error>>)
        ensures
            old(self).page_state.next_page is Done ==> (r matches Ok(items) && items@.len() == 0
                && *final(self) == *old(self)),
            r is Err ==> *final(self) == *old(self),
            final(self).paged == old(self).paged,
            r matches Ok(items) ==> final(self).page_state.total_results as nat == advanced_total(
                old(self).page_state.total_results as nat,
                items@.len(),
            ),
            r matches Ok(items) && items@.len() == 0 ==> final(self).page_state.next_page
                is Done,
    {
        let url = match self.page_url(client) {
            Ok(Some(url)) => url,
            Ok(None) => {
                return Ok(Vec::new());
            },
            Err(e) => {
                return Err(e);
            },
        };
        let req = match self.build_request::<C::Error>(url) {
            Ok(req) => req,
            Err(e) => {
                return Err(e);
            },
        };
        let rsp = match client.rest(&req) {
            Ok(rsp) => rsp,
            Err(e) => {
                return Err(e);
            },
        };
        let r = self.process_response(rsp.status, &rsp.headers, &rsp.body);
        proof {
            if r is Ok && r->Ok_0@.len() == 0 {
                let next_url = choose|next_url: Option<String>|
                    self.page_state.next_page == advanced_page(
                        old(self).paged.pagination,
                        old(self).page_state.next_page,
                        advanced_total(old(self).page_state.total_results as nat, 0),
                        0,
                        next_url,
                    ) && (!old(self).paged.endpoint.use_keyset_pagination_spec() ==> next_url
                        is None);
                lemma_empty_page_stops(
                    old(self).paged.pagination,
                    old(self).page_state.next_page,
                    advanced_total(old(self).page_state.total_results as nat, 0),
                    next_url,
                );
            }
        }
        r
    }
}

/// An iterator which yields raw items from a paginated result.
///
/// Pages are fetched lazily: endpoints not using keyset pagination may
/// observe duplicate or missing items if the remote data changes while
/// iterating.  A page-fetch failure is yielded as an error item; the
/// sequence is not resumable past an error.
#[derive(Debug, Clone)]
pub struct LazilyPagedIter<E> {
    /// The pagination state machine.
    pub state: LazilyPagedState<E>,
    /// Items of the current page not yet handed out.
    pub current_page: Vec<Vec<u8>>,
}

impl<E: Pageable> LazilyPagedIter<E> {
    /// Start iterating a paged endpoint.
    pub fn new(paged: Paged<E>) -> (r: Self)
        ensures
            r.state.paged == paged,
            r.current_page@.len() == 0,
    {
        LazilyPagedIter { state: LazilyPagedState::new(paged), current_page: Vec::new() }
    }

    /// The next item: items are yielded from the buffered page in order, and
    /// an empty buffer fetches the next page first.  After the cursor is
    /// done and the buffer drained, every call returns `None` without
    /// network activity.
    pub fn next<C: Client>(&mut self, client: &C) -> (r: Option<
        Result<Vec<u8>, ApiError<C::Error>>,
    >)
        ensures
            old(self).current_page@.len() > 0 ==> {
                &&& r matches Some(item) && item matches Ok(item) && item@ == old(
                    self,
                ).current_page@[0]@
                &&& final(self).current_page@ == old(self).current_page@.drop_first()
                &&& final(self).state == old(self).state
            },
            old(self).current_page@.len() == 0 && old(self).state.page_state.next_page is Done
                ==> r is None && final(self).state == old(self).state
                && final(self).current_page@.len() == 0,
            r is None ==> final(self).state.page_state.next_page is Done
                && final(self).current_page@.len() == 0,
            (r matches Some(item) && item is Err) ==> final(self).state == old(self).state
                && final(self).current_page@ == old(self).current_page@,
    {
        if self.current_page.len() == 0 {
            match self.state.query(client) {
                Ok(items) => {
                    self.current_page = items;
                },
                Err(e) => {
                    return Some(Err(e));
                },
            }
        }
        if self.current_page.len() == 0 {
            return None;
        }
        let item = self.current_page.remove(0);
        Some(Ok(item))
    }
}

} // verus!
