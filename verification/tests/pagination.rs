//! Tests for the pagination policy and the paged query drivers.

use std::cell::RefCell;

use marketstack::api::paged::{paged, PageLimit, Pagination};
use marketstack::api::{
    ApiError, BodyError, Client, Endpoint, Method, Pageable, QueryParams, Request, Response,
    RestClient,
};
use marketstack::Auth;

/// A transport that replays a scripted list of responses and records every
/// request it is handed.
struct MockClient {
    auth: Option<Auth>,
    responses: RefCell<Vec<Response>>,
    repeat_last: bool,
    requests: RefCell<Vec<Request>>,
}

impl MockClient {
    fn new(responses: Vec<Response>) -> Self {
        MockClient {
            auth: Some(Auth::Token("123".to_string())),
            responses: RefCell::new(responses),
            repeat_last: false,
            requests: RefCell::new(Vec::new()),
        }
    }

    fn endless(responses: Vec<Response>) -> Self {
        let mut client = MockClient::new(responses);
        client.repeat_last = true;
        client
    }

    fn request_count(&self) -> usize {
        self.requests.borrow().len()
    }

    fn request_url(&self, i: usize) -> String {
        self.requests.borrow()[i].url.clone()
    }
}

impl RestClient for MockClient {
    type Error = String;

    fn rest_endpoint(&self, endpoint: &str) -> Result<String, ApiError<String>> {
        Ok(format!("https://api.example.com/v1/{}", endpoint))
    }

    fn get_auth(&self) -> Option<Auth> {
        self.auth.clone()
    }
}

impl Client for MockClient {
    fn rest(&self, request: &Request) -> Result<Response, ApiError<String>> {
        self.requests.borrow_mut().push(request.clone());
        let mut queue = self.responses.borrow_mut();
        if queue.is_empty() {
            return Err(ApiError::Client {
                source: "no scripted response left".to_string(),
            });
        }
        if queue.len() == 1 && self.repeat_last {
            Ok(queue[0].clone())
        } else {
            Ok(queue.remove(0))
        }
    }
}

/// An endpoint under the control of the tests.
#[derive(Clone)]
struct FixedEndpoint {
    path: String,
    keyset: bool,
}

impl FixedEndpoint {
    fn offset_mode() -> Self {
        FixedEndpoint {
            path: "custom".to_string(),
            keyset: false,
        }
    }

    fn keyset_mode() -> Self {
        FixedEndpoint {
            path: "custom".to_string(),
            keyset: true,
        }
    }
}

impl Endpoint for FixedEndpoint {
    fn method(&self) -> Method {
        Method::Get
    }

    fn endpoint(&self) -> String {
        self.path.clone()
    }

    fn parameters(&self) -> QueryParams {
        QueryParams::new()
    }

    fn body(&self) -> Result<Option<(String, Vec<u8>)>, BodyError> {
        Ok(None)
    }
}

impl Pageable for FixedEndpoint {
    fn use_keyset_pagination(&self) -> bool {
        self.keyset
    }
}

/// A JSON array holding `count` numbered items, starting at `start`.
fn page_body(start: usize, count: usize) -> Vec<u8> {
    let mut parts: Vec<String> = Vec::new();
    for i in 0..count {
        parts.push(format!("{}", start + i));
    }
    format!("[{}]", parts.join(",")).into_bytes()
}

fn page_response(start: usize, count: usize) -> Response {
    Response {
        status: 200,
        headers: Vec::new(),
        body: page_body(start, count),
    }
}

#[test]
fn test_new() {
    let limit = PageLimit::new(5);
    assert!(limit.is_ok());

    assert_eq!(limit.unwrap().0, 5);
}

#[test]
fn test_over_limit() {
    let limit = PageLimit::new(9999);
    assert!(limit.is_err());

    let err_message = limit.err().unwrap();
    assert_eq!(
        err_message.to_string(),
        "pagination error: pagination exceeds limit error"
    );
}

#[test]
fn pagination_default() {
    assert_eq!(Pagination::default(), Pagination::All);
}

#[test]
fn page_limit_is_clamped_to_the_ceiling() {
    assert_eq!(Pagination::All.page_limit(), 1000);
    assert_eq!(Pagination::Limit(5).page_limit(), 5);
    assert_eq!(Pagination::Limit(9999).page_limit(), 1000);
}

#[test]
fn short_page_stops_eager_collection() {
    // Three pages: two full ones (the requested page size under `All` is
    // 1000) and a short one; the driver must stop after exactly three
    // requests and return every item in order.
    let client = MockClient::new(vec![
        page_response(0, 1000),
        page_response(1000, 1000),
        page_response(2000, 7),
    ]);
    let items = paged(FixedEndpoint::offset_mode(), Pagination::All)
        .query(&client)
        .unwrap();
    assert_eq!(client.request_count(), 3);
    assert_eq!(items.len(), 2007);
    assert_eq!(items[0], b"0".to_vec());
    assert_eq!(items[1000], b"1000".to_vec());
    assert_eq!(items[2006], b"2006".to_vec());
}

#[test]
fn short_page_stops_lazy_collection() {
    let client = MockClient::new(vec![
        page_response(0, 1000),
        page_response(1000, 1000),
        page_response(2000, 7),
    ]);
    let mut iter = paged(FixedEndpoint::offset_mode(), Pagination::All).iter();
    let mut items: Vec<Vec<u8>> = Vec::new();
    while let Some(item) = iter.next(&client) {
        items.push(item.unwrap());
    }
    assert_eq!(client.request_count(), 3);
    assert_eq!(items.len(), 2007);
    assert_eq!(items[0], b"0".to_vec());
    assert_eq!(items[2006], b"2006".to_vec());
}

#[test]
fn limit_caps_requests_not_returned_items() {
    // An endless server that always answers with a full page of 1000 items:
    // under `Limit(2500)` the third page pushes the total to 3000 >= 2500,
    // so exactly three requests are made, and the overshooting final page is
    // returned whole (the limit caps page requests, not the item count).
    let client = MockClient::endless(vec![page_response(0, 1000)]);
    let items = paged(FixedEndpoint::offset_mode(), Pagination::Limit(2500))
        .query(&client)
        .unwrap();
    assert_eq!(client.request_count(), 3);
    assert_eq!(items.len(), 3000);
}

#[test]
fn keyset_without_continuation_stops() {
    // A full page under keyset pagination, but no Link header: the driver
    // must stop after that one request rather than looping forever.
    let client = MockClient::endless(vec![page_response(0, 1000)]);
    let items = paged(FixedEndpoint::keyset_mode(), Pagination::All)
        .query(&client)
        .unwrap();
    assert_eq!(client.request_count(), 1);
    assert_eq!(items.len(), 1000);
}

#[test]
fn keyset_second_request_uses_the_continuation_url_verbatim() {
    let continuation = "https://api.example.com/v1/custom?cursor=opaque-token";
    let first = Response {
        status: 200,
        headers: vec![(
            "Link".to_string(),
            format!("<{}>; rel=\"next\"", continuation),
        )],
        body: page_body(0, 1000),
    };
    let second = page_response(1000, 3);
    let client = MockClient::new(vec![first, second]);
    let items = paged(FixedEndpoint::keyset_mode(), Pagination::All)
        .query(&client)
        .unwrap();
    assert_eq!(client.request_count(), 2);
    assert_eq!(items.len(), 1003);
    assert_eq!(
        client.request_url(0),
        "https://api.example.com/v1/custom?per_page=1000&pagination=keyset"
    );
    assert_eq!(client.request_url(1), continuation);
}

#[test]
fn offset_second_request_carries_page_two() {
    let client = MockClient::new(vec![page_response(0, 1000), page_response(1000, 3)]);
    let items = paged(FixedEndpoint::offset_mode(), Pagination::All)
        .query(&client)
        .unwrap();
    assert_eq!(client.request_count(), 2);
    assert_eq!(items.len(), 1003);
    assert_eq!(
        client.request_url(0),
        "https://api.example.com/v1/custom?per_page=1000&page=1"
    );
    assert_eq!(
        client.request_url(1),
        "https://api.example.com/v1/custom?per_page=1000&page=2"
    );
}

#[test]
fn lazy_iteration_ends_without_further_network_calls() {
    let client = MockClient::new(vec![page_response(0, 2)]);
    let mut iter = paged(FixedEndpoint::offset_mode(), Pagination::Limit(2)).iter();
    assert_eq!(iter.next(&client).unwrap().unwrap(), b"0".to_vec());
    assert_eq!(iter.next(&client).unwrap().unwrap(), b"1".to_vec());
    assert!(iter.next(&client).is_none());
    assert!(iter.next(&client).is_none());
    assert_eq!(client.request_count(), 1);
}

#[test]
fn failed_page_fetch_aborts_the_query() {
    // A non-success page mid-way: the eager driver surfaces the remote
    // error and stops.
    let first = page_response(0, 1000);
    let second = Response {
        status: 500,
        headers: Vec::new(),
        body: b"{\"message\": \"boom\"}".to_vec(),
    };
    let client = MockClient::new(vec![first, second]);
    let result = paged(FixedEndpoint::offset_mode(), Pagination::All).query(&client);
    assert_eq!(client.request_count(), 2);
    match result {
        Err(ApiError::Marketstack { msg }) => assert_eq!(msg, "boom"),
        other => panic!("unexpected result: {:?}", other),
    }
}

#[test]
fn pagination_limit_rejected_before_any_network_call() {
    // Constructing an over-limit page size fails at endpoint-construction
    // time, with zero network activity.
    let limit = PageLimit::new(1001);
    assert!(matches!(
        limit,
        Err(ApiError::Pagination { .. })
    ));
    let ok = PageLimit::new(1000);
    assert!(ok.is_ok());
}

#[test]
fn malformed_link_header_is_a_pagination_error() {
    let first = Response {
        status: 200,
        headers: vec![("Link".to_string(), "no brackets here".to_string())],
        body: page_body(0, 1000),
    };
    let client = MockClient::new(vec![first]);
    let result = paged(FixedEndpoint::keyset_mode(), Pagination::All).query(&client);
    assert!(matches!(
        result,
        Err(ApiError::Pagination { .. })
    ));
}

#[test]
fn link_header_name_is_case_insensitive() {
    let continuation = "https://api.example.com/v1/custom?cursor=upper";
    let first = Response {
        status: 200,
        headers: vec![(
            "LINK".to_string(),
            format!("<{}>; rel=\"next\"", continuation),
        )],
        body: page_body(0, 1000),
    };
    let second = page_response(1000, 1);
    let client = MockClient::new(vec![first, second]);
    let items = paged(FixedEndpoint::keyset_mode(), Pagination::All)
        .query(&client)
        .unwrap();
    assert_eq!(items.len(), 1001);
    assert_eq!(client.request_url(1), continuation);
}

#[test]
fn rel_next_segment_is_picked_among_others() {
    let continuation = "https://api.example.com/v1/custom?cursor=after";
    let value = format!(
        "<https://api.example.com/v1/custom?cursor=before>; rel=\"prev\", <{}>; rel=\"next\"",
        continuation
    );
    let first = Response {
        status: 200,
        headers: vec![("link".to_string(), value)],
        body: page_body(0, 1000),
    };
    let second = page_response(1000, 2);
    let client = MockClient::new(vec![first, second]);
    let items = paged(FixedEndpoint::keyset_mode(), Pagination::All)
        .query(&client)
        .unwrap();
    assert_eq!(items.len(), 1002);
    assert_eq!(client.request_url(1), continuation);
}

#[test]
fn check_connection_dispatches_one_eod_query() {
    let ok = Response {
        status: 200,
        headers: Vec::new(),
        body: b"{\"pagination\": {}, \"data\": []}".to_vec(),
    };
    let client = MockClient::new(vec![ok]);
    let auth = Auth::Token("123".to_string());
    assert!(auth.check_connection(&client).is_ok());
    assert_eq!(client.request_count(), 1);
    assert_eq!(
        client.request_url(0),
        "https://api.example.com/v1/eod?symbols=AAPL&access_key=123"
    );
}

#[test]
fn check_connection_without_credential_fails() {
    let mut client = MockClient::new(Vec::new());
    client.auth = None;
    let auth = Auth::Token("123".to_string());
    assert!(matches!(
        auth.check_connection(&client),
        Err(ApiError::Auth { .. })
    ));
    assert_eq!(client.request_count(), 0);
}
