//! Tests for query dispatch and response classification.

use std::cell::RefCell;

use marketstack::api::basic::BasicEndpoint;
use marketstack::api::probe::{remote_error, FieldProbe};
use marketstack::api::{
    ignore, query, raw, ApiError, BodyError, Client, Endpoint, FromBody, Method, QueryParams,
    Request, Response, RestClient,
};
use marketstack::Auth;

/// An endpoint with the fixed path `dummy`, as the dispatch tests use it.
struct Dummy;

impl Endpoint for Dummy {
    fn method(&self) -> Method {
        Method::Get
    }

    fn endpoint(&self) -> String {
        "dummy".to_string()
    }

    fn parameters(&self) -> QueryParams {
        QueryParams::new()
    }

    fn body(&self) -> Result<Option<(String, Vec<u8>)>, BodyError> {
        Ok(None)
    }
}

struct SingleClient {
    auth: Option<Auth>,
    response: Response,
    requests: RefCell<Vec<Request>>,
}

impl SingleClient {
    fn new(status: u16, body: &str) -> Self {
        SingleClient {
            auth: Some(Auth::Token("123".to_string())),
            response: Response {
                status,
                headers: Vec::new(),
                body: body.as_bytes().to_vec(),
            },
            requests: RefCell::new(Vec::new()),
        }
    }

    fn without_auth(status: u16, body: &str) -> Self {
        let mut client = SingleClient::new(status, body);
        client.auth = None;
        client
    }
}

impl RestClient for SingleClient {
    type Error = String;

    fn rest_endpoint(&self, endpoint: &str) -> Result<String, ApiError<String>> {
        Ok(format!("https://api.example.com/v1/{}", endpoint))
    }

    fn get_auth(&self) -> Option<Auth> {
        self.auth.clone()
    }
}

impl Client for SingleClient {
    fn rest(&self, request: &Request) -> Result<Response, ApiError<String>> {
        self.requests.borrow_mut().push(request.clone());
        Ok(self.response.clone())
    }
}

/// The caller-side decoder used by the typed-dispatch tests: it accepts any
/// body whose text mentions a `value` field.
#[derive(Debug)]
struct DummyResult {
    value: u8,
}

impl FromBody for DummyResult {
    fn type_label() -> String {
        "DummyResult".to_string()
    }

    fn from_body(body: &Vec<u8>) -> Result<Self, String> {
        let text = String::from_utf8(body.clone()).map_err(|_| "not UTF-8".to_string())?;
        if text.contains("\"value\"") {
            Ok(DummyResult { value: 0 })
        } else {
            Err("missing field `value`".to_string())
        }
    }
}

#[test]
fn test_marketstack_non_json_response() {
    let client = SingleClient::new(200, "not json");
    let res: Result<DummyResult, _> = query(&Dummy, &client);
    let err = res.unwrap_err();
    if let ApiError::MarketstackService { status, .. } = err {
        assert_eq!(status, 200);
    } else {
        panic!("unexpected error: {:?}", err);
    }
}

#[test]
fn test_marketstack_empty_response() {
    let client = SingleClient::new(200, "");
    let res: Result<DummyResult, _> = query(&Dummy, &client);
    let err = res.unwrap_err();
    if let ApiError::MarketstackService { status, .. } = err {
        assert_eq!(status, 200);
    } else {
        panic!("unexpected error: {:?}", err);
    }
}

#[test]
fn test_marketstack_error_bad_json() {
    let client = SingleClient::new(404, "");
    let res: Result<DummyResult, _> = query(&Dummy, &client);
    let err = res.unwrap_err();
    if let ApiError::MarketstackService { status, .. } = err {
        assert_eq!(status, 404);
    } else {
        panic!("unexpected error: {:?}", err);
    }
}

#[test]
fn test_marketstack_error_detection() {
    let client = SingleClient::new(404, "{\"message\": \"dummy error message\"}");
    let res: Result<DummyResult, _> = query(&Dummy, &client);
    let err = res.unwrap_err();
    if let ApiError::Marketstack { msg } = err {
        assert_eq!(msg, "dummy error message");
    } else {
        panic!("unexpected error: {:?}", err);
    }
}

#[test]
fn test_marketstack_error_detection_unknown() {
    let client = SingleClient::new(404, "{\"bogus\": \"dummy error message\"}");
    let res: Result<DummyResult, _> = query(&Dummy, &client);
    let err = res.unwrap_err();
    if let ApiError::MarketstackUnrecognized { obj } = err {
        assert_eq!(obj, "{\"bogus\":\"dummy error message\"}");
    } else {
        panic!("unexpected error: {:?}", err);
    }
}

#[test]
fn test_bad_serialization() {
    let client = SingleClient::new(200, "{\"not_value\": 0}");
    let res: Result<DummyResult, _> = query(&Dummy, &client);
    let err = res.unwrap_err();
    if let ApiError::DataType { source, typename } = err {
        assert_eq!(source, "missing field `value`");
        assert_eq!(typename, "DummyResult");
    } else {
        panic!("unexpected error: {:?}", err);
    }
}

#[test]
fn test_good_deserialization() {
    let client = SingleClient::new(200, "{\"value\": 0}");
    let res: DummyResult = query(&Dummy, &client).unwrap();
    assert_eq!(res.value, 0);
}

#[test]
fn error_field_becomes_a_remote_message() {
    let client = SingleClient::new(404, "{\"error\": \"error contents\"}");
    let res: Result<DummyResult, _> = query(&BasicEndpoint {}, &client);
    match res {
        Err(ApiError::Marketstack { msg }) => assert_eq!(msg, "error contents"),
        other => panic!("unexpected result: {:?}", other),
    }
}

#[test]
fn non_string_error_field_becomes_a_remote_object() {
    let client = SingleClient::new(404, "{\"message\": {\"blah\": \"foo\"}}");
    let res: Result<DummyResult, _> = query(&BasicEndpoint {}, &client);
    match res {
        Err(ApiError::MarketstackObject { obj }) => assert_eq!(obj, "{\"blah\":\"foo\"}"),
        other => panic!("unexpected result: {:?}", other),
    }
}

#[test]
fn missing_credential_is_rejected_before_any_network_activity() {
    let client = SingleClient::without_auth(200, "{\"value\": 0}");
    let res: Result<DummyResult, _> = query(&BasicEndpoint {}, &client);
    assert!(matches!(res, Err(ApiError::Auth { .. })));
    assert_eq!(client.requests.borrow().len(), 0);
}

#[test]
fn ignore_returns_unit_and_sends_identical_traffic() {
    // The Ignore wrapper must put exactly the same request on the wire as a
    // normal dispatch of the same endpoint, and return unit on success.
    let client = SingleClient::new(200, "{\"value\": 0}");
    let ignored: Result<(), _> = ignore(BasicEndpoint {}).query(&client);
    assert_eq!(ignored.unwrap(), ());
    let typed: DummyResult = query(&BasicEndpoint {}, &client).unwrap();
    assert_eq!(typed.value, 0);
    let requests = client.requests.borrow();
    assert_eq!(requests.len(), 2);
    assert_eq!(requests[0].url, requests[1].url);
    assert_eq!(requests[0].method, requests[1].method);
    assert_eq!(requests[0].body, requests[1].body);
    assert_eq!(
        requests[0].url,
        "https://api.example.com/v1/?access_key=123"
    );
}

#[test]
fn raw_returns_the_body_bytes_untouched() {
    let client = SingleClient::new(200, "{\"anything\": [1, 2]}");
    let bytes = raw(BasicEndpoint {}).query(&client).unwrap();
    assert_eq!(bytes, b"{\"anything\": [1, 2]}".to_vec());
}

#[test]
fn raw_classifies_error_responses() {
    let client = SingleClient::new(500, "{\"message\": \"down\"}");
    let res = raw(BasicEndpoint {}).query(&client);
    match res {
        Err(ApiError::Marketstack { msg }) => assert_eq!(msg, "down"),
        other => panic!("unexpected result: {:?}", other),
    }
}

#[test]
fn raw_unstructured_error_keeps_status_and_bytes() {
    let client = SingleClient::new(502, "gateway fell over");
    let res = raw(BasicEndpoint {}).query(&client);
    match res {
        Err(ApiError::MarketstackService { status, data }) => {
            assert_eq!(status, 502);
            assert_eq!(data, b"gateway fell over".to_vec());
        }
        other => panic!("unexpected result: {:?}", other),
    }
}

#[test]
fn marketstack_error_error() {
    let err: ApiError<String> = remote_error(
        FieldProbe::Absent,
        FieldProbe::Text("error contents".to_string()),
        "{\"error\":\"error contents\"}".to_string(),
    );
    match err {
        ApiError::Marketstack { msg } => assert_eq!(msg, "error contents"),
        other => panic!("unexpected error: {:?}", other),
    }
}

#[test]
fn marketstack_error_message_string() {
    let err: ApiError<String> = remote_error(
        FieldProbe::Text("error contents".to_string()),
        FieldProbe::Absent,
        "{\"message\":\"error contents\"}".to_string(),
    );
    match err {
        ApiError::Marketstack { msg } => assert_eq!(msg, "error contents"),
        other => panic!("unexpected error: {:?}", other),
    }
}

#[test]
fn marketstack_error_object() {
    let err: ApiError<String> = remote_error(
        FieldProbe::NonText("{\"blah\":\"foo\"}".to_string()),
        FieldProbe::Absent,
        "{\"message\":{\"blah\":\"foo\"}}".to_string(),
    );
    match err {
        ApiError::MarketstackObject { obj } => assert_eq!(obj, "{\"blah\":\"foo\"}"),
        other => panic!("unexpected error: {:?}", other),
    }
}

#[test]
fn marketstack_error_message_unrecognized() {
    let err: ApiError<String> = remote_error(
        FieldProbe::Absent,
        FieldProbe::Absent,
        "{\"some_weird_key\":\"an even weirder value\"}".to_string(),
    );
    match err {
        ApiError::MarketstackUnrecognized { obj } => {
            assert_eq!(obj, "{\"some_weird_key\":\"an even weirder value\"}");
        }
        other => panic!("unexpected error: {:?}", other),
    }
}

#[test]
fn map_client_rewraps_only_the_transport_error() {
    let err: ApiError<String> = ApiError::Client {
        source: "socket closed".to_string(),
    };
    match err.map_client(|e: String| e.len()) {
        ApiError::Client { source } => assert_eq!(source, 13),
        other => panic!("unexpected error: {:?}", other),
    }
    let err: ApiError<String> = ApiError::Marketstack {
        msg: "boom".to_string(),
    };
    match err.map_client(|e: String| e.len()) {
        ApiError::Marketstack { msg } => assert_eq!(msg, "boom"),
        other => panic!("unexpected error: {:?}", other),
    }
}

#[test]
fn error_descriptions_carry_their_payloads() {
    let service: ApiError<String> = ApiError::MarketstackService {
        status: 502,
        data: b"oops".to_vec(),
    };
    assert_eq!(service.to_string(), "marketstack internal server error: 502");
    let url: ApiError<String> = ApiError::UrlParse {
        reason: "empty host".to_string(),
    };
    assert_eq!(url.to_string(), "failed to parse URL: empty host");
}
