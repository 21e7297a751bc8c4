//! Tests for the endpoint builders, their paths and their parameters.
//!
//! Each endpoint is dispatched through the `Ignore` modifier against a
//! recording transport, and the resulting URL is compared whole.  The
//! credential is attached last, as the reserved `access_key` parameter.

use std::cell::RefCell;

use marketstack::api::basic::BasicEndpoint;
use marketstack::api::common::{Interval, SortOrder};
use marketstack::api::currencies::Currencies;
use marketstack::api::date::Date;
use marketstack::api::dividends::Dividends;
use marketstack::api::eod::Eod;
use marketstack::api::eod_latest::EodLatest;
use marketstack::api::exchanges::Exchanges;
use marketstack::api::intraday::Intraday;
use marketstack::api::splits::Splits;
use marketstack::api::tickers::Tickers;
use marketstack::api::timezones::Timezones;
use marketstack::api::{ignore, ApiError, Client, Endpoint, Request, Response, RestClient};
use marketstack::Auth;

struct RecordingClient {
    requests: RefCell<Vec<Request>>,
}

impl RecordingClient {
    fn new() -> Self {
        RecordingClient {
            requests: RefCell::new(Vec::new()),
        }
    }
}

impl RestClient for RecordingClient {
    type Error = String;

    fn rest_endpoint(&self, endpoint: &str) -> Result<String, ApiError<String>> {
        Ok(format!("https://api.example.com/v1/{}", endpoint))
    }

    fn get_auth(&self) -> Option<Auth> {
        Some(Auth::Token("123".to_string()))
    }
}

impl Client for RecordingClient {
    fn rest(&self, request: &Request) -> Result<Response, ApiError<String>> {
        self.requests.borrow_mut().push(request.clone());
        Ok(Response {
            status: 200,
            headers: Vec::new(),
            body: Vec::new(),
        })
    }
}

/// Dispatch `endpoint` through the `Ignore` modifier and compare the URL it
/// put on the wire against `path` and `params`.
fn check_url<E: Endpoint>(endpoint: E, path: &str, params: &[(&str, &str)]) {
    let client = RecordingClient::new();
    ignore(endpoint).query(&client).unwrap();
    let mut expected = format!("https://api.example.com/v1/{}", path);
    let mut sep = '?';
    for (key, value) in params {
        expected.push(sep);
        expected.push_str(key);
        expected.push('=');
        expected.push_str(value);
        sep = '&';
    }
    expected.push(sep);
    expected.push_str("access_key=123");
    let requests = client.requests.borrow();
    assert_eq!(requests.len(), 1);
    assert_eq!(requests[0].url, expected);
}

fn symbols_of(symbols: &[&str]) -> Vec<String> {
    symbols.iter().map(|s| s.to_string()).collect()
}

#[test]
fn defaults_are_sufficient() {
    BasicEndpoint::builder().build().unwrap();
}

#[test]
fn endpoint() {
    let endpoint = BasicEndpoint::builder().build().unwrap();
    check_url(endpoint, "", &[]);
}

#[test]
fn currencies_defaults_are_sufficient() {
    Currencies::builder().build().unwrap();
}

#[test]
fn currencies_endpoint() {
    let endpoint = Currencies::builder().build().unwrap();
    check_url(endpoint, "currencies", &[]);
}

#[test]
fn currencies_limit() {
    let endpoint = Currencies::builder().limit(50).unwrap().build().unwrap();
    check_url(endpoint, "currencies", &[("limit", "50")]);
}

#[test]
fn currencies_over_limit() {
    assert!(Currencies::builder().limit(9999).is_err());
}

#[test]
fn currencies_offset() {
    let endpoint = Currencies::builder().offset(2).build().unwrap();
    check_url(endpoint, "currencies", &[("offset", "2")]);
}

#[test]
fn timezones_defaults_are_sufficient() {
    Timezones::builder().build().unwrap();
}

#[test]
fn timezones_endpoint() {
    let endpoint = Timezones::builder().build().unwrap();
    check_url(endpoint, "timezones", &[]);
}

#[test]
fn timezones_limit() {
    let endpoint = Timezones::builder().limit(50).unwrap().build().unwrap();
    check_url(endpoint, "timezones", &[("limit", "50")]);
}

#[test]
fn timezones_over_limit() {
    assert!(Timezones::builder().limit(9999).is_err());
}

#[test]
fn timezones_offset() {
    let endpoint = Timezones::builder().offset(2).build().unwrap();
    check_url(endpoint, "timezones", &[("offset", "2")]);
}

#[test]
fn dividends_defaults_are_sufficient() {
    Dividends::builder().build().unwrap();
}

#[test]
fn dividends_endpoint() {
    let endpoint = Dividends::builder().build().unwrap();
    check_url(endpoint, "dividends", &[]);
}

#[test]
fn dividends_symbol() {
    let endpoint = Dividends::builder().symbol("AAPL").build().unwrap();
    check_url(endpoint, "dividends", &[("symbols", "AAPL")]);
}

#[test]
fn dividends_symbols() {
    let endpoint = Dividends::builder()
        .symbol("AAPL")
        .symbols(&symbols_of(&["AAPL", "GOOG"]))
        .build()
        .unwrap();
    check_url(
        endpoint,
        "dividends",
        &[("symbols", "AAPL"), ("symbols", "GOOG")],
    );
}

#[test]
fn dividends_sort() {
    let endpoint = Dividends::builder()
        .sort(SortOrder::Ascending)
        .build()
        .unwrap();
    check_url(endpoint, "dividends", &[("sort", "ASC")]);
}

#[test]
fn dividends_date_from() {
    let endpoint = Dividends::builder()
        .date_from(Date::from_ymd_opt(2020, 1, 1).unwrap())
        .build()
        .unwrap();
    check_url(endpoint, "dividends", &[("date_from", "2020-01-01")]);
}

#[test]
fn dividends_date_to() {
    let endpoint = Dividends::builder()
        .date_to(Date::from_ymd_opt(2020, 1, 1).unwrap())
        .build()
        .unwrap();
    check_url(endpoint, "dividends", &[("date_to", "2020-01-01")]);
}

#[test]
fn dividends_limit() {
    let endpoint = Dividends::builder().limit(50).unwrap().build().unwrap();
    check_url(endpoint, "dividends", &[("limit", "50")]);
}

#[test]
fn dividends_over_limit() {
    assert!(Dividends::builder().limit(9999).is_err());
}

#[test]
fn dividends_offset() {
    let endpoint = Dividends::builder().offset(2).build().unwrap();
    check_url(endpoint, "dividends", &[("offset", "2")]);
}

#[test]
fn splits_defaults_are_sufficient() {
    Splits::builder().build().unwrap();
}

#[test]
fn splits_endpoint() {
    let endpoint = Splits::builder().build().unwrap();
    check_url(endpoint, "splits", &[]);
}

#[test]
fn splits_symbols() {
    let endpoint = Splits::builder()
        .symbol("AAPL")
        .symbols(&symbols_of(&["GOOG"]))
        .build()
        .unwrap();
    check_url(
        endpoint,
        "splits",
        &[("symbols", "AAPL"), ("symbols", "GOOG")],
    );
}

#[test]
fn splits_over_limit() {
    assert!(Splits::builder().limit(9999).is_err());
}

#[test]
fn eod_eod_defaults_are_sufficient() {
    Eod::builder().build().unwrap();
}

#[test]
fn eod_eod_endpoint() {
    let endpoint = Eod::builder().build().unwrap();
    check_url(endpoint, "eod", &[]);
}

#[test]
fn eod_eod_symbol() {
    let endpoint = Eod::builder().symbol("AAPL").build().unwrap();
    check_url(endpoint, "eod", &[("symbols", "AAPL")]);
}

#[test]
fn eod_eod_symbols() {
    let endpoint = Eod::builder()
        .symbol("AAPL")
        .symbols(&symbols_of(&["AAPL", "GOOG"]))
        .build()
        .unwrap();
    check_url(endpoint, "eod", &[("symbols", "AAPL"), ("symbols", "GOOG")]);
}

#[test]
fn eod_eod_exchange() {
    let endpoint = Eod::builder().exchange("NYSE").build().unwrap();
    check_url(endpoint, "eod", &[("exchange", "NYSE")]);
}

#[test]
fn eod_eod_sort() {
    let endpoint = Eod::builder().sort(SortOrder::Ascending).build().unwrap();
    check_url(endpoint, "eod", &[("sort", "ASC")]);
}

#[test]
fn eod_eod_date_from() {
    let endpoint = Eod::builder()
        .date_from(Date::from_ymd_opt(2020, 1, 1).unwrap())
        .build()
        .unwrap();
    check_url(endpoint, "eod", &[("date_from", "2020-01-01")]);
}

#[test]
fn eod_eod_date_to() {
    let endpoint = Eod::builder()
        .date_to(Date::from_ymd_opt(2020, 1, 1).unwrap())
        .build()
        .unwrap();
    check_url(endpoint, "eod", &[("date_to", "2020-01-01")]);
}

#[test]
fn eod_eod_limit() {
    let endpoint = Eod::builder().limit(50).unwrap().build().unwrap();
    check_url(endpoint, "eod", &[("limit", "50")]);
}

#[test]
fn eod_eod_over_limit() {
    assert!(Eod::builder().limit(9999).is_err());
}

#[test]
fn eod_eod_offset() {
    let endpoint = Eod::builder().offset(2).build().unwrap();
    check_url(endpoint, "eod", &[("offset", "2")]);
}

#[test]
fn eod_latest_defaults_are_sufficient() {
    Eod::builder().latest(true).build().unwrap();
}

#[test]
fn eod_latest_endpoint() {
    let endpoint = Eod::builder().latest(true).build().unwrap();
    check_url(endpoint, "eod/latest", &[]);
}

#[test]
fn eod_latest_symbol() {
    let endpoint = Eod::builder().latest(true).symbol("AAPL").build().unwrap();
    check_url(endpoint, "eod/latest", &[("symbols", "AAPL")]);
}

#[test]
fn eod_latest_symbols() {
    let endpoint = Eod::builder()
        .latest(true)
        .symbol("AAPL")
        .symbols(&symbols_of(&["AAPL", "GOOG"]))
        .build()
        .unwrap();
    check_url(
        endpoint,
        "eod/latest",
        &[("symbols", "AAPL"), ("symbols", "GOOG")],
    );
}

#[test]
fn eod_latest_exchange() {
    let endpoint = Eod::builder()
        .latest(true)
        .exchange("NYSE")
        .build()
        .unwrap();
    check_url(endpoint, "eod/latest", &[("exchange", "NYSE")]);
}

#[test]
fn eod_latest_sort() {
    let endpoint = Eod::builder()
        .latest(true)
        .sort(SortOrder::Ascending)
        .build()
        .unwrap();
    check_url(endpoint, "eod/latest", &[("sort", "ASC")]);
}

#[test]
fn eod_latest_limit() {
    let endpoint = Eod::builder()
        .latest(true)
        .limit(50)
        .unwrap()
        .build()
        .unwrap();
    check_url(endpoint, "eod/latest", &[("limit", "50")]);
}

#[test]
fn eod_latest_over_limit() {
    assert!(Eod::builder().latest(true).limit(9999).is_err());
}

#[test]
fn eod_latest_offset() {
    let endpoint = Eod::builder().latest(true).offset(2).build().unwrap();
    check_url(endpoint, "eod/latest", &[("offset", "2")]);
}

#[test]
fn eod_date_endpoint() {
    let endpoint = Eod::builder()
        .date(Date::from_ymd_opt(2022, 1, 1).unwrap())
        .build()
        .unwrap();
    check_url(endpoint, "eod/2022-01-01", &[]);
}

#[test]
fn eod_date_symbol() {
    let endpoint = Eod::builder()
        .symbol("AAPL")
        .date(Date::from_ymd_opt(2022, 1, 1).unwrap())
        .build()
        .unwrap();
    check_url(endpoint, "eod/2022-01-01", &[("symbols", "AAPL")]);
}

#[test]
fn eod_date_symbols() {
    let endpoint = Eod::builder()
        .symbol("AAPL")
        .date(Date::from_ymd_opt(2022, 1, 1).unwrap())
        .symbols(&symbols_of(&["AAPL", "GOOG"]))
        .build()
        .unwrap();
    check_url(
        endpoint,
        "eod/2022-01-01",
        &[("symbols", "AAPL"), ("symbols", "GOOG")],
    );
}

#[test]
fn eod_date_exchange() {
    let endpoint = Eod::builder()
        .exchange("NYSE")
        .date(Date::from_ymd_opt(2022, 1, 1).unwrap())
        .build()
        .unwrap();
    check_url(endpoint, "eod/2022-01-01", &[("exchange", "NYSE")]);
}

#[test]
fn eod_date_sort() {
    let endpoint = Eod::builder()
        .sort(SortOrder::Ascending)
        .date(Date::from_ymd_opt(2022, 1, 1).unwrap())
        .build()
        .unwrap();
    check_url(endpoint, "eod/2022-01-01", &[("sort", "ASC")]);
}

#[test]
fn eod_date_limit() {
    let endpoint = Eod::builder()
        .date(Date::from_ymd_opt(2022, 1, 1).unwrap())
        .limit(50)
        .unwrap()
        .build()
        .unwrap();
    check_url(endpoint, "eod/2022-01-01", &[("limit", "50")]);
}

#[test]
fn eod_date_over_limit() {
    assert!(Eod::builder()
        .date(Date::from_ymd_opt(2022, 1, 1).unwrap())
        .limit(9999)
        .is_err());
}

#[test]
fn eod_date_offset() {
    let endpoint = Eod::builder()
        .date(Date::from_ymd_opt(2022, 1, 1).unwrap())
        .offset(2)
        .build()
        .unwrap();
    check_url(endpoint, "eod/2022-01-01", &[("offset", "2")]);
}

#[test]
fn eod_date_latest_mutually_exclusive() {
    let endpoint = Eod::builder()
        .latest(true)
        .date(Date::from_ymd_opt(2022, 1, 1).unwrap())
        .build();

    assert!(endpoint.is_err());
    assert!(endpoint.err().unwrap().to_string().contains("Cannot use both"));
}

#[test]
fn eod_latest_eod_defaults_are_sufficient() {
    EodLatest::builder().build().unwrap();
}

#[test]
fn eod_latest_eod_endpoint() {
    let endpoint = EodLatest::builder().build().unwrap();
    check_url(endpoint, "eod/latest", &[]);
}

#[test]
fn eod_latest_eod_symbol() {
    let endpoint = EodLatest::builder().symbol("AAPL").build().unwrap();
    check_url(endpoint, "eod/latest", &[("symbols", "AAPL")]);
}

#[test]
fn eod_latest_eod_symbols() {
    let endpoint = EodLatest::builder()
        .symbol("AAPL")
        .symbols(&symbols_of(&["AAPL", "GOOG"]))
        .build()
        .unwrap();
    check_url(
        endpoint,
        "eod/latest",
        &[("symbols", "AAPL"), ("symbols", "GOOG")],
    );
}

#[test]
fn eod_latest_eod_exchange() {
    let endpoint = EodLatest::builder().exchange("NYSE").build().unwrap();
    check_url(endpoint, "eod/latest", &[("exchange", "NYSE")]);
}

#[test]
fn eod_latest_eod_sort() {
    let endpoint = EodLatest::builder()
        .sort(SortOrder::Ascending)
        .build()
        .unwrap();
    check_url(endpoint, "eod/latest", &[("sort", "ASC")]);
}

#[test]
fn eod_latest_eod_limit() {
    let endpoint = EodLatest::builder().limit(50).unwrap().build().unwrap();
    check_url(endpoint, "eod/latest", &[("limit", "50")]);
}

#[test]
fn eod_latest_eod_over_limit() {
    assert!(EodLatest::builder().limit(9999).is_err());
}

#[test]
fn eod_latest_eod_offset() {
    let endpoint = EodLatest::builder().offset(2).build().unwrap();
    check_url(endpoint, "eod/latest", &[("offset", "2")]);
}

#[test]
fn intraday_defaults_are_sufficient() {
    Intraday::builder().build().unwrap();
}

#[test]
fn intraday_endpoint() {
    let endpoint = Intraday::builder().build().unwrap();
    check_url(endpoint, "intraday", &[]);
}

#[test]
fn intraday_symbol() {
    let endpoint = Intraday::builder().symbol("AAPL").build().unwrap();
    check_url(endpoint, "intraday", &[("symbols", "AAPL")]);
}

#[test]
fn intraday_symbols() {
    let endpoint = Intraday::builder()
        .symbols(&symbols_of(&["AAPL", "MSFT"]))
        .build()
        .unwrap();
    check_url(
        endpoint,
        "intraday",
        &[("symbols", "AAPL"), ("symbols", "MSFT")],
    );
}

#[test]
fn intraday_exchange() {
    let endpoint = Intraday::builder().exchange("NYSE").build().unwrap();
    check_url(endpoint, "intraday", &[("exchange", "NYSE")]);
}

#[test]
fn intraday_interval() {
    let endpoint = Intraday::builder()
        .interval(Interval::FiveMinutes)
        .build()
        .unwrap();
    check_url(endpoint, "intraday", &[("interval", "5min")]);
}

#[test]
fn intraday_sort() {
    let endpoint = Intraday::builder()
        .sort(SortOrder::Ascending)
        .build()
        .unwrap();
    check_url(endpoint, "intraday", &[("sort", "ASC")]);
}

#[test]
fn intraday_date_from_and_to() {
    let endpoint = Intraday::builder()
        .date_from(Date::from_ymd_opt(2019, 1, 1).unwrap())
        .date_to(Date::from_ymd_opt(2019, 1, 2).unwrap())
        .build()
        .unwrap();
    check_url(
        endpoint,
        "intraday",
        &[("date_from", "2019-01-01"), ("date_to", "2019-01-02")],
    );
}

#[test]
fn intraday_limit_and_offset() {
    let endpoint = Intraday::builder()
        .limit(5)
        .unwrap()
        .offset(3)
        .build()
        .unwrap();
    check_url(endpoint, "intraday", &[("limit", "5"), ("offset", "3")]);
}

#[test]
fn intraday_over_limit() {
    assert!(Intraday::builder().limit(5000).is_err());
}

#[test]
fn intraday_latest_defaults_are_sufficient() {
    Intraday::builder().latest(true).build().unwrap();
}

#[test]
fn intraday_latest_endpoint() {
    let endpoint = Intraday::builder().latest(true).build().unwrap();
    check_url(endpoint, "intraday/latest", &[]);
}

#[test]
fn intraday_date_defaults_are_sufficient() {
    Intraday::builder()
        .date(Date::from_ymd_opt(2019, 1, 1).unwrap())
        .build()
        .unwrap();
}

#[test]
fn intraday_date_endpoint() {
    let endpoint = Intraday::builder()
        .date(Date::from_ymd_opt(2019, 1, 1).unwrap())
        .build()
        .unwrap();
    check_url(endpoint, "intraday/2019-01-01", &[]);
}

#[test]
fn intraday_date_latest_mutually_exclusive() {
    let endpoint = Intraday::builder()
        .latest(true)
        .date(Date::from_ymd_opt(2019, 1, 1).unwrap())
        .build();
    assert!(endpoint.is_err());
}

#[test]
fn tickers_defaults_are_sufficient() {
    Tickers::builder().build().unwrap();
}

#[test]
fn tickers_ticker() {
    let endpoint = Tickers::builder().ticker("AAPL").build().unwrap();
    check_url(endpoint, "tickers/AAPL", &[]);
}

#[test]
fn tickers_eod_endpoint() {
    let endpoint = Tickers::builder()
        .ticker("AAPL")
        .eod(Eod::builder().build().unwrap())
        .build()
        .unwrap();
    check_url(endpoint, "tickers/AAPL/eod", &[]);
}

#[test]
fn tickers_eod_latest_endpoint() {
    let endpoint = Tickers::builder()
        .ticker("AAPL")
        .eod(Eod::builder().latest(true).build().unwrap())
        .build()
        .unwrap();
    check_url(endpoint, "tickers/AAPL/eod/latest", &[]);
}

#[test]
fn tickers_eod_date_endpoint() {
    let endpoint = Tickers::builder()
        .ticker("AAPL")
        .eod(
            Eod::builder()
                .date(Date::from_ymd_opt(2023, 9, 27).unwrap())
                .build()
                .unwrap(),
        )
        .build()
        .unwrap();
    check_url(endpoint, "tickers/AAPL/eod/2023-09-27", &[]);
}

#[test]
fn tickers_eod_params() {
    let endpoint = Tickers::builder()
        .ticker("AAPL")
        .eod(Eod::builder().sort(SortOrder::Ascending).build().unwrap())
        .build()
        .unwrap();
    check_url(endpoint, "tickers/AAPL/eod", &[("sort", "ASC")]);
}

#[test]
fn tickers_splits() {
    let endpoint = Tickers::builder()
        .ticker("AAPL")
        .splits(
            Splits::builder()
                .date_from(Date::from_ymd_opt(2023, 9, 27).unwrap())
                .date_to(Date::from_ymd_opt(2023, 9, 30).unwrap())
                .build()
                .unwrap(),
        )
        .build()
        .unwrap();
    check_url(
        endpoint,
        "tickers/AAPL/splits",
        &[("date_from", "2023-09-27"), ("date_to", "2023-09-30")],
    );
}

#[test]
fn tickers_dividends() {
    let endpoint = Tickers::builder()
        .ticker("AAPL")
        .dividends(Dividends::builder().build().unwrap())
        .build()
        .unwrap();
    check_url(endpoint, "tickers/AAPL/dividends", &[]);
}

#[test]
fn tickers_validator() {
    let endpoint = Tickers::builder()
        .eod(Eod::builder().build().unwrap())
        .splits(Splits::builder().build().unwrap())
        .build();
    assert!(endpoint.is_err());
    assert!(endpoint.err().unwrap().to_string().contains("Invalid"));
}

#[test]
fn tickers_over_limit() {
    assert!(Tickers::builder().limit(9999).is_err());
}

#[test]
fn exchanges_defaults_are_sufficient() {
    Exchanges::builder().build().unwrap();
}

#[test]
fn exchanges() {
    let endpoint = Exchanges::builder().build().unwrap();
    check_url(endpoint, "exchanges", &[]);
}

#[test]
fn exchanges_mic() {
    let endpoint = Exchanges::builder().mic("XNAS").build().unwrap();
    check_url(endpoint, "exchanges/XNAS", &[]);
}

#[test]
fn exchanges_mic_tickers() {
    let endpoint = Exchanges::builder()
        .mic("XNAS")
        .tickers("tickers")
        .build()
        .unwrap();
    check_url(endpoint, "exchanges/XNAS/tickers", &[]);
}

#[test]
fn exchanges_mic_eod() {
    let endpoint = Exchanges::builder()
        .mic("XNAS")
        .eod(Eod::builder().limit(5).unwrap().build().unwrap())
        .build()
        .unwrap();
    check_url(endpoint, "exchanges/XNAS/eod", &[("limit", "5")]);
}

#[test]
fn exchanges_mic_eod_latest() {
    let endpoint = Exchanges::builder()
        .mic("XNAS")
        .eod(Eod::builder().latest(true).build().unwrap())
        .limit(5)
        .unwrap()
        .build()
        .unwrap();
    check_url(endpoint, "exchanges/XNAS/eod/latest", &[("limit", "5")]);
}

#[test]
fn exchanges_mic_eod_date() {
    let endpoint = Exchanges::builder()
        .mic("XNAS")
        .eod(
            Eod::builder()
                .date(Date::from_ymd_opt(2023, 5, 5).unwrap())
                .build()
                .unwrap(),
        )
        .limit(5)
        .unwrap()
        .build()
        .unwrap();
    check_url(endpoint, "exchanges/XNAS/eod/2023-05-05", &[("limit", "5")]);
}

#[test]
fn exchanges_invalid_combination() {
    let endpoint = Exchanges::builder()
        .mic("XNAS")
        .tickers("tickers")
        .eod(Eod::builder().build().unwrap())
        .build();
    assert!(endpoint.is_err());
}

#[test]
fn exchanges_over_limit() {
    assert!(Exchanges::builder().limit(9999).is_err());
}

#[test]
fn eod_symbols_are_sorted_and_deduplicated() {
    // Symbols render in ascending order whatever the insertion order, and a
    // repeated symbol is kept once.
    let endpoint = Eod::builder()
        .symbol("MSFT")
        .symbol("AAPL")
        .symbol("MSFT")
        .build()
        .unwrap();
    check_url(endpoint, "eod", &[("symbols", "AAPL"), ("symbols", "MSFT")]);
}

#[test]
fn date_renders_iso_8601_with_padding() {
    let date = Date::from_ymd_opt(987, 6, 5).unwrap();
    let endpoint = Eod::builder().date(date).build().unwrap();
    check_url(endpoint, "eod/0987-06-05", &[]);
}

#[test]
fn date_rejects_invalid_dates() {
    assert!(Date::from_ymd_opt(2021, 2, 29).is_none());
    assert!(Date::from_ymd_opt(2020, 2, 29).is_some());
    assert!(Date::from_ymd_opt(1900, 2, 29).is_none());
    assert!(Date::from_ymd_opt(2000, 2, 29).is_some());
    assert!(Date::from_ymd_opt(2020, 13, 1).is_none());
    assert!(Date::from_ymd_opt(2020, 0, 1).is_none());
    assert!(Date::from_ymd_opt(2020, 4, 31).is_none());
    assert!(Date::from_ymd_opt(10000, 1, 1).is_none());
    assert!(Date::from_ymd_opt(-1, 1, 1).is_none());
}
