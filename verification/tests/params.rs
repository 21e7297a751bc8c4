//! Tests for the ordered parameter container and its wire rendering.

use marketstack::api::QueryParams;

#[test]
fn order_is_preserved_and_repeated_keys_kept() {
    // Pushing ("a",1), ("b",2), ("a",3) renders in exactly that order: no
    // re-ordering and no deduplication.
    let mut params = QueryParams::new();
    params.push("a", "1");
    params.push("b", "2");
    params.push("a", "3");
    assert_eq!(params.render(), "a=1&b=2&a=3");
}

#[test]
fn rendering_twice_is_byte_identical() {
    let mut params = QueryParams::new();
    params.push("symbols", "AAPL");
    params.push("limit", "50");
    let first = params.render();
    let second = params.render();
    assert_eq!(first, second);
    assert_eq!(first.as_bytes(), second.as_bytes());
}

#[test]
fn empty_parameters_render_to_an_empty_string() {
    let params = QueryParams::new();
    assert_eq!(params.render(), "");
    assert_eq!(params.len(), 0);
}

#[test]
fn push_opt_only_inserts_present_values() {
    let mut params = QueryParams::new();
    params.push_opt("limit", &None);
    params.push_opt("offset", &Some("2".to_string()));
    assert_eq!(params.render(), "offset=2");
}

#[test]
fn extend_pushes_every_value_under_the_same_key() {
    let mut params = QueryParams::new();
    params.extend(
        "symbols",
        &vec!["AAPL".to_string(), "GOOG".to_string(), "MSFT".to_string()],
    );
    assert_eq!(params.render(), "symbols=AAPL&symbols=GOOG&symbols=MSFT");
}

#[test]
fn safe_bytes_are_kept_and_spaces_become_plus() {
    let mut params = QueryParams::new();
    params.push("q", "a b");
    params.push("keep", "AZaz09*-._");
    assert_eq!(params.render(), "q=a+b&keep=AZaz09*-._");
}

#[test]
fn reserved_bytes_are_percent_encoded() {
    let mut params = QueryParams::new();
    params.push("q", "a&b=c?d");
    assert_eq!(params.render(), "q=a%26b%3Dc%3Fd");
}

#[test]
fn non_ascii_values_are_encoded_per_utf8_byte() {
    let mut params = QueryParams::new();
    params.push("q", "caf\u{e9}");
    assert_eq!(params.render(), "q=caf%C3%A9");
}

#[test]
fn keys_are_encoded_like_values() {
    let mut params = QueryParams::new();
    params.push("a key", "v");
    assert_eq!(params.render(), "a+key=v");
}
