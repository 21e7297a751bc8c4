//! Tests for the client configuration builder.

use marketstack::MarketstackBuilder;

#[test]
fn builder_uses_https_by_default() {
    let builder = MarketstackBuilder::new("api.example.com", "secret");
    assert_eq!(builder.rest_url(), "https://api.example.com/v1/");
}

#[test]
fn insecure_switches_the_protocol_to_http() {
    let builder = MarketstackBuilder::new("api.example.com", "secret").insecure();
    assert_eq!(builder.rest_url(), "http://api.example.com/v1/");
}

#[test]
fn builder_keeps_the_token() {
    let builder = MarketstackBuilder::new("api.example.com", "secret");
    assert_eq!(builder.token.token(), "secret");
}
