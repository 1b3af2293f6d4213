use fast_client::signing::DeltaNativeClient;
use fast_client::request::{u64_to_dec, transport_config, HttpMethod, method_str};
use hmac::Mac;

fn reference_signature(secret: &[u8], message: &[u8]) -> String {
    let mut mac = hmac::Hmac::<sha2::Sha256>::new_from_slice(secret).unwrap();
    mac.update(message);
    hex::encode(mac.finalize().into_bytes())
}

#[test]
fn sign_matches_known_vector() {
    let client = DeltaNativeClient::new("key".to_string(), "secret".to_string(), None);
    let got = client.sign("GET", "/v2/wallet/balances", "", "", "1000000").unwrap();
    let expected = reference_signature(b"secret", b"GET1000000/v2/wallet/balances");
    assert_eq!(got, expected);
}

#[test]
fn sign_is_lowercase_hex_of_digest_len() {
    let client = DeltaNativeClient::new("key".to_string(), "secret".to_string(), None);
    let got = client.sign("POST", "/v2/orders", "", "{}", "17").unwrap();
    assert_eq!(got.len(), 64);
    assert!(got.chars().all(|c: char| c.is_ascii_hexdigit() && !c.is_ascii_uppercase()));
}

#[test]
fn sign_is_deterministic() {
    let client = DeltaNativeClient::new("key".to_string(), "secret".to_string(), None);
    let a = client.sign("POST", "/v2/orders", "", "{\"size\":1}", "1700000000").unwrap();
    let b = client.sign("POST", "/v2/orders", "", "{\"size\":1}", "1700000000").unwrap();
    assert_eq!(a, b);
}

#[test]
fn sign_changes_when_any_input_changes() {
    let client = DeltaNativeClient::new("key".to_string(), "secret".to_string(), None);
    let base = client.sign("GET", "/v2/positions/margined", "q=1", "b", "1000000").unwrap();
    let other_method = client.sign("PUT", "/v2/positions/margined", "q=1", "b", "1000000").unwrap();
    let other_path = client.sign("GET", "/v2/positions/marginee", "q=1", "b", "1000000").unwrap();
    let other_query = client.sign("GET", "/v2/positions/margined", "q=2", "b", "1000000").unwrap();
    let other_body = client.sign("GET", "/v2/positions/margined", "q=1", "c", "1000000").unwrap();
    let other_ts = client.sign("GET", "/v2/positions/margined", "q=1", "b", "1000001").unwrap();
    assert_ne!(base, other_method);
    assert_ne!(base, other_path);
    assert_ne!(base, other_query);
    assert_ne!(base, other_body);
    assert_ne!(base, other_ts);
}

#[test]
fn sign_depends_on_secret() {
    let c1 = DeltaNativeClient::new("key".to_string(), "secret".to_string(), None);
    let c2 = DeltaNativeClient::new("key".to_string(), "secres".to_string(), None);
    let a = c1.sign("GET", "/p", "", "", "1").unwrap();
    let b = c2.sign("GET", "/p", "", "", "1").unwrap();
    assert_ne!(a, b);
}

#[test]
fn sign_accepts_empty_secret() {
    let client = DeltaNativeClient::new("key".to_string(), "".to_string(), None);
    let got = client.sign("GET", "/p", "", "", "1").unwrap();
    let expected = reference_signature(b"", b"GET1/p");
    assert_eq!(got, expected);
}

#[test]
fn new_uses_default_base_url() {
    let client = DeltaNativeClient::new("k".to_string(), "s".to_string(), None);
    assert_eq!(client.base_url, "https://api.india.delta.exchange");
    let client2 = DeltaNativeClient::new(
        "k".to_string(),
        "s".to_string(),
        Some("https://example.invalid".to_string()),
    );
    assert_eq!(client2.base_url, "https://example.invalid");
    assert_eq!(client2.api_key, "k");
}

#[test]
fn u64_to_dec_renders_decimal() {
    assert_eq!(u64_to_dec(0), "0");
    assert_eq!(u64_to_dec(7), "7");
    assert_eq!(u64_to_dec(10), "10");
    assert_eq!(u64_to_dec(1000000), "1000000");
    assert_eq!(u64_to_dec(1700000000), "1700000000");
    assert_eq!(u64_to_dec(u64::MAX), "18446744073709551615");
}

#[test]
fn method_names_on_the_wire() {
    assert_eq!(method_str(HttpMethod::Get), "GET");
    assert_eq!(method_str(HttpMethod::Post), "POST");
}

#[test]
fn transport_policy_is_fail_fast() {
    let c = transport_config();
    assert!(c.tcp_nodelay);
    assert!(c.keep_idle_connections);
    assert_eq!(c.pool_max_idle_per_host, 10);
    assert_eq!(c.connect_timeout_ms, 2500);
    assert_eq!(c.request_timeout_ms, 2500);
}
