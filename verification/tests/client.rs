use puxbay_sdk::client::{Call, Method};
use puxbay_sdk::dispatch::Dispatch;
use puxbay_sdk::{Puxbay, PuxbayConfig, PuxbayError};

fn header(name: &str, value: &str) -> (String, String) {
    (name.to_string(), value.to_string())
}

fn local_config() -> PuxbayConfig {
    PuxbayConfig { base_url: "http://localhost:8000/api/v1".to_string(), timeout: 5, max_retries: 1 }
}

#[test]
fn default_configuration_has_the_documented_values() {
    let config = PuxbayConfig::default();
    assert_eq!(config.base_url, "https://api.puxbay.com/api/v1");
    assert_eq!(config.timeout, 30);
    assert_eq!(config.max_retries, 3);
}

#[test]
fn a_key_without_the_prefix_is_rejected() {
    for key in ["", "p", "pb", "sk_live_123", "PB_live", " pb_live", "bp_live", "pb-live", "xpb_"] {
        match Puxbay::new(key) {
            Err(e) => assert_eq!(e, PuxbayError::InvalidApiKey, "key {:?}", key),
            Ok(_) => panic!("key {:?} was accepted", key),
        }
        match Puxbay::with_config(key, local_config()) {
            Err(e) => assert_eq!(e, PuxbayError::InvalidApiKey, "key {:?}", key),
            Ok(_) => panic!("key {:?} was accepted", key),
        }
    }
}

#[test]
fn a_key_with_the_prefix_is_accepted() {
    for key in ["pb_", "pb_test_key", "pb_live_0123456789abcdef", "pb_\u{e9}"] {
        let client = Puxbay::new(key).unwrap();
        assert_eq!(client.api_key(), key);
    }
}

#[test]
fn new_applies_the_default_configuration() {
    let client = Puxbay::new("pb_test_key").unwrap();
    assert_eq!(client.api_key(), "pb_test_key");
    assert_eq!(client.base_url(), "https://api.puxbay.com/api/v1");
    assert_eq!(client.timeout(), 30);
    assert_eq!(client.max_retries(), 3);
}

#[test]
fn with_config_keeps_the_given_configuration() {
    let client = Puxbay::with_config("pb_test_key", local_config()).unwrap();
    assert_eq!(client.api_key(), "pb_test_key");
    assert_eq!(client.base_url(), "http://localhost:8000/api/v1");
    assert_eq!(client.timeout(), 5);
    assert_eq!(client.max_retries(), 1);
}

#[test]
fn the_fixed_headers_are_sent_in_order() {
    let client = Puxbay::new("pb_test_key").unwrap();
    assert_eq!(
        client.default_headers(),
        vec![
            header("X-API-Key", "pb_test_key"),
            header("Content-Type", "application/json"),
            header("User-Agent", "puxbay-rust/1.0.0"),
            header("Accept-Encoding", "gzip, deflate"),
        ]
    );
}

#[test]
fn urls_join_base_and_endpoint_with_one_slash() {
    let client = Puxbay::with_config("pb_k", local_config()).unwrap();
    assert_eq!(client.url_for("products/"), "http://localhost:8000/api/v1/products/");
    assert_eq!(client.url_for(""), "http://localhost:8000/api/v1/");
    assert_eq!(
        client.url_for("orders/?page=2&page_size=10"),
        "http://localhost:8000/api/v1/orders/?page=2&page_size=10"
    );
}

#[test]
fn request_describes_the_whole_call() {
    let client = Puxbay::with_config("pb_k", local_config()).unwrap();
    let call = client.request(Method::Patch, "products/42/");
    assert_eq!(
        call,
        Call {
            method: Method::Patch,
            url: "http://localhost:8000/api/v1/products/42/".to_string(),
            headers: vec![
                header("X-API-Key", "pb_k"),
                header("Content-Type", "application/json"),
                header("User-Agent", "puxbay-rust/1.0.0"),
                header("Accept-Encoding", "gzip, deflate"),
            ],
            dispatch: Dispatch::new(1),
        }
    );
}

#[test]
fn every_call_starts_with_the_full_budget() {
    let client = Puxbay::new("pb_k").unwrap();
    let first = client.request(Method::Get, "a/");
    let second = client.request(Method::Get, "b/");
    assert_eq!(first.dispatch.attempt(), 0);
    assert_eq!(first.dispatch.max_retries(), 3);
    assert_eq!(second.dispatch, first.dispatch);
}

#[test]
fn method_names_are_upper_case() {
    assert_eq!(Method::Get.as_str(), "GET");
    assert_eq!(Method::Post.as_str(), "POST");
    assert_eq!(Method::Patch.as_str(), "PATCH");
    assert_eq!(Method::Delete.as_str(), "DELETE");
}

#[test]
fn clients_with_different_credentials_coexist() {
    let a = Puxbay::new("pb_a").unwrap();
    let b = Puxbay::with_config("pb_b", local_config()).unwrap();
    assert_eq!(a.request(Method::Get, "x/").headers[0], header("X-API-Key", "pb_a"));
    assert_eq!(b.request(Method::Get, "x/").headers[0], header("X-API-Key", "pb_b"));
    assert_eq!(a.url_for("x/"), "https://api.puxbay.com/api/v1/x/");
    assert_eq!(b.url_for("x/"), "http://localhost:8000/api/v1/x/");
}
