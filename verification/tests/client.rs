use cloudflare::errors::ApiError;
use cloudflare::{AuthType, Cloudflare};

#[test]
fn api_key_loaded() {
    let api_key = String::from("0123456789abcdef0123456789abcdef01234");
    assert!(api_key.len() > 0);
    let api = Cloudflare::new(
        &api_key,
        "admin@example.com",
        "https://api.cloudflare.com/client/v4/",
    )
    .unwrap();
    assert!(api.api_key().len() > 0);
}

#[test]
fn construction_keeps_the_configuration() {
    let api = Cloudflare::new(
        "test-key",
        "admin@example.com",
        "https://api.cloudflare.com/client/v4/",
    )
    .unwrap();
    assert_eq!(api.api_key(), "test-key");
    assert_eq!(api.api_email(), "admin@example.com");
    assert_eq!(api.base_url(), "https://api.cloudflare.com/client/v4/");
    assert_eq!(api.auth_type(), AuthType::AuthKeyEmail);
}

#[test]
fn construction_normalizes_the_base_url() {
    let api = Cloudflare::new("k", "e@example.com", "HTTPS://EXAMPLE.com").unwrap();
    assert_eq!(api.base_url(), "https://example.com/");
}

#[test]
fn construction_rejects_an_invalid_base_url() {
    let api = Cloudflare::new("k", "e@example.com", "not a url at all");
    assert!(matches!(api, Err(ApiError::Url(_))));
}

#[test]
fn auth_headers_carry_key_and_email() {
    let api = Cloudflare::new(
        "test-key",
        "admin@example.com",
        "https://api.cloudflare.com/client/v4/",
    )
    .unwrap();
    let headers = api.auth_headers();
    assert_eq!(headers.len(), 2);
    assert_eq!(headers[0].0, "X-Auth-Key");
    assert_eq!(headers[0].1, "test-key");
    assert_eq!(headers[1].0, "X-Auth-Email");
    assert_eq!(headers[1].1, "admin@example.com");
}

#[test]
fn outside_failures_map_to_their_own_variants() {
    let json_failure = serde_json::from_str::<i64>("not json").unwrap_err();
    assert!(matches!(ApiError::from(json_failure), ApiError::Json(_)));

    let url_failure = url::Url::parse("not a url at all").unwrap_err();
    assert!(matches!(ApiError::from(url_failure), ApiError::Url(_)));

    let io_failure = std::io::Error::new(std::io::ErrorKind::Other, "closed");
    assert!(matches!(ApiError::from(io_failure), ApiError::Io(_)));
}
