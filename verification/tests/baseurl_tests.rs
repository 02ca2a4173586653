use std::str::FromStr;

use hubuum_client::{ApiError, BaseUrl};

#[test]
fn test_base_url_with_trailing_slash() {
    let base_url = BaseUrl::from_str("https://api.example.com").unwrap();
    assert_eq!(base_url.with_trailing_slash(), "https://api.example.com/");
}

#[test]
fn test_base_url_from_str() {
    let base_url = BaseUrl::from_str("https://api.example.com").unwrap();
    assert_eq!(base_url.as_str(), "https://api.example.com/");
}

#[test]
fn trailing_slash_kept_when_present() {
    let base_url = BaseUrl::from_str("https://api.example.com/").unwrap();
    assert_eq!(base_url.with_trailing_slash(), "https://api.example.com/");
}

#[test]
fn http_scheme_accepted() {
    assert!(BaseUrl::parse("http://api.example.com").is_ok());
    assert!(BaseUrl::parse("https://api.example.com").is_ok());
}

#[test]
fn invalid_scheme_rejected_naming_the_scheme() {
    for scheme in ["ftp", "file", "mailto"] {
        let r = BaseUrl::parse(&format!("{}://x", scheme));
        match r {
            Err(ApiError::InvalidScheme(s)) => assert_eq!(s, scheme),
            other => panic!("expected an invalid-scheme error, got {:?}", other),
        }
    }
}

#[test]
fn malformed_url_rejected() {
    match BaseUrl::parse("not a url") {
        Err(ApiError::UrlParse(_)) => {}
        other => panic!("expected a parse error, got {:?}", other),
    }
}

#[test]
fn path_kept_and_slash_added() {
    let base_url = BaseUrl::parse("https://api.example.com/api/v1").unwrap();
    assert_eq!(base_url.as_str(), "https://api.example.com/api/v1/");
}
