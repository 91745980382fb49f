use htget::errors::FetchError;
use htget::urlnorm::normalize_url;

#[test]
fn normalize_bare_host_gets_https_prefix() {
    let r = normalize_url("example.com/page").unwrap();
    assert_eq!(r, "https://example.com/page");
}

#[test]
fn normalize_absolute_url_kept() {
    let r = normalize_url("https://example.com/page").unwrap();
    assert_eq!(r, "https://example.com/page");
}

#[test]
fn normalize_serializes_empty_path_with_slash() {
    let r = normalize_url("example.com").unwrap();
    assert_eq!(r, "https://example.com/");
}

#[test]
fn normalize_rejects_input_invalid_even_with_prefix() {
    let r = normalize_url("exa mple.com/x");
    match r {
        Ok(u) => panic!("expected failure, got {}", u),
        Err(e) => assert_eq!(e.message(), "invalid URL 'exa mple.com/x'"),
    }
}

#[test]
fn normalize_rejects_nonrelative_parse_failure() {
    let r = normalize_url("https://example.com:99999999999/");
    match r {
        Ok(u) => panic!("expected failure, got {}", u),
        Err(e) => assert!(matches!(e, FetchError::UrlParse { .. })),
    }
}
