use htget::errors::FetchError;

#[test]
fn request_error_names_the_url() {
    let e = FetchError::Request { url: "https://example.com/".to_string() };
    assert_eq!(e.message(), "Failed to GET from 'https://example.com/'");
}

#[test]
fn url_parse_error_names_the_input() {
    let e = FetchError::UrlParse { input: "exa mple.com".to_string() };
    assert_eq!(e.message(), "invalid URL 'exa mple.com'");
}

#[test]
fn stream_error_message() {
    assert_eq!(FetchError::Stream.message(), "Error while downloading file");
}

#[test]
fn invalid_query_message() {
    assert_eq!(FetchError::InvalidQuery.message(), "Invalid selector");
}

#[test]
fn render_error_message() {
    assert_eq!(FetchError::Render.message(), "failed to render output");
}
