use vstd::prelude::*;
use vstd::string::StringExecFns;
use crate::errors::FetchError;

verus! {

/// Whether `url::Url::parse` accepts `s` as an absolute URL.
pub uninterp spec fn url_parse_ok(s: Seq<char>) -> bool;

/// The serialization of the URL that `url::Url::parse` builds from `s`,
/// meaningful when `url_parse_ok(s)` holds.
pub uninterp spec fn url_normalized(s: Seq<char>) -> Seq<char>;

/// Whether `url::Url::parse` rejects `s` specifically as a relative URL
/// without a base, the one failure the `https://` fallback answers.
pub uninterp spec fn url_err_is_relative(s: Seq<char>) -> bool;

/// How strict parsing failed: the scheme-absence case, or anything else.
enum RawParseFailure {
    RelativeWithoutBase,
    Other,
}

/// Relies on `url::Url::parse` and `url::Url::as_str`: parsing either yields
/// a URL whose serialization is a function of the input alone, or fails with
/// `url::ParseError::RelativeUrlWithoutBase` or some other variant.
#[verifier::external_body]
fn parse_absolute(input: &str) -> (r: Result<String, RawParseFailure>)
    ensures
        r is Ok <==> url_parse_ok(input@),
        r matches Ok(u) ==> u@ == url_normalized(input@),
        r matches Err(f) ==> ((f is RelativeWithoutBase) <==> url_err_is_relative(input@)),
{
    match url::Url::parse(input) {
        Ok(u) => Ok(String::from(u.as_str())),
        Err(url::ParseError::RelativeUrlWithoutBase) => Err(RawParseFailure::RelativeWithoutBase),
        Err(_) => Err(RawParseFailure::Other),
    }
}

/// The input with the `https://` scheme prefixed.
pub open spec fn https_prefixed(s: Seq<char>) -> Seq<char> {
    "https://"@ + s
}

/// When normalization succeeds: the input parses as an absolute URL, or it
/// lacks a scheme and parses once `https://` is prefixed.
pub open spec fn normalize_ok(s: Seq<char>) -> bool {
    url_parse_ok(s) || (url_err_is_relative(s) && url_parse_ok(https_prefixed(s)))
}

/// The normalized URL a successful normalization returns.
pub open spec fn normalize_result(s: Seq<char>) -> Seq<char> {
    if url_parse_ok(s) {
        url_normalized(s)
    } else {
        url_normalized(https_prefixed(s))
    }
}

/// Turns a user-supplied string into a well-formed absolute URL. Strict
/// parsing is tried first; only the scheme-absence failure is retried with
/// an `https://` prefix, so bare hostnames work while genuinely malformed
/// input is still rejected. No network access happens here.
pub fn normalize_url(input: &str) -> (r: Result<String, FetchError>)
    ensures
        r is Ok <==> normalize_ok(input@),
        r matches Ok(u) ==> u@ == normalize_result(input@),
        r matches Err(e) ==> e matches FetchError::UrlParse { input: orig } && orig@ == input@,
{
    match parse_absolute(input) {
        Ok(u) => Ok(u),
        Err(RawParseFailure::RelativeWithoutBase) => {
            let prefixed = String::from_str("https://").concat(input);
            match parse_absolute(prefixed.as_str()) {
                Ok(u) => Ok(u),
                Err(_) => Err(FetchError::UrlParse { input: String::from_str(input) }),
            }
        },
        Err(RawParseFailure::Other) => Err(
            FetchError::UrlParse { input: String::from_str(input) },
        ),
    }
}

/// For every input that strict parsing rejects for lack of a scheme,
/// normalization succeeds exactly when the `https://`-prefixed string is a
/// valid absolute URL; otherwise it fails.
pub proof fn lemma_scheme_fallback(s: Seq<char>)
    requires
        !url_parse_ok(s),
        url_err_is_relative(s),
    ensures
        normalize_ok(s) <==> url_parse_ok(https_prefixed(s)),
        normalize_ok(s) ==> normalize_result(s) == url_normalized(https_prefixed(s)),
{
}

} // verus!
