use vstd::prelude::*;
use vstd::string::StringExecFns;

verus! {

/// The terminal failures of one invocation, one variant per pipeline stage.
/// Every failure aborts the run; nothing is retried.
#[derive(Debug)]
pub enum FetchError {
    /// The input could not be parsed as an absolute URL, even after the
    /// `https://` fallback; carries the original input.
    UrlParse { input: String },
    /// The GET request failed at the transport level; carries the target URL.
    Request { url: String },
    /// A body chunk could not be read mid-transfer.
    Stream,
    /// The body was not valid text.
    Encoding,
    /// The selector or the filter pattern did not compile.
    InvalidQuery,
    /// The highlighting backend failed.
    Render,
}

/// The one-line message that `FetchError::message` returns.
pub open spec fn message_spec(e: FetchError) -> Seq<char> {
    match e {
        FetchError::UrlParse { input } => "invalid URL '"@ + input@ + "'"@,
        FetchError::Request { url } => "Failed to GET from '"@ + url@ + "'"@,
        FetchError::Stream => "Error while downloading file"@,
        FetchError::Encoding => "response body is not valid UTF-8"@,
        FetchError::InvalidQuery => "Invalid selector"@,
        FetchError::Render => "failed to render output"@,
    }
}

impl FetchError {
    /// One line describing the failure, fit for standard error.
    pub fn message(&self) -> (r: String)
        ensures
            r@ == message_spec(*self),
    {
        match self {
            FetchError::UrlParse { input } => String::from_str("invalid URL '").concat(
                input.as_str(),
            ).concat("'"),
            FetchError::Request { url } => String::from_str("Failed to GET from '").concat(
                url.as_str(),
            ).concat("'"),
            FetchError::Stream => String::from_str("Error while downloading file"),
            FetchError::Encoding => String::from_str("response body is not valid UTF-8"),
            FetchError::InvalidQuery => String::from_str("Invalid selector"),
            FetchError::Render => String::from_str("failed to render output"),
        }
    }
}

} // verus!
