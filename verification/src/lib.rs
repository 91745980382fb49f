/// Content-type classification: maps a declared media type to a rendering language.
pub mod classify;
/// The terminal error taxonomy of one invocation.
pub mod errors;
/// The structural query: selector, attribute, cap and filter, and the extraction engine.
pub mod query;
/// Character-level string helpers.
pub mod strutil;
/// Streamed-transfer accounting, buffer accumulation and body decoding.
pub mod transfer;
/// URL normalization with the `https://` fallback for bare hostnames.
pub mod urlnorm;
