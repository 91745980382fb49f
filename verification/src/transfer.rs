use vstd::prelude::*;
use crate::classify::Language;
use crate::errors::FetchError;

verus! {

/// What one invocation fetches: the decoded body and the language the
/// response's content type declared, if a known one. Produced once,
/// immutable thereafter.
pub struct FetchedContent {
    pub body: String,
    pub language: Option<Language>,
}

/// Immutable per-invocation fetch configuration, derived from the
/// invocation's arguments; read-only input to the fetcher.
pub struct RequestOptions {
    pub emulate_browser: bool,
    pub show_response_headers: bool,
    pub quiet: bool,
}

/// The extra request headers the fetcher sends: a browser-like `Accept`
/// and `User-Agent` pair exactly when browser emulation is on, nothing
/// otherwise.
pub fn request_headers(opts: &RequestOptions) -> (r: Option<(&'static str, &'static str)>)
    ensures
        r is Some <==> opts.emulate_browser,
        r matches Some(p) ==> p.0@ == "text/html,application/xhtml+xml,application/xml"@ && p.1@
            == "Mozilla/5.0"@,
{
    if opts.emulate_browser {
        Some(("text/html,application/xhtml+xml,application/xml", "Mozilla/5.0"))
    } else {
        None
    }
}

/// Progress bookkeeping for a streamed transfer whose total size the server
/// declared. Lives only while the transfer runs.
pub struct TransferState {
    pub total_bytes: u64,
    pub downloaded_bytes: u64,
}

/// The downloaded count never exceeds the declared total.
pub open spec fn ts_wf(s: TransferState) -> bool {
    s.downloaded_bytes <= s.total_bytes
}

/// The downloaded count after one chunk of `chunk` bytes: advanced by the
/// chunk's length, clamped at the declared total. The clamp tolerates a
/// server that sends more bytes than it declared.
pub open spec fn advanced(downloaded: u64, total: u64, chunk: u64) -> u64 {
    if downloaded + chunk >= total {
        total
    } else {
        (downloaded + chunk) as u64
    }
}

impl TransferState {
    /// A fresh state for a transfer of `total` declared bytes.
    pub fn new(total: u64) -> (s: Self)
        ensures
            s.total_bytes == total,
            s.downloaded_bytes == 0,
            ts_wf(s),
    {
        TransferState { total_bytes: total, downloaded_bytes: 0 }
    }

    /// Accounts for one received chunk of `chunk_len` bytes.
    pub fn apply_chunk(&mut self, chunk_len: usize)
        requires
            ts_wf(*old(self)),
        ensures
            ts_wf(*final(self)),
            final(self).total_bytes == old(self).total_bytes,
            final(self).downloaded_bytes == advanced(
                old(self).downloaded_bytes,
                old(self).total_bytes,
                chunk_len as u64,
            ),
    {
        let chunk: u64 = chunk_len as u64;
        if chunk >= self.total_bytes - self.downloaded_bytes {
            self.downloaded_bytes = self.total_bytes;
        } else {
            self.downloaded_bytes = self.downloaded_bytes + chunk;
        }
    }
}

/// One step never decreases the downloaded count, and never lets it pass
/// the declared total.
pub proof fn lemma_progress_monotone_bounded(downloaded: u64, total: u64, chunk: u64)
    requires
        downloaded <= total,
    ensures
        advanced(downloaded, total, chunk) >= downloaded,
        advanced(downloaded, total, chunk) <= total,
{
}

/// The downloaded count observed after a whole sequence of chunk lengths,
/// starting from a fresh state.
pub open spec fn downloaded_after(total: u64, chunks: Seq<u64>) -> u64
    decreases chunks.len(),
{
    if chunks.len() == 0 {
        0u64
    } else {
        advanced(downloaded_after(total, chunks.drop_last()), total, chunks.last())
    }
}

/// At every observed point of a streamed transfer the downloaded count is
/// within the declared total.
pub proof fn lemma_observed_bounded(total: u64, chunks: Seq<u64>)
    ensures
        downloaded_after(total, chunks) <= total,
    decreases chunks.len(),
{
    if chunks.len() > 0 {
        lemma_observed_bounded(total, chunks.drop_last());
    }
}

/// Over a streamed transfer the downloaded count is non-decreasing: after
/// any later chunk it is at least what any earlier observation showed.
pub proof fn lemma_observed_monotone(total: u64, chunks: Seq<u64>, i: int, j: int)
    requires
        0 <= i <= j <= chunks.len(),
    ensures
        downloaded_after(total, chunks.take(i)) <= downloaded_after(total, chunks.take(j)),
    decreases j - i,
{
    if i < j {
        lemma_observed_monotone(total, chunks, i, j - 1);
        assert(chunks.take(j).drop_last() =~= chunks.take(j - 1));
        lemma_observed_bounded(total, chunks.take(j - 1));
    }
}

/// Appends one received chunk to the accumulation buffer.
pub fn append_chunk(buffer: &mut Vec<u8>, chunk: &[u8])
    ensures
        final(buffer)@ == old(buffer)@ + chunk@,
{
    let mut i: usize = 0;
    while i < chunk.len()
        invariant
            i <= chunk.len(),
            buffer@ == old(buffer)@ + chunk@.take(i as int),
        decreases chunk.len() - i,
    {
        buffer.push(chunk[i]);
        proof {
            assert(old(buffer)@ + chunk@.take(i as int) + seq![chunk@[i as int]] =~= old(
                buffer,
            )@ + chunk@.take(i as int + 1));
        }
        i += 1;
    }
    proof {
        assert(old(buffer)@ + chunk@.take(chunk@.len() as int) =~= old(buffer)@ + chunk@);
    }
}

/// What `String::from_utf8` decodes a byte sequence to, when the bytes are
/// valid UTF-8.
pub uninterp spec fn utf8_decoded(bytes: Seq<u8>) -> Option<Seq<char>>;

/// Relies on `alloc::string::String::from_utf8`: returns the decoded string
/// exactly when the bytes are valid UTF-8, a function of the bytes alone.
#[verifier::external_body]
fn string_from_utf8(bytes: Vec<u8>) -> (r: Option<String>)
    ensures
        r is Some <==> utf8_decoded(bytes@) is Some,
        r matches Some(s) ==> Some(s@) == utf8_decoded(bytes@),
{
    String::from_utf8(bytes).ok()
}

/// Decodes a fully accumulated body as text. A body that is not valid UTF-8
/// is a terminal encoding error, never silently repaired.
pub fn decode_body(bytes: Vec<u8>) -> (r: Result<String, FetchError>)
    ensures
        r is Ok <==> utf8_decoded(bytes@) is Some,
        r matches Ok(s) ==> Some(s@) == utf8_decoded(bytes@),
        r matches Err(e) ==> e is Encoding,
{
    match string_from_utf8(bytes) {
        Some(s) => Ok(s),
        None => Err(FetchError::Encoding),
    }
}

} // verus!
