use htget::transfer::{append_chunk, decode_body, request_headers, RequestOptions, TransferState};

#[test]
fn progress_accumulates_chunks() {
    let mut s = TransferState::new(1000);
    assert_eq!(s.downloaded_bytes, 0);
    s.apply_chunk(400);
    assert_eq!(s.downloaded_bytes, 400);
    s.apply_chunk(600);
    assert_eq!(s.downloaded_bytes, 1000);
    assert_eq!(s.total_bytes, 1000);
}

#[test]
fn progress_clamps_at_declared_total() {
    let mut s = TransferState::new(100);
    s.apply_chunk(70);
    s.apply_chunk(70);
    assert_eq!(s.downloaded_bytes, 100);
}

#[test]
fn full_transfer_of_declared_length() {
    let mut state = TransferState::new(1000);
    let mut buffer: Vec<u8> = Vec::new();
    let chunk1 = vec![b'a'; 600];
    let chunk2 = vec![b'b'; 400];
    append_chunk(&mut buffer, &chunk1);
    state.apply_chunk(chunk1.len());
    append_chunk(&mut buffer, &chunk2);
    state.apply_chunk(chunk2.len());
    assert_eq!(state.downloaded_bytes, 1000);
    assert_eq!(state.total_bytes, 1000);
    let body = decode_body(buffer).unwrap();
    assert_eq!(body.len(), 1000);
}

#[test]
fn append_chunk_preserves_order_and_content() {
    let mut buffer: Vec<u8> = vec![1, 2];
    append_chunk(&mut buffer, &[3, 4, 5]);
    assert_eq!(buffer, vec![1, 2, 3, 4, 5]);
}

#[test]
fn decode_rejects_invalid_utf8() {
    let r = decode_body(vec![0xff, 0xfe]);
    match r {
        Ok(_) => panic!("expected an encoding error"),
        Err(e) => assert_eq!(e.message(), "response body is not valid UTF-8"),
    }
}

#[test]
fn decode_multibyte_text() {
    let body = decode_body(vec![0xe2, 0x82, 0xac]).unwrap();
    assert_eq!(body, "\u{20ac}");
}

#[test]
fn browser_emulation_headers() {
    let opts = RequestOptions { emulate_browser: true, show_response_headers: false, quiet: false };
    let (accept, ua) = request_headers(&opts).unwrap();
    assert_eq!(accept, "text/html,application/xhtml+xml,application/xml");
    assert_eq!(ua, "Mozilla/5.0");
}

#[test]
fn no_extra_headers_without_emulation() {
    let opts = RequestOptions { emulate_browser: false, show_response_headers: true, quiet: true };
    assert!(request_headers(&opts).is_none());
}
