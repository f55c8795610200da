use chat_stream_core::sse::SseDecoder;

#[test]
fn single_event_single_chunk() {
    let mut d = SseDecoder::new();
    let frag = d.feed(b"data: {\"choices\":[{\"delta\":{\"content\":\"Hi\"}}]}\n\n");
    assert_eq!(frag.as_deref(), Some("Hi"));
    assert!(!d.is_done());
}

#[test]
fn event_split_across_chunks() {
    // The same logical event, split at arbitrary byte boundaries, yields the
    // same text as fed whole.
    let whole = b"data: {\"choices\":[{\"delta\":{\"content\":\"Hello\"}}]}\n";
    let mut d1 = SseDecoder::new();
    let whole_frag = d1.feed(whole).unwrap();
    assert_eq!(whole_frag, "Hello");

    for cut in 1..whole.len() {
        let mut d2 = SseDecoder::new();
        let mut acc = String::new();
        if let Some(f) = d2.feed(&whole[..cut]) {
            acc.push_str(&f);
        }
        if let Some(f) = d2.feed(&whole[cut..]) {
            acc.push_str(&f);
        }
        assert_eq!(acc, whole_frag, "split at {}", cut);
    }
}

#[test]
fn event_split_byte_by_byte() {
    let whole = b"data: {\"choices\":[{\"delta\":{\"content\":\"abc\"}}]}\n";
    let mut d = SseDecoder::new();
    let mut acc = String::new();
    for b in whole.iter() {
        if let Some(f) = d.feed(std::slice::from_ref(b)) {
            acc.push_str(&f);
        }
    }
    assert_eq!(acc, "abc");
}

#[test]
fn done_terminates_within_chunk() {
    let mut d = SseDecoder::new();
    let frag = d.feed(
        b"data: [DONE]\ndata: {\"choices\":[{\"delta\":{\"content\":\"late\"}}]}\n",
    );
    assert!(frag.is_none());
    assert!(d.is_done());
    // Nothing after the sentinel produces an item, in later chunks either.
    let frag = d.feed(b"data: {\"choices\":[{\"delta\":{\"content\":\"more\"}}]}\n");
    assert!(frag.is_none());
    assert!(d.is_done());
}

#[test]
fn content_before_done_in_same_chunk_is_kept() {
    let mut d = SseDecoder::new();
    let frag = d.feed(
        b"data: {\"choices\":[{\"delta\":{\"content\":\"last\"}}]}\ndata: [DONE]\n",
    );
    assert_eq!(frag.as_deref(), Some("last"));
    assert!(d.is_done());
}

#[test]
fn malformed_json_line_is_dropped() {
    let mut d = SseDecoder::new();
    let frag = d.feed(b"data: {not json at all\n");
    assert!(frag.is_none());
    assert!(!d.is_done());
    // The stream is still healthy afterwards.
    let frag = d.feed(b"data: {\"choices\":[{\"delta\":{\"content\":\"ok\"}}]}\n");
    assert_eq!(frag.as_deref(), Some("ok"));
}

#[test]
fn non_data_lines_are_ignored() {
    let mut d = SseDecoder::new();
    let frag = d.feed(b"\n: keep-alive\nevent: message\nretry: 100\n");
    assert!(frag.is_none());
    assert!(!d.is_done());
}

#[test]
fn crlf_framing_decodes_like_lf() {
    let mut d = SseDecoder::new();
    let frag = d.feed(b"data: {\"choices\":[{\"delta\":{\"content\":\"x\"}}]}\r\n");
    assert_eq!(frag.as_deref(), Some("x"));
    let frag = d.feed(b"data: [DONE]\r\n");
    assert!(frag.is_none());
    assert!(d.is_done());
}

#[test]
fn multiple_content_lines_in_one_chunk_concatenate() {
    let mut d = SseDecoder::new();
    let frag = d.feed(
        b"data: {\"choices\":[{\"delta\":{\"content\":\"Hel\"}}]}\ndata: {\"choices\":[{\"delta\":{\"content\":\"lo\"}}]}\n",
    );
    assert_eq!(frag.as_deref(), Some("Hello"));
}

#[test]
fn empty_content_still_counts_as_content() {
    let mut d = SseDecoder::new();
    let frag = d.feed(b"data: {\"choices\":[{\"delta\":{\"content\":\"\"}}]}\n");
    assert_eq!(frag.as_deref(), Some(""));
}

#[test]
fn chunk_without_content_yields_no_fragment() {
    let mut d = SseDecoder::new();
    let frag = d.feed(b"data: {\"choices\":[{\"delta\":{}}]}\n");
    assert!(frag.is_none());
    let frag = d.feed(b"data: {\"choices\":[]}\n");
    assert!(frag.is_none());
    assert!(!d.is_done());
}

#[test]
fn finish_processes_unterminated_final_line() {
    let mut d = SseDecoder::new();
    let frag = d.feed(b"data: {\"choices\":[{\"delta\":{\"content\":\"tail\"}}]}");
    assert!(frag.is_none());
    let frag = d.finish();
    assert_eq!(frag.as_deref(), Some("tail"));
}

#[test]
fn finish_on_done_decoder_is_silent() {
    let mut d = SseDecoder::new();
    d.feed(b"data: [DONE]\n");
    assert!(d.is_done());
    assert!(d.finish().is_none());
}
