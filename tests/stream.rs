use outreach::stream::{aggregate, classify_line, Feed, LineAction, StreamAggregator, StreamError};

fn chunks_of(text: &str) -> Vec<Vec<u8>> {
    vec![text.as_bytes().to_vec()]
}

fn delta_line(content: &str) -> String {
    format!("data: {{\"choices\":[{{\"delta\":{{\"content\":\"{}\"}}}}]}}", content)
}

#[test]
fn aggregate_joins_deltas_until_done() {
    let lines = [
        "data: {\"choices\":[{\"delta\":{\"content\":\"Hi\"}}]}",
        "data: {\"choices\":[{\"delta\":{\"content\":\" there\"}}]}",
        "data: [DONE]",
    ];
    let stream = lines.join("\n");
    assert_eq!(aggregate(&chunks_of(&stream)).unwrap(), "Hi there");
}

#[test]
fn aggregate_same_bytes_in_other_chunks_gives_same_text() {
    let stream = format!("{}\n{}\ndata: [DONE]\n", delta_line("Hi"), delta_line(" there"));
    let bytes = stream.as_bytes().to_vec();
    let whole = aggregate(&vec![bytes.clone()]).unwrap();
    let mut pieces: Vec<Vec<u8>> = Vec::new();
    for b in &bytes {
        pieces.push(vec![*b]);
    }
    let bytewise = aggregate(&pieces).unwrap();
    let split = aggregate(&vec![bytes[..7].to_vec(), bytes[7..40].to_vec(), bytes[40..].to_vec()]).unwrap();
    assert_eq!(whole, "Hi there");
    assert_eq!(bytewise, whole);
    assert_eq!(split, whole);
    assert_eq!(aggregate(&vec![bytes]).unwrap(), whole);
}

#[test]
fn aggregate_keeps_a_character_split_across_chunks() {
    let stream = format!("{}\ndata: [DONE]\n", delta_line("caf\u{e9}"));
    let bytes = stream.as_bytes().to_vec();
    let cut = bytes.iter().position(|b| *b == 0xc3).unwrap() + 1;
    let r = aggregate(&vec![bytes[..cut].to_vec(), bytes[cut..].to_vec()]);
    assert!(matches!(r, Err(StreamError::Transport)));
    assert!(matches!(aggregate(&vec![vec![0xc3], vec![0xa9]]), Err(StreamError::Transport)));
    assert_eq!(aggregate(&vec![bytes]).unwrap(), "caf\u{e9}");
}

#[test]
fn aggregate_carries_a_line_across_chunks() {
    let line = delta_line("Hi");
    let (a, b) = line.split_at(12);
    let r = aggregate(&vec![a.as_bytes().to_vec(), format!("{}\ndata: [DO", b).into_bytes(), b"NE]".to_vec()]);
    assert_eq!(r.unwrap(), "Hi");
}

#[test]
fn aggregate_stops_on_finish_reason_stop() {
    let stream = format!(
        "{}\ndata: {{\"choices\":[{{\"delta\":{{\"content\":\"X\"}},\"finish_reason\":\"stop\"}}]}}\n{}\n",
        delta_line("A"),
        delta_line("B")
    );
    assert_eq!(aggregate(&chunks_of(&stream)).unwrap(), "A");
}

#[test]
fn aggregate_goes_on_after_other_finish_reasons() {
    let stream = "data: {\"choices\":[{\"delta\":{\"content\":\"A\"},\"finish_reason\":\"length\"}]}\ndata: [DONE]";
    assert_eq!(aggregate(&chunks_of(stream)).unwrap(), "A");
}

#[test]
fn aggregate_skips_malformed_payloads_and_other_lines() {
    let stream = format!(
        ": keep-alive\n\nevent: message\ndata: {{not json\ndata: 42\n{}\ndata: {{\"choices\":[]}}\n  data:[DONE]  \n{}\n",
        delta_line("ok"),
        delta_line("late")
    );
    assert_eq!(aggregate(&chunks_of(&stream)).unwrap(), "ok");
}

#[test]
fn aggregate_returns_answer_untrimmed_on_done() {
    let stream = format!("{}\n{}\ndata: [DONE]", delta_line(" a"), delta_line("b "));
    assert_eq!(aggregate(&chunks_of(&stream)).unwrap(), " ab ");
}

#[test]
fn aggregate_end_without_signal_trims_json_answer() {
    let stream = format!("{}\n{}\n", delta_line("  {\\\"a\\\":"), delta_line("1}  "));
    assert_eq!(aggregate(&chunks_of(&stream)).unwrap(), "{\"a\":1}");
}

#[test]
fn aggregate_end_without_signal_rejects_non_json() {
    let stream = format!("{}\n", delta_line(" hello "));
    match aggregate(&chunks_of(&stream)) {
        Err(StreamError::UnparseableFinalText { text, diagnostic }) => {
            assert_eq!(text, "hello");
            assert!(!diagnostic.is_empty());
        }
        other => panic!("unexpected result {:?}", other),
    }
}

#[test]
fn aggregate_empty_stream_is_an_error() {
    assert!(matches!(aggregate(&Vec::new()), Err(StreamError::EmptyStream)));
    let blank = format!("{}\n\n", delta_line("   "));
    assert!(matches!(aggregate(&chunks_of(&blank)), Err(StreamError::EmptyStream)));
}

#[test]
fn aggregate_rejects_bytes_that_are_not_utf8() {
    let mut bytes = b"data: ".to_vec();
    bytes.push(0xff);
    bytes.extend_from_slice(b"\ndata: [DONE]\n");
    assert!(matches!(aggregate(&vec![bytes]), Err(StreamError::Transport)));
}

#[test]
fn aggregate_ignores_chunks_after_the_end() {
    let r = aggregate(&vec![b"data: [DONE]\n".to_vec(), vec![0xff, b'\n']]);
    assert_eq!(r.unwrap(), "");
    let mut bytes = b"data: [DONE]\n".to_vec();
    bytes.push(0xff);
    assert!(matches!(aggregate(&vec![bytes]), Err(StreamError::Transport)));
}

#[test]
fn feed_reports_the_end_as_soon_as_it_comes() {
    let mut agg = StreamAggregator::new();
    let first = format!("{}\ndata: [DO", delta_line("Hi"));
    assert!(matches!(agg.feed(first.as_bytes()), Feed::More));
    match agg.feed(b"NE]\nignored") {
        Feed::Ended(answer) => assert_eq!(answer, "Hi"),
        _ => panic!("stream should have ended"),
    }
    assert_eq!(agg.finish().unwrap(), "Hi");
}

#[test]
fn feed_reports_broken_bytes() {
    let mut agg = StreamAggregator::new();
    assert!(matches!(agg.feed(&[0xc3, 0x28, b'\n']), Feed::Failed(StreamError::Transport)));
    assert!(matches!(agg.finish(), Err(StreamError::Transport)));
}

#[test]
fn classify_line_reads_events() {
    assert!(matches!(classify_line("  data:   [DONE] \r"), LineAction::End));
    assert!(matches!(classify_line("\u{3000}data:[DONE]"), LineAction::End));
    assert!(matches!(classify_line("data[DONE]"), LineAction::Skip));
    assert!(matches!(classify_line(""), LineAction::Skip));
    match classify_line(&delta_line("x")) {
        LineAction::Delta(s) => assert_eq!(s, "x"),
        _ => panic!("expected a delta"),
    }
}
