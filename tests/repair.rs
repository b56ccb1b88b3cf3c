use outreach::repair::repair_and_parse;
use outreach::stream::StreamError;

#[test]
fn repair_closes_an_unclosed_object() {
    let obj = repair_and_parse("{\"email_output\":\"Dear X,\"").unwrap();
    assert_eq!(obj.get("email_output").and_then(|v| v.as_str()), Some("Dear X,"));
}

#[test]
fn repair_fails_without_an_open_brace() {
    match repair_and_parse("no object here]") {
        Err(StreamError::UnparseableFinalText { text, .. }) => assert_eq!(text, "no object here]"),
        other => panic!("unexpected result {:?}", other),
    }
    assert!(repair_and_parse("42").is_err());
    assert!(repair_and_parse("").is_err());
}

#[test]
fn repair_cuts_the_object_out_of_prose() {
    let obj = repair_and_parse("Sure! Here it is: {\"a\": \"b\"} Hope it helps.").unwrap();
    assert_eq!(obj.get("a").and_then(|v| v.as_str()), Some("b"));
    assert_eq!(obj.len(), 1);
}

#[test]
fn repair_closes_nested_objects() {
    let obj = repair_and_parse("{\"a\": {\"b\": \"c\"").unwrap();
    let inner = obj.get("a").and_then(|v| v.as_object()).unwrap();
    assert_eq!(inner.get("b").and_then(|v| v.as_str()), Some("c"));
    let obj = repair_and_parse("{\"a\":{\"b\":1}").unwrap();
    assert!(obj.get("a").is_some());
}

#[test]
fn repair_keeps_whole_text_when_braces_are_reversed() {
    match repair_and_parse("} oops {\"a\":1") {
        Err(StreamError::UnparseableFinalText { text, diagnostic }) => {
            assert_eq!(text, "} oops {\"a\":1");
            assert!(!diagnostic.is_empty());
        }
        other => panic!("unexpected result {:?}", other),
    }
}

#[test]
fn repair_reports_the_candidate_on_failure() {
    match repair_and_parse("text {\"a\": nope} more") {
        Err(StreamError::UnparseableFinalText { text, .. }) => assert_eq!(text, "{\"a\": nope}"),
        other => panic!("unexpected result {:?}", other),
    }
}
