use outreach::extract::{completion_message, extract, extract_object, text_field, text_list_field, FieldMap};
use outreach::repair::repair_and_parse;
use serde_json::Value;

fn email_fields() -> FieldMap {
    FieldMap {
        email_address: "email".to_string(),
        email_body: "email_output".to_string(),
        rationale: "analysis_rationale".to_string(),
    }
}

#[test]
fn extract_from_empty_object_gives_defaults() {
    let obj = serde_json::Map::new();
    let r = extract_object(&obj, &email_fields());
    assert_eq!(r.email_address, "");
    assert_eq!(r.email_body, "");
    assert!(r.rationale.is_empty());
    let parsed = repair_and_parse("{}").unwrap();
    let r = extract_object(&parsed, &email_fields());
    assert_eq!(r.email_body, "");
    assert!(r.rationale.is_empty());
}

#[test]
fn extract_reads_fields_and_keeps_string_items() {
    let obj = repair_and_parse(
        "{\"email\":\"a@b.c\",\"email_output\":\"Dear Ann,\",\"analysis_rationale\":[\"one\",2,null,\"two\"]}",
    )
    .unwrap();
    let r = extract_object(&obj, &email_fields());
    assert_eq!(r.email_address, "a@b.c");
    assert_eq!(r.email_body, "Dear Ann,");
    assert_eq!(r.rationale, vec!["one".to_string(), "two".to_string()]);
}

#[test]
fn extract_defaults_fields_of_the_wrong_type() {
    let obj = repair_and_parse("{\"email\":7,\"email_output\":[\"x\"],\"analysis_rationale\":\"why\"}").unwrap();
    let r = extract_object(&obj, &email_fields());
    assert_eq!(r.email_address, "");
    assert_eq!(r.email_body, "");
    assert!(r.rationale.is_empty());
}

#[test]
fn extract_from_a_record_that_is_not_an_object() {
    let record: Value = serde_json::from_str("[1, 2]").unwrap();
    let r = extract(&record, &email_fields());
    assert_eq!(r.email_body, "");
    assert!(r.rationale.is_empty());
    let record: Value = serde_json::from_str("{\"email_output\":\"Hello\"}").unwrap();
    assert_eq!(extract(&record, &email_fields()).email_body, "Hello");
}

#[test]
fn record_fields_read_leniently() {
    let record: Value =
        serde_json::from_str("{\"fullName\":\"Bill Gates\",\"headline\":null,\"skills\":[\"a\",{\"b\":1},\"c\"]}").unwrap();
    assert_eq!(text_field(&record, "fullName"), "Bill Gates");
    assert_eq!(text_field(&record, "headline"), "");
    assert_eq!(text_field(&record, "about"), "");
    assert_eq!(text_list_field(&record, "skills"), vec!["a".to_string(), "c".to_string()]);
    assert!(text_list_field(&record, "fullName").is_empty());
}

#[test]
fn completion_message_reads_first_choice() {
    let body = "{\"choices\":[{\"message\":{\"role\":\"assistant\",\"content\":\"hello\"}},{\"message\":{\"content\":\"no\"}}]}";
    assert_eq!(completion_message(body), Some("hello".to_string()));
    assert_eq!(completion_message("{\"choices\":[]}"), Some(String::new()));
    assert_eq!(completion_message("[1]"), Some(String::new()));
    assert_eq!(completion_message("not json"), None);
}
