use lcu_bridge::decoder::{decode, envelope_payload, event_from_document, DecodeError, LcuData};
use lcu_bridge::json::JsonValue;

const READY_CHECK: &str = r#"[8, "OnJsonApiEvent", {"data":"ReadyCheck","eventType":"Update","uri":"/lol-gameflow/v1/gameflow-phase"}]"#;

fn text(value: &str) -> JsonValue {
    JsonValue::parse(&format!("{:?}", value)).unwrap()
}

#[test]
fn ready_check_frame_decodes_to_its_event() {
    let event = decode(READY_CHECK).unwrap().unwrap();
    assert_eq!(event.uri, "/lol-gameflow/v1/gameflow-phase");
    assert_eq!(event.event_type, "Update");
    assert_eq!(event.data.text(), Some("ReadyCheck".to_string()));
    assert_eq!(
        event,
        LcuData {
            data: text("ReadyCheck"),
            event_type: "Update".to_string(),
            uri: "/lol-gameflow/v1/gameflow-phase".to_string(),
        }
    );
}

#[test]
fn decoding_twice_gives_the_same_event() {
    let first = decode(READY_CHECK);
    let second = decode(READY_CHECK);
    assert_eq!(first, second);
    assert!(matches!(first, Ok(Some(_))));
    let malformed = "[8, \"OnJsonApiEvent\"";
    assert_eq!(decode(malformed), decode(malformed));
}

#[test]
fn empty_frame_is_no_event() {
    assert_eq!(decode(""), Ok(None));
}

#[test]
fn null_payload_is_no_event() {
    assert_eq!(decode(r#"[3, "OnJsonApiEvent", null]"#), Ok(None));
    assert_eq!(decode(r#"[-1,"",null]"#), Ok(None));
}

#[test]
fn text_that_is_no_json_is_malformed() {
    assert_eq!(decode("hello"), Err(DecodeError::Malformed));
    assert_eq!(decode(" "), Err(DecodeError::Malformed));
    assert_eq!(decode("[8, \"OnJsonApiEvent\", "), Err(DecodeError::Malformed));
}

#[test]
fn envelope_of_wrong_shape_is_malformed() {
    assert_eq!(decode(r#"{"a":1}"#), Err(DecodeError::Malformed));
    assert_eq!(decode(r#"[5, "OnJsonApiEvent"]"#), Err(DecodeError::Malformed));
    assert_eq!(decode(r#"[8, "x", null, 1]"#), Err(DecodeError::Malformed));
    assert_eq!(decode(r#"[]"#), Err(DecodeError::Malformed));
    assert_eq!(decode(r#"null"#), Err(DecodeError::Malformed));
}

#[test]
fn envelope_with_wrong_element_types_is_malformed() {
    assert_eq!(decode(r#"["8", "x", null]"#), Err(DecodeError::Malformed));
    assert_eq!(decode(r#"[8.5, "x", null]"#), Err(DecodeError::Malformed));
    assert_eq!(decode(r#"[8, 9, null]"#), Err(DecodeError::Malformed));
    assert_eq!(decode(r#"[8, "x", 7]"#), Err(DecodeError::Malformed));
    assert_eq!(decode(r#"[8, "x", "event"]"#), Err(DecodeError::Malformed));
}

#[test]
fn opcode_must_fit_in_32_bits() {
    assert_eq!(decode(r#"[2147483647, "x", null]"#), Ok(None));
    assert_eq!(decode(r#"[-2147483648, "x", null]"#), Ok(None));
    assert_eq!(decode(r#"[2147483648, "x", null]"#), Err(DecodeError::Malformed));
    assert_eq!(decode(r#"[-2147483649, "x", null]"#), Err(DecodeError::Malformed));
    assert_eq!(decode(r#"[18446744073709551615, "x", null]"#), Err(DecodeError::Malformed));
}

#[test]
fn event_with_missing_or_mistyped_members_is_malformed() {
    assert_eq!(decode(r#"[8, "x", {}]"#), Err(DecodeError::Malformed));
    assert_eq!(decode(r#"[8, "x", {"data":1,"eventType":"Update"}]"#), Err(DecodeError::Malformed));
    assert_eq!(decode(r#"[8, "x", {"eventType":"Update","uri":"/a"}]"#), Err(DecodeError::Malformed));
    assert_eq!(decode(r#"[8, "x", {"data":1,"uri":"/a"}]"#), Err(DecodeError::Malformed));
    assert_eq!(
        decode(r#"[8, "x", {"data":1,"eventType":"Update","uri":5}]"#),
        Err(DecodeError::Malformed)
    );
    assert_eq!(
        decode(r#"[8, "x", {"data":1,"eventType":null,"uri":"/a"}]"#),
        Err(DecodeError::Malformed)
    );
    assert_eq!(
        decode(r#"[8, "x", {"data":1,"event_type":"Update","uri":"/a"}]"#),
        Err(DecodeError::Malformed)
    );
}

#[test]
fn event_body_may_be_any_json() {
    let event = decode(r#"[8, "x", {"data":{"a":[1,2,3]},"eventType":"Create","uri":"/a/b"}]"#)
        .unwrap()
        .unwrap();
    assert_eq!(event.data, JsonValue::parse(r#"{"a":[1,2,3]}"#).unwrap());
    assert_eq!(event.data.text(), None);
    assert_eq!(event.event_type, "Create");
    assert_eq!(event.uri, "/a/b");
    let null_body = decode(r#"[8, "x", {"data":null,"eventType":"Delete","uri":"/c"}]"#)
        .unwrap()
        .unwrap();
    assert_eq!(null_body.data, JsonValue::parse("null").unwrap());
}

#[test]
fn unknown_event_members_are_ignored() {
    let event = decode(r#"[8, "x", {"extra":true,"data":"Lobby","eventType":"Update","uri":"/u"}]"#)
        .unwrap()
        .unwrap();
    assert_eq!(
        event,
        LcuData { data: text("Lobby"), event_type: "Update".to_string(), uri: "/u".to_string() }
    );
}

#[test]
fn envelope_payload_reads_a_parsed_document() {
    let doc = JsonValue::parse(READY_CHECK).unwrap();
    assert_eq!(envelope_payload(&doc), decode(READY_CHECK));
    let no_payload = JsonValue::parse(r#"[8, "x", null]"#).unwrap();
    assert_eq!(envelope_payload(&no_payload), Ok(None));
    let not_an_array = JsonValue::parse(r#""text""#).unwrap();
    assert_eq!(envelope_payload(&not_an_array), Err(DecodeError::Malformed));
}

#[test]
fn event_from_document_needs_an_object() {
    let object = JsonValue::parse(r#"{"data":7,"eventType":"Update","uri":"/u"}"#).unwrap();
    let event = event_from_document(&object).unwrap();
    assert_eq!(event.data, JsonValue::parse("7").unwrap());
    assert_eq!(event.uri, "/u");
    let array = JsonValue::parse(r#"[7,"Update","/u"]"#).unwrap();
    assert_eq!(event_from_document(&array), None);
}

#[test]
fn json_value_parse_and_text() {
    assert_eq!(JsonValue::parse("not json"), None);
    assert_eq!(JsonValue::parse(""), None);
    assert_eq!(JsonValue::parse(r#""a\"b""#).unwrap().text(), Some("a\"b".to_string()));
    assert_eq!(JsonValue::parse("12").unwrap().text(), None);
    let value = JsonValue::parse(r#"{"k":[1,"two"]}"#).unwrap();
    assert_eq!(value.clone(), value);
}

#[test]
fn a_cloned_event_equals_its_source() {
    let event = decode(READY_CHECK).unwrap().unwrap();
    let copy = event.clone();
    assert_eq!(copy, event);
    assert_eq!(copy.data.text(), Some("ReadyCheck".to_string()));
    assert_eq!(copy.uri, "/lol-gameflow/v1/gameflow-phase");
}
