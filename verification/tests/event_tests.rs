use serde_json::{Number, Value};
use socketeer::event::{close_frame, frame, Event};

fn text(value: &str) -> Value {
    Value::String(value.to_string())
}

#[test]
fn close_sentinel_has_the_reserved_type_and_no_payload() {
    let event = Event::close();
    assert_eq!(event.type_, "CLOSE");
    assert_eq!(event.data, Value::Null);
    assert!(event.is_close());
    assert!(!event.is_heartbeat());
}

#[test]
fn heartbeat_is_blank() {
    let event = Event::heartbeat();
    assert_eq!(event.type_, "");
    assert_eq!(event.data, Value::Null);
    assert!(event.is_heartbeat());
    assert!(!event.is_close());
}

#[test]
fn close_is_decided_by_the_type_tag_alone() {
    let with_payload = Event { type_: "CLOSE".to_string(), data: text("bye") };
    assert!(with_payload.is_close());
    let lower_case = Event { type_: "close".to_string(), data: Value::Null };
    assert!(!lower_case.is_close());
    let chat = Event { type_: "chat".to_string(), data: Value::Null };
    assert!(!chat.is_close());
}

#[test]
fn heartbeat_needs_both_a_blank_tag_and_a_null_payload() {
    let blank_with_payload = Event { type_: String::new(), data: text("x") };
    assert!(!blank_with_payload.is_heartbeat());
    let tagged_null = Event { type_: "chat".to_string(), data: Value::Null };
    assert!(!tagged_null.is_heartbeat());
}

#[test]
fn frame_wraps_tag_and_payload() {
    let framed = frame(&b"\"chat\"".to_vec(), &b"\"hi\"".to_vec());
    assert_eq!(framed, b"{\"type\":\"chat\",\"data\":\"hi\"}".to_vec());
}

#[test]
fn frame_of_empty_parts_is_the_bare_skeleton() {
    let framed = frame(&Vec::new(), &Vec::new());
    assert_eq!(framed, b"{\"type\":,\"data\":}".to_vec());
}

#[test]
fn encode_writes_the_wire_shape() {
    let event = Event { type_: "chat".to_string(), data: text("hi") };
    assert_eq!(event.encode(), b"{\"type\":\"chat\",\"data\":\"hi\"}".to_vec());
}

#[test]
fn encode_escapes_the_tag() {
    let event = Event { type_: "a\"b\\c\n".to_string(), data: Value::Bool(true) };
    assert_eq!(event.encode(), b"{\"type\":\"a\\\"b\\\\c\\n\",\"data\":true}".to_vec());
}

#[test]
fn encode_passes_structured_payloads_through() {
    let mut inner = serde_json::Map::new();
    inner.insert("n".to_string(), Value::Number(Number::from(7)));
    inner.insert("list".to_string(), Value::Array(vec![Value::Null, Value::Bool(false)]));
    let event = Event { type_: "state".to_string(), data: Value::Object(inner.clone()) };
    let framed = event.encode();
    let parsed: Value = serde_json::from_slice(&framed).unwrap();
    let mut expected = serde_json::Map::new();
    expected.insert("type".to_string(), text("state"));
    expected.insert("data".to_string(), Value::Object(inner));
    assert_eq!(parsed, Value::Object(expected));
}

#[test]
fn encode_of_heartbeat() {
    assert_eq!(Event::heartbeat().encode(), b"{\"type\":\"\",\"data\":null}".to_vec());
}

#[test]
fn close_frame_is_the_encoded_sentinel() {
    let expected = b"{\"type\":\"CLOSE\",\"data\":null}".to_vec();
    assert_eq!(close_frame(), expected);
    assert_eq!(Event::close().encode(), expected);
}

#[test]
fn clone_keeps_tag_and_payload() {
    let event = Event { type_: "chat".to_string(), data: text("hi") };
    let copy = event.clone();
    assert_eq!(copy.type_, "chat");
    assert_eq!(copy.data, text("hi"));
}

#[test]
fn encode_writes_numbers_and_text_beyond_ascii() {
    let event = Event {
        type_: "caf\u{e9}".to_string(),
        data: Value::Array(vec![
            Value::Number(Number::from(-3)),
            Value::Number(Number::from_f64(1.5).unwrap()),
            text("\u{1f600}"),
        ]),
    };
    let framed = event.encode();
    assert_eq!(
        framed,
        "{\"type\":\"caf\u{e9}\",\"data\":[-3,1.5,\"\u{1f600}\"]}".as_bytes().to_vec()
    );
}
