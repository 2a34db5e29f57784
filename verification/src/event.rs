//! Events and their wire encoding.

use serde_json::Value;
use vstd::prelude::*;
use vstd::string::StringExecFns;

verus! {

/// `serde_json::Value`: any JSON value. Nothing inside it is read here.
#[verifier::external_type_specification]
#[verifier::external_body]
pub struct ExValue(Value);

/// `serde_json::Error`: why a value could not be written.
#[verifier::external_type_specification]
#[verifier::external_body]
pub struct ExJsonError(serde_json::Error);

/// `Value::clone` of serde_json: the copy is the same JSON value.
pub assume_specification[ <Value as Clone>::clone ](value: &Value) -> (copy: Value)
    ensures
        copy == *value,
;

/// Whether a JSON value is `null`, as `Value::is_null` of serde_json tells it.
pub uninterp spec fn json_is_null(value: Value) -> bool;

/// The compact JSON text of a string, as `serde_json::to_vec` writes it for a
/// `str`: the quoted and escaped string, in UTF-8.
pub uninterp spec fn json_string_bytes(text: Seq<char>) -> Seq<u8>;

/// The compact JSON text of a value, as `serde_json::to_vec` writes it for a
/// `Value`, in UTF-8.
pub uninterp spec fn json_value_bytes(value: Value) -> Seq<u8>;

/// `Value::Null` of serde_json: the JSON value `null`.
#[verifier::external_body]
fn null_value() -> (value: Value)
    ensures
        json_is_null(value),
{
    Value::Null
}

/// `Value::is_null` of serde_json.
#[verifier::external_body]
fn value_is_null(value: &Value) -> (null: bool)
    ensures
        null == json_is_null(*value),
{
    value.is_null()
}

/// `serde_json::to_vec` on a `str`. Writing a string into a byte vector
/// cannot fail, so the call always succeeds, and the bytes are those that
/// `json_string_bytes` names.
#[verifier::external_body]
fn string_to_json(text: &str) -> (written: Result<Vec<u8>, serde_json::Error>)
    ensures
        written is Ok,
        written->Ok_0@ == json_string_bytes(text@),
{
    serde_json::to_vec(text)
}

/// `serde_json::to_vec` on a `Value`. Every `Value` has a JSON text (its
/// numbers are finite and the keys of its objects are strings) and writing
/// into a byte vector cannot fail, so the call always succeeds, and the
/// bytes are those that `json_value_bytes` names. The value `null` is
/// written as the four bytes `null`.
#[verifier::external_body]
fn value_to_json(value: &Value) -> (written: Result<Vec<u8>, serde_json::Error>)
    ensures
        written is Ok,
        written->Ok_0@ == json_value_bytes(*value),
        json_is_null(*value) ==> written->Ok_0@ == null_text(),
{
    serde_json::to_vec(value)
}

/// A typed message distributed through a room. The payload is passed through
/// unexamined; only the type tag is ever read.
#[derive(Clone, Debug)]
pub struct Event {
    pub type_: String,
    pub data: Value,
}

/// What an event is, mathematically: its type tag as a sequence of characters
/// and its payload.
pub struct EventView {
    pub type_: Seq<char>,
    pub data: Value,
}

impl View for Event {
    type V = EventView;

    open spec fn view(&self) -> EventView {
        EventView { type_: self.type_@, data: self.data }
    }
}

/// The type tag of the sentinel that tells a client to end its session.
pub open spec fn close_tag() -> Seq<char> {
    seq!['C', 'L', 'O', 'S', 'E']
}

/// The bytes `{"type":`, which open a frame.
pub open spec fn frame_open() -> Seq<u8> {
    seq![0x7bu8, 0x22u8, 0x74u8, 0x79u8, 0x70u8, 0x65u8, 0x22u8, 0x3au8]
}

/// The bytes `,"data":`, which separate the tag from the payload.
pub open spec fn frame_middle() -> Seq<u8> {
    seq![0x2cu8, 0x22u8, 0x64u8, 0x61u8, 0x74u8, 0x61u8, 0x22u8, 0x3au8]
}

/// The byte `}`, which ends a frame.
pub open spec fn frame_end() -> Seq<u8> {
    seq![0x7du8]
}

/// The bytes `null`, the JSON text of the value `null`.
pub open spec fn null_text() -> Seq<u8> {
    seq![0x6eu8, 0x75u8, 0x6cu8, 0x6cu8]
}

/// The frame `{"type":<tag>,"data":<payload>}` around two pieces of JSON text.
pub open spec fn wire_frame(tag: Seq<u8>, payload: Seq<u8>) -> Seq<u8> {
    frame_open() + tag + frame_middle() + payload + frame_end()
}

/// The outbound frame of an event: the JSON object that holds its type tag
/// and its payload.
pub open spec fn encoding(event: EventView) -> Seq<u8> {
    wire_frame(json_string_bytes(event.type_), json_value_bytes(event.data))
}

/// The outbound frame of the session-ending sentinel.
pub open spec fn close_encoding() -> Seq<u8> {
    wire_frame(json_string_bytes(close_tag()), null_text())
}

/// Builds the frame `{"type":<tag>,"data":<payload>}` from the JSON text of a
/// tag and of a payload.
pub fn frame(tag: &Vec<u8>, payload: &Vec<u8>) -> (framed: Vec<u8>)
    ensures
        framed@ == wire_frame(tag@, payload@),
{
    let mut framed: Vec<u8> = Vec::new();
    framed.push(0x7bu8);
    framed.push(0x22u8);
    framed.push(0x74u8);
    framed.push(0x79u8);
    framed.push(0x70u8);
    framed.push(0x65u8);
    framed.push(0x22u8);
    framed.push(0x3au8);
    assert(framed@ == frame_open());
    framed.extend_from_slice(tag.as_slice());
    framed.push(0x2cu8);
    framed.push(0x22u8);
    framed.push(0x64u8);
    framed.push(0x61u8);
    framed.push(0x74u8);
    framed.push(0x61u8);
    framed.push(0x22u8);
    framed.push(0x3au8);
    assert(framed@ == frame_open() + tag@ + frame_middle());
    framed.extend_from_slice(payload.as_slice());
    framed.push(0x7du8);
    assert(framed@ == wire_frame(tag@, payload@));
    framed
}

/// The JSON text of a string, quoted and escaped.
fn string_text(text: &str) -> (written: Vec<u8>)
    ensures
        written@ == json_string_bytes(text@),
{
    match string_to_json(text) {
        Ok(bytes) => bytes,
        Err(_) => {
            proof {
                assert(false);
            }
            Vec::new()
        },
    }
}

/// The JSON text of a value.
fn value_text(value: &Value) -> (written: Vec<u8>)
    ensures
        written@ == json_value_bytes(*value),
        json_is_null(*value) ==> written@ == null_text(),
{
    match value_to_json(value) {
        Ok(bytes) => bytes,
        Err(_) => {
            proof {
                assert(false);
            }
            Vec::new()
        },
    }
}

/// Serialises the session-ending sentinel into its outbound frame.
pub fn close_frame() -> (framed: Vec<u8>)
    ensures
        framed@ == close_encoding(),
{
    let event = Event::close();
    let tag = string_text(event.type_.as_str());
    let payload = value_text(&event.data);
    frame(&tag, &payload)
}

impl Event {
    /// The sentinel that tells a receiving client to end its session: type
    /// `CLOSE`, payload `null`.
    pub fn close() -> (event: Event)
        ensures
            event@.type_ == close_tag(),
            json_is_null(event@.data),
    {
        proof {
            reveal_strlit("CLOSE");
        }
        let type_ = String::from_str("CLOSE");
        assert(type_@ =~= close_tag());
        Event { type_, data: null_value() }
    }

    /// The heartbeat probe: an empty type tag and the payload `null`.
    pub fn heartbeat() -> (event: Event)
        ensures
            event@.type_ == Seq::<char>::empty(),
            json_is_null(event@.data),
    {
        Event { type_: String::new(), data: null_value() }
    }

    /// Whether this event is the session-ending sentinel, which is decided by
    /// its type tag alone.
    pub fn is_close(&self) -> (close: bool)
        ensures
            close == (self@.type_ == close_tag()),
    {
        proof {
            reveal_strlit("CLOSE");
        }
        let tag = String::from_str("CLOSE");
        assert(tag@ =~= close_tag());
        self.type_ == tag
    }

    /// Whether this event is a heartbeat probe: no type tag and no payload.
    pub fn is_heartbeat(&self) -> (probe: bool)
        ensures
            probe == (self@.type_.len() == 0 && json_is_null(self@.data)),
    {
        self.type_.as_str().is_empty() && value_is_null(&self.data)
    }

    /// Serialises the event into its outbound frame
    /// `{"type":<tag>,"data":<payload>}`.
    pub fn encode(&self) -> (framed: Vec<u8>)
        ensures
            framed@ == encoding(self@),
    {
        let tag = string_text(self.type_.as_str());
        let payload = value_text(&self.data);
        frame(&tag, &payload)
    }
}

} // verus!
