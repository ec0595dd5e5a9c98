//! Decoding of inbound text frames into events.

use crate::json::{
    array_len, as_i64, as_str, get_item, get_member, is_null, json_model, parse_text, parsed_json,
    Json, JsonValue,
};
use vstd::prelude::*;

verus! {

/// The semantic unit handed to subscribers: a routing key, a type tag and an
/// event-specific body.
#[derive(Debug, PartialEq)]
pub struct LcuData {
    pub data: JsonValue,
    pub event_type: String,
    pub uri: String,
}

impl Clone for LcuData {
    /// A copy that holds the same body, type tag and routing key.
    fn clone(&self) -> (r: Self)
        ensures
            r@ == self@,
    {
        LcuData {
            data: self.data.clone(),
            event_type: self.event_type.clone(),
            uri: self.uri.clone(),
        }
    }
}

/// What an [`LcuData`] holds.
pub struct LcuDataView {
    pub data: Json,
    pub event_type: Seq<char>,
    pub uri: Seq<char>,
}

impl View for LcuData {
    type V = LcuDataView;

    open spec fn view(&self) -> LcuDataView {
        LcuDataView { data: json_model(self.data), event_type: self.event_type@, uri: self.uri@ }
    }
}

/// Why a frame yields no envelope.
#[derive(Clone, Copy, Debug, PartialEq, Eq, Structural)]
pub enum DecodeError {
    /// The frame is not a three-element envelope `[integer, string, event or null]`.
    Malformed,
}

/// The event that a document stands for: an object with a `data` member and
/// string members `eventType` and `uri`. Other members are ignored.
pub open spec fn event_of(doc: Json) -> Option<LcuDataView> {
    match doc {
        Json::Object(members) => {
            if members.contains_key("data"@) && members.contains_key("eventType"@)
                && members.contains_key("uri"@) {
                match (members["eventType"@], members["uri"@]) {
                    (Json::Text(event_type), Json::Text(uri)) => Some(
                        LcuDataView { data: members["data"@], event_type, uri },
                    ),
                    _ => None,
                }
            } else {
                None
            }
        },
        _ => None,
    }
}

/// The payload of the envelope that a document stands for: the document is
/// an array of exactly three elements, a 32-bit integer, a string, and either
/// null (no payload) or an event.
pub open spec fn envelope_payload_of(doc: Json) -> Result<Option<LcuDataView>, DecodeError> {
    match doc {
        Json::Array(items) => {
            if items.len() == 3 && (items[0] matches Json::Int(n) && i32::MIN <= n <= i32::MAX)
                && items[1] is Text {
                if items[2] is Null {
                    Ok(None)
                } else {
                    match event_of(items[2]) {
                        Some(event) => Ok(Some(event)),
                        None => Err(DecodeError::Malformed),
                    }
                }
            } else {
                Err(DecodeError::Malformed)
            }
        },
        _ => Err(DecodeError::Malformed),
    }
}

/// What a text frame decodes to: nothing for an empty frame, otherwise the
/// payload of the envelope that the text holds.
pub open spec fn decode_spec(frame: Seq<char>) -> Result<Option<LcuDataView>, DecodeError> {
    if frame.len() == 0 {
        Ok(None)
    } else {
        match parsed_json(frame) {
            Some(doc) => envelope_payload_of(doc),
            None => Err(DecodeError::Malformed),
        }
    }
}

/// The view of a decoding result.
pub open spec fn decoded_view(r: Result<Option<LcuData>, DecodeError>) -> Result<
    Option<LcuDataView>,
    DecodeError,
> {
    match r {
        Ok(Some(event)) => Ok(Some(event@)),
        Ok(None) => Ok(None),
        Err(e) => Err(e),
    }
}

/// Reads an event out of a parsed document.
pub fn event_from_document(doc: &JsonValue) -> (r: Option<LcuData>)
    ensures
        r is Some <==> event_of(json_model(*doc)) is Some,
        r is Some ==> r->0@ == event_of(json_model(*doc))->0,
{
    let data = match get_member(doc, "data") {
        Some(d) => d,
        None => { return None; },
    };
    let event_type = match get_member(doc, "eventType") {
        Some(t) => t,
        None => { return None; },
    };
    let uri = match get_member(doc, "uri") {
        Some(u) => u,
        None => { return None; },
    };
    match (as_str(&event_type), as_str(&uri)) {
        (Some(t), Some(u)) => Some(
            LcuData { data, event_type: t.to_owned(), uri: u.to_owned() },
        ),
        _ => None,
    }
}

/// Reads the payload out of a parsed envelope document.
pub fn envelope_payload(doc: &JsonValue) -> (r: Result<Option<LcuData>, DecodeError>)
    ensures
        decoded_view(r) == envelope_payload_of(json_model(*doc)),
{
    match array_len(doc) {
        Some(len) => {
            if len != 3 {
                return Err(DecodeError::Malformed);
            }
        },
        None => { return Err(DecodeError::Malformed); },
    }
    let (opcode, event_name, payload) = match (get_item(doc, 0), get_item(doc, 1), get_item(doc, 2)) {
        (Some(opcode), Some(event_name), Some(payload)) => (opcode, event_name, payload),
        _ => { return Err(DecodeError::Malformed); },
    };
    match as_i64(&opcode) {
        Some(code) => {
            if code < -2147483648 || code > 2147483647 {
                return Err(DecodeError::Malformed);
            }
        },
        None => { return Err(DecodeError::Malformed); },
    }
    if as_str(&event_name).is_none() {
        return Err(DecodeError::Malformed);
    }
    if is_null(&payload) {
        return Ok(None);
    }
    match event_from_document(&payload) {
        Some(event) => Ok(Some(event)),
        None => Err(DecodeError::Malformed),
    }
}

/// Decodes one inbound text frame. An empty frame carries nothing; any other
/// frame must hold a three-element envelope, whose payload, if present, is
/// returned.
pub fn decode(frame: &str) -> (r: Result<Option<LcuData>, DecodeError>)
    ensures
        decoded_view(r) == decode_spec(frame@),
{
    if frame.is_empty() {
        return Ok(None);
    }
    match parse_text(frame) {
        Ok(doc) => envelope_payload(&doc),
        Err(_) => Err(DecodeError::Malformed),
    }
}

/// Decoding depends on the characters of the frame alone: two frames with the
/// same text decode to the same outcome.
pub proof fn lemma_decode_deterministic(first: Seq<char>, second: Seq<char>)
    requires
        first == second,
    ensures
        decode_spec(first) == decode_spec(second),
{
}

} // verus!
