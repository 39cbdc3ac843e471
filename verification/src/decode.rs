//! Decoding one line of the transport's stream into an [`InboundEvent`].
//!
//! The line is JSON, and parsing it is serde_json's work, behind a few
//! trusted declarations whose results are named below. Everything that
//! reads the parsed value — which fields matter, in which order the source
//! is chosen, how the self-sync copy is shaped — is verified against those
//! names.

use crate::event::{Envelope, EnvelopeV, InboundEvent, InboundEventV, SentPayload, SentPayloadV,
    TextPayload, TextPayloadV};
use crate::text::{all_space, blank, str_eq};
use vstd::prelude::*;

verus! {

#[verifier::external_type_specification]
#[verifier::external_body]
pub struct ExValue(serde_json::Value);

/// The JSON value a piece of text parses to, or nothing for malformed text.
pub uninterp spec fn json_value_of(s: Seq<char>) -> Option<serde_json::Value>;

/// The member of a JSON object under a key; nothing for a non-object value
/// or an absent key.
pub uninterp spec fn json_field(v: serde_json::Value, key: Seq<char>) -> Option<serde_json::Value>;

/// The text of a JSON string value; nothing for any other kind of value.
pub uninterp spec fn json_str_of(v: serde_json::Value) -> Option<Seq<char>>;

/// Relies on serde_json::from_str::<Value>: parsing succeeds exactly on
/// well-formed JSON text and its result is a function of the text alone.
#[verifier::external_body]
fn parse_json_line(line: &str) -> (r: Option<serde_json::Value>)
    ensures
        r == json_value_of(line@),
{
    serde_json::from_str::<serde_json::Value>(line).ok()
}

/// Relies on serde_json::Value::get with a string key: the member under
/// that key when the value is an object holding it, nothing otherwise.
#[verifier::external_body]
fn json_get<'a>(v: &'a serde_json::Value, key: &str) -> (r: Option<&'a serde_json::Value>)
    ensures
        (match r {
            Some(f) => json_field(*v, key@) == Some(*f),
            None => json_field(*v, key@) is None,
        }),
{
    v.get(key)
}

/// Relies on serde_json::Value::as_str: the content of a string value,
/// nothing for any other kind of value.
#[verifier::external_body]
fn json_as_str<'a>(v: &'a serde_json::Value) -> (r: Option<&'a str>)
    ensures
        (match r {
            Some(s) => json_str_of(*v) == Some(s@),
            None => json_str_of(*v) is None,
        }),
{
    v.as_str()
}

/// The string member of `v` under `key`, when `v` is an object and the
/// member is a string.
pub open spec fn json_field_str(v: serde_json::Value, key: Seq<char>) -> Option<Seq<char>> {
    match json_field(v, key) {
        Some(f) => json_str_of(f),
        None => None,
    }
}

/// Fetches [`json_field_str`] at runtime, copying the text out.
fn get_str_field(v: &serde_json::Value, key: &str) -> (r: Option<String>)
    ensures
        (match r {
            Some(s) => json_field_str(*v, key@) == Some(s@),
            None => json_field_str(*v, key@) is None,
        }),
{
    match json_get(v, key) {
        Some(f) => match json_as_str(f) {
            Some(s) => Some(s.to_owned()),
            None => None,
        },
        None => None,
    }
}

/// The notification's method is the one the relay acts on.
pub open spec fn method_is_receive(v: serde_json::Value) -> bool {
    json_field_str(v, "method"@) == Some("receive"@)
}

/// The envelope member of a receive notification.
pub open spec fn envelope_value_of(v: serde_json::Value) -> Option<serde_json::Value> {
    match json_field(v, "params"@) {
        Some(p) => json_field(p, "envelope"@),
        None => None,
    }
}

/// The decoded form of an envelope value: the source (number preferred,
/// uuid as fallback), the direct message, and the self-sync sent copy.
pub open spec fn spec_decode_envelope(e: serde_json::Value) -> EnvelopeV {
    EnvelopeV {
        source_id: (match json_field_str(e, "sourceNumber"@) {
            Some(s) => Some(s),
            None => json_field_str(e, "sourceUuid"@),
        }),
        direct_message: (match json_field(e, "dataMessage"@) {
            Some(d) => Some(TextPayloadV { text: json_field_str(d, "message"@) }),
            None => None,
        }),
        self_sync_message: (match json_field(e, "syncMessage"@) {
            Some(sm) => match json_field(sm, "sentMessage"@) {
                Some(st) => Some(
                    SentPayloadV {
                        destination: json_field_str(st, "destination"@),
                        text: json_field_str(st, "message"@),
                    },
                ),
                None => None,
            },
            None => None,
        }),
    }
}

/// What one line of input decodes to: nothing for blank or malformed text,
/// an event otherwise — a `Receive` with its envelope for the one method
/// the relay acts on, `Other` for the rest.
pub open spec fn spec_decode(s: Seq<char>) -> Option<InboundEventV> {
    if all_space(s) {
        None
    } else {
        match json_value_of(s) {
            None => None,
            Some(v) => if method_is_receive(v) {
                Some(
                    InboundEventV::Receive(
                        match envelope_value_of(v) {
                            Some(e) => Some(spec_decode_envelope(e)),
                            None => None,
                        },
                    ),
                )
            } else {
                Some(InboundEventV::Other)
            },
        }
    }
}

/// The Event Decoder: one line in, one decoded event or nothing out.
/// Malformed input never stops the caller; it simply decodes to nothing.
pub fn decode_line(line: &str) -> (r: Option<InboundEvent>)
    ensures
        (match r {
            Some(ev) => spec_decode(line@) == Some(ev@),
            None => spec_decode(line@) is None,
        }),
{
    if blank(line) {
        return None;
    }
    let v: serde_json::Value = match parse_json_line(line) {
        Some(v) => v,
        None => {
            return None;
        },
    };
    let method_match: bool = match json_get(&v, "method") {
        Some(m) => match json_as_str(m) {
            Some(ms) => str_eq(ms, "receive"),
            None => false,
        },
        None => false,
    };
    if !method_match {
        return Some(InboundEvent::Other);
    }
    let env_val: Option<&serde_json::Value> = match json_get(&v, "params") {
        Some(p) => json_get(p, "envelope"),
        None => None,
    };
    let envelope: Option<Envelope> = match env_val {
        Some(e) => {
            let source_id = match get_str_field(e, "sourceNumber") {
                Some(s) => Some(s),
                None => get_str_field(e, "sourceUuid"),
            };
            let direct_message = match json_get(e, "dataMessage") {
                Some(d) => Some(TextPayload { text: get_str_field(d, "message") }),
                None => None,
            };
            let self_sync_message = match json_get(e, "syncMessage") {
                Some(sm) => match json_get(sm, "sentMessage") {
                    Some(st) => Some(
                        SentPayload {
                            destination: get_str_field(st, "destination"),
                            text: get_str_field(st, "message"),
                        },
                    ),
                    None => None,
                },
                None => None,
            };
            Some(Envelope { source_id, direct_message, self_sync_message })
        },
        None => None,
    };
    Some(InboundEvent::Receive(envelope))
}

/// A malformed line decodes to nothing: the loop reads on, and nothing can
/// be classified, dispatched or written for it.
pub proof fn lemma_malformed_discarded(s: Seq<char>)
    requires
        json_value_of(s) is None,
    ensures
        spec_decode(s) is None,
{
}

} // verus!
