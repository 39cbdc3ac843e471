//! The decision of the Main Relay Loop for one input line: decode the
//! event, extract the conversational text, classify the link, and say what
//! to dispatch. The loop that owns the stream performs the reads and starts
//! the tasks; it never waits on a task this decision starts.

use crate::decode::{decode_line, json_value_of, method_is_receive, spec_decode};
use crate::event::{lemma_foreign_sync_ignored, spec_extract, InboundEvent, InboundEventV};
use crate::link::{find_link, spec_find_link, DetectedLink, DetectedLinkV};
use vstd::prelude::*;

verus! {

/// The dispatch owed for one line: for a receive notification whose
/// envelope yields conversational text holding a recognized link, the
/// party to answer and the link; nothing in every other case.
pub open spec fn spec_relay_action(s: Seq<char>) -> Option<(Seq<char>, DetectedLinkV)> {
    match spec_decode(s) {
        Some(InboundEventV::Receive(Some(env))) => match spec_extract(env) {
            Some(st) => match spec_find_link(st.1) {
                Some(l) => Some((st.0, l)),
                None => None,
            },
            None => None,
        },
        _ => None,
    }
}

/// One step of the relay loop, from line to dispatch decision.
pub fn relay_step(line: &str) -> (r: Option<(String, DetectedLink)>)
    ensures
        (match r {
            Some(d) => spec_relay_action(line@) == Some((d.0@, d.1@)),
            None => spec_relay_action(line@) is None,
        }),
{
    let ev: InboundEvent = match decode_line(line) {
        Some(e) => e,
        None => {
            return None;
        },
    };
    let env = match ev {
        InboundEvent::Receive(Some(env)) => env,
        _ => {
            return None;
        },
    };
    let (source, text) = match env.extract_text() {
        Some(p) => p,
        None => {
            return None;
        },
    };
    match find_link(text.as_str()) {
        Some(link) => Some((source, link)),
        None => None,
    }
}

/// For every malformed input line, nothing is classified, dispatched or
/// written; the loop just reads on.
pub proof fn lemma_malformed_no_dispatch(s: Seq<char>)
    requires
        json_value_of(s) is None,
    ensures
        spec_relay_action(s) is None,
{
}

/// For every event whose method is not `receive`, no classification or
/// dispatch occurs.
pub proof fn lemma_other_method_no_dispatch(s: Seq<char>, v: serde_json::Value)
    requires
        json_value_of(s) == Some(v),
        !method_is_receive(v),
    ensures
        spec_relay_action(s) is None,
{
}

/// For a self-sync event sent to a third party — and no direct message —
/// no text is extracted and no dispatch occurs.
pub proof fn lemma_foreign_sync_no_dispatch(s: Seq<char>)
    requires
        spec_decode(s) matches Some(InboundEventV::Receive(Some(env))) ==> {
            &&& env.direct_message is None
            &&& (env.self_sync_message matches Some(sent) ==> sent.destination != env.source_id
                || sent.destination is None)
        },
    ensures
        spec_relay_action(s) is None,
{
    match spec_decode(s) {
        Some(InboundEventV::Receive(Some(env))) => lemma_foreign_sync_ignored(env),
        _ => (),
    }
}

/// A line whose conversational text holds no recognized link dispatches
/// nothing: the event is dropped with no further action.
pub proof fn lemma_no_link_no_dispatch(s: Seq<char>)
    requires
        spec_decode(s) matches Some(InboundEventV::Receive(Some(env))) ==> (spec_extract(env)
            matches Some(st) ==> spec_find_link(st.1) is None),
    ensures
        spec_relay_action(s) is None,
{
}

} // verus!
