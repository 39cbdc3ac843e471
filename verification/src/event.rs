//! The decoded shape of one inbound chat event, and the rule that picks the
//! conversational text (and the party to answer) out of it.

use vstd::prelude::*;

verus! {

/// A message received from another party.
pub struct TextPayload {
    pub text: Option<String>,
}

/// A message the account owner sent, seen again through self-sync.
pub struct SentPayload {
    pub destination: Option<String>,
    pub text: Option<String>,
}

/// The routing and content fields of one chat event.
pub struct Envelope {
    pub source_id: Option<String>,
    pub direct_message: Option<TextPayload>,
    pub self_sync_message: Option<SentPayload>,
}

/// One decoded protocol notification: a `receive` notification with its
/// envelope, or anything else, which the relay discards.
pub enum InboundEvent {
    Receive(Option<Envelope>),
    Other,
}

#[verifier::ext_equal]
pub struct TextPayloadV {
    pub text: Option<Seq<char>>,
}

#[verifier::ext_equal]
pub struct SentPayloadV {
    pub destination: Option<Seq<char>>,
    pub text: Option<Seq<char>>,
}

#[verifier::ext_equal]
pub struct EnvelopeV {
    pub source_id: Option<Seq<char>>,
    pub direct_message: Option<TextPayloadV>,
    pub self_sync_message: Option<SentPayloadV>,
}

#[verifier::ext_equal]
pub enum InboundEventV {
    Receive(Option<EnvelopeV>),
    Other,
}

pub open spec fn view_opt_str(o: Option<String>) -> Option<Seq<char>> {
    match o {
        Some(s) => Some(s@),
        None => None,
    }
}

impl View for TextPayload {
    type V = TextPayloadV;

    open spec fn view(&self) -> TextPayloadV {
        TextPayloadV { text: view_opt_str(self.text) }
    }
}

impl View for SentPayload {
    type V = SentPayloadV;

    open spec fn view(&self) -> SentPayloadV {
        SentPayloadV { destination: view_opt_str(self.destination), text: view_opt_str(self.text) }
    }
}

impl View for Envelope {
    type V = EnvelopeV;

    open spec fn view(&self) -> EnvelopeV {
        EnvelopeV {
            source_id: view_opt_str(self.source_id),
            direct_message: (match self.direct_message {
                Some(ref p) => Some(p@),
                None => None,
            }),
            self_sync_message: (match self.self_sync_message {
                Some(ref p) => Some(p@),
                None => None,
            }),
        }
    }
}

impl View for InboundEvent {
    type V = InboundEventV;

    open spec fn view(&self) -> InboundEventV {
        match self {
            InboundEvent::Receive(env) => InboundEventV::Receive(
                match env {
                    Some(e) => Some(e@),
                    None => None,
                },
            ),
            InboundEvent::Other => InboundEventV::Other,
        }
    }
}

/// The conversational text of an envelope, with the party to answer.
///
/// An envelope without a source identifier is unusable. A direct message is
/// consulted first; only when none is present is the self-sync copy read, and
/// its text counts only when the owner sent it to themself, that is when its
/// destination equals the source. The reply always goes back to the source.
pub open spec fn spec_extract(env: EnvelopeV) -> Option<(Seq<char>, Seq<char>)> {
    match env.source_id {
        None => None,
        Some(src) => match env.direct_message {
            Some(direct) => match direct.text {
                Some(t) => Some((src, t)),
                None => None,
            },
            None => match env.self_sync_message {
                Some(sent) => if sent.destination == Some(src) {
                    match sent.text {
                        Some(t) => Some((src, t)),
                        None => None,
                    }
                } else {
                    None
                },
                None => None,
            },
        },
    }
}

impl Envelope {
    /// Runtime extraction for [`spec_extract`]: the source to reply to and the
    /// message text, or nothing when the event carries no usable text.
    pub fn extract_text(&self) -> (r: Option<(String, String)>)
        ensures
            (match r {
                Some(p) => spec_extract(self@) == Some((p.0@, p.1@)),
                None => spec_extract(self@) is None,
            }),
    {
        let src: &String = match &self.source_id {
            Some(s) => s,
            None => {
                return None;
            },
        };
        if let Some(direct) = &self.direct_message {
            match &direct.text {
                Some(t) => Some((src.clone(), t.clone())),
                None => None,
            }
        } else if let Some(sent) = &self.self_sync_message {
            match &sent.destination {
                Some(d) => {
                    if crate::text::str_eq(d.as_str(), src.as_str()) {
                        match &sent.text {
                            Some(t) => Some((src.clone(), t.clone())),
                            None => None,
                        }
                    } else {
                        None
                    }
                },
                None => None,
            }
        } else {
            None
        }
    }
}

/// A self-sync note addressed to a third party is not conversational input:
/// when the sent destination differs from the source (or is missing), and no
/// direct message is present, no text is extracted from the envelope.
pub proof fn lemma_foreign_sync_ignored(env: EnvelopeV)
    requires
        env.direct_message is None,
        env.self_sync_message matches Some(sent) ==> sent.destination != env.source_id
            || sent.destination is None,
    ensures
        spec_extract(env) is None,
{
}

} // verus!
