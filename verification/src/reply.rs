//! Building the outbound reply for one finished analysis: trimming,
//! truncation to the transport's size limit, and the failure text.

use crate::text::{spec_trim, trim_text};
use vstd::prelude::*;

verus! {

/// Longest reply text sent unchanged; longer pipeline output is cut here.
pub const MAX_REPLY_CHARS: usize = 3000;

/// What one reply text is, given trimmed pipeline output: cut to
/// [`MAX_REPLY_CHARS`] characters with a marker appended when over the
/// limit, unchanged otherwise.
pub open spec fn spec_truncate(s: Seq<char>) -> Seq<char> {
    if s.len() > MAX_REPLY_CHARS {
        s.subrange(0, MAX_REPLY_CHARS as int) + "...\n\n(truncated)"@
    } else {
        s
    }
}

/// Runtime counterpart of [`spec_truncate`].
pub fn truncate_reply(s: &str) -> (r: String)
    ensures
        r@ == spec_truncate(s@),
{
    let n: usize = s.unicode_len();
    if n > MAX_REPLY_CHARS {
        let mut out = s.substring_char(0, MAX_REPLY_CHARS).to_owned();
        out.append("...\n\n(truncated)");
        out
    } else {
        s.to_owned()
    }
}

/// What one invocation of the analysis pipeline came to: its summary text,
/// or the diagnostic text of a failed run.
pub enum PipelineOutcome {
    Success(String),
    Failure(String),
}

#[verifier::ext_equal]
pub enum PipelineOutcomeV {
    Success(Seq<char>),
    Failure(Seq<char>),
}

impl View for PipelineOutcome {
    type V = PipelineOutcomeV;

    open spec fn view(&self) -> PipelineOutcomeV {
        match self {
            PipelineOutcome::Success(t) => PipelineOutcomeV::Success(t@),
            PipelineOutcome::Failure(e) => PipelineOutcomeV::Failure(e@),
        }
    }
}

/// One reply on its way to the serializer.
pub struct OutboundReply {
    pub destination: String,
    pub text: String,
}

#[verifier::ext_equal]
pub struct OutboundReplyV {
    pub destination: Seq<char>,
    pub text: Seq<char>,
}

impl View for OutboundReply {
    type V = OutboundReplyV;

    open spec fn view(&self) -> OutboundReplyV {
        OutboundReplyV { destination: self.destination@, text: self.text@ }
    }
}

/// The reply text owed for an outcome: trimmed and truncated summary on
/// success; on failure the trimmed diagnostic behind a fixed prefix, so the
/// requester always hears back.
pub open spec fn spec_reply_text(out: PipelineOutcomeV) -> Seq<char> {
    match out {
        PipelineOutcomeV::Success(t) => spec_truncate(spec_trim(t)),
        PipelineOutcomeV::Failure(e) => "Opencode Failed: "@ + spec_trim(e),
    }
}

/// Builds the reply owed to `destination` for `outcome`.
pub fn build_reply(destination: String, outcome: &PipelineOutcome) -> (r: OutboundReply)
    ensures
        r.destination@ == destination@,
        r.text@ == spec_reply_text(outcome@),
{
    let text: String = match outcome {
        PipelineOutcome::Success(t) => {
            let trimmed = trim_text(t.as_str());
            truncate_reply(trimmed.as_str())
        },
        PipelineOutcome::Failure(e) => {
            let mut msg = String::from_str("Opencode Failed: ");
            let trimmed = trim_text(e.as_str());
            msg.append(trimmed.as_str());
            msg
        },
    };
    OutboundReply { destination, text }
}

/// Truncation law: text over the limit becomes exactly its first
/// [`MAX_REPLY_CHARS`] characters followed by the truncation marker; text at
/// or under the limit passes unchanged.
pub proof fn lemma_truncation(s: Seq<char>)
    ensures
        s.len() > MAX_REPLY_CHARS ==> spec_truncate(s) == s.subrange(
            0,
            MAX_REPLY_CHARS as int,
        ) + "...\n\n(truncated)"@,
        s.len() <= MAX_REPLY_CHARS ==> spec_truncate(s) == s,
{
}

/// Size law: a successful reply never outgrows the limit plus the marker,
/// whatever the pipeline produced — the transport's size constraint holds.
pub proof fn lemma_reply_size_bounded(t: Seq<char>)
    ensures
        spec_reply_text(PipelineOutcomeV::Success(t)).len() <= MAX_REPLY_CHARS
            + "...\n\n(truncated)"@.len(),
{
}

/// Failure law: a failed pipeline run still yields a reply, and its text
/// carries the trimmed diagnostic behind the failure prefix.
pub proof fn lemma_failure_reply_describes(e: Seq<char>)
    ensures
        spec_reply_text(PipelineOutcomeV::Failure(e)) == "Opencode Failed: "@ + spec_trim(e),
        spec_reply_text(PipelineOutcomeV::Failure(e)).len() >= spec_trim(e).len(),
{
}

} // verus!
