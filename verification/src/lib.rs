//! A concurrent event-relay engine for a line-delimited chat stream: it
//! decodes each incoming notification, looks for a shared video link,
//! decides what analysis to dispatch, and serializes every outbound reply
//! through one bounded channel as single unbroken wire lines.
//!
//! Every decision — decoding, classification, the self-sync rule, reply
//! truncation, the wire format, the channel's FIFO discipline — is stated
//! in contracts and verified. The process around it (the transport
//! subprocess, the analysis pipeline, all I/O) lives outside the library
//! and only carries values to and from it.

pub mod channel;
pub mod decode;
pub mod event;
pub mod link;
pub mod relay;
pub mod reply;
pub mod text;
pub mod wire;
