use brainrot_relay::link::Platform;
use brainrot_relay::relay::relay_step;
use brainrot_relay::reply::{build_reply, PipelineOutcome};
use brainrot_relay::wire::reply_line;

#[test]
fn receive_with_tiktok_link_dispatches_and_replies() {
    let line = "{\"method\":\"receive\",\"params\":{\"envelope\":{\"sourceNumber\":\"+1555\",\"dataMessage\":{\"message\":\"check this https://vm.tiktok.com/ZMabc/ out\"}}}}";
    let (source, link) = relay_step(line).expect("one dispatch expected");
    assert_eq!(source, "+1555");
    assert_eq!(link.platform, Platform::TikTok);
    assert_eq!(link.url, "https://vm.tiktok.com/ZMabc/");

    let reply = build_reply(source, &PipelineOutcome::Success("funny video".to_string()));
    let wire = reply_line(&reply);
    assert_eq!(
        wire,
        "{\"jsonrpc\":\"2.0\",\"method\":\"send\",\"params\":{\"recipient\":[\"+1555\"],\"message\":\"funny video\"},\"id\":\"100\"}\n"
    );
}

#[test]
fn line_without_url_dispatches_nothing() {
    let line = "{\"method\":\"receive\",\"params\":{\"envelope\":{\"sourceNumber\":\"+1555\",\"dataMessage\":{\"message\":\"no links here\"}}}}";
    assert!(relay_step(line).is_none());
}

#[test]
fn malformed_line_dispatches_nothing() {
    assert!(relay_step("garbage ]][[").is_none());
    assert!(relay_step("").is_none());
}

#[test]
fn other_method_dispatches_nothing() {
    let line = "{\"method\":\"sendSyncRequest\",\"params\":{\"envelope\":{\"sourceNumber\":\"+1555\",\"dataMessage\":{\"message\":\"https://vm.tiktok.com/ZMabc/\"}}}}";
    assert!(relay_step(line).is_none());
}

#[test]
fn foreign_sync_note_dispatches_nothing() {
    let line = "{\"method\":\"receive\",\"params\":{\"envelope\":{\"sourceNumber\":\"+1\",\"syncMessage\":{\"sentMessage\":{\"destination\":\"+2\",\"message\":\"https://vm.tiktok.com/ZMabc/\"}}}}}";
    assert!(relay_step(line).is_none());
}

#[test]
fn self_note_with_link_dispatches() {
    let line = "{\"method\":\"receive\",\"params\":{\"envelope\":{\"sourceNumber\":\"+1\",\"syncMessage\":{\"sentMessage\":{\"destination\":\"+1\",\"message\":\"https://www.instagram.com/reel/xyz/\"}}}}}";
    let (source, link) = relay_step(line).expect("one dispatch expected");
    assert_eq!(source, "+1");
    assert_eq!(link.platform, Platform::Instagram);
    assert_eq!(link.url, "https://www.instagram.com/reel/xyz/");
}

#[test]
fn failed_pipeline_still_answers_the_source() {
    let line = "{\"method\":\"receive\",\"params\":{\"envelope\":{\"sourceNumber\":\"+1555\",\"dataMessage\":{\"message\":\"https://vm.tiktok.com/ZMabc/\"}}}}";
    let (source, _link) = relay_step(line).expect("one dispatch expected");
    let reply = build_reply(source, &PipelineOutcome::Failure("network unreachable".to_string()));
    let wire = reply_line(&reply);
    assert!(wire.contains("network unreachable"));
    assert!(wire.contains("\"recipient\":[\"+1555\"]"));
    assert!(wire.ends_with('\n'));
}
