use brainrot_relay::reply::{build_reply, truncate_reply, PipelineOutcome, MAX_REPLY_CHARS};

#[test]
fn output_at_the_limit_is_unchanged() {
    let exact = "a".repeat(MAX_REPLY_CHARS);
    assert_eq!(truncate_reply(&exact), exact);
}

#[test]
fn output_one_over_the_limit_is_cut_with_marker() {
    let over = "a".repeat(MAX_REPLY_CHARS + 1);
    let expected = format!("{}...\n\n(truncated)", "a".repeat(MAX_REPLY_CHARS));
    assert_eq!(truncate_reply(&over), expected);
}

#[test]
fn successful_reply_is_trimmed_then_truncated() {
    let reply = build_reply(
        "+1555".to_string(),
        &PipelineOutcome::Success("  funny video \n".to_string()),
    );
    assert_eq!(reply.destination, "+1555");
    assert_eq!(reply.text, "funny video");

    let long = format!("  {}  ", "b".repeat(MAX_REPLY_CHARS + 5));
    let reply = build_reply("+1555".to_string(), &PipelineOutcome::Success(long));
    let expected = format!("{}...\n\n(truncated)", "b".repeat(MAX_REPLY_CHARS));
    assert_eq!(reply.text, expected);
}

#[test]
fn failed_run_still_yields_a_reply() {
    let reply = build_reply(
        "+1555".to_string(),
        &PipelineOutcome::Failure("network unreachable\n".to_string()),
    );
    assert_eq!(reply.destination, "+1555");
    assert_eq!(reply.text, "Opencode Failed: network unreachable");
    assert!(reply.text.contains("network unreachable"));
}
