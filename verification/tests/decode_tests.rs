use brainrot_relay::decode::decode_line;
use brainrot_relay::event::InboundEvent;

#[test]
fn malformed_line_decodes_to_nothing() {
    assert!(decode_line("not json at all").is_none());
    assert!(decode_line("{\"method\":\"receive\"").is_none());
    assert!(decode_line("[1,2,").is_none());
}

#[test]
fn blank_line_decodes_to_nothing() {
    assert!(decode_line("").is_none());
    assert!(decode_line("   \t  ").is_none());
}

#[test]
fn other_method_is_not_receive() {
    let ev = decode_line("{\"method\":\"listGroups\",\"params\":{}}").unwrap();
    assert!(matches!(ev, InboundEvent::Other));
    let ev = decode_line("{\"jsonrpc\":\"2.0\",\"result\":[],\"id\":\"5\"}").unwrap();
    assert!(matches!(ev, InboundEvent::Other));
}

#[test]
fn receive_without_envelope_keeps_nothing() {
    let ev = decode_line("{\"method\":\"receive\"}").unwrap();
    match ev {
        InboundEvent::Receive(env) => assert!(env.is_none()),
        InboundEvent::Other => panic!("expected a receive event"),
    }
    let ev = decode_line("{\"method\":\"receive\",\"params\":{}}").unwrap();
    match ev {
        InboundEvent::Receive(env) => assert!(env.is_none()),
        InboundEvent::Other => panic!("expected a receive event"),
    }
}

#[test]
fn direct_message_fields_are_decoded() {
    let line = "{\"method\":\"receive\",\"params\":{\"envelope\":{\"sourceNumber\":\"+1555\",\"dataMessage\":{\"message\":\"hi\"}}}}";
    let ev = decode_line(line).unwrap();
    let env = match ev {
        InboundEvent::Receive(Some(env)) => env,
        _ => panic!("expected an envelope"),
    };
    assert_eq!(env.source_id.as_deref(), Some("+1555"));
    assert_eq!(env.direct_message.as_ref().unwrap().text.as_deref(), Some("hi"));
    assert!(env.self_sync_message.is_none());
}

#[test]
fn source_uuid_is_the_fallback() {
    let line = "{\"method\":\"receive\",\"params\":{\"envelope\":{\"sourceUuid\":\"ab-12\",\"dataMessage\":{\"message\":\"hi\"}}}}";
    let ev = decode_line(line).unwrap();
    let env = match ev {
        InboundEvent::Receive(Some(env)) => env,
        _ => panic!("expected an envelope"),
    };
    assert_eq!(env.source_id.as_deref(), Some("ab-12"));

    let line = "{\"method\":\"receive\",\"params\":{\"envelope\":{\"sourceNumber\":\"+1\",\"sourceUuid\":\"ab-12\"}}}";
    let ev = decode_line(line).unwrap();
    let env = match ev {
        InboundEvent::Receive(Some(env)) => env,
        _ => panic!("expected an envelope"),
    };
    assert_eq!(env.source_id.as_deref(), Some("+1"));
}

#[test]
fn sync_message_fields_are_decoded() {
    let line = "{\"method\":\"receive\",\"params\":{\"envelope\":{\"sourceNumber\":\"+1\",\"syncMessage\":{\"sentMessage\":{\"destination\":\"+2\",\"message\":\"note\"}}}}}";
    let ev = decode_line(line).unwrap();
    let env = match ev {
        InboundEvent::Receive(Some(env)) => env,
        _ => panic!("expected an envelope"),
    };
    let sent = env.self_sync_message.unwrap();
    assert_eq!(sent.destination.as_deref(), Some("+2"));
    assert_eq!(sent.text.as_deref(), Some("note"));
}

#[test]
fn extract_prefers_direct_message() {
    let line = "{\"method\":\"receive\",\"params\":{\"envelope\":{\"sourceNumber\":\"+1\",\"dataMessage\":{\"message\":\"direct\"},\"syncMessage\":{\"sentMessage\":{\"destination\":\"+1\",\"message\":\"note\"}}}}}";
    let ev = decode_line(line).unwrap();
    let env = match ev {
        InboundEvent::Receive(Some(env)) => env,
        _ => panic!("expected an envelope"),
    };
    let (source, text) = env.extract_text().unwrap();
    assert_eq!(source, "+1");
    assert_eq!(text, "direct");
}

#[test]
fn self_note_counts_when_destination_is_the_source() {
    let line = "{\"method\":\"receive\",\"params\":{\"envelope\":{\"sourceNumber\":\"+1\",\"syncMessage\":{\"sentMessage\":{\"destination\":\"+1\",\"message\":\"note\"}}}}}";
    let ev = decode_line(line).unwrap();
    let env = match ev {
        InboundEvent::Receive(Some(env)) => env,
        _ => panic!("expected an envelope"),
    };
    let (source, text) = env.extract_text().unwrap();
    assert_eq!(source, "+1");
    assert_eq!(text, "note");
}

#[test]
fn foreign_sync_note_yields_no_text() {
    let line = "{\"method\":\"receive\",\"params\":{\"envelope\":{\"sourceNumber\":\"+1\",\"syncMessage\":{\"sentMessage\":{\"destination\":\"+2\",\"message\":\"note\"}}}}}";
    let ev = decode_line(line).unwrap();
    let env = match ev {
        InboundEvent::Receive(Some(env)) => env,
        _ => panic!("expected an envelope"),
    };
    assert!(env.extract_text().is_none());
}

#[test]
fn envelope_without_source_is_unusable() {
    let line = "{\"method\":\"receive\",\"params\":{\"envelope\":{\"dataMessage\":{\"message\":\"hi\"}}}}";
    let ev = decode_line(line).unwrap();
    let env = match ev {
        InboundEvent::Receive(Some(env)) => env,
        _ => panic!("expected an envelope"),
    };
    assert!(env.extract_text().is_none());
}
