use brainrot_relay::channel::ReplyChannel;
use brainrot_relay::reply::OutboundReply;

fn reply(dest: &str, text: &str) -> OutboundReply {
    OutboundReply { destination: dest.to_string(), text: text.to_string() }
}

#[test]
fn dequeue_returns_replies_in_receipt_order() {
    let mut ch = ReplyChannel::new(8);
    assert!(ch.try_enqueue(reply("+1", "first")).is_ok());
    assert!(ch.try_enqueue(reply("+2", "second")).is_ok());
    assert_eq!(ch.dequeue().unwrap().text, "first");
    assert_eq!(ch.dequeue().unwrap().text, "second");
    assert!(ch.dequeue().is_none());
}

#[test]
fn a_full_channel_hands_the_reply_back() {
    let mut ch = ReplyChannel::new(1);
    assert!(ch.try_enqueue(reply("+1", "kept")).is_ok());
    let back = ch.try_enqueue(reply("+2", "waits")).expect_err("channel is full");
    assert_eq!(back.destination, "+2");
    assert_eq!(back.text, "waits");
    assert_eq!(ch.len(), 1);
    assert_eq!(ch.dequeue().unwrap().text, "kept");
}

#[test]
fn three_tasks_make_exactly_three_writes() {
    let mut ch = ReplyChannel::new(4);
    assert!(ch.try_enqueue(reply("+1", "one")).is_ok());
    assert!(ch.try_enqueue(reply("+2", "two")).is_ok());
    assert!(ch.try_enqueue(reply("+3", "three")).is_ok());
    let lines = ch.drain_lines();
    assert_eq!(lines.len(), 3);
    assert_eq!(ch.len(), 0);
    let mut stream = String::new();
    for (line, text) in lines.iter().zip(["one", "two", "three"]) {
        assert!(line.ends_with('\n'));
        assert!(!line[..line.len() - 1].contains('\n'));
        assert!(line.contains(text));
        stream.push_str(line);
    }
    assert_eq!(stream.lines().count(), 3);
}
