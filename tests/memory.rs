use agent_ops_room::memory::MessageHistory;
use agent_ops_room::message::{
    Envelope, EnvelopeType, Payload, ProgressContent, ResultContent, ResultMessageType,
    ResultPayload, SayPayload, Sender, SenderKind,
};

fn say(id: &str, from: &str, kind: SenderKind, text: &str, ts: u64) -> Envelope {
    Envelope {
        id: id.to_string(),
        message_type: EnvelopeType::Say,
        room_id: "test".to_string(),
        from: Sender { kind, id: from.to_string() },
        ts,
        payload: Payload::Say(SayPayload { text: text.to_string() }),
    }
}

#[test]
fn test_message_history_capacity() {
    let mut history = MessageHistory::new(3);
    for i in 0..5 {
        let envelope = say(
            &format!("msg_{}", i),
            "user1",
            SenderKind::User,
            &format!("Message {}", i),
            i as u64,
        );
        history.add(envelope);
    }
    assert_eq!(history.len(), 3);
}

#[test]
fn oldest_envelope_leaves_first() {
    let mut history = MessageHistory::new(2);
    history.add(say("a", "u", SenderKind::User, "one", 1));
    history.add(say("b", "u", SenderKind::User, "two", 2));
    history.add(say("c", "u", SenderKind::User, "three", 3));
    assert!(!history.contains_id("a"));
    assert!(history.contains_id("b"));
    assert!(history.contains_id("c"));
    let msgs = history.to_chat_messages();
    assert_eq!(msgs.len(), 2);
    assert_eq!(msgs[0].content.as_deref(), Some("u: two"));
    assert_eq!(msgs[1].content.as_deref(), Some("u: three"));
}

#[test]
fn zero_capacity_keeps_latest() {
    let mut history = MessageHistory::new(0);
    assert!(history.is_empty());
    history.add(say("a", "u", SenderKind::User, "one", 1));
    history.add(say("b", "u", SenderKind::User, "two", 2));
    assert_eq!(history.len(), 1);
    assert!(history.contains_id("b"));
}

#[test]
fn chat_roles_and_result_text() {
    let mut history = MessageHistory::default();
    history.add(say("a", "alice", SenderKind::User, "hello", 1));
    history.add(Envelope {
        id: "r1".to_string(),
        message_type: EnvelopeType::Result,
        room_id: "test".to_string(),
        from: Sender { kind: SenderKind::Agent, id: "math".to_string() },
        ts: 2,
        payload: Payload::Result(ResultPayload {
            task_id: "task_0".to_string(),
            message_type: ResultMessageType::Progress,
            content: ResultContent::Progress(ProgressContent { text: "half way".to_string() }),
        }),
    });
    history.add(say("s", "gateway", SenderKind::System, "note", 3));
    history.add(Envelope {
        id: "h".to_string(),
        message_type: EnvelopeType::Heartbeat,
        room_id: "test".to_string(),
        from: Sender { kind: SenderKind::Agent, id: "math".to_string() },
        ts: 4,
        payload: Payload::Other,
    });
    let msgs = history.to_chat_messages();
    assert_eq!(msgs.len(), 3);
    assert_eq!(msgs[0].role, "user");
    assert_eq!(msgs[0].content.as_deref(), Some("alice: hello"));
    assert_eq!(msgs[1].role, "assistant");
    assert_eq!(msgs[1].content.as_deref(), Some("math: half way"));
    assert_eq!(msgs[2].role, "user");
    assert!(msgs[2].tool_calls.is_none());
}
