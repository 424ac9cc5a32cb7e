use agent_ops_room::message::{
    AckContent, Envelope, EnvelopeType, FindingContent, MicGrantPayload, MicRevokePayload,
    Payload, ProgressContent, ResultContent, ResultMessageType, ResultOutcome, ResultPayload,
    SayPayload, Sender, SenderKind,
};
use agent_ops_room::mic_grant::{MicGrantTracker, ValidationError};
use agent_ops_room::validator::{
    create_rejection, handle_candidate_message, handle_control_message, validate_message, Verdict,
};

fn grant_envelope(agent: &str, task: &str, max: u32, allowed: Vec<ResultMessageType>, expires_at: u64) -> Envelope {
    Envelope {
        id: format!("grant_{}", task),
        message_type: EnvelopeType::MicGrant,
        room_id: "r".to_string(),
        from: Sender { kind: SenderKind::Agent, id: "facilitator".to_string() },
        ts: 0,
        payload: Payload::MicGrant(MicGrantPayload {
            task_id: task.to_string(),
            agent_id: agent.to_string(),
            max_messages: max,
            allowed_message_types: allowed,
            expires_at,
        }),
    }
}

fn revoke_envelope(agent: &str, task: &str) -> Envelope {
    Envelope {
        id: format!("revoke_{}", task),
        message_type: EnvelopeType::MicRevoke,
        room_id: "r".to_string(),
        from: Sender { kind: SenderKind::Agent, id: "facilitator".to_string() },
        ts: 0,
        payload: Payload::MicRevoke(MicRevokePayload {
            task_id: task.to_string(),
            agent_id: agent.to_string(),
        }),
    }
}

fn candidate(id: &str, agent: &str, task: &str, content: ResultContent) -> Envelope {
    let message_type = match &content {
        ResultContent::Ack(_) => ResultMessageType::Ack,
        ResultContent::ClarifyingQuestion(_) => ResultMessageType::ClarifyingQuestion,
        ResultContent::Progress(_) => ResultMessageType::Progress,
        ResultContent::Finding(_) => ResultMessageType::Finding,
        ResultContent::Risk(_) => ResultMessageType::Risk,
        ResultContent::Result(_) => ResultMessageType::Result,
        ResultContent::ArtifactLink(_) => ResultMessageType::ArtifactLink,
    };
    Envelope {
        id: id.to_string(),
        message_type: EnvelopeType::Result,
        room_id: "r".to_string(),
        from: Sender { kind: SenderKind::Agent, id: agent.to_string() },
        ts: 0,
        payload: Payload::Result(ResultPayload { task_id: task.to_string(), message_type, content }),
    }
}

fn result(text: &str) -> ResultContent {
    ResultContent::Result(ResultOutcome { text: text.to_string() })
}

fn progress(text: &str) -> ResultContent {
    ResultContent::Progress(ProgressContent { text: text.to_string() })
}

fn all_kinds() -> Vec<ResultMessageType> {
    ResultMessageType::all_kinds()
}

fn rejection_reason(v: &Verdict) -> (String, String, String) {
    match v {
        Verdict::Rejected(e) => match &e.payload {
            Payload::Reject(p) => (p.message_id.clone(), p.task_id.clone(), p.reason.clone()),
            _ => panic!("rejection without a reject payload"),
        },
        Verdict::Approved => panic!("approved"),
    }
}

#[test]
fn rejection_for_no_grant() {
    let mut tracker = MicGrantTracker::new();
    let c = candidate("m1", "math", "task_9", result("hi"));
    let v = handle_candidate_message(&c, &mut tracker, 100);
    assert_eq!(
        rejection_reason(&v),
        ("m1".to_string(), "task_9".to_string(), "no_mic_grant".to_string())
    );
    if let Verdict::Rejected(e) = &v {
        assert_eq!(e.id, "reject_m1");
        assert_eq!(e.message_type, EnvelopeType::Reject);
        assert_eq!(e.from.kind, SenderKind::System);
        assert_eq!(e.from.id, "gateway");
        assert_eq!(e.room_id, "r");
        assert_eq!(e.ts, 100);
    }
}

#[test]
fn over_limit_third_progress_rejected() {
    let mut tracker = MicGrantTracker::new();
    handle_control_message(&grant_envelope("math", "task_0", 2, all_kinds(), 1000), &mut tracker);
    let v1 = handle_candidate_message(&candidate("p1", "math", "task_0", progress("a")), &mut tracker, 10);
    let v2 = handle_candidate_message(&candidate("p2", "math", "task_0", progress("b")), &mut tracker, 10);
    let v3 = handle_candidate_message(&candidate("p3", "math", "task_0", progress("c")), &mut tracker, 10);
    assert!(matches!(v1, Verdict::Approved));
    assert!(matches!(v2, Verdict::Approved));
    assert_eq!(rejection_reason(&v3).2, "message_limit_exceeded");
    assert_eq!(tracker.grant_for("math", "task_0").unwrap().messages_sent, 2);
}

#[test]
fn expired_grant_rejected() {
    let now = 5000;
    let mut tracker = MicGrantTracker::new();
    handle_control_message(&grant_envelope("math", "task_0", 10, all_kinds(), now + 1), &mut tracker);
    let at_expiry = validate_message(&candidate("r0", "math", "task_0", result("early")), &mut tracker, now + 1);
    assert_eq!(at_expiry, Ok(()));
    let v = handle_candidate_message(&candidate("r1", "math", "task_0", result("late")), &mut tracker, now + 2);
    assert_eq!(rejection_reason(&v).2, "mic_grant_expired");
}

#[test]
fn disallowed_type_rejected() {
    let mut tracker = MicGrantTracker::new();
    handle_control_message(
        &grant_envelope("math", "task_0", 10, vec![ResultMessageType::Ack, ResultMessageType::Result], 1000),
        &mut tracker,
    );
    let finding = ResultContent::Finding(FindingContent { bullets: None, text: Some("x".to_string()) });
    let v = handle_candidate_message(&candidate("f1", "math", "task_0", finding), &mut tracker, 10);
    assert_eq!(rejection_reason(&v).2, "message_type_not_allowed");
    let ack = ResultContent::Ack(AckContent { text: "ok".to_string() });
    assert!(matches!(
        handle_candidate_message(&candidate("a1", "math", "task_0", ack), &mut tracker, 10),
        Verdict::Approved
    ));
}

#[test]
fn revoke_ends_the_grant() {
    let mut tracker = MicGrantTracker::new();
    handle_control_message(&grant_envelope("math", "task_0", 10, all_kinds(), 1000), &mut tracker);
    assert!(matches!(
        handle_candidate_message(&candidate("a", "math", "task_0", result("4")), &mut tracker, 10),
        Verdict::Approved
    ));
    handle_control_message(&revoke_envelope("math", "task_0"), &mut tracker);
    assert!(tracker.grant_for("math", "task_0").is_none());
    let v = handle_candidate_message(&candidate("b", "math", "task_0", result("5")), &mut tracker, 11);
    assert_eq!(rejection_reason(&v).2, "no_mic_grant");
}

#[test]
fn grant_is_per_agent_and_task() {
    let mut tracker = MicGrantTracker::new();
    tracker.grant(MicGrantPayload {
        task_id: "task_0".to_string(),
        agent_id: "math".to_string(),
        max_messages: 1,
        allowed_message_types: all_kinds(),
        expires_at: 100,
    });
    assert_eq!(tracker.validate("web", "task_0", "result", 1), Err(ValidationError::NoMicGrant));
    assert_eq!(tracker.validate("math", "task_1", "result", 1), Err(ValidationError::NoMicGrant));
    assert_eq!(tracker.validate("math", "task_0", "bogus", 1), Err(ValidationError::MessageTypeNotAllowed));
    assert_eq!(tracker.validate("math", "task_0", "clarifying_question", 1), Ok(()));
    assert_eq!(tracker.validate("math", "task_0", "result", 1), Err(ValidationError::MessageLimitExceeded));
}

#[test]
fn regrant_resets_counter() {
    let mut tracker = MicGrantTracker::new();
    let payload = || MicGrantPayload {
        task_id: "t".to_string(),
        agent_id: "a".to_string(),
        max_messages: 1,
        allowed_message_types: all_kinds(),
        expires_at: 100,
    };
    tracker.grant(payload());
    assert_eq!(tracker.validate("a", "t", "ack", 1), Ok(()));
    assert_eq!(tracker.validate("a", "t", "ack", 1), Err(ValidationError::MessageLimitExceeded));
    tracker.grant(payload());
    assert_eq!(tracker.grant_for("a", "t").unwrap().messages_sent, 0);
    assert_eq!(tracker.validate("a", "t", "ack", 1), Ok(()));
    tracker.revoke("a", "t");
    tracker.revoke("a", "t");
    assert!(tracker.grant_for("a", "t").is_none());
}

#[test]
fn non_result_candidate_rejected_as_type_not_allowed() {
    let mut tracker = MicGrantTracker::new();
    handle_control_message(&grant_envelope("math", "task_0", 10, all_kinds(), 1000), &mut tracker);
    let say = Envelope {
        id: "s1".to_string(),
        message_type: EnvelopeType::Say,
        room_id: "r".to_string(),
        from: Sender { kind: SenderKind::Agent, id: "math".to_string() },
        ts: 0,
        payload: Payload::Say(SayPayload { text: "hi".to_string() }),
    };
    let v = handle_candidate_message(&say, &mut tracker, 10);
    assert_eq!(rejection_reason(&v), ("s1".to_string(), String::new(), "message_type_not_allowed".to_string()));
    let mut malformed = candidate("m2", "math", "task_0", result("x"));
    malformed.payload = Payload::Other;
    assert_eq!(validate_message(&malformed, &mut tracker, 10), Err(ValidationError::MessageTypeNotAllowed));
}

#[test]
fn reason_codes() {
    assert_eq!(ValidationError::NoMicGrant.as_str(), "no_mic_grant");
    assert_eq!(ValidationError::MicGrantExpired.as_str(), "mic_grant_expired");
    assert_eq!(ValidationError::MessageTypeNotAllowed.as_str(), "message_type_not_allowed");
    assert_eq!(ValidationError::MessageLimitExceeded.as_str(), "message_limit_exceeded");
    let c = candidate("x", "math", "task_3", result("r"));
    let rej = create_rejection(&c, "no_mic_grant", 7);
    assert_eq!(rej.id, "reject_x");
}
