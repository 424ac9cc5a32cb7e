use agent_ops_room::json::{JsonValue, Member};
use agent_ops_room::message::{
    ArtifactLinkContent, Envelope, EnvelopeType, FindingContent, HeartbeatPayload,
    MicGrantPayload, Payload, ResultContent, ResultMessageType, ResultPayload, RiskContent,
    SayPayload, Sender, SenderKind, TaskPayload,
};

fn envelope(t: EnvelopeType, payload: Payload) -> Envelope {
    Envelope {
        id: "e1".to_string(),
        message_type: t,
        room_id: "r".to_string(),
        from: Sender { kind: SenderKind::Agent, id: "math".to_string() },
        ts: 42,
        payload,
    }
}

fn object(members: Vec<(&str, JsonValue)>) -> JsonValue {
    JsonValue::Object(
        members.into_iter().map(|(k, v)| Member { key: k.to_string(), value: v }).collect(),
    )
}

fn s(text: &str) -> JsonValue {
    JsonValue::Str(text.to_string())
}

fn member<'a>(v: &'a JsonValue, key: &str) -> &'a JsonValue {
    match v {
        JsonValue::Object(es) => &es.iter().find(|m| m.key == key).expect("member").value,
        _ => panic!("not an object"),
    }
}

#[test]
fn round_trip_task() {
    let e = envelope(
        EnvelopeType::Task,
        Payload::Task(TaskPayload {
            task_id: "task_0".to_string(),
            goal: "compute 2+2".to_string(),
            format: None,
            deadline: Some(342),
        }),
    );
    let v = e.to_json();
    assert!(matches!(member(&v, "type"), JsonValue::Str(t) if t == "task"));
    let d = Envelope::from_json(&v).expect("decodes");
    assert_eq!(d.id, "e1");
    assert_eq!(d.message_type, EnvelopeType::Task);
    assert_eq!(d.from.kind, SenderKind::Agent);
    assert_eq!(d.ts, 42);
    match d.payload {
        Payload::Task(t) => {
            assert_eq!(t.task_id, "task_0");
            assert_eq!(t.goal, "compute 2+2");
            assert_eq!(t.format, None);
            assert_eq!(t.deadline, Some(342));
        }
        _ => panic!("payload lost"),
    }
}

#[test]
fn round_trip_grant_and_results() {
    let g = envelope(
        EnvelopeType::MicGrant,
        Payload::MicGrant(MicGrantPayload {
            task_id: "task_1".to_string(),
            agent_id: "math".to_string(),
            max_messages: 2,
            allowed_message_types: vec![ResultMessageType::Ack, ResultMessageType::ArtifactLink],
            expires_at: 99,
        }),
    );
    match Envelope::from_json(&g.to_json()).unwrap().payload {
        Payload::MicGrant(p) => {
            assert_eq!(p.max_messages, 2);
            assert_eq!(
                p.allowed_message_types,
                vec![ResultMessageType::Ack, ResultMessageType::ArtifactLink]
            );
            assert_eq!(p.expires_at, 99);
        }
        _ => panic!("payload lost"),
    }
    let contents = vec![
        ResultContent::Finding(FindingContent {
            bullets: Some(vec!["a".to_string(), "b".to_string()]),
            text: None,
        }),
        ResultContent::Risk(RiskContent {
            text: "careful".to_string(),
            severity: Some("high".to_string()),
            mitigation: None,
        }),
        ResultContent::ArtifactLink(ArtifactLinkContent {
            label: "doc".to_string(),
            url: "http://x".to_string(),
        }),
    ];
    for content in contents {
        let kind = match &content {
            ResultContent::Finding(_) => ResultMessageType::Finding,
            ResultContent::Risk(_) => ResultMessageType::Risk,
            _ => ResultMessageType::ArtifactLink,
        };
        let e = envelope(
            EnvelopeType::Result,
            Payload::Result(ResultPayload { task_id: "t".to_string(), message_type: kind, content }),
        );
        let d = Envelope::from_json(&e.to_json()).unwrap();
        match (d.payload, e.payload) {
            (Payload::Result(x), Payload::Result(y)) => {
                assert_eq!(x.message_type, y.message_type);
                assert_eq!(format!("{:?}", x.content), format!("{:?}", y.content));
            }
            _ => panic!("payload lost"),
        }
    }
}

#[test]
fn unknown_members_ignored() {
    let v = object(vec![
        ("extra", JsonValue::Bool(true)),
        ("id", s("m1")),
        ("type", s("say")),
        ("room_id", s("r")),
        ("from", object(vec![("kind", s("user")), ("id", s("alice")), ("x", JsonValue::Null)])),
        ("ts", JsonValue::Number(7)),
        ("payload", object(vec![("text", s("hello")), ("lang", s("en"))])),
    ]);
    let e = Envelope::from_json(&v).expect("decodes");
    assert_eq!(e.from.id, "alice");
    assert_eq!(e.from.kind, SenderKind::User);
    match e.payload {
        Payload::Say(SayPayload { text }) => assert_eq!(text, "hello"),
        _ => panic!("payload lost"),
    }
}

#[test]
fn missing_required_member_rejected() {
    let v = object(vec![
        ("id", s("m1")),
        ("type", s("say")),
        ("room_id", s("r")),
        ("ts", JsonValue::Number(7)),
        ("payload", object(vec![("text", s("hello"))])),
    ]);
    assert!(Envelope::from_json(&v).is_none());
    let bad_type = object(vec![
        ("id", s("m1")),
        ("type", s("shout")),
        ("room_id", s("r")),
        ("from", object(vec![("kind", s("user")), ("id", s("alice"))])),
        ("ts", JsonValue::Number(7)),
        ("payload", JsonValue::Null),
    ]);
    assert!(Envelope::from_json(&bad_type).is_none());
}

#[test]
fn payload_of_wrong_shape_reads_as_other() {
    let v = object(vec![
        ("id", s("m1")),
        ("type", s("result")),
        ("room_id", s("r")),
        ("from", object(vec![("kind", s("agent")), ("id", s("math"))])),
        ("ts", JsonValue::Number(7)),
        ("payload", object(vec![("task_id", s("t")), ("message_type", s("progress")), ("content", object(vec![("question", s("?"))]))])),
    ]);
    let e = Envelope::from_json(&v).expect("decodes");
    assert!(matches!(e.payload, Payload::Other));
    let h = envelope(EnvelopeType::Heartbeat, Payload::Heartbeat(HeartbeatPayload { ts: 5, description: None }));
    let hv = h.to_json();
    assert!(matches!(member(member(&hv, "payload"), "description"), JsonValue::Null));
    assert!(matches!(Envelope::from_json(&hv).unwrap().payload, Payload::Heartbeat(HeartbeatPayload { ts: 5, description: None })));
}
