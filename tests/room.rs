use agent_ops_room::config::FacilitatorConfig;
use agent_ops_room::facilitator::Facilitator;
use agent_ops_room::llm::{FunctionCall, ResponseMessage, ToolCall};
use agent_ops_room::message::{
    Envelope, EnvelopeType, HeartbeatPayload, Outgoing, Payload, ResultContent,
    ResultMessageType, ResultOutcome, SayPayload, Sender, SenderKind,
};
use agent_ops_room::mic_grant::MicGrantTracker;
use agent_ops_room::prompt::FacilitatorLlm;
use agent_ops_room::validator::{handle_candidate_message, handle_control_message, Verdict};
use agent_ops_room::worker::{Worker, WorkerTurn};

fn config() -> FacilitatorConfig {
    FacilitatorConfig {
        openai_api_key: "SECRET-REDACTED".to_string(),
        openai_model: "model".to_string(),
        openai_base_url: "http://localhost".to_string(),
        agent_heartbeat_timeout_secs: 30,
        mqtt_host: "localhost".to_string(),
        mqtt_port: 1883,
        mqtt_client_id_prefix: "aor".to_string(),
        mqtt_keep_alive_secs: 60,
        room_id: "r".to_string(),
        default_mic_duration_secs: 300,
        default_max_messages: 10,
    }
}

fn heartbeat(agent: &str, kind: SenderKind, description: Option<&str>, ts: u64) -> Envelope {
    Envelope {
        id: format!("hb_{}_{}", agent, ts),
        message_type: EnvelopeType::Heartbeat,
        room_id: "r".to_string(),
        from: Sender { kind, id: agent.to_string() },
        ts,
        payload: Payload::Heartbeat(HeartbeatPayload {
            ts,
            description: description.map(|d| d.to_string()),
        }),
    }
}

fn user_say(id: &str, user: &str, text: &str, ts: u64) -> Envelope {
    Envelope {
        id: id.to_string(),
        message_type: EnvelopeType::Say,
        room_id: "r".to_string(),
        from: Sender { kind: SenderKind::User, id: user.to_string() },
        ts,
        payload: Payload::Say(SayPayload { text: text.to_string() }),
    }
}

fn call(name: &str, arguments: &str) -> ToolCall {
    ToolCall {
        id: "call_1".to_string(),
        call_type: "function".to_string(),
        function: FunctionCall { name: name.to_string(), arguments: arguments.to_string() },
    }
}

fn result_text(o: &Outgoing) -> (ResultMessageType, String) {
    match &o.envelope.payload {
        Payload::Result(p) => match &p.content {
            ResultContent::Ack(a) => (p.message_type, a.text.clone()),
            ResultContent::Result(r) => (p.message_type, r.text.clone()),
            _ => panic!("unexpected content"),
        },
        _ => panic!("not a result"),
    }
}

#[test]
fn direct_reply_without_tool_calls() {
    let now = 1000;
    let mut f = Facilitator::from_config(&config(), "facilitator".to_string(), 50);
    f.on_heartbeat(&heartbeat("math", SenderKind::Agent, Some("arithmetic"), now), now);
    let step = f.on_public(user_say("m1", "alice", "hello", now), now);
    assert_eq!(step.outgoing.len(), 1);
    assert_eq!(step.outgoing[0].topic, "rooms/r/public");
    assert_eq!(result_text(&step.outgoing[0]).0, ResultMessageType::Ack);
    let agents = step.consult.expect("model consulted");
    let reply = ResponseMessage { content: Some("Hi! I can help coordinate tasks.".to_string()), tool_calls: None };
    let out = f.on_model_reply("m1", &reply, &agents, now);
    assert_eq!(out.len(), 1);
    assert_eq!(out[0].topic, "rooms/r/public");
    assert_eq!(out[0].envelope.message_type, EnvelopeType::Result);
    assert_eq!(
        result_text(&out[0]),
        (ResultMessageType::Result, "Hi! I can help coordinate tasks.".to_string())
    );
    assert_eq!(f.next_task_id(), 0);
}

#[test]
fn single_delegation_round_trip() {
    let now = 2000;
    let mut f = Facilitator::from_config(&config(), "facilitator".to_string(), 50);
    let mut tracker = MicGrantTracker::new();
    let mut worker = Worker::new("r".to_string(), "math".to_string(), "arithmetic".to_string(), 50);
    f.on_heartbeat(&heartbeat("math", SenderKind::Agent, Some("arithmetic"), now), now);
    let step = f.on_public(user_say("m1", "alice", "what is 2+2?", now), now);
    let agents = step.consult.expect("model consulted");
    assert_eq!(agents, vec![("math".to_string(), Some("arithmetic".to_string()))]);
    let reply = ResponseMessage {
        content: None,
        tool_calls: Some(vec![call("assign_to_math", "{\"goal\":\"compute 2+2\",\"reasoning\":\"math\"}")]),
    };
    let out = f.on_model_reply("m1", &reply, &agents, now);
    assert_eq!(out.len(), 2);
    assert_eq!(out[0].topic, "rooms/r/agents/math/inbox");
    match &out[0].envelope.payload {
        Payload::Task(t) => {
            assert_eq!(t.task_id, "task_0");
            assert_eq!(t.goal, "compute 2+2");
            assert_eq!(t.deadline, Some(now + 300));
        }
        _ => panic!("not a task"),
    }
    assert_eq!(out[1].topic, "rooms/r/control");
    match &out[1].envelope.payload {
        Payload::MicGrant(g) => {
            assert_eq!(g.task_id, "task_0");
            assert_eq!(g.agent_id, "math");
            assert_eq!(g.max_messages, 10);
            assert_eq!(g.expires_at, now + 300);
            assert_eq!(g.allowed_message_types.len(), 7);
        }
        _ => panic!("not a grant"),
    }
    handle_control_message(&out[1].envelope, &mut tracker);

    let start = worker.on_inbox(&out[0].envelope, now + 1).expect("task taken");
    assert_eq!(start.goal, "compute 2+2");
    assert_eq!(start.ack.topic, "rooms/r/public_candidates");
    let turn = Worker::next_turn(ResponseMessage { content: Some("4".to_string()), tool_calls: None });
    let text = match turn {
        WorkerTurn::Finish(t) => t,
        WorkerTurn::RunTools(_) => panic!("no tools were called"),
    };
    let fin = worker.result(&start.task_id, ResultContent::Result(ResultOutcome { text }), now + 2);
    assert_ne!(fin.envelope.id, start.ack.envelope.id);
    assert!(matches!(handle_candidate_message(&start.ack.envelope, &mut tracker, now + 1), Verdict::Approved));
    assert!(matches!(handle_candidate_message(&fin.envelope, &mut tracker, now + 2), Verdict::Approved));
    assert_eq!(tracker.grant_for("math", "task_0").unwrap().messages_sent, 2);

    let step2 = f.on_public(start.ack.envelope.clone(), now + 1);
    assert!(step2.outgoing.is_empty() && step2.consult.is_none());
    let step3 = f.on_public(fin.envelope.clone(), now + 2);
    assert_eq!(step3.outgoing[0].topic, "rooms/r/control");
    match &step3.outgoing[0].envelope.payload {
        Payload::MicRevoke(p) => {
            assert_eq!(p.task_id, "task_0");
            assert_eq!(p.agent_id, "math");
        }
        _ => panic!("not a revoke"),
    }
    assert_eq!(step3.outgoing[0].envelope.message_type, EnvelopeType::MicRevoke);
    handle_control_message(&step3.outgoing[0].envelope, &mut tracker);
    assert!(tracker.grant_for("math", "task_0").is_none());
}

#[test]
fn duplicate_say_engages_once() {
    let now = 10;
    let mut f = Facilitator::from_config(&config(), "facilitator".to_string(), 50);
    f.on_heartbeat(&heartbeat("math", SenderKind::Agent, None, now), now);
    let first = f.on_public(user_say("m1", "alice", "what is 2+2?", now), now);
    assert!(first.consult.is_some());
    let second = f.on_public(user_say("m1", "alice", "what is 2+2?", now), now);
    assert!(second.outgoing.is_empty());
    assert!(second.consult.is_none());
    assert_eq!(f.memory().len(), 1);
}

#[test]
fn no_active_agents_notice() {
    let mut f = Facilitator::from_config(&config(), "facilitator".to_string(), 50);
    f.on_heartbeat(&heartbeat("math", SenderKind::Agent, None, 0), 0);
    let step = f.on_public(user_say("m1", "alice", "hi", 100), 100);
    assert!(step.consult.is_none());
    assert_eq!(step.outgoing.len(), 1);
    assert_eq!(
        result_text(&step.outgoing[0]).1,
        "No agents are currently available to take this request."
    );
}

#[test]
fn system_and_self_heartbeats_not_routable() {
    let mut f = Facilitator::from_config(&config(), "facilitator".to_string(), 50);
    f.on_heartbeat(&heartbeat("gateway", SenderKind::System, Some("moderator"), 5), 5);
    f.on_heartbeat(&heartbeat("facilitator", SenderKind::Agent, None, 5), 5);
    assert!(f.registry().get_active_agents_at(5).is_empty());
}

#[test]
fn empty_goal_and_unknown_tool_skipped() {
    let now = 50;
    let mut f = Facilitator::from_config(&config(), "facilitator".to_string(), 50);
    f.on_heartbeat(&heartbeat("math", SenderKind::Agent, None, now), now);
    let step = f.on_public(user_say("m1", "bob", "do things", now), now);
    let agents = step.consult.unwrap();
    let reply = ResponseMessage {
        content: Some("ignored".to_string()),
        tool_calls: Some(vec![
            call("assign_to_math", "{\"goal\":\"\",\"reasoning\":\"x\"}"),
            call("assign_to_nobody", "{\"goal\":\"g\",\"reasoning\":\"x\"}"),
            call("assign_to_math", "not json"),
            call("assign_to_math", "{\"goal\":\"second\",\"reasoning\":\"x\"}"),
        ]),
    };
    let out = f.on_model_reply("m1", &reply, &agents, now);
    assert_eq!(out.len(), 2);
    match &out[0].envelope.payload {
        Payload::Task(t) => {
            assert_eq!(t.task_id, "task_0");
            assert_eq!(t.goal, "second");
        }
        _ => panic!("not a task"),
    }
    assert_eq!(f.next_task_id(), 1);
}

#[test]
fn blank_reply_publishes_nothing() {
    let mut f = Facilitator::from_config(&config(), "facilitator".to_string(), 50);
    let agents = vec![("math".to_string(), None)];
    let reply = ResponseMessage { content: Some("  \n".to_string()), tool_calls: Some(vec![]) };
    assert!(f.on_model_reply("m1", &reply, &agents, 0).is_empty());
    let none = ResponseMessage { content: None, tool_calls: None };
    assert!(f.on_model_reply("m1", &none, &agents, 0).is_empty());
}

#[test]
fn worker_heartbeat_every_third_describes() {
    let mut w = Worker::new("r".to_string(), "math".to_string(), "arithmetic".to_string(), 10);
    let hbs: Vec<Outgoing> = (0..6).map(|i| w.heartbeat(i)).collect();
    for (i, h) in hbs.iter().enumerate() {
        assert_eq!(h.topic, "rooms/r/agents/math/heartbeat");
        match &h.envelope.payload {
            Payload::Heartbeat(p) => {
                if (i + 1) % 3 == 0 {
                    assert_eq!(p.description.as_deref(), Some("arithmetic"));
                } else {
                    assert!(p.description.is_none());
                }
            }
            _ => panic!("not a heartbeat"),
        }
    }
    assert_eq!(hbs[0].envelope.id, "heartbeat_math_1");
}

#[test]
fn worker_turns() {
    let calls = vec![call("secretly_pick_number", "{\"min\":1,\"max\":3}")];
    match Worker::next_turn(ResponseMessage { content: None, tool_calls: Some(calls) }) {
        WorkerTurn::RunTools(c) => assert_eq!(c.len(), 1),
        WorkerTurn::Finish(_) => panic!("tools were called"),
    }
    match Worker::next_turn(ResponseMessage { content: None, tool_calls: None }) {
        WorkerTurn::Finish(t) => assert_eq!(t, "Task completed."),
        WorkerTurn::RunTools(_) => panic!("no tools"),
    }
}

#[test]
fn worker_ignores_non_task() {
    let mut w = Worker::new("r".to_string(), "math".to_string(), "d".to_string(), 10);
    assert!(w.on_inbox(&user_say("x", "alice", "hi", 0), 0).is_none());
}

#[test]
fn system_prompt_lists_agents() {
    let llm = FacilitatorLlm::new("k".to_string(), "m".to_string(), "u".to_string());
    let p = llm.build_system_prompt(&vec![
        ("math".to_string(), Some("arithmetic".to_string())),
        ("web".to_string(), None),
    ]);
    assert!(p.contains("Available agents:\n- math - arithmetic\n- web\n\nIMPORTANT"));
    let empty = llm.build_system_prompt(&vec![]);
    assert!(empty.contains("Available agents:\nNo agents currently available.\n\nIMPORTANT"));
}
