use agent_ops_room::topics::{
    agent_heartbeat, agent_inbox, agent_work, all_agent_heartbeats, control, public,
    public_candidates,
};

#[test]
fn test_topic_formatting() {
    assert_eq!(public("test"), "rooms/test/public");
    assert_eq!(public_candidates("test"), "rooms/test/public_candidates");
    assert_eq!(control("test"), "rooms/test/control");
    assert_eq!(
        agent_inbox("test", "researcher"),
        "rooms/test/agents/researcher/inbox"
    );
    assert_eq!(
        agent_work("test", "researcher"),
        "rooms/test/agents/researcher/work"
    );
}

#[test]
fn heartbeat_topics() {
    assert_eq!(agent_heartbeat("r", "math"), "rooms/r/agents/math/heartbeat");
    assert_eq!(all_agent_heartbeats("r"), "rooms/r/agents/+/heartbeat");
}
