//! Topic naming for a room.
//!
//! The grammar is shared bit for bit by every participant:
//! `rooms/{room}/public`, `rooms/{room}/public_candidates`,
//! `rooms/{room}/control`, `rooms/{room}/agents/{agent}/inbox`,
//! `rooms/{room}/agents/{agent}/work`, `rooms/{room}/agents/{agent}/heartbeat`
//! and the subscription pattern `rooms/{room}/agents/+/heartbeat`.

use vstd::prelude::*;

verus! {

/// `rooms/{room}{suffix}`: a topic that belongs to the room as a whole.
pub open spec fn room_topic(room: Seq<char>, suffix: Seq<char>) -> Seq<char> {
    "rooms/"@ + room + suffix
}

/// `rooms/{room}/agents/{agent}{suffix}`: a topic that belongs to one agent.
pub open spec fn agent_topic(room: Seq<char>, agent: Seq<char>, suffix: Seq<char>) -> Seq<char> {
    "rooms/"@ + room + "/agents/"@ + agent + suffix
}

fn room_path(room_id: &str, suffix: &str) -> (r: String)
    ensures
        r@ == room_topic(room_id@, suffix@),
{
    let mut s = String::from_str("rooms/");
    s.append(room_id);
    s.append(suffix);
    s
}

fn agent_path(room_id: &str, agent_id: &str, suffix: &str) -> (r: String)
    ensures
        r@ == agent_topic(room_id@, agent_id@, suffix@),
{
    let mut s = String::from_str("rooms/");
    s.append(room_id);
    s.append("/agents/");
    s.append(agent_id);
    s.append(suffix);
    s
}

/// Public chat (approved messages only).
pub fn public(room_id: &str) -> (r: String)
    ensures
        r@ == room_topic(room_id@, "/public"@),
{
    room_path(room_id, "/public")
}

/// Agent-authored messages awaiting approval.
pub fn public_candidates(room_id: &str) -> (r: String)
    ensures
        r@ == room_topic(room_id@, "/public_candidates"@),
{
    room_path(room_id, "/public_candidates")
}

/// Grants, revocations and rejections.
pub fn control(room_id: &str) -> (r: String)
    ensures
        r@ == room_topic(room_id@, "/control"@),
{
    room_path(room_id, "/control")
}

/// Tasks from the facilitator to one agent.
pub fn agent_inbox(room_id: &str, agent_id: &str) -> (r: String)
    ensures
        r@ == agent_topic(room_id@, agent_id@, "/inbox"@),
{
    agent_path(room_id, agent_id, "/inbox")
}

/// An agent's private scratch space.
pub fn agent_work(room_id: &str, agent_id: &str) -> (r: String)
    ensures
        r@ == agent_topic(room_id@, agent_id@, "/work"@),
{
    agent_path(room_id, agent_id, "/work")
}

/// Where one agent publishes its heartbeats.
pub fn agent_heartbeat(room_id: &str, agent_id: &str) -> (r: String)
    ensures
        r@ == agent_topic(room_id@, agent_id@, "/heartbeat"@),
{
    agent_path(room_id, agent_id, "/heartbeat")
}

/// The subscription pattern that matches every agent's heartbeat topic.
pub fn all_agent_heartbeats(room_id: &str) -> (r: String)
    ensures
        r@ == agent_topic(room_id@, "+"@, "/heartbeat"@),
{
    agent_path(room_id, "+", "/heartbeat")
}

} // verus!
