//! The facilitator's dispatch decisions: which public envelopes trigger it,
//! what it publishes before consulting the model, and what it publishes for
//! the model's reply.
//!
//! The caller runs the loop: it hands in each envelope received, consults
//! the model when asked to, and publishes what comes back.

use vstd::prelude::*;
use crate::agent_registry::{AgentRegistry, opt_view};
use crate::config::FacilitatorConfig;
use crate::llm::{agent_for_tool, agent_for_tool_name, ResponseMessage, ToolCall};
use crate::memory::{holds_id, MessageHistory, recorded};
use crate::message::{
    sat_add, AckContent, Envelope, EnvelopeType, MicGrantPayload, MicRevokePayload, Outgoing,
    Payload, ResultContent, ResultMessageType, ResultOutcome, ResultPayload, Sender,
    SenderKind, TaskPayload,
};
use crate::text::{blank, decimal, decimal_of, is_blank};
use crate::topics::{agent_inbox, agent_topic, control, public, room_topic};

verus! {

/// What the tool-call arguments `arguments` give as the string member
/// `goal` of their JSON object, if they are such an object with such a member.
pub uninterp spec fn goal_in(arguments: Seq<char>) -> Option<Seq<char>>;

/// Relies on serde_json::from_str, which parses the arguments as a JSON
/// value, and serde_json::Map::get, which finds the member "goal" of an
/// object; the goal is that member where it is a string.
#[verifier::external_body]
fn goal_argument(arguments: &str) -> (r: Option<String>)
    ensures
        match r {
            Some(g) => goal_in(arguments@) == Some(g@),
            None => goal_in(arguments@) is None,
        },
{
    match serde_json::from_str::<serde_json::Value>(arguments) {
        Ok(serde_json::Value::Object(m)) => match m.get("goal") {
            Some(serde_json::Value::String(g)) => Some(g.clone()),
            _ => None,
        },
        _ => None,
    }
}

/// How long a task's advisory deadline lies after its assignment, in seconds.
pub const TASK_DEADLINE_SECS: u64 = 300;

/// Why a public envelope engages the facilitator.
#[derive(Clone, Debug)]
pub enum Trigger {
    /// A user said something.
    UserSay,
    /// A worker delivered the terminal result of a task.
    WorkerResult { agent_id: String, task_id: String },
}

/// Whether `e` is something a user said.
pub open spec fn is_user_say(e: Envelope) -> bool {
    e.message_type == EnvelopeType::Say && e.from.kind == SenderKind::User
}

/// The (agent, task) whose terminal result `e` is, where `e` is a worker's
/// terminal result to a facilitator named `me`.
pub open spec fn worker_result_of(e: Envelope, me: Seq<char>) -> Option<(Seq<char>, Seq<char>)> {
    if e.message_type == EnvelopeType::Result && e.from.kind == SenderKind::Agent && e.from.id@
        != me {
        match e.payload {
            Payload::Result(p) => if p.message_type == ResultMessageType::Result {
                Some((e.from.id@, p.task_id@))
            } else {
                None
            },
            _ => None,
        }
    } else {
        None
    }
}

/// Whether `e` is a trigger for a facilitator named `me`.
pub open spec fn is_trigger(e: Envelope, me: Seq<char>) -> bool {
    is_user_say(e) || worker_result_of(e, me) is Some
}

/// Whether `t` is the trigger that `e` is for a facilitator named `me`.
pub open spec fn trigger_is(t: Option<Trigger>, e: Envelope, me: Seq<char>) -> bool {
    match t {
        None => !is_trigger(e, me),
        Some(Trigger::UserSay) => is_user_say(e),
        Some(Trigger::WorkerResult { agent_id, task_id }) => !is_user_say(e) && worker_result_of(e, me)
            == Some((agent_id@, task_id@)),
    }
}

/// `o` is an envelope from the facilitator `me` in room `room`, with this id,
/// type and time, to this topic.
pub open spec fn from_facilitator(
    o: Outgoing,
    room: Seq<char>,
    me: Seq<char>,
    topic: Seq<char>,
    id: Seq<char>,
    t: EnvelopeType,
    now: u64,
) -> bool {
    &&& o.topic@ == topic
    &&& o.envelope.id@ == id
    &&& o.envelope.message_type == t
    &&& o.envelope.room_id@ == room
    &&& o.envelope.from.kind == SenderKind::Agent
    &&& o.envelope.from.id@ == me
    &&& o.envelope.ts == now
}

/// `o` is a public result of kind `kind` with text `text` for task `task`.
pub open spec fn is_public_result(
    o: Outgoing,
    room: Seq<char>,
    me: Seq<char>,
    id: Seq<char>,
    task: Seq<char>,
    kind: ResultMessageType,
    text: Seq<char>,
    now: u64,
) -> bool {
    &&& from_facilitator(o, room, me, room_topic(room, "/public"@), id, EnvelopeType::Result, now)
    &&& o.envelope.payload matches Payload::Result(p) && p.task_id@ == task && p.message_type == kind
        && match p.content {
        ResultContent::Ack(a) => kind == ResultMessageType::Ack && a.text@ == text,
        ResultContent::Result(r) => kind == ResultMessageType::Result && r.text@ == text,
        _ => false,
    }
}

/// The task id of the `n`-th task.
pub open spec fn task_id_of(n: nat) -> Seq<char> {
    "task_"@ + decimal_of(n)
}

/// `o` is the task envelope that assigns `goal` to `agent` as task number `n`.
pub open spec fn is_task_envelope(
    o: Outgoing,
    room: Seq<char>,
    me: Seq<char>,
    agent: Seq<char>,
    goal: Seq<char>,
    n: nat,
    now: u64,
) -> bool {
    &&& from_facilitator(
        o,
        room,
        me,
        agent_topic(room, agent, "/inbox"@),
        "task_"@ + task_id_of(n),
        EnvelopeType::Task,
        now,
    )
    &&& o.envelope.payload matches Payload::Task(p) && p.task_id@ == task_id_of(n) && p.goal@ == goal
        && p.format is None && p.deadline == Some(sat_add(now, TASK_DEADLINE_SECS))
}

/// `o` is the grant that lets `agent` speak for task number `n`: up to
/// `max` messages of every result kind, until `duration` seconds from `now`.
pub open spec fn is_grant_envelope(
    o: Outgoing,
    room: Seq<char>,
    me: Seq<char>,
    agent: Seq<char>,
    n: nat,
    max: u32,
    duration: u64,
    now: u64,
) -> bool {
    &&& from_facilitator(
        o,
        room,
        me,
        room_topic(room, "/control"@),
        "grant_"@ + task_id_of(n),
        EnvelopeType::MicGrant,
        now,
    )
    &&& o.envelope.payload matches Payload::MicGrant(p) && p.task_id@ == task_id_of(n)
        && p.agent_id@ == agent && p.max_messages == max && p.allowed_message_types@
        == ResultMessageType::all() && p.expires_at == sat_add(now, duration)
}

/// `o` revokes the grant of `agent` for `task`.
pub open spec fn is_revoke_envelope(
    o: Outgoing,
    room: Seq<char>,
    me: Seq<char>,
    agent: Seq<char>,
    task: Seq<char>,
    now: u64,
) -> bool {
    &&& from_facilitator(
        o,
        room,
        me,
        room_topic(room, "/control"@),
        "revoke_"@ + task,
        EnvelopeType::MicRevoke,
        now,
    )
    &&& o.envelope.payload matches Payload::MicRevoke(p) && p.task_id@ == task && p.agent_id@
        == agent
}

/// The (agent, goal) assignments that the tool calls `calls` make, in order:
/// a call counts where its tool names an advertised agent and its arguments
/// give a non-empty goal.
pub open spec fn assignments(calls: Seq<ToolCall>, agents: Seq<(String, Option<String>)>) -> Seq<
    (Seq<char>, Seq<char>),
>
    decreases calls.len(),
{
    if calls.len() == 0 {
        Seq::empty()
    } else {
        let c = calls.last();
        assignments(calls.drop_last(), agents) + match (
            agent_for_tool(c.function.name@, agents),
            goal_in(c.function.arguments@),
        ) {
            (Some(a), Some(g)) => if g.len() > 0 {
                seq![(a, g)]
            } else {
                Seq::empty()
            },
            _ => Seq::empty(),
        }
    }
}

/// The facilitator's memory after public envelope `e`: a redelivery of an
/// envelope it holds leaves it as it was, anything else is recorded.
pub open spec fn remembered(mem: Seq<Envelope>, e: Envelope, cap: nat) -> Seq<Envelope> {
    if holds_id(mem, e.id@) {
        mem
    } else {
        recorded(mem, e, cap)
    }
}

/// Once the facilitator has handled a public envelope, its memory holds the
/// envelope's id, so a second delivery of an envelope with that id is a
/// redelivery: it publishes nothing and consults no model, and thus assigns
/// no task twice for one message.
pub proof fn lemma_redelivery_ignored(mem: Seq<Envelope>, cap: nat, e: Envelope, again: Envelope)
    requires
        again.id@ == e.id@,
    ensures
        holds_id(remembered(mem, e, cap), again.id@),
{
    let m = remembered(mem, e, cap);
    if !holds_id(mem, e.id@) {
        assert(m[m.len() - 1] == e);
    }
}

/// What the facilitator publishes on a public envelope, and whether the
/// model is to be consulted next.
#[derive(Debug)]
pub struct PublicStep {
    /// To publish at once, in order.
    pub outgoing: Vec<Outgoing>,
    /// Where the model is to be consulted: the active agents to offer it.
    pub consult: Option<Vec<(String, Option<String>)>>,
}

/// The notice published when no worker is available.
pub open spec fn no_agents_notice() -> Seq<char> {
    "No agents are currently available to take this request."@
}

/// The acknowledgement published before the model is consulted.
pub open spec fn processing_notice() -> Seq<char> {
    "Processing..."@
}

/// The coordinating participant of a room.
#[derive(Debug)]
pub struct Facilitator {
    room_id: String,
    facilitator_id: String,
    max_messages: u32,
    mic_duration_secs: u64,
    next_task_id: u64,
    memory: MessageHistory,
    registry: AgentRegistry,
}

impl Facilitator {
    pub closed spec fn room(&self) -> Seq<char> {
        self.room_id@
    }

    pub closed spec fn me(&self) -> Seq<char> {
        self.facilitator_id@
    }

    pub closed spec fn max_messages(&self) -> u32 {
        self.max_messages
    }

    pub closed spec fn mic_duration(&self) -> u64 {
        self.mic_duration_secs
    }

    /// The number of the next task to be assigned.
    pub closed spec fn next_task(&self) -> u64 {
        self.next_task_id
    }

    pub closed spec fn spec_memory(&self) -> MessageHistory {
        self.memory
    }

    pub closed spec fn spec_registry(&self) -> AgentRegistry {
        self.registry
    }

    /// The memory and registry are well formed, and the facilitator never
    /// counts itself among the workers.
    pub open spec fn wf(&self) -> bool {
        &&& self.spec_memory().wf()
        &&& self.spec_registry().wf()
        &&& !self.spec_registry()@.contains_key(self.me())
    }

    /// A facilitator named `facilitator_id` in room `room_id`, whose grants
    /// allow `max_messages` messages for `mic_duration_secs` seconds, which
    /// counts a worker active for `heartbeat_timeout_secs` after its last
    /// heartbeat and remembers the `memory_capacity` latest public envelopes.
    pub fn new(
        room_id: String,
        facilitator_id: String,
        max_messages: u32,
        mic_duration_secs: u64,
        heartbeat_timeout_secs: u64,
        memory_capacity: usize,
    ) -> (r: Self)
        ensures
            r.wf(),
            r.room() == room_id@,
            r.me() == facilitator_id@,
            r.max_messages() == max_messages,
            r.mic_duration() == mic_duration_secs,
            r.next_task() == 0,
            r.spec_memory()@ == Seq::<Envelope>::empty(),
            r.spec_memory().capacity() == memory_capacity,
            r.spec_registry()@ == Map::<Seq<char>, crate::agent_registry::AgentView>::empty(),
            r.spec_registry().timeout() == heartbeat_timeout_secs,
    {
        Facilitator {
            room_id,
            facilitator_id,
            max_messages,
            mic_duration_secs,
            next_task_id: 0,
            memory: MessageHistory::new(memory_capacity),
            registry: AgentRegistry::new(heartbeat_timeout_secs),
        }
    }

    /// The facilitator named `facilitator_id` that `config` describes, with a
    /// memory of `memory_capacity` envelopes.
    pub fn from_config(config: &FacilitatorConfig, facilitator_id: String, memory_capacity: usize) -> (r:
        Self)
        ensures
            r.wf(),
            r.room() == config.room_id@,
            r.me() == facilitator_id@,
            r.max_messages() == config.default_max_messages,
            r.mic_duration() == config.default_mic_duration_secs,
            r.next_task() == 0,
            r.spec_memory()@ == Seq::<Envelope>::empty(),
            r.spec_memory().capacity() == memory_capacity,
            r.spec_registry()@ == Map::<Seq<char>, crate::agent_registry::AgentView>::empty(),
            r.spec_registry().timeout() == config.agent_heartbeat_timeout_secs,
    {
        Facilitator::new(
            config.room_id.clone(),
            facilitator_id,
            config.default_max_messages,
            config.default_mic_duration_secs,
            config.agent_heartbeat_timeout_secs,
            memory_capacity,
        )
    }

    /// The conversation memory, from which the model's context is made.
    pub fn memory(&self) -> (r: &MessageHistory)
        ensures
            *r == self.spec_memory(),
    {
        &self.memory
    }

    /// The registry of workers.
    pub fn registry(&self) -> (r: &AgentRegistry)
        ensures
            *r == self.spec_registry(),
    {
        &self.registry
    }

    /// The number of the next task to be assigned.
    pub fn next_task_id(&self) -> (r: u64)
        ensures
            r == self.next_task(),
    {
        self.next_task_id
    }

    /// Records a heartbeat received at second `now`. Heartbeats of system
    /// participants and of the facilitator itself are not routable and are
    /// left out of the registry.
    pub fn on_heartbeat(&mut self, envelope: &Envelope, now: u64)
        requires
            old(self).wf(),
        ensures
            final(self).wf(),
            final(self).room() == old(self).room(),
            final(self).me() == old(self).me(),
            final(self).max_messages() == old(self).max_messages(),
            final(self).mic_duration() == old(self).mic_duration(),
            final(self).next_task() == old(self).next_task(),
            final(self).spec_memory() == old(self).spec_memory(),
            final(self).spec_registry().timeout() == old(self).spec_registry().timeout(),
            final(self).spec_registry()@ == match envelope.payload {
                Payload::Heartbeat(h) => if envelope.message_type == EnvelopeType::Heartbeat
                    && envelope.from.kind != SenderKind::System && envelope.from.id@ != old(
                    self,
                ).me() {
                    old(self).spec_registry()@.insert(
                        envelope.from.id@,
                        crate::agent_registry::observed(
                            old(self).spec_registry()@,
                            envelope.from.id@,
                            opt_view(h.description),
                            now,
                        ),
                    )
                } else {
                    old(self).spec_registry()@
                },
                _ => old(self).spec_registry()@,
            },
    {
        if envelope.message_type != EnvelopeType::Heartbeat || envelope.from.kind == SenderKind::System
            || envelope.from.id == self.facilitator_id {
            return ;
        }
        match &envelope.payload {
            Payload::Heartbeat(h) => {
                let d = match &h.description {
                    Some(d) => Some(d.clone()),
                    None => None,
                };
                self.registry.update_agent_at(envelope.from.id.clone(), d, now);
            },
            _ => {},
        }
    }

    /// The trigger that `envelope` is, if any.
    pub fn trigger(&self, envelope: &Envelope) -> (r: Option<Trigger>)
        ensures
            trigger_is(r, *envelope, self.me()),
    {
        if envelope.message_type == EnvelopeType::Say && envelope.from.kind == SenderKind::User {
            return Some(Trigger::UserSay);
        }
        if envelope.message_type == EnvelopeType::Result && envelope.from.kind == SenderKind::Agent
            && !(envelope.from.id == self.facilitator_id) {
            match &envelope.payload {
                Payload::Result(p) => {
                    if p.message_type == ResultMessageType::Result {
                        return Some(
                            Trigger::WorkerResult {
                                agent_id: envelope.from.id.clone(),
                                task_id: p.task_id.clone(),
                            },
                        );
                    }
                },
                _ => {},
            }
        }
        None
    }

    fn envelope(&self, id: String, t: EnvelopeType, payload: Payload, now: u64) -> (r: Envelope)
        ensures
            r.id == id,
            r.message_type == t,
            r.room_id@ == self.room(),
            r.from.kind == SenderKind::Agent,
            r.from.id@ == self.me(),
            r.ts == now,
            r.payload == payload,
    {
        Envelope {
            id,
            message_type: t,
            room_id: self.room_id.clone(),
            from: Sender { kind: SenderKind::Agent, id: self.facilitator_id.clone() },
            ts: now,
            payload,
        }
    }

    fn public_result(
        &self,
        id: String,
        task_id: &str,
        kind: ResultMessageType,
        text: String,
        now: u64,
    ) -> (r: Outgoing)
        requires
            kind == ResultMessageType::Ack || kind == ResultMessageType::Result,
        ensures
            is_public_result(r, self.room(), self.me(), id@, task_id@, kind, text@, now),
    {
        let content = if kind == ResultMessageType::Ack {
            ResultContent::Ack(AckContent { text })
        } else {
            ResultContent::Result(ResultOutcome { text })
        };
        let payload = Payload::Result(
            ResultPayload { task_id: String::from_str(task_id), message_type: kind, content },
        );
        Outgoing {
            topic: public(self.room_id.as_str()),
            envelope: self.envelope(id, EnvelopeType::Result, payload, now),
        }
    }

    /// Handles an envelope received on the public topic at second `now`.
    ///
    /// An envelope whose id the memory already holds is a redelivery and is
    /// ignored. Any other is recorded in memory; if it is a trigger, a
    /// terminal worker result first gets its grant revoked; then, with no
    /// worker active, a notice is published and the trigger ends, and
    /// otherwise an acknowledgement is published and the model is to be
    /// consulted with the active workers.
    pub fn on_public(&mut self, envelope: Envelope, now: u64) -> (r: PublicStep)
        requires
            old(self).wf(),
        ensures
            final(self).wf(),
            final(self).room() == old(self).room(),
            final(self).me() == old(self).me(),
            final(self).max_messages() == old(self).max_messages(),
            final(self).mic_duration() == old(self).mic_duration(),
            final(self).next_task() == old(self).next_task(),
            final(self).spec_registry() == old(self).spec_registry(),
            final(self).spec_memory().capacity() == old(self).spec_memory().capacity(),
            ({
                let seen = holds_id(old(self).spec_memory()@, envelope.id@);
                let trig = is_trigger(envelope, old(self).me());
                let revoking = worker_result_of(envelope, old(self).me());
                &&& final(self).spec_memory()@ == remembered(
                    old(self).spec_memory()@,
                    envelope,
                    old(self).spec_memory().capacity(),
                )
                &&& (seen || !trig) ==> r.outgoing@.len() == 0 && r.consult is None
                &&& (!seen && trig) ==> {
                    let off = if revoking is Some {
                        1int
                    } else {
                        0int
                    };
                    &&& revoking matches Some(t) ==> is_revoke_envelope(
                        r.outgoing@[0],
                        old(self).room(),
                        old(self).me(),
                        t.0,
                        t.1,
                        now,
                    )
                    &&& r.outgoing@.len() == off + 1
                    &&& match r.consult {
                        None => is_public_result(
                            r.outgoing@[off],
                            old(self).room(),
                            old(self).me(),
                            "notice_"@ + envelope.id@,
                            Seq::empty(),
                            ResultMessageType::Result,
                            no_agents_notice(),
                            now,
                        ),
                        Some(agents) => is_public_result(
                            r.outgoing@[off],
                            old(self).room(),
                            old(self).me(),
                            "ack_"@ + envelope.id@,
                            Seq::empty(),
                            ResultMessageType::Ack,
                            processing_notice(),
                            now,
                        ),
                    }
                    &&& (r.consult is None) <==> !(exists|k: Seq<char>|
                        #[trigger] old(self).spec_registry()@.contains_key(k)
                            && crate::agent_registry::is_active(
                            now,
                            old(self).spec_registry()@[k].last_heartbeat,
                            old(self).spec_registry().timeout(),
                        ))
                    &&& r.consult matches Some(agents) ==> old(
                        self,
                    ).spec_registry().lists_active_with_descriptions(agents@, now)
                }
            }),
    {
        if self.memory.contains_id(envelope.id.as_str()) {
            return PublicStep { outgoing: Vec::new(), consult: None };
        }
        let trig = self.trigger(&envelope);
        let trigger_id = envelope.id.clone();
        self.memory.add(envelope);
        let t = match trig {
            None => {
                return PublicStep { outgoing: Vec::new(), consult: None };
            },
            Some(t) => t,
        };
        let mut outgoing: Vec<Outgoing> = Vec::new();
        match t {
            Trigger::WorkerResult { agent_id, task_id } => {
                let mut id = String::from_str("revoke_");
                id.append(task_id.as_str());
                let payload = Payload::MicRevoke(MicRevokePayload { task_id, agent_id });
                outgoing.push(
                    Outgoing {
                        topic: control(self.room_id.as_str()),
                        envelope: self.envelope(id, EnvelopeType::MicRevoke, payload, now),
                    },
                );
            },
            Trigger::UserSay => {},
        }
        let agents = self.registry.get_active_agents_with_descriptions_at(now);
        let ghost reg = self.registry;
        let ghost any_active = exists|k: Seq<char>|
            #[trigger] reg@.contains_key(k) && crate::agent_registry::is_active(
                now,
                reg@[k].last_heartbeat,
                reg.timeout(),
            );
        proof {
            if agents@.len() > 0 {
                let k = agents@[0].0@;
                assert(reg@.contains_key(k));
            }
            if any_active {
                let k = choose|k: Seq<char>|
                    #[trigger] reg@.contains_key(k) && crate::agent_registry::is_active(
                        now,
                        reg@[k].last_heartbeat,
                        reg.timeout(),
                    );
                assert(reg.lists_active_with_descriptions(agents@, now));
                assert(exists|i: int| 0 <= i < agents@.len() && #[trigger] agents@[i].0@ == k);
            }
        }
        if agents.len() == 0 {
            let mut id = String::from_str("notice_");
            id.append(trigger_id.as_str());
            outgoing.push(
                self.public_result(
                    id,
                    "",
                    ResultMessageType::Result,
                    String::from_str("No agents are currently available to take this request."),
                    now,
                ),
            );
            proof {
                reveal_strlit("");
                assert(""@ =~= Seq::<char>::empty());
            }
            return PublicStep { outgoing, consult: None };
        }
        let mut id = String::from_str("ack_");
        id.append(trigger_id.as_str());
        outgoing.push(
            self.public_result(
                id,
                "",
                ResultMessageType::Ack,
                String::from_str("Processing..."),
                now,
            ),
        );
        proof {
            reveal_strlit("");
            assert(""@ =~= Seq::<char>::empty());
        }
        PublicStep { outgoing, consult: Some(agents) }
    }

    /// Assigns `goal` to `agent_id` at second `now`: the task goes to the
    /// agent's inbox, and a grant for it to the control topic.
    pub fn assign_task(&mut self, agent_id: &str, goal: &str, now: u64) -> (r: Vec<Outgoing>)
        requires
            old(self).wf(),
            old(self).next_task() < u64::MAX,
        ensures
            final(self).wf(),
            final(self).room() == old(self).room(),
            final(self).me() == old(self).me(),
            final(self).max_messages() == old(self).max_messages(),
            final(self).mic_duration() == old(self).mic_duration(),
            final(self).spec_memory() == old(self).spec_memory(),
            final(self).spec_registry() == old(self).spec_registry(),
            final(self).next_task() == old(self).next_task() + 1,
            r@.len() == 2,
            is_task_envelope(
                r@[0],
                old(self).room(),
                old(self).me(),
                agent_id@,
                goal@,
                old(self).next_task() as nat,
                now,
            ),
            is_grant_envelope(
                r@[1],
                old(self).room(),
                old(self).me(),
                agent_id@,
                old(self).next_task() as nat,
                old(self).max_messages(),
                old(self).mic_duration(),
                now,
            ),
    {
        let mut task_id = String::from_str("task_");
        let n = decimal(self.next_task_id);
        task_id.append(n.as_str());
        self.next_task_id = self.next_task_id + 1;
        let mut task_env_id = String::from_str("task_");
        task_env_id.append(task_id.as_str());
        let task = Payload::Task(
            TaskPayload {
                task_id: task_id.clone(),
                goal: String::from_str(goal),
                format: None,
                deadline: Some(now.saturating_add(TASK_DEADLINE_SECS)),
            },
        );
        let mut grant_env_id = String::from_str("grant_");
        grant_env_id.append(task_id.as_str());
        let grant = Payload::MicGrant(
            MicGrantPayload {
                task_id,
                agent_id: String::from_str(agent_id),
                max_messages: self.max_messages,
                allowed_message_types: ResultMessageType::all_kinds(),
                expires_at: now.saturating_add(self.mic_duration_secs),
            },
        );
        let mut r: Vec<Outgoing> = Vec::new();
        r.push(
            Outgoing {
                topic: agent_inbox(self.room_id.as_str(), agent_id),
                envelope: self.envelope(task_env_id, EnvelopeType::Task, task, now),
            },
        );
        r.push(
            Outgoing {
                topic: control(self.room_id.as_str()),
                envelope: self.envelope(grant_env_id, EnvelopeType::MicGrant, grant, now),
            },
        );
        r
    }

    /// Acts on the model's reply to the trigger `trigger_id`, received at
    /// second `now`, where `agents` were offered to it. Tool calls, where
    /// there are any, each assign a task to the agent their tool names, if
    /// that agent was offered and the call gives a non-empty goal. Without
    /// tool calls, text that is not blank is published as a direct reply.
    pub fn on_model_reply(
        &mut self,
        trigger_id: &str,
        reply: &ResponseMessage,
        agents: &Vec<(String, Option<String>)>,
        now: u64,
    ) -> (r: Vec<Outgoing>)
        requires
            old(self).wf(),
            old(self).next_task() + reply.calls().len() <= u64::MAX,
        ensures
            final(self).wf(),
            final(self).room() == old(self).room(),
            final(self).me() == old(self).me(),
            final(self).max_messages() == old(self).max_messages(),
            final(self).mic_duration() == old(self).mic_duration(),
            final(self).spec_memory() == old(self).spec_memory(),
            final(self).spec_registry() == old(self).spec_registry(),
            reply.calls().len() > 0 ==> {
                let a = assignments(reply.calls(), agents@);
                &&& final(self).next_task() == old(self).next_task() + a.len()
                &&& r@.len() == 2 * a.len()
                &&& forall|j: int|
                    0 <= j < a.len() ==> is_task_envelope(
                        #[trigger] r@[2 * j],
                        old(self).room(),
                        old(self).me(),
                        a[j].0,
                        a[j].1,
                        (old(self).next_task() + j) as nat,
                        now,
                    ) && is_grant_envelope(
                        r@[2 * j + 1],
                        old(self).room(),
                        old(self).me(),
                        a[j].0,
                        (old(self).next_task() + j) as nat,
                        old(self).max_messages(),
                        old(self).mic_duration(),
                        now,
                    )
            },
            reply.calls().len() == 0 ==> {
                &&& final(self).next_task() == old(self).next_task()
                &&& match reply.content {
                    Some(c) => if is_blank(c@) {
                        r@.len() == 0
                    } else {
                        r@.len() == 1 && is_public_result(
                            r@[0],
                            old(self).room(),
                            old(self).me(),
                            "reply_"@ + trigger_id@,
                            "direct_reply"@,
                            ResultMessageType::Result,
                            c@,
                            now,
                        )
                    },
                    None => r@.len() == 0,
                }
            },
    {
        let mut r: Vec<Outgoing> = Vec::new();
        let calls: &Vec<ToolCall> = match &reply.tool_calls {
            Some(calls) => calls,
            None => {
                return self.direct_reply(trigger_id, reply, now);
            },
        };
        if calls.len() == 0 {
            return self.direct_reply(trigger_id, reply, now);
        }
        let ghost start = self.next_task();
        let mut i: usize = 0;
        while i < calls.len()
            invariant
                self.wf(),
                i <= calls@.len(),
                calls@ == reply.calls(),
                start == old(self).next_task(),
                start + calls@.len() <= u64::MAX,
                self.room() == old(self).room(),
                self.me() == old(self).me(),
                self.max_messages() == old(self).max_messages(),
                self.mic_duration() == old(self).mic_duration(),
                self.spec_memory() == old(self).spec_memory(),
                self.spec_registry() == old(self).spec_registry(),
                ({
                    let a = assignments(calls@.take(i as int), agents@);
                    &&& a.len() <= i
                    &&& self.next_task() == start + a.len()
                    &&& r@.len() == 2 * a.len()
                    &&& forall|j: int|
                        0 <= j < a.len() ==> is_task_envelope(
                            #[trigger] r@[2 * j],
                            old(self).room(),
                            old(self).me(),
                            a[j].0,
                            a[j].1,
                            (start + j) as nat,
                            now,
                        ) && is_grant_envelope(
                            r@[2 * j + 1],
                            old(self).room(),
                            old(self).me(),
                            a[j].0,
                            (start + j) as nat,
                            old(self).max_messages(),
                            old(self).mic_duration(),
                            now,
                        )
                }),
            decreases calls@.len() - i,
        {
            let ghost prev = assignments(calls@.take(i as int), agents@);
            let ghost prev_r = r@;
            assert(calls@.take(i + 1).drop_last() =~= calls@.take(i as int));
            assert(calls@.take(i + 1).last() == calls@[i as int]);
            let call = &calls[i];
            let agent = agent_for_tool_name(call.function.name.as_str(), agents);
            let goal = goal_argument(call.function.arguments.as_str());
            match (agent, goal) {
                (Some(a), Some(g)) => {
                    if g.unicode_len() > 0 {
                        let mut pair = self.assign_task(a.as_str(), g.as_str(), now);
                        r.append(&mut pair);
                    }
                },
                _ => {},
            }
            i = i + 1;
        }
        assert(calls@.take(calls@.len() as int) =~= calls@);
        r
    }

    fn direct_reply(&self, trigger_id: &str, reply: &ResponseMessage, now: u64) -> (r: Vec<Outgoing>)
        ensures
            match reply.content {
                Some(c) => if is_blank(c@) {
                    r@.len() == 0
                } else {
                    r@.len() == 1 && is_public_result(
                        r@[0],
                        self.room(),
                        self.me(),
                        "reply_"@ + trigger_id@,
                        "direct_reply"@,
                        ResultMessageType::Result,
                        c@,
                        now,
                    )
                },
                None => r@.len() == 0,
            },
    {
        let mut r: Vec<Outgoing> = Vec::new();
        match &reply.content {
            Some(c) => {
                if !blank(c.as_str()) {
                    let mut id = String::from_str("reply_");
                    id.append(trigger_id);
                    r.push(self.public_result(id, "direct_reply", ResultMessageType::Result, c.clone(), now));
                }
            },
            None => {},
        }
        r
    }
}

} // verus!
