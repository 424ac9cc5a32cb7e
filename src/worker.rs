//! A specialist worker's decisions: taking a task from its inbox, driving
//! the tool-assisted completion loop, and what it publishes as results and
//! heartbeats.
//!
//! The caller runs the loop: it consults the model, executes the tools that
//! a turn asks for, and publishes what comes back.

use vstd::prelude::*;
use crate::llm::{LlmClient, ResponseMessage, ToolCall};
use crate::memory::{MessageHistory, recorded};
use crate::message::{
    AckContent, Envelope, EnvelopeType, HeartbeatPayload, Outgoing, Payload, ResultContent,
    ResultPayload, Sender, SenderKind,
};
use crate::text::{decimal, decimal_of};
use crate::topics::{agent_heartbeat, agent_topic, public_candidates, room_topic};

verus! {

/// The language-model side of a specialist: its service and its domain prompt.
#[derive(Clone, Debug)]
pub struct SpecialistLlm {
    client: LlmClient,
    system_prompt: String,
}

impl SpecialistLlm {
    pub closed spec fn spec_system_prompt(&self) -> Seq<char> {
        self.system_prompt@
    }

    pub closed spec fn spec_client(&self) -> LlmClient {
        self.client
    }

    pub fn new(api_key: String, model: String, base_url: String, system_prompt: String) -> (r: Self)
        ensures
            r.spec_client().spec_api_key() == api_key@,
            r.spec_client().spec_model() == model@,
            r.spec_client().spec_base_url() == base_url@,
            r.spec_system_prompt() == system_prompt@,
    {
        SpecialistLlm { client: LlmClient::new(api_key, model, base_url), system_prompt }
    }

    pub fn client(&self) -> (r: &LlmClient)
        ensures
            *r == self.spec_client(),
    {
        &self.client
    }

    pub fn system_prompt(&self) -> (r: &str)
        ensures
            r@ == self.spec_system_prompt(),
    {
        self.system_prompt.as_str()
    }
}

/// A task taken from the inbox, with the acknowledgement to publish at once.
#[derive(Debug)]
pub struct TaskStart {
    pub task_id: String,
    pub goal: String,
    pub ack: Outgoing,
}

/// What a worker does after a model turn.
#[derive(Debug)]
pub enum WorkerTurn {
    /// Execute these tool calls, then consult the model again.
    RunTools(Vec<ToolCall>),
    /// The task is done: this is the final result.
    Finish(String),
}

/// The final result that a model reply without tool calls gives.
pub open spec fn final_text(content: Option<String>) -> Seq<char> {
    match content {
        Some(c) => c@,
        None => "Task completed."@,
    }
}

/// The acknowledgement text a worker publishes on taking a task.
pub open spec fn task_received() -> Seq<char> {
    "Task received, processing..."@
}

/// The number after `n`, wrapping around after the largest `u64`.
pub open spec fn next_number(n: u64) -> u64 {
    if n == u64::MAX {
        0
    } else {
        (n + 1) as u64
    }
}

fn step(n: u64) -> (r: u64)
    ensures
        r == next_number(n),
{
    if n == u64::MAX {
        0
    } else {
        n + 1
    }
}

/// `o` is a candidate result from agent `me` in room `room`, numbered `n`,
/// for task `task` with content `content`, stamped `now`.
pub open spec fn is_candidate_result(
    o: Outgoing,
    room: Seq<char>,
    me: Seq<char>,
    n: u64,
    task: Seq<char>,
    content: ResultContent,
    now: u64,
) -> bool {
    &&& o.topic@ == room_topic(room, "/public_candidates"@)
    &&& o.envelope.id@ == "result_"@ + task + "_"@ + decimal_of(n as nat)
    &&& o.envelope.message_type == EnvelopeType::Result
    &&& o.envelope.room_id@ == room
    &&& o.envelope.from.kind == SenderKind::Agent
    &&& o.envelope.from.id@ == me
    &&& o.envelope.ts == now
    &&& o.envelope.payload matches Payload::Result(p) && p.task_id@ == task && p.message_type
        == content.kind() && p.content == content
}

/// A specialist worker of a room.
#[derive(Debug)]
pub struct Worker {
    room_id: String,
    agent_id: String,
    description: String,
    memory: MessageHistory,
    results_sent: u64,
    heartbeats_sent: u64,
}

impl Worker {
    pub closed spec fn room(&self) -> Seq<char> {
        self.room_id@
    }

    pub closed spec fn me(&self) -> Seq<char> {
        self.agent_id@
    }

    pub closed spec fn spec_description(&self) -> Seq<char> {
        self.description@
    }

    pub closed spec fn spec_memory(&self) -> MessageHistory {
        self.memory
    }

    /// The number the next result will carry.
    pub closed spec fn results(&self) -> u64 {
        self.results_sent
    }

    /// How many heartbeats were sent, modulo 2^64.
    pub closed spec fn heartbeats(&self) -> u64 {
        self.heartbeats_sent
    }

    pub open spec fn wf(&self) -> bool {
        self.spec_memory().wf()
    }

    /// A worker named `agent_id` in room `room_id`, which advertises
    /// `description` and remembers the `memory_capacity` latest public envelopes.
    pub fn new(room_id: String, agent_id: String, description: String, memory_capacity: usize) -> (r:
        Self)
        ensures
            r.wf(),
            r.room() == room_id@,
            r.me() == agent_id@,
            r.spec_description() == description@,
            r.spec_memory()@ == Seq::<Envelope>::empty(),
            r.spec_memory().capacity() == memory_capacity,
            r.results() == 0,
            r.heartbeats() == 0,
    {
        Worker {
            room_id,
            agent_id,
            description,
            memory: MessageHistory::new(memory_capacity),
            results_sent: 0,
            heartbeats_sent: 0,
        }
    }

    /// The conversation memory, from which the model's context is made.
    pub fn memory(&self) -> (r: &MessageHistory)
        ensures
            *r == self.spec_memory(),
    {
        &self.memory
    }

    /// Records an envelope seen on the public topic.
    pub fn on_public(&mut self, envelope: Envelope)
        requires
            old(self).wf(),
        ensures
            final(self).wf(),
            final(self).room() == old(self).room(),
            final(self).me() == old(self).me(),
            final(self).spec_description() == old(self).spec_description(),
            final(self).results() == old(self).results(),
            final(self).heartbeats() == old(self).heartbeats(),
            final(self).spec_memory().capacity() == old(self).spec_memory().capacity(),
            final(self).spec_memory()@ == recorded(
                old(self).spec_memory()@,
                envelope,
                old(self).spec_memory().capacity(),
            ),
    {
        self.memory.add(envelope);
    }

    /// A candidate result for `task_id` with `content`, stamped `now`; its
    /// result kind is the one its content belongs to.
    pub fn result(&mut self, task_id: &str, content: ResultContent, now: u64) -> (r: Outgoing)
        ensures
            final(self).room() == old(self).room(),
            final(self).me() == old(self).me(),
            final(self).spec_description() == old(self).spec_description(),
            final(self).spec_memory() == old(self).spec_memory(),
            final(self).heartbeats() == old(self).heartbeats(),
            final(self).results() == next_number(old(self).results()),
            is_candidate_result(
                r,
                old(self).room(),
                old(self).me(),
                old(self).results(),
                task_id@,
                content,
                now,
            ),
    {
        let mut id = String::from_str("result_");
        id.append(task_id);
        id.append("_");
        let n = decimal(self.results_sent);
        id.append(n.as_str());
        self.results_sent = step(self.results_sent);
        let message_type = match &content {
            ResultContent::Ack(_) => crate::message::ResultMessageType::Ack,
            ResultContent::ClarifyingQuestion(_) => crate::message::ResultMessageType::ClarifyingQuestion,
            ResultContent::Progress(_) => crate::message::ResultMessageType::Progress,
            ResultContent::Finding(_) => crate::message::ResultMessageType::Finding,
            ResultContent::Risk(_) => crate::message::ResultMessageType::Risk,
            ResultContent::Result(_) => crate::message::ResultMessageType::Result,
            ResultContent::ArtifactLink(_) => crate::message::ResultMessageType::ArtifactLink,
        };
        Outgoing {
            topic: public_candidates(self.room_id.as_str()),
            envelope: Envelope {
                id,
                message_type: EnvelopeType::Result,
                room_id: self.room_id.clone(),
                from: Sender { kind: SenderKind::Agent, id: self.agent_id.clone() },
                ts: now,
                payload: Payload::Result(
                    ResultPayload { task_id: String::from_str(task_id), message_type, content },
                ),
            },
        }
    }

    /// Takes a task from an envelope received on the inbox at second `now`:
    /// a task envelope with a task payload starts the task with an
    /// acknowledgement; anything else is ignored.
    pub fn on_inbox(&mut self, envelope: &Envelope, now: u64) -> (r: Option<TaskStart>)
        ensures
            final(self).room() == old(self).room(),
            final(self).me() == old(self).me(),
            final(self).spec_description() == old(self).spec_description(),
            final(self).spec_memory() == old(self).spec_memory(),
            final(self).heartbeats() == old(self).heartbeats(),
            match envelope.payload {
                Payload::Task(p) => if envelope.message_type == EnvelopeType::Task {
                    &&& final(self).results() == next_number(old(self).results())
                    &&& r is Some
                    &&& r->0.task_id@ == p.task_id@
                    &&& r->0.goal@ == p.goal@
                    &&& is_candidate_result(
                        r->0.ack,
                        old(self).room(),
                        old(self).me(),
                        old(self).results(),
                        p.task_id@,
                        r->0.ack.envelope.payload->Result_0.content,
                        now,
                    )
                    &&& (r->0.ack.envelope.payload->Result_0.content matches ResultContent::Ack(a)
                        && a.text@ == task_received())
                } else {
                    r is None && final(self).results() == old(self).results()
                },
                _ => r is None && final(self).results() == old(self).results(),
            },
    {
        if envelope.message_type != EnvelopeType::Task {
            return None;
        }
        match &envelope.payload {
            Payload::Task(p) => {
                let content = ResultContent::Ack(
                    AckContent { text: String::from_str("Task received, processing...") },
                );
                let ack = self.result(p.task_id.as_str(), content, now);
                Some(TaskStart { task_id: p.task_id.clone(), goal: p.goal.clone(), ack })
            },
            _ => None,
        }
    }

    /// What to do after the model's turn: run the tools it called, or, when
    /// it called none, finish with its text, or a default completion notice
    /// where it gave none.
    pub fn next_turn(reply: ResponseMessage) -> (r: WorkerTurn)
        ensures
            reply.calls().len() > 0 ==> (r matches WorkerTurn::RunTools(calls) && calls@
                == reply.calls()),
            reply.calls().len() == 0 ==> (r matches WorkerTurn::Finish(t) && t@ == final_text(
                reply.content,
            )),
    {
        let ResponseMessage { content, tool_calls } = reply;
        match tool_calls {
            Some(calls) => {
                if calls.len() > 0 {
                    return WorkerTurn::RunTools(calls);
                }
            },
            None => {},
        }
        match content {
            Some(c) => WorkerTurn::Finish(c),
            None => WorkerTurn::Finish(String::from_str("Task completed.")),
        }
    }

    /// The next heartbeat, stamped `now`; every third one carries the
    /// worker's description.
    pub fn heartbeat(&mut self, now: u64) -> (r: Outgoing)
        ensures
            final(self).room() == old(self).room(),
            final(self).me() == old(self).me(),
            final(self).spec_description() == old(self).spec_description(),
            final(self).spec_memory() == old(self).spec_memory(),
            final(self).results() == old(self).results(),
            final(self).heartbeats() == next_number(old(self).heartbeats()),
            r.topic@ == agent_topic(old(self).room(), old(self).me(), "/heartbeat"@),
            r.envelope.id@ == "heartbeat_"@ + old(self).me() + "_"@ + decimal_of(
                final(self).heartbeats() as nat,
            ),
            r.envelope.message_type == EnvelopeType::Heartbeat,
            r.envelope.room_id@ == old(self).room(),
            r.envelope.from.kind == SenderKind::Agent,
            r.envelope.from.id@ == old(self).me(),
            r.envelope.ts == now,
            r.envelope.payload matches Payload::Heartbeat(h) && h.ts == now && (if final(self).heartbeats() % 3 == 0 {
                h.description matches Some(d) && d@ == old(self).spec_description()
            } else {
                h.description is None
            }),
    {
        self.heartbeats_sent = step(self.heartbeats_sent);
        let count = self.heartbeats_sent;
        let description = if count % 3 == 0 {
            Some(self.description.clone())
        } else {
            None
        };
        let mut id = String::from_str("heartbeat_");
        id.append(self.agent_id.as_str());
        id.append("_");
        let n = decimal(count);
        id.append(n.as_str());
        Outgoing {
            topic: agent_heartbeat(self.room_id.as_str(), self.agent_id.as_str()),
            envelope: Envelope {
                id,
                message_type: EnvelopeType::Heartbeat,
                room_id: self.room_id.clone(),
                from: Sender { kind: SenderKind::Agent, id: self.agent_id.clone() },
                ts: now,
                payload: Payload::Heartbeat(HeartbeatPayload { ts: now, description }),
            },
        }
    }
}

} // verus!
