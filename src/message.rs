//! The envelope schema: the universal wrapper of every message, and the
//! payload of each envelope type.

use vstd::prelude::*;

verus! {

/// Envelope message types.
#[derive(Clone, Copy, Debug, PartialEq, Eq, Structural)]
pub enum EnvelopeType {
    Say,
    Task,
    MicGrant,
    MicRevoke,
    Result,
    Reject,
    Heartbeat,
    Summary,
}

impl EnvelopeType {
    /// The lowercase snake-case token of the type.
    pub open spec fn token(self) -> Seq<char> {
        match self {
            EnvelopeType::Say => "say"@,
            EnvelopeType::Task => "task"@,
            EnvelopeType::MicGrant => "mic_grant"@,
            EnvelopeType::MicRevoke => "mic_revoke"@,
            EnvelopeType::Result => "result"@,
            EnvelopeType::Reject => "reject"@,
            EnvelopeType::Heartbeat => "heartbeat"@,
            EnvelopeType::Summary => "summary"@,
        }
    }

    pub fn as_str(&self) -> (r: &'static str)
        ensures
            r@ == self.token(),
    {
        match self {
            EnvelopeType::Say => "say",
            EnvelopeType::Task => "task",
            EnvelopeType::MicGrant => "mic_grant",
            EnvelopeType::MicRevoke => "mic_revoke",
            EnvelopeType::Result => "result",
            EnvelopeType::Reject => "reject",
            EnvelopeType::Heartbeat => "heartbeat",
            EnvelopeType::Summary => "summary",
        }
    }
}

/// Sender categories.
#[derive(Clone, Copy, Debug, PartialEq, Eq, Structural)]
pub enum SenderKind {
    User,
    Agent,
    System,
}

impl SenderKind {
    /// The lowercase token of the kind.
    pub open spec fn token(self) -> Seq<char> {
        match self {
            SenderKind::User => "user"@,
            SenderKind::Agent => "agent"@,
            SenderKind::System => "system"@,
        }
    }

    pub fn as_str(&self) -> (r: &'static str)
        ensures
            r@ == self.token(),
    {
        match self {
            SenderKind::User => "user",
            SenderKind::Agent => "agent",
            SenderKind::System => "system",
        }
    }
}

/// Who sent an envelope.
#[derive(Clone, Debug)]
pub struct Sender {
    pub kind: SenderKind,
    pub id: String,
}

/// The kinds of worker output that a grant can allow.
#[derive(Clone, Copy, Debug, PartialEq, Eq, Structural)]
pub enum ResultMessageType {
    Ack,
    ClarifyingQuestion,
    Progress,
    Finding,
    Risk,
    Result,
    ArtifactLink,
}

impl ResultMessageType {
    /// The lowercase snake-case token of the kind.
    pub open spec fn token(self) -> Seq<char> {
        match self {
            ResultMessageType::Ack => "ack"@,
            ResultMessageType::ClarifyingQuestion => "clarifying_question"@,
            ResultMessageType::Progress => "progress"@,
            ResultMessageType::Finding => "finding"@,
            ResultMessageType::Risk => "risk"@,
            ResultMessageType::Result => "result"@,
            ResultMessageType::ArtifactLink => "artifact_link"@,
        }
    }

    /// The token of the kind, as it stands on the wire.
    pub fn as_str(&self) -> (r: &'static str)
        ensures
            r@ == self.token(),
    {
        match self {
            ResultMessageType::Ack => "ack",
            ResultMessageType::ClarifyingQuestion => "clarifying_question",
            ResultMessageType::Progress => "progress",
            ResultMessageType::Finding => "finding",
            ResultMessageType::Risk => "risk",
            ResultMessageType::Result => "result",
            ResultMessageType::ArtifactLink => "artifact_link",
        }
    }

    /// Every result kind, in declaration order.
    pub open spec fn all() -> Seq<ResultMessageType> {
        seq![
            ResultMessageType::Ack,
            ResultMessageType::ClarifyingQuestion,
            ResultMessageType::Progress,
            ResultMessageType::Finding,
            ResultMessageType::Risk,
            ResultMessageType::Result,
            ResultMessageType::ArtifactLink,
        ]
    }

    /// Every result kind, in declaration order.
    pub fn all_kinds() -> (r: Vec<ResultMessageType>)
        ensures
            r@ == Self::all(),
    {
        let r = vec![
            ResultMessageType::Ack,
            ResultMessageType::ClarifyingQuestion,
            ResultMessageType::Progress,
            ResultMessageType::Finding,
            ResultMessageType::Risk,
            ResultMessageType::Result,
            ResultMessageType::ArtifactLink,
        ];
        assert(r@ =~= Self::all());
        r
    }
}

/// Free-form human chat.
#[derive(Clone, Debug)]
pub struct SayPayload {
    pub text: String,
}

/// Authoritative instruction to perform work.
#[derive(Clone, Debug)]
pub struct TaskPayload {
    pub task_id: String,
    pub goal: String,
    pub format: Option<String>,
    pub deadline: Option<u64>,
}

/// Permission to speak publicly.
#[derive(Clone, Debug)]
pub struct MicGrantPayload {
    pub task_id: String,
    pub agent_id: String,
    pub max_messages: u32,
    pub allowed_message_types: Vec<ResultMessageType>,
    pub expires_at: u64,
}

/// Withdrawal of a grant.
#[derive(Clone, Debug)]
pub struct MicRevokePayload {
    pub task_id: String,
    pub agent_id: String,
}

/// Acknowledges task acceptance.
#[derive(Clone, Debug)]
pub struct AckContent {
    pub text: String,
}

/// Requests user input.
#[derive(Clone, Debug)]
pub struct ClarifyingQuestionContent {
    pub question: String,
}

/// Lightweight status update.
#[derive(Clone, Debug)]
pub struct ProgressContent {
    pub text: String,
}

/// Important intermediate discovery.
#[derive(Clone, Debug)]
pub struct FindingContent {
    pub bullets: Option<Vec<String>>,
    pub text: Option<String>,
}

/// Early warning or constraint.
#[derive(Clone, Debug)]
pub struct RiskContent {
    pub text: String,
    pub severity: Option<String>,
    pub mitigation: Option<String>,
}

/// Final output: answer, summary or conclusion.
#[derive(Clone, Debug)]
pub struct ResultOutcome {
    pub text: String,
}

/// Reference to an external artifact.
#[derive(Clone, Debug)]
pub struct ArtifactLinkContent {
    pub label: String,
    pub url: String,
}

/// The content of a result envelope: one variant per result kind.
#[derive(Clone, Debug)]
pub enum ResultContent {
    Ack(AckContent),
    ClarifyingQuestion(ClarifyingQuestionContent),
    Progress(ProgressContent),
    Finding(FindingContent),
    Risk(RiskContent),
    Result(ResultOutcome),
    ArtifactLink(ArtifactLinkContent),
}

impl ResultContent {
    /// The result kind that this content variant belongs to.
    pub open spec fn kind(self) -> ResultMessageType {
        match self {
            ResultContent::Ack(_) => ResultMessageType::Ack,
            ResultContent::ClarifyingQuestion(_) => ResultMessageType::ClarifyingQuestion,
            ResultContent::Progress(_) => ResultMessageType::Progress,
            ResultContent::Finding(_) => ResultMessageType::Finding,
            ResultContent::Risk(_) => ResultMessageType::Risk,
            ResultContent::Result(_) => ResultMessageType::Result,
            ResultContent::ArtifactLink(_) => ResultMessageType::ArtifactLink,
        }
    }
}

/// Structured worker disclosure.
#[derive(Clone, Debug)]
pub struct ResultPayload {
    pub task_id: String,
    pub message_type: ResultMessageType,
    pub content: ResultContent,
}

/// Explains why a candidate was blocked.
#[derive(Clone, Debug)]
pub struct RejectPayload {
    pub message_id: String,
    pub task_id: String,
    pub reason: String,
}

/// Agent liveness signal.
#[derive(Clone, Debug)]
pub struct HeartbeatPayload {
    pub ts: u64,
    pub description: Option<String>,
}

/// The payload of an envelope, by envelope type.
///
/// `Other` stands for a payload that this library does not read: one that does
/// not have the shape that its envelope type calls for, or a summary's.
#[derive(Clone, Debug)]
pub enum Payload {
    Say(SayPayload),
    Task(TaskPayload),
    MicGrant(MicGrantPayload),
    MicRevoke(MicRevokePayload),
    Result(ResultPayload),
    Reject(RejectPayload),
    Heartbeat(HeartbeatPayload),
    Other,
}

impl Payload {
    /// Whether the payload has the shape that envelope type `t` calls for; a
    /// result's content must be of the result's kind.
    pub open spec fn agrees_with(self, t: EnvelopeType) -> bool {
        match self {
            Payload::Say(_) => t == EnvelopeType::Say,
            Payload::Task(_) => t == EnvelopeType::Task,
            Payload::MicGrant(_) => t == EnvelopeType::MicGrant,
            Payload::MicRevoke(_) => t == EnvelopeType::MicRevoke,
            Payload::Result(p) => t == EnvelopeType::Result && p.content.kind() == p.message_type,
            Payload::Reject(_) => t == EnvelopeType::Reject,
            Payload::Heartbeat(_) => t == EnvelopeType::Heartbeat,
            Payload::Other => true,
        }
    }
}

/// The canonical message envelope.
#[derive(Clone, Debug)]
pub struct Envelope {
    /// Globally unique message id.
    pub id: String,
    pub message_type: EnvelopeType,
    pub room_id: String,
    pub from: Sender,
    /// Unix seconds.
    pub ts: u64,
    pub payload: Payload,
}

impl Envelope {
    /// The envelope's type and payload agree.
    pub open spec fn well_formed(self) -> bool {
        self.payload.agrees_with(self.message_type)
    }
}

} // verus!

verus! {

/// An envelope to publish, with the topic it goes to.
#[derive(Clone, Debug)]
pub struct Outgoing {
    pub topic: String,
    pub envelope: Envelope,
}

/// The smaller of `a + b` and the largest `u64`.
pub open spec fn sat_add(a: u64, b: u64) -> u64 {
    if a + b > u64::MAX {
        u64::MAX
    } else {
        (a + b) as u64
    }
}

} // verus!
