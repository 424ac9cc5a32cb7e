//! The wire format of envelopes as JSON objects.
//!
//! Each type has a decoding relation, `..._decodes(v, x)`: the JSON value `v`
//! reads as `x`. Decoders return a value in that relation exactly when there
//! is one, encoders return a value that decodes to their input, and the
//! relation determines what it reads, so encoding then decoding gives back
//! the value encoded. Members that a type does not know are ignored on read;
//! absent optional members read as absent; absent values are written as null.

use vstd::prelude::*;
use crate::agent_registry::opt_view;
use crate::json::{
    field, get, get_opt_str, get_opt_u64, get_str, get_u64, lemma_lookup_unique, lookup, opt_str_at,
    opt_u64_at, str_at, str_value, u64_at, JsonValue, Member,
};
use crate::message::{
    AckContent, ArtifactLinkContent, ClarifyingQuestionContent, Envelope, EnvelopeType,
    FindingContent, HeartbeatPayload, MicGrantPayload, MicRevokePayload, Payload, ProgressContent,
    RejectPayload, ResultContent, ResultMessageType, ResultOutcome, ResultPayload, RiskContent,
    SayPayload, Sender, SenderKind, TaskPayload,
};

verus! {

/// The envelope type whose token is `s`.
pub open spec fn envelope_type_of(s: Seq<char>) -> Option<EnvelopeType> {
    if s == "say"@ {
        Some(EnvelopeType::Say)
    } else if s == "task"@ {
        Some(EnvelopeType::Task)
    } else if s == "mic_grant"@ {
        Some(EnvelopeType::MicGrant)
    } else if s == "mic_revoke"@ {
        Some(EnvelopeType::MicRevoke)
    } else if s == "result"@ {
        Some(EnvelopeType::Result)
    } else if s == "reject"@ {
        Some(EnvelopeType::Reject)
    } else if s == "heartbeat"@ {
        Some(EnvelopeType::Heartbeat)
    } else if s == "summary"@ {
        Some(EnvelopeType::Summary)
    } else {
        None
    }
}

/// The sender kind whose token is `s`.
pub open spec fn sender_kind_of(s: Seq<char>) -> Option<SenderKind> {
    if s == "user"@ {
        Some(SenderKind::User)
    } else if s == "agent"@ {
        Some(SenderKind::Agent)
    } else if s == "system"@ {
        Some(SenderKind::System)
    } else {
        None
    }
}

/// The result kind whose token is `s`.
pub open spec fn result_type_of(s: Seq<char>) -> Option<ResultMessageType> {
    if s == "ack"@ {
        Some(ResultMessageType::Ack)
    } else if s == "clarifying_question"@ {
        Some(ResultMessageType::ClarifyingQuestion)
    } else if s == "progress"@ {
        Some(ResultMessageType::Progress)
    } else if s == "finding"@ {
        Some(ResultMessageType::Finding)
    } else if s == "risk"@ {
        Some(ResultMessageType::Risk)
    } else if s == "result"@ {
        Some(ResultMessageType::Result)
    } else if s == "artifact_link"@ {
        Some(ResultMessageType::ArtifactLink)
    } else {
        None
    }
}

/// Each envelope type reads back from its token.
pub proof fn lemma_envelope_type_token(t: EnvelopeType)
    ensures
        envelope_type_of(t.token()) == Some(t),
{
    reveal_strlit("say");
    reveal_strlit("task");
    reveal_strlit("mic_grant");
    reveal_strlit("mic_revoke");
    reveal_strlit("result");
    reveal_strlit("reject");
    reveal_strlit("heartbeat");
    reveal_strlit("summary");
    assert("say"@.len() == 3);
    assert("task"@.len() == 4);
    assert("mic_grant"@.len() == 9);
    assert("mic_revoke"@.len() == 10);
    assert("result"@.len() == 6);
    assert("reject"@.len() == 6);
    assert("heartbeat"@.len() == 9);
    assert("summary"@.len() == 7);
    assert("result"@[2] != "reject"@[2]);
    assert("mic_grant"@[0] != "heartbeat"@[0]);
}

/// Each sender kind reads back from its token.
pub proof fn lemma_sender_kind_token(k: SenderKind)
    ensures
        sender_kind_of(k.token()) == Some(k),
{
    reveal_strlit("user");
    reveal_strlit("agent");
    reveal_strlit("system");
    assert("user"@.len() == 4);
    assert("agent"@.len() == 5);
    assert("system"@.len() == 6);
}

/// Each result kind reads back from its token.
pub proof fn lemma_result_type_token(k: ResultMessageType)
    ensures
        result_type_of(k.token()) == Some(k),
{
    reveal_strlit("ack");
    reveal_strlit("clarifying_question");
    reveal_strlit("progress");
    reveal_strlit("finding");
    reveal_strlit("risk");
    reveal_strlit("result");
    reveal_strlit("artifact_link");
    assert("ack"@.len() == 3);
    assert("clarifying_question"@.len() == 19);
    assert("progress"@.len() == 8);
    assert("finding"@.len() == 7);
    assert("risk"@.len() == 4);
    assert("result"@.len() == 6);
    assert("artifact_link"@.len() == 13);
}

fn same_text(s: &str, t: &str) -> (r: bool)
    ensures
        r == (s@ == t@),
{
    String::from_str(s) == String::from_str(t)
}

impl EnvelopeType {
    /// The envelope type whose token is `s`.
    pub fn from_token(s: &str) -> (r: Option<Self>)
        ensures
            r == envelope_type_of(s@),
    {
        if same_text(s, "say") {
            Some(EnvelopeType::Say)
        } else if same_text(s, "task") {
            Some(EnvelopeType::Task)
        } else if same_text(s, "mic_grant") {
            Some(EnvelopeType::MicGrant)
        } else if same_text(s, "mic_revoke") {
            Some(EnvelopeType::MicRevoke)
        } else if same_text(s, "result") {
            Some(EnvelopeType::Result)
        } else if same_text(s, "reject") {
            Some(EnvelopeType::Reject)
        } else if same_text(s, "heartbeat") {
            Some(EnvelopeType::Heartbeat)
        } else if same_text(s, "summary") {
            Some(EnvelopeType::Summary)
        } else {
            None
        }
    }
}

impl SenderKind {
    /// The sender kind whose token is `s`.
    pub fn from_token(s: &str) -> (r: Option<Self>)
        ensures
            r == sender_kind_of(s@),
    {
        if same_text(s, "user") {
            Some(SenderKind::User)
        } else if same_text(s, "agent") {
            Some(SenderKind::Agent)
        } else if same_text(s, "system") {
            Some(SenderKind::System)
        } else {
            None
        }
    }
}

impl ResultMessageType {
    /// The result kind whose token is `s`.
    pub fn from_token(s: &str) -> (r: Option<Self>)
        ensures
            r == result_type_of(s@),
    {
        if same_text(s, "ack") {
            Some(ResultMessageType::Ack)
        } else if same_text(s, "clarifying_question") {
            Some(ResultMessageType::ClarifyingQuestion)
        } else if same_text(s, "progress") {
            Some(ResultMessageType::Progress)
        } else if same_text(s, "finding") {
            Some(ResultMessageType::Finding)
        } else if same_text(s, "risk") {
            Some(ResultMessageType::Risk)
        } else if same_text(s, "result") {
            Some(ResultMessageType::Result)
        } else if same_text(s, "artifact_link") {
            Some(ResultMessageType::ArtifactLink)
        } else {
            None
        }
    }
}

/// A member named `key` with value `value`.
pub fn member(key: &str, value: JsonValue) -> (r: Member)
    ensures
        r.key@ == key@,
        r.value == value,
{
    Member { key: String::from_str(key), value }
}

/// The optional string `s` as a value: the string, or null.
pub fn opt_str_value(s: &Option<String>) -> (r: JsonValue)
    ensures
        match *s {
            Some(t) => r matches JsonValue::Str(u) && u@ == t@,
            None => r is Null,
        },
{
    match s {
        Some(t) => str_value(t),
        None => JsonValue::Null,
    }
}

/// The optional integer `n` as a value: the number, or null.
pub fn opt_u64_value(n: Option<u64>) -> (r: JsonValue)
    ensures
        match n {
            Some(m) => r == JsonValue::Number(m),
            None => r is Null,
        },
{
    match n {
        Some(m) => JsonValue::Number(m),
        None => JsonValue::Null,
    }
}

/// The strings that the elements of `a` are, where all are strings.
pub open spec fn strs_of(a: Seq<JsonValue>) -> Option<Seq<Seq<char>>> {
    if forall|i: int| 0 <= i < a.len() ==> (#[trigger] a[i]) is Str {
        Some(Seq::new(a.len(), |i: int| a[i]->Str_0@))
    } else {
        None
    }
}

/// The result kinds that the elements of `a` name, where all do.
pub open spec fn kinds_of(a: Seq<JsonValue>) -> Option<Seq<ResultMessageType>> {
    if forall|i: int|
        0 <= i < a.len() ==> ((#[trigger] a[i]) matches JsonValue::Str(s) && result_type_of(s@) is Some) {
        Some(Seq::new(a.len(), |i: int| result_type_of(a[i]->Str_0@).unwrap()))
    } else {
        None
    }
}

/// The strings of `v`.
pub open spec fn strs_view(v: Seq<String>) -> Seq<Seq<char>> {
    v.map_values(|s: String| s@)
}

/// An array of the strings `v`.
pub fn strs_value(v: &Vec<String>) -> (r: JsonValue)
    ensures
        r matches JsonValue::Array(a) && strs_of(a@) == Some(strs_view(v@)),
{
    let mut a: Vec<JsonValue> = Vec::new();
    let mut i: usize = 0;
    while i < v.len()
        invariant
            i <= v@.len(),
            a@.len() == i,
            forall|j: int| 0 <= j < i ==> ((#[trigger] a@[j]) matches JsonValue::Str(s) && s@ == v@[j]@),
        decreases v@.len() - i,
    {
        a.push(str_value(&v[i]));
        i = i + 1;
    }
    assert(Seq::new(a@.len(), |i: int| a@[i]->Str_0@) =~= strs_view(v@));
    JsonValue::Array(a)
}

/// The strings of the array `a`, where all its elements are strings.
pub fn strs_from(a: &Vec<JsonValue>) -> (r: Option<Vec<String>>)
    ensures
        match r {
            Some(v) => strs_of(a@) == Some(strs_view(v@)),
            None => strs_of(a@) is None,
        },
{
    let mut v: Vec<String> = Vec::new();
    let mut i: usize = 0;
    while i < a.len()
        invariant
            i <= a@.len(),
            v@.len() == i,
            forall|j: int| 0 <= j < i ==> ((#[trigger] a@[j]) matches JsonValue::Str(s) && s@ == v@[j]@),
        decreases a@.len() - i,
    {
        match &a[i] {
            JsonValue::Str(s) => v.push(s.clone()),
            _ => {
                return None;
            },
        }
        i = i + 1;
    }
    assert(Seq::new(a@.len(), |i: int| a@[i]->Str_0@) =~= strs_view(v@));
    Some(v)
}

/// An array of the tokens of `kinds`.
pub fn kinds_value(kinds: &Vec<ResultMessageType>) -> (r: JsonValue)
    ensures
        r matches JsonValue::Array(a) && kinds_of(a@) == Some(kinds@),
{
    let mut a: Vec<JsonValue> = Vec::new();
    let mut i: usize = 0;
    while i < kinds.len()
        invariant
            i <= kinds@.len(),
            a@.len() == i,
            forall|j: int|
                0 <= j < i ==> ((#[trigger] a@[j]) matches JsonValue::Str(s) && s@ == kinds@[j].token()),
        decreases kinds@.len() - i,
    {
        a.push(JsonValue::Str(String::from_str(kinds[i].as_str())));
        i = i + 1;
    }
    assert forall|j: int| 0 <= j < a@.len() implies (#[trigger] a@[j]) matches JsonValue::Str(s)
        && result_type_of(s@) == Some(kinds@[j]) by {
        lemma_result_type_token(kinds@[j]);
    }
    assert(Seq::new(a@.len(), |i: int| result_type_of(a@[i]->Str_0@).unwrap()) =~= kinds@);
    JsonValue::Array(a)
}

/// The result kinds that the array `a` names, where all its elements do.
pub fn kinds_from(a: &Vec<JsonValue>) -> (r: Option<Vec<ResultMessageType>>)
    ensures
        match r {
            Some(v) => kinds_of(a@) == Some(v@),
            None => kinds_of(a@) is None,
        },
{
    let mut v: Vec<ResultMessageType> = Vec::new();
    let mut i: usize = 0;
    while i < a.len()
        invariant
            i <= a@.len(),
            v@.len() == i,
            forall|j: int|
                0 <= j < i ==> ((#[trigger] a@[j]) matches JsonValue::Str(s) && result_type_of(s@)
                    == Some(v@[j])),
        decreases a@.len() - i,
    {
        match &a[i] {
            JsonValue::Str(s) => match ResultMessageType::from_token(s.as_str()) {
                Some(k) => v.push(k),
                None => {
                    return None;
                },
            },
            _ => {
                return None;
            },
        }
        i = i + 1;
    }
    assert(Seq::new(a@.len(), |i: int| result_type_of(a@[i]->Str_0@).unwrap()) =~= v@);
    Some(v)
}

/// Members with distinct names are each found by their name.
pub proof fn lemma_members(es: Seq<Member>)
    requires
        forall|i: int, j: int| 0 <= i < j < es.len() ==> es[i].key@ != es[j].key@,
    ensures
        forall|i: int| 0 <= i < es.len() ==> lookup(es, #[trigger] es[i].key@) == Some(es[i].value),
{
    assert forall|i: int| 0 <= i < es.len() implies lookup(es, #[trigger] es[i].key@) == Some(
        es[i].value,
    ) by {
        assert forall|j: int| 0 <= j < es.len() && j != i implies (#[trigger] es[j]).key@
            != es[i].key@ by {
            if j < i {
                assert(es[j].key@ != es[i].key@);
            } else {
                assert(es[i].key@ != es[j].key@);
            }
        }
        lemma_lookup_unique(es, i);
    }
}

// ---- say ----

pub open spec fn say_ok(v: JsonValue) -> bool {
    str_at(v, "text"@) is Some
}

pub open spec fn say_decodes(v: JsonValue, p: SayPayload) -> bool {
    str_at(v, "text"@) == Some(p.text@)
}

impl SayPayload {
    pub fn to_json(&self) -> (r: JsonValue)
        ensures
            say_decodes(r, *self),
    {
        let mut es: Vec<Member> = Vec::new();
        es.push(member("text", str_value(&self.text)));
        proof {
            lemma_members(es@);
            assert(es@[0].key@ == "text"@);
        }
        JsonValue::Object(es)
    }

    pub fn from_json(v: &JsonValue) -> (r: Option<Self>)
        ensures
            match r {
                Some(p) => say_decodes(*v, p),
                None => !say_ok(*v),
            },
    {
        match get_str(v, "text") {
            Some(text) => Some(SayPayload { text }),
            None => None,
        }
    }
}

// ---- task ----

pub open spec fn task_ok(v: JsonValue) -> bool {
    &&& str_at(v, "task_id"@) is Some
    &&& str_at(v, "goal"@) is Some
    &&& opt_str_at(v, "format"@) is Some
    &&& opt_u64_at(v, "deadline"@) is Some
}

pub open spec fn task_decodes(v: JsonValue, p: TaskPayload) -> bool {
    &&& str_at(v, "task_id"@) == Some(p.task_id@)
    &&& str_at(v, "goal"@) == Some(p.goal@)
    &&& opt_str_at(v, "format"@) == Some(opt_view(p.format))
    &&& opt_u64_at(v, "deadline"@) == Some(p.deadline)
}

impl TaskPayload {
    pub fn to_json(&self) -> (r: JsonValue)
        ensures
            task_decodes(r, *self),
    {
        let mut es: Vec<Member> = Vec::new();
        es.push(member("task_id", str_value(&self.task_id)));
        es.push(member("goal", str_value(&self.goal)));
        es.push(member("format", opt_str_value(&self.format)));
        es.push(member("deadline", opt_u64_value(self.deadline)));
        proof {
            reveal_strlit("task_id");
            reveal_strlit("goal");
            reveal_strlit("format");
            reveal_strlit("deadline");
            assert("task_id"@.len() == 7);
            assert("goal"@.len() == 4);
            assert("format"@.len() == 6);
            assert("deadline"@.len() == 8);
            lemma_members(es@);
            assert(es@[0].key@ == "task_id"@);
            assert(es@[1].key@ == "goal"@);
            assert(es@[2].key@ == "format"@);
            assert(es@[3].key@ == "deadline"@);
        }
        JsonValue::Object(es)
    }

    pub fn from_json(v: &JsonValue) -> (r: Option<Self>)
        ensures
            match r {
                Some(p) => task_decodes(*v, p),
                None => !task_ok(*v),
            },
    {
        let task_id = match get_str(v, "task_id") {
            Some(s) => s,
            None => {
                return None;
            },
        };
        let goal = match get_str(v, "goal") {
            Some(s) => s,
            None => {
                return None;
            },
        };
        let format = match get_opt_str(v, "format") {
            Some(s) => s,
            None => {
                return None;
            },
        };
        let deadline = match get_opt_u64(v, "deadline") {
            Some(d) => d,
            None => {
                return None;
            },
        };
        Some(TaskPayload { task_id, goal, format, deadline })
    }
}

// ---- mic grant ----

pub open spec fn grant_ok(v: JsonValue) -> bool {
    &&& str_at(v, "task_id"@) is Some
    &&& str_at(v, "agent_id"@) is Some
    &&& (u64_at(v, "max_messages"@) matches Some(n) && n <= u32::MAX)
    &&& (field(v, "allowed_message_types"@) matches Some(JsonValue::Array(a)) && kinds_of(a@) is Some)
    &&& u64_at(v, "expires_at"@) is Some
}

pub open spec fn grant_decodes(v: JsonValue, p: MicGrantPayload) -> bool {
    &&& str_at(v, "task_id"@) == Some(p.task_id@)
    &&& str_at(v, "agent_id"@) == Some(p.agent_id@)
    &&& u64_at(v, "max_messages"@) == Some(p.max_messages as u64)
    &&& (field(v, "allowed_message_types"@) matches Some(JsonValue::Array(a)) && kinds_of(a@) == Some(
        p.allowed_message_types@,
    ))
    &&& u64_at(v, "expires_at"@) == Some(p.expires_at)
}

impl MicGrantPayload {
    pub fn to_json(&self) -> (r: JsonValue)
        ensures
            grant_decodes(r, *self),
    {
        let mut es: Vec<Member> = Vec::new();
        es.push(member("task_id", str_value(&self.task_id)));
        es.push(member("agent_id", str_value(&self.agent_id)));
        es.push(member("max_messages", JsonValue::Number(self.max_messages as u64)));
        es.push(member("allowed_message_types", kinds_value(&self.allowed_message_types)));
        es.push(member("expires_at", JsonValue::Number(self.expires_at)));
        proof {
            reveal_strlit("task_id");
            reveal_strlit("agent_id");
            reveal_strlit("max_messages");
            reveal_strlit("allowed_message_types");
            reveal_strlit("expires_at");
            assert("task_id"@.len() == 7);
            assert("agent_id"@.len() == 8);
            assert("max_messages"@.len() == 12);
            assert("allowed_message_types"@.len() == 21);
            assert("expires_at"@.len() == 10);
            lemma_members(es@);
            assert(es@[0].key@ == "task_id"@);
            assert(es@[1].key@ == "agent_id"@);
            assert(es@[2].key@ == "max_messages"@);
            assert(es@[3].key@ == "allowed_message_types"@);
            assert(es@[4].key@ == "expires_at"@);
        }
        JsonValue::Object(es)
    }

    pub fn from_json(v: &JsonValue) -> (r: Option<Self>)
        ensures
            match r {
                Some(p) => grant_decodes(*v, p),
                None => !grant_ok(*v),
            },
    {
        let task_id = match get_str(v, "task_id") {
            Some(s) => s,
            None => {
                return None;
            },
        };
        let agent_id = match get_str(v, "agent_id") {
            Some(s) => s,
            None => {
                return None;
            },
        };
        let max_messages = match get_u64(v, "max_messages") {
            Some(n) => if n <= u32::MAX as u64 {
                n as u32
            } else {
                return None;
            },
            None => {
                return None;
            },
        };
        let allowed_message_types = match get(v, "allowed_message_types") {
            Some(JsonValue::Array(a)) => match kinds_from(a) {
                Some(k) => k,
                None => {
                    return None;
                },
            },
            _ => {
                return None;
            },
        };
        let expires_at = match get_u64(v, "expires_at") {
            Some(n) => n,
            None => {
                return None;
            },
        };
        Some(MicGrantPayload { task_id, agent_id, max_messages, allowed_message_types, expires_at })
    }
}

// ---- mic revoke ----

pub open spec fn revoke_ok(v: JsonValue) -> bool {
    &&& str_at(v, "task_id"@) is Some
    &&& str_at(v, "agent_id"@) is Some
}

pub open spec fn revoke_decodes(v: JsonValue, p: MicRevokePayload) -> bool {
    &&& str_at(v, "task_id"@) == Some(p.task_id@)
    &&& str_at(v, "agent_id"@) == Some(p.agent_id@)
}

impl MicRevokePayload {
    pub fn to_json(&self) -> (r: JsonValue)
        ensures
            revoke_decodes(r, *self),
    {
        let mut es: Vec<Member> = Vec::new();
        es.push(member("task_id", str_value(&self.task_id)));
        es.push(member("agent_id", str_value(&self.agent_id)));
        proof {
            reveal_strlit("task_id");
            reveal_strlit("agent_id");
            assert("task_id"@.len() == 7);
            assert("agent_id"@.len() == 8);
            lemma_members(es@);
            assert(es@[0].key@ == "task_id"@);
            assert(es@[1].key@ == "agent_id"@);
        }
        JsonValue::Object(es)
    }

    pub fn from_json(v: &JsonValue) -> (r: Option<Self>)
        ensures
            match r {
                Some(p) => revoke_decodes(*v, p),
                None => !revoke_ok(*v),
            },
    {
        let task_id = match get_str(v, "task_id") {
            Some(s) => s,
            None => {
                return None;
            },
        };
        let agent_id = match get_str(v, "agent_id") {
            Some(s) => s,
            None => {
                return None;
            },
        };
        Some(MicRevokePayload { task_id, agent_id })
    }
}

// ---- reject ----

pub open spec fn reject_ok(v: JsonValue) -> bool {
    &&& str_at(v, "message_id"@) is Some
    &&& str_at(v, "task_id"@) is Some
    &&& str_at(v, "reason"@) is Some
}

pub open spec fn reject_decodes(v: JsonValue, p: RejectPayload) -> bool {
    &&& str_at(v, "message_id"@) == Some(p.message_id@)
    &&& str_at(v, "task_id"@) == Some(p.task_id@)
    &&& str_at(v, "reason"@) == Some(p.reason@)
}

impl RejectPayload {
    pub fn to_json(&self) -> (r: JsonValue)
        ensures
            reject_decodes(r, *self),
    {
        let mut es: Vec<Member> = Vec::new();
        es.push(member("message_id", str_value(&self.message_id)));
        es.push(member("task_id", str_value(&self.task_id)));
        es.push(member("reason", str_value(&self.reason)));
        proof {
            reveal_strlit("message_id");
            reveal_strlit("task_id");
            reveal_strlit("reason");
            assert("message_id"@.len() == 10);
            assert("task_id"@.len() == 7);
            assert("reason"@.len() == 6);
            lemma_members(es@);
            assert(es@[0].key@ == "message_id"@);
            assert(es@[1].key@ == "task_id"@);
            assert(es@[2].key@ == "reason"@);
        }
        JsonValue::Object(es)
    }

    pub fn from_json(v: &JsonValue) -> (r: Option<Self>)
        ensures
            match r {
                Some(p) => reject_decodes(*v, p),
                None => !reject_ok(*v),
            },
    {
        let message_id = match get_str(v, "message_id") {
            Some(s) => s,
            None => {
                return None;
            },
        };
        let task_id = match get_str(v, "task_id") {
            Some(s) => s,
            None => {
                return None;
            },
        };
        let reason = match get_str(v, "reason") {
            Some(s) => s,
            None => {
                return None;
            },
        };
        Some(RejectPayload { message_id, task_id, reason })
    }
}

// ---- heartbeat ----

pub open spec fn heartbeat_ok(v: JsonValue) -> bool {
    &&& u64_at(v, "ts"@) is Some
    &&& opt_str_at(v, "description"@) is Some
}

pub open spec fn heartbeat_decodes(v: JsonValue, p: HeartbeatPayload) -> bool {
    &&& u64_at(v, "ts"@) == Some(p.ts)
    &&& opt_str_at(v, "description"@) == Some(opt_view(p.description))
}

impl HeartbeatPayload {
    pub fn to_json(&self) -> (r: JsonValue)
        ensures
            heartbeat_decodes(r, *self),
    {
        let mut es: Vec<Member> = Vec::new();
        es.push(member("ts", JsonValue::Number(self.ts)));
        es.push(member("description", opt_str_value(&self.description)));
        proof {
            reveal_strlit("ts");
            reveal_strlit("description");
            assert("ts"@.len() == 2);
            assert("description"@.len() == 11);
            lemma_members(es@);
            assert(es@[0].key@ == "ts"@);
            assert(es@[1].key@ == "description"@);
        }
        JsonValue::Object(es)
    }

    pub fn from_json(v: &JsonValue) -> (r: Option<Self>)
        ensures
            match r {
                Some(p) => heartbeat_decodes(*v, p),
                None => !heartbeat_ok(*v),
            },
    {
        let ts = match get_u64(v, "ts") {
            Some(n) => n,
            None => {
                return None;
            },
        };
        let description = match get_opt_str(v, "description") {
            Some(s) => s,
            None => {
                return None;
            },
        };
        Some(HeartbeatPayload { ts, description })
    }
}

// ---- result content ----

/// The optional member `bullets` of `c`: absent or null, or an array of strings.
pub open spec fn bullets_at(c: JsonValue) -> Option<Option<Seq<Seq<char>>>> {
    match field(c, "bullets"@) {
        None => Some(None),
        Some(JsonValue::Null) => Some(None),
        Some(JsonValue::Array(a)) => match strs_of(a@) {
            Some(x) => Some(Some(x)),
            None => None,
        },
        _ => None,
    }
}

pub open spec fn bullets_view(o: Option<Vec<String>>) -> Option<Seq<Seq<char>>> {
    match o {
        Some(v) => Some(strs_view(v@)),
        None => None,
    }
}

/// Whether `c` reads as content of kind `k`.
pub open spec fn content_ok(c: JsonValue, k: ResultMessageType) -> bool {
    match k {
        ResultMessageType::Ack => str_at(c, "text"@) is Some,
        ResultMessageType::ClarifyingQuestion => str_at(c, "question"@) is Some,
        ResultMessageType::Progress => str_at(c, "text"@) is Some,
        ResultMessageType::Finding => bullets_at(c) is Some && opt_str_at(c, "text"@) is Some,
        ResultMessageType::Risk => str_at(c, "text"@) is Some && opt_str_at(c, "severity"@) is Some
            && opt_str_at(c, "mitigation"@) is Some,
        ResultMessageType::Result => str_at(c, "text"@) is Some,
        ResultMessageType::ArtifactLink => str_at(c, "label"@) is Some && str_at(c, "url"@) is Some,
    }
}

/// `c` reads as `x`, content of kind `k`.
pub open spec fn content_decodes(c: JsonValue, k: ResultMessageType, x: ResultContent) -> bool {
    &&& x.kind() == k
    &&& match x {
        ResultContent::Ack(a) => str_at(c, "text"@) == Some(a.text@),
        ResultContent::ClarifyingQuestion(q) => str_at(c, "question"@) == Some(q.question@),
        ResultContent::Progress(p) => str_at(c, "text"@) == Some(p.text@),
        ResultContent::Finding(f) => bullets_at(c) == Some(bullets_view(f.bullets)) && opt_str_at(
            c,
            "text"@,
        ) == Some(opt_view(f.text)),
        ResultContent::Risk(r) => str_at(c, "text"@) == Some(r.text@) && opt_str_at(c, "severity"@)
            == Some(opt_view(r.severity)) && opt_str_at(c, "mitigation"@) == Some(
            opt_view(r.mitigation),
        ),
        ResultContent::Result(o) => str_at(c, "text"@) == Some(o.text@),
        ResultContent::ArtifactLink(l) => str_at(c, "label"@) == Some(l.label@) && str_at(c, "url"@)
            == Some(l.url@),
    }
}

fn object1(k0: &str, v0: JsonValue) -> (r: JsonValue)
    ensures
        field(r, k0@) == Some(v0),
{
    let mut es: Vec<Member> = Vec::new();
    es.push(member(k0, v0));
    proof {
        lemma_members(es@);
        assert(es@[0].key@ == k0@);
    }
    JsonValue::Object(es)
}

fn object2(k0: &str, v0: JsonValue, k1: &str, v1: JsonValue) -> (r: JsonValue)
    requires
        k0@ != k1@,
    ensures
        field(r, k0@) == Some(v0),
        field(r, k1@) == Some(v1),
{
    let mut es: Vec<Member> = Vec::new();
    es.push(member(k0, v0));
    es.push(member(k1, v1));
    proof {
        lemma_members(es@);
        assert(es@[0].key@ == k0@);
        assert(es@[1].key@ == k1@);
    }
    JsonValue::Object(es)
}

fn object3(k0: &str, v0: JsonValue, k1: &str, v1: JsonValue, k2: &str, v2: JsonValue) -> (r:
    JsonValue)
    requires
        k0@ != k1@,
        k0@ != k2@,
        k1@ != k2@,
    ensures
        field(r, k0@) == Some(v0),
        field(r, k1@) == Some(v1),
        field(r, k2@) == Some(v2),
{
    let mut es: Vec<Member> = Vec::new();
    es.push(member(k0, v0));
    es.push(member(k1, v1));
    es.push(member(k2, v2));
    proof {
        lemma_members(es@);
        assert(es@[0].key@ == k0@);
        assert(es@[1].key@ == k1@);
        assert(es@[2].key@ == k2@);
    }
    JsonValue::Object(es)
}

impl ResultContent {
    pub fn to_json(&self) -> (r: JsonValue)
        ensures
            content_decodes(r, self.kind(), *self),
    {
        proof {
            reveal_strlit("text");
            reveal_strlit("bullets");
            reveal_strlit("severity");
            reveal_strlit("mitigation");
            reveal_strlit("label");
            reveal_strlit("url");
            assert("text"@.len() == 4);
            assert("bullets"@.len() == 7);
            assert("severity"@.len() == 8);
            assert("mitigation"@.len() == 10);
            assert("label"@.len() == 5);
            assert("url"@.len() == 3);
        }
        match self {
            ResultContent::Ack(a) => object1("text", str_value(&a.text)),
            ResultContent::ClarifyingQuestion(q) => object1("question", str_value(&q.question)),
            ResultContent::Progress(p) => object1("text", str_value(&p.text)),
            ResultContent::Finding(f) => {
                let b = match &f.bullets {
                    Some(v) => strs_value(v),
                    None => JsonValue::Null,
                };
                object2("bullets", b, "text", opt_str_value(&f.text))
            },
            ResultContent::Risk(k) => object3(
                "text",
                str_value(&k.text),
                "severity",
                opt_str_value(&k.severity),
                "mitigation",
                opt_str_value(&k.mitigation),
            ),
            ResultContent::Result(o) => object1("text", str_value(&o.text)),
            ResultContent::ArtifactLink(l) => object2(
                "label",
                str_value(&l.label),
                "url",
                str_value(&l.url),
            ),
        }
    }

    /// Reads `c` as content of kind `k`.
    pub fn from_json(c: &JsonValue, k: ResultMessageType) -> (r: Option<Self>)
        ensures
            match r {
                Some(x) => content_decodes(*c, k, x),
                None => !content_ok(*c, k),
            },
    {
        match k {
            ResultMessageType::Ack => match get_str(c, "text") {
                Some(text) => Some(ResultContent::Ack(AckContent { text })),
                None => None,
            },
            ResultMessageType::ClarifyingQuestion => match get_str(c, "question") {
                Some(question) => Some(
                    ResultContent::ClarifyingQuestion(ClarifyingQuestionContent { question }),
                ),
                None => None,
            },
            ResultMessageType::Progress => match get_str(c, "text") {
                Some(text) => Some(ResultContent::Progress(ProgressContent { text })),
                None => None,
            },
            ResultMessageType::Finding => {
                let bullets = match get(c, "bullets") {
                    None => None,
                    Some(JsonValue::Null) => None,
                    Some(JsonValue::Array(a)) => match strs_from(a) {
                        Some(v) => Some(v),
                        None => {
                            return None;
                        },
                    },
                    _ => {
                        return None;
                    },
                };
                match get_opt_str(c, "text") {
                    Some(text) => Some(ResultContent::Finding(FindingContent { bullets, text })),
                    None => None,
                }
            },
            ResultMessageType::Risk => {
                let text = match get_str(c, "text") {
                    Some(t) => t,
                    None => {
                        return None;
                    },
                };
                let severity = match get_opt_str(c, "severity") {
                    Some(t) => t,
                    None => {
                        return None;
                    },
                };
                let mitigation = match get_opt_str(c, "mitigation") {
                    Some(t) => t,
                    None => {
                        return None;
                    },
                };
                Some(ResultContent::Risk(RiskContent { text, severity, mitigation }))
            },
            ResultMessageType::Result => match get_str(c, "text") {
                Some(text) => Some(ResultContent::Result(ResultOutcome { text })),
                None => None,
            },
            ResultMessageType::ArtifactLink => {
                let label = match get_str(c, "label") {
                    Some(t) => t,
                    None => {
                        return None;
                    },
                };
                let url = match get_str(c, "url") {
                    Some(t) => t,
                    None => {
                        return None;
                    },
                };
                Some(ResultContent::ArtifactLink(ArtifactLinkContent { label, url }))
            },
        }
    }
}

// ---- result ----

pub open spec fn result_ok(v: JsonValue) -> bool {
    &&& str_at(v, "task_id"@) is Some
    &&& (str_at(v, "message_type"@) matches Some(s) && result_type_of(s) is Some && (field(
        v,
        "content"@,
    ) matches Some(c) && content_ok(c, result_type_of(s).unwrap())))
}

pub open spec fn result_decodes(v: JsonValue, p: ResultPayload) -> bool {
    &&& str_at(v, "task_id"@) == Some(p.task_id@)
    &&& (str_at(v, "message_type"@) matches Some(s) && result_type_of(s) == Some(p.message_type))
    &&& (field(v, "content"@) matches Some(c) && content_decodes(c, p.message_type, p.content))
}

impl ResultPayload {
    /// Encodes the payload; it reads back where its content is of its kind.
    pub fn to_json(&self) -> (r: JsonValue)
        ensures
            self.content.kind() == self.message_type ==> result_decodes(r, *self),
    {
        proof {
            reveal_strlit("task_id");
            reveal_strlit("message_type");
            reveal_strlit("content");
            assert("task_id"@.len() == 7);
            assert("message_type"@.len() == 12);
            assert("content"@.len() == 7);
            assert("task_id"@[0] != "content"@[0]);
            lemma_result_type_token(self.message_type);
        }
        object3(
            "task_id",
            str_value(&self.task_id),
            "message_type",
            JsonValue::Str(String::from_str(self.message_type.as_str())),
            "content",
            self.content.to_json(),
        )
    }

    pub fn from_json(v: &JsonValue) -> (r: Option<Self>)
        ensures
            match r {
                Some(p) => result_decodes(*v, p),
                None => !result_ok(*v),
            },
    {
        let task_id = match get_str(v, "task_id") {
            Some(s) => s,
            None => {
                return None;
            },
        };
        let message_type = match get_str(v, "message_type") {
            Some(s) => match ResultMessageType::from_token(s.as_str()) {
                Some(k) => k,
                None => {
                    return None;
                },
            },
            None => {
                return None;
            },
        };
        let content = match get(v, "content") {
            Some(c) => match ResultContent::from_json(c, message_type) {
                Some(x) => x,
                None => {
                    return None;
                },
            },
            None => {
                return None;
            },
        };
        Some(ResultPayload { task_id, message_type, content })
    }
}

// ---- payload ----

/// Whether `v` reads as a payload of envelope type `t`.
pub open spec fn payload_ok(v: JsonValue, t: EnvelopeType) -> bool {
    match t {
        EnvelopeType::Say => say_ok(v),
        EnvelopeType::Task => task_ok(v),
        EnvelopeType::MicGrant => grant_ok(v),
        EnvelopeType::MicRevoke => revoke_ok(v),
        EnvelopeType::Result => result_ok(v),
        EnvelopeType::Reject => reject_ok(v),
        EnvelopeType::Heartbeat => heartbeat_ok(v),
        EnvelopeType::Summary => false,
    }
}

/// `v` reads as payload `p` of an envelope of type `t`; a value that does
/// not have the shape that `t` calls for reads as `Other`.
pub open spec fn payload_decodes(v: JsonValue, t: EnvelopeType, p: Payload) -> bool {
    match p {
        Payload::Say(x) => t == EnvelopeType::Say && say_decodes(v, x),
        Payload::Task(x) => t == EnvelopeType::Task && task_decodes(v, x),
        Payload::MicGrant(x) => t == EnvelopeType::MicGrant && grant_decodes(v, x),
        Payload::MicRevoke(x) => t == EnvelopeType::MicRevoke && revoke_decodes(v, x),
        Payload::Result(x) => t == EnvelopeType::Result && result_decodes(v, x),
        Payload::Reject(x) => t == EnvelopeType::Reject && reject_decodes(v, x),
        Payload::Heartbeat(x) => t == EnvelopeType::Heartbeat && heartbeat_decodes(v, x),
        Payload::Other => !payload_ok(v, t),
    }
}

impl Payload {
    /// Encodes the payload; `Other` is written as null.
    pub fn to_json(&self) -> (r: JsonValue)
        ensures
            forall|t: EnvelopeType| self.agrees_with(t) ==> #[trigger] payload_decodes(r, t, *self),
    {
        let r = match self {
            Payload::Say(x) => x.to_json(),
            Payload::Task(x) => x.to_json(),
            Payload::MicGrant(x) => x.to_json(),
            Payload::MicRevoke(x) => x.to_json(),
            Payload::Result(x) => x.to_json(),
            Payload::Reject(x) => x.to_json(),
            Payload::Heartbeat(x) => x.to_json(),
            Payload::Other => JsonValue::Null,
        };
        assert forall|t: EnvelopeType| self.agrees_with(t) implies #[trigger] payload_decodes(
            r,
            t,
            *self,
        ) by {
            match *self {
                Payload::Other => {
                    assert(field(r, "text"@) is None);
                },
                _ => {},
            }
        }
        r
    }

    /// Reads `v` as the payload of an envelope of type `t`.
    pub fn from_json(v: &JsonValue, t: EnvelopeType) -> (r: Payload)
        ensures
            payload_decodes(*v, t, r),
    {
        match t {
            EnvelopeType::Say => match SayPayload::from_json(v) {
                Some(x) => Payload::Say(x),
                None => Payload::Other,
            },
            EnvelopeType::Task => match TaskPayload::from_json(v) {
                Some(x) => Payload::Task(x),
                None => Payload::Other,
            },
            EnvelopeType::MicGrant => match MicGrantPayload::from_json(v) {
                Some(x) => Payload::MicGrant(x),
                None => Payload::Other,
            },
            EnvelopeType::MicRevoke => match MicRevokePayload::from_json(v) {
                Some(x) => Payload::MicRevoke(x),
                None => Payload::Other,
            },
            EnvelopeType::Result => match ResultPayload::from_json(v) {
                Some(x) => Payload::Result(x),
                None => Payload::Other,
            },
            EnvelopeType::Reject => match RejectPayload::from_json(v) {
                Some(x) => Payload::Reject(x),
                None => Payload::Other,
            },
            EnvelopeType::Heartbeat => match HeartbeatPayload::from_json(v) {
                Some(x) => Payload::Heartbeat(x),
                None => Payload::Other,
            },
            EnvelopeType::Summary => Payload::Other,
        }
    }
}

// ---- envelope ----

/// Whether `v` reads as an envelope.
pub open spec fn envelope_ok(v: JsonValue) -> bool {
    &&& str_at(v, "id"@) is Some
    &&& (str_at(v, "type"@) matches Some(s) && envelope_type_of(s) is Some)
    &&& str_at(v, "room_id"@) is Some
    &&& (field(v, "from"@) matches Some(f) && (str_at(f, "kind"@) matches Some(k) && sender_kind_of(
        k,
    ) is Some) && str_at(f, "id"@) is Some)
    &&& u64_at(v, "ts"@) is Some
    &&& field(v, "payload"@) is Some
}

/// `v` reads as envelope `e`.
pub open spec fn envelope_decodes(v: JsonValue, e: Envelope) -> bool {
    &&& str_at(v, "id"@) == Some(e.id@)
    &&& (str_at(v, "type"@) matches Some(s) && envelope_type_of(s) == Some(e.message_type))
    &&& str_at(v, "room_id"@) == Some(e.room_id@)
    &&& (field(v, "from"@) matches Some(f) && (str_at(f, "kind"@) matches Some(k) && sender_kind_of(
        k,
    ) == Some(e.from.kind)) && str_at(f, "id"@) == Some(e.from.id@))
    &&& u64_at(v, "ts"@) == Some(e.ts)
    &&& (field(v, "payload"@) matches Some(p) && payload_decodes(p, e.message_type, e.payload))
}

/// Two result contents say the same.
pub open spec fn same_content(a: ResultContent, b: ResultContent) -> bool {
    match (a, b) {
        (ResultContent::Ack(x), ResultContent::Ack(y)) => x.text@ == y.text@,
        (ResultContent::ClarifyingQuestion(x), ResultContent::ClarifyingQuestion(y)) => x.question@
            == y.question@,
        (ResultContent::Progress(x), ResultContent::Progress(y)) => x.text@ == y.text@,
        (ResultContent::Finding(x), ResultContent::Finding(y)) => bullets_view(x.bullets)
            == bullets_view(y.bullets) && opt_view(x.text) == opt_view(y.text),
        (ResultContent::Risk(x), ResultContent::Risk(y)) => x.text@ == y.text@ && opt_view(x.severity)
            == opt_view(y.severity) && opt_view(x.mitigation) == opt_view(y.mitigation),
        (ResultContent::Result(x), ResultContent::Result(y)) => x.text@ == y.text@,
        (ResultContent::ArtifactLink(x), ResultContent::ArtifactLink(y)) => x.label@ == y.label@
            && x.url@ == y.url@,
        _ => false,
    }
}

/// Two payloads say the same.
pub open spec fn same_payload(a: Payload, b: Payload) -> bool {
    match (a, b) {
        (Payload::Say(x), Payload::Say(y)) => x.text@ == y.text@,
        (Payload::Task(x), Payload::Task(y)) => x.task_id@ == y.task_id@ && x.goal@ == y.goal@
            && opt_view(x.format) == opt_view(y.format) && x.deadline == y.deadline,
        (Payload::MicGrant(x), Payload::MicGrant(y)) => x.task_id@ == y.task_id@ && x.agent_id@
            == y.agent_id@ && x.max_messages == y.max_messages && x.allowed_message_types@
            == y.allowed_message_types@ && x.expires_at == y.expires_at,
        (Payload::MicRevoke(x), Payload::MicRevoke(y)) => x.task_id@ == y.task_id@ && x.agent_id@
            == y.agent_id@,
        (Payload::Result(x), Payload::Result(y)) => x.task_id@ == y.task_id@ && x.message_type
            == y.message_type && same_content(x.content, y.content),
        (Payload::Reject(x), Payload::Reject(y)) => x.message_id@ == y.message_id@ && x.task_id@
            == y.task_id@ && x.reason@ == y.reason@,
        (Payload::Heartbeat(x), Payload::Heartbeat(y)) => x.ts == y.ts && opt_view(x.description)
            == opt_view(y.description),
        (Payload::Other, Payload::Other) => true,
        _ => false,
    }
}

/// Two envelopes say the same: equal in every field that they carry.
pub open spec fn same_envelope(a: Envelope, b: Envelope) -> bool {
    &&& a.id@ == b.id@
    &&& a.message_type == b.message_type
    &&& a.room_id@ == b.room_id@
    &&& a.from.kind == b.from.kind
    &&& a.from.id@ == b.from.id@
    &&& a.ts == b.ts
    &&& same_payload(a.payload, b.payload)
}

impl Envelope {
    /// Encodes the envelope; a well-formed one reads back as itself.
    pub fn to_json(&self) -> (r: JsonValue)
        ensures
            self.well_formed() ==> envelope_decodes(r, *self),
    {
        proof {
            reveal_strlit("kind");
            reveal_strlit("id");
            assert("kind"@.len() == 4);
            assert("id"@.len() == 2);
        }
        let from = object2(
            "kind",
            JsonValue::Str(String::from_str(self.from.kind.as_str())),
            "id",
            str_value(&self.from.id),
        );
        let payload = self.payload.to_json();
        let mut es: Vec<Member> = Vec::new();
        es.push(member("id", str_value(&self.id)));
        es.push(member("type", JsonValue::Str(String::from_str(self.message_type.as_str()))));
        es.push(member("room_id", str_value(&self.room_id)));
        es.push(member("from", from));
        es.push(member("ts", JsonValue::Number(self.ts)));
        es.push(member("payload", payload));
        proof {
            reveal_strlit("id");
            reveal_strlit("type");
            reveal_strlit("room_id");
            reveal_strlit("from");
            reveal_strlit("ts");
            reveal_strlit("payload");
            reveal_strlit("kind");
            assert("id"@.len() == 2);
            assert("type"@.len() == 4);
            assert("room_id"@.len() == 7);
            assert("from"@.len() == 4);
            assert("ts"@.len() == 2);
            assert("payload"@.len() == 7);
            assert("kind"@.len() == 4);
            assert("id"@[0] != "ts"@[0]);
            assert("type"@[0] != "from"@[0]);
            assert("room_id"@[0] != "payload"@[0]);
            lemma_members(es@);
            assert(es@[0].key@ == "id"@);
            assert(es@[1].key@ == "type"@);
            assert(es@[2].key@ == "room_id"@);
            assert(es@[3].key@ == "from"@);
            assert(es@[4].key@ == "ts"@);
            assert(es@[5].key@ == "payload"@);
            lemma_envelope_type_token(self.message_type);
            lemma_sender_kind_token(self.from.kind);
        }
        JsonValue::Object(es)
    }

    /// Reads `v` as an envelope. The payload is read by the envelope's type;
    /// one that does not have the shape that the type calls for reads as
    /// `Other`.
    pub fn from_json(v: &JsonValue) -> (r: Option<Self>)
        ensures
            match r {
                Some(e) => envelope_decodes(*v, e),
                None => !envelope_ok(*v),
            },
    {
        let id = match get_str(v, "id") {
            Some(s) => s,
            None => {
                return None;
            },
        };
        let message_type = match get_str(v, "type") {
            Some(s) => match EnvelopeType::from_token(s.as_str()) {
                Some(t) => t,
                None => {
                    return None;
                },
            },
            None => {
                return None;
            },
        };
        let room_id = match get_str(v, "room_id") {
            Some(s) => s,
            None => {
                return None;
            },
        };
        let from = match get(v, "from") {
            Some(f) => {
                let kind = match get_str(f, "kind") {
                    Some(s) => match SenderKind::from_token(s.as_str()) {
                        Some(k) => k,
                        None => {
                            return None;
                        },
                    },
                    None => {
                        return None;
                    },
                };
                match get_str(f, "id") {
                    Some(s) => Sender { kind, id: s },
                    None => {
                        return None;
                    },
                }
            },
            None => {
                return None;
            },
        };
        let ts = match get_u64(v, "ts") {
            Some(n) => n,
            None => {
                return None;
            },
        };
        let payload = match get(v, "payload") {
            Some(p) => Payload::from_json(p, message_type),
            None => {
                return None;
            },
        };
        Some(Envelope { id, message_type, room_id, from, ts, payload })
    }
}

/// A value that reads as an envelope passes the decoder's checks.
pub proof fn lemma_decodes_ok(v: JsonValue, e: Envelope)
    requires
        envelope_decodes(v, e),
    ensures
        envelope_ok(v),
{
}

/// A JSON value reads as at most one envelope: any two envelopes that it
/// reads as say the same.
pub proof fn lemma_decoding_determined(v: JsonValue, a: Envelope, b: Envelope)
    requires
        envelope_decodes(v, a),
        envelope_decodes(v, b),
    ensures
        same_envelope(a, b),
{
    assert(same_payload(a.payload, b.payload));
}

/// Envelope round trip: every well-formed envelope, encoded and then
/// decoded, gives back an envelope that says the same. The encoding `v` of
/// `e` is one that reads as `e`, which is what `Envelope::to_json` returns;
/// `Envelope::from_json` returns `Some` exactly on values that pass the
/// checks shown here, and then an envelope that `v` reads as.
pub proof fn lemma_envelope_round_trip(e: Envelope, v: JsonValue, d: Envelope)
    requires
        e.well_formed(),
        envelope_decodes(v, e),
        envelope_decodes(v, d),
    ensures
        envelope_ok(v),
        same_envelope(e, d),
{
    lemma_decoding_determined(v, e, d);
}

} // verus!
