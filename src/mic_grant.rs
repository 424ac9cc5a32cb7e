//! The moderator's grant bookkeeping: who may speak publicly, for which task,
//! how often, with which kinds of output, and until when.

use vstd::prelude::*;
use crate::message::{MicGrantPayload, ResultMessageType};

verus! {

/// A grant as the tracker holds it.
#[derive(Clone, Debug)]
pub struct MicGrant {
    pub task_id: String,
    pub agent_id: String,
    pub max_messages: u32,
    pub messages_sent: u32,
    pub allowed_message_types: Vec<ResultMessageType>,
    pub expires_at: u64,
}

/// What the tracker knows of one grant.
pub struct GrantView {
    pub max_messages: u32,
    pub messages_sent: u32,
    pub allowed: Seq<ResultMessageType>,
    pub expires_at: u64,
}

/// A grant's key: the agent id, then the task id.
pub type GrantKey = (Seq<char>, Seq<char>);

impl MicGrant {
    pub open spec fn key(self) -> GrantKey {
        (self.agent_id@, self.task_id@)
    }

    pub open spec fn state(self) -> GrantView {
        GrantView {
            max_messages: self.max_messages,
            messages_sent: self.messages_sent,
            allowed: self.allowed_message_types@,
            expires_at: self.expires_at,
        }
    }
}

/// The grants of a sequence, by key.
pub open spec fn grants_map(s: Seq<MicGrant>) -> Map<GrantKey, GrantView>
    decreases s.len(),
{
    if s.len() == 0 {
        Map::empty()
    } else {
        grants_map(s.drop_last()).insert(s.last().key(), s.last().state())
    }
}

pub open spec fn keys_unique(s: Seq<MicGrant>) -> bool {
    forall|i: int, j: int| 0 <= i < j < s.len() ==> s[i].key() != s[j].key()
}

proof fn lemma_grants_map_index(s: Seq<MicGrant>)
    ensures
        forall|k: GrantKey| #[trigger] grants_map(s).contains_key(k)
            <==> exists|i: int| 0 <= i < s.len() && s[i].key() == k,
        keys_unique(s) ==> forall|i: int| 0 <= i < s.len()
            ==> #[trigger] grants_map(s)[s[i].key()] == s[i].state(),
    decreases s.len(),
{
    if s.len() > 0 {
        let p = s.drop_last();
        lemma_grants_map_index(p);
        assert forall|k: GrantKey|
            (exists|i: int| 0 <= i < s.len() && s[i].key() == k) implies #[trigger] grants_map(
            s,
        ).contains_key(k) by {
            let i = choose|i: int| 0 <= i < s.len() && s[i].key() == k;
            if i < s.len() - 1 {
                assert(p[i].key() == k);
                assert(grants_map(p).contains_key(k));
            }
        }
        assert forall|k: GrantKey| #[trigger]
            grants_map(s).contains_key(k) implies exists|i: int|
            0 <= i < s.len() && s[i].key() == k by {
            if k != s.last().key() {
                assert(grants_map(p).contains_key(k));
                let i = choose|i: int| 0 <= i < p.len() && p[i].key() == k;
                assert(s[i].key() == k);
            } else {
                assert(s[s.len() - 1].key() == k);
            }
        }
        if keys_unique(s) {
            assert(keys_unique(p));
            assert forall|i: int| 0 <= i < s.len()
                implies #[trigger] grants_map(s)[s[i].key()] == s[i].state() by {
                if i < s.len() - 1 {
                    assert(p[i] == s[i]);
                    assert(s[i].key() != s[s.len() - 1].key());
                    assert(grants_map(p)[p[i].key()] == p[i].state());
                }
            }
        }
    }
}

proof fn lemma_grants_map_update(s: Seq<MicGrant>, i: int, g: MicGrant)
    requires
        0 <= i < s.len(),
        g.key() == s[i].key(),
        keys_unique(s),
    ensures
        grants_map(s.update(i, g)) == grants_map(s).insert(g.key(), g.state()),
        keys_unique(s.update(i, g)),
    decreases s.len(),
{
    let t = s.update(i, g);
    assert(keys_unique(t)) by {
        assert forall|a: int, b: int| 0 <= a < b < t.len() implies t[a].key() != t[b].key() by {
            assert(s[a].key() != s[b].key());
        }
    }
    if i == s.len() - 1 {
        assert(t.drop_last() =~= s.drop_last());
        assert(grants_map(t) =~= grants_map(s).insert(g.key(), g.state()));
    } else {
        let p = s.drop_last();
        assert(keys_unique(p));
        lemma_grants_map_update(p, i, g);
        assert(t.drop_last() =~= p.update(i, g));
        assert(s.last().key() != g.key());
        assert(grants_map(t) =~= grants_map(s).insert(g.key(), g.state()));
    }
}

proof fn lemma_grants_map_remove(s: Seq<MicGrant>, i: int)
    requires
        0 <= i < s.len(),
        keys_unique(s),
    ensures
        grants_map(s.remove(i)) == grants_map(s).remove(s[i].key()),
        keys_unique(s.remove(i)),
    decreases s.len(),
{
    let t = s.remove(i);
    let k = s[i].key();
    assert(keys_unique(t)) by {
        assert forall|a: int, b: int| 0 <= a < b < t.len() implies t[a].key() != t[b].key() by {
            if a < i {
                if b < i {
                    assert(s[a].key() != s[b].key());
                } else {
                    assert(s[a].key() != s[b + 1].key());
                }
            } else {
                assert(s[a + 1].key() != s[b + 1].key());
            }
        }
    }
    let p = s.drop_last();
    assert(keys_unique(p));
    if i == s.len() - 1 {
        assert(t =~= p);
        lemma_grants_map_index(p);
        assert(!grants_map(p).contains_key(k)) by {
            if grants_map(p).contains_key(k) {
                let j = choose|j: int| 0 <= j < p.len() && p[j].key() == k;
                assert(s[j].key() != s[i].key());
            }
        }
        assert(grants_map(t) =~= grants_map(s).remove(k));
    } else {
        lemma_grants_map_remove(p, i);
        assert(t.drop_last() =~= p.remove(i));
        assert(t.last() == s.last());
        assert(s.last().key() != k);
        assert(grants_map(t) =~= grants_map(s).remove(k));
    }
}

/// Why a candidate was not approved.
#[derive(Clone, Copy, Debug, PartialEq, Eq, Structural)]
pub enum ValidationError {
    NoMicGrant,
    MicGrantExpired,
    MessageTypeNotAllowed,
    MessageLimitExceeded,
}

impl ValidationError {
    /// The reason code that a rejection carries.
    pub open spec fn code(self) -> Seq<char> {
        match self {
            ValidationError::NoMicGrant => "no_mic_grant"@,
            ValidationError::MicGrantExpired => "mic_grant_expired"@,
            ValidationError::MessageTypeNotAllowed => "message_type_not_allowed"@,
            ValidationError::MessageLimitExceeded => "message_limit_exceeded"@,
        }
    }

    /// The reason code that a rejection carries.
    pub fn as_str(&self) -> (r: &'static str)
        ensures
            r@ == self.code(),
    {
        match self {
            ValidationError::NoMicGrant => "no_mic_grant",
            ValidationError::MicGrantExpired => "mic_grant_expired",
            ValidationError::MessageTypeNotAllowed => "message_type_not_allowed",
            ValidationError::MessageLimitExceeded => "message_limit_exceeded",
        }
    }
}

/// Whether the kinds in `allowed` include the one whose token is `token`.
pub open spec fn allows(allowed: Seq<ResultMessageType>, token: Seq<char>) -> bool {
    exists|i: int| 0 <= i < allowed.len() && (#[trigger] allowed[i]).token() == token
}

/// The outcome of validating a candidate of kind `token` under key `k` at
/// second `now`; the checks run in this order and the first failure decides.
pub open spec fn check(
    m: Map<GrantKey, GrantView>,
    k: GrantKey,
    token: Seq<char>,
    now: u64,
) -> Result<(), ValidationError> {
    if !m.contains_key(k) {
        Err(ValidationError::NoMicGrant)
    } else if now > m[k].expires_at {
        Err(ValidationError::MicGrantExpired)
    } else if !allows(m[k].allowed, token) {
        Err(ValidationError::MessageTypeNotAllowed)
    } else if m[k].messages_sent >= m[k].max_messages {
        Err(ValidationError::MessageLimitExceeded)
    } else {
        Ok(())
    }
}

/// The grants after a candidate under key `k` was checked: an approval uses
/// one message of the grant, a rejection changes nothing.
pub open spec fn after_check(
    m: Map<GrantKey, GrantView>,
    k: GrantKey,
    token: Seq<char>,
    now: u64,
) -> Map<GrantKey, GrantView> {
    if check(m, k, token, now) is Ok {
        m.insert(k, GrantView { messages_sent: (m[k].messages_sent + 1) as u32, ..m[k] })
    } else {
        m
    }
}

/// The grant that a `mic_grant` payload creates: no message sent yet.
pub open spec fn fresh_grant(p: MicGrantPayload) -> GrantView {
    GrantView {
        max_messages: p.max_messages,
        messages_sent: 0,
        allowed: p.allowed_message_types@,
        expires_at: p.expires_at,
    }
}

/// Tracks the active grants, keyed by (agent id, task id).
#[derive(Debug)]
pub struct MicGrantTracker {
    grants: Vec<MicGrant>,
}

impl View for MicGrantTracker {
    type V = Map<GrantKey, GrantView>;

    closed spec fn view(&self) -> Map<GrantKey, GrantView> {
        grants_map(self.grants@)
    }
}

impl MicGrantTracker {
    /// At most one grant per key.
    pub closed spec fn wf(&self) -> bool {
        keys_unique(self.grants@)
    }

    pub fn new() -> (r: Self)
        ensures
            r.wf(),
            r@ == Map::<GrantKey, GrantView>::empty(),
    {
        MicGrantTracker { grants: Vec::new() }
    }

    /// Where the grant under (agent_id, task_id) stands, if there is one.
    fn find(&self, agent_id: &str, task_id: &str) -> (r: Option<usize>)
        requires
            self.wf(),
        ensures
            match r {
                Some(i) => i < self.grants@.len() && self.grants@[i as int].key() == (
                agent_id@, task_id@),
                None => !self@.contains_key((agent_id@, task_id@)),
            },
    {
        proof {
            lemma_grants_map_index(self.grants@);
        }
        let a = String::from_str(agent_id);
        let t = String::from_str(task_id);
        let mut i: usize = 0;
        while i < self.grants.len()
            invariant
                i <= self.grants@.len(),
                a@ == agent_id@,
                t@ == task_id@,
                forall|j: int| 0 <= j < i ==> #[trigger] self.grants@[j].key() != (agent_id@, task_id@),
            decreases self.grants@.len() - i,
        {
            if self.grants[i].agent_id == a && self.grants[i].task_id == t {
                return Some(i);
            }
            i = i + 1;
        }
        None
    }

    /// Records a grant; a grant already held under the same key is replaced
    /// and its counter starts again from zero.
    pub fn grant(&mut self, payload: MicGrantPayload)
        requires
            old(self).wf(),
        ensures
            final(self).wf(),
            final(self)@ == old(self)@.insert(
                (payload.agent_id@, payload.task_id@),
                fresh_grant(payload),
            ),
    {
        let ghost p = payload;
        let found = self.find(payload.agent_id.as_str(), payload.task_id.as_str());
        let g = MicGrant {
            task_id: payload.task_id,
            agent_id: payload.agent_id,
            max_messages: payload.max_messages,
            messages_sent: 0,
            allowed_message_types: payload.allowed_message_types,
            expires_at: payload.expires_at,
        };
        assert(g.state() == fresh_grant(p));
        match found {
            Some(i) => {
                proof {
                    lemma_grants_map_update(self.grants@, i as int, g);
                }
                self.grants.set(i, g);
            },
            None => {
                proof {
                    lemma_grants_map_index(self.grants@);
                }
                let ghost s = self.grants@;
                self.grants.push(g);
                assert(self.grants@.drop_last() =~= s);
                assert(keys_unique(self.grants@)) by {
                    assert forall|a: int, b: int| 0 <= a < b < self.grants@.len()
                        implies self.grants@[a].key() != self.grants@[b].key() by {
                        if b == s.len() {
                            assert(s[a].key() == self.grants@[a].key());
                        }
                    }
                }
            },
        }
    }

    /// Checks a candidate of kind `message_type` from `agent_id` for
    /// `task_id` at second `current_ts`, and counts it when it is approved.
    pub fn validate(
        &mut self,
        agent_id: &str,
        task_id: &str,
        message_type: &str,
        current_ts: u64,
    ) -> (r: Result<(), ValidationError>)
        requires
            old(self).wf(),
        ensures
            final(self).wf(),
            r == check(old(self)@, (agent_id@, task_id@), message_type@, current_ts),
            final(self)@ == after_check(
                old(self)@,
                (agent_id@, task_id@),
                message_type@,
                current_ts,
            ),
    {
        let ghost k = (agent_id@, task_id@);
        proof {
            lemma_grants_map_index(self.grants@);
        }
        let i = match self.find(agent_id, task_id) {
            Some(i) => i,
            None => {
                return Err(ValidationError::NoMicGrant);
            },
        };
        assert(self@[k] == self.grants@[i as int].state());
        if current_ts > self.grants[i].expires_at {
            return Err(ValidationError::MicGrantExpired);
        }
        let mt = String::from_str(message_type);
        let allowed = &self.grants[i].allowed_message_types;
        let mut found = false;
        let mut j: usize = 0;
        while j < allowed.len()
            invariant
                j <= allowed@.len(),
                mt@ == message_type@,
                found <==> exists|x: int| 0 <= x < j && (#[trigger] allowed@[x]).token() == mt@,
            decreases allowed@.len() - j,
        {
            let tok = String::from_str(allowed[j].as_str());
            if tok == mt {
                found = true;
            }
            j = j + 1;
        }
        if !found {
            return Err(ValidationError::MessageTypeNotAllowed);
        }
        if self.grants[i].messages_sent >= self.grants[i].max_messages {
            return Err(ValidationError::MessageLimitExceeded);
        }
        let ghost s = self.grants@;
        let mut g = self.grants.remove(i);
        g.messages_sent = g.messages_sent + 1;
        proof {
            lemma_grants_map_update(s, i as int, g);
            assert(s.update(i as int, g).drop_last() =~= s.remove(i as int).insert(i as int, g).drop_last());
        }
        self.grants.insert(i, g);
        assert(self.grants@ =~= s.update(i as int, g));
        assert(self@ =~= after_check(old(self)@, k, message_type@, current_ts));
        Ok(())
    }

    /// The grant held under (agent_id, task_id), if there is one.
    pub fn grant_for(&self, agent_id: &str, task_id: &str) -> (r: Option<&MicGrant>)
        requires
            self.wf(),
        ensures
            match r {
                Some(g) => self@.contains_key((agent_id@, task_id@)) && g.key() == (agent_id@, task_id@)
                    && g.state() == self@[(agent_id@, task_id@)],
                None => !self@.contains_key((agent_id@, task_id@)),
            },
    {
        proof {
            lemma_grants_map_index(self.grants@);
        }
        match self.find(agent_id, task_id) {
            Some(i) => Some(&self.grants[i]),
            None => None,
        }
    }

    /// Drops the grant under (agent_id, task_id), if there is one.
    pub fn revoke(&mut self, agent_id: &str, task_id: &str)
        requires
            old(self).wf(),
        ensures
            final(self).wf(),
            final(self)@ == old(self)@.remove((agent_id@, task_id@)),
    {
        match self.find(agent_id, task_id) {
            Some(i) => {
                proof {
                    lemma_grants_map_remove(self.grants@, i as int);
                }
                let _ = self.grants.remove(i);
            },
            None => {
                assert(self@ =~= self@.remove((agent_id@, task_id@)));
            },
        }
    }
}

} // verus!
