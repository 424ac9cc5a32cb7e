//! Tracks which workers are alive, and what they can do, from heartbeats.

use vstd::prelude::*;
use crate::clock::now_secs;

verus! {

/// What the registry holds of one agent.
#[derive(Clone, Debug)]
pub struct AgentInfo {
    pub last_heartbeat: u64,
    pub description: Option<String>,
}

/// The model of an agent's entry.
pub struct AgentView {
    pub last_heartbeat: u64,
    pub description: Option<Seq<char>>,
}

pub open spec fn opt_view(o: Option<String>) -> Option<Seq<char>> {
    match o {
        Some(s) => Some(s@),
        None => None,
    }
}

impl AgentInfo {
    pub open spec fn state(self) -> AgentView {
        AgentView { last_heartbeat: self.last_heartbeat, description: opt_view(self.description) }
    }
}

/// The entries of a sequence, by agent id.
pub open spec fn agents_map(s: Seq<(String, AgentInfo)>) -> Map<Seq<char>, AgentView>
    decreases s.len(),
{
    if s.len() == 0 {
        Map::empty()
    } else {
        agents_map(s.drop_last()).insert(s.last().0@, s.last().1.state())
    }
}

pub open spec fn ids_unique(s: Seq<(String, AgentInfo)>) -> bool {
    forall|i: int, j: int| 0 <= i < j < s.len() ==> s[i].0@ != s[j].0@
}

proof fn lemma_agents_map_index(s: Seq<(String, AgentInfo)>)
    ensures
        forall|k: Seq<char>| #[trigger] agents_map(s).contains_key(k)
            <==> exists|i: int| 0 <= i < s.len() && s[i].0@ == k,
        ids_unique(s) ==> forall|i: int| 0 <= i < s.len()
            ==> #[trigger] agents_map(s)[s[i].0@] == s[i].1.state(),
    decreases s.len(),
{
    if s.len() > 0 {
        let p = s.drop_last();
        lemma_agents_map_index(p);
        assert forall|k: Seq<char>|
            (exists|i: int| 0 <= i < s.len() && s[i].0@ == k) implies #[trigger] agents_map(
            s,
        ).contains_key(k) by {
            let i = choose|i: int| 0 <= i < s.len() && s[i].0@ == k;
            if i < s.len() - 1 {
                assert(p[i].0@ == k);
                assert(agents_map(p).contains_key(k));
            }
        }
        assert forall|k: Seq<char>| #[trigger]
            agents_map(s).contains_key(k) implies exists|i: int|
            0 <= i < s.len() && s[i].0@ == k by {
            if k != s.last().0@ {
                assert(agents_map(p).contains_key(k));
                let i = choose|i: int| 0 <= i < p.len() && p[i].0@ == k;
                assert(s[i].0@ == k);
            } else {
                assert(s[s.len() - 1].0@ == k);
            }
        }
        if ids_unique(s) {
            assert(ids_unique(p));
            assert forall|i: int| 0 <= i < s.len()
                implies #[trigger] agents_map(s)[s[i].0@] == s[i].1.state() by {
                if i < s.len() - 1 {
                    assert(p[i] == s[i]);
                    assert(s[i].0@ != s[s.len() - 1].0@);
                    assert(agents_map(p)[p[i].0@] == p[i].1.state());
                }
            }
        }
    }
}

proof fn lemma_agents_map_update(s: Seq<(String, AgentInfo)>, i: int, e: (String, AgentInfo))
    requires
        0 <= i < s.len(),
        e.0@ == s[i].0@,
        ids_unique(s),
    ensures
        agents_map(s.update(i, e)) == agents_map(s).insert(e.0@, e.1.state()),
        ids_unique(s.update(i, e)),
    decreases s.len(),
{
    let t = s.update(i, e);
    assert(ids_unique(t)) by {
        assert forall|a: int, b: int| 0 <= a < b < t.len() implies t[a].0@ != t[b].0@ by {
            assert(s[a].0@ != s[b].0@);
        }
    }
    if i == s.len() - 1 {
        assert(t.drop_last() =~= s.drop_last());
        assert(agents_map(t) =~= agents_map(s).insert(e.0@, e.1.state()));
    } else {
        let p = s.drop_last();
        assert(ids_unique(p));
        lemma_agents_map_update(p, i, e);
        assert(t.drop_last() =~= p.update(i, e));
        assert(s.last().0@ != e.0@);
        assert(agents_map(t) =~= agents_map(s).insert(e.0@, e.1.state()));
    }
}

/// Whether an agent last heard from at `last` is active at second `now`.
pub open spec fn is_active(now: u64, last: u64, timeout: u64) -> bool {
    now - last <= timeout
}

/// The entry after a heartbeat at `now` carrying `description`: the time is
/// recorded, and a non-empty description overwrites the one held.
pub open spec fn observed(
    m: Map<Seq<char>, AgentView>,
    id: Seq<char>,
    description: Option<Seq<char>>,
    now: u64,
) -> AgentView {
    AgentView {
        last_heartbeat: now,
        description: if description matches Some(d) && d.len() > 0 {
            description
        } else if m.contains_key(id) {
            m[id].description
        } else {
            None
        },
    }
}

/// Liveness view of the agents that sent heartbeats.
#[derive(Debug)]
pub struct AgentRegistry {
    agents: Vec<(String, AgentInfo)>,
    timeout_secs: u64,
}

impl View for AgentRegistry {
    type V = Map<Seq<char>, AgentView>;

    closed spec fn view(&self) -> Map<Seq<char>, AgentView> {
        agents_map(self.agents@)
    }
}

impl AgentRegistry {
    /// At most one entry per agent id.
    pub closed spec fn wf(&self) -> bool {
        ids_unique(self.agents@)
    }

    /// How long an agent stays active after its last heartbeat, in seconds.
    pub closed spec fn timeout(&self) -> u64 {
        self.timeout_secs
    }

    /// `ids` names exactly the agents active at second `now`.
    pub open spec fn lists_active(&self, ids: Seq<String>, now: u64) -> bool {
        forall|k: Seq<char>|
            (exists|i: int| 0 <= i < ids.len() && #[trigger] ids[i]@ == k) <==> (
            #[trigger] self@.contains_key(k) && is_active(now, self@[k].last_heartbeat, self.timeout()))
    }

    /// `agents` names exactly the agents active at second `now`.
    pub open spec fn lists_active_with_descriptions(
        &self,
        agents: Seq<(String, Option<String>)>,
        now: u64,
    ) -> bool {
        forall|k: Seq<char>|
            (exists|i: int| 0 <= i < agents.len() && #[trigger] agents[i].0@ == k) <==> (
            #[trigger] self@.contains_key(k) && is_active(now, self@[k].last_heartbeat, self.timeout()))
    }

    pub fn new(timeout_secs: u64) -> (r: Self)
        ensures
            r.wf(),
            r@ == Map::<Seq<char>, AgentView>::empty(),
            r.timeout() == timeout_secs,
    {
        AgentRegistry { agents: Vec::new(), timeout_secs }
    }

    fn find(&self, agent_id: &str) -> (r: Option<usize>)
        requires
            self.wf(),
        ensures
            match r {
                Some(i) => i < self.agents@.len() && self.agents@[i as int].0@ == agent_id@,
                None => !self@.contains_key(agent_id@),
            },
    {
        proof {
            lemma_agents_map_index(self.agents@);
        }
        let a = String::from_str(agent_id);
        let mut i: usize = 0;
        while i < self.agents.len()
            invariant
                i <= self.agents@.len(),
                a@ == agent_id@,
                forall|j: int| 0 <= j < i ==> #[trigger] self.agents@[j].0@ != agent_id@,
            decreases self.agents@.len() - i,
        {
            if self.agents[i].0 == a {
                return Some(i);
            }
            i = i + 1;
        }
        None
    }

    /// Records a heartbeat from `agent_id` received at second `now`.
    pub fn update_agent_at(&mut self, agent_id: String, description: Option<String>, now: u64)
        requires
            old(self).wf(),
        ensures
            final(self).wf(),
            final(self).timeout() == old(self).timeout(),
            final(self)@ == old(self)@.insert(
                agent_id@,
                observed(old(self)@, agent_id@, opt_view(description), now),
            ),
    {
        proof {
            lemma_agents_map_index(self.agents@);
        }
        match self.find(agent_id.as_str()) {
            Some(i) => {
                let ghost s = self.agents@;
                let (id, info) = self.agents.remove(i);
                let desc = match description {
                    Some(d) => if d.unicode_len() > 0 {
                        Some(d)
                    } else {
                        info.description
                    },
                    None => info.description,
                };
                let e = (id, AgentInfo { last_heartbeat: now, description: desc });
                proof {
                    lemma_agents_map_update(s, i as int, e);
                }
                self.agents.insert(i, e);
                assert(self.agents@ =~= s.update(i as int, e));
            },
            None => {
                let ghost s = self.agents@;
                let desc = match description {
                    Some(d) => if d.unicode_len() > 0 {
                        Some(d)
                    } else {
                        None
                    },
                    None => None,
                };
                let e = (agent_id, AgentInfo { last_heartbeat: now, description: desc });
                self.agents.push(e);
                assert(self.agents@.drop_last() =~= s);
                assert(ids_unique(self.agents@)) by {
                    assert forall|a: int, b: int| 0 <= a < b < self.agents@.len()
                        implies self.agents@[a].0@ != self.agents@[b].0@ by {
                        if b == s.len() {
                            assert(s[a].0@ == self.agents@[a].0@);
                        }
                    }
                }
            },
        }
    }

    /// Records a heartbeat from `agent_id` at the current second.
    pub fn update_agent(&mut self, agent_id: String, description: Option<String>)
        requires
            old(self).wf(),
        ensures
            final(self).wf(),
            final(self).timeout() == old(self).timeout(),
            exists|now: u64|
                final(self)@ == old(self)@.insert(
                    agent_id@,
                    #[trigger] observed(old(self)@, agent_id@, opt_view(description), now),
                ),
    {
        let now = now_secs();
        self.update_agent_at(agent_id, description, now);
    }

    /// The ids of the agents active at second `now`, each once.
    pub fn get_active_agents_at(&self, now: u64) -> (r: Vec<String>)
        requires
            self.wf(),
        ensures
            self.lists_active(r@, now),
            forall|i: int, j: int| 0 <= i < j < r@.len() ==> r@[i]@ != r@[j]@,
    {
        let pairs = self.get_active_agents_with_descriptions_at(now);
        let mut r: Vec<String> = Vec::new();
        let mut i: usize = 0;
        while i < pairs.len()
            invariant
                i <= pairs@.len(),
                r@.len() == i,
                forall|j: int| 0 <= j < i ==> #[trigger] r@[j]@ == pairs@[j].0@,
            decreases pairs@.len() - i,
        {
            r.push(pairs[i].0.clone());
            i = i + 1;
        }
        assert forall|k: Seq<char>|
            (exists|i: int| 0 <= i < r@.len() && #[trigger] r@[i]@ == k) <==> (
            #[trigger] self@.contains_key(k) && is_active(now, self@[k].last_heartbeat, self.timeout())) by {
            if exists|i: int| 0 <= i < r@.len() && #[trigger] r@[i]@ == k {
                let i = choose|i: int| 0 <= i < r@.len() && #[trigger] r@[i]@ == k;
                assert(pairs@[i].0@ == k);
            }
            if self@.contains_key(k) && is_active(now, self@[k].last_heartbeat, self.timeout()) {
                let i = choose|i: int| 0 <= i < pairs@.len() && #[trigger] pairs@[i].0@ == k;
                assert(r@[i]@ == k);
            }
        }
        r
    }

    /// The ids of the agents active now, each once.
    pub fn get_active_agents(&self) -> (r: Vec<String>)
        requires
            self.wf(),
        ensures
            exists|now: u64| #[trigger] self.lists_active(r@, now),
    {
        let now = now_secs();
        self.get_active_agents_at(now)
    }

    /// What the registry holds of `agent_id`.
    pub fn get_agent_info(&self, agent_id: &str) -> (r: Option<&AgentInfo>)
        requires
            self.wf(),
        ensures
            match r {
                Some(info) => self@.contains_key(agent_id@) && info.state() == self@[agent_id@],
                None => !self@.contains_key(agent_id@),
            },
    {
        proof {
            lemma_agents_map_index(self.agents@);
        }
        match self.find(agent_id) {
            Some(i) => Some(&self.agents[i].1),
            None => None,
        }
    }

    /// The agents active at second `now`, each once, with their descriptions.
    pub fn get_active_agents_with_descriptions_at(&self, now: u64) -> (r: Vec<
        (String, Option<String>),
    >)
        requires
            self.wf(),
        ensures
            self.lists_active_with_descriptions(r@, now),
            forall|i: int|
                0 <= i < r@.len() ==> opt_view(#[trigger] r@[i].1) == self@[r@[i].0@].description,
            forall|i: int, j: int| 0 <= i < j < r@.len() ==> r@[i].0@ != r@[j].0@,
    {
        proof {
            lemma_agents_map_index(self.agents@);
        }
        let mut r: Vec<(String, Option<String>)> = Vec::new();
        let ghost idx: Seq<int> = Seq::empty();
        let mut i: usize = 0;
        while i < self.agents.len()
            invariant
                i <= self.agents@.len(),
                ids_unique(self.agents@),
                r@.len() == idx.len(),
                forall|j: int| 0 <= j < idx.len() ==> 0 <= #[trigger] idx[j] < i,
                forall|a: int, b: int| 0 <= a < b < idx.len() ==> idx[a] < idx[b],
                forall|j: int|
                    0 <= j < r@.len() ==> (#[trigger] r@[j]).0@ == self.agents@[idx[j]].0@ && opt_view(
                        r@[j].1,
                    ) == opt_view(self.agents@[idx[j]].1.description),
                forall|x: int|
                    0 <= x < i && is_active(now, self.agents@[x].1.last_heartbeat, self.timeout_secs)
                        ==> exists|j: int| 0 <= j < idx.len() && #[trigger] idx[j] == x,
                forall|j: int|
                    0 <= j < idx.len() ==> is_active(
                        now,
                        self.agents@[#[trigger] idx[j]].1.last_heartbeat,
                        self.timeout_secs,
                    ),
            decreases self.agents@.len() - i,
        {
            let last = self.agents[i].1.last_heartbeat;
            if now < last || now - last <= self.timeout_secs {
                let d = match &self.agents[i].1.description {
                    Some(d) => Some(d.clone()),
                    None => None,
                };
                let ghost old_idx = idx;
                r.push((self.agents[i].0.clone(), d));
                proof {
                    idx = idx.push(i as int);
                    assert forall|x: int|
                        0 <= x < i + 1 && is_active(
                            now,
                            self.agents@[x].1.last_heartbeat,
                            self.timeout_secs,
                        ) implies exists|j: int| 0 <= j < idx.len() && #[trigger] idx[j] == x by {
                        if x < i {
                            let j = choose|j: int| 0 <= j < old_idx.len() && #[trigger] old_idx[j] == x;
                            assert(idx[j] == x);
                        } else {
                            assert(idx[idx.len() - 1] == x);
                        }
                    }
                }
            }
            i = i + 1;
        }
        assert forall|k: Seq<char>|
            (exists|i: int| 0 <= i < r@.len() && #[trigger] r@[i].0@ == k) <==> (
            self@.contains_key(k) && is_active(now, self@[k].last_heartbeat, self.timeout())) by {
            if exists|i: int| 0 <= i < r@.len() && #[trigger] r@[i].0@ == k {
                let j = choose|j: int| 0 <= j < r@.len() && #[trigger] r@[j].0@ == k;
                let x = idx[j];
                assert(self@[self.agents@[x].0@] == self.agents@[x].1.state());
            }
            if self@.contains_key(k) && is_active(now, self@[k].last_heartbeat, self.timeout()) {
                let x = choose|x: int| 0 <= x < self.agents@.len() && self.agents@[x].0@ == k;
                assert(self@[self.agents@[x].0@] == self.agents@[x].1.state());
                let j = choose|j: int| 0 <= j < idx.len() && #[trigger] idx[j] == x;
                assert(r@[j].0@ == k);
            }
        }
        assert forall|j: int| 0 <= j < r@.len() implies opt_view(#[trigger] r@[j].1)
            == self@[r@[j].0@].description by {
            let x = idx[j];
            assert(self@[self.agents@[x].0@] == self.agents@[x].1.state());
        }
        r
    }

    /// The agents active now, each once, with their descriptions.
    pub fn get_active_agents_with_descriptions(&self) -> (r: Vec<(String, Option<String>)>)
        requires
            self.wf(),
        ensures
            exists|now: u64| #[trigger] self.lists_active_with_descriptions(r@, now),
    {
        let now = now_secs();
        self.get_active_agents_with_descriptions_at(now)
    }
}

} // verus!
