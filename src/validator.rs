//! The moderator's decisions on the envelopes that reach it: grants and
//! revocations on the control topic, and candidates awaiting approval.

use vstd::prelude::*;
use crate::message::{
    Envelope, EnvelopeType, MicGrantPayload, Payload, RejectPayload, Sender, SenderKind,
};
use crate::mic_grant::{
    allows, check, after_check, fresh_grant, GrantKey, GrantView, MicGrantTracker, ValidationError,
};

verus! {

/// The grants after a control envelope: a grant is recorded, a revoke drops
/// its grant, anything else leaves them as they were.
pub open spec fn after_control(m: Map<GrantKey, GrantView>, e: Envelope) -> Map<GrantKey, GrantView> {
    match e.payload {
        Payload::MicGrant(p) => if e.message_type == EnvelopeType::MicGrant {
            m.insert((p.agent_id@, p.task_id@), fresh_grant(p))
        } else {
            m
        },
        Payload::MicRevoke(p) => if e.message_type == EnvelopeType::MicRevoke {
            m.remove((p.agent_id@, p.task_id@))
        } else {
            m
        },
        _ => m,
    }
}

/// The outcome of validating candidate `e` at second `now`: only a result
/// envelope with a result payload is looked up, under its sender and task.
pub open spec fn candidate_check(m: Map<GrantKey, GrantView>, e: Envelope, now: u64) -> Result<
    (),
    ValidationError,
> {
    if e.message_type != EnvelopeType::Result {
        Err(ValidationError::MessageTypeNotAllowed)
    } else {
        match e.payload {
            Payload::Result(p) => check(m, (e.from.id@, p.task_id@), p.message_type.token(), now),
            _ => Err(ValidationError::MessageTypeNotAllowed),
        }
    }
}

/// The grants after candidate `e` was validated at second `now`.
pub open spec fn candidate_after(m: Map<GrantKey, GrantView>, e: Envelope, now: u64) -> Map<
    GrantKey,
    GrantView,
> {
    if e.message_type != EnvelopeType::Result {
        m
    } else {
        match e.payload {
            Payload::Result(p) => after_check(
                m,
                (e.from.id@, p.task_id@),
                p.message_type.token(),
                now,
            ),
            _ => m,
        }
    }
}

/// The task that a candidate speaks for: its result payload's task id, or
/// empty where it has none.
pub open spec fn candidate_task_id(e: Envelope) -> Seq<char> {
    match e.payload {
        Payload::Result(p) => if e.message_type == EnvelopeType::Result {
            p.task_id@
        } else {
            Seq::empty()
        },
        _ => Seq::empty(),
    }
}

/// `r` is the rejection of `original` for `reason`, stamped `ts`: sent by the
/// moderator on its own behalf, referencing the original id and task.
pub open spec fn is_rejection(r: Envelope, original: Envelope, reason: Seq<char>, ts: u64) -> bool {
    &&& r.id@ == "reject_"@ + original.id@
    &&& r.message_type == EnvelopeType::Reject
    &&& r.room_id@ == original.room_id@
    &&& r.from.kind == SenderKind::System
    &&& r.from.id@ == "gateway"@
    &&& r.ts == ts
    &&& r.payload matches Payload::Reject(p) && p.message_id@ == original.id@ && p.task_id@
        == candidate_task_id(original) && p.reason@ == reason
}

/// Applies a control envelope to the grants.
pub fn handle_control_message(envelope: &Envelope, tracker: &mut MicGrantTracker)
    requires
        old(tracker).wf(),
    ensures
        final(tracker).wf(),
        final(tracker)@ == after_control(old(tracker)@, *envelope),
{
    match &envelope.payload {
        Payload::MicGrant(p) => {
            if envelope.message_type == EnvelopeType::MicGrant {
                let allowed = p.allowed_message_types.clone();
                assert(allowed@ =~= p.allowed_message_types@);
                let copy = MicGrantPayload {
                    task_id: p.task_id.clone(),
                    agent_id: p.agent_id.clone(),
                    max_messages: p.max_messages,
                    allowed_message_types: allowed,
                    expires_at: p.expires_at,
                };
                assert(fresh_grant(copy) == fresh_grant(*p));
                tracker.grant(copy);
            }
        },
        Payload::MicRevoke(p) => {
            if envelope.message_type == EnvelopeType::MicRevoke {
                tracker.revoke(p.agent_id.as_str(), p.task_id.as_str());
            }
        },
        _ => {},
    }
}

/// Validates a candidate envelope against the grants, and counts it when it
/// is approved.
pub fn validate_message(envelope: &Envelope, tracker: &mut MicGrantTracker, current_ts: u64) -> (r:
    Result<(), ValidationError>)
    requires
        old(tracker).wf(),
    ensures
        final(tracker).wf(),
        r == candidate_check(old(tracker)@, *envelope, current_ts),
        final(tracker)@ == candidate_after(old(tracker)@, *envelope, current_ts),
{
    if envelope.message_type != EnvelopeType::Result {
        return Err(ValidationError::MessageTypeNotAllowed);
    }
    match &envelope.payload {
        Payload::Result(p) => tracker.validate(
            envelope.from.id.as_str(),
            p.task_id.as_str(),
            p.message_type.as_str(),
            current_ts,
        ),
        _ => Err(ValidationError::MessageTypeNotAllowed),
    }
}

/// Builds the rejection that answers `original` with reason code `reason`.
pub fn create_rejection(original: &Envelope, reason: &str, ts: u64) -> (r: Envelope)
    ensures
        is_rejection(r, *original, reason@, ts),
{
    let task_id = match &original.payload {
        Payload::Result(p) => if original.message_type == EnvelopeType::Result {
            p.task_id.clone()
        } else {
            String::new()
        },
        _ => String::new(),
    };
    let mut id = String::from_str("reject_");
    id.append(original.id.as_str());
    Envelope {
        id,
        message_type: EnvelopeType::Reject,
        room_id: original.room_id.clone(),
        from: Sender { kind: SenderKind::System, id: String::from_str("gateway") },
        ts,
        payload: Payload::Reject(
            RejectPayload {
                message_id: original.id.clone(),
                task_id,
                reason: String::from_str(reason),
            },
        ),
    }
}

/// What the moderator does with a candidate.
#[derive(Debug)]
pub enum Verdict {
    /// Republish the candidate, unchanged, on the room's public topic.
    Approved,
    /// Publish this rejection on the room's control topic.
    Rejected(Envelope),
}

/// Decides on a candidate received at second `current_ts`: approves it, or
/// answers it with exactly one rejection that names the reason.
pub fn handle_candidate_message(
    envelope: &Envelope,
    tracker: &mut MicGrantTracker,
    current_ts: u64,
) -> (r: Verdict)
    requires
        old(tracker).wf(),
    ensures
        final(tracker).wf(),
        final(tracker)@ == candidate_after(old(tracker)@, *envelope, current_ts),
        match candidate_check(old(tracker)@, *envelope, current_ts) {
            Ok(()) => r is Approved,
            Err(e) => r matches Verdict::Rejected(rej) && is_rejection(
                rej,
                *envelope,
                e.code(),
                current_ts,
            ),
        },
{
    match validate_message(envelope, tracker, current_ts) {
        Ok(()) => Verdict::Approved,
        Err(e) => Verdict::Rejected(create_rejection(envelope, e.as_str(), current_ts)),
    }
}

/// An envelope as it reaches the moderator.
pub enum ModeratorEvent {
    /// On the control topic.
    Control(Envelope),
    /// On the candidate topic, at the given second of the moderator's clock.
    Candidate(Envelope, u64),
}

/// The key that candidate `e` is validated under, if it is looked up at all.
pub open spec fn candidate_key(e: Envelope) -> Option<GrantKey> {
    if e.message_type != EnvelopeType::Result {
        None
    } else {
        match e.payload {
            Payload::Result(p) => Some((e.from.id@, p.task_id@)),
            _ => None,
        }
    }
}

/// The grants after one event.
pub open spec fn after_event(m: Map<GrantKey, GrantView>, ev: ModeratorEvent) -> Map<
    GrantKey,
    GrantView,
> {
    match ev {
        ModeratorEvent::Control(e) => after_control(m, e),
        ModeratorEvent::Candidate(e, now) => candidate_after(m, e, now),
    }
}

/// The grants after a sequence of events, from `m`.
pub open spec fn run(m: Map<GrantKey, GrantView>, evs: Seq<ModeratorEvent>) -> Map<
    GrantKey,
    GrantView,
>
    decreases evs.len(),
{
    if evs.len() == 0 {
        m
    } else {
        after_event(run(m, evs.drop_last()), evs.last())
    }
}

/// How many candidates under key `k` the moderator approves along `evs`,
/// from `m`: the number of envelopes it republishes for that sender and task.
pub open spec fn approvals(m: Map<GrantKey, GrantView>, evs: Seq<ModeratorEvent>, k: GrantKey) -> nat
    decreases evs.len(),
{
    if evs.len() == 0 {
        0
    } else {
        let before = run(m, evs.drop_last());
        approvals(m, evs.drop_last(), k) + match evs.last() {
            ModeratorEvent::Candidate(e, now) => if candidate_key(e) == Some(k) && candidate_check(
                before,
                e,
                now,
            ) is Ok {
                1nat
            } else {
                0nat
            },
            _ => 0nat,
        }
    }
}

/// The messages granted under key `k` by the grant envelopes among `evs`.
pub open spec fn granted(evs: Seq<ModeratorEvent>, k: GrantKey) -> nat
    decreases evs.len(),
{
    if evs.len() == 0 {
        0
    } else {
        granted(evs.drop_last(), k) + match evs.last() {
            ModeratorEvent::Control(e) => match e.payload {
                Payload::MicGrant(p) => if e.message_type == EnvelopeType::MicGrant && (
                p.agent_id@, p.task_id@) == k {
                    p.max_messages as nat
                } else {
                    0nat
                },
                _ => 0nat,
            },
            _ => 0nat,
        }
    }
}

/// The messages that the grant under `k` in `m` still allows.
pub open spec fn budget(m: Map<GrantKey, GrantView>, k: GrantKey) -> nat {
    if m.contains_key(k) && m[k].messages_sent < m[k].max_messages {
        (m[k].max_messages - m[k].messages_sent) as nat
    } else {
        0
    }
}

/// Along any sequence of control envelopes and candidates, the candidates
/// approved under one (agent, task) key, together with what the grant still
/// allows at the end, never exceed what the grant allowed at the start plus
/// the `max_messages` of every grant issued for that key on the way.
pub proof fn lemma_approvals_bounded(m: Map<GrantKey, GrantView>, evs: Seq<ModeratorEvent>, k: GrantKey)
    ensures
        approvals(m, evs, k) + budget(run(m, evs), k) <= budget(m, k) + granted(evs, k),
    decreases evs.len(),
{
    if evs.len() > 0 {
        let pre = evs.drop_last();
        lemma_approvals_bounded(m, pre, k);
        let before = run(m, pre);
        match evs.last() {
            ModeratorEvent::Candidate(e, now) => {
                if candidate_key(e) == Some(k) {
                    assert(budget(run(m, evs), k) + (if candidate_check(before, e, now) is Ok {
                        1int
                    } else {
                        0int
                    }) == budget(before, k));
                } else if candidate_key(e) is Some {
                    assert(run(m, evs).contains_key(k) == before.contains_key(k));
                    assert(budget(run(m, evs), k) == budget(before, k));
                }
            },
            ModeratorEvent::Control(e) => {
                assert(budget(run(m, evs), k) <= budget(before, k) + granted(evs, k) - granted(
                    pre,
                    k,
                ));
            },
        }
    }
}

/// For one (agent, task) key that holds no grant at the start, and along
/// which a single grant is issued: the moderator approves at most that
/// grant's `max_messages` candidates under the key; with no grant, none.
pub proof fn lemma_single_grant_bound(
    m: Map<GrantKey, GrantView>,
    evs: Seq<ModeratorEvent>,
    k: GrantKey,
    max_messages: u32,
)
    requires
        !m.contains_key(k),
        granted(evs, k) <= max_messages,
    ensures
        approvals(m, evs, k) <= max_messages,
        granted(evs, k) == 0 ==> approvals(m, evs, k) == 0,
{
    lemma_approvals_bounded(m, evs, k);
}

/// No candidate is approved once the moderator's clock has passed its
/// grant's `expires_at`.
pub proof fn lemma_no_approval_after_expiry(m: Map<GrantKey, GrantView>, e: Envelope, now: u64)
    requires
        candidate_key(e) matches Some(k) && m.contains_key(k) && now > m[k].expires_at,
    ensures
        candidate_check(m, e, now) == Err::<(), ValidationError>(ValidationError::MicGrantExpired),
{
}

/// Every approved candidate holds a grant under its sender and task, is
/// within the grant's time, and is of a kind that the grant allows.
pub proof fn lemma_approved_kind_allowed(m: Map<GrantKey, GrantView>, e: Envelope, now: u64)
    requires
        candidate_check(m, e, now) is Ok,
    ensures
        e.payload matches Payload::Result(p) && candidate_key(e) == Some((e.from.id@, p.task_id@))
            && m.contains_key((e.from.id@, p.task_id@)) && now <= m[(
            e.from.id@,
            p.task_id@,
        )].expires_at && exists|i: int|
            0 <= i < m[(e.from.id@, p.task_id@)].allowed.len() && m[(
                e.from.id@,
                p.task_id@,
            )].allowed[i] == p.message_type,
{
    reveal_strlit("ack");
    reveal_strlit("clarifying_question");
    reveal_strlit("progress");
    reveal_strlit("finding");
    reveal_strlit("risk");
    reveal_strlit("result");
    reveal_strlit("artifact_link");
    if let Payload::Result(p) = e.payload {
        let k = (e.from.id@, p.task_id@);
        let i = choose|i: int|
            0 <= i < m[k].allowed.len() && (#[trigger] m[k].allowed[i]).token() == p.message_type.token();
        let a = m[k].allowed[i];
        assert(a.token().len() == p.message_type.token().len());
        assert(a == p.message_type);
    }
}

/// Once the grant for an (agent, task) key is revoked, every further
/// candidate under that key is rejected for want of a grant, until a new
/// grant for the key arrives.
pub proof fn lemma_revoked_rejects(m: Map<GrantKey, GrantView>, revoke: Envelope, e: Envelope, now: u64)
    requires
        revoke.message_type == EnvelopeType::MicRevoke,
        revoke.payload matches Payload::MicRevoke(p) && candidate_key(e) == Some(
            (p.agent_id@, p.task_id@),
        ),
    ensures
        candidate_check(after_control(m, revoke), e, now) == Err::<(), ValidationError>(
            ValidationError::NoMicGrant,
        ),
{
}

} // verus!
