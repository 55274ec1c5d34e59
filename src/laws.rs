//! What holds of the queue's operations, proved over the store model.

use vstd::prelude::*;

use crate::consume::{claim_spec, complete_spec};
use crate::decimal::{lemma_i64_round_trip, lemma_u32_round_trip};
use crate::fields::Field;
use crate::inspect::{resolve_status_spec, StatusProbe};
use crate::harvest::clean_expired_spec;
use crate::janitor::{promote_spec, sweep_spec};
use crate::metadata::{
    decodable, empty_array_text, field_of, null_text, or_default, pairs_represent, JobMetadata,
};
use crate::plan::PlanView;
use crate::produce::{abort_outcome, abort_spec, clean_spec, initial_status, offset, submit_spec};
use crate::status::{set_of_status, status_of_set, JobStatus, StateSet};
use crate::store::{apply, apply_all, Store};
use crate::util::is_json_text;

verus! {

/// The replies that the status probe of job `id` gets from store `s`.
pub open spec fn probe_of(s: Store, id: Seq<char>) -> StatusProbe {
    StatusProbe {
        exists: s.hashes.contains_key(id),
        running: s.in_set(StateSet::Running, id),
        queued: s.in_set(StateSet::Queued, id),
        postponed: s.in_set(StateSet::Postponed, id),
        aborted: s.in_set(StateSet::Aborted, id),
        completed_at: s.hash(id).contains_key(Field::CompletedAt),
    }
}

/// The status read from a store where every id is in one set at most is the
/// status of the set that holds the job; a job in the completed set or in no
/// set reads as completed where it has a completion time and as failed
/// otherwise; a job without a hash is not found.
pub proof fn lemma_status_follows_membership(s: Store, id: Seq<char>)
    requires
        s.single_membership(),
    ensures
        !s.hashes.contains_key(id) ==> resolve_status_spec(probe_of(s, id)) is None,
        forall|k: StateSet|
            s.hashes.contains_key(id) && k != StateSet::Completed && #[trigger] s.in_set(k, id)
                ==> resolve_status_spec(probe_of(s, id)) == Some(status_of_set(k)),
        s.hashes.contains_key(id) && (!s.in_any_set(id) || s.in_set(StateSet::Completed, id)) ==> resolve_status_spec(probe_of(s, id))
            == Some(
            if s.hash(id).contains_key(Field::CompletedAt) {
                JobStatus::Completed
            } else {
                JobStatus::Failed
            },
        ),
{
    assert forall|k: StateSet|
        s.hashes.contains_key(id) && k != StateSet::Completed && #[trigger] s.in_set(k, id) implies resolve_status_spec(
        probe_of(s, id),
    ) == Some(status_of_set(k)) by {
        if k != StateSet::Running {
            assert(!s.in_set(StateSet::Running, id));
        }
        if k != StateSet::Queued {
            assert(!s.in_set(StateSet::Queued, id));
        }
        if k != StateSet::Postponed {
            assert(!s.in_set(StateSet::Postponed, id));
        }
        if k != StateSet::Aborted {
            assert(!s.in_set(StateSet::Aborted, id));
        }
        let p = probe_of(s, id);
        match k {
            StateSet::Running => assert(p.running),
            StateSet::Queued => assert(!p.running && p.queued),
            StateSet::Postponed => assert(!p.running && !p.queued && p.postponed),
            StateSet::Aborted => assert(!p.running && !p.queued && !p.postponed && p.aborted),
            StateSet::Completed => {},
        }
    }
    if s.hashes.contains_key(id) && (!s.in_any_set(id) || s.in_set(StateSet::Completed, id)) {
        assert(!s.in_set(StateSet::Running, id));
        assert(!s.in_set(StateSet::Queued, id));
        assert(!s.in_set(StateSet::Postponed, id));
        assert(!s.in_set(StateSet::Aborted, id));
    }
}

/// Submitting a plan under a fresh id keeps every id in one set at most,
/// keeps outcomes only on once-completed jobs, and puts the job in the set
/// of its initial status: postponed where it waits for a future time,
/// queued otherwise; its status then reads so.
pub proof fn lemma_submit_keeps_invariants(
    s: Store,
    plan: PlanView,
    id: Seq<char>,
    now: i64,
    default_origin: Seq<char>,
)
    requires
        s.single_membership(),
        s.outcomes_completed(),
        !s.in_any_set(id),
    ensures
        apply_all(s, submit_spec(plan, id, now, default_origin)).single_membership(),
        apply_all(s, submit_spec(plan, id, now, default_origin)).outcomes_completed(),
        apply_all(s, submit_spec(plan, id, now, default_origin)).in_set(
            set_of_status(initial_status(plan, now)).unwrap(),
            id,
        ),
        resolve_status_spec(probe_of(apply_all(s, submit_spec(plan, id, now, default_origin)), id))
            == Some(initial_status(plan, now)),
{
    reveal_with_fuel(apply_all, 10);
    let t = apply_all(s, submit_spec(plan, id, now, default_origin));
    let k = set_of_status(initial_status(plan, now)).unwrap();
    assert forall|x: Seq<char>, a: StateSet, b: StateSet|
        t.in_set(a, x) && t.in_set(b, x) implies a == b by {
        if x == id {
            assert(!s.in_set(a, x));
            assert(!s.in_set(b, x));
        } else {
            assert(s.in_set(a, x) && s.in_set(b, x));
        }
    }
    assert forall|x: Seq<char>|
        t.hashes.contains_key(x) && t.hashes[x].contains_key(Field::Outcome) implies t.ever_completed.contains(x) by {
        if x != id {
            assert(s.hashes.contains_key(x));
        } else if s.hashes.contains_key(id) {
            assert(s.hashes[id].contains_key(Field::Outcome));
        }
    }
    assert(t.in_set(k, id));
    lemma_status_follows_membership(t, id);
}

/// A job's metadata read back right after submitting a plan is the plan:
/// its id, the payload text exactly, the maximum of attempts, the priority,
/// the origin (the default one where the plan names none), an empty history
/// and a `null` outcome.
pub proof fn lemma_submit_then_metadata(
    s: Store,
    plan: PlanView,
    id: Seq<char>,
    now: i64,
    default_origin: Seq<char>,
    pairs: Seq<(Seq<char>, Seq<char>)>,
    m: JobMetadata,
)
    requires
        plan.payload matches Some(p) && is_json_text(p),
        !s.hashes.contains_key(id),
        pairs_represent(pairs, apply_all(s, submit_spec(plan, id, now, default_origin)).hash(id)),
    ensures
        decodable(pairs),
        m.decodes_from(pairs) ==> {
            &&& m.id@ == id
            &&& Some(m.payload@) == plan.payload
            &&& m.max_attempts == plan.max_attempts
            &&& m.initial_priority == plan.priority
            &&& m.origin@ == or_default(plan.origin, default_origin)
            &&& m.attempt_history@ == empty_array_text()
            &&& m.work_summary@ == null_text()
        },
{
    reveal_with_fuel(apply_all, 10);
    lemma_u32_round_trip(plan.max_attempts);
    lemma_i64_round_trip(plan.priority);
    let h = apply_all(s, submit_spec(plan, id, now, default_origin)).hash(id);
    assert(field_of(pairs, Field::Id) == Some(id));
    assert(field_of(pairs, Field::Payload) == plan.payload);
    assert(field_of(pairs, Field::MaxAttempts) == Some(crate::decimal::decimal_of(plan.max_attempts as int)));
    assert(field_of(pairs, Field::InitialPriority) == Some(crate::decimal::decimal_of(plan.priority as int)));
    assert(field_of(pairs, Field::Origin) == Some(or_default(plan.origin, default_origin)));
    assert(field_of(pairs, Field::AttemptHistory) == Some(empty_array_text()));
    assert(field_of(pairs, Field::Outcome) is None);
}

/// Cleaning a job leaves no hash for it and no set holding it, and keeps
/// both invariants.
pub proof fn lemma_clean_removes_job(s: Store, id: Seq<char>)
    requires
        s.single_membership(),
        s.outcomes_completed(),
    ensures
        !apply_all(s, clean_spec(id)).hashes.contains_key(id),
        !apply_all(s, clean_spec(id)).in_any_set(id),
        apply_all(s, clean_spec(id)).single_membership(),
        apply_all(s, clean_spec(id)).outcomes_completed(),
        resolve_status_spec(probe_of(apply_all(s, clean_spec(id)), id)) is None,
{
    reveal_with_fuel(apply_all, 7);
    let t = apply_all(s, clean_spec(id));
    assert forall|k: StateSet| !t.in_set(k, id) by {}
    assert forall|x: Seq<char>, a: StateSet, b: StateSet|
        t.in_set(a, x) && t.in_set(b, x) implies a == b by {
        assert(s.in_set(a, x) && s.in_set(b, x));
    }
    assert forall|x: Seq<char>|
        t.hashes.contains_key(x) && t.hashes[x].contains_key(Field::Outcome) implies t.ever_completed.contains(x) by {
        assert(s.hashes.contains_key(x));
    }
}

/// Aborting a job that is not running keeps both invariants: a
/// postponed or queued job moves to the aborted set and the abort says so;
/// any other job is left as it was and the abort says it was not aborted.
pub proof fn lemma_abort_keeps_single_membership(s: Store, id: Seq<char>, now: i64, grace_ms: i64)
    requires
        s.single_membership(),
        s.outcomes_completed(),
        !s.in_set(StateSet::Running, id),
    ensures
        ({
            let t = apply_all(s, abort_spec(id));
            let out = abort_outcome(
                id,
                if s.in_set(StateSet::Postponed, id) { 1 } else { 0 },
                if s.in_set(StateSet::Queued, id) { 1 } else { 0 },
                None,
                now,
                grace_ms,
            );
            let u = match out.1 {
                Some(c) => apply(t, c),
                None => t,
            };
            &&& u.single_membership()
            &&& u.outcomes_completed()
            &&& out.0 == (s.in_set(StateSet::Postponed, id) || s.in_set(StateSet::Queued, id))
            &&& out.0 ==> u.in_set(StateSet::Aborted, id)
            &&& !out.0 ==> forall|k: StateSet, x: Seq<char>| u.in_set(k, x) == s.in_set(k, x)
        }),
{
    reveal_with_fuel(apply_all, 4);
    let t = apply_all(s, abort_spec(id));
    let was = s.in_set(StateSet::Postponed, id) || s.in_set(StateSet::Queued, id);
    let out = abort_outcome(
        id,
        if s.in_set(StateSet::Postponed, id) { 1 } else { 0 },
        if s.in_set(StateSet::Queued, id) { 1 } else { 0 },
        None,
        now,
        grace_ms,
    );
    let u = match out.1 {
        Some(c) => apply(t, c),
        None => t,
    };
    if was {
        assert(!s.in_set(StateSet::Aborted, id) && !s.in_set(StateSet::Completed, id));
    } else {
        assert(t.members(StateSet::Postponed) =~= s.members(StateSet::Postponed));
        assert(t.members(StateSet::Queued) =~= s.members(StateSet::Queued));
    }
    assert forall|x: Seq<char>, a: StateSet, b: StateSet|
        u.in_set(a, x) && u.in_set(b, x) implies a == b by {
        if x != id {
            assert(s.in_set(a, x) && s.in_set(b, x));
        } else if was {
            assert(a == StateSet::Aborted && b == StateSet::Aborted);
        } else {
            assert(s.in_set(a, x) && s.in_set(b, x));
        }
    }
    assert(u.hashes == s.hashes);
    assert(u.ever_completed == s.ever_completed);
}

/// A claim moves the popped job from the queued set to the running set:
/// every id stays in one set at most, outcomes stay on once-completed jobs,
/// and the job reads as running.
pub proof fn lemma_claim_keeps_invariants(s: Store, id: Seq<char>, now: i64, heartbeat_ms: i64)
    requires
        s.single_membership(),
        s.outcomes_completed(),
        s.in_set(StateSet::Queued, id),
    ensures
        apply_all(s.pop(StateSet::Queued, id), claim_spec(id, now, heartbeat_ms)).single_membership(),
        apply_all(s.pop(StateSet::Queued, id), claim_spec(id, now, heartbeat_ms)).outcomes_completed(),
        resolve_status_spec(
            probe_of(apply_all(s.pop(StateSet::Queued, id), claim_spec(id, now, heartbeat_ms)), id),
        ) == Some(JobStatus::Running),
{
    reveal_with_fuel(apply_all, 5);
    let p = s.pop(StateSet::Queued, id);
    let t = apply_all(p, claim_spec(id, now, heartbeat_ms));
    assert forall|x: Seq<char>, a: StateSet, b: StateSet|
        t.in_set(a, x) && t.in_set(b, x) implies a == b by {
        if x != id {
            assert(s.in_set(a, x) && s.in_set(b, x));
        } else {
            if a != StateSet::Running {
                assert(s.in_set(a, x));
                assert(s.in_set(StateSet::Queued, x));
            }
            if b != StateSet::Running {
                assert(s.in_set(b, x));
                assert(s.in_set(StateSet::Queued, x));
            }
        }
    }
    assert forall|x: Seq<char>|
        t.hashes.contains_key(x) && t.hashes[x].contains_key(Field::Outcome) implies t.ever_completed.contains(x) by {
        if x != id {
            assert(s.hashes.contains_key(x));
        } else {
            assert(s.hashes.contains_key(id) && s.hashes[id].contains_key(Field::Outcome));
        }
    }
    lemma_status_follows_membership(t, id);
}

/// Two claims never take the same job: once one pop took `a` from the queued
/// set and claimed it, the queued set no longer holds `a`, so a later pop
/// returns another id.
pub proof fn lemma_claims_are_disjoint(s: Store, a: Seq<char>, b: Seq<char>, now: i64, heartbeat_ms: i64)
    requires
        s.in_set(StateSet::Queued, a),
        apply_all(s.pop(StateSet::Queued, a), claim_spec(a, now, heartbeat_ms)).in_set(StateSet::Queued, b),
    ensures
        a != b,
{
    reveal_with_fuel(apply_all, 5);
}

/// Completing a running job moves it to the completed set, stores the
/// outcome as given, keeps both invariants, and the job reads as completed
/// with that outcome.
pub proof fn lemma_complete_stores_outcome(
    s: Store,
    id: Seq<char>,
    outcome: Seq<char>,
    now: i64,
    ttl_ms: i64,
    pairs: Seq<(Seq<char>, Seq<char>)>,
    m: JobMetadata,
)
    requires
        s.single_membership(),
        s.outcomes_completed(),
        s.in_set(StateSet::Running, id),
        pairs_represent(pairs, apply_all(s, complete_spec(id, outcome, now, ttl_ms)).hash(id)),
    ensures
        apply_all(s, complete_spec(id, outcome, now, ttl_ms)).single_membership(),
        apply_all(s, complete_spec(id, outcome, now, ttl_ms)).outcomes_completed(),
        resolve_status_spec(probe_of(apply_all(s, complete_spec(id, outcome, now, ttl_ms)), id))
            == Some(JobStatus::Completed),
        field_of(pairs, Field::Outcome) == Some(outcome),
        m.decodes_from(pairs) ==> m.work_summary@ == outcome,
{
    reveal_with_fuel(apply_all, 7);
    let t = apply_all(s, complete_spec(id, outcome, now, ttl_ms));
    assert forall|x: Seq<char>, a: StateSet, b: StateSet|
        t.in_set(a, x) && t.in_set(b, x) implies a == b by {
        if x != id {
            assert(s.in_set(a, x) && s.in_set(b, x));
        } else {
            if a != StateSet::Completed {
                assert(s.in_set(a, x) && s.in_set(StateSet::Running, x));
            }
            if b != StateSet::Completed {
                assert(s.in_set(b, x) && s.in_set(StateSet::Running, x));
            }
        }
    }
    assert forall|x: Seq<char>|
        t.hashes.contains_key(x) && t.hashes[x].contains_key(Field::Outcome) implies t.ever_completed.contains(x) by {
        if x != id {
            assert(s.hashes.contains_key(x));
        }
    }
    assert(t.in_set(StateSet::Completed, id));
    lemma_status_follows_membership(t, id);
}

/// Promoting a due postponed job moves it to the queued set: both
/// invariants hold, and the job reads as queued.
pub proof fn lemma_promote_queues_job(s: Store, id: Seq<char>, priority: i64)
    requires
        s.single_membership(),
        s.outcomes_completed(),
        s.in_set(StateSet::Postponed, id),
    ensures
        apply_all(s, promote_spec(id, priority)).single_membership(),
        apply_all(s, promote_spec(id, priority)).outcomes_completed(),
        resolve_status_spec(probe_of(apply_all(s, promote_spec(id, priority)), id)) == Some(
            JobStatus::Queued,
        ),
{
    reveal_with_fuel(apply_all, 4);
    let t = apply_all(s, promote_spec(id, priority));
    assert forall|x: Seq<char>, a: StateSet, b: StateSet|
        t.in_set(a, x) && t.in_set(b, x) implies a == b by {
        if x != id {
            assert(s.in_set(a, x) && s.in_set(b, x));
        } else {
            if a != StateSet::Queued {
                assert(s.in_set(a, x) && s.in_set(StateSet::Postponed, x));
            }
            if b != StateSet::Queued {
                assert(s.in_set(b, x) && s.in_set(StateSet::Postponed, x));
            }
        }
    }
    assert forall|x: Seq<char>|
        t.hashes.contains_key(x) && t.hashes[x].contains_key(Field::Outcome) implies t.ever_completed.contains(x) by {
        if x != id {
            assert(s.hashes.contains_key(x));
        } else {
            assert(s.hashes.contains_key(id) && s.hashes[id].contains_key(Field::Outcome));
        }
    }
    assert(t.in_set(StateSet::Queued, id));
    lemma_status_follows_membership(t, id);
}

/// Ending an aborted job deletes its metadata and takes it out of the
/// aborted set, keeping both invariants; a job that was only aborted is then
/// in no set and is not found.
pub proof fn lemma_sweep_ends_job(s: Store, id: Seq<char>)
    requires
        s.single_membership(),
        s.outcomes_completed(),
        s.in_set(StateSet::Aborted, id),
    ensures
        apply_all(s, sweep_spec(id)).single_membership(),
        apply_all(s, sweep_spec(id)).outcomes_completed(),
        !apply_all(s, sweep_spec(id)).in_any_set(id),
        resolve_status_spec(probe_of(apply_all(s, sweep_spec(id)), id)) is None,
{
    reveal_with_fuel(apply_all, 3);
    let t = apply_all(s, sweep_spec(id));
    assert forall|x: Seq<char>, a: StateSet, b: StateSet|
        t.in_set(a, x) && t.in_set(b, x) implies a == b by {
        assert(s.in_set(a, x) && s.in_set(b, x));
    }
    assert forall|k: StateSet| !t.in_set(k, id) by {
        if k != StateSet::Aborted {
            assert(!s.in_set(k, id));
        }
    }
    assert forall|x: Seq<char>|
        t.hashes.contains_key(x) && t.hashes[x].contains_key(Field::Outcome) implies t.ever_completed.contains(x) by {
        assert(s.hashes.contains_key(x));
    }
}

/// Dropping the expired completed jobs keeps both invariants and leaves in
/// the completed set only jobs whose harvest window reaches `now`.
pub proof fn lemma_clean_expired_keeps_window(s: Store, now: i64)
    requires
        s.single_membership(),
        s.outcomes_completed(),
    ensures
        apply_all(s, clean_expired_spec(now)).single_membership(),
        apply_all(s, clean_expired_spec(now)).outcomes_completed(),
        forall|id: Seq<char>|
            #[trigger] apply_all(s, clean_expired_spec(now)).in_set(StateSet::Completed, id)
                ==> apply_all(s, clean_expired_spec(now)).members(StateSet::Completed)[id] > offset(
                now,
                -1,
            ),
{
    reveal_with_fuel(apply_all, 2);
    let t = apply_all(s, clean_expired_spec(now));
    assert forall|x: Seq<char>, a: StateSet, b: StateSet|
        t.in_set(a, x) && t.in_set(b, x) implies a == b by {
        assert(s.in_set(a, x) && s.in_set(b, x));
    }
}

} // verus!
