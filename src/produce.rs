use vstd::prelude::*;

use crate::command::{views, Command, CommandView};
use crate::decimal::{decimal_of, format_i64, format_u64};
use crate::error::JonoError;
use crate::fields::Field;
use crate::metadata::{empty_array_text, or_default};
use crate::plan::{JobPlan, PlanView};
use crate::status::{status_word, JobStatus, StateSet};
use crate::util::{is_json_text, json_valid};

verus! {

/// `now + delta`, held within the range of `i64`.
pub open spec fn offset(now: i64, delta: int) -> i64 {
    if now + delta > i64::MAX {
        i64::MAX
    } else if now + delta < i64::MIN {
        i64::MIN
    } else {
        (now + delta) as i64
    }
}

/// `now + delta`, held within the range of `i64`.
pub fn offset_ms(now: i64, delta: i64) -> (r: i64)
    ensures
        r == offset(now, delta as int),
{
    if delta > 0 && now > i64::MAX - delta {
        i64::MAX
    } else if delta < 0 && now < i64::MIN - delta {
        i64::MIN
    } else {
        now + delta
    }
}

/// Whether a plan submitted at `now` waits in the postponed set.
pub open spec fn is_postponed(plan: PlanView, now: i64) -> bool {
    plan.postponed_to > 0 && plan.postponed_to > now
}

/// The status a plan submitted at `now` starts in.
pub open spec fn initial_status(plan: PlanView, now: i64) -> JobStatus {
    if is_postponed(plan, now) {
        JobStatus::Postponed
    } else {
        JobStatus::Queued
    }
}

/// The commands that submit a plan as job `id` at `now`, as one atomic
/// pipeline: the metadata hash, then the id in the postponed set (scored by
/// the execution time) or the queued set (scored by priority).
pub open spec fn submit_spec(plan: PlanView, id: Seq<char>, now: i64, default_origin: Seq<char>) -> Seq<CommandView> {
    seq![
        CommandView::HSet(id, Field::Id, id),
        CommandView::HSet(id, Field::Payload, plan.payload.unwrap()),
        CommandView::HSet(id, Field::MaxAttempts, decimal_of(plan.max_attempts as int)),
        CommandView::HSet(id, Field::InitialPriority, decimal_of(plan.priority as int)),
        CommandView::HSet(id, Field::CreatedAt, decimal_of(now as int)),
        CommandView::HSet(id, Field::AttemptHistory, empty_array_text()),
        CommandView::HSet(id, Field::Origin, or_default(plan.origin, default_origin)),
        CommandView::HSet(id, Field::Status, status_word(initial_status(plan, now))),
        if is_postponed(plan, now) {
            CommandView::ZAdd(StateSet::Postponed, id, plan.postponed_to)
        } else {
            CommandView::ZAdd(StateSet::Queued, id, plan.priority)
        },
    ]
}

/// A command that sets field `f` of job `id` to `value`.
pub fn hset(id: &str, f: Field, value: String) -> (c: Command)
    ensures
        c@ == CommandView::HSet(id@, f, value@),
{
    Command::HSet { id: String::from_str(id), field: f, value }
}

/// The commands that submit `plan` as job `job_id` at `now`; the origin is
/// `default_origin` where the plan names none. Fails with `InvalidJob` where
/// the plan has no payload, and with `Serialization` where the payload is no
/// JSON text.
pub fn submit_commands(plan: &JobPlan, job_id: &str, now: i64, default_origin: &str) -> (r: Result<
    Vec<Command>,
    JonoError,
>)
    ensures
        plan@.payload is None ==> (r matches Err(e) && e is InvalidJob),
        (plan@.payload matches Some(p) && !is_json_text(p)) ==> (r matches Err(e) && e is Serialization),
        (plan@.payload matches Some(p) && is_json_text(p)) ==> (r matches Ok(cs) && views(cs@)
            == submit_spec(plan@, job_id@, now, default_origin@)),
{
    let payload = match plan.get_payload() {
        Some(p) => p,
        None => return Err(JonoError::InvalidJob(String::from_str("Job payload is required"))),
    };
    if !json_valid(payload) {
        return Err(JonoError::Serialization(String::from_str("payload is no JSON text")));
    }
    let origin = match plan.get_origin() {
        Some(o) => o,
        None => default_origin,
    };
    let postponed_to = plan.get_postponed_to();
    let postponed = postponed_to > 0 && postponed_to > now;
    let status = if postponed {
        JobStatus::Postponed
    } else {
        JobStatus::Queued
    };
    proof {
        reveal_strlit("[]");
    }
    let history = String::from_str("[]");
    assert(history@ =~= empty_array_text());
    let mut cs: Vec<Command> = Vec::new();
    cs.push(hset(job_id, Field::Id, String::from_str(job_id)));
    cs.push(hset(job_id, Field::Payload, String::from_str(payload)));
    cs.push(hset(job_id, Field::MaxAttempts, format_u64(plan.get_max_attempts() as u64)));
    cs.push(hset(job_id, Field::InitialPriority, format_i64(plan.get_priority())));
    cs.push(hset(job_id, Field::CreatedAt, format_i64(now)));
    cs.push(hset(job_id, Field::AttemptHistory, history));
    cs.push(hset(job_id, Field::Origin, String::from_str(origin)));
    cs.push(hset(job_id, Field::Status, status.word()));
    if postponed {
        cs.push(Command::ZAdd { set: StateSet::Postponed, id: String::from_str(job_id), score: postponed_to });
    } else {
        cs.push(Command::ZAdd { set: StateSet::Queued, id: String::from_str(job_id), score: plan.get_priority() });
    }
    assert(views(cs@) =~= submit_spec(plan@, job_id@, now, default_origin@));
    Ok(cs)
}

/// The commands that take job `id` out of the postponed and queued sets and
/// read its heartbeat deadline, as one atomic pipeline.
pub open spec fn abort_spec(id: Seq<char>) -> Seq<CommandView> {
    seq![
        CommandView::ZRem(StateSet::Postponed, id),
        CommandView::ZRem(StateSet::Queued, id),
        CommandView::ZScore(StateSet::Running, id),
    ]
}

/// The first step of aborting job `job_id`, once the backend said whether its
/// metadata hash exists: `JobNotFound` where it does not, else the pipeline
/// of `abort_spec`.
pub fn abort_commands(job_id: &str, exists: bool) -> (r: Result<Vec<Command>, JonoError>)
    ensures
        !exists ==> (r matches Err(e) && e is JobNotFound && e->JobNotFound_0@ == job_id@),
        exists ==> (r matches Ok(cs) && views(cs@) == abort_spec(job_id@)),
{
    if !exists {
        return Err(JonoError::JobNotFound(String::from_str(job_id)));
    }
    let mut cs: Vec<Command> = Vec::new();
    cs.push(Command::ZRem { set: StateSet::Postponed, id: String::from_str(job_id) });
    cs.push(Command::ZRem { set: StateSet::Queued, id: String::from_str(job_id) });
    cs.push(Command::ZScore { set: StateSet::Running, id: String::from_str(job_id) });
    assert(views(cs@) =~= abort_spec(job_id@));
    Ok(cs)
}

/// What aborting decides on the replies of the pipeline: a running job is
/// marked aborted with its grace period ending at `now + grace_ms`; a job
/// taken out of the postponed or queued set is marked aborted at `now`; any
/// other job is left alone. The flag says whether the job was aborted.
pub open spec fn abort_outcome(
    id: Seq<char>,
    removed_postponed: u64,
    removed_queued: u64,
    heartbeat: Option<i64>,
    now: i64,
    grace_ms: i64,
) -> (bool, Option<CommandView>) {
    if heartbeat is Some {
        (true, Some(CommandView::ZAdd(StateSet::Aborted, id, offset(now, grace_ms as int))))
    } else if removed_postponed > 0 || removed_queued > 0 {
        (true, Some(CommandView::ZAdd(StateSet::Aborted, id, now)))
    } else {
        (false, None)
    }
}

/// The last step of aborting job `job_id`: whether it was aborted, and the
/// command that marks it so.
pub fn abort_resolve(
    job_id: &str,
    removed_postponed: u64,
    removed_queued: u64,
    heartbeat: Option<i64>,
    now: i64,
    grace_ms: i64,
) -> (r: (bool, Option<Command>))
    ensures
        r.0 == abort_outcome(job_id@, removed_postponed, removed_queued, heartbeat, now, grace_ms).0,
        match r.1 {
            Some(c) => abort_outcome(job_id@, removed_postponed, removed_queued, heartbeat, now, grace_ms).1 == Some(c@),
            None => abort_outcome(job_id@, removed_postponed, removed_queued, heartbeat, now, grace_ms).1 is None,
        },
{
    if heartbeat.is_some() {
        let end = offset_ms(now, grace_ms);
        (true, Some(Command::ZAdd { set: StateSet::Aborted, id: String::from_str(job_id), score: end }))
    } else if removed_postponed > 0 || removed_queued > 0 {
        (true, Some(Command::ZAdd { set: StateSet::Aborted, id: String::from_str(job_id), score: now }))
    } else {
        (false, None)
    }
}

/// The commands that remove job `id` from every set and delete its metadata
/// hash, as one atomic pipeline; the reply of the last tells whether a hash
/// was deleted.
pub open spec fn clean_spec(id: Seq<char>) -> Seq<CommandView> {
    seq![
        CommandView::ZRem(StateSet::Postponed, id),
        CommandView::ZRem(StateSet::Queued, id),
        CommandView::ZRem(StateSet::Running, id),
        CommandView::ZRem(StateSet::Aborted, id),
        CommandView::ZRem(StateSet::Completed, id),
        CommandView::Del(id),
    ]
}

/// The commands of `clean_spec` for job `job_id`.
pub fn clean_commands(job_id: &str) -> (r: Vec<Command>)
    ensures
        views(r@) == clean_spec(job_id@),
{
    let mut cs: Vec<Command> = Vec::new();
    cs.push(Command::ZRem { set: StateSet::Postponed, id: String::from_str(job_id) });
    cs.push(Command::ZRem { set: StateSet::Queued, id: String::from_str(job_id) });
    cs.push(Command::ZRem { set: StateSet::Running, id: String::from_str(job_id) });
    cs.push(Command::ZRem { set: StateSet::Aborted, id: String::from_str(job_id) });
    cs.push(Command::ZRem { set: StateSet::Completed, id: String::from_str(job_id) });
    cs.push(Command::Del { id: String::from_str(job_id) });
    assert(views(cs@) =~= clean_spec(job_id@));
    cs
}

} // verus!
