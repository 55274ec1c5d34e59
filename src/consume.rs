use vstd::prelude::*;

use crate::command::{views, Command, CommandView};
use crate::decimal::{decimal_of, format_i64};
use crate::error::JonoError;
use crate::fields::Field;
use crate::metadata::{decodable, field_of, null_text, or_default, pairs_view, JobMetadata};
use crate::produce::{hset, offset, offset_ms};
use crate::status::{status_word, JobStatus, StateSet};
use crate::util::{is_json_text, json_valid};

verus! {

/// How long a completed job may wait for harvest, in ms (24 hours).
pub const COMPLETED_TTL_MS: i64 = 86_400_000;

/// What a worker is handed: the job's id and payload (JSON text).
#[derive(Debug, Clone)]
pub struct Workload {
    pub job_id: String,
    pub payload: String,
}

impl Workload {
    /// The workload of a job.
    pub fn from_metadata(metadata: JobMetadata) -> (r: Workload)
        ensures
            r.job_id == metadata.id,
            r.payload == metadata.payload,
    {
        Workload { job_id: metadata.id, payload: metadata.payload }
    }
}

/// What a worker returns: success with optional JSON data, or a failure message.
#[derive(Debug, Clone)]
pub enum WorkSummary {
    Success(Option<String>),
    Failure(String),
}

/// The commands that check a popped job before work: whether its hash
/// exists, and whether it is in the aborted set.
pub open spec fn check_spec(id: Seq<char>) -> Seq<CommandView> {
    seq![CommandView::Exists(id), CommandView::ZScore(StateSet::Aborted, id)]
}

/// The commands that claim job `id` at `now`, as one atomic pipeline: into
/// the running set with its heartbeat deadline, status and start time into
/// the hash, then the whole hash read back.
pub open spec fn claim_spec(id: Seq<char>, now: i64, heartbeat_ms: i64) -> Seq<CommandView> {
    seq![
        CommandView::ZAdd(StateSet::Running, id, offset(now, heartbeat_ms as int)),
        CommandView::HSet(id, Field::Status, status_word(JobStatus::Running)),
        CommandView::HSet(id, Field::StartedAt, decimal_of(now as int)),
        CommandView::HGetAll(id),
    ]
}

/// Whole seconds of a span of `ms` milliseconds; none for a negative span.
pub open spec fn expire_seconds(ms: i64) -> i64 {
    if ms >= 0 {
        (ms / 1000) as i64
    } else {
        0
    }
}

/// The commands that complete job `id` with outcome `outcome` at `now`, as
/// one atomic pipeline: out of the running set, into the completed set with
/// its harvest expiry, status, completion time and outcome into the hash,
/// and the hash set to expire with the harvest window.
pub open spec fn complete_spec(id: Seq<char>, outcome: Seq<char>, now: i64, ttl_ms: i64) -> Seq<CommandView> {
    seq![
        CommandView::ZRem(StateSet::Running, id),
        CommandView::ZAdd(StateSet::Completed, id, offset(now, ttl_ms as int)),
        CommandView::HSet(id, Field::Status, status_word(JobStatus::Completed)),
        CommandView::HSet(id, Field::CompletedAt, decimal_of(now as int)),
        CommandView::HSet(id, Field::Outcome, outcome),
        CommandView::Expire(id, expire_seconds(ttl_ms)),
    ]
}

/// The commands of `check_spec` for job `job_id`.
pub fn check_commands(job_id: &str) -> (r: Vec<Command>)
    ensures
        views(r@) == check_spec(job_id@),
{
    let mut cs: Vec<Command> = Vec::new();
    cs.push(Command::Exists { id: String::from_str(job_id) });
    cs.push(Command::ZScore { set: StateSet::Aborted, id: String::from_str(job_id) });
    assert(views(cs@) =~= check_spec(job_id@));
    cs
}

/// The commands of `claim_spec` for job `job_id`.
pub fn claim_commands(job_id: &str, now: i64, heartbeat_ms: i64) -> (r: Vec<Command>)
    ensures
        views(r@) == claim_spec(job_id@, now, heartbeat_ms),
{
    let mut cs: Vec<Command> = Vec::new();
    cs.push(
        Command::ZAdd {
            set: StateSet::Running,
            id: String::from_str(job_id),
            score: offset_ms(now, heartbeat_ms),
        },
    );
    cs.push(hset(job_id, Field::Status, JobStatus::Running.word()));
    cs.push(hset(job_id, Field::StartedAt, format_i64(now)));
    cs.push(Command::HGetAll { id: String::from_str(job_id) });
    assert(views(cs@) =~= claim_spec(job_id@, now, heartbeat_ms));
    cs
}

/// The commands of `complete_spec` for job `job_id`.
pub fn complete_commands(job_id: &str, outcome: String, now: i64, ttl_ms: i64) -> (r: Vec<Command>)
    ensures
        views(r@) == complete_spec(job_id@, outcome@, now, ttl_ms),
{
    let mut cs: Vec<Command> = Vec::new();
    cs.push(Command::ZRem { set: StateSet::Running, id: String::from_str(job_id) });
    cs.push(
        Command::ZAdd {
            set: StateSet::Completed,
            id: String::from_str(job_id),
            score: offset_ms(now, ttl_ms),
        },
    );
    cs.push(hset(job_id, Field::Status, JobStatus::Completed.word()));
    cs.push(hset(job_id, Field::CompletedAt, format_i64(now)));
    cs.push(hset(job_id, Field::Outcome, outcome));
    let seconds: i64 = if ttl_ms >= 0 {
        ttl_ms / 1000
    } else {
        0
    };
    cs.push(Command::Expire { id: String::from_str(job_id), seconds });
    assert(views(cs@) =~= complete_spec(job_id@, outcome@, now, ttl_ms));
    cs
}

/// Where a consumer stands in taking one job.
#[derive(Debug, Clone)]
pub enum ConsumerState {
    /// Nothing popped yet.
    Idle,
    /// This job was popped and is being checked.
    Checking(String),
    /// This job is being claimed.
    Claiming(String),
    /// The worker runs on this job.
    Working(String),
    /// This job is being stored as completed, with this data.
    Completing(String, Option<String>),
    /// The attempt is over.
    Done,
}

/// What came back from the last action.
#[derive(Debug)]
pub enum ConsumerEvent {
    /// The blocking pop on the queued set returned this id, or nothing in time.
    Popped(Option<String>),
    /// The replies to the check: does the hash exist, is the id aborted.
    Checked { exists: bool, aborted: bool },
    /// The hash's field/value pairs, from the claim.
    Claimed(Vec<(String, String)>),
    /// What the worker returned.
    Worked(Result<WorkSummary, JonoError>),
    /// The completion was stored.
    Stored,
}

/// What to do next.
#[derive(Debug)]
pub enum ConsumerAction {
    /// Pop the lowest id from the queued set, blocking up to the poll timeout.
    Pop,
    /// Run these commands as one atomic pipeline.
    Run(Vec<Command>),
    /// Hand this workload to the worker.
    Work(Workload),
    /// Stop, and return this.
    Finish(Result<Option<WorkSummary>, JonoError>),
}

/// The attempt stops with a failure whose message is `text`.
pub open spec fn fails_with(a: ConsumerAction, text: Seq<char>) -> bool {
    a matches ConsumerAction::Finish(Ok(Some(WorkSummary::Failure(m)))) && m@ == text
}

/// The action runs exactly the commands `cs`.
pub open spec fn runs(a: ConsumerAction, cs: Seq<CommandView>) -> bool {
    a matches ConsumerAction::Run(v) && views(v@) == cs
}

/// The first action of an attempt.
pub fn begin() -> (r: (ConsumerState, ConsumerAction))
    ensures
        r.0 is Idle,
        r.1 is Pop,
{
    (ConsumerState::Idle, ConsumerAction::Pop)
}

/// One step of taking a job: from where the consumer stands and what came
/// back, where it stands next and what to do. A job whose hash is gone fails
/// with "job no longer exists", an aborted one with "job was canceled",
/// neither with any write; a claimed job goes to the worker; a success is
/// stored as completed with its data (`null` where none) as the outcome; a
/// worker's failure is returned as it is, the job staying in the running set
/// until its heartbeat lapses. A reply that does not fit the step is a
/// backend error.
pub fn step(state: ConsumerState, event: ConsumerEvent, now: i64, heartbeat_ms: i64, ttl_ms: i64) -> (r:
    (ConsumerState, ConsumerAction))
    ensures
        match (state, event) {
            (ConsumerState::Idle, ConsumerEvent::Popped(None)) => r.0 is Done && r.1 matches ConsumerAction::Finish(
                Ok(None),
            ),
            (ConsumerState::Idle, ConsumerEvent::Popped(Some(id))) => (r.0 matches ConsumerState::Checking(i)
                && i@ == id@) && runs(r.1, check_spec(id@)),
            (ConsumerState::Checking(id), ConsumerEvent::Checked { exists, aborted }) => if !exists {
                r.0 is Done && fails_with(r.1, "job no longer exists"@)
            } else if aborted {
                r.0 is Done && fails_with(r.1, "job was canceled"@)
            } else {
                (r.0 matches ConsumerState::Claiming(i) && i@ == id@) && runs(
                    r.1,
                    claim_spec(id@, now, heartbeat_ms),
                )
            },
            (ConsumerState::Claiming(id), ConsumerEvent::Claimed(pairs)) => if decodable(
                pairs_view(pairs@),
            ) {
                (r.0 matches ConsumerState::Working(i) && i@ == id@) && (r.1 matches ConsumerAction::Work(w)
                    && w.job_id@ == field_of(pairs_view(pairs@), Field::Id).unwrap()
                    && w.payload@ == field_of(pairs_view(pairs@), Field::Payload).unwrap())
            } else {
                r.0 is Done && (r.1 matches ConsumerAction::Finish(Err(e)) && e is InvalidJob)
            },
            (ConsumerState::Working(_id), ConsumerEvent::Worked(Err(e))) => r.0 is Done && (r.1 matches ConsumerAction::Finish(
                Err(e2),
            ) && e2 == e),
            (ConsumerState::Working(_id), ConsumerEvent::Worked(Ok(WorkSummary::Failure(m)))) => r.0 is Done
                && fails_with(r.1, m@),
            (ConsumerState::Working(id), ConsumerEvent::Worked(Ok(WorkSummary::Success(data)))) => match data {
                Some(t) => if is_json_text(t@) {
                    (r.0 matches ConsumerState::Completing(i, d) && i@ == id@ && d == data) && runs(
                        r.1,
                        complete_spec(id@, t@, now, ttl_ms),
                    )
                } else {
                    r.0 is Done && (r.1 matches ConsumerAction::Finish(Err(e)) && e is Serialization)
                },
                None => (r.0 matches ConsumerState::Completing(i, d) && i@ == id@ && d is None) && runs(
                    r.1,
                    complete_spec(id@, null_text(), now, ttl_ms),
                ),
            },
            (ConsumerState::Completing(_id, data), ConsumerEvent::Stored) => r.0 is Done && (r.1 matches ConsumerAction::Finish(
                Ok(Some(WorkSummary::Success(d))),
            ) && d == data),
            _ => r.0 is Done && (r.1 matches ConsumerAction::Finish(Err(e)) && e is Redis),
        },
{
    match (state, event) {
        (ConsumerState::Idle, ConsumerEvent::Popped(None)) => (ConsumerState::Done, ConsumerAction::Finish(Ok(None))),
        (ConsumerState::Idle, ConsumerEvent::Popped(Some(id))) => {
            let cs = check_commands(id.as_str());
            (ConsumerState::Checking(id), ConsumerAction::Run(cs))
        },
        (ConsumerState::Checking(id), ConsumerEvent::Checked { exists, aborted }) => {
            if !exists {
                let m = String::from_str("job no longer exists");
                (ConsumerState::Done, ConsumerAction::Finish(Ok(Some(WorkSummary::Failure(m)))))
            } else if aborted {
                let m = String::from_str("job was canceled");
                (ConsumerState::Done, ConsumerAction::Finish(Ok(Some(WorkSummary::Failure(m)))))
            } else {
                let cs = claim_commands(id.as_str(), now, heartbeat_ms);
                (ConsumerState::Claiming(id), ConsumerAction::Run(cs))
            }
        },
        (ConsumerState::Claiming(id), ConsumerEvent::Claimed(pairs)) => {
            match JobMetadata::from_hash(&pairs) {
                Ok(m) => (ConsumerState::Working(id), ConsumerAction::Work(Workload::from_metadata(m))),
                Err(e) => (ConsumerState::Done, ConsumerAction::Finish(Err(e))),
            }
        },
        (ConsumerState::Working(_id), ConsumerEvent::Worked(Err(e))) => (ConsumerState::Done, ConsumerAction::Finish(Err(e))),
        (ConsumerState::Working(_id), ConsumerEvent::Worked(Ok(WorkSummary::Failure(m)))) => (
            ConsumerState::Done,
            ConsumerAction::Finish(Ok(Some(WorkSummary::Failure(m)))),
        ),
        (ConsumerState::Working(id), ConsumerEvent::Worked(Ok(WorkSummary::Success(data)))) => {
            let outcome = match &data {
                Some(t) => {
                    if !json_valid(t.as_str()) {
                        return (
                            ConsumerState::Done,
                            ConsumerAction::Finish(Err(JonoError::Serialization(String::from_str("outcome is no JSON text")))),
                        );
                    }
                    t.clone()
                },
                None => {
                    proof {
                        reveal_strlit("null");
                    }
                    let t = String::from_str("null");
                    assert(t@ =~= null_text());
                    t
                },
            };
            let cs = complete_commands(id.as_str(), outcome, now, ttl_ms);
            (ConsumerState::Completing(id, data), ConsumerAction::Run(cs))
        },
        (ConsumerState::Completing(_id, data), ConsumerEvent::Stored) => (
            ConsumerState::Done,
            ConsumerAction::Finish(Ok(Some(WorkSummary::Success(data)))),
        ),
        _ => (ConsumerState::Done, ConsumerAction::Finish(Err(JonoError::Redis(String::from_str("reply out of order"))))),
    }
}

} // verus!
