use vstd::prelude::*;

use crate::command::{views, Command, CommandView};
use crate::fields::Field;
use crate::produce::hset;
use crate::status::{status_word, JobStatus, StateSet};

verus! {

/// The command that lists the members of set `k` whose score is `now` or earlier.
pub open spec fn due_spec(k: StateSet, now: i64) -> Seq<CommandView> {
    seq![CommandView::ZRangeByScore(k, now)]
}

/// The commands of `due_spec`: which postponed jobs are due, or which
/// aborted jobs are past their grace period.
pub fn due_commands(k: StateSet, now: i64) -> (r: Vec<Command>)
    ensures
        views(r@) == due_spec(k, now),
{
    let mut cs: Vec<Command> = Vec::new();
    cs.push(Command::ZRangeByScore { set: k, max: now });
    assert(views(cs@) =~= due_spec(k, now));
    cs
}

/// The commands that move a due postponed job into the queued set, scored by
/// its initial priority, as one atomic pipeline.
pub open spec fn promote_spec(id: Seq<char>, priority: i64) -> Seq<CommandView> {
    seq![
        CommandView::ZRem(StateSet::Postponed, id),
        CommandView::ZAdd(StateSet::Queued, id, priority),
        CommandView::HSet(id, Field::Status, status_word(JobStatus::Queued)),
    ]
}

/// The commands of `promote_spec` for job `job_id`.
pub fn promote_commands(job_id: &str, priority: i64) -> (r: Vec<Command>)
    ensures
        views(r@) == promote_spec(job_id@, priority),
{
    let mut cs: Vec<Command> = Vec::new();
    cs.push(Command::ZRem { set: StateSet::Postponed, id: String::from_str(job_id) });
    cs.push(Command::ZAdd { set: StateSet::Queued, id: String::from_str(job_id), score: priority });
    cs.push(hset(job_id, Field::Status, JobStatus::Queued.word()));
    assert(views(cs@) =~= promote_spec(job_id@, priority));
    cs
}

/// The commands that end an aborted job whose grace period is over: out of
/// the aborted set, metadata deleted, as one atomic pipeline.
pub open spec fn sweep_spec(id: Seq<char>) -> Seq<CommandView> {
    seq![CommandView::ZRem(StateSet::Aborted, id), CommandView::Del(id)]
}

/// The commands of `sweep_spec` for job `job_id`.
pub fn sweep_commands(job_id: &str) -> (r: Vec<Command>)
    ensures
        views(r@) == sweep_spec(job_id@),
{
    let mut cs: Vec<Command> = Vec::new();
    cs.push(Command::ZRem { set: StateSet::Aborted, id: String::from_str(job_id) });
    cs.push(Command::Del { id: String::from_str(job_id) });
    assert(views(cs@) =~= sweep_spec(job_id@));
    cs
}

} // verus!
