use vstd::prelude::*;

use crate::command::{views, Command, CommandView};
use crate::error::JonoError;
use crate::fields::Field;
use crate::metadata::{decodable, pairs_view, JobMetadata};
use crate::status::{JobStatus, StateSet};

verus! {

/// The commands that read what decides a job's status, as one atomic
/// pipeline: whether its hash exists, its membership of the running, queued,
/// postponed and aborted sets, and whether it has a completion time.
pub open spec fn status_probe_spec(id: Seq<char>) -> Seq<CommandView> {
    seq![
        CommandView::Exists(id),
        CommandView::ZScore(StateSet::Running, id),
        CommandView::ZScore(StateSet::Queued, id),
        CommandView::ZScore(StateSet::Postponed, id),
        CommandView::ZScore(StateSet::Aborted, id),
        CommandView::HExists(id, Field::CompletedAt),
    ]
}

/// The commands of `status_probe_spec` for job `job_id`.
pub fn status_probe_commands(job_id: &str) -> (r: Vec<Command>)
    ensures
        views(r@) == status_probe_spec(job_id@),
{
    let mut cs: Vec<Command> = Vec::new();
    cs.push(Command::Exists { id: String::from_str(job_id) });
    cs.push(Command::ZScore { set: StateSet::Running, id: String::from_str(job_id) });
    cs.push(Command::ZScore { set: StateSet::Queued, id: String::from_str(job_id) });
    cs.push(Command::ZScore { set: StateSet::Postponed, id: String::from_str(job_id) });
    cs.push(Command::ZScore { set: StateSet::Aborted, id: String::from_str(job_id) });
    cs.push(Command::HExists { id: String::from_str(job_id), field: Field::CompletedAt });
    assert(views(cs@) =~= status_probe_spec(job_id@));
    cs
}

/// The replies to the status probe: each says whether the job is there.
#[derive(Debug, Clone, Copy, PartialEq, Eq, Structural)]
pub struct StatusProbe {
    pub exists: bool,
    pub running: bool,
    pub queued: bool,
    pub postponed: bool,
    pub aborted: bool,
    pub completed_at: bool,
}

/// The status that the probe's replies show, in the order running, queued,
/// postponed, aborted, then completed where a completion time is set, else
/// failed; `None` where the job does not exist.
pub open spec fn resolve_status_spec(p: StatusProbe) -> Option<JobStatus> {
    if !p.exists {
        None
    } else if p.running {
        Some(JobStatus::Running)
    } else if p.queued {
        Some(JobStatus::Queued)
    } else if p.postponed {
        Some(JobStatus::Postponed)
    } else if p.aborted {
        Some(JobStatus::Aborted)
    } else if p.completed_at {
        Some(JobStatus::Completed)
    } else {
        Some(JobStatus::Failed)
    }
}

/// The status of job `job_id` from the probe's replies; `JobNotFound` where
/// its hash does not exist.
pub fn resolve_status(job_id: &str, p: &StatusProbe) -> (r: Result<JobStatus, JonoError>)
    ensures
        match resolve_status_spec(*p) {
            Some(s) => r == Ok::<JobStatus, JonoError>(s),
            None => r matches Err(e) && e is JobNotFound && e->JobNotFound_0@ == job_id@,
        },
{
    if !p.exists {
        Err(JonoError::JobNotFound(String::from_str(job_id)))
    } else if p.running {
        Ok(JobStatus::Running)
    } else if p.queued {
        Ok(JobStatus::Queued)
    } else if p.postponed {
        Ok(JobStatus::Postponed)
    } else if p.aborted {
        Ok(JobStatus::Aborted)
    } else if p.completed_at {
        Ok(JobStatus::Completed)
    } else {
        Ok(JobStatus::Failed)
    }
}

/// The commands that read a job's metadata, as one atomic pipeline.
pub open spec fn metadata_spec(id: Seq<char>) -> Seq<CommandView> {
    seq![CommandView::Exists(id), CommandView::HGetAll(id)]
}

/// The commands of `metadata_spec` for job `job_id`.
pub fn metadata_commands(job_id: &str) -> (r: Vec<Command>)
    ensures
        views(r@) == metadata_spec(job_id@),
{
    let mut cs: Vec<Command> = Vec::new();
    cs.push(Command::Exists { id: String::from_str(job_id) });
    cs.push(Command::HGetAll { id: String::from_str(job_id) });
    assert(views(cs@) =~= metadata_spec(job_id@));
    cs
}

/// A job's metadata from the replies of `metadata_spec`: `JobNotFound` where
/// the hash does not exist, else what its pairs decode to.
pub fn resolve_metadata(job_id: &str, exists: bool, hash: &Vec<(String, String)>) -> (r: Result<
    JobMetadata,
    JonoError,
>)
    ensures
        !exists ==> (r matches Err(e) && e is JobNotFound && e->JobNotFound_0@ == job_id@),
        exists ==> (r is Ok <==> decodable(pairs_view(hash@))),
        exists ==> (r matches Ok(m) ==> m.decodes_from(pairs_view(hash@))),
        exists ==> (r matches Err(e) ==> e is InvalidJob),
{
    if !exists {
        return Err(JonoError::JobNotFound(String::from_str(job_id)));
    }
    JobMetadata::from_hash(hash)
}

/// Which states a by-status query asks for.
#[derive(Debug, Clone, Default)]
pub struct JobFilter {
    /// The states to list; `None` lists all five sets.
    pub states: Option<Vec<JobStatus>>,
}

/// The sets whose members a filter asks for, in order: the listed states
/// that have a set (`Failed` has none), or all five sets.
pub open spec fn ranged_sets(filter: Option<Seq<JobStatus>>) -> Seq<StateSet> {
    match filter {
        None => seq![
            StateSet::Postponed,
            StateSet::Queued,
            StateSet::Running,
            StateSet::Aborted,
            StateSet::Completed,
        ],
        Some(states) => sets_of_states(states),
    }
}

/// The sets of the listed states, in order, leaving out `Failed`.
pub open spec fn sets_of_states(states: Seq<JobStatus>) -> Seq<StateSet>
    decreases states.len(),
{
    if states.len() == 0 {
        Seq::empty()
    } else {
        let rest = sets_of_states(states.drop_last());
        match crate::status::set_of_status(states.last()) {
            Some(k) => rest.push(k),
            None => rest,
        }
    }
}

/// The sets that `filter` asks for, in the order of their `ZRANGE` commands.
pub fn ranged_sets_of(filter: &JobFilter) -> (r: Vec<StateSet>)
    ensures
        r@ == ranged_sets(
            match filter.states {
                Some(v) => Some(v@),
                None => None,
            },
        ),
{
    match &filter.states {
        None => {
            let r = vec![
                StateSet::Postponed,
                StateSet::Queued,
                StateSet::Running,
                StateSet::Aborted,
                StateSet::Completed,
            ];
            assert(r@ =~= ranged_sets(None));
            r
        },
        Some(states) => {
            let mut r: Vec<StateSet> = Vec::new();
            let mut i: usize = 0;
            while i < states.len()
                invariant
                    0 <= i <= states@.len(),
                    r@ == sets_of_states(states@.subrange(0, i as int)),
                decreases states@.len() - i,
            {
                assert(states@.subrange(0, i + 1).drop_last() =~= states@.subrange(0, i as int));
                match states[i].set() {
                    Some(k) => r.push(k),
                    None => {},
                }
                i = i + 1;
            }
            assert(states@.subrange(0, i as int) =~= states@);
            r
        },
    }
}

/// One `ZRANGE` per set, as one atomic pipeline.
pub open spec fn by_status_spec(sets: Seq<StateSet>) -> Seq<CommandView> {
    sets.map_values(|k: StateSet| CommandView::ZRange(k))
}

/// The commands of `by_status_spec` for the given sets.
pub fn by_status_commands(sets: &Vec<StateSet>) -> (r: Vec<Command>)
    ensures
        views(r@) == by_status_spec(sets@),
{
    let mut cs: Vec<Command> = Vec::new();
    let mut i: usize = 0;
    while i < sets.len()
        invariant
            0 <= i <= sets@.len(),
            cs@.len() == i,
            views(cs@) == by_status_spec(sets@.subrange(0, i as int)),
        decreases sets@.len() - i,
    {
        let ghost before = cs@;
        cs.push(Command::ZRange { set: sets[i] });
        i = i + 1;
        assert forall|j: int| 0 <= j < i implies views(cs@)[j] == by_status_spec(
            sets@.subrange(0, i as int),
        )[j] by {
            if j < i - 1 {
                assert(cs@[j] == before[j]);
                assert(views(before)[j] == by_status_spec(sets@.subrange(0, i - 1))[j]);
            }
        }
        assert(views(cs@) =~= by_status_spec(sets@.subrange(0, i as int)));
    }
    assert(sets@.subrange(0, i as int) =~= sets@);
    cs
}

/// The ids in each state.
#[derive(Debug, Clone, Default)]
pub struct MapStatusToJobId {
    /// Jobs postponed to a future time.
    pub postponed: Vec<String>,
    /// Jobs waiting to be processed.
    pub queued: Vec<String>,
    /// Jobs being processed by workers.
    pub running: Vec<String>,
    /// Jobs that were canceled.
    pub aborted: Vec<String>,
    /// Jobs completed and waiting to be harvested.
    pub completed: Vec<String>,
}

impl MapStatusToJobId {
    /// The ids listed under set `k`.
    pub open spec fn ids(self, k: StateSet) -> Seq<Seq<char>> {
        match k {
            StateSet::Postponed => self.postponed.deep_view(),
            StateSet::Queued => self.queued.deep_view(),
            StateSet::Running => self.running.deep_view(),
            StateSet::Aborted => self.aborted.deep_view(),
            StateSet::Completed => self.completed.deep_view(),
        }
    }

    /// An empty map.
    pub fn new() -> (r: MapStatusToJobId)
        ensures
            forall|k: StateSet| r.ids(k).len() == 0,
    {
        MapStatusToJobId {
            postponed: Vec::new(),
            queued: Vec::new(),
            running: Vec::new(),
            aborted: Vec::new(),
            completed: Vec::new(),
        }
    }

    /// Lists `ids` under set `k`.
    fn put(&mut self, k: StateSet, ids: Vec<String>)
        ensures
            final(self).ids(k) == ids.deep_view(),
            forall|j: StateSet| j != k ==> final(self).ids(j) == old(self).ids(j),
    {
        match k {
            StateSet::Postponed => self.postponed = ids,
            StateSet::Queued => self.queued = ids,
            StateSet::Running => self.running = ids,
            StateSet::Aborted => self.aborted = ids,
            StateSet::Completed => self.completed = ids,
        }
    }
}

/// The ids that the replies list for set `k`: the reply of the last of the
/// first `n` `ZRANGE`s on `k`, or none.
pub open spec fn picked(sets: Seq<StateSet>, replies: Seq<Vec<String>>, k: StateSet, n: int) -> Seq<
    Seq<char>,
>
    decreases n,
{
    if n <= 0 {
        Seq::empty()
    } else if sets[n - 1] == k {
        replies[n - 1].deep_view()
    } else {
        picked(sets, replies, k, n - 1)
    }
}

/// The map from the replies to the pipeline of `by_status_spec(sets)`: each
/// set lists the members its `ZRANGE` replied with; sets not asked for list
/// none.
pub fn assemble_status_map(sets: &Vec<StateSet>, replies: &Vec<Vec<String>>) -> (r: MapStatusToJobId)
    ensures
        forall|k: StateSet|
            r.ids(k) == picked(
                sets@,
                replies@,
                k,
                if sets@.len() <= replies@.len() {
                    sets@.len() as int
                } else {
                    replies@.len() as int
                },
            ),
{
    let n = if sets.len() <= replies.len() {
        sets.len()
    } else {
        replies.len()
    };
    let mut map = MapStatusToJobId::new();
    let mut i: usize = 0;
    while i < n
        invariant
            0 <= i <= n,
            n <= sets@.len(),
            n <= replies@.len(),
            forall|k: StateSet| map.ids(k) == picked(sets@, replies@, k, i as int),
        decreases n - i,
    {
        let ids = replies[i].clone();
        proof {
            vstd::std_specs::vec::vec_clone_deep_view_proof(replies@[i as int], ids);
        }
        map.put(sets[i], ids);
        i = i + 1;
    }
    map
}

} // verus!
