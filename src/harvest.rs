use vstd::prelude::*;

use crate::command::{views, Command, CommandView};
use crate::error::JonoError;
use crate::metadata::{decodable, pairs_view, JobMetadata};
use crate::produce::{offset, offset_ms};
use crate::status::StateSet;

verus! {

/// What a reaper is handed: a harvested job's id, payload and outcome (JSON texts).
#[derive(Debug, Clone)]
pub struct Reapload {
    pub job_id: String,
    pub payload: String,
    pub work_summary: String,
}

impl Reapload {
    /// The reapload of a harvested job.
    pub fn from_metadata(metadata: JobMetadata) -> (r: Reapload)
        ensures
            r.job_id == metadata.id,
            r.payload == metadata.payload,
            r.work_summary == metadata.work_summary,
    {
        Reapload { job_id: metadata.id, payload: metadata.payload, work_summary: metadata.work_summary }
    }
}

/// What a reaper returns: success with optional JSON data, or a failure message.
#[derive(Debug, Clone)]
pub enum ReapSummary {
    Success(Option<String>),
    Failure(String),
}

/// How many ids a harvest of up to `limit` jobs pops from the completed set:
/// none is popped, and nothing is harvested, where `limit` is 0.
pub fn harvest_pop_count(limit: usize) -> (r: Option<usize>)
    ensures
        limit == 0 ==> r is None,
        limit > 0 ==> r == Some(limit),
{
    if limit == 0 {
        None
    } else {
        Some(limit)
    }
}

/// The replies of the metadata pipeline for each popped id: whether the
/// hash exists, and its pairs.
pub open spec fn fetched_view(f: Seq<(bool, Vec<(String, String)>)>) -> Seq<(bool, Seq<(Seq<char>, Seq<char>)>)> {
    f.map_values(|x: (bool, Vec<(String, String)>)| (x.0, pairs_view(x.1@)))
}

/// The pairs of the fetched jobs that exist and decode, in order.
pub open spec fn kept(f: Seq<(bool, Seq<(Seq<char>, Seq<char>)>)>) -> Seq<Seq<(Seq<char>, Seq<char>)>>
    decreases f.len(),
{
    if f.len() == 0 {
        Seq::empty()
    } else {
        let rest = kept(f.drop_last());
        if f.last().0 && decodable(f.last().1) {
            rest.push(f.last().1)
        } else {
            rest
        }
    }
}

/// The harvested records: the metadata of each popped job that still exists
/// and decodes, in the order popped; the others are dropped.
pub fn collect_harvest(fetched: &Vec<(bool, Vec<(String, String)>)>) -> (r: Vec<JobMetadata>)
    ensures
        r@.len() == kept(fetched_view(fetched@)).len(),
        forall|j: int| 0 <= j < r@.len() ==> #[trigger] r@[j].decodes_from(kept(fetched_view(fetched@))[j]),
{
    let ghost fv = fetched_view(fetched@);
    let mut out: Vec<JobMetadata> = Vec::new();
    let mut i: usize = 0;
    while i < fetched.len()
        invariant
            0 <= i <= fetched@.len(),
            fv == fetched_view(fetched@),
            out@.len() == kept(fv.subrange(0, i as int)).len(),
            forall|j: int| 0 <= j < out@.len() ==> #[trigger] out@[j].decodes_from(kept(fv.subrange(0, i as int))[j]),
        decreases fetched@.len() - i,
    {
        let ghost before = out@;
        let ghost sub = fv.subrange(0, i + 1);
        assert(sub.drop_last() =~= fv.subrange(0, i as int));
        assert(sub.last() == (fetched@[i as int].0, pairs_view(fetched@[i as int].1@)));
        if fetched[i].0 {
            match JobMetadata::from_hash(&fetched[i].1) {
                Ok(m) => {
                    out.push(m);
                    assert forall|j: int| 0 <= j < out@.len() implies #[trigger] out@[j].decodes_from(kept(sub)[j]) by {
                        if j < out@.len() - 1 {
                            assert(out@[j] == before[j]);
                        }
                    }
                },
                Err(_) => {},
            }
        }
        i = i + 1;
    }
    assert(fv.subrange(0, i as int) =~= fv);
    out
}

/// The command that drops the completed jobs whose harvest window ended
/// before `now`; its reply is the number dropped.
pub open spec fn clean_expired_spec(now: i64) -> Seq<CommandView> {
    seq![CommandView::ZRemRangeByScore(StateSet::Completed, offset(now, -1))]
}

/// The commands of `clean_expired_spec`.
pub fn clean_expired_commands(now: i64) -> (r: Vec<Command>)
    ensures
        views(r@) == clean_expired_spec(now),
{
    let mut cs: Vec<Command> = Vec::new();
    cs.push(Command::ZRemRangeByScore { set: StateSet::Completed, max: offset_ms(now, -1) });
    assert(views(cs@) =~= clean_expired_spec(now));
    cs
}

/// The summaries of a batch, or the first reaper error, which ends the batch.
pub fn batch_result(summaries: Vec<ReapSummary>, error: Option<JonoError>) -> (r: Result<Vec<ReapSummary>, JonoError>)
    ensures
        match error {
            Some(e) => r == Err::<Vec<ReapSummary>, JonoError>(e),
            None => r == Ok::<Vec<ReapSummary>, JonoError>(summaries),
        },
{
    match error {
        Some(e) => Err(e),
        None => Ok(summaries),
    }
}

} // verus!
