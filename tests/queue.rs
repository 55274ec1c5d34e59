use jono::{
    after_pass, assemble_status_map, begin, by_status_commands, clean_commands,
    clean_expired_commands, collect_harvest, current_timestamp_ms, due_commands,
    harvest_pop_count, metadata_commands, promote_commands, ranged_sets_of, resolve_metadata,
    resolve_status, status_probe_commands, step, submit_commands, abort_commands, abort_resolve,
    Command, ConsumerAction, ConsumerConfig, ConsumerEvent, ConsumerState, JobFilter,
    JobMetadata, JobPlan, JobStatus, JonoError, LoopStep, MapStatusToJobId, PassResult,
    Reapload, StateSet, StatusProbe, WorkSummary, Workload, COMPLETED_TTL_MS,
};
use std::collections::HashMap;

/// A store that runs the library's commands in memory, as a backend would.
#[derive(Default)]
struct Backend {
    sets: HashMap<StateSet, Vec<(String, i64)>>,
    hashes: HashMap<String, Vec<(String, String)>>,
}

#[derive(Debug, Clone, PartialEq)]
enum Reply {
    Done,
    Count(u64),
    Flag(bool),
    Score(Option<i64>),
    Pairs(Vec<(String, String)>),
    Ids(Vec<String>),
}

impl Backend {
    fn set(&mut self, k: StateSet) -> &mut Vec<(String, i64)> {
        self.sets.entry(k).or_default()
    }

    fn score(&self, k: StateSet, id: &str) -> Option<i64> {
        self.sets.get(&k).and_then(|m| m.iter().find(|(x, _)| x == id).map(|(_, s)| *s))
    }

    fn sorted(&self, k: StateSet) -> Vec<(String, i64)> {
        let mut v = self.sets.get(&k).cloned().unwrap_or_default();
        v.sort_by(|a, b| (a.1, &a.0).cmp(&(b.1, &b.0)));
        v
    }

    fn run_one(&mut self, c: &Command) -> Reply {
        match c {
            Command::HSet { id, field, value } => {
                let name = field.name();
                let h = self.hashes.entry(id.clone()).or_default();
                match h.iter_mut().find(|(f, _)| *f == name) {
                    Some(p) => p.1 = value.clone(),
                    None => h.push((name, value.clone())),
                }
                Reply::Done
            }
            Command::HExists { id, field } => {
                let name = field.name();
                Reply::Flag(self.hashes.get(id).map_or(false, |h| h.iter().any(|(f, _)| *f == name)))
            }
            Command::HGetAll { id } => Reply::Pairs(self.hashes.get(id).cloned().unwrap_or_default()),
            Command::Exists { id } => Reply::Flag(self.hashes.contains_key(id)),
            Command::Del { id } => Reply::Count(self.hashes.remove(id).map_or(0, |_| 1)),
            Command::Expire { .. } => Reply::Done,
            Command::ZAdd { set, id, score } => {
                let s = self.set(*set);
                s.retain(|(x, _)| x != id);
                s.push((id.clone(), *score));
                Reply::Done
            }
            Command::ZRem { set, id } => {
                let s = self.set(*set);
                let before = s.len();
                s.retain(|(x, _)| x != id);
                Reply::Count((before - s.len()) as u64)
            }
            Command::ZScore { set, id } => Reply::Score(self.score(*set, id)),
            Command::ZRange { set } => Reply::Ids(self.sorted(*set).into_iter().map(|p| p.0).collect()),
            Command::ZRangeByScore { set, max } => Reply::Ids(
                self.sorted(*set).into_iter().filter(|p| p.1 <= *max).map(|p| p.0).collect(),
            ),
            Command::ZRemRangeByScore { set, max } => {
                let s = self.set(*set);
                let before = s.len();
                s.retain(|(_, sc)| *sc > *max);
                Reply::Count((before - s.len()) as u64)
            }
        }
    }

    fn run(&mut self, cs: &[Command]) -> Vec<Reply> {
        cs.iter().map(|c| self.run_one(c)).collect()
    }

    fn pop_min(&mut self, k: StateSet, n: usize) -> Vec<String> {
        let order = self.sorted(k);
        let taken: Vec<String> = order.into_iter().take(n).map(|p| p.0).collect();
        self.set(k).retain(|(x, _)| !taken.contains(x));
        taken
    }
}

fn flag(r: &Reply) -> bool {
    match r {
        Reply::Flag(b) => *b,
        Reply::Score(s) => s.is_some(),
        other => panic!("not a flag: {:?}", other),
    }
}

fn count(r: &Reply) -> u64 {
    match r {
        Reply::Count(n) => *n,
        other => panic!("not a count: {:?}", other),
    }
}

fn submit(b: &mut Backend, plan: &JobPlan, id: &str, now: i64) -> Result<String, JonoError> {
    let cs = submit_commands(plan, id, now, "test-host")?;
    b.run(&cs);
    Ok(id.to_string())
}

fn status(b: &mut Backend, id: &str) -> Result<JobStatus, JonoError> {
    let r = b.run(&status_probe_commands(id));
    let p = StatusProbe {
        exists: flag(&r[0]),
        running: flag(&r[1]),
        queued: flag(&r[2]),
        postponed: flag(&r[3]),
        aborted: flag(&r[4]),
        completed_at: flag(&r[5]),
    };
    resolve_status(id, &p)
}

fn metadata(b: &mut Backend, id: &str) -> Result<JobMetadata, JonoError> {
    let r = b.run(&metadata_commands(id));
    let pairs = match &r[1] {
        Reply::Pairs(p) => p.clone(),
        other => panic!("not pairs: {:?}", other),
    };
    resolve_metadata(id, flag(&r[0]), &pairs)
}

fn abort(b: &mut Backend, id: &str, grace_ms: i64, now: i64) -> Result<bool, JonoError> {
    let exists = flag(&b.run(&[Command::Exists { id: id.to_string() }])[0]);
    let cs = abort_commands(id, exists)?;
    let r = b.run(&cs);
    let heartbeat = match &r[2] {
        Reply::Score(s) => *s,
        other => panic!("not a score: {:?}", other),
    };
    let (aborted, mark) = abort_resolve(id, count(&r[0]), count(&r[1]), heartbeat, now, grace_ms);
    if let Some(c) = mark {
        b.run(&[c]);
    }
    Ok(aborted)
}

fn clean(b: &mut Backend, id: &str) -> bool {
    let r = b.run(&clean_commands(id));
    count(&r[5]) > 0
}

fn processed_worker(_: &Workload) -> Result<WorkSummary, JonoError> {
    Ok(WorkSummary::Success(Some("{\"processed\":true}".to_string())))
}

/// Drives the consumer's steps against the backend; `before_check` runs
/// between the pop and the check.
fn run_next_with(
    b: &mut Backend,
    worker: fn(&Workload) -> Result<WorkSummary, JonoError>,
    now: i64,
    before_check: &mut dyn FnMut(&mut Backend, &str),
) -> Result<Option<WorkSummary>, JonoError> {
    let (mut state, mut action) = begin();
    loop {
        let event = match action {
            ConsumerAction::Pop => {
                let id = b.pop_min(StateSet::Queued, 1).into_iter().next();
                if let Some(id) = &id {
                    before_check(b, id);
                }
                ConsumerEvent::Popped(id)
            }
            ConsumerAction::Run(cs) => {
                let r = b.run(&cs);
                match &state {
                    ConsumerState::Checking(_) => ConsumerEvent::Checked { exists: flag(&r[0]), aborted: flag(&r[1]) },
                    ConsumerState::Claiming(_) => match &r[3] {
                        Reply::Pairs(p) => ConsumerEvent::Claimed(p.clone()),
                        other => panic!("not pairs: {:?}", other),
                    },
                    _ => ConsumerEvent::Stored,
                }
            }
            ConsumerAction::Work(w) => ConsumerEvent::Worked(worker(&w)),
            ConsumerAction::Finish(r) => return r,
        };
        let next = step(state, event, now, 10_000, COMPLETED_TTL_MS);
        state = next.0;
        action = next.1;
    }
}

fn run_next(b: &mut Backend, worker: fn(&Workload) -> Result<WorkSummary, JonoError>, now: i64) -> Result<Option<WorkSummary>, JonoError> {
    run_next_with(b, worker, now, &mut |_, _| {})
}

fn harvest(b: &mut Backend, limit: usize) -> Vec<JobMetadata> {
    let ids = match harvest_pop_count(limit) {
        Some(n) => b.pop_min(StateSet::Completed, n),
        None => return Vec::new(),
    };
    let fetched: Vec<(bool, Vec<(String, String)>)> = ids
        .iter()
        .map(|id| {
            let r = b.run(&metadata_commands(id));
            match &r[1] {
                Reply::Pairs(p) => (flag(&r[0]), p.clone()),
                other => panic!("not pairs: {:?}", other),
            }
        })
        .collect();
    collect_harvest(&fetched)
}

fn by_status(b: &mut Backend, filter: &JobFilter) -> MapStatusToJobId {
    let sets = ranged_sets_of(filter);
    let replies: Vec<Vec<String>> = b
        .run(&by_status_commands(&sets))
        .into_iter()
        .map(|r| match r {
            Reply::Ids(v) => v,
            other => panic!("not ids: {:?}", other),
        })
        .collect();
    assemble_status_map(&sets, &replies)
}

const NOW: i64 = 1_700_000_000_000;

fn plan(payload: &str) -> JobPlan {
    JobPlan::new().payload(payload.to_string())
}

#[test]
fn basic_completion() {
    let mut b = Backend::default();
    let id = submit(&mut b, &plan("{\"action\":\"a\"}").priority(0), "01JOBBASIC0000000000000000", NOW).unwrap();
    assert_eq!(status(&mut b, &id).unwrap(), JobStatus::Queued);
    let out = run_next(&mut b, processed_worker, NOW).unwrap();
    match out {
        Some(WorkSummary::Success(Some(data))) => assert_eq!(data, "{\"processed\":true}"),
        other => panic!("Expected job to succeed but got {:?}", other),
    }
    assert_eq!(status(&mut b, &id).unwrap(), JobStatus::Completed);
    assert_eq!(metadata(&mut b, &id).unwrap().work_summary, "{\"processed\":true}");
}

#[test]
fn harvest_once() {
    let mut b = Backend::default();
    let id = submit(&mut b, &plan("{\"action\":\"test_action\"}"), "01JOBHARVEST00000000000000", NOW).unwrap();
    assert_eq!(harvest(&mut b, 1).len(), 0);
    run_next(&mut b, processed_worker, NOW).unwrap();
    let expired = count(&b.run(&clean_expired_commands(NOW))[0]);
    assert_eq!(expired, 0);
    let got = harvest(&mut b, 3);
    assert_eq!(got.len(), 1);
    assert_eq!(got[0].id, id);
    assert_eq!(got[0].payload, "{\"action\":\"test_action\"}");
    assert_eq!(got[0].work_summary, "{\"processed\":true}");
    let load = Reapload::from_metadata(got[0].clone());
    assert_eq!(load.job_id, id);
    assert_eq!(load.work_summary, "{\"processed\":true}");
    assert_eq!(harvest(&mut b, 1).len(), 0);
}

#[test]
fn harvest_of_zero_is_empty() {
    let mut b = Backend::default();
    submit(&mut b, &plan("{}"), "01JOBZERO00000000000000000", NOW).unwrap();
    run_next(&mut b, processed_worker, NOW).unwrap();
    assert_eq!(harvest_pop_count(0), None);
    assert_eq!(harvest(&mut b, 0).len(), 0);
    assert_eq!(harvest(&mut b, 2).len(), 1);
}

#[test]
fn cleaned_completed_job_is_not_harvested() {
    let mut b = Backend::default();
    let id = submit(&mut b, &plan("{\"action\":\"test_action\"}"), "01JOBCLEANHARVEST000000000", NOW).unwrap();
    run_next(&mut b, processed_worker, NOW).unwrap();
    assert!(clean(&mut b, &id));
    assert_eq!(harvest(&mut b, 1).len(), 0);
    assert!(!clean(&mut b, &id));
}

#[test]
fn expired_completed_jobs_are_dropped() {
    let mut b = Backend::default();
    submit(&mut b, &plan("{}"), "01JOBEXPIRE000000000000000", NOW).unwrap();
    run_next(&mut b, processed_worker, NOW).unwrap();
    let later = NOW + COMPLETED_TTL_MS + 1;
    assert_eq!(count(&b.run(&clean_expired_commands(later))[0]), 1);
    assert_eq!(harvest(&mut b, 1).len(), 0);
}

#[test]
fn postpone_then_clean() {
    let mut b = Backend::default();
    let p = plan("{\"action\":\"run this later!\"}").postponed_to(NOW + 10_000);
    let id = submit(&mut b, &p, "01JOBPOSTPONE0000000000000", NOW).unwrap();
    assert_eq!(status(&mut b, &id).unwrap(), JobStatus::Postponed);
    assert!(clean(&mut b, &id));
    assert!(!flag(&b.run(&[Command::Exists { id: id.clone() }])[0]));
    assert!(matches!(status(&mut b, &id), Err(JonoError::JobNotFound(_))));
}

#[test]
fn postponed_job_is_promoted_when_due() {
    let mut b = Backend::default();
    let p = plan("{}").priority(7).postponed_to(NOW + 10_000);
    let id = submit(&mut b, &p, "01JOBPROMOTE00000000000000", NOW).unwrap();
    let due = b.run(&due_commands(StateSet::Postponed, NOW + 5_000));
    assert_eq!(due[0], Reply::Ids(vec![]));
    assert_eq!(status(&mut b, &id).unwrap(), JobStatus::Postponed);
    let due = b.run(&due_commands(StateSet::Postponed, NOW + 10_000));
    assert_eq!(due[0], Reply::Ids(vec![id.clone()]));
    let m = metadata(&mut b, &id).unwrap();
    b.run(&promote_commands(&id, m.initial_priority));
    assert_eq!(status(&mut b, &id).unwrap(), JobStatus::Queued);
    assert_eq!(b.score(StateSet::Queued, &id), Some(7));
}

#[test]
fn past_run_at_is_queued() {
    let mut b = Backend::default();
    let id = submit(&mut b, &plan("{}").postponed_to(NOW - 1), "01JOBPAST00000000000000000", NOW).unwrap();
    assert_eq!(status(&mut b, &id).unwrap(), JobStatus::Queued);
}

#[test]
fn abort_before_run() {
    let mut b = Backend::default();
    let id = submit(&mut b, &plan("{\"action\":\"abort this soon!\"}"), "01JOBABORT0000000000000000", NOW).unwrap();
    assert!(abort(&mut b, &id, 0, NOW).unwrap());
    assert_eq!(status(&mut b, &id).unwrap(), JobStatus::Aborted);
    assert_eq!(b.score(StateSet::Aborted, &id), Some(NOW));
    let (_, action) = step(
        ConsumerState::Checking(id.clone()),
        ConsumerEvent::Checked { exists: true, aborted: true },
        NOW,
        10_000,
        COMPLETED_TTL_MS,
    );
    match action {
        ConsumerAction::Finish(Ok(Some(WorkSummary::Failure(m)))) => assert_eq!(m, "job was canceled"),
        other => panic!("unexpected {:?}", other),
    }
    assert!(!abort(&mut b, &id, 0, NOW).unwrap());
}

#[test]
fn abort_running_job_keeps_grace_period() {
    let mut b = Backend::default();
    let id = submit(&mut b, &plan("{}"), "01JOBRUNNING00000000000000", NOW).unwrap();
    b.pop_min(StateSet::Queued, 1);
    b.run(&jono::claim_commands(&id, NOW, 10_000));
    assert!(abort(&mut b, &id, 30_000, NOW).unwrap());
    assert_eq!(b.score(StateSet::Aborted, &id), Some(NOW + 30_000));
    assert_eq!(status(&mut b, &id).unwrap(), JobStatus::Running);
}

#[test]
fn not_found() {
    let mut b = Backend::default();
    let id = "01JOBUNKNOWN00000000000000";
    match metadata(&mut b, id) {
        Err(JonoError::JobNotFound(x)) => assert_eq!(x, id),
        other => panic!("unexpected {:?}", other),
    }
    assert!(matches!(abort(&mut b, id, 0, NOW), Err(JonoError::JobNotFound(_))));
    assert!(matches!(status(&mut b, id), Err(JonoError::JobNotFound(_))));
}

#[test]
fn status_map() {
    let mut b = Backend::default();
    let fixture = |b: &mut Backend, k: StateSet, id: &str, score: i64| {
        b.run(&[
            Command::ZAdd { set: k, id: id.to_string(), score },
            jono::hset(id, jono::Field::Id, id.to_string()),
        ]);
    };
    fixture(&mut b, StateSet::Postponed, "P", NOW + 60_000);
    fixture(&mut b, StateSet::Queued, "Q", 0);
    fixture(&mut b, StateSet::Running, "R", NOW + 10_000);
    fixture(&mut b, StateSet::Aborted, "A", NOW + 30_000);
    fixture(&mut b, StateSet::Completed, "C", NOW);
    let all = by_status(&mut b, &JobFilter::default());
    assert_eq!(all.postponed, vec!["P".to_string()]);
    assert_eq!(all.queued, vec!["Q".to_string()]);
    assert_eq!(all.running, vec!["R".to_string()]);
    assert_eq!(all.aborted, vec!["A".to_string()]);
    assert_eq!(all.completed, vec!["C".to_string()]);
    let some = by_status(&mut b, &JobFilter { states: Some(vec![JobStatus::Running, JobStatus::Failed]) });
    assert_eq!(some.running, vec!["R".to_string()]);
    assert!(some.postponed.is_empty() && some.queued.is_empty());
    assert!(some.aborted.is_empty() && some.completed.is_empty());
    let none = by_status(&mut b, &JobFilter { states: Some(vec![]) });
    assert!(none.running.is_empty());
}

#[test]
fn status_map_on_queued_only() {
    let mut b = Backend::default();
    let id = submit(&mut b, &plan("{}"), "01JOBMAPQUEUED000000000000", NOW).unwrap();
    let m = by_status(&mut b, &JobFilter::default());
    assert_eq!(m.queued, vec![id]);
    assert!(m.postponed.is_empty() && m.running.is_empty());
    assert!(m.aborted.is_empty() && m.completed.is_empty());
}

#[test]
fn submit_round_trips_metadata() {
    let mut b = Backend::default();
    let p = plan("{\"one\":1,\"two\":2}")
        .priority(-42)
        .max_attempts(3)
        .origin("my very special original hostname");
    let id = submit(&mut b, &p, "01JOBROUNDTRIP000000000000", NOW).unwrap();
    let m = metadata(&mut b, &id).unwrap();
    assert_eq!(m.id, id);
    assert_eq!(m.payload, "{\"one\":1,\"two\":2}");
    assert_eq!(m.max_attempts, 3);
    assert_eq!(m.initial_priority, -42);
    assert_eq!(m.origin, "my very special original hostname");
    assert_eq!(m.attempt_history, "[]");
    assert_eq!(m.work_summary, "null");
}

#[test]
fn default_origin_is_used() {
    let mut b = Backend::default();
    let id = submit(&mut b, &plan("{}"), "01JOBORIGIN000000000000000", NOW).unwrap();
    assert_eq!(metadata(&mut b, &id).unwrap().origin, "test-host");
}

#[test]
fn submit_without_payload_is_invalid() {
    assert!(matches!(
        submit_commands(&JobPlan::new(), "X", NOW, "h"),
        Err(JonoError::InvalidJob(_))
    ));
}

#[test]
fn submit_with_malformed_payload_fails() {
    assert!(matches!(
        submit_commands(&plan("{not json"), "X", NOW, "h"),
        Err(JonoError::Serialization(_))
    ));
}

#[test]
fn priority_order_and_fifo() {
    let mut b = Backend::default();
    submit(&mut b, &plan("{}").priority(5), "01JOBA0000000000000000000A", NOW).unwrap();
    submit(&mut b, &plan("{}").priority(1), "01JOBB0000000000000000000B", NOW).unwrap();
    submit(&mut b, &plan("{}").priority(1), "01JOBC0000000000000000000C", NOW).unwrap();
    assert_eq!(b.pop_min(StateSet::Queued, 3), vec![
        "01JOBB0000000000000000000B".to_string(),
        "01JOBC0000000000000000000C".to_string(),
        "01JOBA0000000000000000000A".to_string(),
    ]);
}

#[test]
fn empty_queue_claims_nothing() {
    let mut b = Backend::default();
    assert!(matches!(run_next(&mut b, processed_worker, NOW), Ok(None)));
}

#[test]
fn cleaned_job_is_no_longer_there() {
    let mut b = Backend::default();
    let id = submit(&mut b, &plan("{}"), "01JOBGONE00000000000000000", NOW).unwrap();
    let out = run_next_with(&mut b, processed_worker, NOW, &mut |b, id| {
        clean(b, id);
    });
    match out {
        Ok(Some(WorkSummary::Failure(m))) => assert_eq!(m, "job no longer exists"),
        other => panic!("unexpected {:?}", other),
    }
    assert!(!b.hashes.contains_key(&id));
}

#[test]
fn two_claims_take_different_jobs() {
    let mut b = Backend::default();
    submit(&mut b, &plan("{}"), "01JOBFIRST0000000000000000", NOW).unwrap();
    submit(&mut b, &plan("{}"), "01JOBSECOND000000000000000", NOW).unwrap();
    let a = b.pop_min(StateSet::Queued, 1);
    let c = b.pop_min(StateSet::Queued, 1);
    assert_eq!(a.len(), 1);
    assert_eq!(c.len(), 1);
    assert_ne!(a, c);
    assert!(b.pop_min(StateSet::Queued, 1).is_empty());
}

#[test]
fn worker_failure_is_returned() {
    fn failing(_: &Workload) -> Result<WorkSummary, JonoError> {
        Ok(WorkSummary::Failure("boom".to_string()))
    }
    let mut b = Backend::default();
    let id = submit(&mut b, &plan("{}"), "01JOBFAIL00000000000000000", NOW).unwrap();
    match run_next(&mut b, failing, NOW) {
        Ok(Some(WorkSummary::Failure(m))) => assert_eq!(m, "boom"),
        other => panic!("unexpected {:?}", other),
    }
    assert_eq!(status(&mut b, &id).unwrap(), JobStatus::Running);
    assert_eq!(b.score(StateSet::Running, &id), Some(NOW + 10_000));
}

#[test]
fn worker_error_is_returned() {
    fn broken(_: &Workload) -> Result<WorkSummary, JonoError> {
        Err(JonoError::Redis("down".to_string()))
    }
    let mut b = Backend::default();
    submit(&mut b, &plan("{}"), "01JOBERR000000000000000000", NOW).unwrap();
    assert_eq!(run_next(&mut b, broken, NOW).unwrap_err(), JonoError::Redis("down".to_string()));
}

#[test]
fn success_without_data_stores_null() {
    fn quiet(_: &Workload) -> Result<WorkSummary, JonoError> {
        Ok(WorkSummary::Success(None))
    }
    let mut b = Backend::default();
    let id = submit(&mut b, &plan("{}"), "01JOBQUIET0000000000000000", NOW).unwrap();
    assert!(matches!(run_next(&mut b, quiet, NOW), Ok(Some(WorkSummary::Success(None)))));
    assert_eq!(metadata(&mut b, &id).unwrap().work_summary, "null");
    assert_eq!(b.score(StateSet::Completed, &id), Some(NOW + COMPLETED_TTL_MS));
}

#[test]
fn malformed_outcome_is_refused() {
    fn bad(_: &Workload) -> Result<WorkSummary, JonoError> {
        Ok(WorkSummary::Success(Some("{oops".to_string())))
    }
    let mut b = Backend::default();
    submit(&mut b, &plan("{}"), "01JOBBADOUT000000000000000", NOW).unwrap();
    assert!(matches!(run_next(&mut b, bad, NOW), Err(JonoError::Serialization(_))));
}

#[test]
fn reply_out_of_order_is_an_error() {
    let (_, action) = step(ConsumerState::Idle, ConsumerEvent::Stored, NOW, 1, 1);
    assert!(matches!(action, ConsumerAction::Finish(Err(JonoError::Redis(_)))));
}

#[test]
fn run_loop_stops_after_max_errors() {
    let max = 3;
    let mut count = 0;
    let mut steps = Vec::new();
    for _ in 0..3 {
        let (c, s) = after_pass(count, PassResult::Failed, max);
        count = c;
        steps.push(s);
    }
    assert_eq!(steps[0], LoopStep::Sleep);
    assert_eq!(steps[1], LoopStep::Sleep);
    assert_eq!(steps[2], LoopStep::Stop(JonoError::TooManyErrors(3)));
    assert_eq!(after_pass(2, PassResult::Busy, max), (0, LoopStep::Continue));
    assert_eq!(after_pass(2, PassResult::Idle, max), (2, LoopStep::Sleep));
    assert_eq!(after_pass(0, PassResult::Failed, 0), (1, LoopStep::Stop(JonoError::TooManyErrors(1))));
}

#[test]
fn status_probe_order() {
    let p = StatusProbe { exists: true, running: true, queued: true, postponed: false, aborted: true, completed_at: true };
    assert_eq!(resolve_status("x", &p).unwrap(), JobStatus::Running);
    let p = StatusProbe { running: false, ..p };
    assert_eq!(resolve_status("x", &p).unwrap(), JobStatus::Queued);
    let p = StatusProbe { queued: false, ..p };
    assert_eq!(resolve_status("x", &p).unwrap(), JobStatus::Aborted);
    let p = StatusProbe { aborted: false, ..p };
    assert_eq!(resolve_status("x", &p).unwrap(), JobStatus::Completed);
    let p = StatusProbe { completed_at: false, ..p };
    assert_eq!(resolve_status("x", &p).unwrap(), JobStatus::Failed);
}

#[test]
fn metadata_with_missing_fields_is_invalid() {
    let pairs = vec![("id".to_string(), "X".to_string())];
    assert!(matches!(JobMetadata::from_hash(&pairs), Err(JonoError::InvalidJob(_))));
    let pairs = vec![
        ("id".to_string(), "X".to_string()),
        ("payload".to_string(), "{}".to_string()),
        ("max_attempts".to_string(), "-1".to_string()),
        ("initial_priority".to_string(), "0".to_string()),
        ("origin".to_string(), "h".to_string()),
    ];
    assert!(matches!(JobMetadata::from_hash(&pairs), Err(JonoError::InvalidJob(_))));
}

#[test]
fn generated_ids_are_ulids() {
    let a = jono::generate_job_id();
    let b = jono::generate_job_id();
    assert_eq!(a.len(), 26);
    assert_ne!(a, b);
    assert!(current_timestamp_ms() > 1_600_000_000_000);
}

#[test]
fn consumer_config_defaults_and_builders() {
    let c = ConsumerConfig::new();
    assert_eq!(c.get_poll_interval(), std::time::Duration::from_millis(100));
    assert_eq!(c.get_poll_timeout(), std::time::Duration::from_secs(5));
    assert_eq!(c.get_heartbeat_interval(), std::time::Duration::from_secs(5));
    assert_eq!(c.get_heartbeat_timeout(), std::time::Duration::from_secs(10));
    assert_eq!(c.get_max_consecutive_errors(), 3);
    assert_eq!(jono::millis_i64(&c.get_heartbeat_timeout()), 10_000);
    let c = c
        .poll_interval(std::time::Duration::from_millis(50))
        .heartbeat_interval(std::time::Duration::from_secs(2))
        .max_consecutive_errors(7);
    assert_eq!(c.get_poll_interval(), std::time::Duration::from_millis(50));
    assert_eq!(c.get_heartbeat_interval(), std::time::Duration::from_secs(2));
    assert_eq!(c.get_max_consecutive_errors(), 7);
}

#[test]
fn harvest_config_defaults_and_builders() {
    let c = jono::HarvestConfig::new();
    assert_eq!(c.get_poll_interval(), std::time::Duration::from_millis(100));
    assert_eq!(c.get_poll_timeout(), std::time::Duration::from_secs(5));
    assert_eq!(c.get_max_consecutive_errors(), 3);
    assert_eq!(c.get_batch_size(), 1);
    let c = c.batch_size(4).poll_timeout(std::time::Duration::from_millis(1));
    assert_eq!(c.get_batch_size(), 4);
    assert_eq!(c.get_poll_timeout(), std::time::Duration::from_millis(1));
}
