use vstd::prelude::*;

verus! {

/// The five sorted sets of a topic; a job id is a member of at most one.
#[derive(Debug, Clone, Copy, PartialEq, Eq, Hash, Structural)]
pub enum StateSet {
    /// Scored by the earliest execution time (epoch ms).
    Postponed,
    /// Scored by priority; lower is popped first.
    Queued,
    /// Scored by the heartbeat deadline (epoch ms).
    Running,
    /// Scored by the end of the grace period (epoch ms).
    Aborted,
    /// Scored by the harvest expiry (epoch ms).
    Completed,
}

/// All the states that a job can be in.
#[derive(Debug, Clone, Copy, PartialEq, Eq, Hash, Structural)]
pub enum JobStatus {
    /// The job waits for a future execution time.
    Postponed,
    /// The job waits to be claimed by a consumer.
    Queued,
    /// A consumer owns the job and works on it.
    Running,
    /// The job was canceled.
    Aborted,
    /// The job completed and awaits harvesting.
    Completed,
    /// The job left every set without completing.
    Failed,
}

/// The lowercase word that names a set in its key.
pub open spec fn set_word(s: StateSet) -> Seq<char> {
    match s {
        StateSet::Postponed => seq!['p', 'o', 's', 't', 'p', 'o', 'n', 'e', 'd'],
        StateSet::Queued => seq!['q', 'u', 'e', 'u', 'e', 'd'],
        StateSet::Running => seq!['r', 'u', 'n', 'n', 'i', 'n', 'g'],
        StateSet::Aborted => seq!['a', 'b', 'o', 'r', 't', 'e', 'd'],
        StateSet::Completed => seq!['c', 'o', 'm', 'p', 'l', 'e', 't', 'e', 'd'],
    }
}

/// The lowercase word that the metadata's `status` field holds for a status.
pub open spec fn status_word(s: JobStatus) -> Seq<char> {
    match s {
        JobStatus::Postponed => set_word(StateSet::Postponed),
        JobStatus::Queued => set_word(StateSet::Queued),
        JobStatus::Running => set_word(StateSet::Running),
        JobStatus::Aborted => set_word(StateSet::Aborted),
        JobStatus::Completed => set_word(StateSet::Completed),
        JobStatus::Failed => seq!['f', 'a', 'i', 'l', 'e', 'd'],
    }
}

/// The status that membership of a set stands for.
pub open spec fn status_of_set(s: StateSet) -> JobStatus {
    match s {
        StateSet::Postponed => JobStatus::Postponed,
        StateSet::Queued => JobStatus::Queued,
        StateSet::Running => JobStatus::Running,
        StateSet::Aborted => JobStatus::Aborted,
        StateSet::Completed => JobStatus::Completed,
    }
}

/// The set that stands for a status; `Failed` has none.
pub open spec fn set_of_status(s: JobStatus) -> Option<StateSet> {
    match s {
        JobStatus::Postponed => Some(StateSet::Postponed),
        JobStatus::Queued => Some(StateSet::Queued),
        JobStatus::Running => Some(StateSet::Running),
        JobStatus::Aborted => Some(StateSet::Aborted),
        JobStatus::Completed => Some(StateSet::Completed),
        JobStatus::Failed => None,
    }
}

impl StateSet {
    /// The word that names this set in its key.
    pub fn word(&self) -> (r: String)
        ensures
            r@ == set_word(*self),
    {
        match self {
            StateSet::Postponed => {
                proof {
                    reveal_strlit("postponed");
                }
                String::from_str("postponed")
            },
            StateSet::Queued => {
                proof {
                    reveal_strlit("queued");
                }
                String::from_str("queued")
            },
            StateSet::Running => {
                proof {
                    reveal_strlit("running");
                }
                String::from_str("running")
            },
            StateSet::Aborted => {
                proof {
                    reveal_strlit("aborted");
                }
                String::from_str("aborted")
            },
            StateSet::Completed => {
                proof {
                    reveal_strlit("completed");
                }
                String::from_str("completed")
            },
        }
    }
}

impl JobStatus {
    /// The lowercase word for this status, as the metadata's `status` field holds it.
    pub fn word(&self) -> (r: String)
        ensures
            r@ == status_word(*self),
    {
        match self {
            JobStatus::Postponed => StateSet::Postponed.word(),
            JobStatus::Queued => StateSet::Queued.word(),
            JobStatus::Running => StateSet::Running.word(),
            JobStatus::Aborted => StateSet::Aborted.word(),
            JobStatus::Completed => StateSet::Completed.word(),
            JobStatus::Failed => {
                proof {
                    reveal_strlit("failed");
                }
                String::from_str("failed")
            },
        }
    }

    /// The status whose word is `s`, if any.
    pub fn from_word(s: &str) -> (r: Option<JobStatus>)
        ensures
            r matches Some(st) ==> status_word(st) == s@,
            r is None ==> forall|st: JobStatus| status_word(st) != s@,
    {
        let t = String::from_str(s);
        let all = [
            JobStatus::Postponed,
            JobStatus::Queued,
            JobStatus::Running,
            JobStatus::Aborted,
            JobStatus::Completed,
            JobStatus::Failed,
        ];
        let mut i: usize = 0;
        while i < 6
            invariant
                0 <= i <= 6,
                t@ == s@,
                all@ == seq![
                    JobStatus::Postponed,
                    JobStatus::Queued,
                    JobStatus::Running,
                    JobStatus::Aborted,
                    JobStatus::Completed,
                    JobStatus::Failed,
                ],
                forall|j: int| 0 <= j < i ==> status_word(#[trigger] all@[j]) != s@,
            decreases 6 - i,
        {
            let w = all[i].word();
            if w == t {
                return Some(all[i]);
            }
            i = i + 1;
        }
        proof {
            assert forall|st: JobStatus| status_word(st) != s@ by {
                match st {
                    JobStatus::Postponed => assert(status_word(all@[0]) != s@),
                    JobStatus::Queued => assert(status_word(all@[1]) != s@),
                    JobStatus::Running => assert(status_word(all@[2]) != s@),
                    JobStatus::Aborted => assert(status_word(all@[3]) != s@),
                    JobStatus::Completed => assert(status_word(all@[4]) != s@),
                    JobStatus::Failed => assert(status_word(all@[5]) != s@),
                }
            }
        }
        None
    }

    /// The set that stands for this status; `Failed` has none.
    pub fn set(&self) -> (r: Option<StateSet>)
        ensures
            r == set_of_status(*self),
    {
        match self {
            JobStatus::Postponed => Some(StateSet::Postponed),
            JobStatus::Queued => Some(StateSet::Queued),
            JobStatus::Running => Some(StateSet::Running),
            JobStatus::Aborted => Some(StateSet::Aborted),
            JobStatus::Completed => Some(StateSet::Completed),
            JobStatus::Failed => None,
        }
    }
}

} // verus!
