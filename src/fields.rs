use vstd::prelude::*;

verus! {

/// The fields of a job's metadata hash.
#[derive(Debug, Clone, Copy, PartialEq, Eq, Hash, Structural)]
pub enum Field {
    /// The job's identifier.
    Id,
    /// The job's JSON payload.
    Payload,
    /// How many attempts the job may take; positive.
    MaxAttempts,
    /// The priority the job was submitted with; lower is more urgent.
    InitialPriority,
    /// Submission time, epoch ms.
    CreatedAt,
    /// Time of the last claim, epoch ms.
    StartedAt,
    /// Completion time, epoch ms.
    CompletedAt,
    /// The status word, a mirror of the set membership.
    Status,
    /// JSON array of earlier failures.
    AttemptHistory,
    /// JSON value that the worker returned on success.
    Outcome,
    /// Who submitted the job.
    Origin,
}

/// The name of a field in the hash.
pub open spec fn field_name(f: Field) -> Seq<char> {
    match f {
        Field::Id => seq!['i', 'd'],
        Field::Payload => seq!['p', 'a', 'y', 'l', 'o', 'a', 'd'],
        Field::MaxAttempts => seq!['m', 'a', 'x', '_', 'a', 't', 't', 'e', 'm', 'p', 't', 's'],
        Field::InitialPriority => seq![
            'i', 'n', 'i', 't', 'i', 'a', 'l', '_', 'p', 'r', 'i', 'o', 'r', 'i', 't', 'y',
        ],
        Field::CreatedAt => seq!['c', 'r', 'e', 'a', 't', 'e', 'd', '_', 'a', 't'],
        Field::StartedAt => seq!['s', 't', 'a', 'r', 't', 'e', 'd', '_', 'a', 't'],
        Field::CompletedAt => seq!['c', 'o', 'm', 'p', 'l', 'e', 't', 'e', 'd', '_', 'a', 't'],
        Field::Status => seq!['s', 't', 'a', 't', 'u', 's'],
        Field::AttemptHistory => seq![
            'a', 't', 't', 'e', 'm', 'p', 't', '_', 'h', 'i', 's', 't', 'o', 'r', 'y',
        ],
        Field::Outcome => seq!['o', 'u', 't', 'c', 'o', 'm', 'e'],
        Field::Origin => seq!['o', 'r', 'i', 'g', 'i', 'n'],
    }
}

impl Field {
    /// The name of this field in the hash.
    pub fn name(&self) -> (r: String)
        ensures
            r@ == field_name(*self),
    {
        let lit = match self {
            Field::Id => {
                proof { reveal_strlit("id"); }
                "id"
            },
            Field::Payload => {
                proof { reveal_strlit("payload"); }
                "payload"
            },
            Field::MaxAttempts => {
                proof { reveal_strlit("max_attempts"); }
                "max_attempts"
            },
            Field::InitialPriority => {
                proof { reveal_strlit("initial_priority"); }
                "initial_priority"
            },
            Field::CreatedAt => {
                proof { reveal_strlit("created_at"); }
                "created_at"
            },
            Field::StartedAt => {
                proof { reveal_strlit("started_at"); }
                "started_at"
            },
            Field::CompletedAt => {
                proof { reveal_strlit("completed_at"); }
                "completed_at"
            },
            Field::Status => {
                proof { reveal_strlit("status"); }
                "status"
            },
            Field::AttemptHistory => {
                proof { reveal_strlit("attempt_history"); }
                "attempt_history"
            },
            Field::Outcome => {
                proof { reveal_strlit("outcome"); }
                "outcome"
            },
            Field::Origin => {
                proof { reveal_strlit("origin"); }
                "origin"
            },
        };
        assert(lit@ =~= field_name(*self));
        String::from_str(lit)
    }
}

} // verus!
