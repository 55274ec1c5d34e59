use vstd::prelude::*;

use crate::decimal::{parse_i64, parse_i64_spec, parse_u32, parse_u32_spec};
use crate::error::JonoError;
use crate::fields::{field_name, Field};
use crate::util::{is_json_text, json_valid};

verus! {

/// The field/value pairs of a hash, as plain values.
pub open spec fn pairs_view(v: Seq<(String, String)>) -> Seq<(Seq<char>, Seq<char>)> {
    v.map_values(|p: (String, String)| (p.0@, p.1@))
}

/// The value of the first pair named `name`.
pub open spec fn lookup(p: Seq<(Seq<char>, Seq<char>)>, name: Seq<char>) -> Option<Seq<char>>
    decreases p.len(),
{
    if p.len() == 0 {
        None
    } else if p[0].0 == name {
        Some(p[0].1)
    } else {
        lookup(p.drop_first(), name)
    }
}

/// The value of field `f` in the pairs.
pub open spec fn field_of(p: Seq<(Seq<char>, Seq<char>)>, f: Field) -> Option<Seq<char>> {
    lookup(p, field_name(f))
}

/// The pairs list exactly the fields of `h`.
pub open spec fn pairs_represent(p: Seq<(Seq<char>, Seq<char>)>, h: Map<Field, Seq<char>>) -> bool {
    forall|f: Field|
        #![trigger field_of(p, f)]
        field_of(p, f) == if h.contains_key(f) {
            Some(h[f])
        } else {
            None
        }
}

/// The JSON text `null`.
pub open spec fn null_text() -> Seq<char> {
    seq!['n', 'u', 'l', 'l']
}

/// The JSON text `[]`.
pub open spec fn empty_array_text() -> Seq<char> {
    seq!['[', ']']
}

/// The value of an optional field, or `default` where it is absent.
pub open spec fn or_default(v: Option<Seq<char>>, default: Seq<char>) -> Seq<char> {
    match v {
        Some(t) => t,
        None => default,
    }
}

/// Whether the pairs hold a valid job: `id`, `origin`, a JSON `payload`, a
/// `u32` `max_attempts` and an `i64` `initial_priority`.
pub open spec fn decodable(p: Seq<(Seq<char>, Seq<char>)>) -> bool {
    &&& field_of(p, Field::Id) is Some
    &&& field_of(p, Field::Payload) matches Some(t) && is_json_text(t)
    &&& field_of(p, Field::MaxAttempts) matches Some(t) && parse_u32_spec(t) is Some
    &&& field_of(p, Field::InitialPriority) matches Some(t) && parse_i64_spec(t) is Some
    &&& field_of(p, Field::Origin) is Some
}

/// Metadata of a job.
#[derive(Debug, Clone)]
pub struct JobMetadata {
    /// Unique identifier of the job.
    pub id: String,
    /// The job's payload, as JSON text.
    pub payload: String,
    /// The maximum number of attempts allowed.
    pub max_attempts: u32,
    /// Priority; lower values are processed first.
    pub initial_priority: i64,
    /// Earlier failures, as the JSON text of an array.
    pub attempt_history: String,
    /// What the worker returned on success, as JSON text; `null` where nothing.
    pub work_summary: String,
    /// Who submitted the job.
    pub origin: String,
}

impl JobMetadata {
    /// `m` is what the pairs decode to.
    pub open spec fn decodes_from(self, p: Seq<(Seq<char>, Seq<char>)>) -> bool {
        &&& Some(self.id@) == field_of(p, Field::Id)
        &&& Some(self.payload@) == field_of(p, Field::Payload)
        &&& Some(self.max_attempts) == parse_u32_spec(field_of(p, Field::MaxAttempts).unwrap())
        &&& Some(self.initial_priority) == parse_i64_spec(
            field_of(p, Field::InitialPriority).unwrap(),
        )
        &&& self.attempt_history@ == or_default(
            field_of(p, Field::AttemptHistory),
            empty_array_text(),
        )
        &&& self.work_summary@ == or_default(field_of(p, Field::Outcome), null_text())
        &&& Some(self.origin@) == field_of(p, Field::Origin)
    }

    /// Decodes the field/value pairs of a metadata hash. Fails with
    /// `InvalidJob` exactly where a required field is missing or malformed.
    pub fn from_hash(hash: &Vec<(String, String)>) -> (r: Result<JobMetadata, JonoError>)
        ensures
            r is Ok <==> decodable(pairs_view(hash@)),
            r matches Ok(m) ==> m.decodes_from(pairs_view(hash@)),
            r matches Err(e) ==> e is InvalidJob,
    {
        let id = match get_field(hash, Field::Id) {
            Some(v) => v,
            None => return Err(invalid("Missing id field")),
        };
        let payload = match get_field(hash, Field::Payload) {
            Some(v) => v,
            None => return Err(invalid("Missing payload field")),
        };
        if !json_valid(payload.as_str()) {
            return Err(invalid("Invalid payload JSON"));
        }
        let max_attempts = match get_field(hash, Field::MaxAttempts) {
            Some(v) => match parse_u32(v.as_str()) {
                Some(n) => n,
                None => return Err(invalid("Invalid max_attempts")),
            },
            None => return Err(invalid("Missing max_attempts field")),
        };
        let initial_priority = match get_field(hash, Field::InitialPriority) {
            Some(v) => match parse_i64(v.as_str()) {
                Some(n) => n,
                None => return Err(invalid("Invalid initial_priority")),
            },
            None => return Err(invalid("Missing initial_priority field")),
        };
        let origin = match get_field(hash, Field::Origin) {
            Some(v) => v,
            None => return Err(invalid("Missing origin field")),
        };
        let attempt_history = match get_field(hash, Field::AttemptHistory) {
            Some(v) => v,
            None => {
                proof {
                    reveal_strlit("[]");
                }
                let t = String::from_str("[]");
                assert(t@ =~= empty_array_text());
                t
            },
        };
        let work_summary = match get_field(hash, Field::Outcome) {
            Some(v) => v,
            None => {
                proof {
                    reveal_strlit("null");
                }
                let t = String::from_str("null");
                assert(t@ =~= null_text());
                t
            },
        };
        Ok(JobMetadata { id, payload, max_attempts, initial_priority, attempt_history, work_summary, origin })
    }
}

/// An `InvalidJob` error with the given message.
fn invalid(msg: &str) -> (r: JonoError)
    ensures
        r is InvalidJob,
{
    JonoError::InvalidJob(String::from_str(msg))
}

/// The value of field `f` among the pairs, if any.
pub fn get_field(hash: &Vec<(String, String)>, f: Field) -> (r: Option<String>)
    ensures
        r matches Some(v) ==> field_of(pairs_view(hash@), f) == Some(v@),
        r is None ==> field_of(pairs_view(hash@), f) is None,
{
    let name = f.name();
    let ghost p = pairs_view(hash@);
    let mut i: usize = 0;
    assert(p.subrange(0, p.len() as int) =~= p);
    while i < hash.len()
        invariant
            0 <= i <= hash@.len(),
            p == pairs_view(hash@),
            name@ == field_name(f),
            lookup(p.subrange(i as int, p.len() as int), name@) == field_of(p, f),
        decreases hash@.len() - i,
    {
        let ghost rest = p.subrange(i as int, p.len() as int);
        assert(rest.drop_first() =~= p.subrange(i + 1, p.len() as int));
        assert(rest[0] == (hash@[i as int].0@, hash@[i as int].1@));
        if hash[i].0 == name {
            return Some(hash[i].1.clone());
        }
        i = i + 1;
    }
    assert(p.subrange(i as int, p.len() as int).len() == 0);
    None
}

} // verus!
