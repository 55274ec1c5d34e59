use vstd::prelude::*;

use crate::decimal::{digits_of, format_u64};

verus! {

/// All the errors of the queue's operations.
#[derive(Debug, Clone, PartialEq, Eq)]
pub enum JonoError {
    /// The connection pool could not be created; the driver's message.
    CreatePool(String),
    /// No connection could be taken from the pool; the driver's message.
    RedisPool(String),
    /// The backend failed or answered out of protocol; the driver's message.
    Redis(String),
    /// A JSON text is malformed; what is wrong with it.
    Serialization(String),
    /// The job with this id does not exist.
    JobNotFound(String),
    /// A job's metadata is missing or invalid; what is wrong with it.
    InvalidJob(String),
    /// A run loop met this many errors in a row.
    TooManyErrors(usize),
    /// The environment variable with this name is not set.
    MissingEnvVar(String),
}

/// A one-line description of an error for people.
pub open spec fn describe_spec(e: JonoError) -> Seq<char> {
    match e {
        JonoError::CreatePool(m) => "Redis pool create error: "@ + m@,
        JonoError::RedisPool(m) => "Redis pool error: "@ + m@,
        JonoError::Redis(m) => "Redis error: "@ + m@,
        JonoError::Serialization(m) => "Serialization error: "@ + m@,
        JonoError::JobNotFound(id) => "Job not found: "@ + id@,
        JonoError::InvalidJob(m) => "Invalid job: "@ + m@,
        JonoError::TooManyErrors(n) => "Too many consecutive errors: "@ + digits_of(n as nat),
        JonoError::MissingEnvVar(v) => "Missing environment variable: "@ + v@,
    }
}

impl JonoError {
    /// A one-line description of the error for people.
    pub fn describe(&self) -> (r: String)
        ensures
            r@ == describe_spec(*self),
    {
        let (head, tail) = match self {
            JonoError::CreatePool(m) => ("Redis pool create error: ", m.clone()),
            JonoError::RedisPool(m) => ("Redis pool error: ", m.clone()),
            JonoError::Redis(m) => ("Redis error: ", m.clone()),
            JonoError::Serialization(m) => ("Serialization error: ", m.clone()),
            JonoError::JobNotFound(id) => ("Job not found: ", id.clone()),
            JonoError::InvalidJob(m) => ("Invalid job: ", m.clone()),
            JonoError::TooManyErrors(n) => ("Too many consecutive errors: ", format_u64(*n as u64)),
            JonoError::MissingEnvVar(v) => ("Missing environment variable: ", v.clone()),
        };
        let mut s = String::from_str(head);
        s.append(tail.as_str());
        s
    }
}

} // verus!
