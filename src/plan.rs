use vstd::prelude::*;

verus! {

/// A job plan as plain values.
pub struct PlanView {
    pub payload: Option<Seq<char>>,
    pub max_attempts: u32,
    pub priority: i64,
    pub postponed_to: i64,
    pub origin: Option<Seq<char>>,
}

/// A description of a job to be submitted: a builder.
#[derive(Debug, Clone)]
pub struct JobPlan {
    /// The job's payload, as JSON text; required to submit.
    payload: Option<String>,
    /// Maximum number of attempts allowed for this job.
    max_attempts: u32,
    /// Priority of the job; lower values are processed first.
    priority: i64,
    /// When the job may run, epoch ms; 0 (or any past time) for as soon as possible.
    postponed_to: i64,
    /// Who submits the job; the host's name where not given.
    origin: Option<String>,
}

impl View for JobPlan {
    type V = PlanView;

    closed spec fn view(&self) -> PlanView {
        PlanView {
            payload: match self.payload {
                Some(p) => Some(p@),
                None => None,
            },
            max_attempts: self.max_attempts,
            priority: self.priority,
            postponed_to: self.postponed_to,
            origin: match self.origin {
                Some(o) => Some(o@),
                None => None,
            },
        }
    }
}

impl JobPlan {
    /// A plan with no payload, one attempt, priority 0, no postponement and no origin.
    pub fn new() -> (r: JobPlan)
        ensures
            r@ == (PlanView {
                payload: None,
                max_attempts: 1,
                priority: 0,
                postponed_to: 0,
                origin: None,
            }),
    {
        JobPlan { payload: None, max_attempts: 1, priority: 0, postponed_to: 0, origin: None }
    }

    /// Sets the payload, given as JSON text.
    pub fn payload(self, payload: String) -> (r: JobPlan)
        ensures
            r@ == (PlanView { payload: Some(payload@), ..self@ }),
    {
        JobPlan { payload: Some(payload), ..self }
    }

    /// The payload, as JSON text.
    pub fn get_payload(&self) -> (r: Option<&str>)
        ensures
            match r {
                Some(p) => self@.payload == Some(p@),
                None => self@.payload is None,
            },
    {
        match &self.payload {
            Some(p) => Some(p.as_str()),
            None => None,
        }
    }

    /// Sets the maximum number of attempts.
    pub fn max_attempts(self, max_attempts: u32) -> (r: JobPlan)
        ensures
            r@ == (PlanView { max_attempts, ..self@ }),
    {
        JobPlan { max_attempts, ..self }
    }

    /// The maximum number of attempts.
    pub fn get_max_attempts(&self) -> (r: u32)
        ensures
            r == self@.max_attempts,
    {
        self.max_attempts
    }

    /// Sets the priority; lower values are processed first.
    pub fn priority(self, priority: i64) -> (r: JobPlan)
        ensures
            r@ == (PlanView { priority, ..self@ }),
    {
        JobPlan { priority, ..self }
    }

    /// The priority.
    pub fn get_priority(&self) -> (r: i64)
        ensures
            r == self@.priority,
    {
        self.priority
    }

    /// Sets the earliest execution time, epoch ms.
    pub fn postponed_to(self, postponed_to: i64) -> (r: JobPlan)
        ensures
            r@ == (PlanView { postponed_to, ..self@ }),
    {
        JobPlan { postponed_to, ..self }
    }

    /// The earliest execution time, epoch ms.
    pub fn get_postponed_to(&self) -> (r: i64)
        ensures
            r == self@.postponed_to,
    {
        self.postponed_to
    }

    /// Sets who submits the job.
    pub fn origin(self, origin: &str) -> (r: JobPlan)
        ensures
            r@ == (PlanView { origin: Some(origin@), ..self@ }),
    {
        JobPlan { origin: Some(String::from_str(origin)), ..self }
    }

    /// Who submits the job, if set.
    pub fn get_origin(&self) -> (r: Option<&str>)
        ensures
            match r {
                Some(o) => self@.origin == Some(o@),
                None => self@.origin is None,
            },
    {
        match &self.origin {
            Some(o) => Some(o.as_str()),
            None => None,
        }
    }
}

} // verus!
