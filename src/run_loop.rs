use vstd::prelude::*;

use crate::error::JonoError;

verus! {

/// How one pass of a run loop ended.
#[derive(Debug, Clone, Copy, PartialEq, Eq, Structural)]
pub enum PassResult {
    /// It processed something.
    Busy,
    /// It found nothing to process.
    Idle,
    /// It failed.
    Failed,
}

/// What a run loop does after a pass.
#[derive(Debug, Clone, PartialEq, Eq)]
pub enum LoopStep {
    /// Go on at once.
    Continue,
    /// Sleep the poll interval, then go on.
    Sleep,
    /// Stop with this error.
    Stop(JonoError),
}

/// The count of errors in a row after a pass that ended with `p`.
pub open spec fn next_count(count: usize, p: PassResult) -> int {
    match p {
        PassResult::Busy => 0,
        PassResult::Idle => count as int,
        PassResult::Failed => if count < usize::MAX {
            count + 1
        } else {
            count as int
        },
    }
}

/// After a pass: a busy pass clears the count of errors in a row and goes
/// on; an idle one sleeps; a failed one counts, and stops the loop with
/// `TooManyErrors(count)` once the count reaches `max_errors`, else sleeps.
pub fn after_pass(count: usize, p: PassResult, max_errors: usize) -> (r: (usize, LoopStep))
    ensures
        r.0 == next_count(count, p),
        p is Busy ==> r.1 is Continue,
        p is Idle ==> r.1 is Sleep,
        p is Failed && r.0 >= max_errors ==> r.1 == LoopStep::Stop(JonoError::TooManyErrors(r.0)),
        p is Failed && r.0 < max_errors ==> r.1 is Sleep,
{
    match p {
        PassResult::Busy => (0, LoopStep::Continue),
        PassResult::Idle => (count, LoopStep::Sleep),
        PassResult::Failed => {
            let n = if count < usize::MAX {
                count + 1
            } else {
                count
            };
            if n >= max_errors {
                (n, LoopStep::Stop(JonoError::TooManyErrors(n)))
            } else {
                (n, LoopStep::Sleep)
            }
        },
    }
}

/// The count of errors in a row and whether the loop stopped, after `n`
/// failed passes from a count of zero, each taken as `after_pass` takes it.
pub open spec fn after_failures(n: nat, max_errors: usize) -> (int, bool)
    decreases n,
{
    if n == 0 {
        (0, false)
    } else {
        let prev = after_failures((n - 1) as nat, max_errors);
        if prev.1 {
            prev
        } else {
            (prev.0 + 1, prev.0 + 1 >= max_errors)
        }
    }
}

/// A run loop that meets only errors stops at the first pass where the count
/// reaches `max_errors` (the first pass, where that is 0), with that count:
/// never before, and always then.
pub proof fn lemma_errors_stop_the_loop(n: nat, max_errors: usize)
    ensures
        n >= 1 && n < max_errors ==> after_failures(n, max_errors) == (n as int, false),
        n >= 1 && n >= max_errors ==> after_failures(n, max_errors).1,
        n >= 1 && max_errors >= 1 && n >= max_errors ==> after_failures(n, max_errors).0 == max_errors,
        n >= 1 && max_errors == 0 ==> after_failures(n, max_errors).0 == 1,
    decreases n,
{
    if n == 1 {
        assert(after_failures(0, max_errors) == (0int, false));
    } else if n > 1 {
        lemma_errors_stop_the_loop((n - 1) as nat, max_errors);
    }
}

} // verus!
