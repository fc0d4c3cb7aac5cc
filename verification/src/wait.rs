//! The wait policy: what a caller does when the queue cannot serve it yet.

use crate::error::PipeError;
use crate::locks::nanos;
use std::time::Duration;
use vstd::prelude::*;

verus! {

/// What to do before touching the queue.
#[derive(Clone, Copy, Debug, PartialEq, Eq, Structural)]
pub enum WaitPlan {
    /// Go on at once with whatever the queue holds.
    Proceed,
    /// Sleep until the queue can serve the caller, however long that takes.
    UntilServed,
    /// Sleep until the queue can serve the caller, but no longer than the
    /// timeout.
    UntilDeadline,
}

/// The plan for a caller that finds the queue blocked for it or not, under a
/// timeout given by its length in nanoseconds: none at all means to wait for
/// ever, one of zero length never to wait.
pub open spec fn planned(must_wait: bool, timeout_nanos: Option<u128>) -> WaitPlan {
    if !must_wait {
        WaitPlan::Proceed
    } else {
        match timeout_nanos {
            None => WaitPlan::UntilServed,
            Some(n) => if n == 0 {
                WaitPlan::Proceed
            } else {
                WaitPlan::UntilDeadline
            },
        }
    }
}

/// Chooses the plan for one call.
pub fn plan_wait(must_wait: bool, timeout_nanos: Option<u128>) -> (plan: WaitPlan)
    ensures
        plan == planned(must_wait, timeout_nanos),
{
    if !must_wait {
        return WaitPlan::Proceed;
    }
    match timeout_nanos {
        None => WaitPlan::UntilServed,
        Some(n) => {
            if n == 0 {
                WaitPlan::Proceed
            } else {
                WaitPlan::UntilDeadline
            }
        },
    }
}

/// A timeout of zero length: the caller never sleeps.
pub open spec fn polls(timeout: Option<Duration>) -> bool {
    timeout matches Some(d) && nanos(d) == 0
}

/// A timeout of some length: the caller sleeps, but not for ever.
pub open spec fn bounded(timeout: Option<Duration>) -> bool {
    timeout matches Some(d) && nanos(d) != 0
}

/// The length of a timeout in nanoseconds, where there is one.
pub open spec fn nanos_of(timeout: Option<Duration>) -> Option<u128> {
    match timeout {
        Some(d) => Some(nanos(d)),
        None => None,
    }
}

/// The length of a timeout in nanoseconds, where there is one.
pub fn timeout_nanos(timeout: Option<Duration>) -> (n: Option<u128>)
    ensures
        n == nanos_of(timeout),
{
    match timeout {
        Some(d) => Some(d.as_nanos()),
        None => None,
    }
}

/// What a caller that has taken the lock goes on with: the guard, unless the
/// lock was found poisoned.
pub fn settle_lock<G>(guard: G, poisoned: bool) -> (r: Result<G, PipeError>)
    ensures
        r == (if poisoned {
            Err::<G, PipeError>(PipeError::Poisoned)
        } else {
            Ok::<G, PipeError>(guard)
        }),
{
    if poisoned {
        Err(PipeError::Poisoned)
    } else {
        Ok(guard)
    }
}

/// What a sleep without a deadline comes to: the guard it woke up with, or
/// `Poisoned` where none came back.
pub fn settle_wait<G>(outcome: Option<G>) -> (r: Result<G, PipeError>)
    ensures
        r == (match outcome {
            Some(g) => Ok::<G, PipeError>(g),
            None => Err::<G, PipeError>(PipeError::Poisoned),
        }),
{
    match outcome {
        Some(g) => Ok(g),
        None => Err(PipeError::Poisoned),
    }
}

/// What a sleep with a deadline comes to: `TimedOut` where the deadline passed
/// first, else the guard it woke up with; `Poisoned` where none came back.
pub fn settle_timed_wait<G>(outcome: Option<(G, bool)>) -> (r: Result<G, PipeError>)
    ensures
        r == (match outcome {
            Some((g, timed_out)) => if timed_out {
                Err::<G, PipeError>(PipeError::TimedOut)
            } else {
                Ok::<G, PipeError>(g)
            },
            None => Err::<G, PipeError>(PipeError::Poisoned),
        }),
{
    match outcome {
        Some((g, timed_out)) => {
            if timed_out {
                Err(PipeError::TimedOut)
            } else {
                Ok(g)
            }
        },
        None => Err(PipeError::Poisoned),
    }
}

} // verus!
