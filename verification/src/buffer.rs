//! A bounded byte queue behind a lock, with two condition variables: one for
//! readers that wait for data, one for writers that wait for space.

use crate::error::PipeError;
use crate::locks::{
    held_bytes, held_limit, lock, queue_mut, queue_ref, wait_timeout_while_blocked,
    wait_while_blocked,
};
use crate::queue::{blocked, delivered, ByteQueue, Need};
use crate::wait::{
    bounded, plan_wait, polls, settle_lock, settle_timed_wait, settle_wait, timeout_nanos, WaitPlan,
};
use std::sync::{Condvar, Mutex, MutexGuard};
use std::time::Duration;
use vstd::prelude::*;

verus! {

/// How many bytes a queue can serve a caller with at once: what it holds, for
/// a reader; what it has room for, for a writer.
pub open spec fn available(bytes: Seq<u8>, capacity: int, need: Need) -> int {
    match need {
        Need::Data => bytes.len() as int,
        Need::Space => capacity - bytes.len(),
        Need::Drained => 0,
    }
}

/// A byte queue of fixed capacity that threads share.
pub struct SyncBuffer {
    capacity: usize,
    lane: Ghost<nat>,
    data: Mutex<ByteQueue>,
    can_read: Condvar,
    can_write: Condvar,
}

impl SyncBuffer {
    /// The capacity the buffer was made with.
    pub closed spec fn spec_capacity(&self) -> usize {
        self.capacity
    }

    /// The lane the buffer was made for: a mark that tells buffers made
    /// together apart. Buffers on different lanes are different buffers.
    pub closed spec fn lane(&self) -> nat {
        self.lane@
    }

    /// An empty buffer that holds up to `capacity` bytes.
    pub fn new(capacity: usize) -> (b: Self)
        ensures
            b.spec_capacity() == capacity,
    {
        Self::on_lane(capacity, Ghost(0))
    }

    /// An empty buffer that holds up to `capacity` bytes, on the given lane.
    pub(crate) fn on_lane(capacity: usize, lane: Ghost<nat>) -> (b: Self)
        ensures
            b.spec_capacity() == capacity,
            b.lane() == lane@,
    {
        SyncBuffer {
            capacity,
            lane,
            data: Mutex::new(ByteQueue::new(capacity)),
            can_read: Condvar::new(),
            can_write: Condvar::new(),
        }
    }

    /// The capacity the buffer was made with.
    #[verifier::when_used_as_spec(spec_capacity)]
    pub fn capacity(&self) -> (c: usize)
        ensures
            c == self.spec_capacity(),
    {
        self.capacity
    }

    /// Applies the wait policy to a caller that holds the lock. A caller that
    /// the queue can serve, or that polls, goes on at once with the guard it
    /// came with. Any other sleeps on `condvar` until the queue can serve it;
    /// under a bounded timeout it fails with `TimedOut` if that takes too long.
    fn wait_while<'a>(
        guard: MutexGuard<'a, ByteQueue>,
        condvar: &Condvar,
        timeout: Option<Duration>,
        need: Need,
    ) -> (r: Result<MutexGuard<'a, ByteQueue>, PipeError>)
        ensures
            match r {
                Ok(g) => {
                    &&& polls(timeout) || !blocked(held_bytes(g), held_limit(g) as int, need)
                    &&& (polls(timeout) || !blocked(
                        held_bytes(guard),
                        held_limit(guard) as int,
                        need,
                    )) ==> g == guard
                },
                Err(e) => {
                    &&& blocked(held_bytes(guard), held_limit(guard) as int, need)
                    &&& !polls(timeout)
                    &&& e == PipeError::TimedOut || e == PipeError::Poisoned
                    &&& e == PipeError::TimedOut ==> bounded(timeout)
                },
            },
    {
        let must_wait = queue_ref(&guard).blocks(need);
        let plan = plan_wait(must_wait, timeout_nanos(timeout));
        match (plan, timeout) {
            (WaitPlan::UntilServed, _) => settle_wait(wait_while_blocked(condvar, guard, need)),
            (WaitPlan::UntilDeadline, Some(limit)) => settle_timed_wait(
                wait_timeout_while_blocked(condvar, guard, limit, need),
            ),
            _ => Ok(guard),
        }
    }

    /// Takes the lock and waits, as the timeout allows, until the queue can
    /// serve a reader (`Need::Data`) or a writer (`Need::Space`) with at least
    /// one byte. Gives back the guard and how many of the `bytes_required` the
    /// queue can serve at once. A request for nothing, and any request at a
    /// buffer of capacity zero, gets zero at once.
    fn wait_for_bytes_available<'a>(
        &'a self,
        bytes_required: usize,
        need: Need,
        timeout: Option<Duration>,
    ) -> (r: Result<(MutexGuard<'a, ByteQueue>, usize), PipeError>)
        requires
            need != Need::Drained,
        ensures
            match r {
                Ok((g, n)) => if bytes_required == 0 || self.spec_capacity() == 0 {
                    n == 0
                } else {
                    &&& n == delivered(
                        available(held_bytes(g), held_limit(g) as int, need),
                        bytes_required as int,
                    )
                    &&& held_bytes(g).len() <= held_limit(g)
                    &&& !polls(timeout) ==> n >= 1
                },
                Err(e) => {
                    &&& bytes_required != 0
                    &&& self.spec_capacity() != 0
                    &&& e == PipeError::TimedOut || e == PipeError::Poisoned
                    &&& e == PipeError::TimedOut ==> bounded(timeout)
                },
            },
    {
        let (guard, poisoned) = lock(&self.data);
        if bytes_required == 0 || self.capacity == 0 {
            return Ok((guard, 0));
        }
        let condvar = match need {
            Need::Data => &self.can_read,
            _ => &self.can_write,
        };
        match settle_lock(guard, poisoned) {
            Err(e) => Err(e),
            Ok(guard) => match Self::wait_while(guard, condvar, timeout, need) {
                Err(e) => Err(e),
                Ok(guard) => {
                    let queue = queue_ref(&guard);
                    let ready: usize = match need {
                        Need::Data => queue.len(),
                        _ => queue.space(),
                    };
                    let n: usize = if bytes_required <= ready { bytes_required } else { ready };
                    Ok((guard, n))
                },
            },
        }
    }

    /// Moves queued bytes into the front of `dest`, oldest first. A reader
    /// that finds the queue empty waits as the timeout allows: not at all under
    /// a timeout of zero length, for ever under none. It then takes what is
    /// there, up to the length of `dest`, and wakes one waiting writer.
    pub fn read(&self, dest: &mut [u8], timeout: Option<Duration>) -> (r: Result<usize, PipeError>)
        ensures
            final(dest)@.len() == old(dest)@.len(),
            match r {
                Ok(n) => {
                    &&& n <= old(dest)@.len()
                    &&& final(dest)@.skip(n as int) == old(dest)@.skip(n as int)
                    &&& n == 0 ==> final(dest)@ == old(dest)@
                    &&& (old(dest)@.len() == 0 || self.spec_capacity() == 0) ==> n == 0
                    &&& (old(dest)@.len() != 0 && self.spec_capacity() != 0 && !polls(timeout))
                        ==> n >= 1
                },
                Err(e) => {
                    &&& final(dest)@ == old(dest)@
                    &&& old(dest)@.len() != 0
                    &&& self.spec_capacity() != 0
                    &&& e == PipeError::TimedOut || e == PipeError::Poisoned
                    &&& e == PipeError::TimedOut ==> bounded(timeout)
                },
            },
    {
        match self.wait_for_bytes_available(dest.len(), Need::Data, timeout) {
            Err(e) => Err(e),
            Ok((mut guard, n)) => {
                if n > 0 {
                    let queue = queue_mut(&mut guard);
                    queue.pop_into(dest);
                    self.can_write.notify_one();
                }
                Ok(n)
            },
        }
    }

    /// Appends the first bytes of `src` to the queue. A writer that finds the
    /// queue full waits as the timeout allows. It then puts in what fits, up
    /// to the length of `src`, and wakes one waiting reader.
    pub fn write(&self, src: &[u8], timeout: Option<Duration>) -> (r: Result<usize, PipeError>)
        ensures
            match r {
                Ok(n) => {
                    &&& n <= src@.len()
                    &&& (src@.len() == 0 || self.spec_capacity() == 0) ==> n == 0
                    &&& (src@.len() != 0 && self.spec_capacity() != 0 && !polls(timeout)) ==> n
                        >= 1
                },
                Err(e) => {
                    &&& src@.len() != 0
                    &&& self.spec_capacity() != 0
                    &&& e == PipeError::TimedOut || e == PipeError::Poisoned
                    &&& e == PipeError::TimedOut ==> bounded(timeout)
                },
            },
    {
        match self.wait_for_bytes_available(src.len(), Need::Space, timeout) {
            Err(e) => Err(e),
            Ok((mut guard, n)) => {
                if n > 0 {
                    let queue = queue_mut(&mut guard);
                    queue.push_from(src);
                    self.can_read.notify_one();
                }
                Ok(n)
            },
        }
    }

    /// Waits, as the timeout allows, until the queue is empty: until all that
    /// was written has been read or cleared away. Under a timeout of zero
    /// length it returns at once, empty queue or not. A buffer of capacity
    /// zero is always empty: there the call succeeds at once.
    pub fn flush(&self, timeout: Option<Duration>) -> (r: Result<(), PipeError>)
        ensures
            self.spec_capacity() == 0 ==> r is Ok,
            r matches Err(e) ==> {
                &&& e == PipeError::TimedOut || e == PipeError::Poisoned
                &&& e == PipeError::TimedOut ==> bounded(timeout)
            },
    {
        if self.capacity == 0 {
            return Ok(());
        }
        let (guard, poisoned) = lock(&self.data);
        match settle_lock(guard, poisoned) {
            Err(e) => Err(e),
            Ok(guard) => match Self::wait_while(guard, &self.can_write, timeout, Need::Drained) {
                Ok(_) => Ok(()),
                Err(e) => Err(e),
            },
        }
    }

    /// Discards every queued byte and wakes all waiting writers. Readers are
    /// left asleep: a clear brings them nothing to read. A poisoned lock is
    /// cleared all the same.
    pub fn clear(&self) {
        let (mut guard, _) = lock(&self.data);
        queue_mut(&mut guard).clear();
        self.can_write.notify_all();
    }

    /// The number of queued bytes at the moment of the call; another thread
    /// may change it at once. A poisoned lock is read all the same. A buffer
    /// of capacity zero never holds a byte and reports zero.
    pub fn len(&self) -> (n: usize)
        ensures
            self.spec_capacity() == 0 ==> n == 0,
    {
        if self.capacity == 0 {
            return 0;
        }
        let (guard, _) = lock(&self.data);
        queue_ref(&guard).len()
    }
}

} // verus!
