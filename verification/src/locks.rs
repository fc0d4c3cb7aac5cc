//! What the library takes from `std::sync` and `std::time` on trust: the
//! mutex, its guard, the condition variable and the length of a duration.

use crate::queue::{blocked, ByteQueue, Need};
use std::ops::{Deref, DerefMut};
use std::sync::{Condvar, Mutex, MutexGuard};
use std::time::Duration;
use vstd::prelude::*;

verus! {

/// `std::sync::Mutex`, opaque to the verifier.
#[verifier::external_type_specification]
#[verifier::external_body]
#[verifier::reject_recursive_types(T)]
pub struct ExMutex<T: ?Sized>(Mutex<T>);

/// `std::sync::MutexGuard`, opaque to the verifier.
#[verifier::external_type_specification]
#[verifier::external_body]
#[verifier::reject_recursive_types(T)]
pub struct ExMutexGuard<'a, T: ?Sized + 'a>(MutexGuard<'a, T>);

/// `std::sync::Condvar`, opaque to the verifier.
#[verifier::external_type_specification]
#[verifier::external_body]
pub struct ExCondvar(Condvar);

/// The length of a duration in nanoseconds: what `Duration::as_nanos`
/// returns for it.
pub uninterp spec fn nanos(d: Duration) -> u128;

/// The bytes of the queue that a guard gives access to, oldest first: the
/// view of what `Deref::deref` returns for the guard.
pub uninterp spec fn held_bytes(guard: MutexGuard<ByteQueue>) -> Seq<u8>;

/// The capacity of the queue that a guard gives access to.
pub uninterp spec fn held_limit(guard: MutexGuard<ByteQueue>) -> usize;

/// `Duration::as_nanos`: the whole duration in nanoseconds. Assumed: the
/// result is the length that `nanos` names.
pub assume_specification[ Duration::as_nanos ](d: &Duration) -> (n: u128)
    ensures
        n == nanos(*d),
;

/// `Duration::from_nanos`: the duration of that many nanoseconds. Assumed:
/// `as_nanos` of the result is the argument.
pub assume_specification[ Duration::from_nanos ](n: u64) -> (d: Duration)
    ensures
        nanos(d) == n,
;

/// `Mutex::new`: a mutex around the value. Nothing is assumed of it.
pub assume_specification<T>[ Mutex::<T>::new ](t: T) -> (m: Mutex<T>)
;

/// `Condvar::new`: a condition variable. Nothing is assumed of it.
pub assume_specification[ Condvar::new ]() -> (c: Condvar)
;

/// `Condvar::notify_one`: wakes one thread that waits on the condition
/// variable, if there is one. Nothing is assumed of it.
pub assume_specification[ Condvar::notify_one ](c: &Condvar)
;

/// `Condvar::notify_all`: wakes every thread that waits on the condition
/// variable. Nothing is assumed of it.
pub assume_specification[ Condvar::notify_all ](c: &Condvar)
;

/// `Mutex::lock`: blocks until the lock is held. The guard comes back in
/// either case; the flag says whether the mutex was found poisoned, in which
/// case the guard is the one that the error carries. Nothing is assumed of
/// what the guard holds, since other threads may have changed it. `lock` may
/// panic in a thread that holds the lock already: this library takes a lock
/// only in functions that hold none, and gives it up before they return.
#[verifier::external_body]
pub(crate) fn lock<'a, T>(m: &'a Mutex<T>) -> (r: (MutexGuard<'a, T>, bool)) {
    match m.lock() {
        Ok(guard) => (guard, false),
        Err(poison) => (poison.into_inner(), true),
    }
}

/// `Deref::deref` of a guard: the queue behind it. Assumed: it is the queue
/// that `held_bytes` and `held_limit` speak of.
#[verifier::external_body]
pub(crate) fn queue_ref<'a>(guard: &'a MutexGuard<'_, ByteQueue>) -> (q: &'a ByteQueue)
    ensures
        q@ == held_bytes(*guard),
        q.spec_capacity() == held_limit(*guard),
{
    guard.deref()
}

/// `DerefMut::deref_mut` of a guard: the queue behind it, to be changed in
/// place. Assumed: it starts as the queue that `held_bytes` and `held_limit`
/// speak of, and what the guard holds once the borrow ends is what the borrow
/// left there.
#[verifier::external_body]
pub(crate) fn queue_mut<'a>(guard: &'a mut MutexGuard<'_, ByteQueue>) -> (q: &'a mut ByteQueue)
    ensures
        q@ == held_bytes(*old(guard)),
        q.spec_capacity() == held_limit(*old(guard)),
        held_bytes(*final(guard)) == final(q)@,
        held_limit(*final(guard)) == final(q).spec_capacity(),
{
    guard.deref_mut()
}

/// `Condvar::wait_while`, with `ByteQueue::blocks` as the condition: gives the
/// lock up and sleeps, woken or not, until the queue is no longer blocked for
/// `need`. `None` stands for a poisoned mutex. Assumed: a guard that comes
/// back holds a queue that is not blocked for `need`. The condition variable
/// must always be used with the same mutex, or the call may panic: a buffer
/// waits on its own condition variables with the guard of its own lock only.
#[verifier::external_body]
pub(crate) fn wait_while_blocked<'a>(
    condvar: &Condvar,
    guard: MutexGuard<'a, ByteQueue>,
    need: Need,
) -> (r: Option<MutexGuard<'a, ByteQueue>>)
    ensures
        r matches Some(g) ==> !blocked(held_bytes(g), held_limit(g) as int, need),
{
    condvar.wait_while(guard, |q| q.blocks(need)).ok()
}

/// `Condvar::wait_timeout_while`, with `ByteQueue::blocks` as the condition:
/// as `wait_while`, but gives up once `limit` has passed. The flag is
/// `WaitTimeoutResult::timed_out`; `None` stands for a poisoned mutex.
/// Assumed: where the flag is false, the guard holds a queue that is not
/// blocked for `need`. The same holds of the condition variable and its mutex
/// as for `wait_while`.
#[verifier::external_body]
pub(crate) fn wait_timeout_while_blocked<'a>(
    condvar: &Condvar,
    guard: MutexGuard<'a, ByteQueue>,
    limit: Duration,
    need: Need,
) -> (r: Option<(MutexGuard<'a, ByteQueue>, bool)>)
    ensures
        r matches Some((g, timed_out)) ==> (timed_out || !blocked(
            held_bytes(g),
            held_limit(g) as int,
            need,
        )),
{
    match condvar.wait_timeout_while(guard, limit, |q| q.blocks(need)) {
        Ok((g, outcome)) => Some((g, outcome.timed_out())),
        Err(_) => None,
    }
}

/// `Deref::deref` of a guard of the timeout cell: a copy of the timeout it
/// holds. Nothing is assumed of it.
#[verifier::external_body]
pub(crate) fn timeout_get(guard: &MutexGuard<'_, Option<Duration>>) -> (t: Option<Duration>) {
    *guard.deref()
}

/// `DerefMut::deref_mut` of a guard of the timeout cell, to store `t` there.
/// Nothing is assumed of it.
#[verifier::external_body]
pub(crate) fn timeout_put(guard: &mut MutexGuard<'_, Option<Duration>>, t: Option<Duration>) {
    *guard.deref_mut() = t;
}

} // verus!
