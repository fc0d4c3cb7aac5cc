use mockpipe::queue::{ByteQueue, Need};
use mockpipe::wait::{
    plan_wait, settle_lock, settle_timed_wait, settle_wait, timeout_nanos, WaitPlan,
};
use mockpipe::PipeError;
use std::time::Duration;

#[test]
fn new_queue_is_empty() {
    let q = ByteQueue::new(16);
    assert_eq!(q.len(), 0);
    assert_eq!(q.capacity(), 16);
    assert_eq!(q.space(), 16);
    assert!(q.is_empty());
}

#[test]
fn push_takes_what_fits() {
    let mut q = ByteQueue::new(5);
    assert_eq!(q.push_from(&[1, 2, 3, 4, 5, 6, 7]), 5);
    assert_eq!(q.len(), 5);
    assert_eq!(q.space(), 0);
    assert_eq!(q.push_from(&[8]), 0);
    assert_eq!(q.len(), 5);

    let mut dest = [0u8; 5];
    assert_eq!(q.pop_into(&mut dest), 5);
    assert_eq!(dest, [1, 2, 3, 4, 5]);
}

#[test]
fn push_into_partly_filled_queue() {
    let mut q = ByteQueue::new(5);
    assert_eq!(q.push_from(&[1, 2, 3]), 3);
    assert_eq!(q.push_from(&[4, 5, 6]), 2);
    let mut dest = [0u8; 8];
    assert_eq!(q.pop_into(&mut dest), 5);
    assert_eq!(dest, [1, 2, 3, 4, 5, 0, 0, 0]);
}

#[test]
fn pop_takes_the_oldest_and_leaves_the_rest_of_dest() {
    let mut q = ByteQueue::new(8);
    assert_eq!(q.push_from(&[10, 20, 30, 40, 50]), 5);

    let mut dest = [0u8; 3];
    assert_eq!(q.pop_into(&mut dest), 3);
    assert_eq!(dest, [10, 20, 30]);
    assert_eq!(q.len(), 2);
    assert_eq!(q.space(), 6);

    let mut wide = [9u8; 5];
    assert_eq!(q.pop_into(&mut wide), 2);
    assert_eq!(wide, [40, 50, 9, 9, 9]);
    assert!(q.is_empty());

    assert_eq!(q.pop_into(&mut wide), 0);
    assert_eq!(wide, [40, 50, 9, 9, 9]);
}

#[test]
fn writes_come_back_in_order() {
    let mut q = ByteQueue::new(6);
    assert_eq!(q.push_from(b"ab"), 2);
    assert_eq!(q.push_from(b"cde"), 3);
    assert_eq!(q.push_from(b""), 0);
    assert_eq!(q.push_from(b"f"), 1);
    let mut dest = [0u8; 6];
    assert_eq!(q.pop_into(&mut dest), 6);
    assert_eq!(&dest, b"abcdef");
    assert!(q.is_empty());
}

#[test]
fn order_survives_wrapping_around() {
    let mut q = ByteQueue::new(4);
    let mut out = Vec::new();
    let mut next = 0u8;
    for _ in 0..10 {
        let src = [next, next + 1, next + 2];
        let n = q.push_from(&src);
        next += n as u8;
        let mut dest = [0u8; 2];
        let m = q.pop_into(&mut dest);
        out.extend_from_slice(&dest[..m]);
        assert!(q.len() <= q.capacity());
    }
    let expected: Vec<u8> = (0..out.len() as u8).collect();
    assert_eq!(out, expected);
}

#[test]
fn queue_of_capacity_zero_passes_nothing() {
    let mut q = ByteQueue::new(0);
    assert_eq!(q.push_from(b"hello"), 0);
    assert_eq!(q.len(), 0);
    let mut dest = [7u8; 5];
    assert_eq!(q.pop_into(&mut dest), 0);
    assert_eq!(dest, [7u8; 5]);
}

#[test]
fn empty_arguments_move_nothing() {
    let mut q = ByteQueue::new(3);
    assert_eq!(q.push_from(b"xyz"), 3);
    assert_eq!(q.push_from(&[]), 0);
    assert_eq!(q.pop_into(&mut []), 0);
    assert_eq!(q.len(), 3);
}

#[test]
fn clear_empties_and_keeps_capacity() {
    let mut q = ByteQueue::new(4);
    assert_eq!(q.push_from(b"test"), 4);
    q.clear();
    assert_eq!(q.len(), 0);
    assert_eq!(q.capacity(), 4);
    assert_eq!(q.space(), 4);
    assert_eq!(q.push_from(b"again"), 4);
}

#[test]
fn blocks_by_need() {
    let mut q = ByteQueue::new(2);
    assert!(q.blocks(Need::Data));
    assert!(!q.blocks(Need::Space));
    assert!(!q.blocks(Need::Drained));

    assert_eq!(q.push_from(&[1]), 1);
    assert!(!q.blocks(Need::Data));
    assert!(!q.blocks(Need::Space));
    assert!(q.blocks(Need::Drained));

    assert_eq!(q.push_from(&[2]), 1);
    assert!(!q.blocks(Need::Data));
    assert!(q.blocks(Need::Space));
    assert!(q.blocks(Need::Drained));

    let zero = ByteQueue::new(0);
    assert!(zero.blocks(Need::Data));
    assert!(zero.blocks(Need::Space));
    assert!(!zero.blocks(Need::Drained));
}

#[test]
fn plan_by_timeout() {
    assert_eq!(plan_wait(false, None), WaitPlan::Proceed);
    assert_eq!(plan_wait(false, Some(0)), WaitPlan::Proceed);
    assert_eq!(plan_wait(false, Some(1)), WaitPlan::Proceed);
    assert_eq!(plan_wait(true, None), WaitPlan::UntilServed);
    assert_eq!(plan_wait(true, Some(0)), WaitPlan::Proceed);
    assert_eq!(plan_wait(true, Some(1)), WaitPlan::UntilDeadline);
    assert_eq!(plan_wait(true, Some(u128::MAX)), WaitPlan::UntilDeadline);
}

#[test]
fn timeout_in_nanoseconds() {
    assert_eq!(timeout_nanos(None), None);
    assert_eq!(timeout_nanos(Some(Duration::ZERO)), Some(0));
    assert_eq!(timeout_nanos(Some(Duration::from_millis(100))), Some(100_000_000));
    assert_eq!(timeout_nanos(Some(Duration::new(3, 7))), Some(3_000_000_007));
}

#[test]
fn lock_settles_by_poison() {
    assert_eq!(settle_lock(7u8, false), Ok(7));
    assert_eq!(settle_lock(7u8, true), Err(PipeError::Poisoned));
}

#[test]
fn wait_settles_by_what_came_back() {
    assert_eq!(settle_wait(Some(3u8)), Ok(3));
    assert_eq!(settle_wait(None::<u8>), Err(PipeError::Poisoned));
}

#[test]
fn timed_wait_settles_by_deadline() {
    assert_eq!(settle_timed_wait(Some((3u8, false))), Ok(3));
    assert_eq!(settle_timed_wait(Some((3u8, true))), Err(PipeError::TimedOut));
    assert_eq!(settle_timed_wait(None::<(u8, bool)>), Err(PipeError::Poisoned));
}
