//! What holds of the queue over whole runs of writes, reads and clears, and
//! of two queues wired crosswise into a pair of endpoints.

use crate::queue::{accepted, after_read, after_write, delivered, read_out};
use vstd::prelude::*;

verus! {

/// The writes of a run laid end to end.
pub open spec fn joined(writes: Seq<Seq<u8>>) -> Seq<u8>
    decreases writes.len(),
{
    if writes.len() == 0 {
        Seq::<u8>::empty()
    } else {
        joined(writes.drop_last()) + writes.last()
    }
}

/// What a queue holds after the writes of a run, one after the other.
pub open spec fn after_writes(queue: Seq<u8>, capacity: int, writes: Seq<Seq<u8>>) -> Seq<u8>
    decreases writes.len(),
{
    if writes.len() == 0 {
        queue
    } else {
        after_write(after_writes(queue, capacity, writes.drop_last()), capacity, writes.last())
    }
}

/// Writes that fit into the queue together are all taken whole, and stand
/// behind what was queued in the order in which they were written.
pub proof fn writes_that_fit_are_kept(queue: Seq<u8>, capacity: int, writes: Seq<Seq<u8>>)
    requires
        queue.len() + joined(writes).len() <= capacity,
    ensures
        after_writes(queue, capacity, writes) == queue + joined(writes),
    decreases writes.len(),
{
    if writes.len() != 0 {
        let before = writes.drop_last();
        let last = writes.last();
        writes_that_fit_are_kept(queue, capacity, before);
        assert(last.take(last.len() as int) =~= last);
        assert((queue + joined(before)) + last =~= queue + (joined(before) + last));
    } else {
        assert(queue + Seq::<u8>::empty() =~= queue);
    }
}

/// First in, first out: after writes into an empty queue that fit into it
/// together, one read of their whole length gives them back end to end and
/// unchanged, and leaves the queue empty.
pub proof fn fifo(capacity: int, writes: Seq<Seq<u8>>)
    requires
        joined(writes).len() <= capacity,
    ensures
        read_out(
            after_writes(Seq::<u8>::empty(), capacity, writes),
            joined(writes).len() as int,
        ) == joined(writes),
        after_read(
            after_writes(Seq::<u8>::empty(), capacity, writes),
            joined(writes).len() as int,
        ) == Seq::<u8>::empty(),
{
    let all = joined(writes);
    writes_that_fit_are_kept(Seq::<u8>::empty(), capacity, writes);
    assert(Seq::<u8>::empty() + all =~= all);
    assert(all.take(all.len() as int) =~= all);
    assert(all.skip(all.len() as int) =~= Seq::<u8>::empty());
}

/// One operation on a queue.
pub enum Op {
    /// A write that offers these bytes.
    Write(Seq<u8>),
    /// A read of up to this many bytes.
    Read(nat),
    /// A clear.
    Clear,
}

/// What a queue holds after one operation.
pub open spec fn after_op(queue: Seq<u8>, capacity: int, op: Op) -> Seq<u8> {
    match op {
        Op::Write(src) => after_write(queue, capacity, src),
        Op::Read(wanted) => after_read(queue, wanted as int),
        Op::Clear => Seq::<u8>::empty(),
    }
}

/// What a queue holds after a run of operations.
pub open spec fn after_ops(queue: Seq<u8>, capacity: int, ops: Seq<Op>) -> Seq<u8>
    decreases ops.len(),
{
    if ops.len() == 0 {
        queue
    } else {
        after_op(after_ops(queue, capacity, ops.drop_last()), capacity, ops.last())
    }
}

/// No run of operations takes a queue beyond its capacity.
pub proof fn capacity_is_kept(queue: Seq<u8>, capacity: int, ops: Seq<Op>)
    requires
        queue.len() <= capacity,
    ensures
        after_ops(queue, capacity, ops).len() <= capacity,
    decreases ops.len(),
{
    if ops.len() != 0 {
        capacity_is_kept(queue, capacity, ops.drop_last());
    }
}

/// A write that offers more than there is space for takes just the bytes
/// that fill the queue, and that many are reported.
pub proof fn overlong_write_fills(queue: Seq<u8>, capacity: int, src: Seq<u8>)
    requires
        queue.len() <= capacity,
        src.len() > capacity - queue.len(),
    ensures
        accepted(queue.len() as int, capacity, src.len() as int) == capacity - queue.len(),
        after_write(queue, capacity, src).len() == capacity,
        after_write(queue, capacity, src) == queue + src.take(capacity - queue.len()),
{
}

/// A write of no bytes and a read of no bytes move nothing, whatever the queue
/// holds.
pub proof fn empty_arguments_move_nothing(queue: Seq<u8>, capacity: int)
    requires
        queue.len() <= capacity,
    ensures
        accepted(queue.len() as int, capacity, 0) == 0,
        after_write(queue, capacity, Seq::<u8>::empty()) == queue,
        delivered(queue.len() as int, 0) == 0,
        read_out(queue, 0) == Seq::<u8>::empty(),
        after_read(queue, 0) == queue,
{
    assert(queue + Seq::<u8>::empty().take(0) =~= queue);
    assert(queue.take(0) =~= Seq::<u8>::empty());
    assert(queue.skip(0) =~= queue);
}

/// A queue of capacity zero takes nothing from a write and gives nothing to a
/// read.
pub proof fn nothing_passes_capacity_zero(src: Seq<u8>, wanted: nat)
    ensures
        accepted(0, 0, src.len() as int) == 0,
        after_write(Seq::<u8>::empty(), 0, src) == Seq::<u8>::empty(),
        delivered(0, wanted as int) == 0,
        read_out(Seq::<u8>::empty(), wanted as int) == Seq::<u8>::empty(),
{
    assert(Seq::<u8>::empty() + src.take(0) =~= Seq::<u8>::empty());
    assert(Seq::<u8>::empty().take(0) =~= Seq::<u8>::empty());
}

/// The two queues of a pair of endpoints: what the first endpoint has written
/// and the second has not yet read, and the same the other way round.
pub struct Wires {
    pub forth: Seq<u8>,
    pub back: Seq<u8>,
}

/// The wires after a write at the first endpoint.
pub open spec fn write_at_first(wires: Wires, capacity: int, src: Seq<u8>) -> Wires {
    Wires { forth: after_write(wires.forth, capacity, src), back: wires.back }
}

/// The wires after a write at the second endpoint.
pub open spec fn write_at_second(wires: Wires, capacity: int, src: Seq<u8>) -> Wires {
    Wires { forth: wires.forth, back: after_write(wires.back, capacity, src) }
}

/// What a read of up to `wanted` bytes gets at the first endpoint.
pub open spec fn read_at_first(wires: Wires, wanted: int) -> Seq<u8> {
    read_out(wires.back, wanted)
}

/// What a read of up to `wanted` bytes gets at the second endpoint.
pub open spec fn read_at_second(wires: Wires, wanted: int) -> Seq<u8> {
    read_out(wires.forth, wanted)
}

/// What is written at one endpoint of a pair is what the other endpoint
/// reads next, once it has read what was under way before, as far as the write
/// fitted and as far as the read asks. A write at an endpoint changes nothing
/// of what that same endpoint reads.
pub proof fn pair_is_crosswise(wires: Wires, capacity: int, src: Seq<u8>, wanted: nat)
    requires
        wires.forth.len() <= capacity,
        wires.back.len() <= capacity,
    ensures
        read_at_second(write_at_first(wires, capacity, src), (wires.forth.len() + wanted) as int)
            == wires.forth + src.take(
            delivered(
                accepted(wires.forth.len() as int, capacity, src.len() as int),
                wanted as int,
            ),
        ),
        read_at_first(write_at_second(wires, capacity, src), (wires.back.len() + wanted) as int)
            == wires.back + src.take(
            delivered(
                accepted(wires.back.len() as int, capacity, src.len() as int),
                wanted as int,
            ),
        ),
        write_at_first(wires, capacity, src).back == wires.back,
        write_at_second(wires, capacity, src).forth == wires.forth,
{
    crosswise_one_way(wires.forth, capacity, src, wanted);
    crosswise_one_way(wires.back, capacity, src, wanted);
}

/// One direction of `pair_is_crosswise`, on the one queue that it concerns.
proof fn crosswise_one_way(queue: Seq<u8>, capacity: int, src: Seq<u8>, wanted: nat)
    requires
        queue.len() <= capacity,
    ensures
        read_out(after_write(queue, capacity, src), (queue.len() + wanted) as int) == queue + src.take(
            delivered(accepted(queue.len() as int, capacity, src.len() as int), wanted as int),
        ),
{
    let n = accepted(queue.len() as int, capacity, src.len() as int);
    let m = delivered(n, wanted as int);
    assert((queue + src.take(n)).take(queue.len() + m) =~= queue + src.take(m));
}

} // verus!
