//! The bounded first-in first-out byte queue that every channel is built on.

use std::collections::VecDeque;
use vstd::prelude::*;

verus! {

/// How many of `offered` bytes fit into a queue that already holds `queued`
/// bytes and may hold `capacity` at most.
pub open spec fn accepted(queued: int, capacity: int, offered: int) -> int {
    if offered <= capacity - queued {
        offered
    } else {
        capacity - queued
    }
}

/// How many bytes a request for `wanted` bytes gets from a queue that holds
/// `queued` bytes.
pub open spec fn delivered(queued: int, wanted: int) -> int {
    if wanted <= queued {
        wanted
    } else {
        queued
    }
}

/// What a queue that holds `queue` and has the capacity `capacity` holds after
/// a write of `src`: the bytes that fit go behind the queued ones.
pub open spec fn after_write(queue: Seq<u8>, capacity: int, src: Seq<u8>) -> Seq<u8> {
    queue + src.take(accepted(queue.len() as int, capacity, src.len() as int))
}

/// The bytes that a read of up to `wanted` bytes takes from `queue`: the
/// oldest ones.
pub open spec fn read_out(queue: Seq<u8>, wanted: int) -> Seq<u8> {
    queue.take(delivered(queue.len() as int, wanted))
}

/// What `queue` holds after a read of up to `wanted` bytes.
pub open spec fn after_read(queue: Seq<u8>, wanted: int) -> Seq<u8> {
    queue.skip(delivered(queue.len() as int, wanted))
}

/// What a caller waits for before it touches the queue.
#[derive(Clone, Copy, Debug, PartialEq, Eq, Structural)]
pub enum Need {
    /// At least one queued byte, to read.
    Data,
    /// Room for at least one more byte, to write.
    Space,
    /// An empty queue, to know that all that was written has gone.
    Drained,
}

/// Whether a caller with this need has to wait at a queue that holds `bytes`
/// and has the capacity `capacity`.
pub open spec fn blocked(bytes: Seq<u8>, capacity: int, need: Need) -> bool {
    match need {
        Need::Data => bytes.len() == 0,
        Need::Space => bytes.len() >= capacity,
        Need::Drained => bytes.len() != 0,
    }
}

/// A queue of bytes that never holds more than its capacity. The oldest byte
/// leaves first.
pub struct ByteQueue {
    bytes: VecDeque<u8>,
    limit: usize,
}

impl View for ByteQueue {
    type V = Seq<u8>;

    /// The queued bytes, oldest first.
    closed spec fn view(&self) -> Seq<u8> {
        self.bytes@
    }
}

impl ByteQueue {
    /// What every queue keeps to: it holds no more than its capacity.
    #[verifier::type_invariant]
    spec fn within_limit(&self) -> bool {
        self.bytes@.len() <= self.limit
    }

    /// The capacity the queue was made with.
    pub closed spec fn spec_capacity(&self) -> usize {
        self.limit
    }

    /// An empty queue that holds up to `capacity` bytes.
    pub fn new(capacity: usize) -> (q: Self)
        ensures
            q@ == Seq::<u8>::empty(),
            q.spec_capacity() == capacity,
    {
        ByteQueue { bytes: VecDeque::new(), limit: capacity }
    }

    /// The capacity the queue was made with.
    #[verifier::when_used_as_spec(spec_capacity)]
    pub fn capacity(&self) -> (c: usize)
        ensures
            c == self.spec_capacity(),
            self@.len() <= c,
    {
        proof {
            use_type_invariant(self);
        }
        self.limit
    }

    /// The number of queued bytes.
    pub fn len(&self) -> (n: usize)
        ensures
            n == self@.len(),
            n <= self.spec_capacity(),
    {
        proof {
            use_type_invariant(self);
        }
        self.bytes.len()
    }

    /// Whether a caller with this need has to wait.
    pub fn blocks(&self, need: Need) -> (b: bool)
        ensures
            b == blocked(self@, self.spec_capacity() as int, need),
    {
        proof {
            use_type_invariant(self);
        }
        match need {
            Need::Data => self.bytes.len() == 0,
            Need::Space => self.bytes.len() >= self.limit,
            Need::Drained => self.bytes.len() != 0,
        }
    }

    /// Whether nothing is queued.
    pub fn is_empty(&self) -> (b: bool)
        ensures
            b == (self@.len() == 0),
    {
        self.bytes.len() == 0
    }

    /// The number of bytes that still fit.
    pub fn space(&self) -> (n: usize)
        ensures
            n == self.spec_capacity() - self@.len(),
    {
        proof {
            use_type_invariant(self);
        }
        self.limit - self.bytes.len()
    }

    /// Moves the oldest bytes into the front of `dest`: as many as `dest` has
    /// room for, or all of them if there are fewer. The rest of `dest` is left
    /// as it was.
    pub fn pop_into(&mut self, dest: &mut [u8]) -> (n: usize)
        ensures
            n == delivered(old(self)@.len() as int, old(dest)@.len() as int),
            final(dest)@ == read_out(old(self)@, old(dest)@.len() as int) + old(dest)@.skip(
                n as int,
            ),
            final(self)@ == after_read(old(self)@, old(dest)@.len() as int),
            final(self).spec_capacity() == old(self).spec_capacity(),
    {
        proof {
            use_type_invariant(&*self);
        }
        let mut bytes: VecDeque<u8> = VecDeque::new();
        std::mem::swap(&mut self.bytes, &mut bytes);
        let queued: usize = bytes.len();
        let n: usize = if dest.len() <= queued { dest.len() } else { queued };
        let mut i: usize = 0;
        while i < n
            invariant
                i <= n,
                n <= old(self)@.len(),
                n <= old(dest)@.len(),
                bytes@ == old(self)@.skip(i as int),
                dest@ =~= old(self)@.take(i as int) + old(dest)@.skip(i as int),
            decreases n - i,
        {
            let front = bytes.pop_front();
            match front {
                Some(b) => {
                    dest[i] = b;
                },
                None => {},
            }
            i = i + 1;
        }
        self.bytes = bytes;
        n
    }

    /// Appends the first bytes of `src` behind the queued ones: all of them if
    /// they fit, else as many as there is space for.
    pub fn push_from(&mut self, src: &[u8]) -> (n: usize)
        ensures
            n == accepted(
                old(self)@.len() as int,
                old(self).spec_capacity() as int,
                src@.len() as int,
            ),
            final(self)@ == after_write(old(self)@, old(self).spec_capacity() as int, src@),
            final(self).spec_capacity() == old(self).spec_capacity(),
    {
        proof {
            use_type_invariant(&*self);
        }
        let mut bytes: VecDeque<u8> = VecDeque::new();
        std::mem::swap(&mut self.bytes, &mut bytes);
        let free: usize = self.limit - bytes.len();
        let n: usize = if src.len() <= free { src.len() } else { free };
        let mut i: usize = 0;
        while i < n
            invariant
                i <= n,
                n <= src@.len(),
                old(self)@.len() + n <= self.limit,
                bytes@ =~= old(self)@ + src@.take(i as int),
            decreases n - i,
        {
            bytes.push_back(src[i]);
            i = i + 1;
        }
        self.bytes = bytes;
        n
    }

    /// Discards every queued byte.
    pub fn clear(&mut self)
        ensures
            final(self)@ == Seq::<u8>::empty(),
            final(self).spec_capacity() == old(self).spec_capacity(),
    {
        let mut bytes: VecDeque<u8> = VecDeque::new();
        std::mem::swap(&mut self.bytes, &mut bytes);
        bytes.clear();
        self.bytes = bytes;
    }
}

} // verus!
