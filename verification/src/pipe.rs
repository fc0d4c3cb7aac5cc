//! The endpoint: a handle on a read-side and a write-side buffer and on a
//! timeout that its clones share.

use crate::buffer::SyncBuffer;
use crate::error::{io_error, kind_of};
use crate::locks::{lock, timeout_get, timeout_put};
use std::sync::{Arc, Mutex};
use std::time::Duration;
use vstd::prelude::*;

verus! {

/// One end of a byte channel. Bytes written to it go into its write-side
/// buffer; bytes read from it come out of its read-side buffer. A clone is a
/// second handle on the same buffers and the same timeout.
pub struct MockPipe {
    timeout: Arc<Mutex<Option<Duration>>>,
    read_buffer: Arc<SyncBuffer>,
    write_buffer: Arc<SyncBuffer>,
}

impl Clone for MockPipe {
    /// A second handle on the same buffers and the same timeout.
    fn clone(&self) -> (twin: Self)
        ensures
            twin == *self,
    {
        MockPipe {
            timeout: self.timeout.clone(),
            read_buffer: self.read_buffer.clone(),
            write_buffer: self.write_buffer.clone(),
        }
    }
}

impl MockPipe {
    /// The buffer that reads take from.
    pub closed spec fn read_side(&self) -> SyncBuffer {
        *self.read_buffer
    }

    /// The buffer that writes put into.
    pub closed spec fn write_side(&self) -> SyncBuffer {
        *self.write_buffer
    }

    /// The capacity of the read-side buffer.
    pub open spec fn read_capacity(&self) -> usize {
        self.read_side().spec_capacity()
    }

    /// The capacity of the write-side buffer.
    pub open spec fn write_capacity(&self) -> usize {
        self.write_side().spec_capacity()
    }

    /// An endpoint on the two buffers, with a timeout cell of its own that
    /// starts at zero length: a new endpoint never blocks.
    fn from_buffers(read_buffer: Arc<SyncBuffer>, write_buffer: Arc<SyncBuffer>) -> (p: Self)
        ensures
            p.read_side() == *read_buffer,
            p.write_side() == *write_buffer,
    {
        MockPipe {
            timeout: Arc::new(Mutex::new(Some(Duration::from_nanos(0)))),
            read_buffer,
            write_buffer,
        }
    }

    /// One endpoint on one buffer of the given capacity: what is written to it
    /// is what is read from it.
    pub fn loopback(buffer_capacity: usize) -> (p: Self)
        ensures
            p.read_side() == p.write_side(),
            p.read_capacity() == buffer_capacity,
            p.write_capacity() == buffer_capacity,
    {
        let buffer = Arc::new(SyncBuffer::new(buffer_capacity));
        Self::from_buffers(buffer.clone(), buffer)
    }

    /// Two endpoints on two buffers of the given capacity, wired crosswise:
    /// each reads what the other writes, and none reads what it wrote itself.
    pub fn pair(buffer_capacity: usize) -> (p: (Self, Self))
        ensures
            p.0.write_side() == p.1.read_side(),
            p.1.write_side() == p.0.read_side(),
            p.0.read_side() != p.0.write_side(),
            p.1.read_side() != p.1.write_side(),
            p.0.read_capacity() == buffer_capacity,
            p.0.write_capacity() == buffer_capacity,
            p.1.read_capacity() == buffer_capacity,
            p.1.write_capacity() == buffer_capacity,
    {
        let buffer1 = Arc::new(SyncBuffer::on_lane(buffer_capacity, Ghost(0)));
        let buffer2 = Arc::new(SyncBuffer::on_lane(buffer_capacity, Ghost(1)));
        let pipe1 = Self::from_buffers(buffer1.clone(), buffer2.clone());
        let pipe2 = Self::from_buffers(buffer2, buffer1);
        (pipe1, pipe2)
    }

    /// The timeout that reads and writes now run under: none to block for
    /// ever, one of zero length never to block.
    pub fn timeout(&self) -> Option<Duration> {
        let (guard, _) = lock(&self.timeout);
        timeout_get(&guard)
    }

    /// Sets the timeout for the calls that follow, on this endpoint and on its
    /// clones.
    pub fn set_timeout(&self, timeout: Option<Duration>) {
        let (mut guard, _) = lock(&self.timeout);
        timeout_put(&mut guard, timeout);
    }

    /// Sets the timeout and hands the endpoint back.
    pub fn with_timeout(self, timeout: Option<Duration>) -> (p: Self)
        ensures
            p == self,
    {
        self.set_timeout(timeout);
        self
    }

    /// The number of bytes that wait to be read from this endpoint, at the
    /// moment of the call: zero where the read side has the capacity zero.
    pub fn read_buffer_len(&self) -> (n: usize)
        ensures
            self.read_capacity() == 0 ==> n == 0,
    {
        self.read_buffer.len()
    }

    /// The number of bytes written to this endpoint that nobody has read yet,
    /// at the moment of the call: zero where the write side has the capacity
    /// zero.
    pub fn write_buffer_len(&self) -> (n: usize)
        ensures
            self.write_capacity() == 0 ==> n == 0,
    {
        self.write_buffer.len()
    }

    /// Discards what waits to be read.
    pub fn clear_read(&self) {
        self.read_buffer.clear();
    }

    /// Discards what was written and not yet read.
    pub fn clear_write(&self) {
        self.write_buffer.clear();
    }

    /// Discards what waits on both sides.
    pub fn clear(&self) {
        self.clear_read();
        self.clear_write();
    }
}

impl std::io::Read for MockPipe {
    /// Reads from the read side under the endpoint's timeout. A short read is
    /// no error: the call takes what is there. A call with an empty `buf`, and
    /// any call at a buffer of capacity zero, reads nothing and returns at
    /// once. `read_exact` loops over this call, and ends with `UnexpectedEof`
    /// when a call reads nothing.
    fn read(&mut self, buf: &mut [u8]) -> (r: std::io::Result<usize>)
        ensures
            *final(self) == *old(self),
            final(buf)@.len() == old(buf)@.len(),
            match r {
                Ok(n) => {
                    &&& n <= old(buf)@.len()
                    &&& final(buf)@.skip(n as int) == old(buf)@.skip(n as int)
                    &&& n == 0 ==> final(buf)@ == old(buf)@
                    &&& (old(buf)@.len() == 0 || old(self).read_capacity() == 0) ==> n == 0
                },
                Err(e) => {
                    &&& final(buf)@ == old(buf)@
                    &&& old(buf)@.len() != 0
                    &&& old(self).read_capacity() != 0
                    &&& kind_of(e) == std::io::ErrorKind::TimedOut || kind_of(e)
                        == std::io::ErrorKind::Other
                },
            },
    {
        let timeout = self.timeout();
        match self.read_buffer.read(buf, timeout) {
            Ok(n) => Ok(n),
            Err(e) => Err(io_error(e)),
        }
    }
}

impl std::io::Write for MockPipe {
    /// Writes to the write side under the endpoint's timeout. A short write is
    /// no error: the call puts in what fits. A call with an empty `buf`, and
    /// any call at a buffer of capacity zero, writes nothing and returns at
    /// once. `write_all` loops over this call, and ends with `WriteZero` when
    /// a call writes nothing.
    fn write(&mut self, buf: &[u8]) -> (r: std::io::Result<usize>)
        ensures
            *final(self) == *old(self),
            match r {
                Ok(n) => {
                    &&& n <= buf@.len()
                    &&& (buf@.len() == 0 || old(self).write_capacity() == 0) ==> n == 0
                },
                Err(e) => {
                    &&& buf@.len() != 0
                    &&& old(self).write_capacity() != 0
                    &&& kind_of(e) == std::io::ErrorKind::TimedOut || kind_of(e)
                        == std::io::ErrorKind::Other
                },
            },
    {
        let timeout = self.timeout();
        match self.write_buffer.write(buf, timeout) {
            Ok(n) => Ok(n),
            Err(e) => Err(io_error(e)),
        }
    }

    /// Blocks until the write side is empty, whatever the endpoint's timeout:
    /// until a reader has taken, or a clear has discarded, all that was
    /// written. Where the write side has the capacity zero it succeeds at
    /// once.
    fn flush(&mut self) -> (r: std::io::Result<()>)
        ensures
            *final(self) == *old(self),
            old(self).write_capacity() == 0 ==> r is Ok,
            r matches Err(e) ==> kind_of(e) == std::io::ErrorKind::Other,
    {
        match self.write_buffer.flush(None) {
            Ok(()) => Ok(()),
            Err(e) => Err(io_error(e)),
        }
    }
}

} // verus!
