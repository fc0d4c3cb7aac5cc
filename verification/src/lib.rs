//! A bounded in-memory byte channel with blocking, polling and timed transfers,
//! meant to stand in for sockets, pipes or serial links in tests.
//!
//! `queue` holds the bounded first-in first-out queue and `laws` what holds of
//! it over whole runs of operations. `wait` holds the wait policy. `buffer`
//! puts a queue behind a lock, `pipe` wires buffers into endpoints that read
//! and write as `std::io` streams do. `locks` and `error` declare what is
//! taken from the standard library on trust.

pub mod buffer;
pub mod error;
pub mod laws;
pub mod locks;
pub mod pipe;
pub mod queue;
pub mod wait;

pub use buffer::SyncBuffer;
pub use error::PipeError;
pub use pipe::MockPipe;
pub use queue::ByteQueue;
