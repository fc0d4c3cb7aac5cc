use mockpipe::error::io_error;
use mockpipe::{PipeError, SyncBuffer};
use std::io::ErrorKind;
use std::time::{Duration, Instant};

const POLL: Option<Duration> = Some(Duration::ZERO);

#[test]
fn new_buffer_is_empty() {
    let b = SyncBuffer::new(8);
    assert_eq!(b.capacity(), 8);
    assert_eq!(b.len(), 0);
}

#[test]
fn polling_write_then_read() {
    let b = SyncBuffer::new(8);
    assert_eq!(b.write(b"hello", POLL), Ok(5));
    assert_eq!(b.len(), 5);
    let mut dest = [0u8; 3];
    assert_eq!(b.read(&mut dest, POLL), Ok(3));
    assert_eq!(&dest, b"hel");
    assert_eq!(b.len(), 2);
    let mut rest = [b'.'; 4];
    assert_eq!(b.read(&mut rest, POLL), Ok(2));
    assert_eq!(&rest, b"lo..");
    assert_eq!(b.len(), 0);
}

#[test]
fn polling_write_is_cut_to_the_space_left() {
    let b = SyncBuffer::new(4);
    assert_eq!(b.write(b"abcdef", POLL), Ok(4));
    assert_eq!(b.len(), 4);
    assert_eq!(b.write(b"gh", POLL), Ok(0));
    let mut dest = [0u8; 1];
    assert_eq!(b.read(&mut dest, POLL), Ok(1));
    assert_eq!(b.write(b"gh", POLL), Ok(1));
    let mut all = [0u8; 4];
    assert_eq!(b.read(&mut all, POLL), Ok(4));
    assert_eq!(&all, b"bcdg");
}

#[test]
fn polling_read_of_empty_buffer_gets_nothing() {
    let b = SyncBuffer::new(4);
    let mut dest = [5u8; 2];
    assert_eq!(b.read(&mut dest, POLL), Ok(0));
    assert_eq!(dest, [5, 5]);
}

#[test]
fn bounded_read_of_empty_buffer_times_out() {
    let b = SyncBuffer::new(4);
    let limit = Duration::from_millis(50);
    let mut dest = [5u8; 2];
    let start = Instant::now();
    assert_eq!(b.read(&mut dest, Some(limit)), Err(PipeError::TimedOut));
    assert!(start.elapsed() >= limit);
    assert_eq!(dest, [5, 5]);
    assert_eq!(b.len(), 0);
}

#[test]
fn bounded_write_to_full_buffer_times_out() {
    let b = SyncBuffer::new(2);
    let limit = Duration::from_millis(50);
    assert_eq!(b.write(b"ab", Some(limit)), Ok(2));
    let start = Instant::now();
    assert_eq!(b.write(b"c", Some(limit)), Err(PipeError::TimedOut));
    assert!(start.elapsed() >= limit);
    assert_eq!(b.len(), 2);
}

#[test]
fn waiting_calls_go_on_at_once_when_served() {
    let b = SyncBuffer::new(4);
    assert_eq!(b.write(b"abc", None), Ok(3));
    let mut dest = [0u8; 8];
    assert_eq!(b.read(&mut dest, None), Ok(3));
    assert_eq!(&dest[..3], b"abc");
    assert_eq!(b.write(b"defgh", Some(Duration::from_secs(5))), Ok(4));
    assert_eq!(b.read(&mut dest, Some(Duration::from_secs(5))), Ok(4));
    assert_eq!(&dest[..4], b"defg");
}

#[test]
fn empty_arguments_never_wait() {
    let b = SyncBuffer::new(2);
    // Empty buffer, reader that would wait for ever.
    assert_eq!(b.read(&mut [], None), Ok(0));
    assert_eq!(b.write(b"ab", POLL), Ok(2));
    // Full buffer, writer that would wait for ever.
    assert_eq!(b.write(&[], None), Ok(0));
    assert_eq!(b.write(&[], Some(Duration::from_secs(5))), Ok(0));
    assert_eq!(b.read(&mut [], Some(Duration::from_secs(5))), Ok(0));
    assert_eq!(b.len(), 2);
}

#[test]
fn capacity_zero_never_waits() {
    let b = SyncBuffer::new(0);
    let mut dest = [1u8; 3];
    assert_eq!(b.write(b"hello", None), Ok(0));
    assert_eq!(b.read(&mut dest, None), Ok(0));
    assert_eq!(b.write(b"hello", Some(Duration::from_secs(5))), Ok(0));
    assert_eq!(b.read(&mut dest, Some(Duration::from_secs(5))), Ok(0));
    assert_eq!(b.write(b"hello", POLL), Ok(0));
    assert_eq!(b.read(&mut dest, POLL), Ok(0));
    assert_eq!(dest, [1, 1, 1]);
    assert_eq!(b.len(), 0);
}

#[test]
fn capacity_zero_is_always_drained() {
    let b = SyncBuffer::new(0);
    assert_eq!(b.len(), 0);
    assert_eq!(b.flush(None), Ok(()));
    assert_eq!(b.flush(POLL), Ok(()));
    let start = Instant::now();
    assert_eq!(b.flush(Some(Duration::from_secs(5))), Ok(()));
    assert!(start.elapsed() < Duration::from_secs(5));
    assert_eq!(b.write(b"x", POLL), Ok(0));
    b.clear();
    assert_eq!(b.len(), 0);
    assert_eq!(b.flush(None), Ok(()));
}

#[test]
fn flush_by_timeout() {
    let b = SyncBuffer::new(4);
    assert_eq!(b.flush(None), Ok(()));
    assert_eq!(b.write(b"ab", POLL), Ok(2));
    assert_eq!(b.flush(POLL), Ok(()));
    let limit = Duration::from_millis(50);
    let start = Instant::now();
    assert_eq!(b.flush(Some(limit)), Err(PipeError::TimedOut));
    assert!(start.elapsed() >= limit);
    assert_eq!(b.len(), 2);
    b.clear();
    assert_eq!(b.flush(Some(limit)), Ok(()));
}

#[test]
fn clear_discards_everything() {
    let b = SyncBuffer::new(4);
    assert_eq!(b.write(b"abcd", POLL), Ok(4));
    b.clear();
    assert_eq!(b.len(), 0);
    assert_eq!(b.capacity(), 4);
    assert_eq!(b.write(b"wxyz", POLL), Ok(4));
    let mut dest = [0u8; 4];
    assert_eq!(b.read(&mut dest, POLL), Ok(4));
    assert_eq!(&dest, b"wxyz");
}

#[test]
fn errors_as_io_errors() {
    assert_eq!(io_error(PipeError::TimedOut).kind(), ErrorKind::TimedOut);
    assert_eq!(io_error(PipeError::Poisoned).kind(), ErrorKind::Other);
}
