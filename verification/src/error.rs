//! The ways in which a transfer can fail, and how they show as I/O errors.

use vstd::prelude::*;

verus! {

/// Why a read, write or flush at a buffer did not succeed.
#[derive(Clone, Copy, Debug, PartialEq, Eq, Structural)]
pub enum PipeError {
    /// A bounded wait ran out before data or space turned up; nothing was
    /// transferred.
    TimedOut,
    /// The lock of the buffer was poisoned by a panic in another thread.
    Poisoned,
}

/// `std::io::Error`, opaque to the verifier.
#[verifier::external_type_specification]
#[verifier::external_body]
pub struct ExIoError(std::io::Error);

/// `std::io::ErrorKind`, with its variants.
#[verifier::external_type_specification]
pub struct ExIoErrorKind(std::io::ErrorKind);

/// The kind of an I/O error: what `std::io::Error::kind` returns for it.
pub uninterp spec fn kind_of(e: std::io::Error) -> std::io::ErrorKind;

/// `From<ErrorKind>` for `std::io::Error`: an error that holds just the kind.
/// Assumed: `kind` of the result is the argument.
pub assume_specification[ <std::io::Error as From<std::io::ErrorKind>>::from ](
    kind: std::io::ErrorKind,
) -> (e: std::io::Error)
    ensures
        kind_of(e) == kind,
;

/// The kind under which an error of a buffer shows in an I/O error: a wait
/// that ran out as `TimedOut`, a poisoned lock as `Other`.
pub open spec fn io_kind(e: PipeError) -> std::io::ErrorKind {
    match e {
        PipeError::TimedOut => std::io::ErrorKind::TimedOut,
        PipeError::Poisoned => std::io::ErrorKind::Other,
    }
}

/// The I/O error that stands for an error of a buffer.
pub fn io_error(e: PipeError) -> (r: std::io::Error)
    ensures
        kind_of(r) == io_kind(e),
{
    match e {
        PipeError::TimedOut => std::io::Error::from(std::io::ErrorKind::TimedOut),
        PipeError::Poisoned => std::io::Error::from(std::io::ErrorKind::Other),
    }
}

} // verus!
