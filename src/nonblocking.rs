//! Single-byte operations in the HAL's polling style: each call makes one
//! blocking stream call, and its outcome becomes success, would-block, or
//! a hard failure.
use vstd::prelude::*;

use crate::error::SerialError;

verus! {

/// The outcome of a non-blocking HAL operation that could not complete
/// (nb's `Other(e)` or `WouldBlock`), declared with its variants.
#[verifier::external_type_specification]
#[verifier::reject_recursive_types(E)]
pub struct ExNbError<E>(nb::Error<E>);

/// Whether a stream error only says that the call should be made again:
/// the stream would have blocked, or it was interrupted.
pub open spec fn is_transient(kind: std::io::ErrorKind) -> bool {
    kind == std::io::ErrorKind::WouldBlock || kind == std::io::ErrorKind::Interrupted
}

/// What a non-blocking operation reports for a stream error of
/// classification `kind`: would-block for a transient one, else a hard
/// failure that keeps the classification.
pub open spec fn nb_error_of(kind: std::io::ErrorKind) -> nb::Error<SerialError> {
    if is_transient(kind) {
        nb::Error::WouldBlock
    } else {
        nb::Error::Other(SerialError::of(kind))
    }
}

/// What a non-blocking read returns when the stream's read of at most one
/// byte returned `outcome`, and `byte` is the first byte of its buffer after it.
pub open spec fn read_result(outcome: Result<usize, std::io::ErrorKind>, byte: u8) -> nb::Result<
    u8,
    SerialError,
> {
    match outcome {
        Ok(n) => if n > 0 {
            Ok(byte)
        } else {
            Err(nb::Error::WouldBlock)
        },
        Err(kind) => Err(nb_error_of(kind)),
    }
}

/// What a non-blocking write of one byte returns when the stream's write
/// returned `written`.
pub open spec fn write_result(written: Result<usize, std::io::ErrorKind>) -> nb::Result<
    (),
    SerialError,
> {
    match written {
        Ok(_) => Ok(()),
        Err(kind) => Err(nb_error_of(kind)),
    }
}

/// What a non-blocking flush returns when the stream's flush returned
/// `flushed`.
pub open spec fn flush_result(flushed: Result<(), std::io::ErrorKind>) -> nb::Result<
    (),
    SerialError,
> {
    match flushed {
        Ok(()) => Ok(()),
        Err(kind) => Err(nb_error_of(kind)),
    }
}

/// Translates a stream error into the error of a non-blocking operation.
pub fn io_error_to_nb(kind: std::io::ErrorKind) -> (r: nb::Error<SerialError>)
    ensures
        r == nb_error_of(kind),
{
    match kind {
        std::io::ErrorKind::WouldBlock | std::io::ErrorKind::Interrupted => nb::Error::WouldBlock,
        other => nb::Error::Other(SerialError::from(other)),
    }
}

/// The result of a non-blocking read, given the `outcome` of one
/// stream read into the one-byte `buffer`. No byte read means would-block.
pub fn read(outcome: Result<usize, std::io::ErrorKind>, buffer: [u8; 1]) -> (r: nb::Result<
    u8,
    SerialError,
>)
    ensures
        r == read_result(outcome, buffer[0]),
{
    match outcome {
        Ok(bytes_read) => {
            if bytes_read > 0 {
                Ok(buffer[0])
            } else {
                Err(nb::Error::WouldBlock)
            }
        },
        Err(kind) => Err(io_error_to_nb(kind)),
    }
}

/// The result of a non-blocking write of one byte, given the outcome
/// `written` of one stream write of that byte.
pub fn write(written: Result<usize, std::io::ErrorKind>) -> (r: nb::Result<(), SerialError>)
    ensures
        r == write_result(written),
{
    match written {
        Ok(_) => Ok(()),
        Err(kind) => Err(io_error_to_nb(kind)),
    }
}

/// The result of a non-blocking flush, given the outcome `flushed` of one
/// stream flush.
pub fn flush(flushed: Result<(), std::io::ErrorKind>) -> (r: nb::Result<(), SerialError>)
    ensures
        r == flush_result(flushed),
{
    match flushed {
        Ok(()) => Ok(()),
        Err(kind) => Err(io_error_to_nb(kind)),
    }
}

/// A transient stream error (would-block or interrupted) makes read, write
/// and flush alike return would-block, never a hard failure.
pub proof fn lemma_transient_error_would_block(kind: std::io::ErrorKind, byte: u8)
    requires
        is_transient(kind),
    ensures
        read_result(Err(kind), byte) == Err::<u8, nb::Error<SerialError>>(nb::Error::WouldBlock),
        write_result(Err(kind)) == Err::<(), nb::Error<SerialError>>(nb::Error::WouldBlock),
        flush_result(Err(kind)) == Err::<(), nb::Error<SerialError>>(nb::Error::WouldBlock),
{
}

/// Any other stream error makes read, write and flush alike return a hard
/// failure whose error keeps the stream error's classification.
pub proof fn lemma_hard_error_keeps_kind(kind: std::io::ErrorKind, byte: u8)
    requires
        !is_transient(kind),
    ensures
        read_result(Err(kind), byte) matches Err(nb::Error::Other(e)) && e@ == kind,
        write_result(Err(kind)) matches Err(nb::Error::Other(e)) && e@ == kind,
        flush_result(Err(kind)) matches Err(nb::Error::Other(e)) && e@ == kind,
{
    SerialError::lemma_of_keeps_kind(kind);
}

/// A stream read that returns no byte and no error makes the read return
/// would-block: neither a byte nor a hard failure.
pub proof fn lemma_empty_read_would_block(byte: u8)
    ensures
        read_result(Ok(0), byte) == Err::<u8, nb::Error<SerialError>>(nb::Error::WouldBlock),
{
}

/// A stream read that returns one byte and no error makes the read return
/// exactly that byte.
pub proof fn lemma_one_byte_read(byte: u8)
    ensures
        read_result(Ok(1), byte) == Ok::<u8, nb::Error<SerialError>>(byte),
{
}

} // verus!
