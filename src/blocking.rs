//! Multi-byte blocking write and flush: all or fail, with the stream's
//! error passed on in its classification.
use vstd::prelude::*;

use crate::error::SerialError;

verus! {

/// What a blocking operation returns when the stream's call returned
/// `outcome`: success, or a hard failure that keeps the classification.
pub open spec fn blocking_result(outcome: Result<(), std::io::ErrorKind>) -> Result<
    (),
    SerialError,
> {
    match outcome {
        Ok(()) => Ok(()),
        Err(kind) => Err(SerialError::of(kind)),
    }
}

/// The result of a blocking write of a whole buffer, given the outcome
/// `written` of the stream's write of all of it.
pub fn write(written: Result<(), std::io::ErrorKind>) -> (r: Result<(), SerialError>)
    ensures
        r == blocking_result(written),
{
    match written {
        Ok(()) => Ok(()),
        Err(kind) => Err(SerialError::from(kind)),
    }
}

/// The result of a blocking flush, given the outcome `flushed` of the
/// stream's flush.
pub fn flush(flushed: Result<(), std::io::ErrorKind>) -> (r: Result<(), SerialError>)
    ensures
        r == blocking_result(flushed),
{
    match flushed {
        Ok(()) => Ok(()),
        Err(kind) => Err(SerialError::from(kind)),
    }
}

/// A blocking operation is all or fail: a stream call that succeeds gives
/// plain success, one that fails (also after part of the buffer went out)
/// gives a hard failure that keeps the stream error's classification.
pub proof fn lemma_all_or_fail(kind: std::io::ErrorKind)
    ensures
        blocking_result(Ok(())) == Ok::<(), SerialError>(()),
        blocking_result(Err(kind)) matches Err(e) && e@ == kind,
{
    SerialError::lemma_of_keeps_kind(kind);
}

} // verus!
