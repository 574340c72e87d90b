//! The byte-buffer write helper.
use vstd::prelude::*;
use crate::error::BridgeError;

verus! {

/// What a write of `path` reports, given the error text of the write itself
/// (`Err(cause)`) or its success. Whether `path` existed beforehand plays no
/// part: the write is always attempted and only its own failure is reported.
pub fn write_outcome(path: String, io_result: Result<(), String>) -> (r: Result<(), BridgeError>)
    ensures
        io_result is Ok ==> r is Ok,
        io_result is Err ==> (r matches Err(BridgeError::IoFailure { path: p, cause: c })
            && p == path && c == io_result->Err_0),
{
    match io_result {
        Ok(()) => Ok(()),
        Err(cause) => Err(BridgeError::IoFailure { path, cause }),
    }
}

} // verus!
