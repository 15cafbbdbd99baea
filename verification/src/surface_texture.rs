//! Status decoding of the surface texture calls.
use crate::posix::PosixError;
use vstd::prelude::*;

verus! {

/// The result of a surface texture call that returns a POSIX status: zero is success, and any
/// other status is kept in the error.
pub fn status_to_result(status: i32) -> (r: Result<(), PosixError>)
    ensures
        status == 0 ==> r == Ok::<(), PosixError>(()),
        status != 0 ==> r == Err::<(), PosixError>(PosixError(status)),
{
    if status == 0 {
        Ok(())
    } else {
        Err(PosixError(status))
    }
}

} // verus!
