//! Decoding of the `<errno.h>` status codes that many NDK calls return.
use vstd::prelude::*;

verus! {

/// An operating-system error, identified by its `errno` code.
#[derive(Copy, Clone, Debug, PartialEq, Eq, Structural)]
pub struct OsError {
    pub raw_os_error: i32,
}

/// Turns a standard `<errno.h>` status, as Android's `Errors.h` rewraps it, into a result: zero
/// is success with `value`, and a negative status `-e` is the operating-system error `e`.
/// A status is never positive.
pub fn status_to_io_result<T>(status: i32, value: T) -> (r: Result<T, OsError>)
    requires
        i32::MIN < status <= 0,
    ensures
        status == 0 ==> r == Ok::<T, OsError>(value),
        status < 0 ==> r == Err::<T, OsError>(OsError { raw_os_error: (-status) as i32 }),
{
    if status == 0 {
        Ok(value)
    } else {
        Err(OsError { raw_os_error: -status })
    }
}

} // verus!
