//! The error of calls that return a POSIX status.
use vstd::prelude::*;

verus! {

/// A failed POSIX status, as the call returned it.
#[derive(Copy, Clone, Debug, PartialEq, Eq, Structural)]
pub struct PosixError(pub i32);

} // verus!
