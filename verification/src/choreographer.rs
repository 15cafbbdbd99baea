//! Values handed to the choreographer.
use vstd::prelude::*;

verus! {

/// The delay in milliseconds that a delayed frame callback is posted with; it must fit the
/// 32-bit argument.
pub fn delay_ms(millis: u128) -> (r: u32)
    requires
        millis <= u32::MAX,
    ensures
        r == millis,
{
    millis as u32
}

} // verus!
