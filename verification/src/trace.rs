//! Tracing: the names that sections and counters are given, checked before they are passed on.
use crate::system_properties::{
    find_first_nul, lemma_nul_terminated_round_trip, spec_from_bytes_with_nul, spec_is_first_nul,
    spec_nul_free, NulError as ValueNulError,
};
use vstd::prelude::*;
use vstd::string::StringSliceAdditionalSpecFns;

verus! {

/// Unique identifier for distinguishing simultaneous events.
#[derive(Copy, Clone, Debug, PartialEq, Eq, Structural)]
pub struct Cookie(pub i32);

/// A name that holds a NUL, at this position, and so cannot be passed on as a C string.
#[derive(Copy, Clone, Debug, PartialEq, Eq, Structural)]
pub struct NulError(pub usize);

/// The C string that a section or counter name is passed on as: its bytes and a terminating
/// NUL, where the name holds no NUL itself.
pub fn trace_name(name: &str) -> (r: Result<Vec<u8>, NulError>)
    ensures
        match r {
            Ok(v) => spec_nul_free(name.spec_bytes()) && v@ == name.spec_bytes().push(0u8),
            Err(NulError(p)) => spec_is_first_nul(name.spec_bytes(), p as int),
        },
        r matches Ok(v) ==> spec_from_bytes_with_nul(v@) == Ok::<Seq<u8>, ValueNulError>(
            name.spec_bytes(),
        ),
{
    let bytes = name.as_bytes();
    match find_first_nul(bytes) {
        Some(p) => Err(NulError(p)),
        None => {
            let mut out: Vec<u8> = Vec::new();
            let mut i: usize = 0;
            while i < bytes.len()
                invariant
                    i <= bytes@.len(),
                    out@ == bytes@.take(i as int),
                decreases bytes@.len() - i,
            {
                out.push(bytes[i]);
                i += 1;
                assert(out@ =~= bytes@.take(i as int));
            }
            out.push(0u8);
            assert(bytes@.take(i as int) =~= bytes@);
            proof {
                lemma_nul_terminated_round_trip(bytes@);
            }
            Ok(out)
        },
    }
}

} // verus!
