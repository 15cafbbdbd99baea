//! Enumerations that stand for the numeric codes of the NDK.
use vstd::prelude::*;

verus! {

/// An enumeration each of whose variants stands for one numeric code, as the NDK's C headers
/// define it.
///
/// The two proof functions are the laws that make the conversion faithful: turning a variant into
/// its code and back gives the same variant, and a code that is accepted is the code of the
/// variant that it gives.
pub trait RawEnum: Sized {
    /// The numeric code of a variant.
    spec fn spec_code(self) -> int;

    /// The variant that `code` stands for, or `None` where no variant does.
    spec fn spec_from_code(code: int) -> Option<Self>;

    /// The variant that `code` stands for, or `None` where no variant does.
    fn try_from_code(code: i64) -> (r: Option<Self>)
        ensures
            r == Self::spec_from_code(code as int),
    ;

    /// Converting a variant into its code and back gives the same variant.
    proof fn lemma_code_round_trip(self)
        ensures
            Self::spec_from_code(self.spec_code()) == Some(self),
    ;

    /// A code that is accepted is the code of the variant that it gives.
    proof fn lemma_from_code_inverse(code: int)
        ensures
            Self::spec_from_code(code) matches Some(e) ==> e.spec_code() == code,
    ;
}

} // verus!
