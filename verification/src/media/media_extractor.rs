//! Values of the media extractor: sample flags, seek modes and the decoding of what its calls
//! report.
use crate::raw::RawEnum;
use vstd::prelude::*;

verus! {

/// Where a seek lands relative to sync samples.
#[derive(Copy, Clone, Debug, PartialEq, Eq, Hash, Structural)]
pub enum SeekMode {
    PreviousSync,
    NextSync,
    ClosestSync,
}

impl RawEnum for SeekMode {
    open spec fn spec_code(self) -> int {
        match self {
            SeekMode::PreviousSync => 0,
            SeekMode::NextSync => 1,
            SeekMode::ClosestSync => 2,
        }
    }

    open spec fn spec_from_code(code: int) -> Option<Self> {
        if code == 0 {
            Some(SeekMode::PreviousSync)
        } else if code == 1 {
            Some(SeekMode::NextSync)
        } else if code == 2 {
            Some(SeekMode::ClosestSync)
        } else {
            None
        }
    }

    fn try_from_code(code: i64) -> (r: Option<Self>) {
        match code {
            0 => Some(SeekMode::PreviousSync),
            1 => Some(SeekMode::NextSync),
            2 => Some(SeekMode::ClosestSync),
            _ => None,
        }
    }

    proof fn lemma_code_round_trip(self) {
    }

    proof fn lemma_from_code_inverse(code: int) {
    }
}

impl SeekMode {
    /// Each variant's code is the value that the NDK's headers give its constant, so decoding
    /// that value gives the variant and encoding the variant gives the value. The constants are
    /// the `AMEDIAEXTRACTOR_SEEK_*` ones.
    pub proof fn lemma_ndk_codes()
        ensures
            SeekMode::PreviousSync.spec_code() == 0,
            SeekMode::NextSync.spec_code() == 1,
            SeekMode::ClosestSync.spec_code() == 2,
            SeekMode::spec_from_code(0) == Some(SeekMode::PreviousSync),
            SeekMode::spec_from_code(1) == Some(SeekMode::NextSync),
            SeekMode::spec_from_code(2) == Some(SeekMode::ClosestSync),
    {
    }
}

impl SeekMode {
    /// The variant that the raw code `value` stands for, if any.
    pub fn try_from_raw(value: u32) -> (r: Option<Self>)
        ensures
            r == Self::spec_from_code(value as int),
    {
        match value {
            0 => Some(SeekMode::PreviousSync),
            1 => Some(SeekMode::NextSync),
            2 => Some(SeekMode::ClosestSync),
            _ => None,
        }
    }

    /// The raw code of this variant.
    pub fn into_raw(self) -> (r: u32)
        ensures
            r as int == self.spec_code(),
    {
        match self {
            SeekMode::PreviousSync => 0,
            SeekMode::NextSync => 1,
            SeekMode::ClosestSync => 2,
        }
    }
}
/// The bit of a sample that is a sync sample.
pub const AMEDIAEXTRACTOR_SAMPLE_FLAG_SYNC: u32 = 1;

/// The bit of a sample that is encrypted.
pub const AMEDIAEXTRACTOR_SAMPLE_FLAG_ENCRYPTED: u32 = 2;

/// All bits that name a sample flag.
pub const ALL_SAMPLE_FLAGS: u32 = 3;

/// The flags of a sample, as a set of bits of which two are named.
#[derive(Clone, Copy, Debug, Hash, PartialEq, Eq, PartialOrd, Ord, Structural)]
pub struct MediaExtractorSampleFlags(u32);

impl MediaExtractorSampleFlags {
    /// The raw bits of the flags.
    pub closed spec fn view(self) -> u32 {
        self.0
    }

    /// Flags are determined by their raw bits.
    pub proof fn lemma_flags_from_bits(self, other: MediaExtractorSampleFlags)
        ensures
            self@ == other@ ==> self == other,
    {
    }

    /// The flag of a sync sample.
    pub fn sync() -> (r: Self)
        ensures
            r@ == AMEDIAEXTRACTOR_SAMPLE_FLAG_SYNC,
    {
        MediaExtractorSampleFlags(AMEDIAEXTRACTOR_SAMPLE_FLAG_SYNC)
    }

    /// The flag of an encrypted sample.
    pub fn encrypted() -> (r: Self)
        ensures
            r@ == AMEDIAEXTRACTOR_SAMPLE_FLAG_ENCRYPTED,
    {
        MediaExtractorSampleFlags(AMEDIAEXTRACTOR_SAMPLE_FLAG_ENCRYPTED)
    }

    /// No flag.
    pub fn empty() -> (r: Self)
        ensures
            r@ == 0,
    {
        MediaExtractorSampleFlags(0)
    }

    /// Both named flags.
    pub fn all() -> (r: Self)
        ensures
            r@ == ALL_SAMPLE_FLAGS,
    {
        MediaExtractorSampleFlags(ALL_SAMPLE_FLAGS)
    }

    /// The raw bits of the flags.
    pub fn bits(&self) -> (r: u32)
        ensures
            r == self@,
    {
        self.0
    }

    /// The flags with exactly the given bits, named or not.
    pub fn from_bits_retain(bits: u32) -> (r: Self)
        ensures
            r@ == bits,
    {
        MediaExtractorSampleFlags(bits)
    }

    /// The flags with the given bits, where every bit names a flag.
    pub fn from_bits(bits: u32) -> (r: Option<Self>)
        ensures
            bits & !ALL_SAMPLE_FLAGS == 0 ==> (r matches Some(f) && f@ == bits),
            bits & !ALL_SAMPLE_FLAGS != 0 ==> r is None,
    {
        if bits & !ALL_SAMPLE_FLAGS == 0 {
            Some(MediaExtractorSampleFlags(bits))
        } else {
            None
        }
    }

    /// The flags with the named bits among the given bits.
    pub fn from_bits_truncate(bits: u32) -> (r: Self)
        ensures
            r@ == bits & ALL_SAMPLE_FLAGS,
    {
        MediaExtractorSampleFlags(bits & ALL_SAMPLE_FLAGS)
    }

    /// Whether no bit is set.
    pub fn is_empty(&self) -> (r: bool)
        ensures
            r == (self@ == 0),
    {
        self.0 == 0
    }

    /// Whether both named flags are set.
    pub fn is_all(&self) -> (r: bool)
        ensures
            r == (self@ & ALL_SAMPLE_FLAGS == ALL_SAMPLE_FLAGS),
    {
        self.0 & ALL_SAMPLE_FLAGS == ALL_SAMPLE_FLAGS
    }

    /// Whether every bit of `other` is set here.
    pub fn contains(&self, other: Self) -> (r: bool)
        ensures
            r == (self@ & other@ == other@),
    {
        self.0 & other.0 == other.0
    }

    /// Whether some bit of `other` is set here.
    pub fn intersects(&self, other: Self) -> (r: bool)
        ensures
            r == (self@ & other@ != 0),
    {
        self.0 & other.0 != 0
    }

    /// The bits set in either.
    pub fn union(self, other: Self) -> (r: Self)
        ensures
            r@ == self@ | other@,
    {
        MediaExtractorSampleFlags(self.0 | other.0)
    }

    /// The bits set in both.
    pub fn intersection(self, other: Self) -> (r: Self)
        ensures
            r@ == self@ & other@,
    {
        MediaExtractorSampleFlags(self.0 & other.0)
    }

    /// The bits set here and not in `other`.
    pub fn difference(self, other: Self) -> (r: Self)
        ensures
            r@ == self@ & !other@,
    {
        MediaExtractorSampleFlags(self.0 & !other.0)
    }

    /// The bits set in exactly one of the two.
    pub fn symmetric_difference(self, other: Self) -> (r: Self)
        ensures
            r@ == self@ ^ other@,
    {
        MediaExtractorSampleFlags(self.0 ^ other.0)
    }

    /// The named flags that are not set here.
    pub fn complement(self) -> (r: Self)
        ensures
            r@ == !self@ & ALL_SAMPLE_FLAGS,
    {
        MediaExtractorSampleFlags(!self.0 & ALL_SAMPLE_FLAGS)
    }

    /// Sets the bits of `other`.
    pub fn insert(&mut self, other: Self)
        ensures
            final(self)@ == old(self)@ | other@,
    {
        self.0 = self.0 | other.0;
    }

    /// Clears the bits of `other`.
    pub fn remove(&mut self, other: Self)
        ensures
            final(self)@ == old(self)@ & !other@,
    {
        self.0 = self.0 & !other.0;
    }

    /// Flips the bits of `other`.
    pub fn toggle(&mut self, other: Self)
        ensures
            final(self)@ == old(self)@ ^ other@,
    {
        self.0 = self.0 ^ other.0;
    }
}

/// The set operations on sample flags behave as on sets of bits: a union contains both
/// operands, an intersection is contained in both, a difference shares no bit with what was
/// taken away, and inserting then removing a flag that was not set restores the flags.
pub proof fn lemma_sample_flags_set_laws(a: MediaExtractorSampleFlags, b: MediaExtractorSampleFlags)
    ensures
        (a@ | b@) & a@ == a@,
        (a@ | b@) & b@ == b@,
        a@ & (a@ & b@) == a@ & b@,
        b@ & (a@ & b@) == a@ & b@,
        (a@ & !b@) & b@ == 0,
        a@ & b@ == 0 ==> (a@ | b@) & !b@ == a@,
        !(!a@ & ALL_SAMPLE_FLAGS) & ALL_SAMPLE_FLAGS == a@ & ALL_SAMPLE_FLAGS,
{
    let x = a@;
    let y = b@;
    assert((x | y) & x == x) by (bit_vector);
    assert((x | y) & y == y) by (bit_vector);
    assert(x & (x & y) == x & y) by (bit_vector);
    assert(y & (x & y) == x & y) by (bit_vector);
    assert((x & !y) & y == 0) by (bit_vector);
    assert(x & y == 0 ==> (x | y) & !y == x) by (bit_vector);
    assert(!(!x & 3u32) & 3u32 == x & 3u32) by (bit_vector);
}

/// The number of bytes that reading sample data gave, or `None` where no sample is left.
pub fn read_sample_data_result(status: isize) -> (r: Option<usize>)
    requires
        status >= -1,
    ensures
        status == -1 ==> r is None,
        status >= 0 ==> r == Some(status as usize),
{
    if status == -1 {
        None
    } else {
        Some(status as usize)
    }
}

/// The flags of the current sample, or `None` where there is no sample, which the extractor
/// reports as all bits set.
pub fn sample_flags_from_raw(flags: u32) -> (r: Option<MediaExtractorSampleFlags>)
    ensures
        flags == u32::MAX ==> r is None,
        flags != u32::MAX ==> (r matches Some(f) && f@ == flags),
{
    if flags == u32::MAX {
        None
    } else {
        Some(MediaExtractorSampleFlags::from_bits_retain(flags))
    }
}

/// The track of the current sample, or `None` where there is no sample.
pub fn sample_track_index_from_raw(status: i32) -> (r: Option<u32>)
    requires
        status >= -1,
    ensures
        status == -1 ==> r is None,
        status >= 0 ==> r == Some(status as u32),
{
    if status == -1 {
        None
    } else {
        Some(status as u32)
    }
}

/// A time in microseconds that the extractor reports (the current sample time, the cached
/// duration), or `None` where there is none.
pub fn micros_from_raw(micros: i64) -> (r: Option<u64>)
    requires
        micros >= -1,
    ensures
        micros == -1 ==> r is None,
        micros >= 0 ==> r == Some(micros as u64),
{
    if micros == -1 {
        None
    } else {
        Some(micros as u64)
    }
}

/// The size of the current sample, or `None` where there is no sample.
pub fn sample_size_from_raw(size: i64) -> (r: Option<usize>)
    requires
        size >= -1,
        size <= usize::MAX,
    ensures
        size == -1 ==> r is None,
        size >= 0 ==> r == Some(size as usize),
{
    if size == -1 {
        None
    } else {
        Some(size as usize)
    }
}

/// The offset that a data source is asked about, where `-1` asks for the available size
/// without an offset.
pub fn available_size_offset(offset: i64) -> (r: Option<usize>)
    requires
        offset >= -1,
        offset <= usize::MAX,
    ensures
        offset == -1 ==> r is None,
        offset >= 0 ==> r == Some(offset as usize),
{
    if offset == -1 {
        None
    } else {
        Some(offset as usize)
    }
}

/// The value that a data source callback returns for an optional size: `-1` for none, and the
/// size taken as a signed number (wrapping around above `isize::MAX`) otherwise.
pub fn size_to_status(size: Option<usize>) -> (r: isize)
    ensures
        size is None ==> r == -1,
        size matches Some(s) ==> (s <= isize::MAX ==> r == s),
        size matches Some(s) ==> r == #[verifier::truncate] (s as isize),
{
    match size {
        None => -1,
        Some(s) => #[verifier::truncate] (s as isize),
    }
}

/// The offset and length that a file range `start..end` is passed as; the range must not run
/// backwards, and its start and its length must each fit 64 bits.
pub fn fd_range(start: usize, end: usize) -> (r: (i64, i64))
    requires
        start <= end,
        start <= i64::MAX,
        end - start <= i64::MAX,
    ensures
        r.0 == start,
        r.1 == end - start,
{
    (start as i64, (end - start) as i64)
}

/// The NDK's constants used here have the values that its headers give them.
pub proof fn lemma_ndk_constants()
    ensures
        AMEDIAEXTRACTOR_SAMPLE_FLAG_SYNC == 1,
        AMEDIAEXTRACTOR_SAMPLE_FLAG_ENCRYPTED == 2,
        ALL_SAMPLE_FLAGS == 3,
{
}

} // verus!
