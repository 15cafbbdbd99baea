//! Values of the media codec API and the decoding of what its dequeue calls return.
use crate::media_error::MediaError;
use vstd::prelude::*;

verus! {

/// Whether a codec decodes or encodes.
#[derive(Copy, Clone, Debug, PartialEq, Eq, Structural)]
pub enum MediaCodecDirection {
    Decoder,
    Encoder,
}

/// The configuration flag that makes a codec an encoder.
pub const AMEDIACODEC_CONFIGURE_FLAG_ENCODE: u32 = 1;

/// The configuration flags that a codec of the given direction is configured with.
pub fn configure_flags(direction: MediaCodecDirection) -> (r: u32)
    ensures
        direction == MediaCodecDirection::Encoder ==> r == AMEDIACODEC_CONFIGURE_FLAG_ENCODE,
        direction == MediaCodecDirection::Decoder ==> r == 0,
{
    if direction == MediaCodecDirection::Encoder {
        AMEDIACODEC_CONFIGURE_FLAG_ENCODE
    } else {
        0
    }
}

/// The raw result of a dequeue call that found no buffer within the timeout.
pub const AMEDIACODEC_INFO_TRY_AGAIN_LATER: isize = -1;

/// The raw result of a dequeue call that reports a change of the output format.
pub const AMEDIACODEC_INFO_OUTPUT_FORMAT_CHANGED: isize = -2;

/// The raw result of a dequeue call that reports that the output buffers changed.
pub const AMEDIACODEC_INFO_OUTPUT_BUFFERS_CHANGED: isize = -3;

/// What dequeuing an input buffer gave: the index of a buffer, or nothing for now.
#[derive(Copy, Clone, Debug, PartialEq, Eq, Structural)]
pub enum DequeuedInputBufferResult {
    Buffer(usize),
    TryAgainLater,
}

/// What dequeuing an output buffer gave: the index of a buffer, nothing for now, or a change of
/// the output.
#[derive(Copy, Clone, Debug, PartialEq, Eq, Structural)]
pub enum DequeuedOutputBufferInfoResult {
    Buffer(usize),
    TryAgainLater,
    OutputFormatChanged,
    OutputBuffersChanged,
}

/// Decodes the result of dequeuing an input buffer. A negative result other than
/// "try again later" must fit an error code.
pub fn dequeue_input_result(result: isize) -> (r: Result<DequeuedInputBufferResult, MediaError>)
    requires
        result >= i32::MIN,
    ensures
        result == AMEDIACODEC_INFO_TRY_AGAIN_LATER ==> r == Ok::<
            DequeuedInputBufferResult,
            MediaError,
        >(DequeuedInputBufferResult::TryAgainLater),
        result >= 0 ==> r == Ok::<DequeuedInputBufferResult, MediaError>(
            DequeuedInputBufferResult::Buffer(result as usize),
        ),
        (result < 0 && result != AMEDIACODEC_INFO_TRY_AGAIN_LATER) ==> r == Err::<
            DequeuedInputBufferResult,
            MediaError,
        >(MediaError::spec_from_code(result as i32)),
{
    if result == AMEDIACODEC_INFO_TRY_AGAIN_LATER {
        return Ok(DequeuedInputBufferResult::TryAgainLater);
    }
    match MediaError::from_status_if_negative(result) {
        Ok(index) => Ok(DequeuedInputBufferResult::Buffer(index as usize)),
        Err(e) => Err(e),
    }
}

/// Decodes the result of dequeuing an output buffer. A negative result other than the three
/// information codes must fit an error code.
pub fn dequeue_output_result(result: isize) -> (r: Result<DequeuedOutputBufferInfoResult, MediaError>)
    requires
        result >= i32::MIN,
    ensures
        result == AMEDIACODEC_INFO_TRY_AGAIN_LATER ==> r == Ok::<
            DequeuedOutputBufferInfoResult,
            MediaError,
        >(DequeuedOutputBufferInfoResult::TryAgainLater),
        result == AMEDIACODEC_INFO_OUTPUT_FORMAT_CHANGED ==> r == Ok::<
            DequeuedOutputBufferInfoResult,
            MediaError,
        >(DequeuedOutputBufferInfoResult::OutputFormatChanged),
        result == AMEDIACODEC_INFO_OUTPUT_BUFFERS_CHANGED ==> r == Ok::<
            DequeuedOutputBufferInfoResult,
            MediaError,
        >(DequeuedOutputBufferInfoResult::OutputBuffersChanged),
        result >= 0 ==> r == Ok::<DequeuedOutputBufferInfoResult, MediaError>(
            DequeuedOutputBufferInfoResult::Buffer(result as usize),
        ),
        result < AMEDIACODEC_INFO_OUTPUT_BUFFERS_CHANGED ==> r == Err::<
            DequeuedOutputBufferInfoResult,
            MediaError,
        >(MediaError::spec_from_code(result as i32)),
{
    if result == AMEDIACODEC_INFO_TRY_AGAIN_LATER {
        Ok(DequeuedOutputBufferInfoResult::TryAgainLater)
    } else if result == AMEDIACODEC_INFO_OUTPUT_FORMAT_CHANGED {
        Ok(DequeuedOutputBufferInfoResult::OutputFormatChanged)
    } else if result == AMEDIACODEC_INFO_OUTPUT_BUFFERS_CHANGED {
        Ok(DequeuedOutputBufferInfoResult::OutputBuffersChanged)
    } else {
        match MediaError::from_status_if_negative(result) {
            Ok(index) => Ok(DequeuedOutputBufferInfoResult::Buffer(index as usize)),
            Err(e) => Err(e),
        }
    }
}

/// Where the data of an output buffer lies, its presentation time and its flags.
#[derive(Copy, Clone, Debug, PartialEq, Eq, Structural)]
pub struct BufferInfo {
    offset: i32,
    size: i32,
    presentation_time_us: i64,
    flags: u32,
}

impl BufferInfo {
    pub closed spec fn spec_offset(self) -> i32 {
        self.offset
    }

    pub closed spec fn spec_size(self) -> i32 {
        self.size
    }

    pub closed spec fn spec_presentation_time_us(self) -> i64 {
        self.presentation_time_us
    }

    pub closed spec fn spec_flags(self) -> u32 {
        self.flags
    }

    /// The information of a buffer from the fields that the codec fills in.
    pub fn new(offset: i32, size: i32, presentation_time_us: i64, flags: u32) -> (r: Self)
        ensures
            r.spec_offset() == offset,
            r.spec_size() == size,
            r.spec_presentation_time_us() == presentation_time_us,
            r.spec_flags() == flags,
    {
        BufferInfo { offset, size, presentation_time_us, flags }
    }

    pub fn offset(&self) -> (r: i32)
        ensures
            r == self.spec_offset(),
    {
        self.offset
    }

    pub fn size(&self) -> (r: i32)
        ensures
            r == self.spec_size(),
    {
        self.size
    }

    pub fn presentation_time_us(&self) -> (r: i64)
        ensures
            r == self.spec_presentation_time_us(),
    {
        self.presentation_time_us
    }

    pub fn flags(&self) -> (r: u32)
        ensures
            r == self.spec_flags(),
    {
        self.flags
    }
}

/// The action code of a codec error, which tells whether the error is recoverable or
/// transient.
#[derive(Copy, Clone, Debug, PartialEq, Eq, Structural)]
pub struct ActionCode(pub i32);

/// The NDK's constants used here have the values that its headers give them.
pub proof fn lemma_ndk_constants()
    ensures
        AMEDIACODEC_CONFIGURE_FLAG_ENCODE == 1,
        AMEDIACODEC_INFO_TRY_AGAIN_LATER == -1,
        AMEDIACODEC_INFO_OUTPUT_FORMAT_CHANGED == -2,
        AMEDIACODEC_INFO_OUTPUT_BUFFERS_CHANGED == -3,
{
}

} // verus!
