//! Pixel formats of images that an image reader hands out.
use crate::media::error::{spec_ndk_media_result, MediaErrorResult, NdkMediaError};
use crate::raw::RawEnum;
use vstd::prelude::*;

verus! {

#[derive(Copy, Clone, Debug, PartialEq, Eq, Hash, Structural)]
#[allow(non_camel_case_types)]
pub enum ImageFormat {
    RGBA_8888,
    RGBX_8888,
    RGB_888,
    RGB_565,
    RGBA_FP16,
    YUV_420_888,
    JPEG,
    RAW16,
    RAW_PRIVATE,
    RAW10,
    RAW12,
    DEPTH16,
    DEPTH_POINT_CLOUD,
    PRIVATE,
    Y8,
    HEIC,
    DEPTH_JPEG,
}

impl RawEnum for ImageFormat {
    open spec fn spec_code(self) -> int {
        match self {
            ImageFormat::RGBA_8888 => 1,
            ImageFormat::RGBX_8888 => 2,
            ImageFormat::RGB_888 => 3,
            ImageFormat::RGB_565 => 4,
            ImageFormat::RGBA_FP16 => 22,
            ImageFormat::YUV_420_888 => 35,
            ImageFormat::JPEG => 256,
            ImageFormat::RAW16 => 32,
            ImageFormat::RAW_PRIVATE => 36,
            ImageFormat::RAW10 => 37,
            ImageFormat::RAW12 => 38,
            ImageFormat::DEPTH16 => 1144402265,
            ImageFormat::DEPTH_POINT_CLOUD => 257,
            ImageFormat::PRIVATE => 34,
            ImageFormat::Y8 => 538982489,
            ImageFormat::HEIC => 1212500294,
            ImageFormat::DEPTH_JPEG => 1768253795,
        }
    }

    open spec fn spec_from_code(code: int) -> Option<Self> {
        if code == 1 {
            Some(ImageFormat::RGBA_8888)
        } else if code == 2 {
            Some(ImageFormat::RGBX_8888)
        } else if code == 3 {
            Some(ImageFormat::RGB_888)
        } else if code == 4 {
            Some(ImageFormat::RGB_565)
        } else if code == 22 {
            Some(ImageFormat::RGBA_FP16)
        } else if code == 35 {
            Some(ImageFormat::YUV_420_888)
        } else if code == 256 {
            Some(ImageFormat::JPEG)
        } else if code == 32 {
            Some(ImageFormat::RAW16)
        } else if code == 36 {
            Some(ImageFormat::RAW_PRIVATE)
        } else if code == 37 {
            Some(ImageFormat::RAW10)
        } else if code == 38 {
            Some(ImageFormat::RAW12)
        } else if code == 1144402265 {
            Some(ImageFormat::DEPTH16)
        } else if code == 257 {
            Some(ImageFormat::DEPTH_POINT_CLOUD)
        } else if code == 34 {
            Some(ImageFormat::PRIVATE)
        } else if code == 538982489 {
            Some(ImageFormat::Y8)
        } else if code == 1212500294 {
            Some(ImageFormat::HEIC)
        } else if code == 1768253795 {
            Some(ImageFormat::DEPTH_JPEG)
        } else {
            None
        }
    }

    fn try_from_code(code: i64) -> (r: Option<Self>) {
        match code {
            1 => Some(ImageFormat::RGBA_8888),
            2 => Some(ImageFormat::RGBX_8888),
            3 => Some(ImageFormat::RGB_888),
            4 => Some(ImageFormat::RGB_565),
            22 => Some(ImageFormat::RGBA_FP16),
            35 => Some(ImageFormat::YUV_420_888),
            256 => Some(ImageFormat::JPEG),
            32 => Some(ImageFormat::RAW16),
            36 => Some(ImageFormat::RAW_PRIVATE),
            37 => Some(ImageFormat::RAW10),
            38 => Some(ImageFormat::RAW12),
            1144402265 => Some(ImageFormat::DEPTH16),
            257 => Some(ImageFormat::DEPTH_POINT_CLOUD),
            34 => Some(ImageFormat::PRIVATE),
            538982489 => Some(ImageFormat::Y8),
            1212500294 => Some(ImageFormat::HEIC),
            1768253795 => Some(ImageFormat::DEPTH_JPEG),
            _ => None,
        }
    }

    proof fn lemma_code_round_trip(self) {
    }

    proof fn lemma_from_code_inverse(code: int) {
    }
}

impl ImageFormat {
    /// Each variant's code is the value that the NDK's headers give its constant, so decoding
    /// that value gives the variant and encoding the variant gives the value. The constants are
    /// the `AIMAGE_FORMAT_*` ones.
    pub proof fn lemma_ndk_codes()
        ensures
            ImageFormat::RGBA_8888.spec_code() == 1,
            ImageFormat::RGBX_8888.spec_code() == 2,
            ImageFormat::RGB_888.spec_code() == 3,
            ImageFormat::RGB_565.spec_code() == 4,
            ImageFormat::RGBA_FP16.spec_code() == 22,
            ImageFormat::YUV_420_888.spec_code() == 35,
            ImageFormat::JPEG.spec_code() == 256,
            ImageFormat::RAW16.spec_code() == 32,
            ImageFormat::RAW_PRIVATE.spec_code() == 36,
            ImageFormat::RAW10.spec_code() == 37,
            ImageFormat::RAW12.spec_code() == 38,
            ImageFormat::DEPTH16.spec_code() == 1144402265,
            ImageFormat::DEPTH_POINT_CLOUD.spec_code() == 257,
            ImageFormat::PRIVATE.spec_code() == 34,
            ImageFormat::Y8.spec_code() == 538982489,
            ImageFormat::HEIC.spec_code() == 1212500294,
            ImageFormat::DEPTH_JPEG.spec_code() == 1768253795,
            ImageFormat::spec_from_code(1) == Some(ImageFormat::RGBA_8888),
            ImageFormat::spec_from_code(2) == Some(ImageFormat::RGBX_8888),
            ImageFormat::spec_from_code(3) == Some(ImageFormat::RGB_888),
            ImageFormat::spec_from_code(4) == Some(ImageFormat::RGB_565),
            ImageFormat::spec_from_code(22) == Some(ImageFormat::RGBA_FP16),
            ImageFormat::spec_from_code(35) == Some(ImageFormat::YUV_420_888),
            ImageFormat::spec_from_code(256) == Some(ImageFormat::JPEG),
            ImageFormat::spec_from_code(32) == Some(ImageFormat::RAW16),
            ImageFormat::spec_from_code(36) == Some(ImageFormat::RAW_PRIVATE),
            ImageFormat::spec_from_code(37) == Some(ImageFormat::RAW10),
            ImageFormat::spec_from_code(38) == Some(ImageFormat::RAW12),
            ImageFormat::spec_from_code(1144402265) == Some(ImageFormat::DEPTH16),
            ImageFormat::spec_from_code(257) == Some(ImageFormat::DEPTH_POINT_CLOUD),
            ImageFormat::spec_from_code(34) == Some(ImageFormat::PRIVATE),
            ImageFormat::spec_from_code(538982489) == Some(ImageFormat::Y8),
            ImageFormat::spec_from_code(1212500294) == Some(ImageFormat::HEIC),
            ImageFormat::spec_from_code(1768253795) == Some(ImageFormat::DEPTH_JPEG),
    {
    }
}

impl ImageFormat {
    /// The variant that the raw code `value` stands for, if any.
    pub fn try_from_raw(value: u32) -> (r: Option<Self>)
        ensures
            r == Self::spec_from_code(value as int),
    {
        match value {
            1 => Some(ImageFormat::RGBA_8888),
            2 => Some(ImageFormat::RGBX_8888),
            3 => Some(ImageFormat::RGB_888),
            4 => Some(ImageFormat::RGB_565),
            22 => Some(ImageFormat::RGBA_FP16),
            35 => Some(ImageFormat::YUV_420_888),
            256 => Some(ImageFormat::JPEG),
            32 => Some(ImageFormat::RAW16),
            36 => Some(ImageFormat::RAW_PRIVATE),
            37 => Some(ImageFormat::RAW10),
            38 => Some(ImageFormat::RAW12),
            1144402265 => Some(ImageFormat::DEPTH16),
            257 => Some(ImageFormat::DEPTH_POINT_CLOUD),
            34 => Some(ImageFormat::PRIVATE),
            538982489 => Some(ImageFormat::Y8),
            1212500294 => Some(ImageFormat::HEIC),
            1768253795 => Some(ImageFormat::DEPTH_JPEG),
            _ => None,
        }
    }

    /// The raw code of this variant.
    pub fn into_raw(self) -> (r: u32)
        ensures
            r as int == self.spec_code(),
    {
        match self {
            ImageFormat::RGBA_8888 => 1,
            ImageFormat::RGBX_8888 => 2,
            ImageFormat::RGB_888 => 3,
            ImageFormat::RGB_565 => 4,
            ImageFormat::RGBA_FP16 => 22,
            ImageFormat::YUV_420_888 => 35,
            ImageFormat::JPEG => 256,
            ImageFormat::RAW16 => 32,
            ImageFormat::RAW_PRIVATE => 36,
            ImageFormat::RAW10 => 37,
            ImageFormat::RAW12 => 38,
            ImageFormat::DEPTH16 => 1144402265,
            ImageFormat::DEPTH_POINT_CLOUD => 257,
            ImageFormat::PRIVATE => 34,
            ImageFormat::Y8 => 538982489,
            ImageFormat::HEIC => 1212500294,
            ImageFormat::DEPTH_JPEG => 1768253795,
        }
    }
}

/// What an acquire call of an image reader reports, from the status that it returned: `true`
/// where an image was acquired, `false` where no buffer was available, and otherwise the error
/// that the status stands for.
pub fn acquire_status_result(status: i32) -> (r: Result<bool, NdkMediaError>)
    ensures
        status == 0 ==> r == Ok::<bool, NdkMediaError>(true),
        spec_ndk_media_result(status) == Err::<(), NdkMediaError>(
            NdkMediaError::ErrorResult(MediaErrorResult::ImgreaderNoBufferAvailable),
        ) ==> r == Ok::<bool, NdkMediaError>(false),
        r matches Err(e) ==> spec_ndk_media_result(status) == Err::<(), NdkMediaError>(e)
            && e != NdkMediaError::ErrorResult(MediaErrorResult::ImgreaderNoBufferAvailable),
        match spec_ndk_media_result(status) {
            Err(e) => e != NdkMediaError::ErrorResult(MediaErrorResult::ImgreaderNoBufferAvailable)
                ==> r == Err::<bool, NdkMediaError>(e),
            Ok(()) => true,
        },
{
    match NdkMediaError::from_status(status) {
        Ok(()) => Ok(true),
        Err(NdkMediaError::ErrorResult(MediaErrorResult::ImgreaderNoBufferAvailable)) => Ok(false),
        Err(e) => Err(e),
    }
}

} // verus!
