//! Values of the bitmap API: formats, statuses, descriptions and flags.
use crate::raw::RawEnum;
use vstd::prelude::*;

verus! {

#[derive(Copy, Clone, Debug, PartialEq, Eq, Hash, Structural)]
#[allow(non_camel_case_types)]
pub enum BitmapFormat {
    NONE,
    RGBA_8888,
    RGB_565,
    RGBA_4444,
    A_8,
    RGBA_F16,
    RGBA_1010102,
}

impl RawEnum for BitmapFormat {
    open spec fn spec_code(self) -> int {
        match self {
            BitmapFormat::NONE => 0,
            BitmapFormat::RGBA_8888 => 1,
            BitmapFormat::RGB_565 => 4,
            BitmapFormat::RGBA_4444 => 7,
            BitmapFormat::A_8 => 8,
            BitmapFormat::RGBA_F16 => 9,
            BitmapFormat::RGBA_1010102 => 10,
        }
    }

    open spec fn spec_from_code(code: int) -> Option<Self> {
        if code == 0 {
            Some(BitmapFormat::NONE)
        } else if code == 1 {
            Some(BitmapFormat::RGBA_8888)
        } else if code == 4 {
            Some(BitmapFormat::RGB_565)
        } else if code == 7 {
            Some(BitmapFormat::RGBA_4444)
        } else if code == 8 {
            Some(BitmapFormat::A_8)
        } else if code == 9 {
            Some(BitmapFormat::RGBA_F16)
        } else if code == 10 {
            Some(BitmapFormat::RGBA_1010102)
        } else {
            None
        }
    }

    fn try_from_code(code: i64) -> (r: Option<Self>) {
        match code {
            0 => Some(BitmapFormat::NONE),
            1 => Some(BitmapFormat::RGBA_8888),
            4 => Some(BitmapFormat::RGB_565),
            7 => Some(BitmapFormat::RGBA_4444),
            8 => Some(BitmapFormat::A_8),
            9 => Some(BitmapFormat::RGBA_F16),
            10 => Some(BitmapFormat::RGBA_1010102),
            _ => None,
        }
    }

    proof fn lemma_code_round_trip(self) {
    }

    proof fn lemma_from_code_inverse(code: int) {
    }
}

impl BitmapFormat {
    /// Each variant's code is the value that the NDK's headers give its constant, so decoding
    /// that value gives the variant and encoding the variant gives the value. The constants are
    /// the `ANDROID_BITMAP_FORMAT_*` ones.
    pub proof fn lemma_ndk_codes()
        ensures
            BitmapFormat::NONE.spec_code() == 0,
            BitmapFormat::RGBA_8888.spec_code() == 1,
            BitmapFormat::RGB_565.spec_code() == 4,
            BitmapFormat::RGBA_4444.spec_code() == 7,
            BitmapFormat::A_8.spec_code() == 8,
            BitmapFormat::RGBA_F16.spec_code() == 9,
            BitmapFormat::RGBA_1010102.spec_code() == 10,
            BitmapFormat::spec_from_code(0) == Some(BitmapFormat::NONE),
            BitmapFormat::spec_from_code(1) == Some(BitmapFormat::RGBA_8888),
            BitmapFormat::spec_from_code(4) == Some(BitmapFormat::RGB_565),
            BitmapFormat::spec_from_code(7) == Some(BitmapFormat::RGBA_4444),
            BitmapFormat::spec_from_code(8) == Some(BitmapFormat::A_8),
            BitmapFormat::spec_from_code(9) == Some(BitmapFormat::RGBA_F16),
            BitmapFormat::spec_from_code(10) == Some(BitmapFormat::RGBA_1010102),
    {
    }
}

impl BitmapFormat {
    /// The variant that the raw code `value` stands for, if any.
    pub fn try_from_raw(value: u32) -> (r: Option<Self>)
        ensures
            r == Self::spec_from_code(value as int),
    {
        match value {
            0 => Some(BitmapFormat::NONE),
            1 => Some(BitmapFormat::RGBA_8888),
            4 => Some(BitmapFormat::RGB_565),
            7 => Some(BitmapFormat::RGBA_4444),
            8 => Some(BitmapFormat::A_8),
            9 => Some(BitmapFormat::RGBA_F16),
            10 => Some(BitmapFormat::RGBA_1010102),
            _ => None,
        }
    }

    /// The raw code of this variant.
    pub fn into_raw(self) -> (r: u32)
        ensures
            r as int == self.spec_code(),
    {
        match self {
            BitmapFormat::NONE => 0,
            BitmapFormat::RGBA_8888 => 1,
            BitmapFormat::RGB_565 => 4,
            BitmapFormat::RGBA_4444 => 7,
            BitmapFormat::A_8 => 8,
            BitmapFormat::RGBA_F16 => 9,
            BitmapFormat::RGBA_1010102 => 10,
        }
    }
}
/// Errors of the bitmap calls.
#[derive(Clone, Copy, Debug, PartialEq, Eq, Structural)]
pub enum BitmapError {
    Unknown,
    AllocationFailed,
    BadParameter,
    JniException,
}

/// The raw status of a bitmap call that succeeded.
pub const ANDROID_BITMAP_RESULT_SUCCESS: i32 = 0;

/// The raw status of a failed allocation.
pub const ANDROID_BITMAP_RESULT_ALLOCATION_FAILED: i32 = -3;

/// The raw status of a bad parameter.
pub const ANDROID_BITMAP_RESULT_BAD_PARAMETER: i32 = -1;

/// The raw status of a pending JNI exception.
pub const ANDROID_BITMAP_RESULT_JNI_EXCEPTION: i32 = -2;

/// The result that the status of a bitmap call stands for.
pub open spec fn spec_bitmap_result(status: i32) -> Result<(), BitmapError> {
    if status == ANDROID_BITMAP_RESULT_SUCCESS {
        Ok(())
    } else if status == ANDROID_BITMAP_RESULT_ALLOCATION_FAILED {
        Err(BitmapError::AllocationFailed)
    } else if status == ANDROID_BITMAP_RESULT_BAD_PARAMETER {
        Err(BitmapError::BadParameter)
    } else if status == ANDROID_BITMAP_RESULT_JNI_EXCEPTION {
        Err(BitmapError::JniException)
    } else {
        Err(BitmapError::Unknown)
    }
}

impl BitmapError {
    /// Turns the status of a bitmap call into a result.
    pub fn from_status(status: i32) -> (r: Result<(), BitmapError>)
        ensures
            r == spec_bitmap_result(status),
    {
        if status == ANDROID_BITMAP_RESULT_SUCCESS {
            Ok(())
        } else if status == ANDROID_BITMAP_RESULT_ALLOCATION_FAILED {
            Err(BitmapError::AllocationFailed)
        } else if status == ANDROID_BITMAP_RESULT_BAD_PARAMETER {
            Err(BitmapError::BadParameter)
        } else if status == ANDROID_BITMAP_RESULT_JNI_EXCEPTION {
            Err(BitmapError::JniException)
        } else {
            Err(BitmapError::Unknown)
        }
    }
}

/// Possible values of the alpha bits of `AndroidBitmapInfoFlags`.
#[derive(Clone, Copy, Debug, PartialEq, Eq, Structural)]
pub enum AndroidBitmapInfoFlagsAlpha {
    /// Pixel components are premultiplied by alpha.
    Premultiplied,
    /// Pixels are opaque.
    Opaque,
    /// Pixel components are independent of alpha.
    Unpremultiplied,
}

/// The mask of the alpha bits in the bitmap flags.
pub const ANDROID_BITMAP_FLAGS_ALPHA_MASK: u32 = 3;

/// The bit that marks a bitmap backed by a hardware buffer.
pub const ANDROID_BITMAP_FLAGS_IS_HARDWARE: u32 = 0x8000_0000;

/// Bitfield containing information about the bitmap.
#[derive(Clone, Copy, PartialEq, Eq, Hash, Structural)]
pub struct AndroidBitmapInfoFlags(u32);

impl AndroidBitmapInfoFlags {
    /// The raw bits of the flags.
    pub closed spec fn view(self) -> u32 {
        self.0
    }

    /// Flags are determined by their raw bits.
    pub proof fn lemma_flags_from_bits(self, other: AndroidBitmapInfoFlags)
        ensures
            self@ == other@ ==> self == other,
    {
    }

    /// Flags with the given raw bits.
    pub fn from_bits(bits: u32) -> (r: Self)
        ensures
            r@ == bits,
    {
        AndroidBitmapInfoFlags(bits)
    }

    /// The raw bits of the flags.
    pub fn bits(self) -> (r: u32)
        ensures
            r == self@,
    {
        self.0
    }

    /// Returns the alpha value contained in the alpha bit range. The fourth alpha value is not
    /// defined by the NDK.
    pub fn alpha(self) -> (r: AndroidBitmapInfoFlagsAlpha)
        requires
            self@ & ANDROID_BITMAP_FLAGS_ALPHA_MASK != 3,
        ensures
            self@ & ANDROID_BITMAP_FLAGS_ALPHA_MASK == 0 ==> r
                == AndroidBitmapInfoFlagsAlpha::Premultiplied,
            self@ & ANDROID_BITMAP_FLAGS_ALPHA_MASK == 1 ==> r == AndroidBitmapInfoFlagsAlpha::Opaque,
            self@ & ANDROID_BITMAP_FLAGS_ALPHA_MASK == 2 ==> r
                == AndroidBitmapInfoFlagsAlpha::Unpremultiplied,
    {
        let bits = self.0;
        let alpha = bits & ANDROID_BITMAP_FLAGS_ALPHA_MASK;
        assert(alpha <= 3) by (bit_vector)
            requires
                alpha == bits & 3u32,
        ;
        if alpha == 0 {
            AndroidBitmapInfoFlagsAlpha::Premultiplied
        } else if alpha == 1 {
            AndroidBitmapInfoFlagsAlpha::Opaque
        } else {
            AndroidBitmapInfoFlagsAlpha::Unpremultiplied
        }
    }

    /// Returns `true` when the bitmap uses "HARDWARE Config" and its hardware buffer can be
    /// retrieved.
    pub fn is_hardware(self) -> (r: bool)
        ensures
            r == (self@ & ANDROID_BITMAP_FLAGS_IS_HARDWARE != 0),
    {
        (self.0 & ANDROID_BITMAP_FLAGS_IS_HARDWARE) != 0
    }
}

/// The error returned when a raw bitmap format names no `BitmapFormat`.
#[derive(Clone, Copy, Debug, PartialEq, Eq, Structural)]
pub struct InvalidBitmapFormat {
    pub number: u32,
}

/// The description of a bitmap: its size, the bytes per row, its format and flags.
#[derive(Clone, Copy, Debug, PartialEq, Eq, Structural)]
pub struct AndroidBitmapInfo {
    width: u32,
    height: u32,
    stride: u32,
    format: i32,
    flags: u32,
}

impl AndroidBitmapInfo {
    /// The bitmap width in pixels.
    pub closed spec fn spec_width(self) -> u32 {
        self.width
    }

    /// The bitmap height in pixels.
    pub closed spec fn spec_height(self) -> u32 {
        self.height
    }

    /// The number of bytes per row.
    pub closed spec fn spec_stride(self) -> u32 {
        self.stride
    }

    /// The raw format.
    pub closed spec fn spec_format(self) -> i32 {
        self.format
    }

    /// The raw flags.
    pub closed spec fn spec_flags(self) -> u32 {
        self.flags
    }

    /// The description of a bitmap from the fields that the NDK fills in.
    pub fn new(width: u32, height: u32, stride: u32, format: i32, flags: u32) -> (r: Self)
        ensures
            r.spec_width() == width,
            r.spec_height() == height,
            r.spec_stride() == stride,
            r.spec_format() == format,
            r.spec_flags() == flags,
    {
        AndroidBitmapInfo { width, height, stride, format, flags }
    }

    /// The bitmap width in pixels.
    pub fn width(&self) -> (r: u32)
        ensures
            r == self.spec_width(),
    {
        self.width
    }

    /// The bitmap height in pixels.
    pub fn height(&self) -> (r: u32)
        ensures
            r == self.spec_height(),
    {
        self.height
    }

    /// The number of bytes per row.
    pub fn stride(&self) -> (r: u32)
        ensures
            r == self.spec_stride(),
    {
        self.stride
    }

    /// Converts the raw format into a `BitmapFormat`, which fails where the value, read as
    /// unsigned, names no format.
    pub fn try_format(&self) -> (r: Result<BitmapFormat, InvalidBitmapFormat>)
        ensures
            match BitmapFormat::spec_from_code((self.spec_format() as u32) as int) {
                Some(f) => r == Ok::<BitmapFormat, InvalidBitmapFormat>(f),
                None => r == Err::<BitmapFormat, InvalidBitmapFormat>(
                    InvalidBitmapFormat { number: self.spec_format() as u32 },
                ),
            },
    {
        let number = self.format as u32;
        match BitmapFormat::try_from_raw(number) {
            Some(f) => Ok(f),
            None => Err(InvalidBitmapFormat { number }),
        }
    }

    /// Converts the raw format into a `BitmapFormat`; the raw format must name one.
    pub fn format(&self) -> (r: BitmapFormat)
        requires
            BitmapFormat::spec_from_code((self.spec_format() as u32) as int) is Some,
        ensures
            Some(r) == BitmapFormat::spec_from_code((self.spec_format() as u32) as int),
    {
        match BitmapFormat::try_from_raw(self.format as u32) {
            Some(f) => f,
            None => BitmapFormat::NONE,
        }
    }

    /// Bitfield containing information about the bitmap.
    pub fn flags(&self) -> (r: AndroidBitmapInfoFlags)
        ensures
            r@ == self.spec_flags(),
    {
        AndroidBitmapInfoFlags::from_bits(self.flags)
    }
}

/// The NDK's constants used here have the values that its headers give them.
pub proof fn lemma_ndk_constants()
    ensures
        ANDROID_BITMAP_RESULT_SUCCESS == 0,
        ANDROID_BITMAP_RESULT_ALLOCATION_FAILED == -3,
        ANDROID_BITMAP_RESULT_BAD_PARAMETER == -1,
        ANDROID_BITMAP_RESULT_JNI_EXCEPTION == -2,
        ANDROID_BITMAP_FLAGS_ALPHA_MASK == 3,
        ANDROID_BITMAP_FLAGS_IS_HARDWARE == 0x8000_0000,
{
}

} // verus!
