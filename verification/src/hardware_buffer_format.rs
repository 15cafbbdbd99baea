//! Pixel formats of hardware buffers.
use vstd::prelude::*;

verus! {

/// Buffer pixel formats.
#[derive(Copy, Clone, Debug, PartialEq, Eq, Structural)]
#[allow(non_camel_case_types)]
pub enum HardwareBufferFormat {
    /// Matches the deprecated `WINDOW_FORMAT_RGBA_8888` of native windows.
    R8G8B8A8_UNORM,
    /// Matches the deprecated `WINDOW_FORMAT_RGBX_8888` of native windows.
    R8G8B8X8_UNORM,
    R8G8B8_UNORM,
    /// Matches the deprecated `WINDOW_FORMAT_RGB_565` of native windows.
    R5G6B5_UNORM,
    R16G16B16A16_FLOAT,
    R10G10B10A2_UNORM,
    BLOB,
    D16_UNORM,
    D24_UNORM,
    D24_UNORM_S8_UINT,
    D32_FLOAT,
    D32_FLOAT_S8_UINT,
    S8_UINT,
    Y8Cb8Cr8_420,
    YCbCr_P010,
    R8_UNORM,
    /// A format code that this library does not know.
    Unknown(u32),
}

impl HardwareBufferFormat {
    /// The raw code of a value.
    pub open spec fn spec_code(self) -> u32 {
        match self {
            HardwareBufferFormat::R8G8B8A8_UNORM => 1u32,
            HardwareBufferFormat::R8G8B8X8_UNORM => 2u32,
            HardwareBufferFormat::R8G8B8_UNORM => 3u32,
            HardwareBufferFormat::R5G6B5_UNORM => 4u32,
            HardwareBufferFormat::R16G16B16A16_FLOAT => 22u32,
            HardwareBufferFormat::R10G10B10A2_UNORM => 43u32,
            HardwareBufferFormat::BLOB => 33u32,
            HardwareBufferFormat::D16_UNORM => 48u32,
            HardwareBufferFormat::D24_UNORM => 49u32,
            HardwareBufferFormat::D24_UNORM_S8_UINT => 50u32,
            HardwareBufferFormat::D32_FLOAT => 51u32,
            HardwareBufferFormat::D32_FLOAT_S8_UINT => 52u32,
            HardwareBufferFormat::S8_UINT => 53u32,
            HardwareBufferFormat::Y8Cb8Cr8_420 => 35u32,
            HardwareBufferFormat::YCbCr_P010 => 54u32,
            HardwareBufferFormat::R8_UNORM => 56u32,
            HardwareBufferFormat::Unknown(code) => code,
        }
    }

    /// The value that a raw code stands for: a named variant where one exists.
    pub open spec fn spec_from_code(code: u32) -> Self {
        if code == 1 {
            HardwareBufferFormat::R8G8B8A8_UNORM
        } else if code == 2 {
            HardwareBufferFormat::R8G8B8X8_UNORM
        } else if code == 3 {
            HardwareBufferFormat::R8G8B8_UNORM
        } else if code == 4 {
            HardwareBufferFormat::R5G6B5_UNORM
        } else if code == 22 {
            HardwareBufferFormat::R16G16B16A16_FLOAT
        } else if code == 43 {
            HardwareBufferFormat::R10G10B10A2_UNORM
        } else if code == 33 {
            HardwareBufferFormat::BLOB
        } else if code == 48 {
            HardwareBufferFormat::D16_UNORM
        } else if code == 49 {
            HardwareBufferFormat::D24_UNORM
        } else if code == 50 {
            HardwareBufferFormat::D24_UNORM_S8_UINT
        } else if code == 51 {
            HardwareBufferFormat::D32_FLOAT
        } else if code == 52 {
            HardwareBufferFormat::D32_FLOAT_S8_UINT
        } else if code == 53 {
            HardwareBufferFormat::S8_UINT
        } else if code == 35 {
            HardwareBufferFormat::Y8Cb8Cr8_420
        } else if code == 54 {
            HardwareBufferFormat::YCbCr_P010
        } else if code == 56 {
            HardwareBufferFormat::R8_UNORM
        } else {
            HardwareBufferFormat::Unknown(code)
        }
    }

    /// A value is canonical when it is a named variant, or holds a code that no variant names.
    pub open spec fn is_canonical(self) -> bool {
        match self {
            HardwareBufferFormat::Unknown(code) => Self::spec_from_code(code) == self,
            _ => true,
        }
    }

    /// The value that the raw code `value` stands for.
    pub fn from_raw(value: u32) -> (r: Self)
        ensures
            r == Self::spec_from_code(value),
            r.is_canonical(),
    {
        match value {
            1 => HardwareBufferFormat::R8G8B8A8_UNORM,
            2 => HardwareBufferFormat::R8G8B8X8_UNORM,
            3 => HardwareBufferFormat::R8G8B8_UNORM,
            4 => HardwareBufferFormat::R5G6B5_UNORM,
            22 => HardwareBufferFormat::R16G16B16A16_FLOAT,
            43 => HardwareBufferFormat::R10G10B10A2_UNORM,
            33 => HardwareBufferFormat::BLOB,
            48 => HardwareBufferFormat::D16_UNORM,
            49 => HardwareBufferFormat::D24_UNORM,
            50 => HardwareBufferFormat::D24_UNORM_S8_UINT,
            51 => HardwareBufferFormat::D32_FLOAT,
            52 => HardwareBufferFormat::D32_FLOAT_S8_UINT,
            53 => HardwareBufferFormat::S8_UINT,
            35 => HardwareBufferFormat::Y8Cb8Cr8_420,
            54 => HardwareBufferFormat::YCbCr_P010,
            56 => HardwareBufferFormat::R8_UNORM,
            _ => HardwareBufferFormat::Unknown(value),
        }
    }

    /// The raw code of this value.
    pub fn into_raw(self) -> (r: u32)
        ensures
            r == self.spec_code(),
    {
        match self {
            HardwareBufferFormat::R8G8B8A8_UNORM => 1,
            HardwareBufferFormat::R8G8B8X8_UNORM => 2,
            HardwareBufferFormat::R8G8B8_UNORM => 3,
            HardwareBufferFormat::R5G6B5_UNORM => 4,
            HardwareBufferFormat::R16G16B16A16_FLOAT => 22,
            HardwareBufferFormat::R10G10B10A2_UNORM => 43,
            HardwareBufferFormat::BLOB => 33,
            HardwareBufferFormat::D16_UNORM => 48,
            HardwareBufferFormat::D24_UNORM => 49,
            HardwareBufferFormat::D24_UNORM_S8_UINT => 50,
            HardwareBufferFormat::D32_FLOAT => 51,
            HardwareBufferFormat::D32_FLOAT_S8_UINT => 52,
            HardwareBufferFormat::S8_UINT => 53,
            HardwareBufferFormat::Y8Cb8Cr8_420 => 35,
            HardwareBufferFormat::YCbCr_P010 => 54,
            HardwareBufferFormat::R8_UNORM => 56,
            HardwareBufferFormat::Unknown(code) => code,
        }
    }

    /// Reading a raw code and turning the value back into a code gives the same code.
    pub proof fn lemma_code_round_trip(code: u32)
        ensures
            Self::spec_from_code(code).spec_code() == code,
            Self::spec_from_code(code).is_canonical(),
    {
    }

    /// Turning a canonical value into its code and reading it back gives the same value.
    pub proof fn lemma_value_round_trip(self)
        requires
            self.is_canonical(),
        ensures
            Self::spec_from_code(self.spec_code()) == self,
    {
    }
}

impl HardwareBufferFormat {
    /// Each variant's code is the value that the NDK's headers give its constant, so decoding
    /// that value gives the variant and encoding the variant gives the value.
    pub proof fn lemma_ndk_codes()
        ensures
            HardwareBufferFormat::R8G8B8A8_UNORM.spec_code() == 1,
            HardwareBufferFormat::R8G8B8X8_UNORM.spec_code() == 2,
            HardwareBufferFormat::R8G8B8_UNORM.spec_code() == 3,
            HardwareBufferFormat::R5G6B5_UNORM.spec_code() == 4,
            HardwareBufferFormat::R16G16B16A16_FLOAT.spec_code() == 22,
            HardwareBufferFormat::R10G10B10A2_UNORM.spec_code() == 43,
            HardwareBufferFormat::BLOB.spec_code() == 33,
            HardwareBufferFormat::D16_UNORM.spec_code() == 48,
            HardwareBufferFormat::D24_UNORM.spec_code() == 49,
            HardwareBufferFormat::D24_UNORM_S8_UINT.spec_code() == 50,
            HardwareBufferFormat::D32_FLOAT.spec_code() == 51,
            HardwareBufferFormat::D32_FLOAT_S8_UINT.spec_code() == 52,
            HardwareBufferFormat::S8_UINT.spec_code() == 53,
            HardwareBufferFormat::Y8Cb8Cr8_420.spec_code() == 35,
            HardwareBufferFormat::YCbCr_P010.spec_code() == 54,
            HardwareBufferFormat::R8_UNORM.spec_code() == 56,
            HardwareBufferFormat::spec_from_code(1u32) == HardwareBufferFormat::R8G8B8A8_UNORM,
            HardwareBufferFormat::spec_from_code(2u32) == HardwareBufferFormat::R8G8B8X8_UNORM,
            HardwareBufferFormat::spec_from_code(3u32) == HardwareBufferFormat::R8G8B8_UNORM,
            HardwareBufferFormat::spec_from_code(4u32) == HardwareBufferFormat::R5G6B5_UNORM,
            HardwareBufferFormat::spec_from_code(22u32) == HardwareBufferFormat::R16G16B16A16_FLOAT,
            HardwareBufferFormat::spec_from_code(43u32) == HardwareBufferFormat::R10G10B10A2_UNORM,
            HardwareBufferFormat::spec_from_code(33u32) == HardwareBufferFormat::BLOB,
            HardwareBufferFormat::spec_from_code(48u32) == HardwareBufferFormat::D16_UNORM,
            HardwareBufferFormat::spec_from_code(49u32) == HardwareBufferFormat::D24_UNORM,
            HardwareBufferFormat::spec_from_code(50u32) == HardwareBufferFormat::D24_UNORM_S8_UINT,
            HardwareBufferFormat::spec_from_code(51u32) == HardwareBufferFormat::D32_FLOAT,
            HardwareBufferFormat::spec_from_code(52u32) == HardwareBufferFormat::D32_FLOAT_S8_UINT,
            HardwareBufferFormat::spec_from_code(53u32) == HardwareBufferFormat::S8_UINT,
            HardwareBufferFormat::spec_from_code(35u32) == HardwareBufferFormat::Y8Cb8Cr8_420,
            HardwareBufferFormat::spec_from_code(54u32) == HardwareBufferFormat::YCbCr_P010,
            HardwareBufferFormat::spec_from_code(56u32) == HardwareBufferFormat::R8_UNORM,
    {
    }
}

impl HardwareBufferFormat {
    /// The size of one pixel in bytes, or `None` where the format has no such size, as for
    /// planar formats and unknown ones.
    pub open spec fn spec_bytes_per_pixel(self) -> Option<usize> {
        match self {
            HardwareBufferFormat::R8G8B8A8_UNORM | HardwareBufferFormat::R8G8B8X8_UNORM => Some(4),
            HardwareBufferFormat::R8G8B8_UNORM => Some(3),
            HardwareBufferFormat::R5G6B5_UNORM => Some(2),
            HardwareBufferFormat::R16G16B16A16_FLOAT => Some(8),
            HardwareBufferFormat::R10G10B10A2_UNORM => Some(4),
            HardwareBufferFormat::BLOB => Some(1),
            HardwareBufferFormat::D16_UNORM => Some(2),
            HardwareBufferFormat::D24_UNORM => Some(3),
            HardwareBufferFormat::D24_UNORM_S8_UINT => Some(4),
            HardwareBufferFormat::D32_FLOAT => Some(4),
            HardwareBufferFormat::D32_FLOAT_S8_UINT => Some(5),
            HardwareBufferFormat::S8_UINT => Some(1),
            HardwareBufferFormat::Y8Cb8Cr8_420 => None,
            HardwareBufferFormat::YCbCr_P010 => None,
            HardwareBufferFormat::R8_UNORM => Some(1),
            HardwareBufferFormat::Unknown(_) => None,
        }
    }

    /// The size of a pixel is the bits of its channels (and padding), eight to a byte, as each
    /// format's name lays them out; a blob is counted in bytes. The planar YUV formats spread a
    /// pixel over several planes and formats that this library does not know have no layout, so
    /// none of these has a size.
    pub proof fn lemma_bytes_per_pixel_layout()
        ensures
            HardwareBufferFormat::R8G8B8A8_UNORM.spec_bytes_per_pixel() == Some(((8int + 8 + 8 + 8) / 8) as usize),
            HardwareBufferFormat::R8G8B8X8_UNORM.spec_bytes_per_pixel() == Some(((8int + 8 + 8 + 8) / 8) as usize),
            HardwareBufferFormat::R8G8B8_UNORM.spec_bytes_per_pixel() == Some(((8int + 8 + 8) / 8) as usize),
            HardwareBufferFormat::R5G6B5_UNORM.spec_bytes_per_pixel() == Some(((5int + 6 + 5) / 8) as usize),
            HardwareBufferFormat::R16G16B16A16_FLOAT.spec_bytes_per_pixel() == Some(((16int + 16 + 16 + 16) / 8) as usize),
            HardwareBufferFormat::R10G10B10A2_UNORM.spec_bytes_per_pixel() == Some(((10int + 10 + 10 + 2) / 8) as usize),
            HardwareBufferFormat::BLOB.spec_bytes_per_pixel() == Some((8int / 8) as usize),
            HardwareBufferFormat::D16_UNORM.spec_bytes_per_pixel() == Some((16int / 8) as usize),
            HardwareBufferFormat::D24_UNORM.spec_bytes_per_pixel() == Some((24int / 8) as usize),
            HardwareBufferFormat::D24_UNORM_S8_UINT.spec_bytes_per_pixel() == Some(((24int + 8) / 8) as usize),
            HardwareBufferFormat::D32_FLOAT.spec_bytes_per_pixel() == Some((32int / 8) as usize),
            HardwareBufferFormat::D32_FLOAT_S8_UINT.spec_bytes_per_pixel() == Some(((32int + 8) / 8) as usize),
            HardwareBufferFormat::S8_UINT.spec_bytes_per_pixel() == Some((8int / 8) as usize),
            HardwareBufferFormat::R8_UNORM.spec_bytes_per_pixel() == Some((8int / 8) as usize),
            HardwareBufferFormat::Y8Cb8Cr8_420.spec_bytes_per_pixel() is None,
            HardwareBufferFormat::YCbCr_P010.spec_bytes_per_pixel() is None,
            forall|code: u32| #[trigger] HardwareBufferFormat::Unknown(code).spec_bytes_per_pixel() is None,
    {
    }

    /// Returns `None` when there is no immediate byte size available for this format, for
    /// example on planar buffer formats.
    pub fn bytes_per_pixel(self) -> (r: Option<usize>)
        ensures
            r == self.spec_bytes_per_pixel(),
    {
        match self {
            HardwareBufferFormat::R8G8B8A8_UNORM | HardwareBufferFormat::R8G8B8X8_UNORM => Some(4),
            HardwareBufferFormat::R8G8B8_UNORM => Some(3),
            HardwareBufferFormat::R5G6B5_UNORM => Some(2),
            HardwareBufferFormat::R16G16B16A16_FLOAT => Some(8),
            HardwareBufferFormat::R10G10B10A2_UNORM => Some(4),
            HardwareBufferFormat::BLOB => Some(1),
            HardwareBufferFormat::D16_UNORM => Some(2),
            HardwareBufferFormat::D24_UNORM => Some(3),
            HardwareBufferFormat::D24_UNORM_S8_UINT => Some(4),
            HardwareBufferFormat::D32_FLOAT => Some(4),
            HardwareBufferFormat::D32_FLOAT_S8_UINT => Some(5),
            HardwareBufferFormat::S8_UINT => Some(1),
            HardwareBufferFormat::Y8Cb8Cr8_420 => None,
            HardwareBufferFormat::YCbCr_P010 => None,
            HardwareBufferFormat::R8_UNORM => Some(1),
            HardwareBufferFormat::Unknown(_) => None,
        }
    }
}

} // verus!
