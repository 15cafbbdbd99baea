//! Values of hardware buffers: usage flags, descriptions and fences.
use crate::hardware_buffer_format::HardwareBufferFormat;
use vstd::prelude::*;

verus! {

/// The usage bits `AHARDWAREBUFFER_USAGE_CPU_READ_NEVER`.
pub const AHARDWAREBUFFER_USAGE_CPU_READ_NEVER: u64 = 0;

/// The usage bits `AHARDWAREBUFFER_USAGE_CPU_READ_RARELY`.
pub const AHARDWAREBUFFER_USAGE_CPU_READ_RARELY: u64 = 2;

/// The usage bits `AHARDWAREBUFFER_USAGE_CPU_READ_OFTEN`.
pub const AHARDWAREBUFFER_USAGE_CPU_READ_OFTEN: u64 = 3;

/// The usage bits `AHARDWAREBUFFER_USAGE_CPU_READ_MASK`.
pub const AHARDWAREBUFFER_USAGE_CPU_READ_MASK: u64 = 15;

/// The usage bits `AHARDWAREBUFFER_USAGE_CPU_WRITE_NEVER`.
pub const AHARDWAREBUFFER_USAGE_CPU_WRITE_NEVER: u64 = 0;

/// The usage bits `AHARDWAREBUFFER_USAGE_CPU_WRITE_RARELY`.
pub const AHARDWAREBUFFER_USAGE_CPU_WRITE_RARELY: u64 = 32;

/// The usage bits `AHARDWAREBUFFER_USAGE_CPU_WRITE_OFTEN`.
pub const AHARDWAREBUFFER_USAGE_CPU_WRITE_OFTEN: u64 = 48;

/// The usage bits `AHARDWAREBUFFER_USAGE_CPU_WRITE_MASK`.
pub const AHARDWAREBUFFER_USAGE_CPU_WRITE_MASK: u64 = 240;

/// The usage bits `AHARDWAREBUFFER_USAGE_GPU_SAMPLED_IMAGE`.
pub const AHARDWAREBUFFER_USAGE_GPU_SAMPLED_IMAGE: u64 = 256;

/// The usage bits `AHARDWAREBUFFER_USAGE_GPU_FRAMEBUFFER`.
pub const AHARDWAREBUFFER_USAGE_GPU_FRAMEBUFFER: u64 = 512;

/// The usage bits `AHARDWAREBUFFER_USAGE_COMPOSER_OVERLAY`.
pub const AHARDWAREBUFFER_USAGE_COMPOSER_OVERLAY: u64 = 2048;

/// The usage bits `AHARDWAREBUFFER_USAGE_PROTECTED_CONTENT`.
pub const AHARDWAREBUFFER_USAGE_PROTECTED_CONTENT: u64 = 16384;

/// The usage bits `AHARDWAREBUFFER_USAGE_VIDEO_ENCODE`.
pub const AHARDWAREBUFFER_USAGE_VIDEO_ENCODE: u64 = 65536;

/// The usage bits `AHARDWAREBUFFER_USAGE_SENSOR_DIRECT_DATA`.
pub const AHARDWAREBUFFER_USAGE_SENSOR_DIRECT_DATA: u64 = 8388608;

/// The usage bits `AHARDWAREBUFFER_USAGE_GPU_DATA_BUFFER`.
pub const AHARDWAREBUFFER_USAGE_GPU_DATA_BUFFER: u64 = 16777216;

/// The usage bits `AHARDWAREBUFFER_USAGE_GPU_CUBE_MAP`.
pub const AHARDWAREBUFFER_USAGE_GPU_CUBE_MAP: u64 = 33554432;

/// The usage bits `AHARDWAREBUFFER_USAGE_GPU_MIPMAP_COMPLETE`.
pub const AHARDWAREBUFFER_USAGE_GPU_MIPMAP_COMPLETE: u64 = 67108864;

/// The usage bits `AHARDWAREBUFFER_USAGE_VENDOR_0`.
pub const AHARDWAREBUFFER_USAGE_VENDOR_0: u64 = 268435456;

/// The usage bits `AHARDWAREBUFFER_USAGE_VENDOR_1`.
pub const AHARDWAREBUFFER_USAGE_VENDOR_1: u64 = 536870912;

/// The usage bits `AHARDWAREBUFFER_USAGE_VENDOR_2`.
pub const AHARDWAREBUFFER_USAGE_VENDOR_2: u64 = 1073741824;

/// The usage bits `AHARDWAREBUFFER_USAGE_VENDOR_3`.
pub const AHARDWAREBUFFER_USAGE_VENDOR_3: u64 = 2147483648;

/// The usage bits `AHARDWAREBUFFER_USAGE_VENDOR_4`.
pub const AHARDWAREBUFFER_USAGE_VENDOR_4: u64 = 281474976710656;

/// The usage bits `AHARDWAREBUFFER_USAGE_VENDOR_5`.
pub const AHARDWAREBUFFER_USAGE_VENDOR_5: u64 = 562949953421312;

/// The usage bits `AHARDWAREBUFFER_USAGE_VENDOR_6`.
pub const AHARDWAREBUFFER_USAGE_VENDOR_6: u64 = 1125899906842624;

/// The usage bits `AHARDWAREBUFFER_USAGE_VENDOR_7`.
pub const AHARDWAREBUFFER_USAGE_VENDOR_7: u64 = 2251799813685248;

/// The usage bits `AHARDWAREBUFFER_USAGE_VENDOR_8`.
pub const AHARDWAREBUFFER_USAGE_VENDOR_8: u64 = 4503599627370496;

/// The usage bits `AHARDWAREBUFFER_USAGE_VENDOR_9`.
pub const AHARDWAREBUFFER_USAGE_VENDOR_9: u64 = 9007199254740992;

/// The usage bits `AHARDWAREBUFFER_USAGE_VENDOR_10`.
pub const AHARDWAREBUFFER_USAGE_VENDOR_10: u64 = 18014398509481984;

/// The usage bits `AHARDWAREBUFFER_USAGE_VENDOR_11`.
pub const AHARDWAREBUFFER_USAGE_VENDOR_11: u64 = 36028797018963968;

/// The usage bits `AHARDWAREBUFFER_USAGE_VENDOR_12`.
pub const AHARDWAREBUFFER_USAGE_VENDOR_12: u64 = 72057594037927936;

/// The usage bits `AHARDWAREBUFFER_USAGE_VENDOR_13`.
pub const AHARDWAREBUFFER_USAGE_VENDOR_13: u64 = 144115188075855872;

/// The usage bits `AHARDWAREBUFFER_USAGE_VENDOR_14`.
pub const AHARDWAREBUFFER_USAGE_VENDOR_14: u64 = 288230376151711744;

/// The usage bits `AHARDWAREBUFFER_USAGE_VENDOR_15`.
pub const AHARDWAREBUFFER_USAGE_VENDOR_15: u64 = 576460752303423488;

/// The usage bits `AHARDWAREBUFFER_USAGE_VENDOR_16`.
pub const AHARDWAREBUFFER_USAGE_VENDOR_16: u64 = 1152921504606846976;

/// The usage bits `AHARDWAREBUFFER_USAGE_VENDOR_17`.
pub const AHARDWAREBUFFER_USAGE_VENDOR_17: u64 = 2305843009213693952;

/// The usage bits `AHARDWAREBUFFER_USAGE_VENDOR_18`.
pub const AHARDWAREBUFFER_USAGE_VENDOR_18: u64 = 4611686018427387904;

/// The usage bits `AHARDWAREBUFFER_USAGE_VENDOR_19`.
pub const AHARDWAREBUFFER_USAGE_VENDOR_19: u64 = 9223372036854775808;

/// The usage of a hardware buffer, as a set of usage bits.
#[derive(Copy, Clone, Debug, PartialEq, Eq, Structural)]
pub struct HardwareBufferUsage(pub u64);

/// A description of a hardware buffer: its size, layers, format, usage and stride.
#[derive(Copy, Clone, Debug, PartialEq, Eq, Structural)]
pub struct HardwareBufferDesc {
    pub width: u32,
    pub height: u32,
    pub layers: u32,
    pub format: HardwareBufferFormat,
    pub usage: HardwareBufferUsage,
    pub stride: u32,
}

/// The raw fence that a lock call is given: `-1` where there is no fence to wait on.
pub open spec fn spec_fence_to_raw(fence: Option<i32>) -> i32 {
    match fence {
        Some(f) => f,
        None => -1i32,
    }
}

/// The fence that a raw fence stands for: `-1` is no fence.
pub open spec fn spec_fence_from_raw(fence: i32) -> Option<i32> {
    if fence == -1 {
        None
    } else {
        Some(fence)
    }
}

/// The raw fence that a lock call is given: `-1` where there is no fence to wait on.
pub fn fence_to_raw(fence: Option<i32>) -> (r: i32)
    ensures
        r == spec_fence_to_raw(fence),
{
    match fence {
        Some(f) => f,
        None => -1,
    }
}

/// The fence that an unlock call hands back: `-1` means that the buffer is unlocked already.
pub fn fence_from_raw(fence: i32) -> (r: Option<i32>)
    ensures
        r == spec_fence_from_raw(fence),
{
    if fence == -1 {
        None
    } else {
        Some(fence)
    }
}

/// A fence that is handed over and read back is the same fence, where it is a real one.
pub proof fn lemma_fence_round_trip(fence: Option<i32>)
    requires
        fence matches Some(f) ==> f != -1,
    ensures
        spec_fence_from_raw(spec_fence_to_raw(fence)) == fence,
{
}

/// The NDK's constants used here have the values that its headers give them.
pub proof fn lemma_ndk_constants()
    ensures
        AHARDWAREBUFFER_USAGE_CPU_READ_NEVER == 0,
        AHARDWAREBUFFER_USAGE_CPU_READ_RARELY == 2,
        AHARDWAREBUFFER_USAGE_CPU_READ_OFTEN == 3,
        AHARDWAREBUFFER_USAGE_CPU_READ_MASK == 15,
        AHARDWAREBUFFER_USAGE_CPU_WRITE_NEVER == 0,
        AHARDWAREBUFFER_USAGE_CPU_WRITE_RARELY == 32,
        AHARDWAREBUFFER_USAGE_CPU_WRITE_OFTEN == 48,
        AHARDWAREBUFFER_USAGE_CPU_WRITE_MASK == 240,
        AHARDWAREBUFFER_USAGE_GPU_SAMPLED_IMAGE == 256,
        AHARDWAREBUFFER_USAGE_GPU_FRAMEBUFFER == 512,
        AHARDWAREBUFFER_USAGE_COMPOSER_OVERLAY == 2048,
        AHARDWAREBUFFER_USAGE_PROTECTED_CONTENT == 16384,
        AHARDWAREBUFFER_USAGE_VIDEO_ENCODE == 65536,
        AHARDWAREBUFFER_USAGE_SENSOR_DIRECT_DATA == 8388608,
        AHARDWAREBUFFER_USAGE_GPU_DATA_BUFFER == 16777216,
        AHARDWAREBUFFER_USAGE_GPU_CUBE_MAP == 33554432,
        AHARDWAREBUFFER_USAGE_GPU_MIPMAP_COMPLETE == 67108864,
        AHARDWAREBUFFER_USAGE_VENDOR_0 == 268435456,
        AHARDWAREBUFFER_USAGE_VENDOR_1 == 536870912,
        AHARDWAREBUFFER_USAGE_VENDOR_2 == 1073741824,
        AHARDWAREBUFFER_USAGE_VENDOR_3 == 2147483648,
        AHARDWAREBUFFER_USAGE_VENDOR_4 == 281474976710656,
        AHARDWAREBUFFER_USAGE_VENDOR_5 == 562949953421312,
        AHARDWAREBUFFER_USAGE_VENDOR_6 == 1125899906842624,
        AHARDWAREBUFFER_USAGE_VENDOR_7 == 2251799813685248,
        AHARDWAREBUFFER_USAGE_VENDOR_8 == 4503599627370496,
        AHARDWAREBUFFER_USAGE_VENDOR_9 == 9007199254740992,
        AHARDWAREBUFFER_USAGE_VENDOR_10 == 18014398509481984,
        AHARDWAREBUFFER_USAGE_VENDOR_11 == 36028797018963968,
        AHARDWAREBUFFER_USAGE_VENDOR_12 == 72057594037927936,
        AHARDWAREBUFFER_USAGE_VENDOR_13 == 144115188075855872,
        AHARDWAREBUFFER_USAGE_VENDOR_14 == 288230376151711744,
        AHARDWAREBUFFER_USAGE_VENDOR_15 == 576460752303423488,
        AHARDWAREBUFFER_USAGE_VENDOR_16 == 1152921504606846976,
        AHARDWAREBUFFER_USAGE_VENDOR_17 == 2305843009213693952,
        AHARDWAREBUFFER_USAGE_VENDOR_18 == 4611686018427387904,
        AHARDWAREBUFFER_USAGE_VENDOR_19 == 9223372036854775808,
{
}

} // verus!
