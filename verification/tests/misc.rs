use ndk::choreographer::delay_ms;
use ndk::api_level::{api_level_from_version, target_sdk_version_to_api_level, ApiLevel, DeviceApiLevelError};
use ndk::bitmap::{AndroidBitmapInfo, AndroidBitmapInfoFlags, AndroidBitmapInfoFlagsAlpha, BitmapFormat, InvalidBitmapFormat};
use ndk::hardware_buffer::{fence_from_raw, fence_to_raw, HardwareBufferDesc, HardwareBufferUsage};
use ndk::hardware_buffer_format::HardwareBufferFormat;
use ndk::looper::{add_fd_result, poll_all_result, poll_once_result, timeout_ms, LooperError, Poll};
use ndk::native_window::NativeWindowBuffer;

#[test]
fn looper_poll_results() {
    assert_eq!(poll_once_result(-1, 0, 0), Ok(Poll::Wake));
    assert_eq!(poll_once_result(-2, 0, 0), Ok(Poll::Callback));
    assert_eq!(poll_once_result(-3, 0, 0), Ok(Poll::Timeout));
    assert_eq!(poll_once_result(-4, 0, 0), Err(LooperError));
    assert_eq!(poll_once_result(7, 12, 1), Ok(Poll::Event { ident: 7, fd: 12, events: 1 }));
    assert_eq!(poll_all_result(-1, 0, 0), Ok(Poll::Wake));
    assert_eq!(poll_all_result(0, 3, 4), Ok(Poll::Event { ident: 0, fd: 3, events: 4 }));
    assert_eq!(ndk::looper::ALOOPER_POLL_ERROR as i64, ndk_sys::ALOOPER_POLL_ERROR as i64);
}

#[test]
fn looper_fd_and_timeouts() {
    assert_eq!(add_fd_result(1), Ok(()));
    assert_eq!(add_fd_result(-1), Err(LooperError));
    assert_eq!(timeout_ms(0), 0);
    assert_eq!(timeout_ms(2500), 2500);
    assert_eq!(timeout_ms(i32::MAX as u128), i32::MAX);
}

#[test]
fn api_levels_from_versions() {
    assert_eq!(api_level_from_version(33), Ok(ApiLevel::T));
    assert_eq!(api_level_from_version(-1), Err(DeviceApiLevelError::TryFromIntError));
    assert_eq!(target_sdk_version_to_api_level(21), ApiLevel::L);
}

#[test]
fn bitmap_info_fields() {
    let info = AndroidBitmapInfo::new(640, 480, 2560, 1, 0x8000_0001);
    assert_eq!(info.width(), 640);
    assert_eq!(info.height(), 480);
    assert_eq!(info.stride(), 2560);
    assert_eq!(info.try_format(), Ok(BitmapFormat::RGBA_8888));
    assert_eq!(info.format(), BitmapFormat::RGBA_8888);
    let flags = info.flags();
    assert_eq!(flags.bits(), 0x8000_0001);
    assert!(flags.is_hardware());
    assert_eq!(flags.alpha(), AndroidBitmapInfoFlagsAlpha::Opaque);
    let bad = AndroidBitmapInfo::new(1, 1, 4, 3, 0);
    assert_eq!(bad.try_format(), Err(InvalidBitmapFormat { number: 3 }));
    let negative = AndroidBitmapInfo::new(1, 1, 4, -1, 0);
    assert_eq!(negative.try_format(), Err(InvalidBitmapFormat { number: u32::MAX }));
}

#[test]
fn bitmap_flags_alpha() {
    assert_eq!(AndroidBitmapInfoFlags::from_bits(0).alpha(), AndroidBitmapInfoFlagsAlpha::Premultiplied);
    assert_eq!(AndroidBitmapInfoFlags::from_bits(2).alpha(), AndroidBitmapInfoFlagsAlpha::Unpremultiplied);
    assert!(!AndroidBitmapInfoFlags::from_bits(2).is_hardware());
}

#[test]
fn hardware_buffer_fences() {
    assert_eq!(fence_to_raw(None), -1);
    assert_eq!(fence_to_raw(Some(9)), 9);
    assert_eq!(fence_from_raw(-1), None);
    assert_eq!(fence_from_raw(9), Some(9));
    assert_eq!(fence_from_raw(fence_to_raw(Some(4))), Some(4));
    assert_eq!(fence_from_raw(fence_to_raw(None)), None);
}

#[test]
fn hardware_buffer_usage_values() {
    assert_eq!(
        ndk::hardware_buffer::AHARDWAREBUFFER_USAGE_CPU_READ_OFTEN,
        ndk_sys::AHardwareBuffer_UsageFlags::AHARDWAREBUFFER_USAGE_CPU_READ_OFTEN.0 as u64
    );
    assert_eq!(
        ndk::hardware_buffer::AHARDWAREBUFFER_USAGE_GPU_SAMPLED_IMAGE,
        ndk_sys::AHardwareBuffer_UsageFlags::AHARDWAREBUFFER_USAGE_GPU_SAMPLED_IMAGE.0 as u64
    );
    let desc = HardwareBufferDesc {
        width: 4,
        height: 4,
        layers: 1,
        format: HardwareBufferFormat::R8G8B8A8_UNORM,
        usage: HardwareBufferUsage(ndk::hardware_buffer::AHARDWAREBUFFER_USAGE_CPU_READ_RARELY),
        stride: 4,
    };
    assert_eq!(desc.usage.0, 2);
}

#[test]
fn native_window_buffer_geometry() {
    let b = NativeWindowBuffer { width: 3, height: 2, stride: 4, format: 1 };
    assert_eq!(b.width(), 3);
    assert_eq!(b.height(), 2);
    assert_eq!(b.stride(), 4);
    assert_eq!(b.format(), HardwareBufferFormat::R8G8B8A8_UNORM);
    assert_eq!(b.byte_len(), Some(32));
    assert_eq!(b.lines(), Some(vec![(0, 12), (16, 28)]));
    let planar = NativeWindowBuffer { width: 3, height: 2, stride: 4, format: 0x36 };
    assert_eq!(planar.byte_len(), None);
    assert_eq!(planar.lines(), None);
    let yuv = NativeWindowBuffer { width: 3, height: 2, stride: 4, format: 0x23 };
    assert_eq!(yuv.byte_len(), None);
    assert_eq!(yuv.lines(), None);
    let empty = NativeWindowBuffer { width: 0, height: 0, stride: 0, format: 4 };
    assert_eq!(empty.byte_len(), Some(0));
    assert_eq!(empty.lines(), Some(vec![]));
}

#[test]
fn native_window_lines_lie_within_buffer() {
    let b = NativeWindowBuffer { width: 5, height: 3, stride: 8, format: 3 };
    let len = b.byte_len().unwrap();
    assert_eq!(len, 8 * 3 * 3);
    let lines = b.lines().unwrap();
    assert_eq!(lines.len(), 3);
    let mut previous_end = 0;
    for (start, end) in lines {
        assert!(previous_end <= start && start <= end && end <= len);
        assert_eq!(end - start, 15);
        previous_end = end;
    }
}

#[test]
fn choreographer_delay() {
    assert_eq!(delay_ms(0), 0);
    assert_eq!(delay_ms(16), 16);
    assert_eq!(delay_ms(u32::MAX as u128), u32::MAX);
}
