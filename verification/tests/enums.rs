use ndk::aaudio::{AAudioErrorResult, AAudioFormat, AAudioPerformanceMode, AAudioStreamState};
use ndk::api_level::ApiLevel;
use ndk::bitmap::BitmapFormat;
use ndk::camera::tags::ColorCorrectionMode;
use ndk::camera::{CameraDeviceError, CameraErrorStatus, RequestTemplate};
use ndk::event::{Keycode, MotionAction, Source};
use ndk::hardware_buffer_format::HardwareBufferFormat;
use ndk::media::error::MediaErrorResult;
use ndk::media::image_reader::ImageFormat;
use ndk::media::media_extractor::SeekMode;
use ndk::media_error::MediaError;
use ndk::midi::MidiDeviceType;
use ndk::permission_manager::PermissionManagerStatus;
use ndk::thermal::ThermalStatus;

#[test]
fn aaudio_format_codes_match_ndk() {
    assert_eq!(AAudioFormat::PCM_I16.into_raw() as i64, ndk_sys::AAUDIO_FORMAT_PCM_I16 as i64);
    assert_eq!(AAudioFormat::try_from_raw(1), Some(AAudioFormat::PCM_I16));
    assert_eq!(AAudioFormat::try_from_raw(-1), Some(AAudioFormat::Invalid));
    assert_eq!(AAudioFormat::try_from_raw(42), None);
}

#[test]
fn aaudio_error_result_round_trip() {
    let e = AAudioErrorResult::try_from_raw(ndk_sys::AAUDIO_ERROR_DISCONNECTED as i32).unwrap();
    assert_eq!(e, AAudioErrorResult::Disconnected);
    assert_eq!(e.into_raw(), -899);
    assert_eq!(AAudioErrorResult::try_from_raw(-1), None);
}

#[test]
fn aaudio_performance_mode_without_preference() {
    assert_eq!(AAudioPerformanceMode::try_from_raw(10), Some(AAudioPerformanceMode::NoPreference));
    assert_eq!(AAudioPerformanceMode::NoPreference.into_raw(), 10);
}

#[test]
fn aaudio_stream_state_round_trips() {
    for code in 0u32..20 {
        if let Some(s) = AAudioStreamState::try_from_raw(code) {
            assert_eq!(s.into_raw(), code);
        }
    }
    assert_eq!(AAudioStreamState::try_from_raw(4), Some(AAudioStreamState::Started));
}

#[test]
fn camera_error_status_codes() {
    assert_eq!(
        CameraErrorStatus::try_from_raw(ndk_sys::camera_status_t::ACAMERA_ERROR_CAMERA_DISCONNECTED.0),
        Some(CameraErrorStatus::CameraDisconnected)
    );
    assert_eq!(CameraErrorStatus::try_from_raw(0), None);
    assert_eq!(CameraErrorStatus::MetadataNotFound.into_raw(), -10004);
}

#[test]
fn camera_device_error_codes() {
    assert_eq!(CameraDeviceError::try_from_raw(1), Some(CameraDeviceError::CameraInUse));
    assert_eq!(CameraDeviceError::try_from_raw(6), Some(CameraDeviceError::UnrecognizedErrorValue));
    assert_eq!(CameraDeviceError::try_from_raw(7), None);
    assert_eq!(CameraDeviceError::CameraService.into_raw(), 5);
}

#[test]
fn request_template_codes() {
    assert_eq!(RequestTemplate::try_from_raw(1), Some(RequestTemplate::Preview));
    assert_eq!(RequestTemplate::Manual.into_raw(), 6);
    assert_eq!(RequestTemplate::try_from_raw(0), None);
}

#[test]
fn camera_tag_enum_codes() {
    assert_eq!(
        ColorCorrectionMode::FAST.into_raw() as u32,
        ndk_sys::acamera_metadata_enum_acamera_color_correction_mode::ACAMERA_COLOR_CORRECTION_MODE_FAST.0
    );
    assert_eq!(ColorCorrectionMode::try_from_raw(2), Some(ColorCorrectionMode::HIGH_QUALITY));
    assert_eq!(ColorCorrectionMode::try_from_raw(3), None);
}

#[test]
fn event_enum_codes() {
    assert_eq!(Source::try_from_raw(ndk_sys::AINPUT_SOURCE_MOUSE as u32), Some(Source::Mouse));
    assert_eq!(Source::Mouse.into_raw(), 8194);
    assert_eq!(Keycode::try_from_raw(ndk_sys::AKEYCODE_A as u32), Some(Keycode::A));
    assert_eq!(Keycode::A.into_raw(), 29);
    assert_eq!(MotionAction::try_from_raw(5), Some(MotionAction::PointerDown));
    assert_eq!(MotionAction::try_from_raw(99), None);
}

#[test]
fn hardware_buffer_format_catch_all() {
    assert_eq!(HardwareBufferFormat::from_raw(1), HardwareBufferFormat::R8G8B8A8_UNORM);
    assert_eq!(
        HardwareBufferFormat::R8G8B8A8_UNORM.into_raw(),
        ndk_sys::AHardwareBuffer_Format::AHARDWAREBUFFER_FORMAT_R8G8B8A8_UNORM.0
    );
    assert_eq!(HardwareBufferFormat::from_raw(0x7777), HardwareBufferFormat::Unknown(0x7777));
    assert_eq!(HardwareBufferFormat::Unknown(0x7777).into_raw(), 0x7777);
}

#[test]
fn hardware_buffer_format_bytes_per_pixel() {
    assert_eq!(HardwareBufferFormat::R8G8B8A8_UNORM.bytes_per_pixel(), Some(4));
    assert_eq!(HardwareBufferFormat::R16G16B16A16_FLOAT.bytes_per_pixel(), Some(8));
    assert_eq!(HardwareBufferFormat::D32_FLOAT_S8_UINT.bytes_per_pixel(), Some(5));
    assert_eq!(HardwareBufferFormat::YCbCr_P010.bytes_per_pixel(), None);
    assert_eq!(HardwareBufferFormat::Y8Cb8Cr8_420.bytes_per_pixel(), None);
    assert_eq!(HardwareBufferFormat::Unknown(12345).bytes_per_pixel(), None);
}

#[test]
fn image_format_codes() {
    assert_eq!(
        ImageFormat::try_from_raw(ndk_sys::AIMAGE_FORMATS::AIMAGE_FORMAT_YUV_420_888.0 as u32),
        Some(ImageFormat::YUV_420_888)
    );
    assert_eq!(ImageFormat::JPEG.into_raw(), 256);
    assert_eq!(ImageFormat::try_from_raw(7), None);
}

#[test]
fn media_error_catch_all() {
    assert_eq!(MediaError::from_raw(-10000), MediaError::ErrorUnknown);
    assert_eq!(MediaError::ErrorUnknown.into_raw(), ndk_sys::media_status_t::AMEDIA_ERROR_BASE.0);
    assert_eq!(MediaError::from_raw(-42), MediaError::Unknown(-42));
    assert_eq!(MediaError::Unknown(-42).into_raw(), -42);
}

#[test]
fn media_error_result_codes() {
    assert_eq!(MediaErrorResult::try_from_raw(-10007), Some(MediaErrorResult::ErrorIo));
    assert_eq!(MediaErrorResult::ErrorEndOfStream.into_raw(), -10006);
    assert_eq!(MediaErrorResult::try_from_raw(0), None);
}

#[test]
fn seek_mode_codes() {
    assert_eq!(SeekMode::try_from_raw(2), Some(SeekMode::ClosestSync));
    assert_eq!(SeekMode::PreviousSync.into_raw(), 0);
    assert_eq!(SeekMode::try_from_raw(3), None);
}

#[test]
fn thermal_status_catch_all() {
    assert_eq!(ThermalStatus::from_raw(0), ThermalStatus::NoThrottling);
    assert_eq!(ThermalStatus::from_raw(-1), ThermalStatus::Error);
    assert_eq!(ThermalStatus::from_raw(6), ThermalStatus::Shutdown);
    assert_eq!(ThermalStatus::from_raw(77), ThermalStatus::__Unknown(77));
    assert_eq!(ThermalStatus::__Unknown(77).into_raw(), 77);
    assert_eq!(ThermalStatus::Severe.into_raw(), 3);
}

#[test]
fn api_level_catch_all() {
    assert_eq!(ApiLevel::from_raw(26), ApiLevel::O);
    assert_eq!(ApiLevel::O.into_raw(), 26);
    assert_eq!(ApiLevel::from_raw(10000), ApiLevel::Future);
    assert_eq!(ApiLevel::from_raw(2), ApiLevel::__Unknown(2));
    assert_eq!(ApiLevel::__Unknown(2).into_raw(), 2);
}

#[test]
fn permission_manager_status_catch_all() {
    assert_eq!(
        PermissionManagerStatus::from_raw(ndk_sys::PERMISSION_MANAGER_STATUS_ERROR_UNKNOWN as i32),
        PermissionManagerStatus::ErrorUnknown
    );
    assert_eq!(PermissionManagerStatus::ServiceUnavailable.into_raw(), -2);
    assert_eq!(PermissionManagerStatus::from_raw(-9), PermissionManagerStatus::__Unknown(-9));
}

#[test]
fn midi_device_type_catch_all() {
    assert_eq!(MidiDeviceType::from_raw(ndk_sys::AMIDI_DEVICE_TYPE_USB as u32), MidiDeviceType::USB);
    assert_eq!(MidiDeviceType::Bluetooth.into_raw(), 3);
    assert_eq!(MidiDeviceType::from_raw(9), MidiDeviceType::Unknown(9));
}

#[test]
fn bitmap_format_codes() {
    assert_eq!(
        BitmapFormat::try_from_raw(ndk_sys::AndroidBitmapFormat::ANDROID_BITMAP_FORMAT_RGB_565.0 as u32),
        Some(BitmapFormat::RGB_565)
    );
    assert_eq!(BitmapFormat::RGBA_8888.into_raw(), 1);
    assert_eq!(BitmapFormat::try_from_raw(2), None);
}

#[test]
fn hardware_buffer_format_codes_match_ndk() {
    let formats = [
        (HardwareBufferFormat::R8G8B8A8_UNORM, ndk_sys::AHardwareBuffer_Format::AHARDWAREBUFFER_FORMAT_R8G8B8A8_UNORM.0),
        (HardwareBufferFormat::R8G8B8X8_UNORM, ndk_sys::AHardwareBuffer_Format::AHARDWAREBUFFER_FORMAT_R8G8B8X8_UNORM.0),
        (HardwareBufferFormat::R8G8B8_UNORM, ndk_sys::AHardwareBuffer_Format::AHARDWAREBUFFER_FORMAT_R8G8B8_UNORM.0),
        (HardwareBufferFormat::R5G6B5_UNORM, ndk_sys::AHardwareBuffer_Format::AHARDWAREBUFFER_FORMAT_R5G6B5_UNORM.0),
        (HardwareBufferFormat::R16G16B16A16_FLOAT, ndk_sys::AHardwareBuffer_Format::AHARDWAREBUFFER_FORMAT_R16G16B16A16_FLOAT.0),
        (HardwareBufferFormat::R10G10B10A2_UNORM, ndk_sys::AHardwareBuffer_Format::AHARDWAREBUFFER_FORMAT_R10G10B10A2_UNORM.0),
        (HardwareBufferFormat::BLOB, ndk_sys::AHardwareBuffer_Format::AHARDWAREBUFFER_FORMAT_BLOB.0),
        (HardwareBufferFormat::D16_UNORM, ndk_sys::AHardwareBuffer_Format::AHARDWAREBUFFER_FORMAT_D16_UNORM.0),
        (HardwareBufferFormat::D24_UNORM, ndk_sys::AHardwareBuffer_Format::AHARDWAREBUFFER_FORMAT_D24_UNORM.0),
        (HardwareBufferFormat::D24_UNORM_S8_UINT, ndk_sys::AHardwareBuffer_Format::AHARDWAREBUFFER_FORMAT_D24_UNORM_S8_UINT.0),
        (HardwareBufferFormat::D32_FLOAT, ndk_sys::AHardwareBuffer_Format::AHARDWAREBUFFER_FORMAT_D32_FLOAT.0),
        (HardwareBufferFormat::D32_FLOAT_S8_UINT, ndk_sys::AHardwareBuffer_Format::AHARDWAREBUFFER_FORMAT_D32_FLOAT_S8_UINT.0),
        (HardwareBufferFormat::S8_UINT, ndk_sys::AHardwareBuffer_Format::AHARDWAREBUFFER_FORMAT_S8_UINT.0),
        (HardwareBufferFormat::Y8Cb8Cr8_420, ndk_sys::AHardwareBuffer_Format::AHARDWAREBUFFER_FORMAT_Y8Cb8Cr8_420.0),
        (HardwareBufferFormat::YCbCr_P010, ndk_sys::AHardwareBuffer_Format::AHARDWAREBUFFER_FORMAT_YCbCr_P010.0),
        (HardwareBufferFormat::R8_UNORM, ndk_sys::AHardwareBuffer_Format::AHARDWAREBUFFER_FORMAT_R8_UNORM.0),
    ];
    for (format, code) in formats {
        assert_eq!(format.into_raw(), code);
        assert_eq!(HardwareBufferFormat::from_raw(code), format);
    }
}
