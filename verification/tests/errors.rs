use ndk::aaudio::{
    enum_return_value, frames_per_data_callback_from_raw, session_id_from_raw, session_id_to_raw,
    AAudioError, AAudioErrorResult, AAudioFormat, SessionId,
};
use ndk::bitmap::BitmapError;
use ndk::camera::{
    camera_device_error_from_raw, CameraCaptureFailure, CameraDeviceError, CameraError,
    CameraErrorStatus, CaptureFailureError,
};
use ndk::media::error::{MediaErrorResult, NdkMediaError};
use ndk::media_error::MediaError;
use ndk::permission_manager::{check_permission_result, PermissionManagerStatus};
use ndk::posix::PosixError;
use ndk::surface_texture::status_to_result;
use ndk::utils::{status_to_io_result, OsError};

#[test]
fn aaudio_from_result_success_runs_closure() {
    assert_eq!(AAudioError::from_result(0, || 5u8), Ok(5));
    assert_eq!(AAudioError::from_result(12, || "x"), Ok("x"));
}

#[test]
fn aaudio_from_result_known_error() {
    assert_eq!(
        AAudioError::from_result(-899, || ()),
        Err(AAudioError::ErrorResult(AAudioErrorResult::Disconnected))
    );
}

#[test]
fn aaudio_from_result_unknown_error() {
    assert_eq!(AAudioError::from_result(-5, || ()), Err(AAudioError::UnknownResult(-5)));
}

#[test]
fn aaudio_from_error_code() {
    assert_eq!(
        AAudioError::from_error_code(-885),
        AAudioError::ErrorResult(AAudioErrorResult::Timeout)
    );
    assert_eq!(AAudioError::from_error_code(-3), AAudioError::UnknownResult(-3));
}

#[test]
fn aaudio_enum_return_value() {
    assert_eq!(enum_return_value::<AAudioFormat>(2), Ok(AAudioFormat::PCM_Float));
    assert_eq!(
        enum_return_value::<AAudioFormat>(55),
        Err(AAudioError::UnsupportedValue(55))
    );
    assert_eq!(
        enum_return_value::<AAudioFormat>(-1),
        Err(AAudioError::UnsupportedValue(-1))
    );
}

#[test]
fn aaudio_session_ids() {
    assert_eq!(session_id_to_raw(None), 0);
    assert_eq!(session_id_to_raw(Some(SessionId::NoSession)), -1);
    assert_eq!(session_id_to_raw(Some(SessionId::Allocated(17))), 17);
    assert_eq!(session_id_from_raw(-1), SessionId::NoSession);
    assert_eq!(session_id_from_raw(17), SessionId::Allocated(17));
}

#[test]
fn aaudio_session_id_round_trip_law() {
    for s in [SessionId::NoSession, SessionId::Allocated(3), SessionId::Allocated(-7)] {
        assert_eq!(session_id_from_raw(session_id_to_raw(Some(s))), s);
    }
}

#[test]
fn aaudio_frames_per_data_callback() {
    assert_eq!(frames_per_data_callback_from_raw(0), None);
    assert_eq!(frames_per_data_callback_from_raw(192), Some(192));
}

#[test]
fn camera_from_status() {
    assert!(matches!(CameraError::from_status(0, || 1), Ok(1)));
    assert!(matches!(
        CameraError::from_status(-10004, || ()),
        Err(CameraError::ErrorResult(CameraErrorStatus::MetadataNotFound))
    ));
    assert!(matches!(CameraError::from_status(-3, || ()), Err(CameraError::UnknownError(-3))));
}

#[test]
fn camera_device_error_decoding() {
    assert_eq!(camera_device_error_from_raw(3), CameraDeviceError::CameraDisabled);
    assert_eq!(camera_device_error_from_raw(0), CameraDeviceError::UnrecognizedErrorValue);
    assert_eq!(camera_device_error_from_raw(-2), CameraDeviceError::UnrecognizedErrorValue);
    assert_eq!(camera_device_error_from_raw(40), CameraDeviceError::UnrecognizedErrorValue);
}

#[test]
fn capture_failure_reason() {
    let mut f = CameraCaptureFailure {
        frame_number: 7,
        reason: 0,
        sequence_id: 1,
        was_image_captured: false,
    };
    assert_eq!(f.reason(), Ok(CaptureFailureError::Flushed));
    f.reason = 1;
    assert_eq!(f.reason(), Ok(CaptureFailureError::Error));
    f.reason = 9;
    assert_eq!(f.reason(), Err(9));
}

#[test]
fn media_error_from_status() {
    assert_eq!(MediaError::from_status(0), Ok(()));
    assert_eq!(MediaError::from_status(-10008), Err(MediaError::ErrorWouldBlock));
    assert_eq!(MediaError::from_status(5), Err(MediaError::Unknown(5)));
    assert_eq!(MediaError::from_error_status(-10001), MediaError::ErrorMalformed);
    assert_eq!(MediaError::from_status_if_negative(33), Ok(33));
    assert_eq!(MediaError::from_status_if_negative(-10006), Err(MediaError::ErrorEndOfStream));
}

#[test]
fn ndk_media_error_from_status() {
    assert_eq!(NdkMediaError::from_status(0), Ok(()));
    assert_eq!(
        NdkMediaError::from_status(-10002),
        Err(NdkMediaError::ErrorResult(MediaErrorResult::ErrorUnsupported))
    );
    assert_eq!(NdkMediaError::from_status(-1), Err(NdkMediaError::UnknownResult(-1)));
}

#[test]
fn bitmap_error_from_status() {
    assert_eq!(BitmapError::from_status(0), Ok(()));
    assert_eq!(BitmapError::from_status(-1), Err(BitmapError::BadParameter));
    assert_eq!(BitmapError::from_status(-2), Err(BitmapError::JniException));
    assert_eq!(BitmapError::from_status(-3), Err(BitmapError::AllocationFailed));
    assert_eq!(BitmapError::from_status(-4), Err(BitmapError::Unknown));
    assert_eq!(
        ndk::bitmap::ANDROID_BITMAP_RESULT_BAD_PARAMETER as i64,
        ndk_sys::ANDROID_BITMAP_RESULT_BAD_PARAMETER as i64
    );
}

#[test]
fn permission_check_results() {
    assert_eq!(check_permission_result(0, 0), Ok(true));
    assert_eq!(check_permission_result(0, -1), Ok(false));
    assert_eq!(check_permission_result(-1, 0), Err(PermissionManagerStatus::ErrorUnknown));
    assert_eq!(check_permission_result(-2, 0), Err(PermissionManagerStatus::ServiceUnavailable));
}

#[test]
fn errno_status_results() {
    assert_eq!(status_to_io_result(0, 'a'), Ok('a'));
    assert_eq!(status_to_io_result(-22, ()), Err(OsError { raw_os_error: 22 }));
    assert_eq!(status_to_result(0), Ok(()));
    assert_eq!(status_to_result(-12), Err(PosixError(-12)));
}

#[test]
fn thermal_status_results() {
    assert_eq!(ndk::thermal::status_to_io_result(0), Ok(()));
    assert_eq!(ndk::thermal::status_to_io_result(13), Err(OsError { raw_os_error: 13 }));
}
