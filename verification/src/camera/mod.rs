//! Camera values: error statuses, device errors, capture failures, metadata.
pub mod metadata;
pub mod tags;

use crate::raw::RawEnum;
use vstd::prelude::*;

verus! {

#[derive(Copy, Clone, Debug, PartialEq, Eq, Hash, Structural)]
pub enum CameraErrorStatus {
    Unknown,
    InvalidParameter,
    CameraDisconnected,
    NotEnoughMemory,
    MetadataNotFound,
    CameraDevice,
    CameraService,
    SessionClosed,
    InvalidOperation,
    StreamConfigureFail,
    CameraInUse,
    MaxCameraInUse,
    CameraDisabled,
    PermissionDenied,
    UnsupportedOperation,
}

impl RawEnum for CameraErrorStatus {
    open spec fn spec_code(self) -> int {
        match self {
            CameraErrorStatus::Unknown => -10000,
            CameraErrorStatus::InvalidParameter => -10001,
            CameraErrorStatus::CameraDisconnected => -10002,
            CameraErrorStatus::NotEnoughMemory => -10003,
            CameraErrorStatus::MetadataNotFound => -10004,
            CameraErrorStatus::CameraDevice => -10005,
            CameraErrorStatus::CameraService => -10006,
            CameraErrorStatus::SessionClosed => -10007,
            CameraErrorStatus::InvalidOperation => -10008,
            CameraErrorStatus::StreamConfigureFail => -10009,
            CameraErrorStatus::CameraInUse => -10010,
            CameraErrorStatus::MaxCameraInUse => -10011,
            CameraErrorStatus::CameraDisabled => -10012,
            CameraErrorStatus::PermissionDenied => -10013,
            CameraErrorStatus::UnsupportedOperation => -10014,
        }
    }

    open spec fn spec_from_code(code: int) -> Option<Self> {
        if code == -10000 {
            Some(CameraErrorStatus::Unknown)
        } else if code == -10001 {
            Some(CameraErrorStatus::InvalidParameter)
        } else if code == -10002 {
            Some(CameraErrorStatus::CameraDisconnected)
        } else if code == -10003 {
            Some(CameraErrorStatus::NotEnoughMemory)
        } else if code == -10004 {
            Some(CameraErrorStatus::MetadataNotFound)
        } else if code == -10005 {
            Some(CameraErrorStatus::CameraDevice)
        } else if code == -10006 {
            Some(CameraErrorStatus::CameraService)
        } else if code == -10007 {
            Some(CameraErrorStatus::SessionClosed)
        } else if code == -10008 {
            Some(CameraErrorStatus::InvalidOperation)
        } else if code == -10009 {
            Some(CameraErrorStatus::StreamConfigureFail)
        } else if code == -10010 {
            Some(CameraErrorStatus::CameraInUse)
        } else if code == -10011 {
            Some(CameraErrorStatus::MaxCameraInUse)
        } else if code == -10012 {
            Some(CameraErrorStatus::CameraDisabled)
        } else if code == -10013 {
            Some(CameraErrorStatus::PermissionDenied)
        } else if code == -10014 {
            Some(CameraErrorStatus::UnsupportedOperation)
        } else {
            None
        }
    }

    fn try_from_code(code: i64) -> (r: Option<Self>) {
        match code {
            -10000 => Some(CameraErrorStatus::Unknown),
            -10001 => Some(CameraErrorStatus::InvalidParameter),
            -10002 => Some(CameraErrorStatus::CameraDisconnected),
            -10003 => Some(CameraErrorStatus::NotEnoughMemory),
            -10004 => Some(CameraErrorStatus::MetadataNotFound),
            -10005 => Some(CameraErrorStatus::CameraDevice),
            -10006 => Some(CameraErrorStatus::CameraService),
            -10007 => Some(CameraErrorStatus::SessionClosed),
            -10008 => Some(CameraErrorStatus::InvalidOperation),
            -10009 => Some(CameraErrorStatus::StreamConfigureFail),
            -10010 => Some(CameraErrorStatus::CameraInUse),
            -10011 => Some(CameraErrorStatus::MaxCameraInUse),
            -10012 => Some(CameraErrorStatus::CameraDisabled),
            -10013 => Some(CameraErrorStatus::PermissionDenied),
            -10014 => Some(CameraErrorStatus::UnsupportedOperation),
            _ => None,
        }
    }

    proof fn lemma_code_round_trip(self) {
    }

    proof fn lemma_from_code_inverse(code: int) {
    }
}

impl CameraErrorStatus {
    /// Each variant's code is the value that the NDK's headers give its constant, so decoding
    /// that value gives the variant and encoding the variant gives the value. The constants are
    /// the `ACAMERA_ERROR_*` ones.
    pub proof fn lemma_ndk_codes()
        ensures
            CameraErrorStatus::Unknown.spec_code() == -10000,
            CameraErrorStatus::InvalidParameter.spec_code() == -10001,
            CameraErrorStatus::CameraDisconnected.spec_code() == -10002,
            CameraErrorStatus::NotEnoughMemory.spec_code() == -10003,
            CameraErrorStatus::MetadataNotFound.spec_code() == -10004,
            CameraErrorStatus::CameraDevice.spec_code() == -10005,
            CameraErrorStatus::CameraService.spec_code() == -10006,
            CameraErrorStatus::SessionClosed.spec_code() == -10007,
            CameraErrorStatus::InvalidOperation.spec_code() == -10008,
            CameraErrorStatus::StreamConfigureFail.spec_code() == -10009,
            CameraErrorStatus::CameraInUse.spec_code() == -10010,
            CameraErrorStatus::MaxCameraInUse.spec_code() == -10011,
            CameraErrorStatus::CameraDisabled.spec_code() == -10012,
            CameraErrorStatus::PermissionDenied.spec_code() == -10013,
            CameraErrorStatus::UnsupportedOperation.spec_code() == -10014,
            CameraErrorStatus::spec_from_code(-10000) == Some(CameraErrorStatus::Unknown),
            CameraErrorStatus::spec_from_code(-10001) == Some(CameraErrorStatus::InvalidParameter),
            CameraErrorStatus::spec_from_code(-10002) == Some(CameraErrorStatus::CameraDisconnected),
            CameraErrorStatus::spec_from_code(-10003) == Some(CameraErrorStatus::NotEnoughMemory),
            CameraErrorStatus::spec_from_code(-10004) == Some(CameraErrorStatus::MetadataNotFound),
            CameraErrorStatus::spec_from_code(-10005) == Some(CameraErrorStatus::CameraDevice),
            CameraErrorStatus::spec_from_code(-10006) == Some(CameraErrorStatus::CameraService),
            CameraErrorStatus::spec_from_code(-10007) == Some(CameraErrorStatus::SessionClosed),
            CameraErrorStatus::spec_from_code(-10008) == Some(CameraErrorStatus::InvalidOperation),
            CameraErrorStatus::spec_from_code(-10009) == Some(CameraErrorStatus::StreamConfigureFail),
            CameraErrorStatus::spec_from_code(-10010) == Some(CameraErrorStatus::CameraInUse),
            CameraErrorStatus::spec_from_code(-10011) == Some(CameraErrorStatus::MaxCameraInUse),
            CameraErrorStatus::spec_from_code(-10012) == Some(CameraErrorStatus::CameraDisabled),
            CameraErrorStatus::spec_from_code(-10013) == Some(CameraErrorStatus::PermissionDenied),
            CameraErrorStatus::spec_from_code(-10014) == Some(CameraErrorStatus::UnsupportedOperation),
    {
    }
}

impl CameraErrorStatus {
    /// The variant that the raw code `value` stands for, if any.
    pub fn try_from_raw(value: i32) -> (r: Option<Self>)
        ensures
            r == Self::spec_from_code(value as int),
    {
        match value {
            -10000 => Some(CameraErrorStatus::Unknown),
            -10001 => Some(CameraErrorStatus::InvalidParameter),
            -10002 => Some(CameraErrorStatus::CameraDisconnected),
            -10003 => Some(CameraErrorStatus::NotEnoughMemory),
            -10004 => Some(CameraErrorStatus::MetadataNotFound),
            -10005 => Some(CameraErrorStatus::CameraDevice),
            -10006 => Some(CameraErrorStatus::CameraService),
            -10007 => Some(CameraErrorStatus::SessionClosed),
            -10008 => Some(CameraErrorStatus::InvalidOperation),
            -10009 => Some(CameraErrorStatus::StreamConfigureFail),
            -10010 => Some(CameraErrorStatus::CameraInUse),
            -10011 => Some(CameraErrorStatus::MaxCameraInUse),
            -10012 => Some(CameraErrorStatus::CameraDisabled),
            -10013 => Some(CameraErrorStatus::PermissionDenied),
            -10014 => Some(CameraErrorStatus::UnsupportedOperation),
            _ => None,
        }
    }

    /// The raw code of this variant.
    pub fn into_raw(self) -> (r: i32)
        ensures
            r as int == self.spec_code(),
    {
        match self {
            CameraErrorStatus::Unknown => -10000,
            CameraErrorStatus::InvalidParameter => -10001,
            CameraErrorStatus::CameraDisconnected => -10002,
            CameraErrorStatus::NotEnoughMemory => -10003,
            CameraErrorStatus::MetadataNotFound => -10004,
            CameraErrorStatus::CameraDevice => -10005,
            CameraErrorStatus::CameraService => -10006,
            CameraErrorStatus::SessionClosed => -10007,
            CameraErrorStatus::InvalidOperation => -10008,
            CameraErrorStatus::StreamConfigureFail => -10009,
            CameraErrorStatus::CameraInUse => -10010,
            CameraErrorStatus::MaxCameraInUse => -10011,
            CameraErrorStatus::CameraDisabled => -10012,
            CameraErrorStatus::PermissionDenied => -10013,
            CameraErrorStatus::UnsupportedOperation => -10014,
        }
    }
}

#[derive(Copy, Clone, Debug, PartialEq, Eq, Hash, Structural)]
pub enum CameraDeviceError {
    CameraInUse,
    MaxCamerasInUse,
    CameraDisabled,
    CameraDevice,
    CameraService,
    /// unknown device error value returned from NDK
    UnrecognizedErrorValue,
}

impl RawEnum for CameraDeviceError {
    open spec fn spec_code(self) -> int {
        match self {
            CameraDeviceError::CameraInUse => 1,
            CameraDeviceError::MaxCamerasInUse => 2,
            CameraDeviceError::CameraDisabled => 3,
            CameraDeviceError::CameraDevice => 4,
            CameraDeviceError::CameraService => 5,
            CameraDeviceError::UnrecognizedErrorValue => 6,
        }
    }

    open spec fn spec_from_code(code: int) -> Option<Self> {
        if code == 1 {
            Some(CameraDeviceError::CameraInUse)
        } else if code == 2 {
            Some(CameraDeviceError::MaxCamerasInUse)
        } else if code == 3 {
            Some(CameraDeviceError::CameraDisabled)
        } else if code == 4 {
            Some(CameraDeviceError::CameraDevice)
        } else if code == 5 {
            Some(CameraDeviceError::CameraService)
        } else if code == 6 {
            Some(CameraDeviceError::UnrecognizedErrorValue)
        } else {
            None
        }
    }

    fn try_from_code(code: i64) -> (r: Option<Self>) {
        match code {
            1 => Some(CameraDeviceError::CameraInUse),
            2 => Some(CameraDeviceError::MaxCamerasInUse),
            3 => Some(CameraDeviceError::CameraDisabled),
            4 => Some(CameraDeviceError::CameraDevice),
            5 => Some(CameraDeviceError::CameraService),
            6 => Some(CameraDeviceError::UnrecognizedErrorValue),
            _ => None,
        }
    }

    proof fn lemma_code_round_trip(self) {
    }

    proof fn lemma_from_code_inverse(code: int) {
    }
}

impl CameraDeviceError {
    /// Each variant's code is the value that the NDK's headers give its constant, so decoding
    /// that value gives the variant and encoding the variant gives the value. The constants are
    /// the `ERROR_*` ones.
    pub proof fn lemma_ndk_codes()
        ensures
            CameraDeviceError::CameraInUse.spec_code() == 1,
            CameraDeviceError::MaxCamerasInUse.spec_code() == 2,
            CameraDeviceError::CameraDisabled.spec_code() == 3,
            CameraDeviceError::CameraDevice.spec_code() == 4,
            CameraDeviceError::CameraService.spec_code() == 5,
            CameraDeviceError::UnrecognizedErrorValue.spec_code() == 6,
            CameraDeviceError::spec_from_code(1) == Some(CameraDeviceError::CameraInUse),
            CameraDeviceError::spec_from_code(2) == Some(CameraDeviceError::MaxCamerasInUse),
            CameraDeviceError::spec_from_code(3) == Some(CameraDeviceError::CameraDisabled),
            CameraDeviceError::spec_from_code(4) == Some(CameraDeviceError::CameraDevice),
            CameraDeviceError::spec_from_code(5) == Some(CameraDeviceError::CameraService),
            CameraDeviceError::spec_from_code(6) == Some(CameraDeviceError::UnrecognizedErrorValue),
    {
    }
}

impl CameraDeviceError {
    /// The variant that the raw code `value` stands for, if any.
    pub fn try_from_raw(value: u32) -> (r: Option<Self>)
        ensures
            r == Self::spec_from_code(value as int),
    {
        match value {
            1 => Some(CameraDeviceError::CameraInUse),
            2 => Some(CameraDeviceError::MaxCamerasInUse),
            3 => Some(CameraDeviceError::CameraDisabled),
            4 => Some(CameraDeviceError::CameraDevice),
            5 => Some(CameraDeviceError::CameraService),
            6 => Some(CameraDeviceError::UnrecognizedErrorValue),
            _ => None,
        }
    }

    /// The raw code of this variant.
    pub fn into_raw(self) -> (r: u32)
        ensures
            r as int == self.spec_code(),
    {
        match self {
            CameraDeviceError::CameraInUse => 1,
            CameraDeviceError::MaxCamerasInUse => 2,
            CameraDeviceError::CameraDisabled => 3,
            CameraDeviceError::CameraDevice => 4,
            CameraDeviceError::CameraService => 5,
            CameraDeviceError::UnrecognizedErrorValue => 6,
        }
    }
}

#[derive(Copy, Clone, Debug, PartialEq, Eq, Hash, Structural)]
pub enum RequestTemplate {
    Preview,
    StilCapture,
    Record,
    VideoSnapshot,
    ZeroShutterLag,
    Manual,
}

impl RawEnum for RequestTemplate {
    open spec fn spec_code(self) -> int {
        match self {
            RequestTemplate::Preview => 1,
            RequestTemplate::StilCapture => 2,
            RequestTemplate::Record => 3,
            RequestTemplate::VideoSnapshot => 4,
            RequestTemplate::ZeroShutterLag => 5,
            RequestTemplate::Manual => 6,
        }
    }

    open spec fn spec_from_code(code: int) -> Option<Self> {
        if code == 1 {
            Some(RequestTemplate::Preview)
        } else if code == 2 {
            Some(RequestTemplate::StilCapture)
        } else if code == 3 {
            Some(RequestTemplate::Record)
        } else if code == 4 {
            Some(RequestTemplate::VideoSnapshot)
        } else if code == 5 {
            Some(RequestTemplate::ZeroShutterLag)
        } else if code == 6 {
            Some(RequestTemplate::Manual)
        } else {
            None
        }
    }

    fn try_from_code(code: i64) -> (r: Option<Self>) {
        match code {
            1 => Some(RequestTemplate::Preview),
            2 => Some(RequestTemplate::StilCapture),
            3 => Some(RequestTemplate::Record),
            4 => Some(RequestTemplate::VideoSnapshot),
            5 => Some(RequestTemplate::ZeroShutterLag),
            6 => Some(RequestTemplate::Manual),
            _ => None,
        }
    }

    proof fn lemma_code_round_trip(self) {
    }

    proof fn lemma_from_code_inverse(code: int) {
    }
}

impl RequestTemplate {
    /// Each variant's code is the value that the NDK's headers give its constant, so decoding
    /// that value gives the variant and encoding the variant gives the value. The constants are
    /// the `TEMPLATE_*` ones.
    pub proof fn lemma_ndk_codes()
        ensures
            RequestTemplate::Preview.spec_code() == 1,
            RequestTemplate::StilCapture.spec_code() == 2,
            RequestTemplate::Record.spec_code() == 3,
            RequestTemplate::VideoSnapshot.spec_code() == 4,
            RequestTemplate::ZeroShutterLag.spec_code() == 5,
            RequestTemplate::Manual.spec_code() == 6,
            RequestTemplate::spec_from_code(1) == Some(RequestTemplate::Preview),
            RequestTemplate::spec_from_code(2) == Some(RequestTemplate::StilCapture),
            RequestTemplate::spec_from_code(3) == Some(RequestTemplate::Record),
            RequestTemplate::spec_from_code(4) == Some(RequestTemplate::VideoSnapshot),
            RequestTemplate::spec_from_code(5) == Some(RequestTemplate::ZeroShutterLag),
            RequestTemplate::spec_from_code(6) == Some(RequestTemplate::Manual),
    {
    }
}

impl RequestTemplate {
    /// The variant that the raw code `value` stands for, if any.
    pub fn try_from_raw(value: u32) -> (r: Option<Self>)
        ensures
            r == Self::spec_from_code(value as int),
    {
        match value {
            1 => Some(RequestTemplate::Preview),
            2 => Some(RequestTemplate::StilCapture),
            3 => Some(RequestTemplate::Record),
            4 => Some(RequestTemplate::VideoSnapshot),
            5 => Some(RequestTemplate::ZeroShutterLag),
            6 => Some(RequestTemplate::Manual),
            _ => None,
        }
    }

    /// The raw code of this variant.
    pub fn into_raw(self) -> (r: u32)
        ensures
            r as int == self.spec_code(),
    {
        match self {
            RequestTemplate::Preview => 1,
            RequestTemplate::StilCapture => 2,
            RequestTemplate::Record => 3,
            RequestTemplate::VideoSnapshot => 4,
            RequestTemplate::ZeroShutterLag => 5,
            RequestTemplate::Manual => 6,
        }
    }
}
/// An error of the camera API.
#[derive(Debug)]
pub enum CameraError {
    /// A known error status.
    ErrorResult(CameraErrorStatus),
    /// A negative status that is not known.
    UnknownError(i32),
    /// A metadata value that names no variant of the enumeration that was asked for.
    UnsupportedEnumValue(i64),
    /// A metadata entry with another number of values than was expected: the number found, and
    /// the one expected.
    InvalidMetadataEntryCount(usize, &'static str),
}

/// The error that a negative camera status stands for.
pub open spec fn spec_camera_error_of(status: i32) -> CameraError {
    match CameraErrorStatus::spec_from_code(status as int) {
        Some(e) => CameraError::ErrorResult(e),
        None => CameraError::UnknownError(status),
    }
}

impl CameraError {
    /// Turns a camera status into `on_success()` when it is not negative, and into the error
    /// that it stands for otherwise.
    pub fn from_status<T, F: FnOnce() -> T>(status: i32, on_success: F) -> (r: Result<T, CameraError>)
        requires
            status >= 0 ==> call_requires(on_success, ()),
        ensures
            status >= 0 ==> (r matches Ok(v) && call_ensures(on_success, (), v)),
            status < 0 ==> r == Err::<T, CameraError>(spec_camera_error_of(status)),
    {
        if status >= 0 {
            return Ok(on_success());
        }
        match CameraErrorStatus::try_from_raw(status) {
            Some(e) => Err(CameraError::ErrorResult(e)),
            None => Err(CameraError::UnknownError(status)),
        }
    }
}

/// The error code of a device-state callback, where a code that names no variant gives
/// `UnrecognizedErrorValue`.
pub fn camera_device_error_from_raw(error: i32) -> (r: CameraDeviceError)
    ensures
        (error >= 0 && CameraDeviceError::spec_from_code(error as int) is Some) ==> r
            == CameraDeviceError::spec_from_code(error as int)->0,
        !(error >= 0 && CameraDeviceError::spec_from_code(error as int) is Some) ==> r
            == CameraDeviceError::UnrecognizedErrorValue,
{
    if error < 0 {
        return CameraDeviceError::UnrecognizedErrorValue;
    }
    match CameraDeviceError::try_from_code(error as i64) {
        Some(e) => e,
        None => CameraDeviceError::UnrecognizedErrorValue,
    }
}

/// Why a capture failed.
#[derive(Copy, Clone, Debug, PartialEq, Eq, Structural)]
pub enum CaptureFailureError {
    Flushed,
    Error,
}

/// The raw code of a capture that failed because it was flushed.
pub const CAPTURE_FAILURE_REASON_FLUSHED: i32 = 0;

/// The raw code of a capture that failed because of an error.
pub const CAPTURE_FAILURE_REASON_ERROR: i32 = 1;

/// A capture that failed, as reported to a capture callback.
#[derive(Copy, Clone, Debug, PartialEq, Eq, Structural)]
pub struct CameraCaptureFailure {
    pub frame_number: i64,
    pub reason: i32,
    pub sequence_id: i32,
    pub was_image_captured: bool,
}

impl CameraCaptureFailure {
    /// The reason of the failure, or the raw reason code where it is not known.
    pub fn reason(&self) -> (r: Result<CaptureFailureError, i32>)
        ensures
            self.reason == CAPTURE_FAILURE_REASON_FLUSHED ==> r == Ok::<CaptureFailureError, i32>(
                CaptureFailureError::Flushed,
            ),
            self.reason == CAPTURE_FAILURE_REASON_ERROR ==> r == Ok::<CaptureFailureError, i32>(
                CaptureFailureError::Error,
            ),
            (self.reason != CAPTURE_FAILURE_REASON_FLUSHED && self.reason
                != CAPTURE_FAILURE_REASON_ERROR) ==> r == Err::<CaptureFailureError, i32>(self.reason),
    {
        if self.reason == CAPTURE_FAILURE_REASON_FLUSHED {
            Ok(CaptureFailureError::Flushed)
        } else if self.reason == CAPTURE_FAILURE_REASON_ERROR {
            Ok(CaptureFailureError::Error)
        } else {
            Err(self.reason)
        }
    }
}

/// The id of a sequence of captures.
#[derive(Copy, Clone, Debug, PartialEq, Eq, PartialOrd, Ord, Structural)]
pub struct CaptureSequenceId(pub i32);

/// The NDK's constants used here have the values that its headers give them.
pub proof fn lemma_ndk_constants()
    ensures
        CAPTURE_FAILURE_REASON_FLUSHED == 0,
        CAPTURE_FAILURE_REASON_ERROR == 1,
{
}

} // verus!
