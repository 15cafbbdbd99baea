//! Media status codes, which `libmediandk.so` and other libraries such as `libamidi.so` return.
use vstd::prelude::*;

verus! {

/// Media status codes of `media_status_t`.
#[derive(Copy, Clone, Debug, PartialEq, Eq, Hash, Structural)]
pub enum MediaError {
    CodecErrorInsufficientResource,
    CodecErrorReclaimed,
    ErrorUnknown,
    ErrorMalformed,
    ErrorUnsupported,
    ErrorInvalidObject,
    ErrorInvalidParameter,
    ErrorInvalidOperation,
    ErrorEndOfStream,
    ErrorIo,
    ErrorWouldBlock,
    DrmErrorBase,
    DrmNotProvisioned,
    DrmResourceBusy,
    DrmDeviceRevoked,
    DrmShortBuffer,
    DrmSessionNotOpened,
    DrmTamperDetected,
    DrmVerifyFailed,
    DrmNeedKey,
    DrmLicenseExpired,
    ImgreaderErrorBase,
    ImgreaderNoBufferAvailable,
    ImgreaderMaxImagesAcquired,
    ImgreaderCannotLockImage,
    ImgreaderCannotUnlockImage,
    ImgreaderImageNotLocked,
    /// This error code is not known to this library.
    Unknown(i32),
}

impl MediaError {
    /// The raw code of a value.
    pub open spec fn spec_code(self) -> i32 {
        match self {
            MediaError::CodecErrorInsufficientResource => 1100i32,
            MediaError::CodecErrorReclaimed => 1101i32,
            MediaError::ErrorUnknown => -10000i32,
            MediaError::ErrorMalformed => -10001i32,
            MediaError::ErrorUnsupported => -10002i32,
            MediaError::ErrorInvalidObject => -10003i32,
            MediaError::ErrorInvalidParameter => -10004i32,
            MediaError::ErrorInvalidOperation => -10005i32,
            MediaError::ErrorEndOfStream => -10006i32,
            MediaError::ErrorIo => -10007i32,
            MediaError::ErrorWouldBlock => -10008i32,
            MediaError::DrmErrorBase => -20000i32,
            MediaError::DrmNotProvisioned => -20001i32,
            MediaError::DrmResourceBusy => -20002i32,
            MediaError::DrmDeviceRevoked => -20003i32,
            MediaError::DrmShortBuffer => -20004i32,
            MediaError::DrmSessionNotOpened => -20005i32,
            MediaError::DrmTamperDetected => -20006i32,
            MediaError::DrmVerifyFailed => -20007i32,
            MediaError::DrmNeedKey => -20008i32,
            MediaError::DrmLicenseExpired => -20009i32,
            MediaError::ImgreaderErrorBase => -30000i32,
            MediaError::ImgreaderNoBufferAvailable => -30001i32,
            MediaError::ImgreaderMaxImagesAcquired => -30002i32,
            MediaError::ImgreaderCannotLockImage => -30003i32,
            MediaError::ImgreaderCannotUnlockImage => -30004i32,
            MediaError::ImgreaderImageNotLocked => -30005i32,
            MediaError::Unknown(code) => code,
        }
    }

    /// The value that a raw code stands for: a named variant where one exists.
    pub open spec fn spec_from_code(code: i32) -> Self {
        if code == 1100 {
            MediaError::CodecErrorInsufficientResource
        } else if code == 1101 {
            MediaError::CodecErrorReclaimed
        } else if code == -10000 {
            MediaError::ErrorUnknown
        } else if code == -10001 {
            MediaError::ErrorMalformed
        } else if code == -10002 {
            MediaError::ErrorUnsupported
        } else if code == -10003 {
            MediaError::ErrorInvalidObject
        } else if code == -10004 {
            MediaError::ErrorInvalidParameter
        } else if code == -10005 {
            MediaError::ErrorInvalidOperation
        } else if code == -10006 {
            MediaError::ErrorEndOfStream
        } else if code == -10007 {
            MediaError::ErrorIo
        } else if code == -10008 {
            MediaError::ErrorWouldBlock
        } else if code == -20000 {
            MediaError::DrmErrorBase
        } else if code == -20001 {
            MediaError::DrmNotProvisioned
        } else if code == -20002 {
            MediaError::DrmResourceBusy
        } else if code == -20003 {
            MediaError::DrmDeviceRevoked
        } else if code == -20004 {
            MediaError::DrmShortBuffer
        } else if code == -20005 {
            MediaError::DrmSessionNotOpened
        } else if code == -20006 {
            MediaError::DrmTamperDetected
        } else if code == -20007 {
            MediaError::DrmVerifyFailed
        } else if code == -20008 {
            MediaError::DrmNeedKey
        } else if code == -20009 {
            MediaError::DrmLicenseExpired
        } else if code == -30000 {
            MediaError::ImgreaderErrorBase
        } else if code == -30001 {
            MediaError::ImgreaderNoBufferAvailable
        } else if code == -30002 {
            MediaError::ImgreaderMaxImagesAcquired
        } else if code == -30003 {
            MediaError::ImgreaderCannotLockImage
        } else if code == -30004 {
            MediaError::ImgreaderCannotUnlockImage
        } else if code == -30005 {
            MediaError::ImgreaderImageNotLocked
        } else {
            MediaError::Unknown(code)
        }
    }

    /// A value is canonical when it is a named variant, or holds a code that no variant names.
    pub open spec fn is_canonical(self) -> bool {
        match self {
            MediaError::Unknown(code) => Self::spec_from_code(code) == self,
            _ => true,
        }
    }

    /// The value that the raw code `value` stands for.
    pub fn from_raw(value: i32) -> (r: Self)
        ensures
            r == Self::spec_from_code(value),
            r.is_canonical(),
    {
        match value {
            1100 => MediaError::CodecErrorInsufficientResource,
            1101 => MediaError::CodecErrorReclaimed,
            -10000 => MediaError::ErrorUnknown,
            -10001 => MediaError::ErrorMalformed,
            -10002 => MediaError::ErrorUnsupported,
            -10003 => MediaError::ErrorInvalidObject,
            -10004 => MediaError::ErrorInvalidParameter,
            -10005 => MediaError::ErrorInvalidOperation,
            -10006 => MediaError::ErrorEndOfStream,
            -10007 => MediaError::ErrorIo,
            -10008 => MediaError::ErrorWouldBlock,
            -20000 => MediaError::DrmErrorBase,
            -20001 => MediaError::DrmNotProvisioned,
            -20002 => MediaError::DrmResourceBusy,
            -20003 => MediaError::DrmDeviceRevoked,
            -20004 => MediaError::DrmShortBuffer,
            -20005 => MediaError::DrmSessionNotOpened,
            -20006 => MediaError::DrmTamperDetected,
            -20007 => MediaError::DrmVerifyFailed,
            -20008 => MediaError::DrmNeedKey,
            -20009 => MediaError::DrmLicenseExpired,
            -30000 => MediaError::ImgreaderErrorBase,
            -30001 => MediaError::ImgreaderNoBufferAvailable,
            -30002 => MediaError::ImgreaderMaxImagesAcquired,
            -30003 => MediaError::ImgreaderCannotLockImage,
            -30004 => MediaError::ImgreaderCannotUnlockImage,
            -30005 => MediaError::ImgreaderImageNotLocked,
            _ => MediaError::Unknown(value),
        }
    }

    /// The raw code of this value.
    pub fn into_raw(self) -> (r: i32)
        ensures
            r == self.spec_code(),
    {
        match self {
            MediaError::CodecErrorInsufficientResource => 1100,
            MediaError::CodecErrorReclaimed => 1101,
            MediaError::ErrorUnknown => -10000,
            MediaError::ErrorMalformed => -10001,
            MediaError::ErrorUnsupported => -10002,
            MediaError::ErrorInvalidObject => -10003,
            MediaError::ErrorInvalidParameter => -10004,
            MediaError::ErrorInvalidOperation => -10005,
            MediaError::ErrorEndOfStream => -10006,
            MediaError::ErrorIo => -10007,
            MediaError::ErrorWouldBlock => -10008,
            MediaError::DrmErrorBase => -20000,
            MediaError::DrmNotProvisioned => -20001,
            MediaError::DrmResourceBusy => -20002,
            MediaError::DrmDeviceRevoked => -20003,
            MediaError::DrmShortBuffer => -20004,
            MediaError::DrmSessionNotOpened => -20005,
            MediaError::DrmTamperDetected => -20006,
            MediaError::DrmVerifyFailed => -20007,
            MediaError::DrmNeedKey => -20008,
            MediaError::DrmLicenseExpired => -20009,
            MediaError::ImgreaderErrorBase => -30000,
            MediaError::ImgreaderNoBufferAvailable => -30001,
            MediaError::ImgreaderMaxImagesAcquired => -30002,
            MediaError::ImgreaderCannotLockImage => -30003,
            MediaError::ImgreaderCannotUnlockImage => -30004,
            MediaError::ImgreaderImageNotLocked => -30005,
            MediaError::Unknown(code) => code,
        }
    }

    /// Reading a raw code and turning the value back into a code gives the same code.
    pub proof fn lemma_code_round_trip(code: i32)
        ensures
            Self::spec_from_code(code).spec_code() == code,
            Self::spec_from_code(code).is_canonical(),
    {
    }

    /// Turning a canonical value into its code and reading it back gives the same value.
    pub proof fn lemma_value_round_trip(self)
        requires
            self.is_canonical(),
        ensures
            Self::spec_from_code(self.spec_code()) == self,
    {
    }
}

impl MediaError {
    /// Each variant's code is the value that the NDK's headers give its constant, so decoding
    /// that value gives the variant and encoding the variant gives the value. The constants are
    /// the `AMEDIA*` ones.
    pub proof fn lemma_ndk_codes()
        ensures
            MediaError::CodecErrorInsufficientResource.spec_code() == 1100,
            MediaError::CodecErrorReclaimed.spec_code() == 1101,
            MediaError::ErrorUnknown.spec_code() == -10000,
            MediaError::ErrorMalformed.spec_code() == -10001,
            MediaError::ErrorUnsupported.spec_code() == -10002,
            MediaError::ErrorInvalidObject.spec_code() == -10003,
            MediaError::ErrorInvalidParameter.spec_code() == -10004,
            MediaError::ErrorInvalidOperation.spec_code() == -10005,
            MediaError::ErrorEndOfStream.spec_code() == -10006,
            MediaError::ErrorIo.spec_code() == -10007,
            MediaError::ErrorWouldBlock.spec_code() == -10008,
            MediaError::DrmErrorBase.spec_code() == -20000,
            MediaError::DrmNotProvisioned.spec_code() == -20001,
            MediaError::DrmResourceBusy.spec_code() == -20002,
            MediaError::DrmDeviceRevoked.spec_code() == -20003,
            MediaError::DrmShortBuffer.spec_code() == -20004,
            MediaError::DrmSessionNotOpened.spec_code() == -20005,
            MediaError::DrmTamperDetected.spec_code() == -20006,
            MediaError::DrmVerifyFailed.spec_code() == -20007,
            MediaError::DrmNeedKey.spec_code() == -20008,
            MediaError::DrmLicenseExpired.spec_code() == -20009,
            MediaError::ImgreaderErrorBase.spec_code() == -30000,
            MediaError::ImgreaderNoBufferAvailable.spec_code() == -30001,
            MediaError::ImgreaderMaxImagesAcquired.spec_code() == -30002,
            MediaError::ImgreaderCannotLockImage.spec_code() == -30003,
            MediaError::ImgreaderCannotUnlockImage.spec_code() == -30004,
            MediaError::ImgreaderImageNotLocked.spec_code() == -30005,
            MediaError::spec_from_code(1100i32) == MediaError::CodecErrorInsufficientResource,
            MediaError::spec_from_code(1101i32) == MediaError::CodecErrorReclaimed,
            MediaError::spec_from_code(-10000i32) == MediaError::ErrorUnknown,
            MediaError::spec_from_code(-10001i32) == MediaError::ErrorMalformed,
            MediaError::spec_from_code(-10002i32) == MediaError::ErrorUnsupported,
            MediaError::spec_from_code(-10003i32) == MediaError::ErrorInvalidObject,
            MediaError::spec_from_code(-10004i32) == MediaError::ErrorInvalidParameter,
            MediaError::spec_from_code(-10005i32) == MediaError::ErrorInvalidOperation,
            MediaError::spec_from_code(-10006i32) == MediaError::ErrorEndOfStream,
            MediaError::spec_from_code(-10007i32) == MediaError::ErrorIo,
            MediaError::spec_from_code(-10008i32) == MediaError::ErrorWouldBlock,
            MediaError::spec_from_code(-20000i32) == MediaError::DrmErrorBase,
            MediaError::spec_from_code(-20001i32) == MediaError::DrmNotProvisioned,
            MediaError::spec_from_code(-20002i32) == MediaError::DrmResourceBusy,
            MediaError::spec_from_code(-20003i32) == MediaError::DrmDeviceRevoked,
            MediaError::spec_from_code(-20004i32) == MediaError::DrmShortBuffer,
            MediaError::spec_from_code(-20005i32) == MediaError::DrmSessionNotOpened,
            MediaError::spec_from_code(-20006i32) == MediaError::DrmTamperDetected,
            MediaError::spec_from_code(-20007i32) == MediaError::DrmVerifyFailed,
            MediaError::spec_from_code(-20008i32) == MediaError::DrmNeedKey,
            MediaError::spec_from_code(-20009i32) == MediaError::DrmLicenseExpired,
            MediaError::spec_from_code(-30000i32) == MediaError::ImgreaderErrorBase,
            MediaError::spec_from_code(-30001i32) == MediaError::ImgreaderNoBufferAvailable,
            MediaError::spec_from_code(-30002i32) == MediaError::ImgreaderMaxImagesAcquired,
            MediaError::spec_from_code(-30003i32) == MediaError::ImgreaderCannotLockImage,
            MediaError::spec_from_code(-30004i32) == MediaError::ImgreaderCannotUnlockImage,
            MediaError::spec_from_code(-30005i32) == MediaError::ImgreaderImageNotLocked,
    {
    }
}

/// The raw code of a successful media call.
pub const AMEDIA_OK: i32 = 0;

/// The result that a media status stands for: success for `AMEDIA_OK`, and for any other code
/// (including positive ones) the error that it names.
pub open spec fn spec_media_result(status: i32) -> Result<(), MediaError> {
    if status == AMEDIA_OK {
        Ok(())
    } else {
        Err(MediaError::spec_from_code(status))
    }
}

impl MediaError {
    /// Returns `Ok` on `AMEDIA_OK`, `Err` otherwise (including positive values).
    pub fn from_status(status: i32) -> (r: Result<(), MediaError>)
        ensures
            r == spec_media_result(status),
    {
        if status == AMEDIA_OK {
            Ok(())
        } else {
            Err(MediaError::from_raw(status))
        }
    }

    /// The error that a status other than `AMEDIA_OK` stands for.
    pub fn from_error_status(status: i32) -> (r: MediaError)
        requires
            status != AMEDIA_OK,
        ensures
            r == MediaError::spec_from_code(status),
    {
        MediaError::from_raw(status)
    }

    /// Returns the value itself in `Ok` if it is not negative, and the error that it stands
    /// for otherwise. A negative value must fit an error code.
    pub fn from_status_if_negative(value: isize) -> (r: Result<isize, MediaError>)
        requires
            value >= 0 || value >= i32::MIN,
        ensures
            value >= 0 ==> r == Ok::<isize, MediaError>(value),
            value < 0 ==> r == Err::<isize, MediaError>(MediaError::spec_from_code(value as i32)),
    {
        if value >= 0 {
            Ok(value)
        } else {
            Err(MediaError::from_raw(value as i32))
        }
    }
}

/// The NDK's constants used here have the values that its headers give them.
pub proof fn lemma_ndk_constants()
    ensures
        AMEDIA_OK == 0,
{
}

} // verus!
