//! Errors of the media classes, as an error result or an unknown status.
use crate::raw::RawEnum;
use vstd::prelude::*;

verus! {

#[derive(Copy, Clone, Debug, PartialEq, Eq, Hash, Structural)]
pub enum MediaErrorResult {
    CodecErrorInsufficientResource,
    CodecErrorReclaimed,
    ErrorUnknown,
    ErrorMalformed,
    ErrorUnsupported,
    ErrorInvalidObject,
    ErrorInvalidParameter,
    ErrorInvalidOperation,
    ErrorEndOfStream,
    ErrorIo,
    ErrorWouldBlock,
    DrmErrorBase,
    DrmNotProvisioned,
    DrmResourceBusy,
    DrmDeviceRevoked,
    DrmShortBuffer,
    DrmSessionNotOpened,
    DrmTamperDetected,
    DrmVerifyFailed,
    DrmNeedKey,
    DrmLicenseExpired,
    ImgreaderErrorBase,
    ImgreaderNoBufferAvailable,
    ImgreaderMaxImagesAcquired,
    ImgreaderCannotLockImage,
    ImgreaderCannotUnlockImage,
    ImgreaderImageNotLocked,
}

impl RawEnum for MediaErrorResult {
    open spec fn spec_code(self) -> int {
        match self {
            MediaErrorResult::CodecErrorInsufficientResource => 1100,
            MediaErrorResult::CodecErrorReclaimed => 1101,
            MediaErrorResult::ErrorUnknown => -10000,
            MediaErrorResult::ErrorMalformed => -10001,
            MediaErrorResult::ErrorUnsupported => -10002,
            MediaErrorResult::ErrorInvalidObject => -10003,
            MediaErrorResult::ErrorInvalidParameter => -10004,
            MediaErrorResult::ErrorInvalidOperation => -10005,
            MediaErrorResult::ErrorEndOfStream => -10006,
            MediaErrorResult::ErrorIo => -10007,
            MediaErrorResult::ErrorWouldBlock => -10008,
            MediaErrorResult::DrmErrorBase => -20000,
            MediaErrorResult::DrmNotProvisioned => -20001,
            MediaErrorResult::DrmResourceBusy => -20002,
            MediaErrorResult::DrmDeviceRevoked => -20003,
            MediaErrorResult::DrmShortBuffer => -20004,
            MediaErrorResult::DrmSessionNotOpened => -20005,
            MediaErrorResult::DrmTamperDetected => -20006,
            MediaErrorResult::DrmVerifyFailed => -20007,
            MediaErrorResult::DrmNeedKey => -20008,
            MediaErrorResult::DrmLicenseExpired => -20009,
            MediaErrorResult::ImgreaderErrorBase => -30000,
            MediaErrorResult::ImgreaderNoBufferAvailable => -30001,
            MediaErrorResult::ImgreaderMaxImagesAcquired => -30002,
            MediaErrorResult::ImgreaderCannotLockImage => -30003,
            MediaErrorResult::ImgreaderCannotUnlockImage => -30004,
            MediaErrorResult::ImgreaderImageNotLocked => -30005,
        }
    }

    open spec fn spec_from_code(code: int) -> Option<Self> {
        if code == 1100 {
            Some(MediaErrorResult::CodecErrorInsufficientResource)
        } else if code == 1101 {
            Some(MediaErrorResult::CodecErrorReclaimed)
        } else if code == -10000 {
            Some(MediaErrorResult::ErrorUnknown)
        } else if code == -10001 {
            Some(MediaErrorResult::ErrorMalformed)
        } else if code == -10002 {
            Some(MediaErrorResult::ErrorUnsupported)
        } else if code == -10003 {
            Some(MediaErrorResult::ErrorInvalidObject)
        } else if code == -10004 {
            Some(MediaErrorResult::ErrorInvalidParameter)
        } else if code == -10005 {
            Some(MediaErrorResult::ErrorInvalidOperation)
        } else if code == -10006 {
            Some(MediaErrorResult::ErrorEndOfStream)
        } else if code == -10007 {
            Some(MediaErrorResult::ErrorIo)
        } else if code == -10008 {
            Some(MediaErrorResult::ErrorWouldBlock)
        } else if code == -20000 {
            Some(MediaErrorResult::DrmErrorBase)
        } else if code == -20001 {
            Some(MediaErrorResult::DrmNotProvisioned)
        } else if code == -20002 {
            Some(MediaErrorResult::DrmResourceBusy)
        } else if code == -20003 {
            Some(MediaErrorResult::DrmDeviceRevoked)
        } else if code == -20004 {
            Some(MediaErrorResult::DrmShortBuffer)
        } else if code == -20005 {
            Some(MediaErrorResult::DrmSessionNotOpened)
        } else if code == -20006 {
            Some(MediaErrorResult::DrmTamperDetected)
        } else if code == -20007 {
            Some(MediaErrorResult::DrmVerifyFailed)
        } else if code == -20008 {
            Some(MediaErrorResult::DrmNeedKey)
        } else if code == -20009 {
            Some(MediaErrorResult::DrmLicenseExpired)
        } else if code == -30000 {
            Some(MediaErrorResult::ImgreaderErrorBase)
        } else if code == -30001 {
            Some(MediaErrorResult::ImgreaderNoBufferAvailable)
        } else if code == -30002 {
            Some(MediaErrorResult::ImgreaderMaxImagesAcquired)
        } else if code == -30003 {
            Some(MediaErrorResult::ImgreaderCannotLockImage)
        } else if code == -30004 {
            Some(MediaErrorResult::ImgreaderCannotUnlockImage)
        } else if code == -30005 {
            Some(MediaErrorResult::ImgreaderImageNotLocked)
        } else {
            None
        }
    }

    fn try_from_code(code: i64) -> (r: Option<Self>) {
        match code {
            1100 => Some(MediaErrorResult::CodecErrorInsufficientResource),
            1101 => Some(MediaErrorResult::CodecErrorReclaimed),
            -10000 => Some(MediaErrorResult::ErrorUnknown),
            -10001 => Some(MediaErrorResult::ErrorMalformed),
            -10002 => Some(MediaErrorResult::ErrorUnsupported),
            -10003 => Some(MediaErrorResult::ErrorInvalidObject),
            -10004 => Some(MediaErrorResult::ErrorInvalidParameter),
            -10005 => Some(MediaErrorResult::ErrorInvalidOperation),
            -10006 => Some(MediaErrorResult::ErrorEndOfStream),
            -10007 => Some(MediaErrorResult::ErrorIo),
            -10008 => Some(MediaErrorResult::ErrorWouldBlock),
            -20000 => Some(MediaErrorResult::DrmErrorBase),
            -20001 => Some(MediaErrorResult::DrmNotProvisioned),
            -20002 => Some(MediaErrorResult::DrmResourceBusy),
            -20003 => Some(MediaErrorResult::DrmDeviceRevoked),
            -20004 => Some(MediaErrorResult::DrmShortBuffer),
            -20005 => Some(MediaErrorResult::DrmSessionNotOpened),
            -20006 => Some(MediaErrorResult::DrmTamperDetected),
            -20007 => Some(MediaErrorResult::DrmVerifyFailed),
            -20008 => Some(MediaErrorResult::DrmNeedKey),
            -20009 => Some(MediaErrorResult::DrmLicenseExpired),
            -30000 => Some(MediaErrorResult::ImgreaderErrorBase),
            -30001 => Some(MediaErrorResult::ImgreaderNoBufferAvailable),
            -30002 => Some(MediaErrorResult::ImgreaderMaxImagesAcquired),
            -30003 => Some(MediaErrorResult::ImgreaderCannotLockImage),
            -30004 => Some(MediaErrorResult::ImgreaderCannotUnlockImage),
            -30005 => Some(MediaErrorResult::ImgreaderImageNotLocked),
            _ => None,
        }
    }

    proof fn lemma_code_round_trip(self) {
    }

    proof fn lemma_from_code_inverse(code: int) {
    }
}

impl MediaErrorResult {
    /// Each variant's code is the value that the NDK's headers give its constant, so decoding
    /// that value gives the variant and encoding the variant gives the value. The constants are
    /// the `AMEDIA*` ones.
    pub proof fn lemma_ndk_codes()
        ensures
            MediaErrorResult::CodecErrorInsufficientResource.spec_code() == 1100,
            MediaErrorResult::CodecErrorReclaimed.spec_code() == 1101,
            MediaErrorResult::ErrorUnknown.spec_code() == -10000,
            MediaErrorResult::ErrorMalformed.spec_code() == -10001,
            MediaErrorResult::ErrorUnsupported.spec_code() == -10002,
            MediaErrorResult::ErrorInvalidObject.spec_code() == -10003,
            MediaErrorResult::ErrorInvalidParameter.spec_code() == -10004,
            MediaErrorResult::ErrorInvalidOperation.spec_code() == -10005,
            MediaErrorResult::ErrorEndOfStream.spec_code() == -10006,
            MediaErrorResult::ErrorIo.spec_code() == -10007,
            MediaErrorResult::ErrorWouldBlock.spec_code() == -10008,
            MediaErrorResult::DrmErrorBase.spec_code() == -20000,
            MediaErrorResult::DrmNotProvisioned.spec_code() == -20001,
            MediaErrorResult::DrmResourceBusy.spec_code() == -20002,
            MediaErrorResult::DrmDeviceRevoked.spec_code() == -20003,
            MediaErrorResult::DrmShortBuffer.spec_code() == -20004,
            MediaErrorResult::DrmSessionNotOpened.spec_code() == -20005,
            MediaErrorResult::DrmTamperDetected.spec_code() == -20006,
            MediaErrorResult::DrmVerifyFailed.spec_code() == -20007,
            MediaErrorResult::DrmNeedKey.spec_code() == -20008,
            MediaErrorResult::DrmLicenseExpired.spec_code() == -20009,
            MediaErrorResult::ImgreaderErrorBase.spec_code() == -30000,
            MediaErrorResult::ImgreaderNoBufferAvailable.spec_code() == -30001,
            MediaErrorResult::ImgreaderMaxImagesAcquired.spec_code() == -30002,
            MediaErrorResult::ImgreaderCannotLockImage.spec_code() == -30003,
            MediaErrorResult::ImgreaderCannotUnlockImage.spec_code() == -30004,
            MediaErrorResult::ImgreaderImageNotLocked.spec_code() == -30005,
            MediaErrorResult::spec_from_code(1100) == Some(MediaErrorResult::CodecErrorInsufficientResource),
            MediaErrorResult::spec_from_code(1101) == Some(MediaErrorResult::CodecErrorReclaimed),
            MediaErrorResult::spec_from_code(-10000) == Some(MediaErrorResult::ErrorUnknown),
            MediaErrorResult::spec_from_code(-10001) == Some(MediaErrorResult::ErrorMalformed),
            MediaErrorResult::spec_from_code(-10002) == Some(MediaErrorResult::ErrorUnsupported),
            MediaErrorResult::spec_from_code(-10003) == Some(MediaErrorResult::ErrorInvalidObject),
            MediaErrorResult::spec_from_code(-10004) == Some(MediaErrorResult::ErrorInvalidParameter),
            MediaErrorResult::spec_from_code(-10005) == Some(MediaErrorResult::ErrorInvalidOperation),
            MediaErrorResult::spec_from_code(-10006) == Some(MediaErrorResult::ErrorEndOfStream),
            MediaErrorResult::spec_from_code(-10007) == Some(MediaErrorResult::ErrorIo),
            MediaErrorResult::spec_from_code(-10008) == Some(MediaErrorResult::ErrorWouldBlock),
            MediaErrorResult::spec_from_code(-20000) == Some(MediaErrorResult::DrmErrorBase),
            MediaErrorResult::spec_from_code(-20001) == Some(MediaErrorResult::DrmNotProvisioned),
            MediaErrorResult::spec_from_code(-20002) == Some(MediaErrorResult::DrmResourceBusy),
            MediaErrorResult::spec_from_code(-20003) == Some(MediaErrorResult::DrmDeviceRevoked),
            MediaErrorResult::spec_from_code(-20004) == Some(MediaErrorResult::DrmShortBuffer),
            MediaErrorResult::spec_from_code(-20005) == Some(MediaErrorResult::DrmSessionNotOpened),
            MediaErrorResult::spec_from_code(-20006) == Some(MediaErrorResult::DrmTamperDetected),
            MediaErrorResult::spec_from_code(-20007) == Some(MediaErrorResult::DrmVerifyFailed),
            MediaErrorResult::spec_from_code(-20008) == Some(MediaErrorResult::DrmNeedKey),
            MediaErrorResult::spec_from_code(-20009) == Some(MediaErrorResult::DrmLicenseExpired),
            MediaErrorResult::spec_from_code(-30000) == Some(MediaErrorResult::ImgreaderErrorBase),
            MediaErrorResult::spec_from_code(-30001) == Some(MediaErrorResult::ImgreaderNoBufferAvailable),
            MediaErrorResult::spec_from_code(-30002) == Some(MediaErrorResult::ImgreaderMaxImagesAcquired),
            MediaErrorResult::spec_from_code(-30003) == Some(MediaErrorResult::ImgreaderCannotLockImage),
            MediaErrorResult::spec_from_code(-30004) == Some(MediaErrorResult::ImgreaderCannotUnlockImage),
            MediaErrorResult::spec_from_code(-30005) == Some(MediaErrorResult::ImgreaderImageNotLocked),
    {
    }
}

impl MediaErrorResult {
    /// The variant that the raw code `value` stands for, if any.
    pub fn try_from_raw(value: i32) -> (r: Option<Self>)
        ensures
            r == Self::spec_from_code(value as int),
    {
        match value {
            1100 => Some(MediaErrorResult::CodecErrorInsufficientResource),
            1101 => Some(MediaErrorResult::CodecErrorReclaimed),
            -10000 => Some(MediaErrorResult::ErrorUnknown),
            -10001 => Some(MediaErrorResult::ErrorMalformed),
            -10002 => Some(MediaErrorResult::ErrorUnsupported),
            -10003 => Some(MediaErrorResult::ErrorInvalidObject),
            -10004 => Some(MediaErrorResult::ErrorInvalidParameter),
            -10005 => Some(MediaErrorResult::ErrorInvalidOperation),
            -10006 => Some(MediaErrorResult::ErrorEndOfStream),
            -10007 => Some(MediaErrorResult::ErrorIo),
            -10008 => Some(MediaErrorResult::ErrorWouldBlock),
            -20000 => Some(MediaErrorResult::DrmErrorBase),
            -20001 => Some(MediaErrorResult::DrmNotProvisioned),
            -20002 => Some(MediaErrorResult::DrmResourceBusy),
            -20003 => Some(MediaErrorResult::DrmDeviceRevoked),
            -20004 => Some(MediaErrorResult::DrmShortBuffer),
            -20005 => Some(MediaErrorResult::DrmSessionNotOpened),
            -20006 => Some(MediaErrorResult::DrmTamperDetected),
            -20007 => Some(MediaErrorResult::DrmVerifyFailed),
            -20008 => Some(MediaErrorResult::DrmNeedKey),
            -20009 => Some(MediaErrorResult::DrmLicenseExpired),
            -30000 => Some(MediaErrorResult::ImgreaderErrorBase),
            -30001 => Some(MediaErrorResult::ImgreaderNoBufferAvailable),
            -30002 => Some(MediaErrorResult::ImgreaderMaxImagesAcquired),
            -30003 => Some(MediaErrorResult::ImgreaderCannotLockImage),
            -30004 => Some(MediaErrorResult::ImgreaderCannotUnlockImage),
            -30005 => Some(MediaErrorResult::ImgreaderImageNotLocked),
            _ => None,
        }
    }

    /// The raw code of this variant.
    pub fn into_raw(self) -> (r: i32)
        ensures
            r as int == self.spec_code(),
    {
        match self {
            MediaErrorResult::CodecErrorInsufficientResource => 1100,
            MediaErrorResult::CodecErrorReclaimed => 1101,
            MediaErrorResult::ErrorUnknown => -10000,
            MediaErrorResult::ErrorMalformed => -10001,
            MediaErrorResult::ErrorUnsupported => -10002,
            MediaErrorResult::ErrorInvalidObject => -10003,
            MediaErrorResult::ErrorInvalidParameter => -10004,
            MediaErrorResult::ErrorInvalidOperation => -10005,
            MediaErrorResult::ErrorEndOfStream => -10006,
            MediaErrorResult::ErrorIo => -10007,
            MediaErrorResult::ErrorWouldBlock => -10008,
            MediaErrorResult::DrmErrorBase => -20000,
            MediaErrorResult::DrmNotProvisioned => -20001,
            MediaErrorResult::DrmResourceBusy => -20002,
            MediaErrorResult::DrmDeviceRevoked => -20003,
            MediaErrorResult::DrmShortBuffer => -20004,
            MediaErrorResult::DrmSessionNotOpened => -20005,
            MediaErrorResult::DrmTamperDetected => -20006,
            MediaErrorResult::DrmVerifyFailed => -20007,
            MediaErrorResult::DrmNeedKey => -20008,
            MediaErrorResult::DrmLicenseExpired => -20009,
            MediaErrorResult::ImgreaderErrorBase => -30000,
            MediaErrorResult::ImgreaderNoBufferAvailable => -30001,
            MediaErrorResult::ImgreaderMaxImagesAcquired => -30002,
            MediaErrorResult::ImgreaderCannotLockImage => -30003,
            MediaErrorResult::ImgreaderCannotUnlockImage => -30004,
            MediaErrorResult::ImgreaderImageNotLocked => -30005,
        }
    }
}
/// An error of the media classes.
#[derive(Copy, Clone, Debug, PartialEq, Eq, Structural)]
pub enum NdkMediaError {
    ErrorResult(MediaErrorResult),
    UnknownResult(i32),
}

/// The result that a media status stands for: success for zero, the known error result for a
/// known code, and an unknown result for any other code.
pub open spec fn spec_ndk_media_result(status: i32) -> Result<(), NdkMediaError> {
    if status == 0 {
        Ok(())
    } else {
        match MediaErrorResult::spec_from_code(status as int) {
            Some(e) => Err(NdkMediaError::ErrorResult(e)),
            None => Err(NdkMediaError::UnknownResult(status)),
        }
    }
}

impl NdkMediaError {
    /// Returns `Ok` on a zero status and the error that any other status stands for.
    pub fn from_status(status: i32) -> (r: Result<(), NdkMediaError>)
        ensures
            r == spec_ndk_media_result(status),
    {
        if status == 0 {
            return Ok(());
        }
        match MediaErrorResult::try_from_raw(status) {
            Some(e) => Err(NdkMediaError::ErrorResult(e)),
            None => Err(NdkMediaError::UnknownResult(status)),
        }
    }
}

} // verus!
