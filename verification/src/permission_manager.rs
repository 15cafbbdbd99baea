//! Statuses of permission checks.
use vstd::prelude::*;

verus! {

/// Permission check return status values.
#[derive(Copy, Clone, Debug, PartialEq, Eq, Hash, Structural)]
pub enum PermissionManagerStatus {
    /// This is returned if the permission check encountered an unspecified error.
    ErrorUnknown,
    /// This is returned if the permission check failed because the service is unavailable.
    ServiceUnavailable,
    /// A raw code that names no other variant.
    __Unknown(i32),
}

impl PermissionManagerStatus {
    /// The raw code of a value.
    pub open spec fn spec_code(self) -> i32 {
        match self {
            PermissionManagerStatus::ErrorUnknown => -1i32,
            PermissionManagerStatus::ServiceUnavailable => -2i32,
            PermissionManagerStatus::__Unknown(code) => code,
        }
    }

    /// The value that a raw code stands for: a named variant where one exists.
    pub open spec fn spec_from_code(code: i32) -> Self {
        if code == -1 {
            PermissionManagerStatus::ErrorUnknown
        } else if code == -2 {
            PermissionManagerStatus::ServiceUnavailable
        } else {
            PermissionManagerStatus::__Unknown(code)
        }
    }

    /// A value is canonical when it is a named variant, or holds a code that no variant names.
    pub open spec fn is_canonical(self) -> bool {
        match self {
            PermissionManagerStatus::__Unknown(code) => Self::spec_from_code(code) == self,
            _ => true,
        }
    }

    /// The value that the raw code `value` stands for.
    pub fn from_raw(value: i32) -> (r: Self)
        ensures
            r == Self::spec_from_code(value),
            r.is_canonical(),
    {
        match value {
            -1 => PermissionManagerStatus::ErrorUnknown,
            -2 => PermissionManagerStatus::ServiceUnavailable,
            _ => PermissionManagerStatus::__Unknown(value),
        }
    }

    /// The raw code of this value.
    pub fn into_raw(self) -> (r: i32)
        ensures
            r == self.spec_code(),
    {
        match self {
            PermissionManagerStatus::ErrorUnknown => -1,
            PermissionManagerStatus::ServiceUnavailable => -2,
            PermissionManagerStatus::__Unknown(code) => code,
        }
    }

    /// Reading a raw code and turning the value back into a code gives the same code.
    pub proof fn lemma_code_round_trip(code: i32)
        ensures
            Self::spec_from_code(code).spec_code() == code,
            Self::spec_from_code(code).is_canonical(),
    {
    }

    /// Turning a canonical value into its code and reading it back gives the same value.
    pub proof fn lemma_value_round_trip(self)
        requires
            self.is_canonical(),
        ensures
            Self::spec_from_code(self.spec_code()) == self,
    {
    }
}

impl PermissionManagerStatus {
    /// Each variant's code is the value that the NDK's headers give its constant, so decoding
    /// that value gives the variant and encoding the variant gives the value. The constants are
    /// the `PERMISSION_MANAGER_STATUS_*` ones.
    pub proof fn lemma_ndk_codes()
        ensures
            PermissionManagerStatus::ErrorUnknown.spec_code() == -1,
            PermissionManagerStatus::ServiceUnavailable.spec_code() == -2,
            PermissionManagerStatus::spec_from_code(-1i32) == PermissionManagerStatus::ErrorUnknown,
            PermissionManagerStatus::spec_from_code(-2i32) == PermissionManagerStatus::ServiceUnavailable,
    {
    }
}

/// The raw status of a permission check that succeeded.
pub const PERMISSION_MANAGER_STATUS_OK: i32 = 0;

/// The raw result of a permission that is granted.
pub const PERMISSION_MANAGER_PERMISSION_GRANTED: i32 = 0;

/// The raw result of a permission that is denied.
pub const PERMISSION_MANAGER_PERMISSION_DENIED: i32 = -1;

/// The outcome of a permission check from its status and, where the check succeeded, its
/// result, which is then either granted or denied.
pub fn check_permission_result(status: i32, result: i32) -> (r: Result<bool, PermissionManagerStatus>)
    requires
        status == PERMISSION_MANAGER_STATUS_OK ==> (result == PERMISSION_MANAGER_PERMISSION_GRANTED
            || result == PERMISSION_MANAGER_PERMISSION_DENIED),
    ensures
        status == PERMISSION_MANAGER_STATUS_OK ==> r == Ok::<bool, PermissionManagerStatus>(
            result == PERMISSION_MANAGER_PERMISSION_GRANTED,
        ),
        status != PERMISSION_MANAGER_STATUS_OK ==> r == Err::<bool, PermissionManagerStatus>(
            PermissionManagerStatus::spec_from_code(status),
        ),
{
    if status == PERMISSION_MANAGER_STATUS_OK {
        Ok(result == PERMISSION_MANAGER_PERMISSION_GRANTED)
    } else {
        Err(PermissionManagerStatus::from_raw(status))
    }
}

/// The NDK's constants used here have the values that its headers give them.
pub proof fn lemma_ndk_constants()
    ensures
        PERMISSION_MANAGER_STATUS_OK == 0,
        PERMISSION_MANAGER_PERMISSION_GRANTED == 0,
        PERMISSION_MANAGER_PERMISSION_DENIED == -1,
{
}

} // verus!
