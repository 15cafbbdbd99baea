//! Thermal status values and the status decoding of the thermal manager.
use crate::utils::OsError;
use vstd::prelude::*;

verus! {

/// Thermal status of the device.
#[derive(Copy, Clone, Debug, PartialEq, Eq, Hash, Structural)]
pub enum ThermalStatus {
    /// Error in thermal status.
    Error,
    /// Not under throttling.
    NoThrottling,
    /// Light throttling where UX is not impacted.
    Light,
    /// Moderate throttling where UX is not largely impacted.
    Moderate,
    /// Severe throttling where UX is largely impacted.
    Severe,
    /// Platform has done everything to reduce power.
    Critical,
    /// Key components in platform are shutting down due to thermal condition. Device
    /// functionalities will be limited.
    Emergency,
    /// Need shutdown immediately.
    Shutdown,
    /// A raw code that names no other variant.
    __Unknown(i32),
}

impl ThermalStatus {
    /// The raw code of a value.
    pub open spec fn spec_code(self) -> i32 {
        match self {
            ThermalStatus::Error => -1i32,
            ThermalStatus::NoThrottling => 0i32,
            ThermalStatus::Light => 1i32,
            ThermalStatus::Moderate => 2i32,
            ThermalStatus::Severe => 3i32,
            ThermalStatus::Critical => 4i32,
            ThermalStatus::Emergency => 5i32,
            ThermalStatus::Shutdown => 6i32,
            ThermalStatus::__Unknown(code) => code,
        }
    }

    /// The value that a raw code stands for: a named variant where one exists.
    pub open spec fn spec_from_code(code: i32) -> Self {
        if code == -1 {
            ThermalStatus::Error
        } else if code == 0 {
            ThermalStatus::NoThrottling
        } else if code == 1 {
            ThermalStatus::Light
        } else if code == 2 {
            ThermalStatus::Moderate
        } else if code == 3 {
            ThermalStatus::Severe
        } else if code == 4 {
            ThermalStatus::Critical
        } else if code == 5 {
            ThermalStatus::Emergency
        } else if code == 6 {
            ThermalStatus::Shutdown
        } else {
            ThermalStatus::__Unknown(code)
        }
    }

    /// A value is canonical when it is a named variant, or holds a code that no variant names.
    pub open spec fn is_canonical(self) -> bool {
        match self {
            ThermalStatus::__Unknown(code) => Self::spec_from_code(code) == self,
            _ => true,
        }
    }

    /// The value that the raw code `value` stands for.
    pub fn from_raw(value: i32) -> (r: Self)
        ensures
            r == Self::spec_from_code(value),
            r.is_canonical(),
    {
        match value {
            -1 => ThermalStatus::Error,
            0 => ThermalStatus::NoThrottling,
            1 => ThermalStatus::Light,
            2 => ThermalStatus::Moderate,
            3 => ThermalStatus::Severe,
            4 => ThermalStatus::Critical,
            5 => ThermalStatus::Emergency,
            6 => ThermalStatus::Shutdown,
            _ => ThermalStatus::__Unknown(value),
        }
    }

    /// The raw code of this value.
    pub fn into_raw(self) -> (r: i32)
        ensures
            r == self.spec_code(),
    {
        match self {
            ThermalStatus::Error => -1,
            ThermalStatus::NoThrottling => 0,
            ThermalStatus::Light => 1,
            ThermalStatus::Moderate => 2,
            ThermalStatus::Severe => 3,
            ThermalStatus::Critical => 4,
            ThermalStatus::Emergency => 5,
            ThermalStatus::Shutdown => 6,
            ThermalStatus::__Unknown(code) => code,
        }
    }

    /// Reading a raw code and turning the value back into a code gives the same code.
    pub proof fn lemma_code_round_trip(code: i32)
        ensures
            Self::spec_from_code(code).spec_code() == code,
            Self::spec_from_code(code).is_canonical(),
    {
    }

    /// Turning a canonical value into its code and reading it back gives the same value.
    pub proof fn lemma_value_round_trip(self)
        requires
            self.is_canonical(),
        ensures
            Self::spec_from_code(self.spec_code()) == self,
    {
    }
}

impl ThermalStatus {
    /// Each variant's code is the value that the NDK's headers give its constant, so decoding
    /// that value gives the variant and encoding the variant gives the value.
    pub proof fn lemma_ndk_codes()
        ensures
            ThermalStatus::Error.spec_code() == -1,
            ThermalStatus::NoThrottling.spec_code() == 0,
            ThermalStatus::Light.spec_code() == 1,
            ThermalStatus::Moderate.spec_code() == 2,
            ThermalStatus::Severe.spec_code() == 3,
            ThermalStatus::Critical.spec_code() == 4,
            ThermalStatus::Emergency.spec_code() == 5,
            ThermalStatus::Shutdown.spec_code() == 6,
            ThermalStatus::spec_from_code(-1i32) == ThermalStatus::Error,
            ThermalStatus::spec_from_code(0i32) == ThermalStatus::NoThrottling,
            ThermalStatus::spec_from_code(1i32) == ThermalStatus::Light,
            ThermalStatus::spec_from_code(2i32) == ThermalStatus::Moderate,
            ThermalStatus::spec_from_code(3i32) == ThermalStatus::Severe,
            ThermalStatus::spec_from_code(4i32) == ThermalStatus::Critical,
            ThermalStatus::spec_from_code(5i32) == ThermalStatus::Emergency,
            ThermalStatus::spec_from_code(6i32) == ThermalStatus::Shutdown,
    {
    }
}

/// The result of a thermal manager call, which returns a positive `errno` code on failure.
pub fn status_to_io_result(status: i32) -> (r: Result<(), OsError>)
    requires
        status >= 0,
    ensures
        status == 0 ==> r == Ok::<(), OsError>(()),
        status > 0 ==> r == Err::<(), OsError>(OsError { raw_os_error: status }),
{
    crate::utils::status_to_io_result(-status, ())
}

} // verus!
