//! Android API levels, and how the version codes that the system reports map to them.
use vstd::prelude::*;

verus! {

/// Android API levels, equivalent to the constants of `<android/api-level.h>` and the Java
/// `Build.VERSION_CODES` constants.
#[derive(Copy, Clone, Debug, PartialEq, Eq, Hash, Structural)]
pub enum ApiLevel {
    /// Magic version number for an Android OS build which has not yet turned into an official
    /// release.
    Future,
    /// Names the Gingerbread API level (9)
    G,
    /// Names the Ice-Cream Sandwich API level (14)
    I,
    /// Names the Jellybean API level (16)
    J,
    /// Names the Jellybean MR1 API level (17)
    JMr1,
    /// Names the Jellybean MR2 API level (18)
    JMr2,
    /// Names the KitKat API level (19)
    K,
    /// Names the Lollipop API level (21)
    L,
    /// Names the Lollipop MR1 API level (22)
    LMr1,
    /// Names the Marshmallow API level (23)
    M,
    /// Names the Nougat API level (24)
    N,
    /// Names the Nougat MR1 API level (25)
    NMr1,
    /// Names the Oreo API level (26)
    O,
    /// Names the Oreo MR1 API level (27)
    OMr1,
    /// Names the Pie API level (28)
    P,
    /// Names the Android 10 (aka "Q" or "Quince Tart") API level (29)
    Q,
    /// Names the Android 11 (aka "R" or "Red Velvet Cake") API level (30)
    R,
    /// Names the Android 12 (aka "S" or "Snowcone") API level (31)
    S,
    /// Names the Android 13 (aka "T" or "Tiramisu") API level (33)
    T,
    /// Names the Android 14 (aka "U" or "UpsideDownCake") API level (34)
    U,
    /// Names the Android 15 (aka "V" or "VanillaIceCream") API level (35)
    V,
    /// A raw code that names no other variant.
    __Unknown(u32),
}

impl ApiLevel {
    /// The raw code of a value.
    pub open spec fn spec_code(self) -> u32 {
        match self {
            ApiLevel::Future => 10000u32,
            ApiLevel::G => 9u32,
            ApiLevel::I => 14u32,
            ApiLevel::J => 16u32,
            ApiLevel::JMr1 => 17u32,
            ApiLevel::JMr2 => 18u32,
            ApiLevel::K => 19u32,
            ApiLevel::L => 21u32,
            ApiLevel::LMr1 => 22u32,
            ApiLevel::M => 23u32,
            ApiLevel::N => 24u32,
            ApiLevel::NMr1 => 25u32,
            ApiLevel::O => 26u32,
            ApiLevel::OMr1 => 27u32,
            ApiLevel::P => 28u32,
            ApiLevel::Q => 29u32,
            ApiLevel::R => 30u32,
            ApiLevel::S => 31u32,
            ApiLevel::T => 33u32,
            ApiLevel::U => 34u32,
            ApiLevel::V => 35u32,
            ApiLevel::__Unknown(code) => code,
        }
    }

    /// The value that a raw code stands for: a named variant where one exists.
    pub open spec fn spec_from_code(code: u32) -> Self {
        if code == 10000 {
            ApiLevel::Future
        } else if code == 9 {
            ApiLevel::G
        } else if code == 14 {
            ApiLevel::I
        } else if code == 16 {
            ApiLevel::J
        } else if code == 17 {
            ApiLevel::JMr1
        } else if code == 18 {
            ApiLevel::JMr2
        } else if code == 19 {
            ApiLevel::K
        } else if code == 21 {
            ApiLevel::L
        } else if code == 22 {
            ApiLevel::LMr1
        } else if code == 23 {
            ApiLevel::M
        } else if code == 24 {
            ApiLevel::N
        } else if code == 25 {
            ApiLevel::NMr1
        } else if code == 26 {
            ApiLevel::O
        } else if code == 27 {
            ApiLevel::OMr1
        } else if code == 28 {
            ApiLevel::P
        } else if code == 29 {
            ApiLevel::Q
        } else if code == 30 {
            ApiLevel::R
        } else if code == 31 {
            ApiLevel::S
        } else if code == 33 {
            ApiLevel::T
        } else if code == 34 {
            ApiLevel::U
        } else if code == 35 {
            ApiLevel::V
        } else {
            ApiLevel::__Unknown(code)
        }
    }

    /// A value is canonical when it is a named variant, or holds a code that no variant names.
    pub open spec fn is_canonical(self) -> bool {
        match self {
            ApiLevel::__Unknown(code) => Self::spec_from_code(code) == self,
            _ => true,
        }
    }

    /// The value that the raw code `value` stands for.
    pub fn from_raw(value: u32) -> (r: Self)
        ensures
            r == Self::spec_from_code(value),
            r.is_canonical(),
    {
        match value {
            10000 => ApiLevel::Future,
            9 => ApiLevel::G,
            14 => ApiLevel::I,
            16 => ApiLevel::J,
            17 => ApiLevel::JMr1,
            18 => ApiLevel::JMr2,
            19 => ApiLevel::K,
            21 => ApiLevel::L,
            22 => ApiLevel::LMr1,
            23 => ApiLevel::M,
            24 => ApiLevel::N,
            25 => ApiLevel::NMr1,
            26 => ApiLevel::O,
            27 => ApiLevel::OMr1,
            28 => ApiLevel::P,
            29 => ApiLevel::Q,
            30 => ApiLevel::R,
            31 => ApiLevel::S,
            33 => ApiLevel::T,
            34 => ApiLevel::U,
            35 => ApiLevel::V,
            _ => ApiLevel::__Unknown(value),
        }
    }

    /// The raw code of this value.
    pub fn into_raw(self) -> (r: u32)
        ensures
            r == self.spec_code(),
    {
        match self {
            ApiLevel::Future => 10000,
            ApiLevel::G => 9,
            ApiLevel::I => 14,
            ApiLevel::J => 16,
            ApiLevel::JMr1 => 17,
            ApiLevel::JMr2 => 18,
            ApiLevel::K => 19,
            ApiLevel::L => 21,
            ApiLevel::LMr1 => 22,
            ApiLevel::M => 23,
            ApiLevel::N => 24,
            ApiLevel::NMr1 => 25,
            ApiLevel::O => 26,
            ApiLevel::OMr1 => 27,
            ApiLevel::P => 28,
            ApiLevel::Q => 29,
            ApiLevel::R => 30,
            ApiLevel::S => 31,
            ApiLevel::T => 33,
            ApiLevel::U => 34,
            ApiLevel::V => 35,
            ApiLevel::__Unknown(code) => code,
        }
    }

    /// Reading a raw code and turning the value back into a code gives the same code.
    pub proof fn lemma_code_round_trip(code: u32)
        ensures
            Self::spec_from_code(code).spec_code() == code,
            Self::spec_from_code(code).is_canonical(),
    {
    }

    /// Turning a canonical value into its code and reading it back gives the same value.
    pub proof fn lemma_value_round_trip(self)
        requires
            self.is_canonical(),
        ensures
            Self::spec_from_code(self.spec_code()) == self,
    {
    }
}

impl ApiLevel {
    /// Each variant's code is the value that the NDK's headers give its constant, so decoding
    /// that value gives the variant and encoding the variant gives the value. The constants are
    /// the `__ANDROID_API_*` ones.
    pub proof fn lemma_ndk_codes()
        ensures
            ApiLevel::Future.spec_code() == 10000,
            ApiLevel::G.spec_code() == 9,
            ApiLevel::I.spec_code() == 14,
            ApiLevel::J.spec_code() == 16,
            ApiLevel::JMr1.spec_code() == 17,
            ApiLevel::JMr2.spec_code() == 18,
            ApiLevel::K.spec_code() == 19,
            ApiLevel::L.spec_code() == 21,
            ApiLevel::LMr1.spec_code() == 22,
            ApiLevel::M.spec_code() == 23,
            ApiLevel::N.spec_code() == 24,
            ApiLevel::NMr1.spec_code() == 25,
            ApiLevel::O.spec_code() == 26,
            ApiLevel::OMr1.spec_code() == 27,
            ApiLevel::P.spec_code() == 28,
            ApiLevel::Q.spec_code() == 29,
            ApiLevel::R.spec_code() == 30,
            ApiLevel::S.spec_code() == 31,
            ApiLevel::T.spec_code() == 33,
            ApiLevel::U.spec_code() == 34,
            ApiLevel::V.spec_code() == 35,
            ApiLevel::spec_from_code(10000u32) == ApiLevel::Future,
            ApiLevel::spec_from_code(9u32) == ApiLevel::G,
            ApiLevel::spec_from_code(14u32) == ApiLevel::I,
            ApiLevel::spec_from_code(16u32) == ApiLevel::J,
            ApiLevel::spec_from_code(17u32) == ApiLevel::JMr1,
            ApiLevel::spec_from_code(18u32) == ApiLevel::JMr2,
            ApiLevel::spec_from_code(19u32) == ApiLevel::K,
            ApiLevel::spec_from_code(21u32) == ApiLevel::L,
            ApiLevel::spec_from_code(22u32) == ApiLevel::LMr1,
            ApiLevel::spec_from_code(23u32) == ApiLevel::M,
            ApiLevel::spec_from_code(24u32) == ApiLevel::N,
            ApiLevel::spec_from_code(25u32) == ApiLevel::NMr1,
            ApiLevel::spec_from_code(26u32) == ApiLevel::O,
            ApiLevel::spec_from_code(27u32) == ApiLevel::OMr1,
            ApiLevel::spec_from_code(28u32) == ApiLevel::P,
            ApiLevel::spec_from_code(29u32) == ApiLevel::Q,
            ApiLevel::spec_from_code(30u32) == ApiLevel::R,
            ApiLevel::spec_from_code(31u32) == ApiLevel::S,
            ApiLevel::spec_from_code(33u32) == ApiLevel::T,
            ApiLevel::spec_from_code(34u32) == ApiLevel::U,
            ApiLevel::spec_from_code(35u32) == ApiLevel::V,
    {
    }
}

/// Possible failures of reading the device API level.
#[derive(Copy, Clone, Debug, PartialEq, Eq, Structural)]
pub enum DeviceApiLevelError {
    /// The device reported a negative version code.
    TryFromIntError,
}

/// The API level that a version code stands for: a negative code is an error.
pub fn api_level_from_version(version: i32) -> (r: Result<ApiLevel, DeviceApiLevelError>)
    ensures
        version < 0 ==> r == Err::<ApiLevel, DeviceApiLevelError>(
            DeviceApiLevelError::TryFromIntError,
        ),
        version >= 0 ==> r == Ok::<ApiLevel, DeviceApiLevelError>(
            ApiLevel::spec_from_code(version as u32),
        ),
{
    if version < 0 {
        Err(DeviceApiLevelError::TryFromIntError)
    } else {
        Ok(ApiLevel::from_raw(version as u32))
    }
}

/// The API level of the `targetSdkVersion` that the system reports, which is never negative.
pub fn target_sdk_version_to_api_level(version: i32) -> (r: ApiLevel)
    requires
        version >= 0,
    ensures
        r == ApiLevel::spec_from_code(version as u32),
{
    ApiLevel::from_raw(version as u32)
}

} // verus!
