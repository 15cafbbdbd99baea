//! Enumerations of camera metadata values.
use super::metadata::CameraEnum;
use crate::raw::RawEnum;
use vstd::prelude::*;

verus! {

/// A metadata tag is the key used for reading or writing camera parameters.
#[derive(Debug, Eq, Clone, Copy, PartialEq, Structural)]
pub struct MetadataTag(pub u32);

#[derive(Copy, Clone, Debug, PartialEq, Eq, Ord, PartialOrd, Structural)]
#[allow(non_camel_case_types)]
pub enum ColorCorrectionMode {
    TRANSFORM_MATRIX,
    FAST,
    HIGH_QUALITY,
}

impl RawEnum for ColorCorrectionMode {
    open spec fn spec_code(self) -> int {
        match self {
            ColorCorrectionMode::TRANSFORM_MATRIX => 0,
            ColorCorrectionMode::FAST => 1,
            ColorCorrectionMode::HIGH_QUALITY => 2,
        }
    }

    open spec fn spec_from_code(code: int) -> Option<Self> {
        if code == 0 {
            Some(ColorCorrectionMode::TRANSFORM_MATRIX)
        } else if code == 1 {
            Some(ColorCorrectionMode::FAST)
        } else if code == 2 {
            Some(ColorCorrectionMode::HIGH_QUALITY)
        } else {
            None
        }
    }

    fn try_from_code(code: i64) -> (r: Option<Self>) {
        match code {
            0 => Some(ColorCorrectionMode::TRANSFORM_MATRIX),
            1 => Some(ColorCorrectionMode::FAST),
            2 => Some(ColorCorrectionMode::HIGH_QUALITY),
            _ => None,
        }
    }

    proof fn lemma_code_round_trip(self) {
    }

    proof fn lemma_from_code_inverse(code: int) {
    }
}

impl ColorCorrectionMode {
    /// Each variant's code is the value that the NDK's headers give its constant, so decoding
    /// that value gives the variant and encoding the variant gives the value.
    pub proof fn lemma_ndk_codes()
        ensures
            ColorCorrectionMode::TRANSFORM_MATRIX.spec_code() == 0,
            ColorCorrectionMode::FAST.spec_code() == 1,
            ColorCorrectionMode::HIGH_QUALITY.spec_code() == 2,
            ColorCorrectionMode::spec_from_code(0) == Some(ColorCorrectionMode::TRANSFORM_MATRIX),
            ColorCorrectionMode::spec_from_code(1) == Some(ColorCorrectionMode::FAST),
            ColorCorrectionMode::spec_from_code(2) == Some(ColorCorrectionMode::HIGH_QUALITY),
    {
    }
}

impl ColorCorrectionMode {
    /// The variant that the raw code `value` stands for, if any.
    pub fn try_from_raw(value: u8) -> (r: Option<Self>)
        ensures
            r == Self::spec_from_code(value as int),
    {
        match value {
            0 => Some(ColorCorrectionMode::TRANSFORM_MATRIX),
            1 => Some(ColorCorrectionMode::FAST),
            2 => Some(ColorCorrectionMode::HIGH_QUALITY),
            _ => None,
        }
    }

    /// The raw code of this variant.
    pub fn into_raw(self) -> (r: u8)
        ensures
            r as int == self.spec_code(),
    {
        match self {
            ColorCorrectionMode::TRANSFORM_MATRIX => 0,
            ColorCorrectionMode::FAST => 1,
            ColorCorrectionMode::HIGH_QUALITY => 2,
        }
    }
}

impl CameraEnum for ColorCorrectionMode {
}

#[derive(Copy, Clone, Debug, PartialEq, Eq, Ord, PartialOrd, Structural)]
#[allow(non_camel_case_types)]
pub enum ColorCorrectionAberrationMode {
    OFF,
    FAST,
    HIGH_QUALITY,
}

impl RawEnum for ColorCorrectionAberrationMode {
    open spec fn spec_code(self) -> int {
        match self {
            ColorCorrectionAberrationMode::OFF => 0,
            ColorCorrectionAberrationMode::FAST => 1,
            ColorCorrectionAberrationMode::HIGH_QUALITY => 2,
        }
    }

    open spec fn spec_from_code(code: int) -> Option<Self> {
        if code == 0 {
            Some(ColorCorrectionAberrationMode::OFF)
        } else if code == 1 {
            Some(ColorCorrectionAberrationMode::FAST)
        } else if code == 2 {
            Some(ColorCorrectionAberrationMode::HIGH_QUALITY)
        } else {
            None
        }
    }

    fn try_from_code(code: i64) -> (r: Option<Self>) {
        match code {
            0 => Some(ColorCorrectionAberrationMode::OFF),
            1 => Some(ColorCorrectionAberrationMode::FAST),
            2 => Some(ColorCorrectionAberrationMode::HIGH_QUALITY),
            _ => None,
        }
    }

    proof fn lemma_code_round_trip(self) {
    }

    proof fn lemma_from_code_inverse(code: int) {
    }
}

impl ColorCorrectionAberrationMode {
    /// Each variant's code is the value that the NDK's headers give its constant, so decoding
    /// that value gives the variant and encoding the variant gives the value.
    pub proof fn lemma_ndk_codes()
        ensures
            ColorCorrectionAberrationMode::OFF.spec_code() == 0,
            ColorCorrectionAberrationMode::FAST.spec_code() == 1,
            ColorCorrectionAberrationMode::HIGH_QUALITY.spec_code() == 2,
            ColorCorrectionAberrationMode::spec_from_code(0) == Some(ColorCorrectionAberrationMode::OFF),
            ColorCorrectionAberrationMode::spec_from_code(1) == Some(ColorCorrectionAberrationMode::FAST),
            ColorCorrectionAberrationMode::spec_from_code(2) == Some(ColorCorrectionAberrationMode::HIGH_QUALITY),
    {
    }
}

impl ColorCorrectionAberrationMode {
    /// The variant that the raw code `value` stands for, if any.
    pub fn try_from_raw(value: u8) -> (r: Option<Self>)
        ensures
            r == Self::spec_from_code(value as int),
    {
        match value {
            0 => Some(ColorCorrectionAberrationMode::OFF),
            1 => Some(ColorCorrectionAberrationMode::FAST),
            2 => Some(ColorCorrectionAberrationMode::HIGH_QUALITY),
            _ => None,
        }
    }

    /// The raw code of this variant.
    pub fn into_raw(self) -> (r: u8)
        ensures
            r as int == self.spec_code(),
    {
        match self {
            ColorCorrectionAberrationMode::OFF => 0,
            ColorCorrectionAberrationMode::FAST => 1,
            ColorCorrectionAberrationMode::HIGH_QUALITY => 2,
        }
    }
}

impl CameraEnum for ColorCorrectionAberrationMode {
}

#[derive(Copy, Clone, Debug, PartialEq, Eq, Ord, PartialOrd, Structural)]
#[allow(non_camel_case_types)]
pub enum ControlAeAntibandingMode {
    OFF,
    _50HZ,
    _60HZ,
    AUTO,
}

impl RawEnum for ControlAeAntibandingMode {
    open spec fn spec_code(self) -> int {
        match self {
            ControlAeAntibandingMode::OFF => 0,
            ControlAeAntibandingMode::_50HZ => 1,
            ControlAeAntibandingMode::_60HZ => 2,
            ControlAeAntibandingMode::AUTO => 3,
        }
    }

    open spec fn spec_from_code(code: int) -> Option<Self> {
        if code == 0 {
            Some(ControlAeAntibandingMode::OFF)
        } else if code == 1 {
            Some(ControlAeAntibandingMode::_50HZ)
        } else if code == 2 {
            Some(ControlAeAntibandingMode::_60HZ)
        } else if code == 3 {
            Some(ControlAeAntibandingMode::AUTO)
        } else {
            None
        }
    }

    fn try_from_code(code: i64) -> (r: Option<Self>) {
        match code {
            0 => Some(ControlAeAntibandingMode::OFF),
            1 => Some(ControlAeAntibandingMode::_50HZ),
            2 => Some(ControlAeAntibandingMode::_60HZ),
            3 => Some(ControlAeAntibandingMode::AUTO),
            _ => None,
        }
    }

    proof fn lemma_code_round_trip(self) {
    }

    proof fn lemma_from_code_inverse(code: int) {
    }
}

impl ControlAeAntibandingMode {
    /// Each variant's code is the value that the NDK's headers give its constant, so decoding
    /// that value gives the variant and encoding the variant gives the value.
    pub proof fn lemma_ndk_codes()
        ensures
            ControlAeAntibandingMode::OFF.spec_code() == 0,
            ControlAeAntibandingMode::_50HZ.spec_code() == 1,
            ControlAeAntibandingMode::_60HZ.spec_code() == 2,
            ControlAeAntibandingMode::AUTO.spec_code() == 3,
            ControlAeAntibandingMode::spec_from_code(0) == Some(ControlAeAntibandingMode::OFF),
            ControlAeAntibandingMode::spec_from_code(1) == Some(ControlAeAntibandingMode::_50HZ),
            ControlAeAntibandingMode::spec_from_code(2) == Some(ControlAeAntibandingMode::_60HZ),
            ControlAeAntibandingMode::spec_from_code(3) == Some(ControlAeAntibandingMode::AUTO),
    {
    }
}

impl ControlAeAntibandingMode {
    /// The variant that the raw code `value` stands for, if any.
    pub fn try_from_raw(value: u8) -> (r: Option<Self>)
        ensures
            r == Self::spec_from_code(value as int),
    {
        match value {
            0 => Some(ControlAeAntibandingMode::OFF),
            1 => Some(ControlAeAntibandingMode::_50HZ),
            2 => Some(ControlAeAntibandingMode::_60HZ),
            3 => Some(ControlAeAntibandingMode::AUTO),
            _ => None,
        }
    }

    /// The raw code of this variant.
    pub fn into_raw(self) -> (r: u8)
        ensures
            r as int == self.spec_code(),
    {
        match self {
            ControlAeAntibandingMode::OFF => 0,
            ControlAeAntibandingMode::_50HZ => 1,
            ControlAeAntibandingMode::_60HZ => 2,
            ControlAeAntibandingMode::AUTO => 3,
        }
    }
}

impl CameraEnum for ControlAeAntibandingMode {
}

#[derive(Copy, Clone, Debug, PartialEq, Eq, Ord, PartialOrd, Structural)]
pub enum ControlAeLock {
    OFF,
    ON,
}

impl RawEnum for ControlAeLock {
    open spec fn spec_code(self) -> int {
        match self {
            ControlAeLock::OFF => 0,
            ControlAeLock::ON => 1,
        }
    }

    open spec fn spec_from_code(code: int) -> Option<Self> {
        if code == 0 {
            Some(ControlAeLock::OFF)
        } else if code == 1 {
            Some(ControlAeLock::ON)
        } else {
            None
        }
    }

    fn try_from_code(code: i64) -> (r: Option<Self>) {
        match code {
            0 => Some(ControlAeLock::OFF),
            1 => Some(ControlAeLock::ON),
            _ => None,
        }
    }

    proof fn lemma_code_round_trip(self) {
    }

    proof fn lemma_from_code_inverse(code: int) {
    }
}

impl ControlAeLock {
    /// Each variant's code is the value that the NDK's headers give its constant, so decoding
    /// that value gives the variant and encoding the variant gives the value.
    pub proof fn lemma_ndk_codes()
        ensures
            ControlAeLock::OFF.spec_code() == 0,
            ControlAeLock::ON.spec_code() == 1,
            ControlAeLock::spec_from_code(0) == Some(ControlAeLock::OFF),
            ControlAeLock::spec_from_code(1) == Some(ControlAeLock::ON),
    {
    }
}

impl ControlAeLock {
    /// The variant that the raw code `value` stands for, if any.
    pub fn try_from_raw(value: u8) -> (r: Option<Self>)
        ensures
            r == Self::spec_from_code(value as int),
    {
        match value {
            0 => Some(ControlAeLock::OFF),
            1 => Some(ControlAeLock::ON),
            _ => None,
        }
    }

    /// The raw code of this variant.
    pub fn into_raw(self) -> (r: u8)
        ensures
            r as int == self.spec_code(),
    {
        match self {
            ControlAeLock::OFF => 0,
            ControlAeLock::ON => 1,
        }
    }
}

impl CameraEnum for ControlAeLock {
}

#[derive(Copy, Clone, Debug, PartialEq, Eq, Ord, PartialOrd, Structural)]
#[allow(non_camel_case_types)]
pub enum ControlAeMode {
    OFF,
    ON,
    ON_AUTO_FLASH,
    ON_ALWAYS_FLASH,
    ON_AUTO_FLASH_REDEYE,
    ON_EXTERNAL_FLASH,
}

impl RawEnum for ControlAeMode {
    open spec fn spec_code(self) -> int {
        match self {
            ControlAeMode::OFF => 0,
            ControlAeMode::ON => 1,
            ControlAeMode::ON_AUTO_FLASH => 2,
            ControlAeMode::ON_ALWAYS_FLASH => 3,
            ControlAeMode::ON_AUTO_FLASH_REDEYE => 4,
            ControlAeMode::ON_EXTERNAL_FLASH => 5,
        }
    }

    open spec fn spec_from_code(code: int) -> Option<Self> {
        if code == 0 {
            Some(ControlAeMode::OFF)
        } else if code == 1 {
            Some(ControlAeMode::ON)
        } else if code == 2 {
            Some(ControlAeMode::ON_AUTO_FLASH)
        } else if code == 3 {
            Some(ControlAeMode::ON_ALWAYS_FLASH)
        } else if code == 4 {
            Some(ControlAeMode::ON_AUTO_FLASH_REDEYE)
        } else if code == 5 {
            Some(ControlAeMode::ON_EXTERNAL_FLASH)
        } else {
            None
        }
    }

    fn try_from_code(code: i64) -> (r: Option<Self>) {
        match code {
            0 => Some(ControlAeMode::OFF),
            1 => Some(ControlAeMode::ON),
            2 => Some(ControlAeMode::ON_AUTO_FLASH),
            3 => Some(ControlAeMode::ON_ALWAYS_FLASH),
            4 => Some(ControlAeMode::ON_AUTO_FLASH_REDEYE),
            5 => Some(ControlAeMode::ON_EXTERNAL_FLASH),
            _ => None,
        }
    }

    proof fn lemma_code_round_trip(self) {
    }

    proof fn lemma_from_code_inverse(code: int) {
    }
}

impl ControlAeMode {
    /// Each variant's code is the value that the NDK's headers give its constant, so decoding
    /// that value gives the variant and encoding the variant gives the value.
    pub proof fn lemma_ndk_codes()
        ensures
            ControlAeMode::OFF.spec_code() == 0,
            ControlAeMode::ON.spec_code() == 1,
            ControlAeMode::ON_AUTO_FLASH.spec_code() == 2,
            ControlAeMode::ON_ALWAYS_FLASH.spec_code() == 3,
            ControlAeMode::ON_AUTO_FLASH_REDEYE.spec_code() == 4,
            ControlAeMode::ON_EXTERNAL_FLASH.spec_code() == 5,
            ControlAeMode::spec_from_code(0) == Some(ControlAeMode::OFF),
            ControlAeMode::spec_from_code(1) == Some(ControlAeMode::ON),
            ControlAeMode::spec_from_code(2) == Some(ControlAeMode::ON_AUTO_FLASH),
            ControlAeMode::spec_from_code(3) == Some(ControlAeMode::ON_ALWAYS_FLASH),
            ControlAeMode::spec_from_code(4) == Some(ControlAeMode::ON_AUTO_FLASH_REDEYE),
            ControlAeMode::spec_from_code(5) == Some(ControlAeMode::ON_EXTERNAL_FLASH),
    {
    }
}

impl ControlAeMode {
    /// The variant that the raw code `value` stands for, if any.
    pub fn try_from_raw(value: u8) -> (r: Option<Self>)
        ensures
            r == Self::spec_from_code(value as int),
    {
        match value {
            0 => Some(ControlAeMode::OFF),
            1 => Some(ControlAeMode::ON),
            2 => Some(ControlAeMode::ON_AUTO_FLASH),
            3 => Some(ControlAeMode::ON_ALWAYS_FLASH),
            4 => Some(ControlAeMode::ON_AUTO_FLASH_REDEYE),
            5 => Some(ControlAeMode::ON_EXTERNAL_FLASH),
            _ => None,
        }
    }

    /// The raw code of this variant.
    pub fn into_raw(self) -> (r: u8)
        ensures
            r as int == self.spec_code(),
    {
        match self {
            ControlAeMode::OFF => 0,
            ControlAeMode::ON => 1,
            ControlAeMode::ON_AUTO_FLASH => 2,
            ControlAeMode::ON_ALWAYS_FLASH => 3,
            ControlAeMode::ON_AUTO_FLASH_REDEYE => 4,
            ControlAeMode::ON_EXTERNAL_FLASH => 5,
        }
    }
}

impl CameraEnum for ControlAeMode {
}

#[derive(Copy, Clone, Debug, PartialEq, Eq, Ord, PartialOrd, Structural)]
pub enum ControlAePrecaptureTrigger {
    IDLE,
    START,
    CANCEL,
}

impl RawEnum for ControlAePrecaptureTrigger {
    open spec fn spec_code(self) -> int {
        match self {
            ControlAePrecaptureTrigger::IDLE => 0,
            ControlAePrecaptureTrigger::START => 1,
            ControlAePrecaptureTrigger::CANCEL => 2,
        }
    }

    open spec fn spec_from_code(code: int) -> Option<Self> {
        if code == 0 {
            Some(ControlAePrecaptureTrigger::IDLE)
        } else if code == 1 {
            Some(ControlAePrecaptureTrigger::START)
        } else if code == 2 {
            Some(ControlAePrecaptureTrigger::CANCEL)
        } else {
            None
        }
    }

    fn try_from_code(code: i64) -> (r: Option<Self>) {
        match code {
            0 => Some(ControlAePrecaptureTrigger::IDLE),
            1 => Some(ControlAePrecaptureTrigger::START),
            2 => Some(ControlAePrecaptureTrigger::CANCEL),
            _ => None,
        }
    }

    proof fn lemma_code_round_trip(self) {
    }

    proof fn lemma_from_code_inverse(code: int) {
    }
}

impl ControlAePrecaptureTrigger {
    /// Each variant's code is the value that the NDK's headers give its constant, so decoding
    /// that value gives the variant and encoding the variant gives the value.
    pub proof fn lemma_ndk_codes()
        ensures
            ControlAePrecaptureTrigger::IDLE.spec_code() == 0,
            ControlAePrecaptureTrigger::START.spec_code() == 1,
            ControlAePrecaptureTrigger::CANCEL.spec_code() == 2,
            ControlAePrecaptureTrigger::spec_from_code(0) == Some(ControlAePrecaptureTrigger::IDLE),
            ControlAePrecaptureTrigger::spec_from_code(1) == Some(ControlAePrecaptureTrigger::START),
            ControlAePrecaptureTrigger::spec_from_code(2) == Some(ControlAePrecaptureTrigger::CANCEL),
    {
    }
}

impl ControlAePrecaptureTrigger {
    /// The variant that the raw code `value` stands for, if any.
    pub fn try_from_raw(value: u8) -> (r: Option<Self>)
        ensures
            r == Self::spec_from_code(value as int),
    {
        match value {
            0 => Some(ControlAePrecaptureTrigger::IDLE),
            1 => Some(ControlAePrecaptureTrigger::START),
            2 => Some(ControlAePrecaptureTrigger::CANCEL),
            _ => None,
        }
    }

    /// The raw code of this variant.
    pub fn into_raw(self) -> (r: u8)
        ensures
            r as int == self.spec_code(),
    {
        match self {
            ControlAePrecaptureTrigger::IDLE => 0,
            ControlAePrecaptureTrigger::START => 1,
            ControlAePrecaptureTrigger::CANCEL => 2,
        }
    }
}

impl CameraEnum for ControlAePrecaptureTrigger {
}

#[derive(Copy, Clone, Debug, PartialEq, Eq, Ord, PartialOrd, Structural)]
#[allow(non_camel_case_types)]
pub enum ControlAfMode {
    OFF,
    AUTO,
    MACRO,
    CONTINUOUS_VIDEO,
    CONTINUOUS_PICTURE,
    EDOF,
}

impl RawEnum for ControlAfMode {
    open spec fn spec_code(self) -> int {
        match self {
            ControlAfMode::OFF => 0,
            ControlAfMode::AUTO => 1,
            ControlAfMode::MACRO => 2,
            ControlAfMode::CONTINUOUS_VIDEO => 3,
            ControlAfMode::CONTINUOUS_PICTURE => 4,
            ControlAfMode::EDOF => 5,
        }
    }

    open spec fn spec_from_code(code: int) -> Option<Self> {
        if code == 0 {
            Some(ControlAfMode::OFF)
        } else if code == 1 {
            Some(ControlAfMode::AUTO)
        } else if code == 2 {
            Some(ControlAfMode::MACRO)
        } else if code == 3 {
            Some(ControlAfMode::CONTINUOUS_VIDEO)
        } else if code == 4 {
            Some(ControlAfMode::CONTINUOUS_PICTURE)
        } else if code == 5 {
            Some(ControlAfMode::EDOF)
        } else {
            None
        }
    }

    fn try_from_code(code: i64) -> (r: Option<Self>) {
        match code {
            0 => Some(ControlAfMode::OFF),
            1 => Some(ControlAfMode::AUTO),
            2 => Some(ControlAfMode::MACRO),
            3 => Some(ControlAfMode::CONTINUOUS_VIDEO),
            4 => Some(ControlAfMode::CONTINUOUS_PICTURE),
            5 => Some(ControlAfMode::EDOF),
            _ => None,
        }
    }

    proof fn lemma_code_round_trip(self) {
    }

    proof fn lemma_from_code_inverse(code: int) {
    }
}

impl ControlAfMode {
    /// Each variant's code is the value that the NDK's headers give its constant, so decoding
    /// that value gives the variant and encoding the variant gives the value.
    pub proof fn lemma_ndk_codes()
        ensures
            ControlAfMode::OFF.spec_code() == 0,
            ControlAfMode::AUTO.spec_code() == 1,
            ControlAfMode::MACRO.spec_code() == 2,
            ControlAfMode::CONTINUOUS_VIDEO.spec_code() == 3,
            ControlAfMode::CONTINUOUS_PICTURE.spec_code() == 4,
            ControlAfMode::EDOF.spec_code() == 5,
            ControlAfMode::spec_from_code(0) == Some(ControlAfMode::OFF),
            ControlAfMode::spec_from_code(1) == Some(ControlAfMode::AUTO),
            ControlAfMode::spec_from_code(2) == Some(ControlAfMode::MACRO),
            ControlAfMode::spec_from_code(3) == Some(ControlAfMode::CONTINUOUS_VIDEO),
            ControlAfMode::spec_from_code(4) == Some(ControlAfMode::CONTINUOUS_PICTURE),
            ControlAfMode::spec_from_code(5) == Some(ControlAfMode::EDOF),
    {
    }
}

impl ControlAfMode {
    /// The variant that the raw code `value` stands for, if any.
    pub fn try_from_raw(value: u8) -> (r: Option<Self>)
        ensures
            r == Self::spec_from_code(value as int),
    {
        match value {
            0 => Some(ControlAfMode::OFF),
            1 => Some(ControlAfMode::AUTO),
            2 => Some(ControlAfMode::MACRO),
            3 => Some(ControlAfMode::CONTINUOUS_VIDEO),
            4 => Some(ControlAfMode::CONTINUOUS_PICTURE),
            5 => Some(ControlAfMode::EDOF),
            _ => None,
        }
    }

    /// The raw code of this variant.
    pub fn into_raw(self) -> (r: u8)
        ensures
            r as int == self.spec_code(),
    {
        match self {
            ControlAfMode::OFF => 0,
            ControlAfMode::AUTO => 1,
            ControlAfMode::MACRO => 2,
            ControlAfMode::CONTINUOUS_VIDEO => 3,
            ControlAfMode::CONTINUOUS_PICTURE => 4,
            ControlAfMode::EDOF => 5,
        }
    }
}

impl CameraEnum for ControlAfMode {
}

#[derive(Copy, Clone, Debug, PartialEq, Eq, Ord, PartialOrd, Structural)]
pub enum ControlAfTrigger {
    IDLE,
    START,
    CANCEL,
}

impl RawEnum for ControlAfTrigger {
    open spec fn spec_code(self) -> int {
        match self {
            ControlAfTrigger::IDLE => 0,
            ControlAfTrigger::START => 1,
            ControlAfTrigger::CANCEL => 2,
        }
    }

    open spec fn spec_from_code(code: int) -> Option<Self> {
        if code == 0 {
            Some(ControlAfTrigger::IDLE)
        } else if code == 1 {
            Some(ControlAfTrigger::START)
        } else if code == 2 {
            Some(ControlAfTrigger::CANCEL)
        } else {
            None
        }
    }

    fn try_from_code(code: i64) -> (r: Option<Self>) {
        match code {
            0 => Some(ControlAfTrigger::IDLE),
            1 => Some(ControlAfTrigger::START),
            2 => Some(ControlAfTrigger::CANCEL),
            _ => None,
        }
    }

    proof fn lemma_code_round_trip(self) {
    }

    proof fn lemma_from_code_inverse(code: int) {
    }
}

impl ControlAfTrigger {
    /// Each variant's code is the value that the NDK's headers give its constant, so decoding
    /// that value gives the variant and encoding the variant gives the value.
    pub proof fn lemma_ndk_codes()
        ensures
            ControlAfTrigger::IDLE.spec_code() == 0,
            ControlAfTrigger::START.spec_code() == 1,
            ControlAfTrigger::CANCEL.spec_code() == 2,
            ControlAfTrigger::spec_from_code(0) == Some(ControlAfTrigger::IDLE),
            ControlAfTrigger::spec_from_code(1) == Some(ControlAfTrigger::START),
            ControlAfTrigger::spec_from_code(2) == Some(ControlAfTrigger::CANCEL),
    {
    }
}

impl ControlAfTrigger {
    /// The variant that the raw code `value` stands for, if any.
    pub fn try_from_raw(value: u8) -> (r: Option<Self>)
        ensures
            r == Self::spec_from_code(value as int),
    {
        match value {
            0 => Some(ControlAfTrigger::IDLE),
            1 => Some(ControlAfTrigger::START),
            2 => Some(ControlAfTrigger::CANCEL),
            _ => None,
        }
    }

    /// The raw code of this variant.
    pub fn into_raw(self) -> (r: u8)
        ensures
            r as int == self.spec_code(),
    {
        match self {
            ControlAfTrigger::IDLE => 0,
            ControlAfTrigger::START => 1,
            ControlAfTrigger::CANCEL => 2,
        }
    }
}

impl CameraEnum for ControlAfTrigger {
}

#[derive(Copy, Clone, Debug, PartialEq, Eq, Ord, PartialOrd, Structural)]
pub enum ControlAwbLock {
    OFF,
    ON,
}

impl RawEnum for ControlAwbLock {
    open spec fn spec_code(self) -> int {
        match self {
            ControlAwbLock::OFF => 0,
            ControlAwbLock::ON => 1,
        }
    }

    open spec fn spec_from_code(code: int) -> Option<Self> {
        if code == 0 {
            Some(ControlAwbLock::OFF)
        } else if code == 1 {
            Some(ControlAwbLock::ON)
        } else {
            None
        }
    }

    fn try_from_code(code: i64) -> (r: Option<Self>) {
        match code {
            0 => Some(ControlAwbLock::OFF),
            1 => Some(ControlAwbLock::ON),
            _ => None,
        }
    }

    proof fn lemma_code_round_trip(self) {
    }

    proof fn lemma_from_code_inverse(code: int) {
    }
}

impl ControlAwbLock {
    /// Each variant's code is the value that the NDK's headers give its constant, so decoding
    /// that value gives the variant and encoding the variant gives the value.
    pub proof fn lemma_ndk_codes()
        ensures
            ControlAwbLock::OFF.spec_code() == 0,
            ControlAwbLock::ON.spec_code() == 1,
            ControlAwbLock::spec_from_code(0) == Some(ControlAwbLock::OFF),
            ControlAwbLock::spec_from_code(1) == Some(ControlAwbLock::ON),
    {
    }
}

impl ControlAwbLock {
    /// The variant that the raw code `value` stands for, if any.
    pub fn try_from_raw(value: u8) -> (r: Option<Self>)
        ensures
            r == Self::spec_from_code(value as int),
    {
        match value {
            0 => Some(ControlAwbLock::OFF),
            1 => Some(ControlAwbLock::ON),
            _ => None,
        }
    }

    /// The raw code of this variant.
    pub fn into_raw(self) -> (r: u8)
        ensures
            r as int == self.spec_code(),
    {
        match self {
            ControlAwbLock::OFF => 0,
            ControlAwbLock::ON => 1,
        }
    }
}

impl CameraEnum for ControlAwbLock {
}

#[derive(Copy, Clone, Debug, PartialEq, Eq, Ord, PartialOrd, Structural)]
#[allow(non_camel_case_types)]
pub enum ControlAwbMode {
    OFF,
    AUTO,
    INCANDESCENT,
    FLUORESCENT,
    WARM_FLUORESCENT,
    DAYLIGHT,
    CLOUDY_DAYLIGHT,
    TWILIGHT,
    SHADE,
}

impl RawEnum for ControlAwbMode {
    open spec fn spec_code(self) -> int {
        match self {
            ControlAwbMode::OFF => 0,
            ControlAwbMode::AUTO => 1,
            ControlAwbMode::INCANDESCENT => 2,
            ControlAwbMode::FLUORESCENT => 3,
            ControlAwbMode::WARM_FLUORESCENT => 4,
            ControlAwbMode::DAYLIGHT => 5,
            ControlAwbMode::CLOUDY_DAYLIGHT => 6,
            ControlAwbMode::TWILIGHT => 7,
            ControlAwbMode::SHADE => 8,
        }
    }

    open spec fn spec_from_code(code: int) -> Option<Self> {
        if code == 0 {
            Some(ControlAwbMode::OFF)
        } else if code == 1 {
            Some(ControlAwbMode::AUTO)
        } else if code == 2 {
            Some(ControlAwbMode::INCANDESCENT)
        } else if code == 3 {
            Some(ControlAwbMode::FLUORESCENT)
        } else if code == 4 {
            Some(ControlAwbMode::WARM_FLUORESCENT)
        } else if code == 5 {
            Some(ControlAwbMode::DAYLIGHT)
        } else if code == 6 {
            Some(ControlAwbMode::CLOUDY_DAYLIGHT)
        } else if code == 7 {
            Some(ControlAwbMode::TWILIGHT)
        } else if code == 8 {
            Some(ControlAwbMode::SHADE)
        } else {
            None
        }
    }

    fn try_from_code(code: i64) -> (r: Option<Self>) {
        match code {
            0 => Some(ControlAwbMode::OFF),
            1 => Some(ControlAwbMode::AUTO),
            2 => Some(ControlAwbMode::INCANDESCENT),
            3 => Some(ControlAwbMode::FLUORESCENT),
            4 => Some(ControlAwbMode::WARM_FLUORESCENT),
            5 => Some(ControlAwbMode::DAYLIGHT),
            6 => Some(ControlAwbMode::CLOUDY_DAYLIGHT),
            7 => Some(ControlAwbMode::TWILIGHT),
            8 => Some(ControlAwbMode::SHADE),
            _ => None,
        }
    }

    proof fn lemma_code_round_trip(self) {
    }

    proof fn lemma_from_code_inverse(code: int) {
    }
}

impl ControlAwbMode {
    /// Each variant's code is the value that the NDK's headers give its constant, so decoding
    /// that value gives the variant and encoding the variant gives the value.
    pub proof fn lemma_ndk_codes()
        ensures
            ControlAwbMode::OFF.spec_code() == 0,
            ControlAwbMode::AUTO.spec_code() == 1,
            ControlAwbMode::INCANDESCENT.spec_code() == 2,
            ControlAwbMode::FLUORESCENT.spec_code() == 3,
            ControlAwbMode::WARM_FLUORESCENT.spec_code() == 4,
            ControlAwbMode::DAYLIGHT.spec_code() == 5,
            ControlAwbMode::CLOUDY_DAYLIGHT.spec_code() == 6,
            ControlAwbMode::TWILIGHT.spec_code() == 7,
            ControlAwbMode::SHADE.spec_code() == 8,
            ControlAwbMode::spec_from_code(0) == Some(ControlAwbMode::OFF),
            ControlAwbMode::spec_from_code(1) == Some(ControlAwbMode::AUTO),
            ControlAwbMode::spec_from_code(2) == Some(ControlAwbMode::INCANDESCENT),
            ControlAwbMode::spec_from_code(3) == Some(ControlAwbMode::FLUORESCENT),
            ControlAwbMode::spec_from_code(4) == Some(ControlAwbMode::WARM_FLUORESCENT),
            ControlAwbMode::spec_from_code(5) == Some(ControlAwbMode::DAYLIGHT),
            ControlAwbMode::spec_from_code(6) == Some(ControlAwbMode::CLOUDY_DAYLIGHT),
            ControlAwbMode::spec_from_code(7) == Some(ControlAwbMode::TWILIGHT),
            ControlAwbMode::spec_from_code(8) == Some(ControlAwbMode::SHADE),
    {
    }
}

impl ControlAwbMode {
    /// The variant that the raw code `value` stands for, if any.
    pub fn try_from_raw(value: u8) -> (r: Option<Self>)
        ensures
            r == Self::spec_from_code(value as int),
    {
        match value {
            0 => Some(ControlAwbMode::OFF),
            1 => Some(ControlAwbMode::AUTO),
            2 => Some(ControlAwbMode::INCANDESCENT),
            3 => Some(ControlAwbMode::FLUORESCENT),
            4 => Some(ControlAwbMode::WARM_FLUORESCENT),
            5 => Some(ControlAwbMode::DAYLIGHT),
            6 => Some(ControlAwbMode::CLOUDY_DAYLIGHT),
            7 => Some(ControlAwbMode::TWILIGHT),
            8 => Some(ControlAwbMode::SHADE),
            _ => None,
        }
    }

    /// The raw code of this variant.
    pub fn into_raw(self) -> (r: u8)
        ensures
            r as int == self.spec_code(),
    {
        match self {
            ControlAwbMode::OFF => 0,
            ControlAwbMode::AUTO => 1,
            ControlAwbMode::INCANDESCENT => 2,
            ControlAwbMode::FLUORESCENT => 3,
            ControlAwbMode::WARM_FLUORESCENT => 4,
            ControlAwbMode::DAYLIGHT => 5,
            ControlAwbMode::CLOUDY_DAYLIGHT => 6,
            ControlAwbMode::TWILIGHT => 7,
            ControlAwbMode::SHADE => 8,
        }
    }
}

impl CameraEnum for ControlAwbMode {
}

#[derive(Copy, Clone, Debug, PartialEq, Eq, Ord, PartialOrd, Structural)]
#[allow(non_camel_case_types)]
pub enum ControlCaptureIntent {
    CUSTOM,
    PREVIEW,
    STILL_CAPTURE,
    VIDEO_RECORD,
    VIDEO_SNAPSHOT,
    ZERO_SHUTTER_LAG,
    MANUAL,
    MOTION_TRACKING,
}

impl RawEnum for ControlCaptureIntent {
    open spec fn spec_code(self) -> int {
        match self {
            ControlCaptureIntent::CUSTOM => 0,
            ControlCaptureIntent::PREVIEW => 1,
            ControlCaptureIntent::STILL_CAPTURE => 2,
            ControlCaptureIntent::VIDEO_RECORD => 3,
            ControlCaptureIntent::VIDEO_SNAPSHOT => 4,
            ControlCaptureIntent::ZERO_SHUTTER_LAG => 5,
            ControlCaptureIntent::MANUAL => 6,
            ControlCaptureIntent::MOTION_TRACKING => 7,
        }
    }

    open spec fn spec_from_code(code: int) -> Option<Self> {
        if code == 0 {
            Some(ControlCaptureIntent::CUSTOM)
        } else if code == 1 {
            Some(ControlCaptureIntent::PREVIEW)
        } else if code == 2 {
            Some(ControlCaptureIntent::STILL_CAPTURE)
        } else if code == 3 {
            Some(ControlCaptureIntent::VIDEO_RECORD)
        } else if code == 4 {
            Some(ControlCaptureIntent::VIDEO_SNAPSHOT)
        } else if code == 5 {
            Some(ControlCaptureIntent::ZERO_SHUTTER_LAG)
        } else if code == 6 {
            Some(ControlCaptureIntent::MANUAL)
        } else if code == 7 {
            Some(ControlCaptureIntent::MOTION_TRACKING)
        } else {
            None
        }
    }

    fn try_from_code(code: i64) -> (r: Option<Self>) {
        match code {
            0 => Some(ControlCaptureIntent::CUSTOM),
            1 => Some(ControlCaptureIntent::PREVIEW),
            2 => Some(ControlCaptureIntent::STILL_CAPTURE),
            3 => Some(ControlCaptureIntent::VIDEO_RECORD),
            4 => Some(ControlCaptureIntent::VIDEO_SNAPSHOT),
            5 => Some(ControlCaptureIntent::ZERO_SHUTTER_LAG),
            6 => Some(ControlCaptureIntent::MANUAL),
            7 => Some(ControlCaptureIntent::MOTION_TRACKING),
            _ => None,
        }
    }

    proof fn lemma_code_round_trip(self) {
    }

    proof fn lemma_from_code_inverse(code: int) {
    }
}

impl ControlCaptureIntent {
    /// Each variant's code is the value that the NDK's headers give its constant, so decoding
    /// that value gives the variant and encoding the variant gives the value.
    pub proof fn lemma_ndk_codes()
        ensures
            ControlCaptureIntent::CUSTOM.spec_code() == 0,
            ControlCaptureIntent::PREVIEW.spec_code() == 1,
            ControlCaptureIntent::STILL_CAPTURE.spec_code() == 2,
            ControlCaptureIntent::VIDEO_RECORD.spec_code() == 3,
            ControlCaptureIntent::VIDEO_SNAPSHOT.spec_code() == 4,
            ControlCaptureIntent::ZERO_SHUTTER_LAG.spec_code() == 5,
            ControlCaptureIntent::MANUAL.spec_code() == 6,
            ControlCaptureIntent::MOTION_TRACKING.spec_code() == 7,
            ControlCaptureIntent::spec_from_code(0) == Some(ControlCaptureIntent::CUSTOM),
            ControlCaptureIntent::spec_from_code(1) == Some(ControlCaptureIntent::PREVIEW),
            ControlCaptureIntent::spec_from_code(2) == Some(ControlCaptureIntent::STILL_CAPTURE),
            ControlCaptureIntent::spec_from_code(3) == Some(ControlCaptureIntent::VIDEO_RECORD),
            ControlCaptureIntent::spec_from_code(4) == Some(ControlCaptureIntent::VIDEO_SNAPSHOT),
            ControlCaptureIntent::spec_from_code(5) == Some(ControlCaptureIntent::ZERO_SHUTTER_LAG),
            ControlCaptureIntent::spec_from_code(6) == Some(ControlCaptureIntent::MANUAL),
            ControlCaptureIntent::spec_from_code(7) == Some(ControlCaptureIntent::MOTION_TRACKING),
    {
    }
}

impl ControlCaptureIntent {
    /// The variant that the raw code `value` stands for, if any.
    pub fn try_from_raw(value: u8) -> (r: Option<Self>)
        ensures
            r == Self::spec_from_code(value as int),
    {
        match value {
            0 => Some(ControlCaptureIntent::CUSTOM),
            1 => Some(ControlCaptureIntent::PREVIEW),
            2 => Some(ControlCaptureIntent::STILL_CAPTURE),
            3 => Some(ControlCaptureIntent::VIDEO_RECORD),
            4 => Some(ControlCaptureIntent::VIDEO_SNAPSHOT),
            5 => Some(ControlCaptureIntent::ZERO_SHUTTER_LAG),
            6 => Some(ControlCaptureIntent::MANUAL),
            7 => Some(ControlCaptureIntent::MOTION_TRACKING),
            _ => None,
        }
    }

    /// The raw code of this variant.
    pub fn into_raw(self) -> (r: u8)
        ensures
            r as int == self.spec_code(),
    {
        match self {
            ControlCaptureIntent::CUSTOM => 0,
            ControlCaptureIntent::PREVIEW => 1,
            ControlCaptureIntent::STILL_CAPTURE => 2,
            ControlCaptureIntent::VIDEO_RECORD => 3,
            ControlCaptureIntent::VIDEO_SNAPSHOT => 4,
            ControlCaptureIntent::ZERO_SHUTTER_LAG => 5,
            ControlCaptureIntent::MANUAL => 6,
            ControlCaptureIntent::MOTION_TRACKING => 7,
        }
    }
}

impl CameraEnum for ControlCaptureIntent {
}

#[derive(Copy, Clone, Debug, PartialEq, Eq, Ord, PartialOrd, Structural)]
pub enum ControlEffectMode {
    OFF,
    MONO,
    NEGATIVE,
    SOLARIZE,
    SEPIA,
    POSTERIZE,
    WHITEBOARD,
    BLACKBOARD,
    AQUA,
}

impl RawEnum for ControlEffectMode {
    open spec fn spec_code(self) -> int {
        match self {
            ControlEffectMode::OFF => 0,
            ControlEffectMode::MONO => 1,
            ControlEffectMode::NEGATIVE => 2,
            ControlEffectMode::SOLARIZE => 3,
            ControlEffectMode::SEPIA => 4,
            ControlEffectMode::POSTERIZE => 5,
            ControlEffectMode::WHITEBOARD => 6,
            ControlEffectMode::BLACKBOARD => 7,
            ControlEffectMode::AQUA => 8,
        }
    }

    open spec fn spec_from_code(code: int) -> Option<Self> {
        if code == 0 {
            Some(ControlEffectMode::OFF)
        } else if code == 1 {
            Some(ControlEffectMode::MONO)
        } else if code == 2 {
            Some(ControlEffectMode::NEGATIVE)
        } else if code == 3 {
            Some(ControlEffectMode::SOLARIZE)
        } else if code == 4 {
            Some(ControlEffectMode::SEPIA)
        } else if code == 5 {
            Some(ControlEffectMode::POSTERIZE)
        } else if code == 6 {
            Some(ControlEffectMode::WHITEBOARD)
        } else if code == 7 {
            Some(ControlEffectMode::BLACKBOARD)
        } else if code == 8 {
            Some(ControlEffectMode::AQUA)
        } else {
            None
        }
    }

    fn try_from_code(code: i64) -> (r: Option<Self>) {
        match code {
            0 => Some(ControlEffectMode::OFF),
            1 => Some(ControlEffectMode::MONO),
            2 => Some(ControlEffectMode::NEGATIVE),
            3 => Some(ControlEffectMode::SOLARIZE),
            4 => Some(ControlEffectMode::SEPIA),
            5 => Some(ControlEffectMode::POSTERIZE),
            6 => Some(ControlEffectMode::WHITEBOARD),
            7 => Some(ControlEffectMode::BLACKBOARD),
            8 => Some(ControlEffectMode::AQUA),
            _ => None,
        }
    }

    proof fn lemma_code_round_trip(self) {
    }

    proof fn lemma_from_code_inverse(code: int) {
    }
}

impl ControlEffectMode {
    /// Each variant's code is the value that the NDK's headers give its constant, so decoding
    /// that value gives the variant and encoding the variant gives the value.
    pub proof fn lemma_ndk_codes()
        ensures
            ControlEffectMode::OFF.spec_code() == 0,
            ControlEffectMode::MONO.spec_code() == 1,
            ControlEffectMode::NEGATIVE.spec_code() == 2,
            ControlEffectMode::SOLARIZE.spec_code() == 3,
            ControlEffectMode::SEPIA.spec_code() == 4,
            ControlEffectMode::POSTERIZE.spec_code() == 5,
            ControlEffectMode::WHITEBOARD.spec_code() == 6,
            ControlEffectMode::BLACKBOARD.spec_code() == 7,
            ControlEffectMode::AQUA.spec_code() == 8,
            ControlEffectMode::spec_from_code(0) == Some(ControlEffectMode::OFF),
            ControlEffectMode::spec_from_code(1) == Some(ControlEffectMode::MONO),
            ControlEffectMode::spec_from_code(2) == Some(ControlEffectMode::NEGATIVE),
            ControlEffectMode::spec_from_code(3) == Some(ControlEffectMode::SOLARIZE),
            ControlEffectMode::spec_from_code(4) == Some(ControlEffectMode::SEPIA),
            ControlEffectMode::spec_from_code(5) == Some(ControlEffectMode::POSTERIZE),
            ControlEffectMode::spec_from_code(6) == Some(ControlEffectMode::WHITEBOARD),
            ControlEffectMode::spec_from_code(7) == Some(ControlEffectMode::BLACKBOARD),
            ControlEffectMode::spec_from_code(8) == Some(ControlEffectMode::AQUA),
    {
    }
}

impl ControlEffectMode {
    /// The variant that the raw code `value` stands for, if any.
    pub fn try_from_raw(value: u8) -> (r: Option<Self>)
        ensures
            r == Self::spec_from_code(value as int),
    {
        match value {
            0 => Some(ControlEffectMode::OFF),
            1 => Some(ControlEffectMode::MONO),
            2 => Some(ControlEffectMode::NEGATIVE),
            3 => Some(ControlEffectMode::SOLARIZE),
            4 => Some(ControlEffectMode::SEPIA),
            5 => Some(ControlEffectMode::POSTERIZE),
            6 => Some(ControlEffectMode::WHITEBOARD),
            7 => Some(ControlEffectMode::BLACKBOARD),
            8 => Some(ControlEffectMode::AQUA),
            _ => None,
        }
    }

    /// The raw code of this variant.
    pub fn into_raw(self) -> (r: u8)
        ensures
            r as int == self.spec_code(),
    {
        match self {
            ControlEffectMode::OFF => 0,
            ControlEffectMode::MONO => 1,
            ControlEffectMode::NEGATIVE => 2,
            ControlEffectMode::SOLARIZE => 3,
            ControlEffectMode::SEPIA => 4,
            ControlEffectMode::POSTERIZE => 5,
            ControlEffectMode::WHITEBOARD => 6,
            ControlEffectMode::BLACKBOARD => 7,
            ControlEffectMode::AQUA => 8,
        }
    }
}

impl CameraEnum for ControlEffectMode {
}

#[derive(Copy, Clone, Debug, PartialEq, Eq, Ord, PartialOrd, Structural)]
#[allow(non_camel_case_types)]
pub enum ControlMode {
    OFF,
    AUTO,
    USE_SCENE_MODE,
    OFF_KEEP_STATE,
}

impl RawEnum for ControlMode {
    open spec fn spec_code(self) -> int {
        match self {
            ControlMode::OFF => 0,
            ControlMode::AUTO => 1,
            ControlMode::USE_SCENE_MODE => 2,
            ControlMode::OFF_KEEP_STATE => 3,
        }
    }

    open spec fn spec_from_code(code: int) -> Option<Self> {
        if code == 0 {
            Some(ControlMode::OFF)
        } else if code == 1 {
            Some(ControlMode::AUTO)
        } else if code == 2 {
            Some(ControlMode::USE_SCENE_MODE)
        } else if code == 3 {
            Some(ControlMode::OFF_KEEP_STATE)
        } else {
            None
        }
    }

    fn try_from_code(code: i64) -> (r: Option<Self>) {
        match code {
            0 => Some(ControlMode::OFF),
            1 => Some(ControlMode::AUTO),
            2 => Some(ControlMode::USE_SCENE_MODE),
            3 => Some(ControlMode::OFF_KEEP_STATE),
            _ => None,
        }
    }

    proof fn lemma_code_round_trip(self) {
    }

    proof fn lemma_from_code_inverse(code: int) {
    }
}

impl ControlMode {
    /// Each variant's code is the value that the NDK's headers give its constant, so decoding
    /// that value gives the variant and encoding the variant gives the value.
    pub proof fn lemma_ndk_codes()
        ensures
            ControlMode::OFF.spec_code() == 0,
            ControlMode::AUTO.spec_code() == 1,
            ControlMode::USE_SCENE_MODE.spec_code() == 2,
            ControlMode::OFF_KEEP_STATE.spec_code() == 3,
            ControlMode::spec_from_code(0) == Some(ControlMode::OFF),
            ControlMode::spec_from_code(1) == Some(ControlMode::AUTO),
            ControlMode::spec_from_code(2) == Some(ControlMode::USE_SCENE_MODE),
            ControlMode::spec_from_code(3) == Some(ControlMode::OFF_KEEP_STATE),
    {
    }
}

impl ControlMode {
    /// The variant that the raw code `value` stands for, if any.
    pub fn try_from_raw(value: u8) -> (r: Option<Self>)
        ensures
            r == Self::spec_from_code(value as int),
    {
        match value {
            0 => Some(ControlMode::OFF),
            1 => Some(ControlMode::AUTO),
            2 => Some(ControlMode::USE_SCENE_MODE),
            3 => Some(ControlMode::OFF_KEEP_STATE),
            _ => None,
        }
    }

    /// The raw code of this variant.
    pub fn into_raw(self) -> (r: u8)
        ensures
            r as int == self.spec_code(),
    {
        match self {
            ControlMode::OFF => 0,
            ControlMode::AUTO => 1,
            ControlMode::USE_SCENE_MODE => 2,
            ControlMode::OFF_KEEP_STATE => 3,
        }
    }
}

impl CameraEnum for ControlMode {
}

#[derive(Copy, Clone, Debug, PartialEq, Eq, Ord, PartialOrd, Structural)]
#[allow(non_camel_case_types)]
pub enum ControlSceneMode {
    DISABLED,
    FACE_PRIORITY,
    ACTION,
    PORTRAIT,
    LANDSCAPE,
    NIGHT,
    NIGHT_PORTRAIT,
    THEATRE,
    BEACH,
    SNOW,
    SUNSET,
    STEADYPHOTO,
    FIREWORKS,
    SPORTS,
    PARTY,
    CANDLELIGHT,
    BARCODE,
    HDR,
}

impl RawEnum for ControlSceneMode {
    open spec fn spec_code(self) -> int {
        match self {
            ControlSceneMode::DISABLED => 0,
            ControlSceneMode::FACE_PRIORITY => 1,
            ControlSceneMode::ACTION => 2,
            ControlSceneMode::PORTRAIT => 3,
            ControlSceneMode::LANDSCAPE => 4,
            ControlSceneMode::NIGHT => 5,
            ControlSceneMode::NIGHT_PORTRAIT => 6,
            ControlSceneMode::THEATRE => 7,
            ControlSceneMode::BEACH => 8,
            ControlSceneMode::SNOW => 9,
            ControlSceneMode::SUNSET => 10,
            ControlSceneMode::STEADYPHOTO => 11,
            ControlSceneMode::FIREWORKS => 12,
            ControlSceneMode::SPORTS => 13,
            ControlSceneMode::PARTY => 14,
            ControlSceneMode::CANDLELIGHT => 15,
            ControlSceneMode::BARCODE => 16,
            ControlSceneMode::HDR => 18,
        }
    }

    open spec fn spec_from_code(code: int) -> Option<Self> {
        if code == 0 {
            Some(ControlSceneMode::DISABLED)
        } else if code == 1 {
            Some(ControlSceneMode::FACE_PRIORITY)
        } else if code == 2 {
            Some(ControlSceneMode::ACTION)
        } else if code == 3 {
            Some(ControlSceneMode::PORTRAIT)
        } else if code == 4 {
            Some(ControlSceneMode::LANDSCAPE)
        } else if code == 5 {
            Some(ControlSceneMode::NIGHT)
        } else if code == 6 {
            Some(ControlSceneMode::NIGHT_PORTRAIT)
        } else if code == 7 {
            Some(ControlSceneMode::THEATRE)
        } else if code == 8 {
            Some(ControlSceneMode::BEACH)
        } else if code == 9 {
            Some(ControlSceneMode::SNOW)
        } else if code == 10 {
            Some(ControlSceneMode::SUNSET)
        } else if code == 11 {
            Some(ControlSceneMode::STEADYPHOTO)
        } else if code == 12 {
            Some(ControlSceneMode::FIREWORKS)
        } else if code == 13 {
            Some(ControlSceneMode::SPORTS)
        } else if code == 14 {
            Some(ControlSceneMode::PARTY)
        } else if code == 15 {
            Some(ControlSceneMode::CANDLELIGHT)
        } else if code == 16 {
            Some(ControlSceneMode::BARCODE)
        } else if code == 18 {
            Some(ControlSceneMode::HDR)
        } else {
            None
        }
    }

    fn try_from_code(code: i64) -> (r: Option<Self>) {
        match code {
            0 => Some(ControlSceneMode::DISABLED),
            1 => Some(ControlSceneMode::FACE_PRIORITY),
            2 => Some(ControlSceneMode::ACTION),
            3 => Some(ControlSceneMode::PORTRAIT),
            4 => Some(ControlSceneMode::LANDSCAPE),
            5 => Some(ControlSceneMode::NIGHT),
            6 => Some(ControlSceneMode::NIGHT_PORTRAIT),
            7 => Some(ControlSceneMode::THEATRE),
            8 => Some(ControlSceneMode::BEACH),
            9 => Some(ControlSceneMode::SNOW),
            10 => Some(ControlSceneMode::SUNSET),
            11 => Some(ControlSceneMode::STEADYPHOTO),
            12 => Some(ControlSceneMode::FIREWORKS),
            13 => Some(ControlSceneMode::SPORTS),
            14 => Some(ControlSceneMode::PARTY),
            15 => Some(ControlSceneMode::CANDLELIGHT),
            16 => Some(ControlSceneMode::BARCODE),
            18 => Some(ControlSceneMode::HDR),
            _ => None,
        }
    }

    proof fn lemma_code_round_trip(self) {
    }

    proof fn lemma_from_code_inverse(code: int) {
    }
}

impl ControlSceneMode {
    /// Each variant's code is the value that the NDK's headers give its constant, so decoding
    /// that value gives the variant and encoding the variant gives the value.
    pub proof fn lemma_ndk_codes()
        ensures
            ControlSceneMode::DISABLED.spec_code() == 0,
            ControlSceneMode::FACE_PRIORITY.spec_code() == 1,
            ControlSceneMode::ACTION.spec_code() == 2,
            ControlSceneMode::PORTRAIT.spec_code() == 3,
            ControlSceneMode::LANDSCAPE.spec_code() == 4,
            ControlSceneMode::NIGHT.spec_code() == 5,
            ControlSceneMode::NIGHT_PORTRAIT.spec_code() == 6,
            ControlSceneMode::THEATRE.spec_code() == 7,
            ControlSceneMode::BEACH.spec_code() == 8,
            ControlSceneMode::SNOW.spec_code() == 9,
            ControlSceneMode::SUNSET.spec_code() == 10,
            ControlSceneMode::STEADYPHOTO.spec_code() == 11,
            ControlSceneMode::FIREWORKS.spec_code() == 12,
            ControlSceneMode::SPORTS.spec_code() == 13,
            ControlSceneMode::PARTY.spec_code() == 14,
            ControlSceneMode::CANDLELIGHT.spec_code() == 15,
            ControlSceneMode::BARCODE.spec_code() == 16,
            ControlSceneMode::HDR.spec_code() == 18,
            ControlSceneMode::spec_from_code(0) == Some(ControlSceneMode::DISABLED),
            ControlSceneMode::spec_from_code(1) == Some(ControlSceneMode::FACE_PRIORITY),
            ControlSceneMode::spec_from_code(2) == Some(ControlSceneMode::ACTION),
            ControlSceneMode::spec_from_code(3) == Some(ControlSceneMode::PORTRAIT),
            ControlSceneMode::spec_from_code(4) == Some(ControlSceneMode::LANDSCAPE),
            ControlSceneMode::spec_from_code(5) == Some(ControlSceneMode::NIGHT),
            ControlSceneMode::spec_from_code(6) == Some(ControlSceneMode::NIGHT_PORTRAIT),
            ControlSceneMode::spec_from_code(7) == Some(ControlSceneMode::THEATRE),
            ControlSceneMode::spec_from_code(8) == Some(ControlSceneMode::BEACH),
            ControlSceneMode::spec_from_code(9) == Some(ControlSceneMode::SNOW),
            ControlSceneMode::spec_from_code(10) == Some(ControlSceneMode::SUNSET),
            ControlSceneMode::spec_from_code(11) == Some(ControlSceneMode::STEADYPHOTO),
            ControlSceneMode::spec_from_code(12) == Some(ControlSceneMode::FIREWORKS),
            ControlSceneMode::spec_from_code(13) == Some(ControlSceneMode::SPORTS),
            ControlSceneMode::spec_from_code(14) == Some(ControlSceneMode::PARTY),
            ControlSceneMode::spec_from_code(15) == Some(ControlSceneMode::CANDLELIGHT),
            ControlSceneMode::spec_from_code(16) == Some(ControlSceneMode::BARCODE),
            ControlSceneMode::spec_from_code(18) == Some(ControlSceneMode::HDR),
    {
    }
}

impl ControlSceneMode {
    /// The variant that the raw code `value` stands for, if any.
    pub fn try_from_raw(value: u8) -> (r: Option<Self>)
        ensures
            r == Self::spec_from_code(value as int),
    {
        match value {
            0 => Some(ControlSceneMode::DISABLED),
            1 => Some(ControlSceneMode::FACE_PRIORITY),
            2 => Some(ControlSceneMode::ACTION),
            3 => Some(ControlSceneMode::PORTRAIT),
            4 => Some(ControlSceneMode::LANDSCAPE),
            5 => Some(ControlSceneMode::NIGHT),
            6 => Some(ControlSceneMode::NIGHT_PORTRAIT),
            7 => Some(ControlSceneMode::THEATRE),
            8 => Some(ControlSceneMode::BEACH),
            9 => Some(ControlSceneMode::SNOW),
            10 => Some(ControlSceneMode::SUNSET),
            11 => Some(ControlSceneMode::STEADYPHOTO),
            12 => Some(ControlSceneMode::FIREWORKS),
            13 => Some(ControlSceneMode::SPORTS),
            14 => Some(ControlSceneMode::PARTY),
            15 => Some(ControlSceneMode::CANDLELIGHT),
            16 => Some(ControlSceneMode::BARCODE),
            18 => Some(ControlSceneMode::HDR),
            _ => None,
        }
    }

    /// The raw code of this variant.
    pub fn into_raw(self) -> (r: u8)
        ensures
            r as int == self.spec_code(),
    {
        match self {
            ControlSceneMode::DISABLED => 0,
            ControlSceneMode::FACE_PRIORITY => 1,
            ControlSceneMode::ACTION => 2,
            ControlSceneMode::PORTRAIT => 3,
            ControlSceneMode::LANDSCAPE => 4,
            ControlSceneMode::NIGHT => 5,
            ControlSceneMode::NIGHT_PORTRAIT => 6,
            ControlSceneMode::THEATRE => 7,
            ControlSceneMode::BEACH => 8,
            ControlSceneMode::SNOW => 9,
            ControlSceneMode::SUNSET => 10,
            ControlSceneMode::STEADYPHOTO => 11,
            ControlSceneMode::FIREWORKS => 12,
            ControlSceneMode::SPORTS => 13,
            ControlSceneMode::PARTY => 14,
            ControlSceneMode::CANDLELIGHT => 15,
            ControlSceneMode::BARCODE => 16,
            ControlSceneMode::HDR => 18,
        }
    }
}

impl CameraEnum for ControlSceneMode {
}

#[derive(Copy, Clone, Debug, PartialEq, Eq, Ord, PartialOrd, Structural)]
pub enum ControlVideoStabilizationMode {
    OFF,
    ON,
}

impl RawEnum for ControlVideoStabilizationMode {
    open spec fn spec_code(self) -> int {
        match self {
            ControlVideoStabilizationMode::OFF => 0,
            ControlVideoStabilizationMode::ON => 1,
        }
    }

    open spec fn spec_from_code(code: int) -> Option<Self> {
        if code == 0 {
            Some(ControlVideoStabilizationMode::OFF)
        } else if code == 1 {
            Some(ControlVideoStabilizationMode::ON)
        } else {
            None
        }
    }

    fn try_from_code(code: i64) -> (r: Option<Self>) {
        match code {
            0 => Some(ControlVideoStabilizationMode::OFF),
            1 => Some(ControlVideoStabilizationMode::ON),
            _ => None,
        }
    }

    proof fn lemma_code_round_trip(self) {
    }

    proof fn lemma_from_code_inverse(code: int) {
    }
}

impl ControlVideoStabilizationMode {
    /// Each variant's code is the value that the NDK's headers give its constant, so decoding
    /// that value gives the variant and encoding the variant gives the value.
    pub proof fn lemma_ndk_codes()
        ensures
            ControlVideoStabilizationMode::OFF.spec_code() == 0,
            ControlVideoStabilizationMode::ON.spec_code() == 1,
            ControlVideoStabilizationMode::spec_from_code(0) == Some(ControlVideoStabilizationMode::OFF),
            ControlVideoStabilizationMode::spec_from_code(1) == Some(ControlVideoStabilizationMode::ON),
    {
    }
}

impl ControlVideoStabilizationMode {
    /// The variant that the raw code `value` stands for, if any.
    pub fn try_from_raw(value: u8) -> (r: Option<Self>)
        ensures
            r == Self::spec_from_code(value as int),
    {
        match value {
            0 => Some(ControlVideoStabilizationMode::OFF),
            1 => Some(ControlVideoStabilizationMode::ON),
            _ => None,
        }
    }

    /// The raw code of this variant.
    pub fn into_raw(self) -> (r: u8)
        ensures
            r as int == self.spec_code(),
    {
        match self {
            ControlVideoStabilizationMode::OFF => 0,
            ControlVideoStabilizationMode::ON => 1,
        }
    }
}

impl CameraEnum for ControlVideoStabilizationMode {
}

#[derive(Copy, Clone, Debug, PartialEq, Eq, Ord, PartialOrd, Structural)]
#[allow(non_camel_case_types)]
pub enum ControlAeState {
    INACTIVE,
    SEARCHING,
    CONVERGED,
    LOCKED,
    FLASH_REQUIRED,
    PRECAPTURE,
}

impl RawEnum for ControlAeState {
    open spec fn spec_code(self) -> int {
        match self {
            ControlAeState::INACTIVE => 0,
            ControlAeState::SEARCHING => 1,
            ControlAeState::CONVERGED => 2,
            ControlAeState::LOCKED => 3,
            ControlAeState::FLASH_REQUIRED => 4,
            ControlAeState::PRECAPTURE => 5,
        }
    }

    open spec fn spec_from_code(code: int) -> Option<Self> {
        if code == 0 {
            Some(ControlAeState::INACTIVE)
        } else if code == 1 {
            Some(ControlAeState::SEARCHING)
        } else if code == 2 {
            Some(ControlAeState::CONVERGED)
        } else if code == 3 {
            Some(ControlAeState::LOCKED)
        } else if code == 4 {
            Some(ControlAeState::FLASH_REQUIRED)
        } else if code == 5 {
            Some(ControlAeState::PRECAPTURE)
        } else {
            None
        }
    }

    fn try_from_code(code: i64) -> (r: Option<Self>) {
        match code {
            0 => Some(ControlAeState::INACTIVE),
            1 => Some(ControlAeState::SEARCHING),
            2 => Some(ControlAeState::CONVERGED),
            3 => Some(ControlAeState::LOCKED),
            4 => Some(ControlAeState::FLASH_REQUIRED),
            5 => Some(ControlAeState::PRECAPTURE),
            _ => None,
        }
    }

    proof fn lemma_code_round_trip(self) {
    }

    proof fn lemma_from_code_inverse(code: int) {
    }
}

impl ControlAeState {
    /// Each variant's code is the value that the NDK's headers give its constant, so decoding
    /// that value gives the variant and encoding the variant gives the value.
    pub proof fn lemma_ndk_codes()
        ensures
            ControlAeState::INACTIVE.spec_code() == 0,
            ControlAeState::SEARCHING.spec_code() == 1,
            ControlAeState::CONVERGED.spec_code() == 2,
            ControlAeState::LOCKED.spec_code() == 3,
            ControlAeState::FLASH_REQUIRED.spec_code() == 4,
            ControlAeState::PRECAPTURE.spec_code() == 5,
            ControlAeState::spec_from_code(0) == Some(ControlAeState::INACTIVE),
            ControlAeState::spec_from_code(1) == Some(ControlAeState::SEARCHING),
            ControlAeState::spec_from_code(2) == Some(ControlAeState::CONVERGED),
            ControlAeState::spec_from_code(3) == Some(ControlAeState::LOCKED),
            ControlAeState::spec_from_code(4) == Some(ControlAeState::FLASH_REQUIRED),
            ControlAeState::spec_from_code(5) == Some(ControlAeState::PRECAPTURE),
    {
    }
}

impl ControlAeState {
    /// The variant that the raw code `value` stands for, if any.
    pub fn try_from_raw(value: u8) -> (r: Option<Self>)
        ensures
            r == Self::spec_from_code(value as int),
    {
        match value {
            0 => Some(ControlAeState::INACTIVE),
            1 => Some(ControlAeState::SEARCHING),
            2 => Some(ControlAeState::CONVERGED),
            3 => Some(ControlAeState::LOCKED),
            4 => Some(ControlAeState::FLASH_REQUIRED),
            5 => Some(ControlAeState::PRECAPTURE),
            _ => None,
        }
    }

    /// The raw code of this variant.
    pub fn into_raw(self) -> (r: u8)
        ensures
            r as int == self.spec_code(),
    {
        match self {
            ControlAeState::INACTIVE => 0,
            ControlAeState::SEARCHING => 1,
            ControlAeState::CONVERGED => 2,
            ControlAeState::LOCKED => 3,
            ControlAeState::FLASH_REQUIRED => 4,
            ControlAeState::PRECAPTURE => 5,
        }
    }
}

impl CameraEnum for ControlAeState {
}

#[derive(Copy, Clone, Debug, PartialEq, Eq, Ord, PartialOrd, Structural)]
#[allow(non_camel_case_types)]
pub enum ControlAfState {
    INACTIVE,
    PASSIVE_SCAN,
    PASSIVE_FOCUSED,
    ACTIVE_SCAN,
    FOCUSED_LOCKED,
    NOT_FOCUSED_LOCKED,
    PASSIVE_UNFOCUSED,
}

impl RawEnum for ControlAfState {
    open spec fn spec_code(self) -> int {
        match self {
            ControlAfState::INACTIVE => 0,
            ControlAfState::PASSIVE_SCAN => 1,
            ControlAfState::PASSIVE_FOCUSED => 2,
            ControlAfState::ACTIVE_SCAN => 3,
            ControlAfState::FOCUSED_LOCKED => 4,
            ControlAfState::NOT_FOCUSED_LOCKED => 5,
            ControlAfState::PASSIVE_UNFOCUSED => 6,
        }
    }

    open spec fn spec_from_code(code: int) -> Option<Self> {
        if code == 0 {
            Some(ControlAfState::INACTIVE)
        } else if code == 1 {
            Some(ControlAfState::PASSIVE_SCAN)
        } else if code == 2 {
            Some(ControlAfState::PASSIVE_FOCUSED)
        } else if code == 3 {
            Some(ControlAfState::ACTIVE_SCAN)
        } else if code == 4 {
            Some(ControlAfState::FOCUSED_LOCKED)
        } else if code == 5 {
            Some(ControlAfState::NOT_FOCUSED_LOCKED)
        } else if code == 6 {
            Some(ControlAfState::PASSIVE_UNFOCUSED)
        } else {
            None
        }
    }

    fn try_from_code(code: i64) -> (r: Option<Self>) {
        match code {
            0 => Some(ControlAfState::INACTIVE),
            1 => Some(ControlAfState::PASSIVE_SCAN),
            2 => Some(ControlAfState::PASSIVE_FOCUSED),
            3 => Some(ControlAfState::ACTIVE_SCAN),
            4 => Some(ControlAfState::FOCUSED_LOCKED),
            5 => Some(ControlAfState::NOT_FOCUSED_LOCKED),
            6 => Some(ControlAfState::PASSIVE_UNFOCUSED),
            _ => None,
        }
    }

    proof fn lemma_code_round_trip(self) {
    }

    proof fn lemma_from_code_inverse(code: int) {
    }
}

impl ControlAfState {
    /// Each variant's code is the value that the NDK's headers give its constant, so decoding
    /// that value gives the variant and encoding the variant gives the value.
    pub proof fn lemma_ndk_codes()
        ensures
            ControlAfState::INACTIVE.spec_code() == 0,
            ControlAfState::PASSIVE_SCAN.spec_code() == 1,
            ControlAfState::PASSIVE_FOCUSED.spec_code() == 2,
            ControlAfState::ACTIVE_SCAN.spec_code() == 3,
            ControlAfState::FOCUSED_LOCKED.spec_code() == 4,
            ControlAfState::NOT_FOCUSED_LOCKED.spec_code() == 5,
            ControlAfState::PASSIVE_UNFOCUSED.spec_code() == 6,
            ControlAfState::spec_from_code(0) == Some(ControlAfState::INACTIVE),
            ControlAfState::spec_from_code(1) == Some(ControlAfState::PASSIVE_SCAN),
            ControlAfState::spec_from_code(2) == Some(ControlAfState::PASSIVE_FOCUSED),
            ControlAfState::spec_from_code(3) == Some(ControlAfState::ACTIVE_SCAN),
            ControlAfState::spec_from_code(4) == Some(ControlAfState::FOCUSED_LOCKED),
            ControlAfState::spec_from_code(5) == Some(ControlAfState::NOT_FOCUSED_LOCKED),
            ControlAfState::spec_from_code(6) == Some(ControlAfState::PASSIVE_UNFOCUSED),
    {
    }
}

impl ControlAfState {
    /// The variant that the raw code `value` stands for, if any.
    pub fn try_from_raw(value: u8) -> (r: Option<Self>)
        ensures
            r == Self::spec_from_code(value as int),
    {
        match value {
            0 => Some(ControlAfState::INACTIVE),
            1 => Some(ControlAfState::PASSIVE_SCAN),
            2 => Some(ControlAfState::PASSIVE_FOCUSED),
            3 => Some(ControlAfState::ACTIVE_SCAN),
            4 => Some(ControlAfState::FOCUSED_LOCKED),
            5 => Some(ControlAfState::NOT_FOCUSED_LOCKED),
            6 => Some(ControlAfState::PASSIVE_UNFOCUSED),
            _ => None,
        }
    }

    /// The raw code of this variant.
    pub fn into_raw(self) -> (r: u8)
        ensures
            r as int == self.spec_code(),
    {
        match self {
            ControlAfState::INACTIVE => 0,
            ControlAfState::PASSIVE_SCAN => 1,
            ControlAfState::PASSIVE_FOCUSED => 2,
            ControlAfState::ACTIVE_SCAN => 3,
            ControlAfState::FOCUSED_LOCKED => 4,
            ControlAfState::NOT_FOCUSED_LOCKED => 5,
            ControlAfState::PASSIVE_UNFOCUSED => 6,
        }
    }
}

impl CameraEnum for ControlAfState {
}

#[derive(Copy, Clone, Debug, PartialEq, Eq, Ord, PartialOrd, Structural)]
pub enum ControlAwbState {
    INACTIVE,
    SEARCHING,
    CONVERGED,
    LOCKED,
}

impl RawEnum for ControlAwbState {
    open spec fn spec_code(self) -> int {
        match self {
            ControlAwbState::INACTIVE => 0,
            ControlAwbState::SEARCHING => 1,
            ControlAwbState::CONVERGED => 2,
            ControlAwbState::LOCKED => 3,
        }
    }

    open spec fn spec_from_code(code: int) -> Option<Self> {
        if code == 0 {
            Some(ControlAwbState::INACTIVE)
        } else if code == 1 {
            Some(ControlAwbState::SEARCHING)
        } else if code == 2 {
            Some(ControlAwbState::CONVERGED)
        } else if code == 3 {
            Some(ControlAwbState::LOCKED)
        } else {
            None
        }
    }

    fn try_from_code(code: i64) -> (r: Option<Self>) {
        match code {
            0 => Some(ControlAwbState::INACTIVE),
            1 => Some(ControlAwbState::SEARCHING),
            2 => Some(ControlAwbState::CONVERGED),
            3 => Some(ControlAwbState::LOCKED),
            _ => None,
        }
    }

    proof fn lemma_code_round_trip(self) {
    }

    proof fn lemma_from_code_inverse(code: int) {
    }
}

impl ControlAwbState {
    /// Each variant's code is the value that the NDK's headers give its constant, so decoding
    /// that value gives the variant and encoding the variant gives the value.
    pub proof fn lemma_ndk_codes()
        ensures
            ControlAwbState::INACTIVE.spec_code() == 0,
            ControlAwbState::SEARCHING.spec_code() == 1,
            ControlAwbState::CONVERGED.spec_code() == 2,
            ControlAwbState::LOCKED.spec_code() == 3,
            ControlAwbState::spec_from_code(0) == Some(ControlAwbState::INACTIVE),
            ControlAwbState::spec_from_code(1) == Some(ControlAwbState::SEARCHING),
            ControlAwbState::spec_from_code(2) == Some(ControlAwbState::CONVERGED),
            ControlAwbState::spec_from_code(3) == Some(ControlAwbState::LOCKED),
    {
    }
}

impl ControlAwbState {
    /// The variant that the raw code `value` stands for, if any.
    pub fn try_from_raw(value: u8) -> (r: Option<Self>)
        ensures
            r == Self::spec_from_code(value as int),
    {
        match value {
            0 => Some(ControlAwbState::INACTIVE),
            1 => Some(ControlAwbState::SEARCHING),
            2 => Some(ControlAwbState::CONVERGED),
            3 => Some(ControlAwbState::LOCKED),
            _ => None,
        }
    }

    /// The raw code of this variant.
    pub fn into_raw(self) -> (r: u8)
        ensures
            r as int == self.spec_code(),
    {
        match self {
            ControlAwbState::INACTIVE => 0,
            ControlAwbState::SEARCHING => 1,
            ControlAwbState::CONVERGED => 2,
            ControlAwbState::LOCKED => 3,
        }
    }
}

impl CameraEnum for ControlAwbState {
}

#[derive(Copy, Clone, Debug, PartialEq, Eq, Ord, PartialOrd, Structural)]
pub enum ControlAeLockAvailable {
    FALSE,
    TRUE,
}

impl RawEnum for ControlAeLockAvailable {
    open spec fn spec_code(self) -> int {
        match self {
            ControlAeLockAvailable::FALSE => 0,
            ControlAeLockAvailable::TRUE => 1,
        }
    }

    open spec fn spec_from_code(code: int) -> Option<Self> {
        if code == 0 {
            Some(ControlAeLockAvailable::FALSE)
        } else if code == 1 {
            Some(ControlAeLockAvailable::TRUE)
        } else {
            None
        }
    }

    fn try_from_code(code: i64) -> (r: Option<Self>) {
        match code {
            0 => Some(ControlAeLockAvailable::FALSE),
            1 => Some(ControlAeLockAvailable::TRUE),
            _ => None,
        }
    }

    proof fn lemma_code_round_trip(self) {
    }

    proof fn lemma_from_code_inverse(code: int) {
    }
}

impl ControlAeLockAvailable {
    /// Each variant's code is the value that the NDK's headers give its constant, so decoding
    /// that value gives the variant and encoding the variant gives the value.
    pub proof fn lemma_ndk_codes()
        ensures
            ControlAeLockAvailable::FALSE.spec_code() == 0,
            ControlAeLockAvailable::TRUE.spec_code() == 1,
            ControlAeLockAvailable::spec_from_code(0) == Some(ControlAeLockAvailable::FALSE),
            ControlAeLockAvailable::spec_from_code(1) == Some(ControlAeLockAvailable::TRUE),
    {
    }
}

impl ControlAeLockAvailable {
    /// The variant that the raw code `value` stands for, if any.
    pub fn try_from_raw(value: u8) -> (r: Option<Self>)
        ensures
            r == Self::spec_from_code(value as int),
    {
        match value {
            0 => Some(ControlAeLockAvailable::FALSE),
            1 => Some(ControlAeLockAvailable::TRUE),
            _ => None,
        }
    }

    /// The raw code of this variant.
    pub fn into_raw(self) -> (r: u8)
        ensures
            r as int == self.spec_code(),
    {
        match self {
            ControlAeLockAvailable::FALSE => 0,
            ControlAeLockAvailable::TRUE => 1,
        }
    }
}

impl CameraEnum for ControlAeLockAvailable {
}

#[derive(Copy, Clone, Debug, PartialEq, Eq, Ord, PartialOrd, Structural)]
pub enum ControlAwbLockAvailable {
    FALSE,
    TRUE,
}

impl RawEnum for ControlAwbLockAvailable {
    open spec fn spec_code(self) -> int {
        match self {
            ControlAwbLockAvailable::FALSE => 0,
            ControlAwbLockAvailable::TRUE => 1,
        }
    }

    open spec fn spec_from_code(code: int) -> Option<Self> {
        if code == 0 {
            Some(ControlAwbLockAvailable::FALSE)
        } else if code == 1 {
            Some(ControlAwbLockAvailable::TRUE)
        } else {
            None
        }
    }

    fn try_from_code(code: i64) -> (r: Option<Self>) {
        match code {
            0 => Some(ControlAwbLockAvailable::FALSE),
            1 => Some(ControlAwbLockAvailable::TRUE),
            _ => None,
        }
    }

    proof fn lemma_code_round_trip(self) {
    }

    proof fn lemma_from_code_inverse(code: int) {
    }
}

impl ControlAwbLockAvailable {
    /// Each variant's code is the value that the NDK's headers give its constant, so decoding
    /// that value gives the variant and encoding the variant gives the value.
    pub proof fn lemma_ndk_codes()
        ensures
            ControlAwbLockAvailable::FALSE.spec_code() == 0,
            ControlAwbLockAvailable::TRUE.spec_code() == 1,
            ControlAwbLockAvailable::spec_from_code(0) == Some(ControlAwbLockAvailable::FALSE),
            ControlAwbLockAvailable::spec_from_code(1) == Some(ControlAwbLockAvailable::TRUE),
    {
    }
}

impl ControlAwbLockAvailable {
    /// The variant that the raw code `value` stands for, if any.
    pub fn try_from_raw(value: u8) -> (r: Option<Self>)
        ensures
            r == Self::spec_from_code(value as int),
    {
        match value {
            0 => Some(ControlAwbLockAvailable::FALSE),
            1 => Some(ControlAwbLockAvailable::TRUE),
            _ => None,
        }
    }

    /// The raw code of this variant.
    pub fn into_raw(self) -> (r: u8)
        ensures
            r as int == self.spec_code(),
    {
        match self {
            ControlAwbLockAvailable::FALSE => 0,
            ControlAwbLockAvailable::TRUE => 1,
        }
    }
}

impl CameraEnum for ControlAwbLockAvailable {
}

#[derive(Copy, Clone, Debug, PartialEq, Eq, Ord, PartialOrd, Structural)]
pub enum ControlEnableZsl {
    FALSE,
    TRUE,
}

impl RawEnum for ControlEnableZsl {
    open spec fn spec_code(self) -> int {
        match self {
            ControlEnableZsl::FALSE => 0,
            ControlEnableZsl::TRUE => 1,
        }
    }

    open spec fn spec_from_code(code: int) -> Option<Self> {
        if code == 0 {
            Some(ControlEnableZsl::FALSE)
        } else if code == 1 {
            Some(ControlEnableZsl::TRUE)
        } else {
            None
        }
    }

    fn try_from_code(code: i64) -> (r: Option<Self>) {
        match code {
            0 => Some(ControlEnableZsl::FALSE),
            1 => Some(ControlEnableZsl::TRUE),
            _ => None,
        }
    }

    proof fn lemma_code_round_trip(self) {
    }

    proof fn lemma_from_code_inverse(code: int) {
    }
}

impl ControlEnableZsl {
    /// Each variant's code is the value that the NDK's headers give its constant, so decoding
    /// that value gives the variant and encoding the variant gives the value.
    pub proof fn lemma_ndk_codes()
        ensures
            ControlEnableZsl::FALSE.spec_code() == 0,
            ControlEnableZsl::TRUE.spec_code() == 1,
            ControlEnableZsl::spec_from_code(0) == Some(ControlEnableZsl::FALSE),
            ControlEnableZsl::spec_from_code(1) == Some(ControlEnableZsl::TRUE),
    {
    }
}

impl ControlEnableZsl {
    /// The variant that the raw code `value` stands for, if any.
    pub fn try_from_raw(value: u8) -> (r: Option<Self>)
        ensures
            r == Self::spec_from_code(value as int),
    {
        match value {
            0 => Some(ControlEnableZsl::FALSE),
            1 => Some(ControlEnableZsl::TRUE),
            _ => None,
        }
    }

    /// The raw code of this variant.
    pub fn into_raw(self) -> (r: u8)
        ensures
            r as int == self.spec_code(),
    {
        match self {
            ControlEnableZsl::FALSE => 0,
            ControlEnableZsl::TRUE => 1,
        }
    }
}

impl CameraEnum for ControlEnableZsl {
}

#[derive(Copy, Clone, Debug, PartialEq, Eq, Ord, PartialOrd, Structural)]
#[allow(non_camel_case_types)]
pub enum ControlAfSceneChange {
    NOT_DETECTED,
    DETECTED,
}

impl RawEnum for ControlAfSceneChange {
    open spec fn spec_code(self) -> int {
        match self {
            ControlAfSceneChange::NOT_DETECTED => 0,
            ControlAfSceneChange::DETECTED => 1,
        }
    }

    open spec fn spec_from_code(code: int) -> Option<Self> {
        if code == 0 {
            Some(ControlAfSceneChange::NOT_DETECTED)
        } else if code == 1 {
            Some(ControlAfSceneChange::DETECTED)
        } else {
            None
        }
    }

    fn try_from_code(code: i64) -> (r: Option<Self>) {
        match code {
            0 => Some(ControlAfSceneChange::NOT_DETECTED),
            1 => Some(ControlAfSceneChange::DETECTED),
            _ => None,
        }
    }

    proof fn lemma_code_round_trip(self) {
    }

    proof fn lemma_from_code_inverse(code: int) {
    }
}

impl ControlAfSceneChange {
    /// Each variant's code is the value that the NDK's headers give its constant, so decoding
    /// that value gives the variant and encoding the variant gives the value.
    pub proof fn lemma_ndk_codes()
        ensures
            ControlAfSceneChange::NOT_DETECTED.spec_code() == 0,
            ControlAfSceneChange::DETECTED.spec_code() == 1,
            ControlAfSceneChange::spec_from_code(0) == Some(ControlAfSceneChange::NOT_DETECTED),
            ControlAfSceneChange::spec_from_code(1) == Some(ControlAfSceneChange::DETECTED),
    {
    }
}

impl ControlAfSceneChange {
    /// The variant that the raw code `value` stands for, if any.
    pub fn try_from_raw(value: u8) -> (r: Option<Self>)
        ensures
            r == Self::spec_from_code(value as int),
    {
        match value {
            0 => Some(ControlAfSceneChange::NOT_DETECTED),
            1 => Some(ControlAfSceneChange::DETECTED),
            _ => None,
        }
    }

    /// The raw code of this variant.
    pub fn into_raw(self) -> (r: u8)
        ensures
            r as int == self.spec_code(),
    {
        match self {
            ControlAfSceneChange::NOT_DETECTED => 0,
            ControlAfSceneChange::DETECTED => 1,
        }
    }
}

impl CameraEnum for ControlAfSceneChange {
}

#[derive(Copy, Clone, Debug, PartialEq, Eq, Ord, PartialOrd, Structural)]
#[allow(non_camel_case_types)]
pub enum ControlBokehMode {
    OFF,
    STILL_CAPTURE,
    CONTINUOUS,
}

impl RawEnum for ControlBokehMode {
    open spec fn spec_code(self) -> int {
        match self {
            ControlBokehMode::OFF => 0,
            ControlBokehMode::STILL_CAPTURE => 1,
            ControlBokehMode::CONTINUOUS => 2,
        }
    }

    open spec fn spec_from_code(code: int) -> Option<Self> {
        if code == 0 {
            Some(ControlBokehMode::OFF)
        } else if code == 1 {
            Some(ControlBokehMode::STILL_CAPTURE)
        } else if code == 2 {
            Some(ControlBokehMode::CONTINUOUS)
        } else {
            None
        }
    }

    fn try_from_code(code: i64) -> (r: Option<Self>) {
        match code {
            0 => Some(ControlBokehMode::OFF),
            1 => Some(ControlBokehMode::STILL_CAPTURE),
            2 => Some(ControlBokehMode::CONTINUOUS),
            _ => None,
        }
    }

    proof fn lemma_code_round_trip(self) {
    }

    proof fn lemma_from_code_inverse(code: int) {
    }
}

impl ControlBokehMode {
    /// Each variant's code is the value that the NDK's headers give its constant, so decoding
    /// that value gives the variant and encoding the variant gives the value.
    pub proof fn lemma_ndk_codes()
        ensures
            ControlBokehMode::OFF.spec_code() == 0,
            ControlBokehMode::STILL_CAPTURE.spec_code() == 1,
            ControlBokehMode::CONTINUOUS.spec_code() == 2,
            ControlBokehMode::spec_from_code(0) == Some(ControlBokehMode::OFF),
            ControlBokehMode::spec_from_code(1) == Some(ControlBokehMode::STILL_CAPTURE),
            ControlBokehMode::spec_from_code(2) == Some(ControlBokehMode::CONTINUOUS),
    {
    }
}

impl ControlBokehMode {
    /// The variant that the raw code `value` stands for, if any.
    pub fn try_from_raw(value: u8) -> (r: Option<Self>)
        ensures
            r == Self::spec_from_code(value as int),
    {
        match value {
            0 => Some(ControlBokehMode::OFF),
            1 => Some(ControlBokehMode::STILL_CAPTURE),
            2 => Some(ControlBokehMode::CONTINUOUS),
            _ => None,
        }
    }

    /// The raw code of this variant.
    pub fn into_raw(self) -> (r: u8)
        ensures
            r as int == self.spec_code(),
    {
        match self {
            ControlBokehMode::OFF => 0,
            ControlBokehMode::STILL_CAPTURE => 1,
            ControlBokehMode::CONTINUOUS => 2,
        }
    }
}

impl CameraEnum for ControlBokehMode {
}

#[derive(Copy, Clone, Debug, PartialEq, Eq, Ord, PartialOrd, Structural)]
#[allow(non_camel_case_types)]
pub enum EdgeMode {
    OFF,
    FAST,
    HIGH_QUALITY,
    ZERO_SHUTTER_LAG,
}

impl RawEnum for EdgeMode {
    open spec fn spec_code(self) -> int {
        match self {
            EdgeMode::OFF => 0,
            EdgeMode::FAST => 1,
            EdgeMode::HIGH_QUALITY => 2,
            EdgeMode::ZERO_SHUTTER_LAG => 3,
        }
    }

    open spec fn spec_from_code(code: int) -> Option<Self> {
        if code == 0 {
            Some(EdgeMode::OFF)
        } else if code == 1 {
            Some(EdgeMode::FAST)
        } else if code == 2 {
            Some(EdgeMode::HIGH_QUALITY)
        } else if code == 3 {
            Some(EdgeMode::ZERO_SHUTTER_LAG)
        } else {
            None
        }
    }

    fn try_from_code(code: i64) -> (r: Option<Self>) {
        match code {
            0 => Some(EdgeMode::OFF),
            1 => Some(EdgeMode::FAST),
            2 => Some(EdgeMode::HIGH_QUALITY),
            3 => Some(EdgeMode::ZERO_SHUTTER_LAG),
            _ => None,
        }
    }

    proof fn lemma_code_round_trip(self) {
    }

    proof fn lemma_from_code_inverse(code: int) {
    }
}

impl EdgeMode {
    /// Each variant's code is the value that the NDK's headers give its constant, so decoding
    /// that value gives the variant and encoding the variant gives the value.
    pub proof fn lemma_ndk_codes()
        ensures
            EdgeMode::OFF.spec_code() == 0,
            EdgeMode::FAST.spec_code() == 1,
            EdgeMode::HIGH_QUALITY.spec_code() == 2,
            EdgeMode::ZERO_SHUTTER_LAG.spec_code() == 3,
            EdgeMode::spec_from_code(0) == Some(EdgeMode::OFF),
            EdgeMode::spec_from_code(1) == Some(EdgeMode::FAST),
            EdgeMode::spec_from_code(2) == Some(EdgeMode::HIGH_QUALITY),
            EdgeMode::spec_from_code(3) == Some(EdgeMode::ZERO_SHUTTER_LAG),
    {
    }
}

impl EdgeMode {
    /// The variant that the raw code `value` stands for, if any.
    pub fn try_from_raw(value: u8) -> (r: Option<Self>)
        ensures
            r == Self::spec_from_code(value as int),
    {
        match value {
            0 => Some(EdgeMode::OFF),
            1 => Some(EdgeMode::FAST),
            2 => Some(EdgeMode::HIGH_QUALITY),
            3 => Some(EdgeMode::ZERO_SHUTTER_LAG),
            _ => None,
        }
    }

    /// The raw code of this variant.
    pub fn into_raw(self) -> (r: u8)
        ensures
            r as int == self.spec_code(),
    {
        match self {
            EdgeMode::OFF => 0,
            EdgeMode::FAST => 1,
            EdgeMode::HIGH_QUALITY => 2,
            EdgeMode::ZERO_SHUTTER_LAG => 3,
        }
    }
}

impl CameraEnum for EdgeMode {
}

#[derive(Copy, Clone, Debug, PartialEq, Eq, Ord, PartialOrd, Structural)]
pub enum FlashMode {
    OFF,
    SINGLE,
    TORCH,
}

impl RawEnum for FlashMode {
    open spec fn spec_code(self) -> int {
        match self {
            FlashMode::OFF => 0,
            FlashMode::SINGLE => 1,
            FlashMode::TORCH => 2,
        }
    }

    open spec fn spec_from_code(code: int) -> Option<Self> {
        if code == 0 {
            Some(FlashMode::OFF)
        } else if code == 1 {
            Some(FlashMode::SINGLE)
        } else if code == 2 {
            Some(FlashMode::TORCH)
        } else {
            None
        }
    }

    fn try_from_code(code: i64) -> (r: Option<Self>) {
        match code {
            0 => Some(FlashMode::OFF),
            1 => Some(FlashMode::SINGLE),
            2 => Some(FlashMode::TORCH),
            _ => None,
        }
    }

    proof fn lemma_code_round_trip(self) {
    }

    proof fn lemma_from_code_inverse(code: int) {
    }
}

impl FlashMode {
    /// Each variant's code is the value that the NDK's headers give its constant, so decoding
    /// that value gives the variant and encoding the variant gives the value.
    pub proof fn lemma_ndk_codes()
        ensures
            FlashMode::OFF.spec_code() == 0,
            FlashMode::SINGLE.spec_code() == 1,
            FlashMode::TORCH.spec_code() == 2,
            FlashMode::spec_from_code(0) == Some(FlashMode::OFF),
            FlashMode::spec_from_code(1) == Some(FlashMode::SINGLE),
            FlashMode::spec_from_code(2) == Some(FlashMode::TORCH),
    {
    }
}

impl FlashMode {
    /// The variant that the raw code `value` stands for, if any.
    pub fn try_from_raw(value: u8) -> (r: Option<Self>)
        ensures
            r == Self::spec_from_code(value as int),
    {
        match value {
            0 => Some(FlashMode::OFF),
            1 => Some(FlashMode::SINGLE),
            2 => Some(FlashMode::TORCH),
            _ => None,
        }
    }

    /// The raw code of this variant.
    pub fn into_raw(self) -> (r: u8)
        ensures
            r as int == self.spec_code(),
    {
        match self {
            FlashMode::OFF => 0,
            FlashMode::SINGLE => 1,
            FlashMode::TORCH => 2,
        }
    }
}

impl CameraEnum for FlashMode {
}

#[derive(Copy, Clone, Debug, PartialEq, Eq, Ord, PartialOrd, Structural)]
pub enum FlashState {
    UNAVAILABLE,
    CHARGING,
    READY,
    FIRED,
    PARTIAL,
}

impl RawEnum for FlashState {
    open spec fn spec_code(self) -> int {
        match self {
            FlashState::UNAVAILABLE => 0,
            FlashState::CHARGING => 1,
            FlashState::READY => 2,
            FlashState::FIRED => 3,
            FlashState::PARTIAL => 4,
        }
    }

    open spec fn spec_from_code(code: int) -> Option<Self> {
        if code == 0 {
            Some(FlashState::UNAVAILABLE)
        } else if code == 1 {
            Some(FlashState::CHARGING)
        } else if code == 2 {
            Some(FlashState::READY)
        } else if code == 3 {
            Some(FlashState::FIRED)
        } else if code == 4 {
            Some(FlashState::PARTIAL)
        } else {
            None
        }
    }

    fn try_from_code(code: i64) -> (r: Option<Self>) {
        match code {
            0 => Some(FlashState::UNAVAILABLE),
            1 => Some(FlashState::CHARGING),
            2 => Some(FlashState::READY),
            3 => Some(FlashState::FIRED),
            4 => Some(FlashState::PARTIAL),
            _ => None,
        }
    }

    proof fn lemma_code_round_trip(self) {
    }

    proof fn lemma_from_code_inverse(code: int) {
    }
}

impl FlashState {
    /// Each variant's code is the value that the NDK's headers give its constant, so decoding
    /// that value gives the variant and encoding the variant gives the value.
    pub proof fn lemma_ndk_codes()
        ensures
            FlashState::UNAVAILABLE.spec_code() == 0,
            FlashState::CHARGING.spec_code() == 1,
            FlashState::READY.spec_code() == 2,
            FlashState::FIRED.spec_code() == 3,
            FlashState::PARTIAL.spec_code() == 4,
            FlashState::spec_from_code(0) == Some(FlashState::UNAVAILABLE),
            FlashState::spec_from_code(1) == Some(FlashState::CHARGING),
            FlashState::spec_from_code(2) == Some(FlashState::READY),
            FlashState::spec_from_code(3) == Some(FlashState::FIRED),
            FlashState::spec_from_code(4) == Some(FlashState::PARTIAL),
    {
    }
}

impl FlashState {
    /// The variant that the raw code `value` stands for, if any.
    pub fn try_from_raw(value: u8) -> (r: Option<Self>)
        ensures
            r == Self::spec_from_code(value as int),
    {
        match value {
            0 => Some(FlashState::UNAVAILABLE),
            1 => Some(FlashState::CHARGING),
            2 => Some(FlashState::READY),
            3 => Some(FlashState::FIRED),
            4 => Some(FlashState::PARTIAL),
            _ => None,
        }
    }

    /// The raw code of this variant.
    pub fn into_raw(self) -> (r: u8)
        ensures
            r as int == self.spec_code(),
    {
        match self {
            FlashState::UNAVAILABLE => 0,
            FlashState::CHARGING => 1,
            FlashState::READY => 2,
            FlashState::FIRED => 3,
            FlashState::PARTIAL => 4,
        }
    }
}

impl CameraEnum for FlashState {
}

#[derive(Copy, Clone, Debug, PartialEq, Eq, Ord, PartialOrd, Structural)]
pub enum FlashInfoAvailable {
    FALSE,
    TRUE,
}

impl RawEnum for FlashInfoAvailable {
    open spec fn spec_code(self) -> int {
        match self {
            FlashInfoAvailable::FALSE => 0,
            FlashInfoAvailable::TRUE => 1,
        }
    }

    open spec fn spec_from_code(code: int) -> Option<Self> {
        if code == 0 {
            Some(FlashInfoAvailable::FALSE)
        } else if code == 1 {
            Some(FlashInfoAvailable::TRUE)
        } else {
            None
        }
    }

    fn try_from_code(code: i64) -> (r: Option<Self>) {
        match code {
            0 => Some(FlashInfoAvailable::FALSE),
            1 => Some(FlashInfoAvailable::TRUE),
            _ => None,
        }
    }

    proof fn lemma_code_round_trip(self) {
    }

    proof fn lemma_from_code_inverse(code: int) {
    }
}

impl FlashInfoAvailable {
    /// Each variant's code is the value that the NDK's headers give its constant, so decoding
    /// that value gives the variant and encoding the variant gives the value.
    pub proof fn lemma_ndk_codes()
        ensures
            FlashInfoAvailable::FALSE.spec_code() == 0,
            FlashInfoAvailable::TRUE.spec_code() == 1,
            FlashInfoAvailable::spec_from_code(0) == Some(FlashInfoAvailable::FALSE),
            FlashInfoAvailable::spec_from_code(1) == Some(FlashInfoAvailable::TRUE),
    {
    }
}

impl FlashInfoAvailable {
    /// The variant that the raw code `value` stands for, if any.
    pub fn try_from_raw(value: u8) -> (r: Option<Self>)
        ensures
            r == Self::spec_from_code(value as int),
    {
        match value {
            0 => Some(FlashInfoAvailable::FALSE),
            1 => Some(FlashInfoAvailable::TRUE),
            _ => None,
        }
    }

    /// The raw code of this variant.
    pub fn into_raw(self) -> (r: u8)
        ensures
            r as int == self.spec_code(),
    {
        match self {
            FlashInfoAvailable::FALSE => 0,
            FlashInfoAvailable::TRUE => 1,
        }
    }
}

impl CameraEnum for FlashInfoAvailable {
}

#[derive(Copy, Clone, Debug, PartialEq, Eq, Ord, PartialOrd, Structural)]
#[allow(non_camel_case_types)]
pub enum HotPixelMode {
    OFF,
    FAST,
    HIGH_QUALITY,
}

impl RawEnum for HotPixelMode {
    open spec fn spec_code(self) -> int {
        match self {
            HotPixelMode::OFF => 0,
            HotPixelMode::FAST => 1,
            HotPixelMode::HIGH_QUALITY => 2,
        }
    }

    open spec fn spec_from_code(code: int) -> Option<Self> {
        if code == 0 {
            Some(HotPixelMode::OFF)
        } else if code == 1 {
            Some(HotPixelMode::FAST)
        } else if code == 2 {
            Some(HotPixelMode::HIGH_QUALITY)
        } else {
            None
        }
    }

    fn try_from_code(code: i64) -> (r: Option<Self>) {
        match code {
            0 => Some(HotPixelMode::OFF),
            1 => Some(HotPixelMode::FAST),
            2 => Some(HotPixelMode::HIGH_QUALITY),
            _ => None,
        }
    }

    proof fn lemma_code_round_trip(self) {
    }

    proof fn lemma_from_code_inverse(code: int) {
    }
}

impl HotPixelMode {
    /// Each variant's code is the value that the NDK's headers give its constant, so decoding
    /// that value gives the variant and encoding the variant gives the value.
    pub proof fn lemma_ndk_codes()
        ensures
            HotPixelMode::OFF.spec_code() == 0,
            HotPixelMode::FAST.spec_code() == 1,
            HotPixelMode::HIGH_QUALITY.spec_code() == 2,
            HotPixelMode::spec_from_code(0) == Some(HotPixelMode::OFF),
            HotPixelMode::spec_from_code(1) == Some(HotPixelMode::FAST),
            HotPixelMode::spec_from_code(2) == Some(HotPixelMode::HIGH_QUALITY),
    {
    }
}

impl HotPixelMode {
    /// The variant that the raw code `value` stands for, if any.
    pub fn try_from_raw(value: u8) -> (r: Option<Self>)
        ensures
            r == Self::spec_from_code(value as int),
    {
        match value {
            0 => Some(HotPixelMode::OFF),
            1 => Some(HotPixelMode::FAST),
            2 => Some(HotPixelMode::HIGH_QUALITY),
            _ => None,
        }
    }

    /// The raw code of this variant.
    pub fn into_raw(self) -> (r: u8)
        ensures
            r as int == self.spec_code(),
    {
        match self {
            HotPixelMode::OFF => 0,
            HotPixelMode::FAST => 1,
            HotPixelMode::HIGH_QUALITY => 2,
        }
    }
}

impl CameraEnum for HotPixelMode {
}

#[derive(Copy, Clone, Debug, PartialEq, Eq, Ord, PartialOrd, Structural)]
pub enum LensOpticalStabilizationMode {
    OFF,
    ON,
}

impl RawEnum for LensOpticalStabilizationMode {
    open spec fn spec_code(self) -> int {
        match self {
            LensOpticalStabilizationMode::OFF => 0,
            LensOpticalStabilizationMode::ON => 1,
        }
    }

    open spec fn spec_from_code(code: int) -> Option<Self> {
        if code == 0 {
            Some(LensOpticalStabilizationMode::OFF)
        } else if code == 1 {
            Some(LensOpticalStabilizationMode::ON)
        } else {
            None
        }
    }

    fn try_from_code(code: i64) -> (r: Option<Self>) {
        match code {
            0 => Some(LensOpticalStabilizationMode::OFF),
            1 => Some(LensOpticalStabilizationMode::ON),
            _ => None,
        }
    }

    proof fn lemma_code_round_trip(self) {
    }

    proof fn lemma_from_code_inverse(code: int) {
    }
}

impl LensOpticalStabilizationMode {
    /// Each variant's code is the value that the NDK's headers give its constant, so decoding
    /// that value gives the variant and encoding the variant gives the value.
    pub proof fn lemma_ndk_codes()
        ensures
            LensOpticalStabilizationMode::OFF.spec_code() == 0,
            LensOpticalStabilizationMode::ON.spec_code() == 1,
            LensOpticalStabilizationMode::spec_from_code(0) == Some(LensOpticalStabilizationMode::OFF),
            LensOpticalStabilizationMode::spec_from_code(1) == Some(LensOpticalStabilizationMode::ON),
    {
    }
}

impl LensOpticalStabilizationMode {
    /// The variant that the raw code `value` stands for, if any.
    pub fn try_from_raw(value: u8) -> (r: Option<Self>)
        ensures
            r == Self::spec_from_code(value as int),
    {
        match value {
            0 => Some(LensOpticalStabilizationMode::OFF),
            1 => Some(LensOpticalStabilizationMode::ON),
            _ => None,
        }
    }

    /// The raw code of this variant.
    pub fn into_raw(self) -> (r: u8)
        ensures
            r as int == self.spec_code(),
    {
        match self {
            LensOpticalStabilizationMode::OFF => 0,
            LensOpticalStabilizationMode::ON => 1,
        }
    }
}

impl CameraEnum for LensOpticalStabilizationMode {
}

#[derive(Copy, Clone, Debug, PartialEq, Eq, Ord, PartialOrd, Structural)]
pub enum LensFacing {
    FRONT,
    BACK,
    EXTERNAL,
}

impl RawEnum for LensFacing {
    open spec fn spec_code(self) -> int {
        match self {
            LensFacing::FRONT => 0,
            LensFacing::BACK => 1,
            LensFacing::EXTERNAL => 2,
        }
    }

    open spec fn spec_from_code(code: int) -> Option<Self> {
        if code == 0 {
            Some(LensFacing::FRONT)
        } else if code == 1 {
            Some(LensFacing::BACK)
        } else if code == 2 {
            Some(LensFacing::EXTERNAL)
        } else {
            None
        }
    }

    fn try_from_code(code: i64) -> (r: Option<Self>) {
        match code {
            0 => Some(LensFacing::FRONT),
            1 => Some(LensFacing::BACK),
            2 => Some(LensFacing::EXTERNAL),
            _ => None,
        }
    }

    proof fn lemma_code_round_trip(self) {
    }

    proof fn lemma_from_code_inverse(code: int) {
    }
}

impl LensFacing {
    /// Each variant's code is the value that the NDK's headers give its constant, so decoding
    /// that value gives the variant and encoding the variant gives the value.
    pub proof fn lemma_ndk_codes()
        ensures
            LensFacing::FRONT.spec_code() == 0,
            LensFacing::BACK.spec_code() == 1,
            LensFacing::EXTERNAL.spec_code() == 2,
            LensFacing::spec_from_code(0) == Some(LensFacing::FRONT),
            LensFacing::spec_from_code(1) == Some(LensFacing::BACK),
            LensFacing::spec_from_code(2) == Some(LensFacing::EXTERNAL),
    {
    }
}

impl LensFacing {
    /// The variant that the raw code `value` stands for, if any.
    pub fn try_from_raw(value: u8) -> (r: Option<Self>)
        ensures
            r == Self::spec_from_code(value as int),
    {
        match value {
            0 => Some(LensFacing::FRONT),
            1 => Some(LensFacing::BACK),
            2 => Some(LensFacing::EXTERNAL),
            _ => None,
        }
    }

    /// The raw code of this variant.
    pub fn into_raw(self) -> (r: u8)
        ensures
            r as int == self.spec_code(),
    {
        match self {
            LensFacing::FRONT => 0,
            LensFacing::BACK => 1,
            LensFacing::EXTERNAL => 2,
        }
    }
}

impl CameraEnum for LensFacing {
}

#[derive(Copy, Clone, Debug, PartialEq, Eq, Ord, PartialOrd, Structural)]
pub enum LensState {
    STATIONARY,
    MOVING,
}

impl RawEnum for LensState {
    open spec fn spec_code(self) -> int {
        match self {
            LensState::STATIONARY => 0,
            LensState::MOVING => 1,
        }
    }

    open spec fn spec_from_code(code: int) -> Option<Self> {
        if code == 0 {
            Some(LensState::STATIONARY)
        } else if code == 1 {
            Some(LensState::MOVING)
        } else {
            None
        }
    }

    fn try_from_code(code: i64) -> (r: Option<Self>) {
        match code {
            0 => Some(LensState::STATIONARY),
            1 => Some(LensState::MOVING),
            _ => None,
        }
    }

    proof fn lemma_code_round_trip(self) {
    }

    proof fn lemma_from_code_inverse(code: int) {
    }
}

impl LensState {
    /// Each variant's code is the value that the NDK's headers give its constant, so decoding
    /// that value gives the variant and encoding the variant gives the value.
    pub proof fn lemma_ndk_codes()
        ensures
            LensState::STATIONARY.spec_code() == 0,
            LensState::MOVING.spec_code() == 1,
            LensState::spec_from_code(0) == Some(LensState::STATIONARY),
            LensState::spec_from_code(1) == Some(LensState::MOVING),
    {
    }
}

impl LensState {
    /// The variant that the raw code `value` stands for, if any.
    pub fn try_from_raw(value: u8) -> (r: Option<Self>)
        ensures
            r == Self::spec_from_code(value as int),
    {
        match value {
            0 => Some(LensState::STATIONARY),
            1 => Some(LensState::MOVING),
            _ => None,
        }
    }

    /// The raw code of this variant.
    pub fn into_raw(self) -> (r: u8)
        ensures
            r as int == self.spec_code(),
    {
        match self {
            LensState::STATIONARY => 0,
            LensState::MOVING => 1,
        }
    }
}

impl CameraEnum for LensState {
}

#[derive(Copy, Clone, Debug, PartialEq, Eq, Ord, PartialOrd, Structural)]
#[allow(non_camel_case_types)]
pub enum LensPoseReference {
    PRIMARY_CAMERA,
    GYROSCOPE,
    UNDEFINED,
}

impl RawEnum for LensPoseReference {
    open spec fn spec_code(self) -> int {
        match self {
            LensPoseReference::PRIMARY_CAMERA => 0,
            LensPoseReference::GYROSCOPE => 1,
            LensPoseReference::UNDEFINED => 2,
        }
    }

    open spec fn spec_from_code(code: int) -> Option<Self> {
        if code == 0 {
            Some(LensPoseReference::PRIMARY_CAMERA)
        } else if code == 1 {
            Some(LensPoseReference::GYROSCOPE)
        } else if code == 2 {
            Some(LensPoseReference::UNDEFINED)
        } else {
            None
        }
    }

    fn try_from_code(code: i64) -> (r: Option<Self>) {
        match code {
            0 => Some(LensPoseReference::PRIMARY_CAMERA),
            1 => Some(LensPoseReference::GYROSCOPE),
            2 => Some(LensPoseReference::UNDEFINED),
            _ => None,
        }
    }

    proof fn lemma_code_round_trip(self) {
    }

    proof fn lemma_from_code_inverse(code: int) {
    }
}

impl LensPoseReference {
    /// Each variant's code is the value that the NDK's headers give its constant, so decoding
    /// that value gives the variant and encoding the variant gives the value.
    pub proof fn lemma_ndk_codes()
        ensures
            LensPoseReference::PRIMARY_CAMERA.spec_code() == 0,
            LensPoseReference::GYROSCOPE.spec_code() == 1,
            LensPoseReference::UNDEFINED.spec_code() == 2,
            LensPoseReference::spec_from_code(0) == Some(LensPoseReference::PRIMARY_CAMERA),
            LensPoseReference::spec_from_code(1) == Some(LensPoseReference::GYROSCOPE),
            LensPoseReference::spec_from_code(2) == Some(LensPoseReference::UNDEFINED),
    {
    }
}

impl LensPoseReference {
    /// The variant that the raw code `value` stands for, if any.
    pub fn try_from_raw(value: u8) -> (r: Option<Self>)
        ensures
            r == Self::spec_from_code(value as int),
    {
        match value {
            0 => Some(LensPoseReference::PRIMARY_CAMERA),
            1 => Some(LensPoseReference::GYROSCOPE),
            2 => Some(LensPoseReference::UNDEFINED),
            _ => None,
        }
    }

    /// The raw code of this variant.
    pub fn into_raw(self) -> (r: u8)
        ensures
            r as int == self.spec_code(),
    {
        match self {
            LensPoseReference::PRIMARY_CAMERA => 0,
            LensPoseReference::GYROSCOPE => 1,
            LensPoseReference::UNDEFINED => 2,
        }
    }
}

impl CameraEnum for LensPoseReference {
}

#[derive(Copy, Clone, Debug, PartialEq, Eq, Ord, PartialOrd, Structural)]
pub enum LensInfoFocusDistanceCalibration {
    UNCALIBRATED,
    APPROXIMATE,
    CALIBRATED,
}

impl RawEnum for LensInfoFocusDistanceCalibration {
    open spec fn spec_code(self) -> int {
        match self {
            LensInfoFocusDistanceCalibration::UNCALIBRATED => 0,
            LensInfoFocusDistanceCalibration::APPROXIMATE => 1,
            LensInfoFocusDistanceCalibration::CALIBRATED => 2,
        }
    }

    open spec fn spec_from_code(code: int) -> Option<Self> {
        if code == 0 {
            Some(LensInfoFocusDistanceCalibration::UNCALIBRATED)
        } else if code == 1 {
            Some(LensInfoFocusDistanceCalibration::APPROXIMATE)
        } else if code == 2 {
            Some(LensInfoFocusDistanceCalibration::CALIBRATED)
        } else {
            None
        }
    }

    fn try_from_code(code: i64) -> (r: Option<Self>) {
        match code {
            0 => Some(LensInfoFocusDistanceCalibration::UNCALIBRATED),
            1 => Some(LensInfoFocusDistanceCalibration::APPROXIMATE),
            2 => Some(LensInfoFocusDistanceCalibration::CALIBRATED),
            _ => None,
        }
    }

    proof fn lemma_code_round_trip(self) {
    }

    proof fn lemma_from_code_inverse(code: int) {
    }
}

impl LensInfoFocusDistanceCalibration {
    /// Each variant's code is the value that the NDK's headers give its constant, so decoding
    /// that value gives the variant and encoding the variant gives the value.
    pub proof fn lemma_ndk_codes()
        ensures
            LensInfoFocusDistanceCalibration::UNCALIBRATED.spec_code() == 0,
            LensInfoFocusDistanceCalibration::APPROXIMATE.spec_code() == 1,
            LensInfoFocusDistanceCalibration::CALIBRATED.spec_code() == 2,
            LensInfoFocusDistanceCalibration::spec_from_code(0) == Some(LensInfoFocusDistanceCalibration::UNCALIBRATED),
            LensInfoFocusDistanceCalibration::spec_from_code(1) == Some(LensInfoFocusDistanceCalibration::APPROXIMATE),
            LensInfoFocusDistanceCalibration::spec_from_code(2) == Some(LensInfoFocusDistanceCalibration::CALIBRATED),
    {
    }
}

impl LensInfoFocusDistanceCalibration {
    /// The variant that the raw code `value` stands for, if any.
    pub fn try_from_raw(value: u8) -> (r: Option<Self>)
        ensures
            r == Self::spec_from_code(value as int),
    {
        match value {
            0 => Some(LensInfoFocusDistanceCalibration::UNCALIBRATED),
            1 => Some(LensInfoFocusDistanceCalibration::APPROXIMATE),
            2 => Some(LensInfoFocusDistanceCalibration::CALIBRATED),
            _ => None,
        }
    }

    /// The raw code of this variant.
    pub fn into_raw(self) -> (r: u8)
        ensures
            r as int == self.spec_code(),
    {
        match self {
            LensInfoFocusDistanceCalibration::UNCALIBRATED => 0,
            LensInfoFocusDistanceCalibration::APPROXIMATE => 1,
            LensInfoFocusDistanceCalibration::CALIBRATED => 2,
        }
    }
}

impl CameraEnum for LensInfoFocusDistanceCalibration {
}

#[derive(Copy, Clone, Debug, PartialEq, Eq, Ord, PartialOrd, Structural)]
#[allow(non_camel_case_types)]
pub enum NoiseReductionMode {
    OFF,
    FAST,
    HIGH_QUALITY,
    MINIMAL,
    ZERO_SHUTTER_LAG,
}

impl RawEnum for NoiseReductionMode {
    open spec fn spec_code(self) -> int {
        match self {
            NoiseReductionMode::OFF => 0,
            NoiseReductionMode::FAST => 1,
            NoiseReductionMode::HIGH_QUALITY => 2,
            NoiseReductionMode::MINIMAL => 3,
            NoiseReductionMode::ZERO_SHUTTER_LAG => 4,
        }
    }

    open spec fn spec_from_code(code: int) -> Option<Self> {
        if code == 0 {
            Some(NoiseReductionMode::OFF)
        } else if code == 1 {
            Some(NoiseReductionMode::FAST)
        } else if code == 2 {
            Some(NoiseReductionMode::HIGH_QUALITY)
        } else if code == 3 {
            Some(NoiseReductionMode::MINIMAL)
        } else if code == 4 {
            Some(NoiseReductionMode::ZERO_SHUTTER_LAG)
        } else {
            None
        }
    }

    fn try_from_code(code: i64) -> (r: Option<Self>) {
        match code {
            0 => Some(NoiseReductionMode::OFF),
            1 => Some(NoiseReductionMode::FAST),
            2 => Some(NoiseReductionMode::HIGH_QUALITY),
            3 => Some(NoiseReductionMode::MINIMAL),
            4 => Some(NoiseReductionMode::ZERO_SHUTTER_LAG),
            _ => None,
        }
    }

    proof fn lemma_code_round_trip(self) {
    }

    proof fn lemma_from_code_inverse(code: int) {
    }
}

impl NoiseReductionMode {
    /// Each variant's code is the value that the NDK's headers give its constant, so decoding
    /// that value gives the variant and encoding the variant gives the value.
    pub proof fn lemma_ndk_codes()
        ensures
            NoiseReductionMode::OFF.spec_code() == 0,
            NoiseReductionMode::FAST.spec_code() == 1,
            NoiseReductionMode::HIGH_QUALITY.spec_code() == 2,
            NoiseReductionMode::MINIMAL.spec_code() == 3,
            NoiseReductionMode::ZERO_SHUTTER_LAG.spec_code() == 4,
            NoiseReductionMode::spec_from_code(0) == Some(NoiseReductionMode::OFF),
            NoiseReductionMode::spec_from_code(1) == Some(NoiseReductionMode::FAST),
            NoiseReductionMode::spec_from_code(2) == Some(NoiseReductionMode::HIGH_QUALITY),
            NoiseReductionMode::spec_from_code(3) == Some(NoiseReductionMode::MINIMAL),
            NoiseReductionMode::spec_from_code(4) == Some(NoiseReductionMode::ZERO_SHUTTER_LAG),
    {
    }
}

impl NoiseReductionMode {
    /// The variant that the raw code `value` stands for, if any.
    pub fn try_from_raw(value: u8) -> (r: Option<Self>)
        ensures
            r == Self::spec_from_code(value as int),
    {
        match value {
            0 => Some(NoiseReductionMode::OFF),
            1 => Some(NoiseReductionMode::FAST),
            2 => Some(NoiseReductionMode::HIGH_QUALITY),
            3 => Some(NoiseReductionMode::MINIMAL),
            4 => Some(NoiseReductionMode::ZERO_SHUTTER_LAG),
            _ => None,
        }
    }

    /// The raw code of this variant.
    pub fn into_raw(self) -> (r: u8)
        ensures
            r as int == self.spec_code(),
    {
        match self {
            NoiseReductionMode::OFF => 0,
            NoiseReductionMode::FAST => 1,
            NoiseReductionMode::HIGH_QUALITY => 2,
            NoiseReductionMode::MINIMAL => 3,
            NoiseReductionMode::ZERO_SHUTTER_LAG => 4,
        }
    }
}

impl CameraEnum for NoiseReductionMode {
}

#[derive(Copy, Clone, Debug, PartialEq, Eq, Ord, PartialOrd, Structural)]
#[allow(non_camel_case_types)]
pub enum RequestAvailableCapabilities {
    BACKWARD_COMPATIBLE,
    MANUAL_SENSOR,
    MANUAL_POST_PROCESSING,
    RAW,
    READ_SENSOR_SETTINGS,
    BURST_CAPTURE,
    DEPTH_OUTPUT,
    MOTION_TRACKING,
    LOGICAL_MULTI_CAMERA,
    MONOCHROME,
    SECURE_IMAGE_DATA,
    SYSTEM_CAMERA,
}

impl RawEnum for RequestAvailableCapabilities {
    open spec fn spec_code(self) -> int {
        match self {
            RequestAvailableCapabilities::BACKWARD_COMPATIBLE => 0,
            RequestAvailableCapabilities::MANUAL_SENSOR => 1,
            RequestAvailableCapabilities::MANUAL_POST_PROCESSING => 2,
            RequestAvailableCapabilities::RAW => 3,
            RequestAvailableCapabilities::READ_SENSOR_SETTINGS => 5,
            RequestAvailableCapabilities::BURST_CAPTURE => 6,
            RequestAvailableCapabilities::DEPTH_OUTPUT => 8,
            RequestAvailableCapabilities::MOTION_TRACKING => 10,
            RequestAvailableCapabilities::LOGICAL_MULTI_CAMERA => 11,
            RequestAvailableCapabilities::MONOCHROME => 12,
            RequestAvailableCapabilities::SECURE_IMAGE_DATA => 13,
            RequestAvailableCapabilities::SYSTEM_CAMERA => 14,
        }
    }

    open spec fn spec_from_code(code: int) -> Option<Self> {
        if code == 0 {
            Some(RequestAvailableCapabilities::BACKWARD_COMPATIBLE)
        } else if code == 1 {
            Some(RequestAvailableCapabilities::MANUAL_SENSOR)
        } else if code == 2 {
            Some(RequestAvailableCapabilities::MANUAL_POST_PROCESSING)
        } else if code == 3 {
            Some(RequestAvailableCapabilities::RAW)
        } else if code == 5 {
            Some(RequestAvailableCapabilities::READ_SENSOR_SETTINGS)
        } else if code == 6 {
            Some(RequestAvailableCapabilities::BURST_CAPTURE)
        } else if code == 8 {
            Some(RequestAvailableCapabilities::DEPTH_OUTPUT)
        } else if code == 10 {
            Some(RequestAvailableCapabilities::MOTION_TRACKING)
        } else if code == 11 {
            Some(RequestAvailableCapabilities::LOGICAL_MULTI_CAMERA)
        } else if code == 12 {
            Some(RequestAvailableCapabilities::MONOCHROME)
        } else if code == 13 {
            Some(RequestAvailableCapabilities::SECURE_IMAGE_DATA)
        } else if code == 14 {
            Some(RequestAvailableCapabilities::SYSTEM_CAMERA)
        } else {
            None
        }
    }

    fn try_from_code(code: i64) -> (r: Option<Self>) {
        match code {
            0 => Some(RequestAvailableCapabilities::BACKWARD_COMPATIBLE),
            1 => Some(RequestAvailableCapabilities::MANUAL_SENSOR),
            2 => Some(RequestAvailableCapabilities::MANUAL_POST_PROCESSING),
            3 => Some(RequestAvailableCapabilities::RAW),
            5 => Some(RequestAvailableCapabilities::READ_SENSOR_SETTINGS),
            6 => Some(RequestAvailableCapabilities::BURST_CAPTURE),
            8 => Some(RequestAvailableCapabilities::DEPTH_OUTPUT),
            10 => Some(RequestAvailableCapabilities::MOTION_TRACKING),
            11 => Some(RequestAvailableCapabilities::LOGICAL_MULTI_CAMERA),
            12 => Some(RequestAvailableCapabilities::MONOCHROME),
            13 => Some(RequestAvailableCapabilities::SECURE_IMAGE_DATA),
            14 => Some(RequestAvailableCapabilities::SYSTEM_CAMERA),
            _ => None,
        }
    }

    proof fn lemma_code_round_trip(self) {
    }

    proof fn lemma_from_code_inverse(code: int) {
    }
}

impl RequestAvailableCapabilities {
    /// Each variant's code is the value that the NDK's headers give its constant, so decoding
    /// that value gives the variant and encoding the variant gives the value.
    pub proof fn lemma_ndk_codes()
        ensures
            RequestAvailableCapabilities::BACKWARD_COMPATIBLE.spec_code() == 0,
            RequestAvailableCapabilities::MANUAL_SENSOR.spec_code() == 1,
            RequestAvailableCapabilities::MANUAL_POST_PROCESSING.spec_code() == 2,
            RequestAvailableCapabilities::RAW.spec_code() == 3,
            RequestAvailableCapabilities::READ_SENSOR_SETTINGS.spec_code() == 5,
            RequestAvailableCapabilities::BURST_CAPTURE.spec_code() == 6,
            RequestAvailableCapabilities::DEPTH_OUTPUT.spec_code() == 8,
            RequestAvailableCapabilities::MOTION_TRACKING.spec_code() == 10,
            RequestAvailableCapabilities::LOGICAL_MULTI_CAMERA.spec_code() == 11,
            RequestAvailableCapabilities::MONOCHROME.spec_code() == 12,
            RequestAvailableCapabilities::SECURE_IMAGE_DATA.spec_code() == 13,
            RequestAvailableCapabilities::SYSTEM_CAMERA.spec_code() == 14,
            RequestAvailableCapabilities::spec_from_code(0) == Some(RequestAvailableCapabilities::BACKWARD_COMPATIBLE),
            RequestAvailableCapabilities::spec_from_code(1) == Some(RequestAvailableCapabilities::MANUAL_SENSOR),
            RequestAvailableCapabilities::spec_from_code(2) == Some(RequestAvailableCapabilities::MANUAL_POST_PROCESSING),
            RequestAvailableCapabilities::spec_from_code(3) == Some(RequestAvailableCapabilities::RAW),
            RequestAvailableCapabilities::spec_from_code(5) == Some(RequestAvailableCapabilities::READ_SENSOR_SETTINGS),
            RequestAvailableCapabilities::spec_from_code(6) == Some(RequestAvailableCapabilities::BURST_CAPTURE),
            RequestAvailableCapabilities::spec_from_code(8) == Some(RequestAvailableCapabilities::DEPTH_OUTPUT),
            RequestAvailableCapabilities::spec_from_code(10) == Some(RequestAvailableCapabilities::MOTION_TRACKING),
            RequestAvailableCapabilities::spec_from_code(11) == Some(RequestAvailableCapabilities::LOGICAL_MULTI_CAMERA),
            RequestAvailableCapabilities::spec_from_code(12) == Some(RequestAvailableCapabilities::MONOCHROME),
            RequestAvailableCapabilities::spec_from_code(13) == Some(RequestAvailableCapabilities::SECURE_IMAGE_DATA),
            RequestAvailableCapabilities::spec_from_code(14) == Some(RequestAvailableCapabilities::SYSTEM_CAMERA),
    {
    }
}

impl RequestAvailableCapabilities {
    /// The variant that the raw code `value` stands for, if any.
    pub fn try_from_raw(value: u8) -> (r: Option<Self>)
        ensures
            r == Self::spec_from_code(value as int),
    {
        match value {
            0 => Some(RequestAvailableCapabilities::BACKWARD_COMPATIBLE),
            1 => Some(RequestAvailableCapabilities::MANUAL_SENSOR),
            2 => Some(RequestAvailableCapabilities::MANUAL_POST_PROCESSING),
            3 => Some(RequestAvailableCapabilities::RAW),
            5 => Some(RequestAvailableCapabilities::READ_SENSOR_SETTINGS),
            6 => Some(RequestAvailableCapabilities::BURST_CAPTURE),
            8 => Some(RequestAvailableCapabilities::DEPTH_OUTPUT),
            10 => Some(RequestAvailableCapabilities::MOTION_TRACKING),
            11 => Some(RequestAvailableCapabilities::LOGICAL_MULTI_CAMERA),
            12 => Some(RequestAvailableCapabilities::MONOCHROME),
            13 => Some(RequestAvailableCapabilities::SECURE_IMAGE_DATA),
            14 => Some(RequestAvailableCapabilities::SYSTEM_CAMERA),
            _ => None,
        }
    }

    /// The raw code of this variant.
    pub fn into_raw(self) -> (r: u8)
        ensures
            r as int == self.spec_code(),
    {
        match self {
            RequestAvailableCapabilities::BACKWARD_COMPATIBLE => 0,
            RequestAvailableCapabilities::MANUAL_SENSOR => 1,
            RequestAvailableCapabilities::MANUAL_POST_PROCESSING => 2,
            RequestAvailableCapabilities::RAW => 3,
            RequestAvailableCapabilities::READ_SENSOR_SETTINGS => 5,
            RequestAvailableCapabilities::BURST_CAPTURE => 6,
            RequestAvailableCapabilities::DEPTH_OUTPUT => 8,
            RequestAvailableCapabilities::MOTION_TRACKING => 10,
            RequestAvailableCapabilities::LOGICAL_MULTI_CAMERA => 11,
            RequestAvailableCapabilities::MONOCHROME => 12,
            RequestAvailableCapabilities::SECURE_IMAGE_DATA => 13,
            RequestAvailableCapabilities::SYSTEM_CAMERA => 14,
        }
    }
}

impl CameraEnum for RequestAvailableCapabilities {
}

#[derive(Copy, Clone, Debug, PartialEq, Eq, Ord, PartialOrd, Structural)]
pub enum ScalerAvailableStreamConfigurations {
    OUTPUT,
    INPUT,
}

impl RawEnum for ScalerAvailableStreamConfigurations {
    open spec fn spec_code(self) -> int {
        match self {
            ScalerAvailableStreamConfigurations::OUTPUT => 0,
            ScalerAvailableStreamConfigurations::INPUT => 1,
        }
    }

    open spec fn spec_from_code(code: int) -> Option<Self> {
        if code == 0 {
            Some(ScalerAvailableStreamConfigurations::OUTPUT)
        } else if code == 1 {
            Some(ScalerAvailableStreamConfigurations::INPUT)
        } else {
            None
        }
    }

    fn try_from_code(code: i64) -> (r: Option<Self>) {
        match code {
            0 => Some(ScalerAvailableStreamConfigurations::OUTPUT),
            1 => Some(ScalerAvailableStreamConfigurations::INPUT),
            _ => None,
        }
    }

    proof fn lemma_code_round_trip(self) {
    }

    proof fn lemma_from_code_inverse(code: int) {
    }
}

impl ScalerAvailableStreamConfigurations {
    /// Each variant's code is the value that the NDK's headers give its constant, so decoding
    /// that value gives the variant and encoding the variant gives the value.
    pub proof fn lemma_ndk_codes()
        ensures
            ScalerAvailableStreamConfigurations::OUTPUT.spec_code() == 0,
            ScalerAvailableStreamConfigurations::INPUT.spec_code() == 1,
            ScalerAvailableStreamConfigurations::spec_from_code(0) == Some(ScalerAvailableStreamConfigurations::OUTPUT),
            ScalerAvailableStreamConfigurations::spec_from_code(1) == Some(ScalerAvailableStreamConfigurations::INPUT),
    {
    }
}

impl ScalerAvailableStreamConfigurations {
    /// The variant that the raw code `value` stands for, if any.
    pub fn try_from_raw(value: u8) -> (r: Option<Self>)
        ensures
            r == Self::spec_from_code(value as int),
    {
        match value {
            0 => Some(ScalerAvailableStreamConfigurations::OUTPUT),
            1 => Some(ScalerAvailableStreamConfigurations::INPUT),
            _ => None,
        }
    }

    /// The raw code of this variant.
    pub fn into_raw(self) -> (r: u8)
        ensures
            r as int == self.spec_code(),
    {
        match self {
            ScalerAvailableStreamConfigurations::OUTPUT => 0,
            ScalerAvailableStreamConfigurations::INPUT => 1,
        }
    }
}

impl CameraEnum for ScalerAvailableStreamConfigurations {
}

#[derive(Copy, Clone, Debug, PartialEq, Eq, Ord, PartialOrd, Structural)]
#[allow(non_camel_case_types)]
pub enum ScalerCroppingType {
    CENTER_ONLY,
    FREEFORM,
}

impl RawEnum for ScalerCroppingType {
    open spec fn spec_code(self) -> int {
        match self {
            ScalerCroppingType::CENTER_ONLY => 0,
            ScalerCroppingType::FREEFORM => 1,
        }
    }

    open spec fn spec_from_code(code: int) -> Option<Self> {
        if code == 0 {
            Some(ScalerCroppingType::CENTER_ONLY)
        } else if code == 1 {
            Some(ScalerCroppingType::FREEFORM)
        } else {
            None
        }
    }

    fn try_from_code(code: i64) -> (r: Option<Self>) {
        match code {
            0 => Some(ScalerCroppingType::CENTER_ONLY),
            1 => Some(ScalerCroppingType::FREEFORM),
            _ => None,
        }
    }

    proof fn lemma_code_round_trip(self) {
    }

    proof fn lemma_from_code_inverse(code: int) {
    }
}

impl ScalerCroppingType {
    /// Each variant's code is the value that the NDK's headers give its constant, so decoding
    /// that value gives the variant and encoding the variant gives the value.
    pub proof fn lemma_ndk_codes()
        ensures
            ScalerCroppingType::CENTER_ONLY.spec_code() == 0,
            ScalerCroppingType::FREEFORM.spec_code() == 1,
            ScalerCroppingType::spec_from_code(0) == Some(ScalerCroppingType::CENTER_ONLY),
            ScalerCroppingType::spec_from_code(1) == Some(ScalerCroppingType::FREEFORM),
    {
    }
}

impl ScalerCroppingType {
    /// The variant that the raw code `value` stands for, if any.
    pub fn try_from_raw(value: u8) -> (r: Option<Self>)
        ensures
            r == Self::spec_from_code(value as int),
    {
        match value {
            0 => Some(ScalerCroppingType::CENTER_ONLY),
            1 => Some(ScalerCroppingType::FREEFORM),
            _ => None,
        }
    }

    /// The raw code of this variant.
    pub fn into_raw(self) -> (r: u8)
        ensures
            r as int == self.spec_code(),
    {
        match self {
            ScalerCroppingType::CENTER_ONLY => 0,
            ScalerCroppingType::FREEFORM => 1,
        }
    }
}

impl CameraEnum for ScalerCroppingType {
}

#[derive(Copy, Clone, Debug, PartialEq, Eq, Ord, PartialOrd, Structural)]
#[allow(non_camel_case_types)]
pub enum ScalerAvailableRecommendedStreamConfigurations {
    PREVIEW,
    RECORD,
    VIDEO_SNAPSHOT,
    SNAPSHOT,
    ZSL,
    RAW,
    LOW_LATENCY_SNAPSHOT,
    PUBLIC_END,
    VENDOR_START,
}

impl RawEnum for ScalerAvailableRecommendedStreamConfigurations {
    open spec fn spec_code(self) -> int {
        match self {
            ScalerAvailableRecommendedStreamConfigurations::PREVIEW => 0,
            ScalerAvailableRecommendedStreamConfigurations::RECORD => 1,
            ScalerAvailableRecommendedStreamConfigurations::VIDEO_SNAPSHOT => 2,
            ScalerAvailableRecommendedStreamConfigurations::SNAPSHOT => 3,
            ScalerAvailableRecommendedStreamConfigurations::ZSL => 4,
            ScalerAvailableRecommendedStreamConfigurations::RAW => 5,
            ScalerAvailableRecommendedStreamConfigurations::LOW_LATENCY_SNAPSHOT => 6,
            ScalerAvailableRecommendedStreamConfigurations::PUBLIC_END => 7,
            ScalerAvailableRecommendedStreamConfigurations::VENDOR_START => 24,
        }
    }

    open spec fn spec_from_code(code: int) -> Option<Self> {
        if code == 0 {
            Some(ScalerAvailableRecommendedStreamConfigurations::PREVIEW)
        } else if code == 1 {
            Some(ScalerAvailableRecommendedStreamConfigurations::RECORD)
        } else if code == 2 {
            Some(ScalerAvailableRecommendedStreamConfigurations::VIDEO_SNAPSHOT)
        } else if code == 3 {
            Some(ScalerAvailableRecommendedStreamConfigurations::SNAPSHOT)
        } else if code == 4 {
            Some(ScalerAvailableRecommendedStreamConfigurations::ZSL)
        } else if code == 5 {
            Some(ScalerAvailableRecommendedStreamConfigurations::RAW)
        } else if code == 6 {
            Some(ScalerAvailableRecommendedStreamConfigurations::LOW_LATENCY_SNAPSHOT)
        } else if code == 7 {
            Some(ScalerAvailableRecommendedStreamConfigurations::PUBLIC_END)
        } else if code == 24 {
            Some(ScalerAvailableRecommendedStreamConfigurations::VENDOR_START)
        } else {
            None
        }
    }

    fn try_from_code(code: i64) -> (r: Option<Self>) {
        match code {
            0 => Some(ScalerAvailableRecommendedStreamConfigurations::PREVIEW),
            1 => Some(ScalerAvailableRecommendedStreamConfigurations::RECORD),
            2 => Some(ScalerAvailableRecommendedStreamConfigurations::VIDEO_SNAPSHOT),
            3 => Some(ScalerAvailableRecommendedStreamConfigurations::SNAPSHOT),
            4 => Some(ScalerAvailableRecommendedStreamConfigurations::ZSL),
            5 => Some(ScalerAvailableRecommendedStreamConfigurations::RAW),
            6 => Some(ScalerAvailableRecommendedStreamConfigurations::LOW_LATENCY_SNAPSHOT),
            7 => Some(ScalerAvailableRecommendedStreamConfigurations::PUBLIC_END),
            24 => Some(ScalerAvailableRecommendedStreamConfigurations::VENDOR_START),
            _ => None,
        }
    }

    proof fn lemma_code_round_trip(self) {
    }

    proof fn lemma_from_code_inverse(code: int) {
    }
}

impl ScalerAvailableRecommendedStreamConfigurations {
    /// Each variant's code is the value that the NDK's headers give its constant, so decoding
    /// that value gives the variant and encoding the variant gives the value.
    pub proof fn lemma_ndk_codes()
        ensures
            ScalerAvailableRecommendedStreamConfigurations::PREVIEW.spec_code() == 0,
            ScalerAvailableRecommendedStreamConfigurations::RECORD.spec_code() == 1,
            ScalerAvailableRecommendedStreamConfigurations::VIDEO_SNAPSHOT.spec_code() == 2,
            ScalerAvailableRecommendedStreamConfigurations::SNAPSHOT.spec_code() == 3,
            ScalerAvailableRecommendedStreamConfigurations::ZSL.spec_code() == 4,
            ScalerAvailableRecommendedStreamConfigurations::RAW.spec_code() == 5,
            ScalerAvailableRecommendedStreamConfigurations::LOW_LATENCY_SNAPSHOT.spec_code() == 6,
            ScalerAvailableRecommendedStreamConfigurations::PUBLIC_END.spec_code() == 7,
            ScalerAvailableRecommendedStreamConfigurations::VENDOR_START.spec_code() == 24,
            ScalerAvailableRecommendedStreamConfigurations::spec_from_code(0) == Some(ScalerAvailableRecommendedStreamConfigurations::PREVIEW),
            ScalerAvailableRecommendedStreamConfigurations::spec_from_code(1) == Some(ScalerAvailableRecommendedStreamConfigurations::RECORD),
            ScalerAvailableRecommendedStreamConfigurations::spec_from_code(2) == Some(ScalerAvailableRecommendedStreamConfigurations::VIDEO_SNAPSHOT),
            ScalerAvailableRecommendedStreamConfigurations::spec_from_code(3) == Some(ScalerAvailableRecommendedStreamConfigurations::SNAPSHOT),
            ScalerAvailableRecommendedStreamConfigurations::spec_from_code(4) == Some(ScalerAvailableRecommendedStreamConfigurations::ZSL),
            ScalerAvailableRecommendedStreamConfigurations::spec_from_code(5) == Some(ScalerAvailableRecommendedStreamConfigurations::RAW),
            ScalerAvailableRecommendedStreamConfigurations::spec_from_code(6) == Some(ScalerAvailableRecommendedStreamConfigurations::LOW_LATENCY_SNAPSHOT),
            ScalerAvailableRecommendedStreamConfigurations::spec_from_code(7) == Some(ScalerAvailableRecommendedStreamConfigurations::PUBLIC_END),
            ScalerAvailableRecommendedStreamConfigurations::spec_from_code(24) == Some(ScalerAvailableRecommendedStreamConfigurations::VENDOR_START),
    {
    }
}

impl ScalerAvailableRecommendedStreamConfigurations {
    /// The variant that the raw code `value` stands for, if any.
    pub fn try_from_raw(value: i32) -> (r: Option<Self>)
        ensures
            r == Self::spec_from_code(value as int),
    {
        match value {
            0 => Some(ScalerAvailableRecommendedStreamConfigurations::PREVIEW),
            1 => Some(ScalerAvailableRecommendedStreamConfigurations::RECORD),
            2 => Some(ScalerAvailableRecommendedStreamConfigurations::VIDEO_SNAPSHOT),
            3 => Some(ScalerAvailableRecommendedStreamConfigurations::SNAPSHOT),
            4 => Some(ScalerAvailableRecommendedStreamConfigurations::ZSL),
            5 => Some(ScalerAvailableRecommendedStreamConfigurations::RAW),
            6 => Some(ScalerAvailableRecommendedStreamConfigurations::LOW_LATENCY_SNAPSHOT),
            7 => Some(ScalerAvailableRecommendedStreamConfigurations::PUBLIC_END),
            24 => Some(ScalerAvailableRecommendedStreamConfigurations::VENDOR_START),
            _ => None,
        }
    }

    /// The raw code of this variant.
    pub fn into_raw(self) -> (r: i32)
        ensures
            r as int == self.spec_code(),
    {
        match self {
            ScalerAvailableRecommendedStreamConfigurations::PREVIEW => 0,
            ScalerAvailableRecommendedStreamConfigurations::RECORD => 1,
            ScalerAvailableRecommendedStreamConfigurations::VIDEO_SNAPSHOT => 2,
            ScalerAvailableRecommendedStreamConfigurations::SNAPSHOT => 3,
            ScalerAvailableRecommendedStreamConfigurations::ZSL => 4,
            ScalerAvailableRecommendedStreamConfigurations::RAW => 5,
            ScalerAvailableRecommendedStreamConfigurations::LOW_LATENCY_SNAPSHOT => 6,
            ScalerAvailableRecommendedStreamConfigurations::PUBLIC_END => 7,
            ScalerAvailableRecommendedStreamConfigurations::VENDOR_START => 24,
        }
    }
}

impl CameraEnum for ScalerAvailableRecommendedStreamConfigurations {
}

#[derive(Copy, Clone, Debug, PartialEq, Eq, Ord, PartialOrd, Structural)]
#[allow(non_camel_case_types)]
pub enum SensorReferenceIlluminant1 {
    DAYLIGHT,
    FLUORESCENT,
    TUNGSTEN,
    FLASH,
    FINE_WEATHER,
    CLOUDY_WEATHER,
    SHADE,
    DAYLIGHT_FLUORESCENT,
    DAY_WHITE_FLUORESCENT,
    COOL_WHITE_FLUORESCENT,
    WHITE_FLUORESCENT,
    STANDARD_A,
    STANDARD_B,
    STANDARD_C,
    D55,
    D65,
    D75,
    D50,
    ISO_STUDIO_TUNGSTEN,
}

impl RawEnum for SensorReferenceIlluminant1 {
    open spec fn spec_code(self) -> int {
        match self {
            SensorReferenceIlluminant1::DAYLIGHT => 1,
            SensorReferenceIlluminant1::FLUORESCENT => 2,
            SensorReferenceIlluminant1::TUNGSTEN => 3,
            SensorReferenceIlluminant1::FLASH => 4,
            SensorReferenceIlluminant1::FINE_WEATHER => 9,
            SensorReferenceIlluminant1::CLOUDY_WEATHER => 10,
            SensorReferenceIlluminant1::SHADE => 11,
            SensorReferenceIlluminant1::DAYLIGHT_FLUORESCENT => 12,
            SensorReferenceIlluminant1::DAY_WHITE_FLUORESCENT => 13,
            SensorReferenceIlluminant1::COOL_WHITE_FLUORESCENT => 14,
            SensorReferenceIlluminant1::WHITE_FLUORESCENT => 15,
            SensorReferenceIlluminant1::STANDARD_A => 17,
            SensorReferenceIlluminant1::STANDARD_B => 18,
            SensorReferenceIlluminant1::STANDARD_C => 19,
            SensorReferenceIlluminant1::D55 => 20,
            SensorReferenceIlluminant1::D65 => 21,
            SensorReferenceIlluminant1::D75 => 22,
            SensorReferenceIlluminant1::D50 => 23,
            SensorReferenceIlluminant1::ISO_STUDIO_TUNGSTEN => 24,
        }
    }

    open spec fn spec_from_code(code: int) -> Option<Self> {
        if code == 1 {
            Some(SensorReferenceIlluminant1::DAYLIGHT)
        } else if code == 2 {
            Some(SensorReferenceIlluminant1::FLUORESCENT)
        } else if code == 3 {
            Some(SensorReferenceIlluminant1::TUNGSTEN)
        } else if code == 4 {
            Some(SensorReferenceIlluminant1::FLASH)
        } else if code == 9 {
            Some(SensorReferenceIlluminant1::FINE_WEATHER)
        } else if code == 10 {
            Some(SensorReferenceIlluminant1::CLOUDY_WEATHER)
        } else if code == 11 {
            Some(SensorReferenceIlluminant1::SHADE)
        } else if code == 12 {
            Some(SensorReferenceIlluminant1::DAYLIGHT_FLUORESCENT)
        } else if code == 13 {
            Some(SensorReferenceIlluminant1::DAY_WHITE_FLUORESCENT)
        } else if code == 14 {
            Some(SensorReferenceIlluminant1::COOL_WHITE_FLUORESCENT)
        } else if code == 15 {
            Some(SensorReferenceIlluminant1::WHITE_FLUORESCENT)
        } else if code == 17 {
            Some(SensorReferenceIlluminant1::STANDARD_A)
        } else if code == 18 {
            Some(SensorReferenceIlluminant1::STANDARD_B)
        } else if code == 19 {
            Some(SensorReferenceIlluminant1::STANDARD_C)
        } else if code == 20 {
            Some(SensorReferenceIlluminant1::D55)
        } else if code == 21 {
            Some(SensorReferenceIlluminant1::D65)
        } else if code == 22 {
            Some(SensorReferenceIlluminant1::D75)
        } else if code == 23 {
            Some(SensorReferenceIlluminant1::D50)
        } else if code == 24 {
            Some(SensorReferenceIlluminant1::ISO_STUDIO_TUNGSTEN)
        } else {
            None
        }
    }

    fn try_from_code(code: i64) -> (r: Option<Self>) {
        match code {
            1 => Some(SensorReferenceIlluminant1::DAYLIGHT),
            2 => Some(SensorReferenceIlluminant1::FLUORESCENT),
            3 => Some(SensorReferenceIlluminant1::TUNGSTEN),
            4 => Some(SensorReferenceIlluminant1::FLASH),
            9 => Some(SensorReferenceIlluminant1::FINE_WEATHER),
            10 => Some(SensorReferenceIlluminant1::CLOUDY_WEATHER),
            11 => Some(SensorReferenceIlluminant1::SHADE),
            12 => Some(SensorReferenceIlluminant1::DAYLIGHT_FLUORESCENT),
            13 => Some(SensorReferenceIlluminant1::DAY_WHITE_FLUORESCENT),
            14 => Some(SensorReferenceIlluminant1::COOL_WHITE_FLUORESCENT),
            15 => Some(SensorReferenceIlluminant1::WHITE_FLUORESCENT),
            17 => Some(SensorReferenceIlluminant1::STANDARD_A),
            18 => Some(SensorReferenceIlluminant1::STANDARD_B),
            19 => Some(SensorReferenceIlluminant1::STANDARD_C),
            20 => Some(SensorReferenceIlluminant1::D55),
            21 => Some(SensorReferenceIlluminant1::D65),
            22 => Some(SensorReferenceIlluminant1::D75),
            23 => Some(SensorReferenceIlluminant1::D50),
            24 => Some(SensorReferenceIlluminant1::ISO_STUDIO_TUNGSTEN),
            _ => None,
        }
    }

    proof fn lemma_code_round_trip(self) {
    }

    proof fn lemma_from_code_inverse(code: int) {
    }
}

impl SensorReferenceIlluminant1 {
    /// Each variant's code is the value that the NDK's headers give its constant, so decoding
    /// that value gives the variant and encoding the variant gives the value.
    pub proof fn lemma_ndk_codes()
        ensures
            SensorReferenceIlluminant1::DAYLIGHT.spec_code() == 1,
            SensorReferenceIlluminant1::FLUORESCENT.spec_code() == 2,
            SensorReferenceIlluminant1::TUNGSTEN.spec_code() == 3,
            SensorReferenceIlluminant1::FLASH.spec_code() == 4,
            SensorReferenceIlluminant1::FINE_WEATHER.spec_code() == 9,
            SensorReferenceIlluminant1::CLOUDY_WEATHER.spec_code() == 10,
            SensorReferenceIlluminant1::SHADE.spec_code() == 11,
            SensorReferenceIlluminant1::DAYLIGHT_FLUORESCENT.spec_code() == 12,
            SensorReferenceIlluminant1::DAY_WHITE_FLUORESCENT.spec_code() == 13,
            SensorReferenceIlluminant1::COOL_WHITE_FLUORESCENT.spec_code() == 14,
            SensorReferenceIlluminant1::WHITE_FLUORESCENT.spec_code() == 15,
            SensorReferenceIlluminant1::STANDARD_A.spec_code() == 17,
            SensorReferenceIlluminant1::STANDARD_B.spec_code() == 18,
            SensorReferenceIlluminant1::STANDARD_C.spec_code() == 19,
            SensorReferenceIlluminant1::D55.spec_code() == 20,
            SensorReferenceIlluminant1::D65.spec_code() == 21,
            SensorReferenceIlluminant1::D75.spec_code() == 22,
            SensorReferenceIlluminant1::D50.spec_code() == 23,
            SensorReferenceIlluminant1::ISO_STUDIO_TUNGSTEN.spec_code() == 24,
            SensorReferenceIlluminant1::spec_from_code(1) == Some(SensorReferenceIlluminant1::DAYLIGHT),
            SensorReferenceIlluminant1::spec_from_code(2) == Some(SensorReferenceIlluminant1::FLUORESCENT),
            SensorReferenceIlluminant1::spec_from_code(3) == Some(SensorReferenceIlluminant1::TUNGSTEN),
            SensorReferenceIlluminant1::spec_from_code(4) == Some(SensorReferenceIlluminant1::FLASH),
            SensorReferenceIlluminant1::spec_from_code(9) == Some(SensorReferenceIlluminant1::FINE_WEATHER),
            SensorReferenceIlluminant1::spec_from_code(10) == Some(SensorReferenceIlluminant1::CLOUDY_WEATHER),
            SensorReferenceIlluminant1::spec_from_code(11) == Some(SensorReferenceIlluminant1::SHADE),
            SensorReferenceIlluminant1::spec_from_code(12) == Some(SensorReferenceIlluminant1::DAYLIGHT_FLUORESCENT),
            SensorReferenceIlluminant1::spec_from_code(13) == Some(SensorReferenceIlluminant1::DAY_WHITE_FLUORESCENT),
            SensorReferenceIlluminant1::spec_from_code(14) == Some(SensorReferenceIlluminant1::COOL_WHITE_FLUORESCENT),
            SensorReferenceIlluminant1::spec_from_code(15) == Some(SensorReferenceIlluminant1::WHITE_FLUORESCENT),
            SensorReferenceIlluminant1::spec_from_code(17) == Some(SensorReferenceIlluminant1::STANDARD_A),
            SensorReferenceIlluminant1::spec_from_code(18) == Some(SensorReferenceIlluminant1::STANDARD_B),
            SensorReferenceIlluminant1::spec_from_code(19) == Some(SensorReferenceIlluminant1::STANDARD_C),
            SensorReferenceIlluminant1::spec_from_code(20) == Some(SensorReferenceIlluminant1::D55),
            SensorReferenceIlluminant1::spec_from_code(21) == Some(SensorReferenceIlluminant1::D65),
            SensorReferenceIlluminant1::spec_from_code(22) == Some(SensorReferenceIlluminant1::D75),
            SensorReferenceIlluminant1::spec_from_code(23) == Some(SensorReferenceIlluminant1::D50),
            SensorReferenceIlluminant1::spec_from_code(24) == Some(SensorReferenceIlluminant1::ISO_STUDIO_TUNGSTEN),
    {
    }
}

impl SensorReferenceIlluminant1 {
    /// The variant that the raw code `value` stands for, if any.
    pub fn try_from_raw(value: u8) -> (r: Option<Self>)
        ensures
            r == Self::spec_from_code(value as int),
    {
        match value {
            1 => Some(SensorReferenceIlluminant1::DAYLIGHT),
            2 => Some(SensorReferenceIlluminant1::FLUORESCENT),
            3 => Some(SensorReferenceIlluminant1::TUNGSTEN),
            4 => Some(SensorReferenceIlluminant1::FLASH),
            9 => Some(SensorReferenceIlluminant1::FINE_WEATHER),
            10 => Some(SensorReferenceIlluminant1::CLOUDY_WEATHER),
            11 => Some(SensorReferenceIlluminant1::SHADE),
            12 => Some(SensorReferenceIlluminant1::DAYLIGHT_FLUORESCENT),
            13 => Some(SensorReferenceIlluminant1::DAY_WHITE_FLUORESCENT),
            14 => Some(SensorReferenceIlluminant1::COOL_WHITE_FLUORESCENT),
            15 => Some(SensorReferenceIlluminant1::WHITE_FLUORESCENT),
            17 => Some(SensorReferenceIlluminant1::STANDARD_A),
            18 => Some(SensorReferenceIlluminant1::STANDARD_B),
            19 => Some(SensorReferenceIlluminant1::STANDARD_C),
            20 => Some(SensorReferenceIlluminant1::D55),
            21 => Some(SensorReferenceIlluminant1::D65),
            22 => Some(SensorReferenceIlluminant1::D75),
            23 => Some(SensorReferenceIlluminant1::D50),
            24 => Some(SensorReferenceIlluminant1::ISO_STUDIO_TUNGSTEN),
            _ => None,
        }
    }

    /// The raw code of this variant.
    pub fn into_raw(self) -> (r: u8)
        ensures
            r as int == self.spec_code(),
    {
        match self {
            SensorReferenceIlluminant1::DAYLIGHT => 1,
            SensorReferenceIlluminant1::FLUORESCENT => 2,
            SensorReferenceIlluminant1::TUNGSTEN => 3,
            SensorReferenceIlluminant1::FLASH => 4,
            SensorReferenceIlluminant1::FINE_WEATHER => 9,
            SensorReferenceIlluminant1::CLOUDY_WEATHER => 10,
            SensorReferenceIlluminant1::SHADE => 11,
            SensorReferenceIlluminant1::DAYLIGHT_FLUORESCENT => 12,
            SensorReferenceIlluminant1::DAY_WHITE_FLUORESCENT => 13,
            SensorReferenceIlluminant1::COOL_WHITE_FLUORESCENT => 14,
            SensorReferenceIlluminant1::WHITE_FLUORESCENT => 15,
            SensorReferenceIlluminant1::STANDARD_A => 17,
            SensorReferenceIlluminant1::STANDARD_B => 18,
            SensorReferenceIlluminant1::STANDARD_C => 19,
            SensorReferenceIlluminant1::D55 => 20,
            SensorReferenceIlluminant1::D65 => 21,
            SensorReferenceIlluminant1::D75 => 22,
            SensorReferenceIlluminant1::D50 => 23,
            SensorReferenceIlluminant1::ISO_STUDIO_TUNGSTEN => 24,
        }
    }
}

impl CameraEnum for SensorReferenceIlluminant1 {
}

#[derive(Copy, Clone, Debug, PartialEq, Eq, Ord, PartialOrd, Structural)]
#[allow(non_camel_case_types)]
pub enum SensorTestPatternMode {
    OFF,
    SOLID_COLOR,
    COLOR_BARS,
    COLOR_BARS_FADE_TO_GRAY,
    PN9,
    CUSTOM1,
}

impl RawEnum for SensorTestPatternMode {
    open spec fn spec_code(self) -> int {
        match self {
            SensorTestPatternMode::OFF => 0,
            SensorTestPatternMode::SOLID_COLOR => 1,
            SensorTestPatternMode::COLOR_BARS => 2,
            SensorTestPatternMode::COLOR_BARS_FADE_TO_GRAY => 3,
            SensorTestPatternMode::PN9 => 4,
            SensorTestPatternMode::CUSTOM1 => 256,
        }
    }

    open spec fn spec_from_code(code: int) -> Option<Self> {
        if code == 0 {
            Some(SensorTestPatternMode::OFF)
        } else if code == 1 {
            Some(SensorTestPatternMode::SOLID_COLOR)
        } else if code == 2 {
            Some(SensorTestPatternMode::COLOR_BARS)
        } else if code == 3 {
            Some(SensorTestPatternMode::COLOR_BARS_FADE_TO_GRAY)
        } else if code == 4 {
            Some(SensorTestPatternMode::PN9)
        } else if code == 256 {
            Some(SensorTestPatternMode::CUSTOM1)
        } else {
            None
        }
    }

    fn try_from_code(code: i64) -> (r: Option<Self>) {
        match code {
            0 => Some(SensorTestPatternMode::OFF),
            1 => Some(SensorTestPatternMode::SOLID_COLOR),
            2 => Some(SensorTestPatternMode::COLOR_BARS),
            3 => Some(SensorTestPatternMode::COLOR_BARS_FADE_TO_GRAY),
            4 => Some(SensorTestPatternMode::PN9),
            256 => Some(SensorTestPatternMode::CUSTOM1),
            _ => None,
        }
    }

    proof fn lemma_code_round_trip(self) {
    }

    proof fn lemma_from_code_inverse(code: int) {
    }
}

impl SensorTestPatternMode {
    /// Each variant's code is the value that the NDK's headers give its constant, so decoding
    /// that value gives the variant and encoding the variant gives the value.
    pub proof fn lemma_ndk_codes()
        ensures
            SensorTestPatternMode::OFF.spec_code() == 0,
            SensorTestPatternMode::SOLID_COLOR.spec_code() == 1,
            SensorTestPatternMode::COLOR_BARS.spec_code() == 2,
            SensorTestPatternMode::COLOR_BARS_FADE_TO_GRAY.spec_code() == 3,
            SensorTestPatternMode::PN9.spec_code() == 4,
            SensorTestPatternMode::CUSTOM1.spec_code() == 256,
            SensorTestPatternMode::spec_from_code(0) == Some(SensorTestPatternMode::OFF),
            SensorTestPatternMode::spec_from_code(1) == Some(SensorTestPatternMode::SOLID_COLOR),
            SensorTestPatternMode::spec_from_code(2) == Some(SensorTestPatternMode::COLOR_BARS),
            SensorTestPatternMode::spec_from_code(3) == Some(SensorTestPatternMode::COLOR_BARS_FADE_TO_GRAY),
            SensorTestPatternMode::spec_from_code(4) == Some(SensorTestPatternMode::PN9),
            SensorTestPatternMode::spec_from_code(256) == Some(SensorTestPatternMode::CUSTOM1),
    {
    }
}

impl SensorTestPatternMode {
    /// The variant that the raw code `value` stands for, if any.
    pub fn try_from_raw(value: i32) -> (r: Option<Self>)
        ensures
            r == Self::spec_from_code(value as int),
    {
        match value {
            0 => Some(SensorTestPatternMode::OFF),
            1 => Some(SensorTestPatternMode::SOLID_COLOR),
            2 => Some(SensorTestPatternMode::COLOR_BARS),
            3 => Some(SensorTestPatternMode::COLOR_BARS_FADE_TO_GRAY),
            4 => Some(SensorTestPatternMode::PN9),
            256 => Some(SensorTestPatternMode::CUSTOM1),
            _ => None,
        }
    }

    /// The raw code of this variant.
    pub fn into_raw(self) -> (r: i32)
        ensures
            r as int == self.spec_code(),
    {
        match self {
            SensorTestPatternMode::OFF => 0,
            SensorTestPatternMode::SOLID_COLOR => 1,
            SensorTestPatternMode::COLOR_BARS => 2,
            SensorTestPatternMode::COLOR_BARS_FADE_TO_GRAY => 3,
            SensorTestPatternMode::PN9 => 4,
            SensorTestPatternMode::CUSTOM1 => 256,
        }
    }
}

impl CameraEnum for SensorTestPatternMode {
}

#[derive(Copy, Clone, Debug, PartialEq, Eq, Ord, PartialOrd, Structural)]
pub enum SensorInfoColorFilterArrangement {
    RGGB,
    GRBG,
    GBRG,
    BGGR,
    RGB,
    MONO,
    NIR,
}

impl RawEnum for SensorInfoColorFilterArrangement {
    open spec fn spec_code(self) -> int {
        match self {
            SensorInfoColorFilterArrangement::RGGB => 0,
            SensorInfoColorFilterArrangement::GRBG => 1,
            SensorInfoColorFilterArrangement::GBRG => 2,
            SensorInfoColorFilterArrangement::BGGR => 3,
            SensorInfoColorFilterArrangement::RGB => 4,
            SensorInfoColorFilterArrangement::MONO => 5,
            SensorInfoColorFilterArrangement::NIR => 6,
        }
    }

    open spec fn spec_from_code(code: int) -> Option<Self> {
        if code == 0 {
            Some(SensorInfoColorFilterArrangement::RGGB)
        } else if code == 1 {
            Some(SensorInfoColorFilterArrangement::GRBG)
        } else if code == 2 {
            Some(SensorInfoColorFilterArrangement::GBRG)
        } else if code == 3 {
            Some(SensorInfoColorFilterArrangement::BGGR)
        } else if code == 4 {
            Some(SensorInfoColorFilterArrangement::RGB)
        } else if code == 5 {
            Some(SensorInfoColorFilterArrangement::MONO)
        } else if code == 6 {
            Some(SensorInfoColorFilterArrangement::NIR)
        } else {
            None
        }
    }

    fn try_from_code(code: i64) -> (r: Option<Self>) {
        match code {
            0 => Some(SensorInfoColorFilterArrangement::RGGB),
            1 => Some(SensorInfoColorFilterArrangement::GRBG),
            2 => Some(SensorInfoColorFilterArrangement::GBRG),
            3 => Some(SensorInfoColorFilterArrangement::BGGR),
            4 => Some(SensorInfoColorFilterArrangement::RGB),
            5 => Some(SensorInfoColorFilterArrangement::MONO),
            6 => Some(SensorInfoColorFilterArrangement::NIR),
            _ => None,
        }
    }

    proof fn lemma_code_round_trip(self) {
    }

    proof fn lemma_from_code_inverse(code: int) {
    }
}

impl SensorInfoColorFilterArrangement {
    /// Each variant's code is the value that the NDK's headers give its constant, so decoding
    /// that value gives the variant and encoding the variant gives the value.
    pub proof fn lemma_ndk_codes()
        ensures
            SensorInfoColorFilterArrangement::RGGB.spec_code() == 0,
            SensorInfoColorFilterArrangement::GRBG.spec_code() == 1,
            SensorInfoColorFilterArrangement::GBRG.spec_code() == 2,
            SensorInfoColorFilterArrangement::BGGR.spec_code() == 3,
            SensorInfoColorFilterArrangement::RGB.spec_code() == 4,
            SensorInfoColorFilterArrangement::MONO.spec_code() == 5,
            SensorInfoColorFilterArrangement::NIR.spec_code() == 6,
            SensorInfoColorFilterArrangement::spec_from_code(0) == Some(SensorInfoColorFilterArrangement::RGGB),
            SensorInfoColorFilterArrangement::spec_from_code(1) == Some(SensorInfoColorFilterArrangement::GRBG),
            SensorInfoColorFilterArrangement::spec_from_code(2) == Some(SensorInfoColorFilterArrangement::GBRG),
            SensorInfoColorFilterArrangement::spec_from_code(3) == Some(SensorInfoColorFilterArrangement::BGGR),
            SensorInfoColorFilterArrangement::spec_from_code(4) == Some(SensorInfoColorFilterArrangement::RGB),
            SensorInfoColorFilterArrangement::spec_from_code(5) == Some(SensorInfoColorFilterArrangement::MONO),
            SensorInfoColorFilterArrangement::spec_from_code(6) == Some(SensorInfoColorFilterArrangement::NIR),
    {
    }
}

impl SensorInfoColorFilterArrangement {
    /// The variant that the raw code `value` stands for, if any.
    pub fn try_from_raw(value: u8) -> (r: Option<Self>)
        ensures
            r == Self::spec_from_code(value as int),
    {
        match value {
            0 => Some(SensorInfoColorFilterArrangement::RGGB),
            1 => Some(SensorInfoColorFilterArrangement::GRBG),
            2 => Some(SensorInfoColorFilterArrangement::GBRG),
            3 => Some(SensorInfoColorFilterArrangement::BGGR),
            4 => Some(SensorInfoColorFilterArrangement::RGB),
            5 => Some(SensorInfoColorFilterArrangement::MONO),
            6 => Some(SensorInfoColorFilterArrangement::NIR),
            _ => None,
        }
    }

    /// The raw code of this variant.
    pub fn into_raw(self) -> (r: u8)
        ensures
            r as int == self.spec_code(),
    {
        match self {
            SensorInfoColorFilterArrangement::RGGB => 0,
            SensorInfoColorFilterArrangement::GRBG => 1,
            SensorInfoColorFilterArrangement::GBRG => 2,
            SensorInfoColorFilterArrangement::BGGR => 3,
            SensorInfoColorFilterArrangement::RGB => 4,
            SensorInfoColorFilterArrangement::MONO => 5,
            SensorInfoColorFilterArrangement::NIR => 6,
        }
    }
}

impl CameraEnum for SensorInfoColorFilterArrangement {
}

#[derive(Copy, Clone, Debug, PartialEq, Eq, Ord, PartialOrd, Structural)]
pub enum SensorInfoTimestampSource {
    UNKNOWN,
    REALTIME,
}

impl RawEnum for SensorInfoTimestampSource {
    open spec fn spec_code(self) -> int {
        match self {
            SensorInfoTimestampSource::UNKNOWN => 0,
            SensorInfoTimestampSource::REALTIME => 1,
        }
    }

    open spec fn spec_from_code(code: int) -> Option<Self> {
        if code == 0 {
            Some(SensorInfoTimestampSource::UNKNOWN)
        } else if code == 1 {
            Some(SensorInfoTimestampSource::REALTIME)
        } else {
            None
        }
    }

    fn try_from_code(code: i64) -> (r: Option<Self>) {
        match code {
            0 => Some(SensorInfoTimestampSource::UNKNOWN),
            1 => Some(SensorInfoTimestampSource::REALTIME),
            _ => None,
        }
    }

    proof fn lemma_code_round_trip(self) {
    }

    proof fn lemma_from_code_inverse(code: int) {
    }
}

impl SensorInfoTimestampSource {
    /// Each variant's code is the value that the NDK's headers give its constant, so decoding
    /// that value gives the variant and encoding the variant gives the value.
    pub proof fn lemma_ndk_codes()
        ensures
            SensorInfoTimestampSource::UNKNOWN.spec_code() == 0,
            SensorInfoTimestampSource::REALTIME.spec_code() == 1,
            SensorInfoTimestampSource::spec_from_code(0) == Some(SensorInfoTimestampSource::UNKNOWN),
            SensorInfoTimestampSource::spec_from_code(1) == Some(SensorInfoTimestampSource::REALTIME),
    {
    }
}

impl SensorInfoTimestampSource {
    /// The variant that the raw code `value` stands for, if any.
    pub fn try_from_raw(value: u8) -> (r: Option<Self>)
        ensures
            r == Self::spec_from_code(value as int),
    {
        match value {
            0 => Some(SensorInfoTimestampSource::UNKNOWN),
            1 => Some(SensorInfoTimestampSource::REALTIME),
            _ => None,
        }
    }

    /// The raw code of this variant.
    pub fn into_raw(self) -> (r: u8)
        ensures
            r as int == self.spec_code(),
    {
        match self {
            SensorInfoTimestampSource::UNKNOWN => 0,
            SensorInfoTimestampSource::REALTIME => 1,
        }
    }
}

impl CameraEnum for SensorInfoTimestampSource {
}

#[derive(Copy, Clone, Debug, PartialEq, Eq, Ord, PartialOrd, Structural)]
pub enum SensorInfoLensShadingApplied {
    FALSE,
    TRUE,
}

impl RawEnum for SensorInfoLensShadingApplied {
    open spec fn spec_code(self) -> int {
        match self {
            SensorInfoLensShadingApplied::FALSE => 0,
            SensorInfoLensShadingApplied::TRUE => 1,
        }
    }

    open spec fn spec_from_code(code: int) -> Option<Self> {
        if code == 0 {
            Some(SensorInfoLensShadingApplied::FALSE)
        } else if code == 1 {
            Some(SensorInfoLensShadingApplied::TRUE)
        } else {
            None
        }
    }

    fn try_from_code(code: i64) -> (r: Option<Self>) {
        match code {
            0 => Some(SensorInfoLensShadingApplied::FALSE),
            1 => Some(SensorInfoLensShadingApplied::TRUE),
            _ => None,
        }
    }

    proof fn lemma_code_round_trip(self) {
    }

    proof fn lemma_from_code_inverse(code: int) {
    }
}

impl SensorInfoLensShadingApplied {
    /// Each variant's code is the value that the NDK's headers give its constant, so decoding
    /// that value gives the variant and encoding the variant gives the value.
    pub proof fn lemma_ndk_codes()
        ensures
            SensorInfoLensShadingApplied::FALSE.spec_code() == 0,
            SensorInfoLensShadingApplied::TRUE.spec_code() == 1,
            SensorInfoLensShadingApplied::spec_from_code(0) == Some(SensorInfoLensShadingApplied::FALSE),
            SensorInfoLensShadingApplied::spec_from_code(1) == Some(SensorInfoLensShadingApplied::TRUE),
    {
    }
}

impl SensorInfoLensShadingApplied {
    /// The variant that the raw code `value` stands for, if any.
    pub fn try_from_raw(value: u8) -> (r: Option<Self>)
        ensures
            r == Self::spec_from_code(value as int),
    {
        match value {
            0 => Some(SensorInfoLensShadingApplied::FALSE),
            1 => Some(SensorInfoLensShadingApplied::TRUE),
            _ => None,
        }
    }

    /// The raw code of this variant.
    pub fn into_raw(self) -> (r: u8)
        ensures
            r as int == self.spec_code(),
    {
        match self {
            SensorInfoLensShadingApplied::FALSE => 0,
            SensorInfoLensShadingApplied::TRUE => 1,
        }
    }
}

impl CameraEnum for SensorInfoLensShadingApplied {
}

#[derive(Copy, Clone, Debug, PartialEq, Eq, Ord, PartialOrd, Structural)]
#[allow(non_camel_case_types)]
pub enum ShadingMode {
    OFF,
    FAST,
    HIGH_QUALITY,
}

impl RawEnum for ShadingMode {
    open spec fn spec_code(self) -> int {
        match self {
            ShadingMode::OFF => 0,
            ShadingMode::FAST => 1,
            ShadingMode::HIGH_QUALITY => 2,
        }
    }

    open spec fn spec_from_code(code: int) -> Option<Self> {
        if code == 0 {
            Some(ShadingMode::OFF)
        } else if code == 1 {
            Some(ShadingMode::FAST)
        } else if code == 2 {
            Some(ShadingMode::HIGH_QUALITY)
        } else {
            None
        }
    }

    fn try_from_code(code: i64) -> (r: Option<Self>) {
        match code {
            0 => Some(ShadingMode::OFF),
            1 => Some(ShadingMode::FAST),
            2 => Some(ShadingMode::HIGH_QUALITY),
            _ => None,
        }
    }

    proof fn lemma_code_round_trip(self) {
    }

    proof fn lemma_from_code_inverse(code: int) {
    }
}

impl ShadingMode {
    /// Each variant's code is the value that the NDK's headers give its constant, so decoding
    /// that value gives the variant and encoding the variant gives the value.
    pub proof fn lemma_ndk_codes()
        ensures
            ShadingMode::OFF.spec_code() == 0,
            ShadingMode::FAST.spec_code() == 1,
            ShadingMode::HIGH_QUALITY.spec_code() == 2,
            ShadingMode::spec_from_code(0) == Some(ShadingMode::OFF),
            ShadingMode::spec_from_code(1) == Some(ShadingMode::FAST),
            ShadingMode::spec_from_code(2) == Some(ShadingMode::HIGH_QUALITY),
    {
    }
}

impl ShadingMode {
    /// The variant that the raw code `value` stands for, if any.
    pub fn try_from_raw(value: u8) -> (r: Option<Self>)
        ensures
            r == Self::spec_from_code(value as int),
    {
        match value {
            0 => Some(ShadingMode::OFF),
            1 => Some(ShadingMode::FAST),
            2 => Some(ShadingMode::HIGH_QUALITY),
            _ => None,
        }
    }

    /// The raw code of this variant.
    pub fn into_raw(self) -> (r: u8)
        ensures
            r as int == self.spec_code(),
    {
        match self {
            ShadingMode::OFF => 0,
            ShadingMode::FAST => 1,
            ShadingMode::HIGH_QUALITY => 2,
        }
    }
}

impl CameraEnum for ShadingMode {
}

#[derive(Copy, Clone, Debug, PartialEq, Eq, Ord, PartialOrd, Structural)]
pub enum StatisticsFaceDetectMode {
    OFF,
    SIMPLE,
    FULL,
}

impl RawEnum for StatisticsFaceDetectMode {
    open spec fn spec_code(self) -> int {
        match self {
            StatisticsFaceDetectMode::OFF => 0,
            StatisticsFaceDetectMode::SIMPLE => 1,
            StatisticsFaceDetectMode::FULL => 2,
        }
    }

    open spec fn spec_from_code(code: int) -> Option<Self> {
        if code == 0 {
            Some(StatisticsFaceDetectMode::OFF)
        } else if code == 1 {
            Some(StatisticsFaceDetectMode::SIMPLE)
        } else if code == 2 {
            Some(StatisticsFaceDetectMode::FULL)
        } else {
            None
        }
    }

    fn try_from_code(code: i64) -> (r: Option<Self>) {
        match code {
            0 => Some(StatisticsFaceDetectMode::OFF),
            1 => Some(StatisticsFaceDetectMode::SIMPLE),
            2 => Some(StatisticsFaceDetectMode::FULL),
            _ => None,
        }
    }

    proof fn lemma_code_round_trip(self) {
    }

    proof fn lemma_from_code_inverse(code: int) {
    }
}

impl StatisticsFaceDetectMode {
    /// Each variant's code is the value that the NDK's headers give its constant, so decoding
    /// that value gives the variant and encoding the variant gives the value.
    pub proof fn lemma_ndk_codes()
        ensures
            StatisticsFaceDetectMode::OFF.spec_code() == 0,
            StatisticsFaceDetectMode::SIMPLE.spec_code() == 1,
            StatisticsFaceDetectMode::FULL.spec_code() == 2,
            StatisticsFaceDetectMode::spec_from_code(0) == Some(StatisticsFaceDetectMode::OFF),
            StatisticsFaceDetectMode::spec_from_code(1) == Some(StatisticsFaceDetectMode::SIMPLE),
            StatisticsFaceDetectMode::spec_from_code(2) == Some(StatisticsFaceDetectMode::FULL),
    {
    }
}

impl StatisticsFaceDetectMode {
    /// The variant that the raw code `value` stands for, if any.
    pub fn try_from_raw(value: u8) -> (r: Option<Self>)
        ensures
            r == Self::spec_from_code(value as int),
    {
        match value {
            0 => Some(StatisticsFaceDetectMode::OFF),
            1 => Some(StatisticsFaceDetectMode::SIMPLE),
            2 => Some(StatisticsFaceDetectMode::FULL),
            _ => None,
        }
    }

    /// The raw code of this variant.
    pub fn into_raw(self) -> (r: u8)
        ensures
            r as int == self.spec_code(),
    {
        match self {
            StatisticsFaceDetectMode::OFF => 0,
            StatisticsFaceDetectMode::SIMPLE => 1,
            StatisticsFaceDetectMode::FULL => 2,
        }
    }
}

impl CameraEnum for StatisticsFaceDetectMode {
}

#[derive(Copy, Clone, Debug, PartialEq, Eq, Ord, PartialOrd, Structural)]
pub enum StatisticsHotPixelMapMode {
    OFF,
    ON,
}

impl RawEnum for StatisticsHotPixelMapMode {
    open spec fn spec_code(self) -> int {
        match self {
            StatisticsHotPixelMapMode::OFF => 0,
            StatisticsHotPixelMapMode::ON => 1,
        }
    }

    open spec fn spec_from_code(code: int) -> Option<Self> {
        if code == 0 {
            Some(StatisticsHotPixelMapMode::OFF)
        } else if code == 1 {
            Some(StatisticsHotPixelMapMode::ON)
        } else {
            None
        }
    }

    fn try_from_code(code: i64) -> (r: Option<Self>) {
        match code {
            0 => Some(StatisticsHotPixelMapMode::OFF),
            1 => Some(StatisticsHotPixelMapMode::ON),
            _ => None,
        }
    }

    proof fn lemma_code_round_trip(self) {
    }

    proof fn lemma_from_code_inverse(code: int) {
    }
}

impl StatisticsHotPixelMapMode {
    /// Each variant's code is the value that the NDK's headers give its constant, so decoding
    /// that value gives the variant and encoding the variant gives the value.
    pub proof fn lemma_ndk_codes()
        ensures
            StatisticsHotPixelMapMode::OFF.spec_code() == 0,
            StatisticsHotPixelMapMode::ON.spec_code() == 1,
            StatisticsHotPixelMapMode::spec_from_code(0) == Some(StatisticsHotPixelMapMode::OFF),
            StatisticsHotPixelMapMode::spec_from_code(1) == Some(StatisticsHotPixelMapMode::ON),
    {
    }
}

impl StatisticsHotPixelMapMode {
    /// The variant that the raw code `value` stands for, if any.
    pub fn try_from_raw(value: u8) -> (r: Option<Self>)
        ensures
            r == Self::spec_from_code(value as int),
    {
        match value {
            0 => Some(StatisticsHotPixelMapMode::OFF),
            1 => Some(StatisticsHotPixelMapMode::ON),
            _ => None,
        }
    }

    /// The raw code of this variant.
    pub fn into_raw(self) -> (r: u8)
        ensures
            r as int == self.spec_code(),
    {
        match self {
            StatisticsHotPixelMapMode::OFF => 0,
            StatisticsHotPixelMapMode::ON => 1,
        }
    }
}

impl CameraEnum for StatisticsHotPixelMapMode {
}

#[derive(Copy, Clone, Debug, PartialEq, Eq, Ord, PartialOrd, Structural)]
#[allow(non_camel_case_types)]
pub enum StatisticsSceneFlicker {
    NONE,
    _50HZ,
    _60HZ,
}

impl RawEnum for StatisticsSceneFlicker {
    open spec fn spec_code(self) -> int {
        match self {
            StatisticsSceneFlicker::NONE => 0,
            StatisticsSceneFlicker::_50HZ => 1,
            StatisticsSceneFlicker::_60HZ => 2,
        }
    }

    open spec fn spec_from_code(code: int) -> Option<Self> {
        if code == 0 {
            Some(StatisticsSceneFlicker::NONE)
        } else if code == 1 {
            Some(StatisticsSceneFlicker::_50HZ)
        } else if code == 2 {
            Some(StatisticsSceneFlicker::_60HZ)
        } else {
            None
        }
    }

    fn try_from_code(code: i64) -> (r: Option<Self>) {
        match code {
            0 => Some(StatisticsSceneFlicker::NONE),
            1 => Some(StatisticsSceneFlicker::_50HZ),
            2 => Some(StatisticsSceneFlicker::_60HZ),
            _ => None,
        }
    }

    proof fn lemma_code_round_trip(self) {
    }

    proof fn lemma_from_code_inverse(code: int) {
    }
}

impl StatisticsSceneFlicker {
    /// Each variant's code is the value that the NDK's headers give its constant, so decoding
    /// that value gives the variant and encoding the variant gives the value.
    pub proof fn lemma_ndk_codes()
        ensures
            StatisticsSceneFlicker::NONE.spec_code() == 0,
            StatisticsSceneFlicker::_50HZ.spec_code() == 1,
            StatisticsSceneFlicker::_60HZ.spec_code() == 2,
            StatisticsSceneFlicker::spec_from_code(0) == Some(StatisticsSceneFlicker::NONE),
            StatisticsSceneFlicker::spec_from_code(1) == Some(StatisticsSceneFlicker::_50HZ),
            StatisticsSceneFlicker::spec_from_code(2) == Some(StatisticsSceneFlicker::_60HZ),
    {
    }
}

impl StatisticsSceneFlicker {
    /// The variant that the raw code `value` stands for, if any.
    pub fn try_from_raw(value: u8) -> (r: Option<Self>)
        ensures
            r == Self::spec_from_code(value as int),
    {
        match value {
            0 => Some(StatisticsSceneFlicker::NONE),
            1 => Some(StatisticsSceneFlicker::_50HZ),
            2 => Some(StatisticsSceneFlicker::_60HZ),
            _ => None,
        }
    }

    /// The raw code of this variant.
    pub fn into_raw(self) -> (r: u8)
        ensures
            r as int == self.spec_code(),
    {
        match self {
            StatisticsSceneFlicker::NONE => 0,
            StatisticsSceneFlicker::_50HZ => 1,
            StatisticsSceneFlicker::_60HZ => 2,
        }
    }
}

impl CameraEnum for StatisticsSceneFlicker {
}

#[derive(Copy, Clone, Debug, PartialEq, Eq, Ord, PartialOrd, Structural)]
pub enum StatisticsLensShadingMapMode {
    OFF,
    ON,
}

impl RawEnum for StatisticsLensShadingMapMode {
    open spec fn spec_code(self) -> int {
        match self {
            StatisticsLensShadingMapMode::OFF => 0,
            StatisticsLensShadingMapMode::ON => 1,
        }
    }

    open spec fn spec_from_code(code: int) -> Option<Self> {
        if code == 0 {
            Some(StatisticsLensShadingMapMode::OFF)
        } else if code == 1 {
            Some(StatisticsLensShadingMapMode::ON)
        } else {
            None
        }
    }

    fn try_from_code(code: i64) -> (r: Option<Self>) {
        match code {
            0 => Some(StatisticsLensShadingMapMode::OFF),
            1 => Some(StatisticsLensShadingMapMode::ON),
            _ => None,
        }
    }

    proof fn lemma_code_round_trip(self) {
    }

    proof fn lemma_from_code_inverse(code: int) {
    }
}

impl StatisticsLensShadingMapMode {
    /// Each variant's code is the value that the NDK's headers give its constant, so decoding
    /// that value gives the variant and encoding the variant gives the value.
    pub proof fn lemma_ndk_codes()
        ensures
            StatisticsLensShadingMapMode::OFF.spec_code() == 0,
            StatisticsLensShadingMapMode::ON.spec_code() == 1,
            StatisticsLensShadingMapMode::spec_from_code(0) == Some(StatisticsLensShadingMapMode::OFF),
            StatisticsLensShadingMapMode::spec_from_code(1) == Some(StatisticsLensShadingMapMode::ON),
    {
    }
}

impl StatisticsLensShadingMapMode {
    /// The variant that the raw code `value` stands for, if any.
    pub fn try_from_raw(value: u8) -> (r: Option<Self>)
        ensures
            r == Self::spec_from_code(value as int),
    {
        match value {
            0 => Some(StatisticsLensShadingMapMode::OFF),
            1 => Some(StatisticsLensShadingMapMode::ON),
            _ => None,
        }
    }

    /// The raw code of this variant.
    pub fn into_raw(self) -> (r: u8)
        ensures
            r as int == self.spec_code(),
    {
        match self {
            StatisticsLensShadingMapMode::OFF => 0,
            StatisticsLensShadingMapMode::ON => 1,
        }
    }
}

impl CameraEnum for StatisticsLensShadingMapMode {
}

#[derive(Copy, Clone, Debug, PartialEq, Eq, Ord, PartialOrd, Structural)]
pub enum StatisticsOisDataMode {
    OFF,
    ON,
}

impl RawEnum for StatisticsOisDataMode {
    open spec fn spec_code(self) -> int {
        match self {
            StatisticsOisDataMode::OFF => 0,
            StatisticsOisDataMode::ON => 1,
        }
    }

    open spec fn spec_from_code(code: int) -> Option<Self> {
        if code == 0 {
            Some(StatisticsOisDataMode::OFF)
        } else if code == 1 {
            Some(StatisticsOisDataMode::ON)
        } else {
            None
        }
    }

    fn try_from_code(code: i64) -> (r: Option<Self>) {
        match code {
            0 => Some(StatisticsOisDataMode::OFF),
            1 => Some(StatisticsOisDataMode::ON),
            _ => None,
        }
    }

    proof fn lemma_code_round_trip(self) {
    }

    proof fn lemma_from_code_inverse(code: int) {
    }
}

impl StatisticsOisDataMode {
    /// Each variant's code is the value that the NDK's headers give its constant, so decoding
    /// that value gives the variant and encoding the variant gives the value.
    pub proof fn lemma_ndk_codes()
        ensures
            StatisticsOisDataMode::OFF.spec_code() == 0,
            StatisticsOisDataMode::ON.spec_code() == 1,
            StatisticsOisDataMode::spec_from_code(0) == Some(StatisticsOisDataMode::OFF),
            StatisticsOisDataMode::spec_from_code(1) == Some(StatisticsOisDataMode::ON),
    {
    }
}

impl StatisticsOisDataMode {
    /// The variant that the raw code `value` stands for, if any.
    pub fn try_from_raw(value: u8) -> (r: Option<Self>)
        ensures
            r == Self::spec_from_code(value as int),
    {
        match value {
            0 => Some(StatisticsOisDataMode::OFF),
            1 => Some(StatisticsOisDataMode::ON),
            _ => None,
        }
    }

    /// The raw code of this variant.
    pub fn into_raw(self) -> (r: u8)
        ensures
            r as int == self.spec_code(),
    {
        match self {
            StatisticsOisDataMode::OFF => 0,
            StatisticsOisDataMode::ON => 1,
        }
    }
}

impl CameraEnum for StatisticsOisDataMode {
}

#[derive(Copy, Clone, Debug, PartialEq, Eq, Ord, PartialOrd, Structural)]
#[allow(non_camel_case_types)]
pub enum TonemapMode {
    CONTRAST_CURVE,
    FAST,
    HIGH_QUALITY,
    GAMMA_VALUE,
    PRESET_CURVE,
}

impl RawEnum for TonemapMode {
    open spec fn spec_code(self) -> int {
        match self {
            TonemapMode::CONTRAST_CURVE => 0,
            TonemapMode::FAST => 1,
            TonemapMode::HIGH_QUALITY => 2,
            TonemapMode::GAMMA_VALUE => 3,
            TonemapMode::PRESET_CURVE => 4,
        }
    }

    open spec fn spec_from_code(code: int) -> Option<Self> {
        if code == 0 {
            Some(TonemapMode::CONTRAST_CURVE)
        } else if code == 1 {
            Some(TonemapMode::FAST)
        } else if code == 2 {
            Some(TonemapMode::HIGH_QUALITY)
        } else if code == 3 {
            Some(TonemapMode::GAMMA_VALUE)
        } else if code == 4 {
            Some(TonemapMode::PRESET_CURVE)
        } else {
            None
        }
    }

    fn try_from_code(code: i64) -> (r: Option<Self>) {
        match code {
            0 => Some(TonemapMode::CONTRAST_CURVE),
            1 => Some(TonemapMode::FAST),
            2 => Some(TonemapMode::HIGH_QUALITY),
            3 => Some(TonemapMode::GAMMA_VALUE),
            4 => Some(TonemapMode::PRESET_CURVE),
            _ => None,
        }
    }

    proof fn lemma_code_round_trip(self) {
    }

    proof fn lemma_from_code_inverse(code: int) {
    }
}

impl TonemapMode {
    /// Each variant's code is the value that the NDK's headers give its constant, so decoding
    /// that value gives the variant and encoding the variant gives the value.
    pub proof fn lemma_ndk_codes()
        ensures
            TonemapMode::CONTRAST_CURVE.spec_code() == 0,
            TonemapMode::FAST.spec_code() == 1,
            TonemapMode::HIGH_QUALITY.spec_code() == 2,
            TonemapMode::GAMMA_VALUE.spec_code() == 3,
            TonemapMode::PRESET_CURVE.spec_code() == 4,
            TonemapMode::spec_from_code(0) == Some(TonemapMode::CONTRAST_CURVE),
            TonemapMode::spec_from_code(1) == Some(TonemapMode::FAST),
            TonemapMode::spec_from_code(2) == Some(TonemapMode::HIGH_QUALITY),
            TonemapMode::spec_from_code(3) == Some(TonemapMode::GAMMA_VALUE),
            TonemapMode::spec_from_code(4) == Some(TonemapMode::PRESET_CURVE),
    {
    }
}

impl TonemapMode {
    /// The variant that the raw code `value` stands for, if any.
    pub fn try_from_raw(value: u8) -> (r: Option<Self>)
        ensures
            r == Self::spec_from_code(value as int),
    {
        match value {
            0 => Some(TonemapMode::CONTRAST_CURVE),
            1 => Some(TonemapMode::FAST),
            2 => Some(TonemapMode::HIGH_QUALITY),
            3 => Some(TonemapMode::GAMMA_VALUE),
            4 => Some(TonemapMode::PRESET_CURVE),
            _ => None,
        }
    }

    /// The raw code of this variant.
    pub fn into_raw(self) -> (r: u8)
        ensures
            r as int == self.spec_code(),
    {
        match self {
            TonemapMode::CONTRAST_CURVE => 0,
            TonemapMode::FAST => 1,
            TonemapMode::HIGH_QUALITY => 2,
            TonemapMode::GAMMA_VALUE => 3,
            TonemapMode::PRESET_CURVE => 4,
        }
    }
}

impl CameraEnum for TonemapMode {
}

#[derive(Copy, Clone, Debug, PartialEq, Eq, Ord, PartialOrd, Structural)]
pub enum TonemapPresetCurve {
    SRGB,
    REC709,
}

impl RawEnum for TonemapPresetCurve {
    open spec fn spec_code(self) -> int {
        match self {
            TonemapPresetCurve::SRGB => 0,
            TonemapPresetCurve::REC709 => 1,
        }
    }

    open spec fn spec_from_code(code: int) -> Option<Self> {
        if code == 0 {
            Some(TonemapPresetCurve::SRGB)
        } else if code == 1 {
            Some(TonemapPresetCurve::REC709)
        } else {
            None
        }
    }

    fn try_from_code(code: i64) -> (r: Option<Self>) {
        match code {
            0 => Some(TonemapPresetCurve::SRGB),
            1 => Some(TonemapPresetCurve::REC709),
            _ => None,
        }
    }

    proof fn lemma_code_round_trip(self) {
    }

    proof fn lemma_from_code_inverse(code: int) {
    }
}

impl TonemapPresetCurve {
    /// Each variant's code is the value that the NDK's headers give its constant, so decoding
    /// that value gives the variant and encoding the variant gives the value.
    pub proof fn lemma_ndk_codes()
        ensures
            TonemapPresetCurve::SRGB.spec_code() == 0,
            TonemapPresetCurve::REC709.spec_code() == 1,
            TonemapPresetCurve::spec_from_code(0) == Some(TonemapPresetCurve::SRGB),
            TonemapPresetCurve::spec_from_code(1) == Some(TonemapPresetCurve::REC709),
    {
    }
}

impl TonemapPresetCurve {
    /// The variant that the raw code `value` stands for, if any.
    pub fn try_from_raw(value: u8) -> (r: Option<Self>)
        ensures
            r == Self::spec_from_code(value as int),
    {
        match value {
            0 => Some(TonemapPresetCurve::SRGB),
            1 => Some(TonemapPresetCurve::REC709),
            _ => None,
        }
    }

    /// The raw code of this variant.
    pub fn into_raw(self) -> (r: u8)
        ensures
            r as int == self.spec_code(),
    {
        match self {
            TonemapPresetCurve::SRGB => 0,
            TonemapPresetCurve::REC709 => 1,
        }
    }
}

impl CameraEnum for TonemapPresetCurve {
}

#[derive(Copy, Clone, Debug, PartialEq, Eq, Ord, PartialOrd, Structural)]
#[allow(non_camel_case_types)]
pub enum InfoSupportedHardwareLevel {
    LIMITED,
    FULL,
    LEGACY,
    _3,
    EXTERNAL,
}

impl RawEnum for InfoSupportedHardwareLevel {
    open spec fn spec_code(self) -> int {
        match self {
            InfoSupportedHardwareLevel::LIMITED => 0,
            InfoSupportedHardwareLevel::FULL => 1,
            InfoSupportedHardwareLevel::LEGACY => 2,
            InfoSupportedHardwareLevel::_3 => 3,
            InfoSupportedHardwareLevel::EXTERNAL => 4,
        }
    }

    open spec fn spec_from_code(code: int) -> Option<Self> {
        if code == 0 {
            Some(InfoSupportedHardwareLevel::LIMITED)
        } else if code == 1 {
            Some(InfoSupportedHardwareLevel::FULL)
        } else if code == 2 {
            Some(InfoSupportedHardwareLevel::LEGACY)
        } else if code == 3 {
            Some(InfoSupportedHardwareLevel::_3)
        } else if code == 4 {
            Some(InfoSupportedHardwareLevel::EXTERNAL)
        } else {
            None
        }
    }

    fn try_from_code(code: i64) -> (r: Option<Self>) {
        match code {
            0 => Some(InfoSupportedHardwareLevel::LIMITED),
            1 => Some(InfoSupportedHardwareLevel::FULL),
            2 => Some(InfoSupportedHardwareLevel::LEGACY),
            3 => Some(InfoSupportedHardwareLevel::_3),
            4 => Some(InfoSupportedHardwareLevel::EXTERNAL),
            _ => None,
        }
    }

    proof fn lemma_code_round_trip(self) {
    }

    proof fn lemma_from_code_inverse(code: int) {
    }
}

impl InfoSupportedHardwareLevel {
    /// Each variant's code is the value that the NDK's headers give its constant, so decoding
    /// that value gives the variant and encoding the variant gives the value.
    pub proof fn lemma_ndk_codes()
        ensures
            InfoSupportedHardwareLevel::LIMITED.spec_code() == 0,
            InfoSupportedHardwareLevel::FULL.spec_code() == 1,
            InfoSupportedHardwareLevel::LEGACY.spec_code() == 2,
            InfoSupportedHardwareLevel::_3.spec_code() == 3,
            InfoSupportedHardwareLevel::EXTERNAL.spec_code() == 4,
            InfoSupportedHardwareLevel::spec_from_code(0) == Some(InfoSupportedHardwareLevel::LIMITED),
            InfoSupportedHardwareLevel::spec_from_code(1) == Some(InfoSupportedHardwareLevel::FULL),
            InfoSupportedHardwareLevel::spec_from_code(2) == Some(InfoSupportedHardwareLevel::LEGACY),
            InfoSupportedHardwareLevel::spec_from_code(3) == Some(InfoSupportedHardwareLevel::_3),
            InfoSupportedHardwareLevel::spec_from_code(4) == Some(InfoSupportedHardwareLevel::EXTERNAL),
    {
    }
}

impl InfoSupportedHardwareLevel {
    /// The variant that the raw code `value` stands for, if any.
    pub fn try_from_raw(value: u8) -> (r: Option<Self>)
        ensures
            r == Self::spec_from_code(value as int),
    {
        match value {
            0 => Some(InfoSupportedHardwareLevel::LIMITED),
            1 => Some(InfoSupportedHardwareLevel::FULL),
            2 => Some(InfoSupportedHardwareLevel::LEGACY),
            3 => Some(InfoSupportedHardwareLevel::_3),
            4 => Some(InfoSupportedHardwareLevel::EXTERNAL),
            _ => None,
        }
    }

    /// The raw code of this variant.
    pub fn into_raw(self) -> (r: u8)
        ensures
            r as int == self.spec_code(),
    {
        match self {
            InfoSupportedHardwareLevel::LIMITED => 0,
            InfoSupportedHardwareLevel::FULL => 1,
            InfoSupportedHardwareLevel::LEGACY => 2,
            InfoSupportedHardwareLevel::_3 => 3,
            InfoSupportedHardwareLevel::EXTERNAL => 4,
        }
    }
}

impl CameraEnum for InfoSupportedHardwareLevel {
}

#[derive(Copy, Clone, Debug, PartialEq, Eq, Ord, PartialOrd, Structural)]
pub enum BlackLevelLock {
    OFF,
    ON,
}

impl RawEnum for BlackLevelLock {
    open spec fn spec_code(self) -> int {
        match self {
            BlackLevelLock::OFF => 0,
            BlackLevelLock::ON => 1,
        }
    }

    open spec fn spec_from_code(code: int) -> Option<Self> {
        if code == 0 {
            Some(BlackLevelLock::OFF)
        } else if code == 1 {
            Some(BlackLevelLock::ON)
        } else {
            None
        }
    }

    fn try_from_code(code: i64) -> (r: Option<Self>) {
        match code {
            0 => Some(BlackLevelLock::OFF),
            1 => Some(BlackLevelLock::ON),
            _ => None,
        }
    }

    proof fn lemma_code_round_trip(self) {
    }

    proof fn lemma_from_code_inverse(code: int) {
    }
}

impl BlackLevelLock {
    /// Each variant's code is the value that the NDK's headers give its constant, so decoding
    /// that value gives the variant and encoding the variant gives the value.
    pub proof fn lemma_ndk_codes()
        ensures
            BlackLevelLock::OFF.spec_code() == 0,
            BlackLevelLock::ON.spec_code() == 1,
            BlackLevelLock::spec_from_code(0) == Some(BlackLevelLock::OFF),
            BlackLevelLock::spec_from_code(1) == Some(BlackLevelLock::ON),
    {
    }
}

impl BlackLevelLock {
    /// The variant that the raw code `value` stands for, if any.
    pub fn try_from_raw(value: u8) -> (r: Option<Self>)
        ensures
            r == Self::spec_from_code(value as int),
    {
        match value {
            0 => Some(BlackLevelLock::OFF),
            1 => Some(BlackLevelLock::ON),
            _ => None,
        }
    }

    /// The raw code of this variant.
    pub fn into_raw(self) -> (r: u8)
        ensures
            r as int == self.spec_code(),
    {
        match self {
            BlackLevelLock::OFF => 0,
            BlackLevelLock::ON => 1,
        }
    }
}

impl CameraEnum for BlackLevelLock {
}

#[derive(Copy, Clone, Debug, PartialEq, Eq, Ord, PartialOrd, Structural)]
pub enum SyncFrameNumber {
    CONVERGING,
    UNKNOWN,
}

impl RawEnum for SyncFrameNumber {
    open spec fn spec_code(self) -> int {
        match self {
            SyncFrameNumber::CONVERGING => -1,
            SyncFrameNumber::UNKNOWN => -2,
        }
    }

    open spec fn spec_from_code(code: int) -> Option<Self> {
        if code == -1 {
            Some(SyncFrameNumber::CONVERGING)
        } else if code == -2 {
            Some(SyncFrameNumber::UNKNOWN)
        } else {
            None
        }
    }

    fn try_from_code(code: i64) -> (r: Option<Self>) {
        match code {
            -1 => Some(SyncFrameNumber::CONVERGING),
            -2 => Some(SyncFrameNumber::UNKNOWN),
            _ => None,
        }
    }

    proof fn lemma_code_round_trip(self) {
    }

    proof fn lemma_from_code_inverse(code: int) {
    }
}

impl SyncFrameNumber {
    /// Each variant's code is the value that the NDK's headers give its constant, so decoding
    /// that value gives the variant and encoding the variant gives the value.
    pub proof fn lemma_ndk_codes()
        ensures
            SyncFrameNumber::CONVERGING.spec_code() == -1,
            SyncFrameNumber::UNKNOWN.spec_code() == -2,
            SyncFrameNumber::spec_from_code(-1) == Some(SyncFrameNumber::CONVERGING),
            SyncFrameNumber::spec_from_code(-2) == Some(SyncFrameNumber::UNKNOWN),
    {
    }
}

impl SyncFrameNumber {
    /// The variant that the raw code `value` stands for, if any.
    pub fn try_from_raw(value: i64) -> (r: Option<Self>)
        ensures
            r == Self::spec_from_code(value as int),
    {
        match value {
            -1 => Some(SyncFrameNumber::CONVERGING),
            -2 => Some(SyncFrameNumber::UNKNOWN),
            _ => None,
        }
    }

    /// The raw code of this variant.
    pub fn into_raw(self) -> (r: i64)
        ensures
            r as int == self.spec_code(),
    {
        match self {
            SyncFrameNumber::CONVERGING => -1,
            SyncFrameNumber::UNKNOWN => -2,
        }
    }
}

impl CameraEnum for SyncFrameNumber {
}

#[derive(Copy, Clone, Debug, PartialEq, Eq, Ord, PartialOrd, Structural)]
#[allow(non_camel_case_types)]
pub enum SyncMaxLatency {
    PER_FRAME_CONTROL,
    UNKNOWN,
}

impl RawEnum for SyncMaxLatency {
    open spec fn spec_code(self) -> int {
        match self {
            SyncMaxLatency::PER_FRAME_CONTROL => 0,
            SyncMaxLatency::UNKNOWN => -1,
        }
    }

    open spec fn spec_from_code(code: int) -> Option<Self> {
        if code == 0 {
            Some(SyncMaxLatency::PER_FRAME_CONTROL)
        } else if code == -1 {
            Some(SyncMaxLatency::UNKNOWN)
        } else {
            None
        }
    }

    fn try_from_code(code: i64) -> (r: Option<Self>) {
        match code {
            0 => Some(SyncMaxLatency::PER_FRAME_CONTROL),
            -1 => Some(SyncMaxLatency::UNKNOWN),
            _ => None,
        }
    }

    proof fn lemma_code_round_trip(self) {
    }

    proof fn lemma_from_code_inverse(code: int) {
    }
}

impl SyncMaxLatency {
    /// Each variant's code is the value that the NDK's headers give its constant, so decoding
    /// that value gives the variant and encoding the variant gives the value.
    pub proof fn lemma_ndk_codes()
        ensures
            SyncMaxLatency::PER_FRAME_CONTROL.spec_code() == 0,
            SyncMaxLatency::UNKNOWN.spec_code() == -1,
            SyncMaxLatency::spec_from_code(0) == Some(SyncMaxLatency::PER_FRAME_CONTROL),
            SyncMaxLatency::spec_from_code(-1) == Some(SyncMaxLatency::UNKNOWN),
    {
    }
}

impl SyncMaxLatency {
    /// The variant that the raw code `value` stands for, if any.
    pub fn try_from_raw(value: i32) -> (r: Option<Self>)
        ensures
            r == Self::spec_from_code(value as int),
    {
        match value {
            0 => Some(SyncMaxLatency::PER_FRAME_CONTROL),
            -1 => Some(SyncMaxLatency::UNKNOWN),
            _ => None,
        }
    }

    /// The raw code of this variant.
    pub fn into_raw(self) -> (r: i32)
        ensures
            r as int == self.spec_code(),
    {
        match self {
            SyncMaxLatency::PER_FRAME_CONTROL => 0,
            SyncMaxLatency::UNKNOWN => -1,
        }
    }
}

impl CameraEnum for SyncMaxLatency {
}

#[derive(Copy, Clone, Debug, PartialEq, Eq, Ord, PartialOrd, Structural)]
pub enum DepthAvailableDepthStreamConfigurations {
    OUTPUT,
    INPUT,
}

impl RawEnum for DepthAvailableDepthStreamConfigurations {
    open spec fn spec_code(self) -> int {
        match self {
            DepthAvailableDepthStreamConfigurations::OUTPUT => 0,
            DepthAvailableDepthStreamConfigurations::INPUT => 1,
        }
    }

    open spec fn spec_from_code(code: int) -> Option<Self> {
        if code == 0 {
            Some(DepthAvailableDepthStreamConfigurations::OUTPUT)
        } else if code == 1 {
            Some(DepthAvailableDepthStreamConfigurations::INPUT)
        } else {
            None
        }
    }

    fn try_from_code(code: i64) -> (r: Option<Self>) {
        match code {
            0 => Some(DepthAvailableDepthStreamConfigurations::OUTPUT),
            1 => Some(DepthAvailableDepthStreamConfigurations::INPUT),
            _ => None,
        }
    }

    proof fn lemma_code_round_trip(self) {
    }

    proof fn lemma_from_code_inverse(code: int) {
    }
}

impl DepthAvailableDepthStreamConfigurations {
    /// Each variant's code is the value that the NDK's headers give its constant, so decoding
    /// that value gives the variant and encoding the variant gives the value.
    pub proof fn lemma_ndk_codes()
        ensures
            DepthAvailableDepthStreamConfigurations::OUTPUT.spec_code() == 0,
            DepthAvailableDepthStreamConfigurations::INPUT.spec_code() == 1,
            DepthAvailableDepthStreamConfigurations::spec_from_code(0) == Some(DepthAvailableDepthStreamConfigurations::OUTPUT),
            DepthAvailableDepthStreamConfigurations::spec_from_code(1) == Some(DepthAvailableDepthStreamConfigurations::INPUT),
    {
    }
}

impl DepthAvailableDepthStreamConfigurations {
    /// The variant that the raw code `value` stands for, if any.
    pub fn try_from_raw(value: i32) -> (r: Option<Self>)
        ensures
            r == Self::spec_from_code(value as int),
    {
        match value {
            0 => Some(DepthAvailableDepthStreamConfigurations::OUTPUT),
            1 => Some(DepthAvailableDepthStreamConfigurations::INPUT),
            _ => None,
        }
    }

    /// The raw code of this variant.
    pub fn into_raw(self) -> (r: i32)
        ensures
            r as int == self.spec_code(),
    {
        match self {
            DepthAvailableDepthStreamConfigurations::OUTPUT => 0,
            DepthAvailableDepthStreamConfigurations::INPUT => 1,
        }
    }
}

impl CameraEnum for DepthAvailableDepthStreamConfigurations {
}

#[derive(Copy, Clone, Debug, PartialEq, Eq, Ord, PartialOrd, Structural)]
pub enum DepthDepthIsExclusive {
    FALSE,
    TRUE,
}

impl RawEnum for DepthDepthIsExclusive {
    open spec fn spec_code(self) -> int {
        match self {
            DepthDepthIsExclusive::FALSE => 0,
            DepthDepthIsExclusive::TRUE => 1,
        }
    }

    open spec fn spec_from_code(code: int) -> Option<Self> {
        if code == 0 {
            Some(DepthDepthIsExclusive::FALSE)
        } else if code == 1 {
            Some(DepthDepthIsExclusive::TRUE)
        } else {
            None
        }
    }

    fn try_from_code(code: i64) -> (r: Option<Self>) {
        match code {
            0 => Some(DepthDepthIsExclusive::FALSE),
            1 => Some(DepthDepthIsExclusive::TRUE),
            _ => None,
        }
    }

    proof fn lemma_code_round_trip(self) {
    }

    proof fn lemma_from_code_inverse(code: int) {
    }
}

impl DepthDepthIsExclusive {
    /// Each variant's code is the value that the NDK's headers give its constant, so decoding
    /// that value gives the variant and encoding the variant gives the value.
    pub proof fn lemma_ndk_codes()
        ensures
            DepthDepthIsExclusive::FALSE.spec_code() == 0,
            DepthDepthIsExclusive::TRUE.spec_code() == 1,
            DepthDepthIsExclusive::spec_from_code(0) == Some(DepthDepthIsExclusive::FALSE),
            DepthDepthIsExclusive::spec_from_code(1) == Some(DepthDepthIsExclusive::TRUE),
    {
    }
}

impl DepthDepthIsExclusive {
    /// The variant that the raw code `value` stands for, if any.
    pub fn try_from_raw(value: u8) -> (r: Option<Self>)
        ensures
            r == Self::spec_from_code(value as int),
    {
        match value {
            0 => Some(DepthDepthIsExclusive::FALSE),
            1 => Some(DepthDepthIsExclusive::TRUE),
            _ => None,
        }
    }

    /// The raw code of this variant.
    pub fn into_raw(self) -> (r: u8)
        ensures
            r as int == self.spec_code(),
    {
        match self {
            DepthDepthIsExclusive::FALSE => 0,
            DepthDepthIsExclusive::TRUE => 1,
        }
    }
}

impl CameraEnum for DepthDepthIsExclusive {
}

#[derive(Copy, Clone, Debug, PartialEq, Eq, Ord, PartialOrd, Structural)]
pub enum DepthAvailableDynamicDepthStreamConfigurations {
    OUTPUT,
    INPUT,
}

impl RawEnum for DepthAvailableDynamicDepthStreamConfigurations {
    open spec fn spec_code(self) -> int {
        match self {
            DepthAvailableDynamicDepthStreamConfigurations::OUTPUT => 0,
            DepthAvailableDynamicDepthStreamConfigurations::INPUT => 1,
        }
    }

    open spec fn spec_from_code(code: int) -> Option<Self> {
        if code == 0 {
            Some(DepthAvailableDynamicDepthStreamConfigurations::OUTPUT)
        } else if code == 1 {
            Some(DepthAvailableDynamicDepthStreamConfigurations::INPUT)
        } else {
            None
        }
    }

    fn try_from_code(code: i64) -> (r: Option<Self>) {
        match code {
            0 => Some(DepthAvailableDynamicDepthStreamConfigurations::OUTPUT),
            1 => Some(DepthAvailableDynamicDepthStreamConfigurations::INPUT),
            _ => None,
        }
    }

    proof fn lemma_code_round_trip(self) {
    }

    proof fn lemma_from_code_inverse(code: int) {
    }
}

impl DepthAvailableDynamicDepthStreamConfigurations {
    /// Each variant's code is the value that the NDK's headers give its constant, so decoding
    /// that value gives the variant and encoding the variant gives the value.
    pub proof fn lemma_ndk_codes()
        ensures
            DepthAvailableDynamicDepthStreamConfigurations::OUTPUT.spec_code() == 0,
            DepthAvailableDynamicDepthStreamConfigurations::INPUT.spec_code() == 1,
            DepthAvailableDynamicDepthStreamConfigurations::spec_from_code(0) == Some(DepthAvailableDynamicDepthStreamConfigurations::OUTPUT),
            DepthAvailableDynamicDepthStreamConfigurations::spec_from_code(1) == Some(DepthAvailableDynamicDepthStreamConfigurations::INPUT),
    {
    }
}

impl DepthAvailableDynamicDepthStreamConfigurations {
    /// The variant that the raw code `value` stands for, if any.
    pub fn try_from_raw(value: u8) -> (r: Option<Self>)
        ensures
            r == Self::spec_from_code(value as int),
    {
        match value {
            0 => Some(DepthAvailableDynamicDepthStreamConfigurations::OUTPUT),
            1 => Some(DepthAvailableDynamicDepthStreamConfigurations::INPUT),
            _ => None,
        }
    }

    /// The raw code of this variant.
    pub fn into_raw(self) -> (r: u8)
        ensures
            r as int == self.spec_code(),
    {
        match self {
            DepthAvailableDynamicDepthStreamConfigurations::OUTPUT => 0,
            DepthAvailableDynamicDepthStreamConfigurations::INPUT => 1,
        }
    }
}

impl CameraEnum for DepthAvailableDynamicDepthStreamConfigurations {
}

#[derive(Copy, Clone, Debug, PartialEq, Eq, Ord, PartialOrd, Structural)]
pub enum LogicalMultiCameraSensorSyncType {
    APPROXIMATE,
    CALIBRATED,
}

impl RawEnum for LogicalMultiCameraSensorSyncType {
    open spec fn spec_code(self) -> int {
        match self {
            LogicalMultiCameraSensorSyncType::APPROXIMATE => 0,
            LogicalMultiCameraSensorSyncType::CALIBRATED => 1,
        }
    }

    open spec fn spec_from_code(code: int) -> Option<Self> {
        if code == 0 {
            Some(LogicalMultiCameraSensorSyncType::APPROXIMATE)
        } else if code == 1 {
            Some(LogicalMultiCameraSensorSyncType::CALIBRATED)
        } else {
            None
        }
    }

    fn try_from_code(code: i64) -> (r: Option<Self>) {
        match code {
            0 => Some(LogicalMultiCameraSensorSyncType::APPROXIMATE),
            1 => Some(LogicalMultiCameraSensorSyncType::CALIBRATED),
            _ => None,
        }
    }

    proof fn lemma_code_round_trip(self) {
    }

    proof fn lemma_from_code_inverse(code: int) {
    }
}

impl LogicalMultiCameraSensorSyncType {
    /// Each variant's code is the value that the NDK's headers give its constant, so decoding
    /// that value gives the variant and encoding the variant gives the value.
    pub proof fn lemma_ndk_codes()
        ensures
            LogicalMultiCameraSensorSyncType::APPROXIMATE.spec_code() == 0,
            LogicalMultiCameraSensorSyncType::CALIBRATED.spec_code() == 1,
            LogicalMultiCameraSensorSyncType::spec_from_code(0) == Some(LogicalMultiCameraSensorSyncType::APPROXIMATE),
            LogicalMultiCameraSensorSyncType::spec_from_code(1) == Some(LogicalMultiCameraSensorSyncType::CALIBRATED),
    {
    }
}

impl LogicalMultiCameraSensorSyncType {
    /// The variant that the raw code `value` stands for, if any.
    pub fn try_from_raw(value: u8) -> (r: Option<Self>)
        ensures
            r == Self::spec_from_code(value as int),
    {
        match value {
            0 => Some(LogicalMultiCameraSensorSyncType::APPROXIMATE),
            1 => Some(LogicalMultiCameraSensorSyncType::CALIBRATED),
            _ => None,
        }
    }

    /// The raw code of this variant.
    pub fn into_raw(self) -> (r: u8)
        ensures
            r as int == self.spec_code(),
    {
        match self {
            LogicalMultiCameraSensorSyncType::APPROXIMATE => 0,
            LogicalMultiCameraSensorSyncType::CALIBRATED => 1,
        }
    }
}

impl CameraEnum for LogicalMultiCameraSensorSyncType {
}

#[derive(Copy, Clone, Debug, PartialEq, Eq, Ord, PartialOrd, Structural)]
#[allow(non_camel_case_types)]
pub enum DistortionCorrectionMode {
    OFF,
    FAST,
    HIGH_QUALITY,
}

impl RawEnum for DistortionCorrectionMode {
    open spec fn spec_code(self) -> int {
        match self {
            DistortionCorrectionMode::OFF => 0,
            DistortionCorrectionMode::FAST => 1,
            DistortionCorrectionMode::HIGH_QUALITY => 2,
        }
    }

    open spec fn spec_from_code(code: int) -> Option<Self> {
        if code == 0 {
            Some(DistortionCorrectionMode::OFF)
        } else if code == 1 {
            Some(DistortionCorrectionMode::FAST)
        } else if code == 2 {
            Some(DistortionCorrectionMode::HIGH_QUALITY)
        } else {
            None
        }
    }

    fn try_from_code(code: i64) -> (r: Option<Self>) {
        match code {
            0 => Some(DistortionCorrectionMode::OFF),
            1 => Some(DistortionCorrectionMode::FAST),
            2 => Some(DistortionCorrectionMode::HIGH_QUALITY),
            _ => None,
        }
    }

    proof fn lemma_code_round_trip(self) {
    }

    proof fn lemma_from_code_inverse(code: int) {
    }
}

impl DistortionCorrectionMode {
    /// Each variant's code is the value that the NDK's headers give its constant, so decoding
    /// that value gives the variant and encoding the variant gives the value.
    pub proof fn lemma_ndk_codes()
        ensures
            DistortionCorrectionMode::OFF.spec_code() == 0,
            DistortionCorrectionMode::FAST.spec_code() == 1,
            DistortionCorrectionMode::HIGH_QUALITY.spec_code() == 2,
            DistortionCorrectionMode::spec_from_code(0) == Some(DistortionCorrectionMode::OFF),
            DistortionCorrectionMode::spec_from_code(1) == Some(DistortionCorrectionMode::FAST),
            DistortionCorrectionMode::spec_from_code(2) == Some(DistortionCorrectionMode::HIGH_QUALITY),
    {
    }
}

impl DistortionCorrectionMode {
    /// The variant that the raw code `value` stands for, if any.
    pub fn try_from_raw(value: u8) -> (r: Option<Self>)
        ensures
            r == Self::spec_from_code(value as int),
    {
        match value {
            0 => Some(DistortionCorrectionMode::OFF),
            1 => Some(DistortionCorrectionMode::FAST),
            2 => Some(DistortionCorrectionMode::HIGH_QUALITY),
            _ => None,
        }
    }

    /// The raw code of this variant.
    pub fn into_raw(self) -> (r: u8)
        ensures
            r as int == self.spec_code(),
    {
        match self {
            DistortionCorrectionMode::OFF => 0,
            DistortionCorrectionMode::FAST => 1,
            DistortionCorrectionMode::HIGH_QUALITY => 2,
        }
    }
}

impl CameraEnum for DistortionCorrectionMode {
}

#[derive(Copy, Clone, Debug, PartialEq, Eq, Ord, PartialOrd, Structural)]
pub enum HeicAvailableHeicStreamConfigurations {
    OUTPUT,
    INPUT,
}

impl RawEnum for HeicAvailableHeicStreamConfigurations {
    open spec fn spec_code(self) -> int {
        match self {
            HeicAvailableHeicStreamConfigurations::OUTPUT => 0,
            HeicAvailableHeicStreamConfigurations::INPUT => 1,
        }
    }

    open spec fn spec_from_code(code: int) -> Option<Self> {
        if code == 0 {
            Some(HeicAvailableHeicStreamConfigurations::OUTPUT)
        } else if code == 1 {
            Some(HeicAvailableHeicStreamConfigurations::INPUT)
        } else {
            None
        }
    }

    fn try_from_code(code: i64) -> (r: Option<Self>) {
        match code {
            0 => Some(HeicAvailableHeicStreamConfigurations::OUTPUT),
            1 => Some(HeicAvailableHeicStreamConfigurations::INPUT),
            _ => None,
        }
    }

    proof fn lemma_code_round_trip(self) {
    }

    proof fn lemma_from_code_inverse(code: int) {
    }
}

impl HeicAvailableHeicStreamConfigurations {
    /// Each variant's code is the value that the NDK's headers give its constant, so decoding
    /// that value gives the variant and encoding the variant gives the value. The constants are
    /// the `ACAMERA_HEIC_AVAILABLE_HEIC_STREAM_CONFIGURATIONS_*` ones.
    pub proof fn lemma_ndk_codes()
        ensures
            HeicAvailableHeicStreamConfigurations::OUTPUT.spec_code() == 0,
            HeicAvailableHeicStreamConfigurations::INPUT.spec_code() == 1,
            HeicAvailableHeicStreamConfigurations::spec_from_code(0) == Some(HeicAvailableHeicStreamConfigurations::OUTPUT),
            HeicAvailableHeicStreamConfigurations::spec_from_code(1) == Some(HeicAvailableHeicStreamConfigurations::INPUT),
    {
    }
}

impl HeicAvailableHeicStreamConfigurations {
    /// The variant that the raw code `value` stands for, if any.
    pub fn try_from_raw(value: i32) -> (r: Option<Self>)
        ensures
            r == Self::spec_from_code(value as int),
    {
        match value {
            0 => Some(HeicAvailableHeicStreamConfigurations::OUTPUT),
            1 => Some(HeicAvailableHeicStreamConfigurations::INPUT),
            _ => None,
        }
    }

    /// The raw code of this variant.
    pub fn into_raw(self) -> (r: i32)
        ensures
            r as int == self.spec_code(),
    {
        match self {
            HeicAvailableHeicStreamConfigurations::OUTPUT => 0,
            HeicAvailableHeicStreamConfigurations::INPUT => 1,
        }
    }
}

impl CameraEnum for HeicAvailableHeicStreamConfigurations {
}

} // verus!
