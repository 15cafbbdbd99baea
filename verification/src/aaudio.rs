//! Values and status decoding of the AAudio API.
use crate::raw::RawEnum;
use vstd::prelude::*;

verus! {

#[derive(Copy, Clone, Debug, PartialEq, Eq, Hash, Structural)]
pub enum AAudioAllowedCapturePolicy {
    AllowCaptureByAll,
    AllowCaptureBySystem,
    AllowCaptureByNone,
}

impl RawEnum for AAudioAllowedCapturePolicy {
    open spec fn spec_code(self) -> int {
        match self {
            AAudioAllowedCapturePolicy::AllowCaptureByAll => 1,
            AAudioAllowedCapturePolicy::AllowCaptureBySystem => 2,
            AAudioAllowedCapturePolicy::AllowCaptureByNone => 3,
        }
    }

    open spec fn spec_from_code(code: int) -> Option<Self> {
        if code == 1 {
            Some(AAudioAllowedCapturePolicy::AllowCaptureByAll)
        } else if code == 2 {
            Some(AAudioAllowedCapturePolicy::AllowCaptureBySystem)
        } else if code == 3 {
            Some(AAudioAllowedCapturePolicy::AllowCaptureByNone)
        } else {
            None
        }
    }

    fn try_from_code(code: i64) -> (r: Option<Self>) {
        match code {
            1 => Some(AAudioAllowedCapturePolicy::AllowCaptureByAll),
            2 => Some(AAudioAllowedCapturePolicy::AllowCaptureBySystem),
            3 => Some(AAudioAllowedCapturePolicy::AllowCaptureByNone),
            _ => None,
        }
    }

    proof fn lemma_code_round_trip(self) {
    }

    proof fn lemma_from_code_inverse(code: int) {
    }
}

impl AAudioAllowedCapturePolicy {
    /// Each variant's code is the value that the NDK's headers give its constant, so decoding
    /// that value gives the variant and encoding the variant gives the value. The constants are
    /// the `AAUDIO_ALLOW_CAPTURE_BY_*` ones.
    pub proof fn lemma_ndk_codes()
        ensures
            AAudioAllowedCapturePolicy::AllowCaptureByAll.spec_code() == 1,
            AAudioAllowedCapturePolicy::AllowCaptureBySystem.spec_code() == 2,
            AAudioAllowedCapturePolicy::AllowCaptureByNone.spec_code() == 3,
            AAudioAllowedCapturePolicy::spec_from_code(1) == Some(AAudioAllowedCapturePolicy::AllowCaptureByAll),
            AAudioAllowedCapturePolicy::spec_from_code(2) == Some(AAudioAllowedCapturePolicy::AllowCaptureBySystem),
            AAudioAllowedCapturePolicy::spec_from_code(3) == Some(AAudioAllowedCapturePolicy::AllowCaptureByNone),
    {
    }
}

impl AAudioAllowedCapturePolicy {
    /// The variant that the raw code `value` stands for, if any.
    pub fn try_from_raw(value: u32) -> (r: Option<Self>)
        ensures
            r == Self::spec_from_code(value as int),
    {
        match value {
            1 => Some(AAudioAllowedCapturePolicy::AllowCaptureByAll),
            2 => Some(AAudioAllowedCapturePolicy::AllowCaptureBySystem),
            3 => Some(AAudioAllowedCapturePolicy::AllowCaptureByNone),
            _ => None,
        }
    }

    /// The raw code of this variant.
    pub fn into_raw(self) -> (r: u32)
        ensures
            r as int == self.spec_code(),
    {
        match self {
            AAudioAllowedCapturePolicy::AllowCaptureByAll => 1,
            AAudioAllowedCapturePolicy::AllowCaptureBySystem => 2,
            AAudioAllowedCapturePolicy::AllowCaptureByNone => 3,
        }
    }
}

#[derive(Copy, Clone, Debug, PartialEq, Eq, Hash, Structural)]
pub enum AAudioContentType {
    Speech,
    Music,
    Movie,
    Sonification,
}

impl RawEnum for AAudioContentType {
    open spec fn spec_code(self) -> int {
        match self {
            AAudioContentType::Speech => 1,
            AAudioContentType::Music => 2,
            AAudioContentType::Movie => 3,
            AAudioContentType::Sonification => 4,
        }
    }

    open spec fn spec_from_code(code: int) -> Option<Self> {
        if code == 1 {
            Some(AAudioContentType::Speech)
        } else if code == 2 {
            Some(AAudioContentType::Music)
        } else if code == 3 {
            Some(AAudioContentType::Movie)
        } else if code == 4 {
            Some(AAudioContentType::Sonification)
        } else {
            None
        }
    }

    fn try_from_code(code: i64) -> (r: Option<Self>) {
        match code {
            1 => Some(AAudioContentType::Speech),
            2 => Some(AAudioContentType::Music),
            3 => Some(AAudioContentType::Movie),
            4 => Some(AAudioContentType::Sonification),
            _ => None,
        }
    }

    proof fn lemma_code_round_trip(self) {
    }

    proof fn lemma_from_code_inverse(code: int) {
    }
}

impl AAudioContentType {
    /// Each variant's code is the value that the NDK's headers give its constant, so decoding
    /// that value gives the variant and encoding the variant gives the value. The constants are
    /// the `AAUDIO_CONTENT_TYPE_*` ones.
    pub proof fn lemma_ndk_codes()
        ensures
            AAudioContentType::Speech.spec_code() == 1,
            AAudioContentType::Music.spec_code() == 2,
            AAudioContentType::Movie.spec_code() == 3,
            AAudioContentType::Sonification.spec_code() == 4,
            AAudioContentType::spec_from_code(1) == Some(AAudioContentType::Speech),
            AAudioContentType::spec_from_code(2) == Some(AAudioContentType::Music),
            AAudioContentType::spec_from_code(3) == Some(AAudioContentType::Movie),
            AAudioContentType::spec_from_code(4) == Some(AAudioContentType::Sonification),
    {
    }
}

impl AAudioContentType {
    /// The variant that the raw code `value` stands for, if any.
    pub fn try_from_raw(value: u32) -> (r: Option<Self>)
        ensures
            r == Self::spec_from_code(value as int),
    {
        match value {
            1 => Some(AAudioContentType::Speech),
            2 => Some(AAudioContentType::Music),
            3 => Some(AAudioContentType::Movie),
            4 => Some(AAudioContentType::Sonification),
            _ => None,
        }
    }

    /// The raw code of this variant.
    pub fn into_raw(self) -> (r: u32)
        ensures
            r as int == self.spec_code(),
    {
        match self {
            AAudioContentType::Speech => 1,
            AAudioContentType::Music => 2,
            AAudioContentType::Movie => 3,
            AAudioContentType::Sonification => 4,
        }
    }
}

#[derive(Copy, Clone, Debug, PartialEq, Eq, Hash, Structural)]
pub enum AAudioDirection {
    Input,
    Output,
}

impl RawEnum for AAudioDirection {
    open spec fn spec_code(self) -> int {
        match self {
            AAudioDirection::Input => 1,
            AAudioDirection::Output => 0,
        }
    }

    open spec fn spec_from_code(code: int) -> Option<Self> {
        if code == 1 {
            Some(AAudioDirection::Input)
        } else if code == 0 {
            Some(AAudioDirection::Output)
        } else {
            None
        }
    }

    fn try_from_code(code: i64) -> (r: Option<Self>) {
        match code {
            1 => Some(AAudioDirection::Input),
            0 => Some(AAudioDirection::Output),
            _ => None,
        }
    }

    proof fn lemma_code_round_trip(self) {
    }

    proof fn lemma_from_code_inverse(code: int) {
    }
}

impl AAudioDirection {
    /// Each variant's code is the value that the NDK's headers give its constant, so decoding
    /// that value gives the variant and encoding the variant gives the value. The constants are
    /// the `AAUDIO_DIRECTION_*` ones.
    pub proof fn lemma_ndk_codes()
        ensures
            AAudioDirection::Input.spec_code() == 1,
            AAudioDirection::Output.spec_code() == 0,
            AAudioDirection::spec_from_code(1) == Some(AAudioDirection::Input),
            AAudioDirection::spec_from_code(0) == Some(AAudioDirection::Output),
    {
    }
}

impl AAudioDirection {
    /// The variant that the raw code `value` stands for, if any.
    pub fn try_from_raw(value: u32) -> (r: Option<Self>)
        ensures
            r == Self::spec_from_code(value as int),
    {
        match value {
            1 => Some(AAudioDirection::Input),
            0 => Some(AAudioDirection::Output),
            _ => None,
        }
    }

    /// The raw code of this variant.
    pub fn into_raw(self) -> (r: u32)
        ensures
            r as int == self.spec_code(),
    {
        match self {
            AAudioDirection::Input => 1,
            AAudioDirection::Output => 0,
        }
    }
}

#[derive(Copy, Clone, Debug, PartialEq, Eq, Hash, Structural)]
#[allow(non_camel_case_types)]
pub enum AAudioFormat {
    PCM_Float,
    PCM_I16,
    Invalid,
    Unspecified,
}

impl RawEnum for AAudioFormat {
    open spec fn spec_code(self) -> int {
        match self {
            AAudioFormat::PCM_Float => 2,
            AAudioFormat::PCM_I16 => 1,
            AAudioFormat::Invalid => -1,
            AAudioFormat::Unspecified => 0,
        }
    }

    open spec fn spec_from_code(code: int) -> Option<Self> {
        if code == 2 {
            Some(AAudioFormat::PCM_Float)
        } else if code == 1 {
            Some(AAudioFormat::PCM_I16)
        } else if code == -1 {
            Some(AAudioFormat::Invalid)
        } else if code == 0 {
            Some(AAudioFormat::Unspecified)
        } else {
            None
        }
    }

    fn try_from_code(code: i64) -> (r: Option<Self>) {
        match code {
            2 => Some(AAudioFormat::PCM_Float),
            1 => Some(AAudioFormat::PCM_I16),
            -1 => Some(AAudioFormat::Invalid),
            0 => Some(AAudioFormat::Unspecified),
            _ => None,
        }
    }

    proof fn lemma_code_round_trip(self) {
    }

    proof fn lemma_from_code_inverse(code: int) {
    }
}

impl AAudioFormat {
    /// Each variant's code is the value that the NDK's headers give its constant, so decoding
    /// that value gives the variant and encoding the variant gives the value. The constants are
    /// the `AAUDIO_FORMAT_*` ones.
    pub proof fn lemma_ndk_codes()
        ensures
            AAudioFormat::PCM_Float.spec_code() == 2,
            AAudioFormat::PCM_I16.spec_code() == 1,
            AAudioFormat::Invalid.spec_code() == -1,
            AAudioFormat::Unspecified.spec_code() == 0,
            AAudioFormat::spec_from_code(2) == Some(AAudioFormat::PCM_Float),
            AAudioFormat::spec_from_code(1) == Some(AAudioFormat::PCM_I16),
            AAudioFormat::spec_from_code(-1) == Some(AAudioFormat::Invalid),
            AAudioFormat::spec_from_code(0) == Some(AAudioFormat::Unspecified),
    {
    }
}

impl AAudioFormat {
    /// The variant that the raw code `value` stands for, if any.
    pub fn try_from_raw(value: i32) -> (r: Option<Self>)
        ensures
            r == Self::spec_from_code(value as int),
    {
        match value {
            2 => Some(AAudioFormat::PCM_Float),
            1 => Some(AAudioFormat::PCM_I16),
            -1 => Some(AAudioFormat::Invalid),
            0 => Some(AAudioFormat::Unspecified),
            _ => None,
        }
    }

    /// The raw code of this variant.
    pub fn into_raw(self) -> (r: i32)
        ensures
            r as int == self.spec_code(),
    {
        match self {
            AAudioFormat::PCM_Float => 2,
            AAudioFormat::PCM_I16 => 1,
            AAudioFormat::Invalid => -1,
            AAudioFormat::Unspecified => 0,
        }
    }
}

#[derive(Copy, Clone, Debug, PartialEq, Eq, Hash, Structural)]
pub enum AAudioInputPreset {
    Generic,
    Camcorder,
    VoiceRecognition,
    VoiceCommunication,
    Unprocessed,
    VoicePerformance,
}

impl RawEnum for AAudioInputPreset {
    open spec fn spec_code(self) -> int {
        match self {
            AAudioInputPreset::Generic => 1,
            AAudioInputPreset::Camcorder => 5,
            AAudioInputPreset::VoiceRecognition => 6,
            AAudioInputPreset::VoiceCommunication => 7,
            AAudioInputPreset::Unprocessed => 9,
            AAudioInputPreset::VoicePerformance => 10,
        }
    }

    open spec fn spec_from_code(code: int) -> Option<Self> {
        if code == 1 {
            Some(AAudioInputPreset::Generic)
        } else if code == 5 {
            Some(AAudioInputPreset::Camcorder)
        } else if code == 6 {
            Some(AAudioInputPreset::VoiceRecognition)
        } else if code == 7 {
            Some(AAudioInputPreset::VoiceCommunication)
        } else if code == 9 {
            Some(AAudioInputPreset::Unprocessed)
        } else if code == 10 {
            Some(AAudioInputPreset::VoicePerformance)
        } else {
            None
        }
    }

    fn try_from_code(code: i64) -> (r: Option<Self>) {
        match code {
            1 => Some(AAudioInputPreset::Generic),
            5 => Some(AAudioInputPreset::Camcorder),
            6 => Some(AAudioInputPreset::VoiceRecognition),
            7 => Some(AAudioInputPreset::VoiceCommunication),
            9 => Some(AAudioInputPreset::Unprocessed),
            10 => Some(AAudioInputPreset::VoicePerformance),
            _ => None,
        }
    }

    proof fn lemma_code_round_trip(self) {
    }

    proof fn lemma_from_code_inverse(code: int) {
    }
}

impl AAudioInputPreset {
    /// Each variant's code is the value that the NDK's headers give its constant, so decoding
    /// that value gives the variant and encoding the variant gives the value. The constants are
    /// the `AAUDIO_INPUT_PRESET_*` ones.
    pub proof fn lemma_ndk_codes()
        ensures
            AAudioInputPreset::Generic.spec_code() == 1,
            AAudioInputPreset::Camcorder.spec_code() == 5,
            AAudioInputPreset::VoiceRecognition.spec_code() == 6,
            AAudioInputPreset::VoiceCommunication.spec_code() == 7,
            AAudioInputPreset::Unprocessed.spec_code() == 9,
            AAudioInputPreset::VoicePerformance.spec_code() == 10,
            AAudioInputPreset::spec_from_code(1) == Some(AAudioInputPreset::Generic),
            AAudioInputPreset::spec_from_code(5) == Some(AAudioInputPreset::Camcorder),
            AAudioInputPreset::spec_from_code(6) == Some(AAudioInputPreset::VoiceRecognition),
            AAudioInputPreset::spec_from_code(7) == Some(AAudioInputPreset::VoiceCommunication),
            AAudioInputPreset::spec_from_code(9) == Some(AAudioInputPreset::Unprocessed),
            AAudioInputPreset::spec_from_code(10) == Some(AAudioInputPreset::VoicePerformance),
    {
    }
}

impl AAudioInputPreset {
    /// The variant that the raw code `value` stands for, if any.
    pub fn try_from_raw(value: u32) -> (r: Option<Self>)
        ensures
            r == Self::spec_from_code(value as int),
    {
        match value {
            1 => Some(AAudioInputPreset::Generic),
            5 => Some(AAudioInputPreset::Camcorder),
            6 => Some(AAudioInputPreset::VoiceRecognition),
            7 => Some(AAudioInputPreset::VoiceCommunication),
            9 => Some(AAudioInputPreset::Unprocessed),
            10 => Some(AAudioInputPreset::VoicePerformance),
            _ => None,
        }
    }

    /// The raw code of this variant.
    pub fn into_raw(self) -> (r: u32)
        ensures
            r as int == self.spec_code(),
    {
        match self {
            AAudioInputPreset::Generic => 1,
            AAudioInputPreset::Camcorder => 5,
            AAudioInputPreset::VoiceRecognition => 6,
            AAudioInputPreset::VoiceCommunication => 7,
            AAudioInputPreset::Unprocessed => 9,
            AAudioInputPreset::VoicePerformance => 10,
        }
    }
}

#[derive(Copy, Clone, Debug, PartialEq, Eq, Hash, Structural)]
pub enum AAudioPerformanceMode {
    NoPreference,
    PowerSaving,
    LowLatency,
}

impl RawEnum for AAudioPerformanceMode {
    open spec fn spec_code(self) -> int {
        match self {
            AAudioPerformanceMode::NoPreference => 10,
            AAudioPerformanceMode::PowerSaving => 11,
            AAudioPerformanceMode::LowLatency => 12,
        }
    }

    open spec fn spec_from_code(code: int) -> Option<Self> {
        if code == 10 {
            Some(AAudioPerformanceMode::NoPreference)
        } else if code == 11 {
            Some(AAudioPerformanceMode::PowerSaving)
        } else if code == 12 {
            Some(AAudioPerformanceMode::LowLatency)
        } else {
            None
        }
    }

    fn try_from_code(code: i64) -> (r: Option<Self>) {
        match code {
            10 => Some(AAudioPerformanceMode::NoPreference),
            11 => Some(AAudioPerformanceMode::PowerSaving),
            12 => Some(AAudioPerformanceMode::LowLatency),
            _ => None,
        }
    }

    proof fn lemma_code_round_trip(self) {
    }

    proof fn lemma_from_code_inverse(code: int) {
    }
}

impl AAudioPerformanceMode {
    /// Each variant's code is the value that the NDK's headers give its constant, so decoding
    /// that value gives the variant and encoding the variant gives the value. The constants are
    /// the `AAUDIO_PERFORMANCE_MODE_*` ones.
    pub proof fn lemma_ndk_codes()
        ensures
            AAudioPerformanceMode::NoPreference.spec_code() == 10,
            AAudioPerformanceMode::PowerSaving.spec_code() == 11,
            AAudioPerformanceMode::LowLatency.spec_code() == 12,
            AAudioPerformanceMode::spec_from_code(10) == Some(AAudioPerformanceMode::NoPreference),
            AAudioPerformanceMode::spec_from_code(11) == Some(AAudioPerformanceMode::PowerSaving),
            AAudioPerformanceMode::spec_from_code(12) == Some(AAudioPerformanceMode::LowLatency),
    {
    }
}

impl AAudioPerformanceMode {
    /// The variant that the raw code `value` stands for, if any.
    pub fn try_from_raw(value: u32) -> (r: Option<Self>)
        ensures
            r == Self::spec_from_code(value as int),
    {
        match value {
            10 => Some(AAudioPerformanceMode::NoPreference),
            11 => Some(AAudioPerformanceMode::PowerSaving),
            12 => Some(AAudioPerformanceMode::LowLatency),
            _ => None,
        }
    }

    /// The raw code of this variant.
    pub fn into_raw(self) -> (r: u32)
        ensures
            r as int == self.spec_code(),
    {
        match self {
            AAudioPerformanceMode::NoPreference => 10,
            AAudioPerformanceMode::PowerSaving => 11,
            AAudioPerformanceMode::LowLatency => 12,
        }
    }
}

#[derive(Copy, Clone, Debug, PartialEq, Eq, Hash, Structural)]
pub enum AAudioSharingMode {
    Exclusive,
    Shared,
}

impl RawEnum for AAudioSharingMode {
    open spec fn spec_code(self) -> int {
        match self {
            AAudioSharingMode::Exclusive => 0,
            AAudioSharingMode::Shared => 1,
        }
    }

    open spec fn spec_from_code(code: int) -> Option<Self> {
        if code == 0 {
            Some(AAudioSharingMode::Exclusive)
        } else if code == 1 {
            Some(AAudioSharingMode::Shared)
        } else {
            None
        }
    }

    fn try_from_code(code: i64) -> (r: Option<Self>) {
        match code {
            0 => Some(AAudioSharingMode::Exclusive),
            1 => Some(AAudioSharingMode::Shared),
            _ => None,
        }
    }

    proof fn lemma_code_round_trip(self) {
    }

    proof fn lemma_from_code_inverse(code: int) {
    }
}

impl AAudioSharingMode {
    /// Each variant's code is the value that the NDK's headers give its constant, so decoding
    /// that value gives the variant and encoding the variant gives the value. The constants are
    /// the `AAUDIO_SHARING_MODE_*` ones.
    pub proof fn lemma_ndk_codes()
        ensures
            AAudioSharingMode::Exclusive.spec_code() == 0,
            AAudioSharingMode::Shared.spec_code() == 1,
            AAudioSharingMode::spec_from_code(0) == Some(AAudioSharingMode::Exclusive),
            AAudioSharingMode::spec_from_code(1) == Some(AAudioSharingMode::Shared),
    {
    }
}

impl AAudioSharingMode {
    /// The variant that the raw code `value` stands for, if any.
    pub fn try_from_raw(value: u32) -> (r: Option<Self>)
        ensures
            r == Self::spec_from_code(value as int),
    {
        match value {
            0 => Some(AAudioSharingMode::Exclusive),
            1 => Some(AAudioSharingMode::Shared),
            _ => None,
        }
    }

    /// The raw code of this variant.
    pub fn into_raw(self) -> (r: u32)
        ensures
            r as int == self.spec_code(),
    {
        match self {
            AAudioSharingMode::Exclusive => 0,
            AAudioSharingMode::Shared => 1,
        }
    }
}

#[derive(Copy, Clone, Debug, PartialEq, Eq, Hash, Structural)]
pub enum AAudioUsage {
    Media,
    VoiceCommunication,
    VoiceCommunicationSignalling,
    Alarm,
    Notification,
    NotificationRingtone,
    NotificationEvent,
    AssistanceAccessibility,
    AssistanceNavigationGuidance,
    AssistanceSonification,
    Game,
    Assistant,
    SystemEmergency,
    SystemSafety,
    SystemVehicleStatus,
    SystemAnnouncement,
}

impl RawEnum for AAudioUsage {
    open spec fn spec_code(self) -> int {
        match self {
            AAudioUsage::Media => 1,
            AAudioUsage::VoiceCommunication => 2,
            AAudioUsage::VoiceCommunicationSignalling => 3,
            AAudioUsage::Alarm => 4,
            AAudioUsage::Notification => 5,
            AAudioUsage::NotificationRingtone => 6,
            AAudioUsage::NotificationEvent => 10,
            AAudioUsage::AssistanceAccessibility => 11,
            AAudioUsage::AssistanceNavigationGuidance => 12,
            AAudioUsage::AssistanceSonification => 13,
            AAudioUsage::Game => 14,
            AAudioUsage::Assistant => 16,
            AAudioUsage::SystemEmergency => 1000,
            AAudioUsage::SystemSafety => 1001,
            AAudioUsage::SystemVehicleStatus => 1002,
            AAudioUsage::SystemAnnouncement => 1003,
        }
    }

    open spec fn spec_from_code(code: int) -> Option<Self> {
        if code == 1 {
            Some(AAudioUsage::Media)
        } else if code == 2 {
            Some(AAudioUsage::VoiceCommunication)
        } else if code == 3 {
            Some(AAudioUsage::VoiceCommunicationSignalling)
        } else if code == 4 {
            Some(AAudioUsage::Alarm)
        } else if code == 5 {
            Some(AAudioUsage::Notification)
        } else if code == 6 {
            Some(AAudioUsage::NotificationRingtone)
        } else if code == 10 {
            Some(AAudioUsage::NotificationEvent)
        } else if code == 11 {
            Some(AAudioUsage::AssistanceAccessibility)
        } else if code == 12 {
            Some(AAudioUsage::AssistanceNavigationGuidance)
        } else if code == 13 {
            Some(AAudioUsage::AssistanceSonification)
        } else if code == 14 {
            Some(AAudioUsage::Game)
        } else if code == 16 {
            Some(AAudioUsage::Assistant)
        } else if code == 1000 {
            Some(AAudioUsage::SystemEmergency)
        } else if code == 1001 {
            Some(AAudioUsage::SystemSafety)
        } else if code == 1002 {
            Some(AAudioUsage::SystemVehicleStatus)
        } else if code == 1003 {
            Some(AAudioUsage::SystemAnnouncement)
        } else {
            None
        }
    }

    fn try_from_code(code: i64) -> (r: Option<Self>) {
        match code {
            1 => Some(AAudioUsage::Media),
            2 => Some(AAudioUsage::VoiceCommunication),
            3 => Some(AAudioUsage::VoiceCommunicationSignalling),
            4 => Some(AAudioUsage::Alarm),
            5 => Some(AAudioUsage::Notification),
            6 => Some(AAudioUsage::NotificationRingtone),
            10 => Some(AAudioUsage::NotificationEvent),
            11 => Some(AAudioUsage::AssistanceAccessibility),
            12 => Some(AAudioUsage::AssistanceNavigationGuidance),
            13 => Some(AAudioUsage::AssistanceSonification),
            14 => Some(AAudioUsage::Game),
            16 => Some(AAudioUsage::Assistant),
            1000 => Some(AAudioUsage::SystemEmergency),
            1001 => Some(AAudioUsage::SystemSafety),
            1002 => Some(AAudioUsage::SystemVehicleStatus),
            1003 => Some(AAudioUsage::SystemAnnouncement),
            _ => None,
        }
    }

    proof fn lemma_code_round_trip(self) {
    }

    proof fn lemma_from_code_inverse(code: int) {
    }
}

impl AAudioUsage {
    /// Each variant's code is the value that the NDK's headers give its constant, so decoding
    /// that value gives the variant and encoding the variant gives the value. The constants are
    /// the `AAUDIO_*` ones.
    pub proof fn lemma_ndk_codes()
        ensures
            AAudioUsage::Media.spec_code() == 1,
            AAudioUsage::VoiceCommunication.spec_code() == 2,
            AAudioUsage::VoiceCommunicationSignalling.spec_code() == 3,
            AAudioUsage::Alarm.spec_code() == 4,
            AAudioUsage::Notification.spec_code() == 5,
            AAudioUsage::NotificationRingtone.spec_code() == 6,
            AAudioUsage::NotificationEvent.spec_code() == 10,
            AAudioUsage::AssistanceAccessibility.spec_code() == 11,
            AAudioUsage::AssistanceNavigationGuidance.spec_code() == 12,
            AAudioUsage::AssistanceSonification.spec_code() == 13,
            AAudioUsage::Game.spec_code() == 14,
            AAudioUsage::Assistant.spec_code() == 16,
            AAudioUsage::SystemEmergency.spec_code() == 1000,
            AAudioUsage::SystemSafety.spec_code() == 1001,
            AAudioUsage::SystemVehicleStatus.spec_code() == 1002,
            AAudioUsage::SystemAnnouncement.spec_code() == 1003,
            AAudioUsage::spec_from_code(1) == Some(AAudioUsage::Media),
            AAudioUsage::spec_from_code(2) == Some(AAudioUsage::VoiceCommunication),
            AAudioUsage::spec_from_code(3) == Some(AAudioUsage::VoiceCommunicationSignalling),
            AAudioUsage::spec_from_code(4) == Some(AAudioUsage::Alarm),
            AAudioUsage::spec_from_code(5) == Some(AAudioUsage::Notification),
            AAudioUsage::spec_from_code(6) == Some(AAudioUsage::NotificationRingtone),
            AAudioUsage::spec_from_code(10) == Some(AAudioUsage::NotificationEvent),
            AAudioUsage::spec_from_code(11) == Some(AAudioUsage::AssistanceAccessibility),
            AAudioUsage::spec_from_code(12) == Some(AAudioUsage::AssistanceNavigationGuidance),
            AAudioUsage::spec_from_code(13) == Some(AAudioUsage::AssistanceSonification),
            AAudioUsage::spec_from_code(14) == Some(AAudioUsage::Game),
            AAudioUsage::spec_from_code(16) == Some(AAudioUsage::Assistant),
            AAudioUsage::spec_from_code(1000) == Some(AAudioUsage::SystemEmergency),
            AAudioUsage::spec_from_code(1001) == Some(AAudioUsage::SystemSafety),
            AAudioUsage::spec_from_code(1002) == Some(AAudioUsage::SystemVehicleStatus),
            AAudioUsage::spec_from_code(1003) == Some(AAudioUsage::SystemAnnouncement),
    {
    }
}

impl AAudioUsage {
    /// The variant that the raw code `value` stands for, if any.
    pub fn try_from_raw(value: u32) -> (r: Option<Self>)
        ensures
            r == Self::spec_from_code(value as int),
    {
        match value {
            1 => Some(AAudioUsage::Media),
            2 => Some(AAudioUsage::VoiceCommunication),
            3 => Some(AAudioUsage::VoiceCommunicationSignalling),
            4 => Some(AAudioUsage::Alarm),
            5 => Some(AAudioUsage::Notification),
            6 => Some(AAudioUsage::NotificationRingtone),
            10 => Some(AAudioUsage::NotificationEvent),
            11 => Some(AAudioUsage::AssistanceAccessibility),
            12 => Some(AAudioUsage::AssistanceNavigationGuidance),
            13 => Some(AAudioUsage::AssistanceSonification),
            14 => Some(AAudioUsage::Game),
            16 => Some(AAudioUsage::Assistant),
            1000 => Some(AAudioUsage::SystemEmergency),
            1001 => Some(AAudioUsage::SystemSafety),
            1002 => Some(AAudioUsage::SystemVehicleStatus),
            1003 => Some(AAudioUsage::SystemAnnouncement),
            _ => None,
        }
    }

    /// The raw code of this variant.
    pub fn into_raw(self) -> (r: u32)
        ensures
            r as int == self.spec_code(),
    {
        match self {
            AAudioUsage::Media => 1,
            AAudioUsage::VoiceCommunication => 2,
            AAudioUsage::VoiceCommunicationSignalling => 3,
            AAudioUsage::Alarm => 4,
            AAudioUsage::Notification => 5,
            AAudioUsage::NotificationRingtone => 6,
            AAudioUsage::NotificationEvent => 10,
            AAudioUsage::AssistanceAccessibility => 11,
            AAudioUsage::AssistanceNavigationGuidance => 12,
            AAudioUsage::AssistanceSonification => 13,
            AAudioUsage::Game => 14,
            AAudioUsage::Assistant => 16,
            AAudioUsage::SystemEmergency => 1000,
            AAudioUsage::SystemSafety => 1001,
            AAudioUsage::SystemVehicleStatus => 1002,
            AAudioUsage::SystemAnnouncement => 1003,
        }
    }
}

#[derive(Copy, Clone, Debug, PartialEq, Eq, Hash, Structural)]
pub enum AAudioStreamState {
    Uninitialized,
    Unknown,
    Open,
    Starting,
    Started,
    Pausing,
    Paused,
    Flushing,
    Flushed,
    Stopping,
    Stopped,
    Closing,
    Closed,
    Disconnected,
}

impl RawEnum for AAudioStreamState {
    open spec fn spec_code(self) -> int {
        match self {
            AAudioStreamState::Uninitialized => 0,
            AAudioStreamState::Unknown => 1,
            AAudioStreamState::Open => 2,
            AAudioStreamState::Starting => 3,
            AAudioStreamState::Started => 4,
            AAudioStreamState::Pausing => 5,
            AAudioStreamState::Paused => 6,
            AAudioStreamState::Flushing => 7,
            AAudioStreamState::Flushed => 8,
            AAudioStreamState::Stopping => 9,
            AAudioStreamState::Stopped => 10,
            AAudioStreamState::Closing => 11,
            AAudioStreamState::Closed => 12,
            AAudioStreamState::Disconnected => 13,
        }
    }

    open spec fn spec_from_code(code: int) -> Option<Self> {
        if code == 0 {
            Some(AAudioStreamState::Uninitialized)
        } else if code == 1 {
            Some(AAudioStreamState::Unknown)
        } else if code == 2 {
            Some(AAudioStreamState::Open)
        } else if code == 3 {
            Some(AAudioStreamState::Starting)
        } else if code == 4 {
            Some(AAudioStreamState::Started)
        } else if code == 5 {
            Some(AAudioStreamState::Pausing)
        } else if code == 6 {
            Some(AAudioStreamState::Paused)
        } else if code == 7 {
            Some(AAudioStreamState::Flushing)
        } else if code == 8 {
            Some(AAudioStreamState::Flushed)
        } else if code == 9 {
            Some(AAudioStreamState::Stopping)
        } else if code == 10 {
            Some(AAudioStreamState::Stopped)
        } else if code == 11 {
            Some(AAudioStreamState::Closing)
        } else if code == 12 {
            Some(AAudioStreamState::Closed)
        } else if code == 13 {
            Some(AAudioStreamState::Disconnected)
        } else {
            None
        }
    }

    fn try_from_code(code: i64) -> (r: Option<Self>) {
        match code {
            0 => Some(AAudioStreamState::Uninitialized),
            1 => Some(AAudioStreamState::Unknown),
            2 => Some(AAudioStreamState::Open),
            3 => Some(AAudioStreamState::Starting),
            4 => Some(AAudioStreamState::Started),
            5 => Some(AAudioStreamState::Pausing),
            6 => Some(AAudioStreamState::Paused),
            7 => Some(AAudioStreamState::Flushing),
            8 => Some(AAudioStreamState::Flushed),
            9 => Some(AAudioStreamState::Stopping),
            10 => Some(AAudioStreamState::Stopped),
            11 => Some(AAudioStreamState::Closing),
            12 => Some(AAudioStreamState::Closed),
            13 => Some(AAudioStreamState::Disconnected),
            _ => None,
        }
    }

    proof fn lemma_code_round_trip(self) {
    }

    proof fn lemma_from_code_inverse(code: int) {
    }
}

impl AAudioStreamState {
    /// Each variant's code is the value that the NDK's headers give its constant, so decoding
    /// that value gives the variant and encoding the variant gives the value. The constants are
    /// the `AAUDIO_STREAM_STATE_*` ones.
    pub proof fn lemma_ndk_codes()
        ensures
            AAudioStreamState::Uninitialized.spec_code() == 0,
            AAudioStreamState::Unknown.spec_code() == 1,
            AAudioStreamState::Open.spec_code() == 2,
            AAudioStreamState::Starting.spec_code() == 3,
            AAudioStreamState::Started.spec_code() == 4,
            AAudioStreamState::Pausing.spec_code() == 5,
            AAudioStreamState::Paused.spec_code() == 6,
            AAudioStreamState::Flushing.spec_code() == 7,
            AAudioStreamState::Flushed.spec_code() == 8,
            AAudioStreamState::Stopping.spec_code() == 9,
            AAudioStreamState::Stopped.spec_code() == 10,
            AAudioStreamState::Closing.spec_code() == 11,
            AAudioStreamState::Closed.spec_code() == 12,
            AAudioStreamState::Disconnected.spec_code() == 13,
            AAudioStreamState::spec_from_code(0) == Some(AAudioStreamState::Uninitialized),
            AAudioStreamState::spec_from_code(1) == Some(AAudioStreamState::Unknown),
            AAudioStreamState::spec_from_code(2) == Some(AAudioStreamState::Open),
            AAudioStreamState::spec_from_code(3) == Some(AAudioStreamState::Starting),
            AAudioStreamState::spec_from_code(4) == Some(AAudioStreamState::Started),
            AAudioStreamState::spec_from_code(5) == Some(AAudioStreamState::Pausing),
            AAudioStreamState::spec_from_code(6) == Some(AAudioStreamState::Paused),
            AAudioStreamState::spec_from_code(7) == Some(AAudioStreamState::Flushing),
            AAudioStreamState::spec_from_code(8) == Some(AAudioStreamState::Flushed),
            AAudioStreamState::spec_from_code(9) == Some(AAudioStreamState::Stopping),
            AAudioStreamState::spec_from_code(10) == Some(AAudioStreamState::Stopped),
            AAudioStreamState::spec_from_code(11) == Some(AAudioStreamState::Closing),
            AAudioStreamState::spec_from_code(12) == Some(AAudioStreamState::Closed),
            AAudioStreamState::spec_from_code(13) == Some(AAudioStreamState::Disconnected),
    {
    }
}

impl AAudioStreamState {
    /// The variant that the raw code `value` stands for, if any.
    pub fn try_from_raw(value: u32) -> (r: Option<Self>)
        ensures
            r == Self::spec_from_code(value as int),
    {
        match value {
            0 => Some(AAudioStreamState::Uninitialized),
            1 => Some(AAudioStreamState::Unknown),
            2 => Some(AAudioStreamState::Open),
            3 => Some(AAudioStreamState::Starting),
            4 => Some(AAudioStreamState::Started),
            5 => Some(AAudioStreamState::Pausing),
            6 => Some(AAudioStreamState::Paused),
            7 => Some(AAudioStreamState::Flushing),
            8 => Some(AAudioStreamState::Flushed),
            9 => Some(AAudioStreamState::Stopping),
            10 => Some(AAudioStreamState::Stopped),
            11 => Some(AAudioStreamState::Closing),
            12 => Some(AAudioStreamState::Closed),
            13 => Some(AAudioStreamState::Disconnected),
            _ => None,
        }
    }

    /// The raw code of this variant.
    pub fn into_raw(self) -> (r: u32)
        ensures
            r as int == self.spec_code(),
    {
        match self {
            AAudioStreamState::Uninitialized => 0,
            AAudioStreamState::Unknown => 1,
            AAudioStreamState::Open => 2,
            AAudioStreamState::Starting => 3,
            AAudioStreamState::Started => 4,
            AAudioStreamState::Pausing => 5,
            AAudioStreamState::Paused => 6,
            AAudioStreamState::Flushing => 7,
            AAudioStreamState::Flushed => 8,
            AAudioStreamState::Stopping => 9,
            AAudioStreamState::Stopped => 10,
            AAudioStreamState::Closing => 11,
            AAudioStreamState::Closed => 12,
            AAudioStreamState::Disconnected => 13,
        }
    }
}

#[derive(Copy, Clone, Debug, PartialEq, Eq, Hash, Structural)]
pub enum Clockid {
    Monotonic,
    Boottime,
}

impl RawEnum for Clockid {
    open spec fn spec_code(self) -> int {
        match self {
            Clockid::Monotonic => 1,
            Clockid::Boottime => 7,
        }
    }

    open spec fn spec_from_code(code: int) -> Option<Self> {
        if code == 1 {
            Some(Clockid::Monotonic)
        } else if code == 7 {
            Some(Clockid::Boottime)
        } else {
            None
        }
    }

    fn try_from_code(code: i64) -> (r: Option<Self>) {
        match code {
            1 => Some(Clockid::Monotonic),
            7 => Some(Clockid::Boottime),
            _ => None,
        }
    }

    proof fn lemma_code_round_trip(self) {
    }

    proof fn lemma_from_code_inverse(code: int) {
    }
}

impl Clockid {
    /// Each variant's code is the value that the NDK's headers give its constant, so decoding
    /// that value gives the variant and encoding the variant gives the value. The constants are
    /// the `CLOCK_*` ones.
    pub proof fn lemma_ndk_codes()
        ensures
            Clockid::Monotonic.spec_code() == 1,
            Clockid::Boottime.spec_code() == 7,
            Clockid::spec_from_code(1) == Some(Clockid::Monotonic),
            Clockid::spec_from_code(7) == Some(Clockid::Boottime),
    {
    }
}

impl Clockid {
    /// The variant that the raw code `value` stands for, if any.
    pub fn try_from_raw(value: u32) -> (r: Option<Self>)
        ensures
            r == Self::spec_from_code(value as int),
    {
        match value {
            1 => Some(Clockid::Monotonic),
            7 => Some(Clockid::Boottime),
            _ => None,
        }
    }

    /// The raw code of this variant.
    pub fn into_raw(self) -> (r: u32)
        ensures
            r as int == self.spec_code(),
    {
        match self {
            Clockid::Monotonic => 1,
            Clockid::Boottime => 7,
        }
    }
}

#[derive(Copy, Clone, Debug, PartialEq, Eq, Hash, Structural)]
pub enum AAudioCallbackResult {
    Continue,
    Stop,
}

impl RawEnum for AAudioCallbackResult {
    open spec fn spec_code(self) -> int {
        match self {
            AAudioCallbackResult::Continue => 0,
            AAudioCallbackResult::Stop => 1,
        }
    }

    open spec fn spec_from_code(code: int) -> Option<Self> {
        if code == 0 {
            Some(AAudioCallbackResult::Continue)
        } else if code == 1 {
            Some(AAudioCallbackResult::Stop)
        } else {
            None
        }
    }

    fn try_from_code(code: i64) -> (r: Option<Self>) {
        match code {
            0 => Some(AAudioCallbackResult::Continue),
            1 => Some(AAudioCallbackResult::Stop),
            _ => None,
        }
    }

    proof fn lemma_code_round_trip(self) {
    }

    proof fn lemma_from_code_inverse(code: int) {
    }
}

impl AAudioCallbackResult {
    /// Each variant's code is the value that the NDK's headers give its constant, so decoding
    /// that value gives the variant and encoding the variant gives the value. The constants are
    /// the `AAUDIO_CALLBACK_RESULT_*` ones.
    pub proof fn lemma_ndk_codes()
        ensures
            AAudioCallbackResult::Continue.spec_code() == 0,
            AAudioCallbackResult::Stop.spec_code() == 1,
            AAudioCallbackResult::spec_from_code(0) == Some(AAudioCallbackResult::Continue),
            AAudioCallbackResult::spec_from_code(1) == Some(AAudioCallbackResult::Stop),
    {
    }
}

impl AAudioCallbackResult {
    /// The variant that the raw code `value` stands for, if any.
    pub fn try_from_raw(value: u32) -> (r: Option<Self>)
        ensures
            r == Self::spec_from_code(value as int),
    {
        match value {
            0 => Some(AAudioCallbackResult::Continue),
            1 => Some(AAudioCallbackResult::Stop),
            _ => None,
        }
    }

    /// The raw code of this variant.
    pub fn into_raw(self) -> (r: u32)
        ensures
            r as int == self.spec_code(),
    {
        match self {
            AAudioCallbackResult::Continue => 0,
            AAudioCallbackResult::Stop => 1,
        }
    }
}

#[derive(Copy, Clone, Debug, PartialEq, Eq, Hash, Structural)]
pub enum AAudioErrorResult {
    Base,
    Disconnected,
    IllegalArgument,
    Internal,
    InvalidState,
    InvalidHandle,
    Unimplemented,
    Unavailable,
    NoFreeHandles,
    NoMemory,
    Null,
    Timeout,
    WouldBlock,
    InvalidFormat,
    OutOfRange,
    NoService,
    InvalidRate,
}

impl RawEnum for AAudioErrorResult {
    open spec fn spec_code(self) -> int {
        match self {
            AAudioErrorResult::Base => -900,
            AAudioErrorResult::Disconnected => -899,
            AAudioErrorResult::IllegalArgument => -898,
            AAudioErrorResult::Internal => -896,
            AAudioErrorResult::InvalidState => -895,
            AAudioErrorResult::InvalidHandle => -892,
            AAudioErrorResult::Unimplemented => -890,
            AAudioErrorResult::Unavailable => -889,
            AAudioErrorResult::NoFreeHandles => -888,
            AAudioErrorResult::NoMemory => -887,
            AAudioErrorResult::Null => -886,
            AAudioErrorResult::Timeout => -885,
            AAudioErrorResult::WouldBlock => -884,
            AAudioErrorResult::InvalidFormat => -883,
            AAudioErrorResult::OutOfRange => -882,
            AAudioErrorResult::NoService => -881,
            AAudioErrorResult::InvalidRate => -880,
        }
    }

    open spec fn spec_from_code(code: int) -> Option<Self> {
        if code == -900 {
            Some(AAudioErrorResult::Base)
        } else if code == -899 {
            Some(AAudioErrorResult::Disconnected)
        } else if code == -898 {
            Some(AAudioErrorResult::IllegalArgument)
        } else if code == -896 {
            Some(AAudioErrorResult::Internal)
        } else if code == -895 {
            Some(AAudioErrorResult::InvalidState)
        } else if code == -892 {
            Some(AAudioErrorResult::InvalidHandle)
        } else if code == -890 {
            Some(AAudioErrorResult::Unimplemented)
        } else if code == -889 {
            Some(AAudioErrorResult::Unavailable)
        } else if code == -888 {
            Some(AAudioErrorResult::NoFreeHandles)
        } else if code == -887 {
            Some(AAudioErrorResult::NoMemory)
        } else if code == -886 {
            Some(AAudioErrorResult::Null)
        } else if code == -885 {
            Some(AAudioErrorResult::Timeout)
        } else if code == -884 {
            Some(AAudioErrorResult::WouldBlock)
        } else if code == -883 {
            Some(AAudioErrorResult::InvalidFormat)
        } else if code == -882 {
            Some(AAudioErrorResult::OutOfRange)
        } else if code == -881 {
            Some(AAudioErrorResult::NoService)
        } else if code == -880 {
            Some(AAudioErrorResult::InvalidRate)
        } else {
            None
        }
    }

    fn try_from_code(code: i64) -> (r: Option<Self>) {
        match code {
            -900 => Some(AAudioErrorResult::Base),
            -899 => Some(AAudioErrorResult::Disconnected),
            -898 => Some(AAudioErrorResult::IllegalArgument),
            -896 => Some(AAudioErrorResult::Internal),
            -895 => Some(AAudioErrorResult::InvalidState),
            -892 => Some(AAudioErrorResult::InvalidHandle),
            -890 => Some(AAudioErrorResult::Unimplemented),
            -889 => Some(AAudioErrorResult::Unavailable),
            -888 => Some(AAudioErrorResult::NoFreeHandles),
            -887 => Some(AAudioErrorResult::NoMemory),
            -886 => Some(AAudioErrorResult::Null),
            -885 => Some(AAudioErrorResult::Timeout),
            -884 => Some(AAudioErrorResult::WouldBlock),
            -883 => Some(AAudioErrorResult::InvalidFormat),
            -882 => Some(AAudioErrorResult::OutOfRange),
            -881 => Some(AAudioErrorResult::NoService),
            -880 => Some(AAudioErrorResult::InvalidRate),
            _ => None,
        }
    }

    proof fn lemma_code_round_trip(self) {
    }

    proof fn lemma_from_code_inverse(code: int) {
    }
}

impl AAudioErrorResult {
    /// Each variant's code is the value that the NDK's headers give its constant, so decoding
    /// that value gives the variant and encoding the variant gives the value. The constants are
    /// the `AAUDIO_ERROR_*` ones.
    pub proof fn lemma_ndk_codes()
        ensures
            AAudioErrorResult::Base.spec_code() == -900,
            AAudioErrorResult::Disconnected.spec_code() == -899,
            AAudioErrorResult::IllegalArgument.spec_code() == -898,
            AAudioErrorResult::Internal.spec_code() == -896,
            AAudioErrorResult::InvalidState.spec_code() == -895,
            AAudioErrorResult::InvalidHandle.spec_code() == -892,
            AAudioErrorResult::Unimplemented.spec_code() == -890,
            AAudioErrorResult::Unavailable.spec_code() == -889,
            AAudioErrorResult::NoFreeHandles.spec_code() == -888,
            AAudioErrorResult::NoMemory.spec_code() == -887,
            AAudioErrorResult::Null.spec_code() == -886,
            AAudioErrorResult::Timeout.spec_code() == -885,
            AAudioErrorResult::WouldBlock.spec_code() == -884,
            AAudioErrorResult::InvalidFormat.spec_code() == -883,
            AAudioErrorResult::OutOfRange.spec_code() == -882,
            AAudioErrorResult::NoService.spec_code() == -881,
            AAudioErrorResult::InvalidRate.spec_code() == -880,
            AAudioErrorResult::spec_from_code(-900) == Some(AAudioErrorResult::Base),
            AAudioErrorResult::spec_from_code(-899) == Some(AAudioErrorResult::Disconnected),
            AAudioErrorResult::spec_from_code(-898) == Some(AAudioErrorResult::IllegalArgument),
            AAudioErrorResult::spec_from_code(-896) == Some(AAudioErrorResult::Internal),
            AAudioErrorResult::spec_from_code(-895) == Some(AAudioErrorResult::InvalidState),
            AAudioErrorResult::spec_from_code(-892) == Some(AAudioErrorResult::InvalidHandle),
            AAudioErrorResult::spec_from_code(-890) == Some(AAudioErrorResult::Unimplemented),
            AAudioErrorResult::spec_from_code(-889) == Some(AAudioErrorResult::Unavailable),
            AAudioErrorResult::spec_from_code(-888) == Some(AAudioErrorResult::NoFreeHandles),
            AAudioErrorResult::spec_from_code(-887) == Some(AAudioErrorResult::NoMemory),
            AAudioErrorResult::spec_from_code(-886) == Some(AAudioErrorResult::Null),
            AAudioErrorResult::spec_from_code(-885) == Some(AAudioErrorResult::Timeout),
            AAudioErrorResult::spec_from_code(-884) == Some(AAudioErrorResult::WouldBlock),
            AAudioErrorResult::spec_from_code(-883) == Some(AAudioErrorResult::InvalidFormat),
            AAudioErrorResult::spec_from_code(-882) == Some(AAudioErrorResult::OutOfRange),
            AAudioErrorResult::spec_from_code(-881) == Some(AAudioErrorResult::NoService),
            AAudioErrorResult::spec_from_code(-880) == Some(AAudioErrorResult::InvalidRate),
    {
    }
}

impl AAudioErrorResult {
    /// The variant that the raw code `value` stands for, if any.
    pub fn try_from_raw(value: i32) -> (r: Option<Self>)
        ensures
            r == Self::spec_from_code(value as int),
    {
        match value {
            -900 => Some(AAudioErrorResult::Base),
            -899 => Some(AAudioErrorResult::Disconnected),
            -898 => Some(AAudioErrorResult::IllegalArgument),
            -896 => Some(AAudioErrorResult::Internal),
            -895 => Some(AAudioErrorResult::InvalidState),
            -892 => Some(AAudioErrorResult::InvalidHandle),
            -890 => Some(AAudioErrorResult::Unimplemented),
            -889 => Some(AAudioErrorResult::Unavailable),
            -888 => Some(AAudioErrorResult::NoFreeHandles),
            -887 => Some(AAudioErrorResult::NoMemory),
            -886 => Some(AAudioErrorResult::Null),
            -885 => Some(AAudioErrorResult::Timeout),
            -884 => Some(AAudioErrorResult::WouldBlock),
            -883 => Some(AAudioErrorResult::InvalidFormat),
            -882 => Some(AAudioErrorResult::OutOfRange),
            -881 => Some(AAudioErrorResult::NoService),
            -880 => Some(AAudioErrorResult::InvalidRate),
            _ => None,
        }
    }

    /// The raw code of this variant.
    pub fn into_raw(self) -> (r: i32)
        ensures
            r as int == self.spec_code(),
    {
        match self {
            AAudioErrorResult::Base => -900,
            AAudioErrorResult::Disconnected => -899,
            AAudioErrorResult::IllegalArgument => -898,
            AAudioErrorResult::Internal => -896,
            AAudioErrorResult::InvalidState => -895,
            AAudioErrorResult::InvalidHandle => -892,
            AAudioErrorResult::Unimplemented => -890,
            AAudioErrorResult::Unavailable => -889,
            AAudioErrorResult::NoFreeHandles => -888,
            AAudioErrorResult::NoMemory => -887,
            AAudioErrorResult::Null => -886,
            AAudioErrorResult::Timeout => -885,
            AAudioErrorResult::WouldBlock => -884,
            AAudioErrorResult::InvalidFormat => -883,
            AAudioErrorResult::OutOfRange => -882,
            AAudioErrorResult::NoService => -881,
            AAudioErrorResult::InvalidRate => -880,
        }
    }
}
/// The audio session of a stream: none, or an allocated session id, which is never zero.
#[derive(Copy, Clone, Debug, PartialEq, Eq, Structural)]
pub enum SessionId {
    NoSession,
    Allocated(i32),
}

/// A position in frames together with the time at which it was presented.
#[derive(Copy, Clone, Debug)]
pub struct Timestamp {
    pub frame_position: i64,
    pub time_nanoseconds: i64,
}

/// The raw code that asks AAudio to allocate a new session.
pub const AAUDIO_SESSION_ID_ALLOCATE: i32 = 0;

/// The raw code of a stream without a session.
pub const AAUDIO_SESSION_ID_NONE: i32 = -1;

/// The raw code of a parameter that was left unspecified.
pub const AAUDIO_UNSPECIFIED: i32 = 0;

/// An error from AAudio: a known error code, an unknown negative code, or a value that names no
/// variant of the enumeration that was asked for.
#[derive(Copy, Clone, Debug, PartialEq, Eq, Structural)]
pub enum AAudioError {
    ErrorResult(AAudioErrorResult),
    UnknownResult(i32),
    UnsupportedValue(i32),
}

/// The error that a negative result code of AAudio stands for.
pub open spec fn spec_aaudio_error_of(result: i32) -> AAudioError {
    match AAudioErrorResult::spec_from_code(result as int) {
        Some(e) => AAudioError::ErrorResult(e),
        None => AAudioError::UnknownResult(result),
    }
}

impl AAudioError {
    /// Turns an AAudio result code into `on_success()` when it is not negative, and into the
    /// error that it stands for otherwise.
    pub fn from_result<T, F: FnOnce() -> T>(result: i32, on_success: F) -> (r: Result<T, AAudioError>)
        requires
            result >= 0 ==> call_requires(on_success, ()),
        ensures
            result >= 0 ==> (r matches Ok(v) && call_ensures(on_success, (), v)),
            result < 0 ==> r == Err::<T, AAudioError>(spec_aaudio_error_of(result)),
    {
        if result >= 0 {
            return Ok(on_success());
        }
        match AAudioErrorResult::try_from_raw(result) {
            Some(e) => Err(AAudioError::ErrorResult(e)),
            None => Err(AAudioError::UnknownResult(result)),
        }
    }

    /// The error that a negative result code stands for, as it is handed to an error callback.
    pub fn from_error_code(error: i32) -> (r: AAudioError)
        requires
            error < 0,
        ensures
            r == spec_aaudio_error_of(error),
    {
        match AAudioErrorResult::try_from_raw(error) {
            Some(e) => AAudioError::ErrorResult(e),
            None => AAudioError::UnknownResult(error),
        }
    }
}

/// Reads an enumeration that AAudio returned as a raw code: a negative code or one that names no
/// variant gives `UnsupportedValue`.
pub fn enum_return_value<T: RawEnum>(return_value: i32) -> (r: Result<T, AAudioError>)
    ensures
        (return_value >= 0 && T::spec_from_code(return_value as int) is Some) ==> r == Ok::<
            T,
            AAudioError,
        >(T::spec_from_code(return_value as int)->0),
        !(return_value >= 0 && T::spec_from_code(return_value as int) is Some) ==> r == Err::<
            T,
            AAudioError,
        >(AAudioError::UnsupportedValue(return_value)),
{
    if return_value < 0 {
        return Err(AAudioError::UnsupportedValue(return_value));
    }
    match T::try_from_code(return_value as i64) {
        Some(value) => Ok(value),
        None => Err(AAudioError::UnsupportedValue(return_value)),
    }
}

/// The raw session code that a stream builder is given: `None` asks for a new session.
pub open spec fn spec_session_id_code(session_id_or_allocate: Option<SessionId>) -> i32 {
    match session_id_or_allocate {
        None => AAUDIO_SESSION_ID_ALLOCATE,
        Some(SessionId::NoSession) => AAUDIO_SESSION_ID_NONE,
        Some(SessionId::Allocated(value)) => value,
    }
}

/// Encodes the session that a stream builder asks for as AAudio's raw code.
pub fn session_id_to_raw(session_id_or_allocate: Option<SessionId>) -> (r: i32)
    ensures
        r == spec_session_id_code(session_id_or_allocate),
{
    match session_id_or_allocate {
        None => AAUDIO_SESSION_ID_ALLOCATE,
        Some(SessionId::NoSession) => AAUDIO_SESSION_ID_NONE,
        Some(SessionId::Allocated(value)) => value,
    }
}

/// Decodes the session code of a stream. A stream never reports the code that asks for a new
/// session, which is zero.
pub fn session_id_from_raw(value: i32) -> (r: SessionId)
    requires
        value != AAUDIO_SESSION_ID_ALLOCATE,
    ensures
        value == AAUDIO_SESSION_ID_NONE ==> r == SessionId::NoSession,
        value != AAUDIO_SESSION_ID_NONE ==> r == SessionId::Allocated(value),
{
    if value == AAUDIO_SESSION_ID_NONE {
        SessionId::NoSession
    } else {
        SessionId::Allocated(value)
    }
}

/// Decodes the number of frames per data callback, where the unspecified code means `None`.
pub fn frames_per_data_callback_from_raw(value: i32) -> (r: Option<i32>)
    ensures
        value == AAUDIO_UNSPECIFIED ==> r is None,
        value != AAUDIO_UNSPECIFIED ==> r == Some(value),
{
    if value == AAUDIO_UNSPECIFIED {
        None
    } else {
        Some(value)
    }
}

/// Encoding a session that a stream reports and decoding it again gives the same session.
pub proof fn lemma_session_id_round_trip(session: SessionId)
    requires
        session matches SessionId::Allocated(v) ==> v != AAUDIO_SESSION_ID_NONE && v != AAUDIO_SESSION_ID_ALLOCATE,
    ensures
        spec_session_id_code(Some(session)) != AAUDIO_SESSION_ID_ALLOCATE,
        (if spec_session_id_code(Some(session)) == AAUDIO_SESSION_ID_NONE {
            SessionId::NoSession
        } else {
            SessionId::Allocated(spec_session_id_code(Some(session)))
        }) == session,
{
}

/// The NDK's constants used here have the values that its headers give them.
pub proof fn lemma_ndk_constants()
    ensures
        AAUDIO_SESSION_ID_ALLOCATE == 0,
        AAUDIO_SESSION_ID_NONE == -1,
        AAUDIO_UNSPECIFIED == 0,
{
}

} // verus!
