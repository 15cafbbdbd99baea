//! Values of the MIDI API and the decoding of what its calls return.
use crate::media_error::MediaError;
use vstd::prelude::*;

verus! {

/// The kind of a MIDI device.
#[derive(Copy, Clone, Debug, PartialEq, Eq, Structural)]
pub enum MidiDeviceType {
    Bluetooth,
    USB,
    Virtual,
    /// A device type code that this library does not know.
    Unknown(u32),
}

impl MidiDeviceType {
    /// The raw code of a value.
    pub open spec fn spec_code(self) -> u32 {
        match self {
            MidiDeviceType::Bluetooth => 3u32,
            MidiDeviceType::USB => 1u32,
            MidiDeviceType::Virtual => 2u32,
            MidiDeviceType::Unknown(code) => code,
        }
    }

    /// The value that a raw code stands for: a named variant where one exists.
    pub open spec fn spec_from_code(code: u32) -> Self {
        if code == 3 {
            MidiDeviceType::Bluetooth
        } else if code == 1 {
            MidiDeviceType::USB
        } else if code == 2 {
            MidiDeviceType::Virtual
        } else {
            MidiDeviceType::Unknown(code)
        }
    }

    /// A value is canonical when it is a named variant, or holds a code that no variant names.
    pub open spec fn is_canonical(self) -> bool {
        match self {
            MidiDeviceType::Unknown(code) => Self::spec_from_code(code) == self,
            _ => true,
        }
    }

    /// The value that the raw code `value` stands for.
    pub fn from_raw(value: u32) -> (r: Self)
        ensures
            r == Self::spec_from_code(value),
            r.is_canonical(),
    {
        match value {
            3 => MidiDeviceType::Bluetooth,
            1 => MidiDeviceType::USB,
            2 => MidiDeviceType::Virtual,
            _ => MidiDeviceType::Unknown(value),
        }
    }

    /// The raw code of this value.
    pub fn into_raw(self) -> (r: u32)
        ensures
            r == self.spec_code(),
    {
        match self {
            MidiDeviceType::Bluetooth => 3,
            MidiDeviceType::USB => 1,
            MidiDeviceType::Virtual => 2,
            MidiDeviceType::Unknown(code) => code,
        }
    }

    /// Reading a raw code and turning the value back into a code gives the same code.
    pub proof fn lemma_code_round_trip(code: u32)
        ensures
            Self::spec_from_code(code).spec_code() == code,
            Self::spec_from_code(code).is_canonical(),
    {
    }

    /// Turning a canonical value into its code and reading it back gives the same value.
    pub proof fn lemma_value_round_trip(self)
        requires
            self.is_canonical(),
        ensures
            Self::spec_from_code(self.spec_code()) == self,
    {
    }
}

impl MidiDeviceType {
    /// Each variant's code is the value that the NDK's headers give its constant, so decoding
    /// that value gives the variant and encoding the variant gives the value.
    pub proof fn lemma_ndk_codes()
        ensures
            MidiDeviceType::Bluetooth.spec_code() == 3,
            MidiDeviceType::USB.spec_code() == 1,
            MidiDeviceType::Virtual.spec_code() == 2,
            MidiDeviceType::spec_from_code(3u32) == MidiDeviceType::Bluetooth,
            MidiDeviceType::spec_from_code(1u32) == MidiDeviceType::USB,
            MidiDeviceType::spec_from_code(2u32) == MidiDeviceType::Virtual,
    {
    }
}

/// What one receive call on an output port found.
#[derive(Copy, Clone, Debug, PartialEq, Eq, Structural)]
pub enum MidiOpcode {
    /// No MIDI message was received.
    NoMessage,
    /// A message of `length` bytes, with its timestamp.
    Data { length: usize, timestamp: i64 },
    /// The port was flushed.
    Flush,
}

/// The raw opcode of a data message.
pub const AMIDI_OPCODE_DATA: i32 = 1;

/// The raw opcode of a flush.
pub const AMIDI_OPCODE_FLUSH: i32 = 2;

/// The outcome of a receive call from the number of messages it reports, its opcode, the number
/// of bytes and the timestamp. At most one message is received, and a received message is data
/// or a flush.
pub fn receive_result(num_messages_received: isize, opcode: i32, num_bytes_received: usize, timestamp: i64) -> (r: Result<MidiOpcode, MediaError>)
    requires
        num_messages_received <= 1,
        num_messages_received == 1 ==> (opcode == AMIDI_OPCODE_DATA || opcode == AMIDI_OPCODE_FLUSH),
        num_messages_received < 0 ==> (num_messages_received as i32) != 0,
    ensures
        num_messages_received < 0 ==> r == Err::<MidiOpcode, MediaError>(
            MediaError::spec_from_code(num_messages_received as i32),
        ),
        num_messages_received == 0 ==> r == Ok::<MidiOpcode, MediaError>(MidiOpcode::NoMessage),
        (num_messages_received == 1 && opcode == AMIDI_OPCODE_DATA) ==> r == Ok::<
            MidiOpcode,
            MediaError,
        >(MidiOpcode::Data { length: num_bytes_received, timestamp }),
        (num_messages_received == 1 && opcode == AMIDI_OPCODE_FLUSH) ==> r == Ok::<
            MidiOpcode,
            MediaError,
        >(MidiOpcode::Flush),
{
    if num_messages_received < 0 {
        return Err(MediaError::from_error_status(#[verifier::truncate] (num_messages_received as i32)));
    }
    if num_messages_received == 0 {
        Ok(MidiOpcode::NoMessage)
    } else if opcode == AMIDI_OPCODE_DATA {
        Ok(MidiOpcode::Data { length: num_bytes_received, timestamp })
    } else {
        Ok(MidiOpcode::Flush)
    }
}

/// A count or size that a MIDI call returns: a negative value is the media error that it
/// stands for.
pub fn count_result(value: isize) -> (r: Result<usize, MediaError>)
    requires
        value < 0 ==> (value as i32) != 0,
    ensures
        value >= 0 ==> r == Ok::<usize, MediaError>(value as usize),
        value < 0 ==> r == Err::<usize, MediaError>(
            MediaError::spec_from_code(value as i32),
        ),
{
    if value >= 0 {
        Ok(value as usize)
    } else {
        Err(MediaError::from_error_status(#[verifier::truncate] (value as i32)))
    }
}

/// The device type that a MIDI device reports: a negative value is the media error that it
/// stands for.
pub fn device_type_result(value: i32) -> (r: Result<MidiDeviceType, MediaError>)
    ensures
        value >= 0 ==> r == Ok::<MidiDeviceType, MediaError>(
            MidiDeviceType::spec_from_code(value as u32),
        ),
        value < 0 ==> r == Err::<MidiDeviceType, MediaError>(MediaError::spec_from_code(value)),
{
    if value >= 0 {
        Ok(MidiDeviceType::from_raw(value as u32))
    } else {
        Err(MediaError::from_error_status(value))
    }
}

/// The NDK's constants used here have the values that its headers give them.
pub proof fn lemma_ndk_constants()
    ensures
        AMIDI_OPCODE_DATA == 1,
        AMIDI_OPCODE_FLUSH == 2,
{
}

} // verus!
