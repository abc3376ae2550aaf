//! Logical and physical addresses, device modes and timeouts.

use vstd::prelude::*;

use crate::codec::{hi_byte_of, lemma_word, lo_byte_of, word, word_of, hi_byte, lo_byte, OperandEncodable};
use crate::error::{invalid_value, short_input, str_equal, variant_not_found, Error, ErrorView, Range, RangeView};
use crate::operand::codes::PrimaryDeviceType;
use crate::operand::flags::AllDeviceTypes;
use crate::operand::scalar::{hex_char, push_hex_digit};
use vstd::string::StringExecFns;

verus! {

/// A CEC logical address, used for identifying devices attached to the CEC bus.
#[derive(Clone, Copy, Debug, PartialEq, Eq, Structural, Hash)]
pub enum LogicalAddress {
    Tv,
    RecordingDevice1,
    RecordingDevice2,
    Tuner1,
    PlaybackDevice1,
    AudioSystem,
    Tuner2,
    Tuner3,
    PlaybackDevice2,
    RecordingDevice3,
    Tuner4,
    PlaybackDevice3,
    Backup1,
    Backup2,
    Specific,
    UnregisteredOrBroadcast,
}

impl LogicalAddress {
    /// The byte that encodes the value.
    pub open spec fn code(self) -> u8 {
        match self {
            LogicalAddress::Tv => 0x00u8,
            LogicalAddress::RecordingDevice1 => 0x01u8,
            LogicalAddress::RecordingDevice2 => 0x02u8,
            LogicalAddress::Tuner1 => 0x03u8,
            LogicalAddress::PlaybackDevice1 => 0x04u8,
            LogicalAddress::AudioSystem => 0x05u8,
            LogicalAddress::Tuner2 => 0x06u8,
            LogicalAddress::Tuner3 => 0x07u8,
            LogicalAddress::PlaybackDevice2 => 0x08u8,
            LogicalAddress::RecordingDevice3 => 0x09u8,
            LogicalAddress::Tuner4 => 0x0au8,
            LogicalAddress::PlaybackDevice3 => 0x0bu8,
            LogicalAddress::Backup1 => 0x0cu8,
            LogicalAddress::Backup2 => 0x0du8,
            LogicalAddress::Specific => 0x0eu8,
            LogicalAddress::UnregisteredOrBroadcast => 0x0fu8,
        }
    }

    /// Each value and the byte that encodes it.
    pub proof fn lemma_code_table()
        ensures
            LogicalAddress::Tv.code() == 0x00u8,
            LogicalAddress::RecordingDevice1.code() == 0x01u8,
            LogicalAddress::RecordingDevice2.code() == 0x02u8,
            LogicalAddress::Tuner1.code() == 0x03u8,
            LogicalAddress::PlaybackDevice1.code() == 0x04u8,
            LogicalAddress::AudioSystem.code() == 0x05u8,
            LogicalAddress::Tuner2.code() == 0x06u8,
            LogicalAddress::Tuner3.code() == 0x07u8,
            LogicalAddress::PlaybackDevice2.code() == 0x08u8,
            LogicalAddress::RecordingDevice3.code() == 0x09u8,
            LogicalAddress::Tuner4.code() == 0x0au8,
            LogicalAddress::PlaybackDevice3.code() == 0x0bu8,
            LogicalAddress::Backup1.code() == 0x0cu8,
            LogicalAddress::Backup2.code() == 0x0du8,
            LogicalAddress::Specific.code() == 0x0eu8,
            LogicalAddress::UnregisteredOrBroadcast.code() == 0x0fu8,
    {
    }

    /// The value that the byte `b` encodes, if any.
    pub open spec fn from_code(b: u8) -> Option<LogicalAddress> {
        match b {
            0x00u8 => Some(LogicalAddress::Tv),
            0x01u8 => Some(LogicalAddress::RecordingDevice1),
            0x02u8 => Some(LogicalAddress::RecordingDevice2),
            0x03u8 => Some(LogicalAddress::Tuner1),
            0x04u8 => Some(LogicalAddress::PlaybackDevice1),
            0x05u8 => Some(LogicalAddress::AudioSystem),
            0x06u8 => Some(LogicalAddress::Tuner2),
            0x07u8 => Some(LogicalAddress::Tuner3),
            0x08u8 => Some(LogicalAddress::PlaybackDevice2),
            0x09u8 => Some(LogicalAddress::RecordingDevice3),
            0x0au8 => Some(LogicalAddress::Tuner4),
            0x0bu8 => Some(LogicalAddress::PlaybackDevice3),
            0x0cu8 => Some(LogicalAddress::Backup1),
            0x0du8 => Some(LogicalAddress::Backup2),
            0x0eu8 => Some(LogicalAddress::Specific),
            0x0fu8 => Some(LogicalAddress::UnregisteredOrBroadcast),
            _ => None,
        }
    }

    /// The byte that encodes the value.
    pub fn to_u8(self) -> (r: u8)
        ensures
            r == self.code(),
    {
        match self {
            LogicalAddress::Tv => 0x00,
            LogicalAddress::RecordingDevice1 => 0x01,
            LogicalAddress::RecordingDevice2 => 0x02,
            LogicalAddress::Tuner1 => 0x03,
            LogicalAddress::PlaybackDevice1 => 0x04,
            LogicalAddress::AudioSystem => 0x05,
            LogicalAddress::Tuner2 => 0x06,
            LogicalAddress::Tuner3 => 0x07,
            LogicalAddress::PlaybackDevice2 => 0x08,
            LogicalAddress::RecordingDevice3 => 0x09,
            LogicalAddress::Tuner4 => 0x0a,
            LogicalAddress::PlaybackDevice3 => 0x0b,
            LogicalAddress::Backup1 => 0x0c,
            LogicalAddress::Backup2 => 0x0d,
            LogicalAddress::Specific => 0x0e,
            LogicalAddress::UnregisteredOrBroadcast => 0x0f,
        }
    }

    /// The value that the byte `b` encodes; a byte that encodes none is
    /// reported as an invalid value for this type.
    pub fn try_from_u8(b: u8) -> (r: Result<LogicalAddress, Error>)
        ensures
            r matches Ok(v) ==> Self::from_code(b) == Some(v),
            r matches Err(e) ==> Self::from_code(b) is None && e@ == invalid_value("LogicalAddress"@, b as nat),
            r is Ok <==> Self::from_code(b) is Some,
    {
        match b {
            0x00 => Ok(LogicalAddress::Tv),
            0x01 => Ok(LogicalAddress::RecordingDevice1),
            0x02 => Ok(LogicalAddress::RecordingDevice2),
            0x03 => Ok(LogicalAddress::Tuner1),
            0x04 => Ok(LogicalAddress::PlaybackDevice1),
            0x05 => Ok(LogicalAddress::AudioSystem),
            0x06 => Ok(LogicalAddress::Tuner2),
            0x07 => Ok(LogicalAddress::Tuner3),
            0x08 => Ok(LogicalAddress::PlaybackDevice2),
            0x09 => Ok(LogicalAddress::RecordingDevice3),
            0x0a => Ok(LogicalAddress::Tuner4),
            0x0b => Ok(LogicalAddress::PlaybackDevice3),
            0x0c => Ok(LogicalAddress::Backup1),
            0x0d => Ok(LogicalAddress::Backup2),
            0x0e => Ok(LogicalAddress::Specific),
            0x0f => Ok(LogicalAddress::UnregisteredOrBroadcast),
            _ => Err(Error::invalid_value("LogicalAddress", b)),
        }
    }

    /// Every four-bit value is the code of a logical address.
    pub proof fn lemma_all_codes()
        ensures
            forall|b: u8| b < 16 ==> (#[trigger] Self::from_code(b)) is Some,
    {
    }

    /// Decoding the code of a value gives the value back, and a byte
    /// decodes only to a value of which it is the code.
    pub proof fn lemma_code(self, b: u8)
        ensures
            Self::from_code(self.code()) == Some(self),
            Self::from_code(b) matches Some(v) ==> v.code() == b,
    {
    }
}

impl From<LogicalAddress> for u8 {
    fn from(v: LogicalAddress) -> (r: u8) {
        v.to_u8()
    }
}

impl vstd::std_specs::convert::FromSpecImpl<LogicalAddress> for u8 {
    open spec fn obeys_from_spec() -> bool {
        true
    }

    open spec fn from_spec(v: LogicalAddress) -> u8 {
        v.code()
    }
}

/// The type of a CEC logical address, used for determining what type of
/// device is at the given address and for requesting an address.
#[derive(Clone, Copy, Debug, PartialEq, Eq, Structural, Hash)]
pub enum LogicalAddressType {
    Tv,
    Record,
    Tuner,
    Playback,
    AudioSystem,
    Specific,
    Unregistered,
}

impl LogicalAddressType {
    /// The byte that encodes the value.
    pub open spec fn code(self) -> u8 {
        match self {
            LogicalAddressType::Tv => 0x00u8,
            LogicalAddressType::Record => 0x01u8,
            LogicalAddressType::Tuner => 0x02u8,
            LogicalAddressType::Playback => 0x03u8,
            LogicalAddressType::AudioSystem => 0x04u8,
            LogicalAddressType::Specific => 0x05u8,
            LogicalAddressType::Unregistered => 0x06u8,
        }
    }

    /// Each value and the byte that encodes it.
    pub proof fn lemma_code_table()
        ensures
            LogicalAddressType::Tv.code() == 0x00u8,
            LogicalAddressType::Record.code() == 0x01u8,
            LogicalAddressType::Tuner.code() == 0x02u8,
            LogicalAddressType::Playback.code() == 0x03u8,
            LogicalAddressType::AudioSystem.code() == 0x04u8,
            LogicalAddressType::Specific.code() == 0x05u8,
            LogicalAddressType::Unregistered.code() == 0x06u8,
    {
    }

    /// The value that the byte `b` encodes, if any.
    pub open spec fn from_code(b: u8) -> Option<LogicalAddressType> {
        match b {
            0x00u8 => Some(LogicalAddressType::Tv),
            0x01u8 => Some(LogicalAddressType::Record),
            0x02u8 => Some(LogicalAddressType::Tuner),
            0x03u8 => Some(LogicalAddressType::Playback),
            0x04u8 => Some(LogicalAddressType::AudioSystem),
            0x05u8 => Some(LogicalAddressType::Specific),
            0x06u8 => Some(LogicalAddressType::Unregistered),
            _ => None,
        }
    }

    /// The byte that encodes the value.
    pub fn to_u8(self) -> (r: u8)
        ensures
            r == self.code(),
    {
        match self {
            LogicalAddressType::Tv => 0x00,
            LogicalAddressType::Record => 0x01,
            LogicalAddressType::Tuner => 0x02,
            LogicalAddressType::Playback => 0x03,
            LogicalAddressType::AudioSystem => 0x04,
            LogicalAddressType::Specific => 0x05,
            LogicalAddressType::Unregistered => 0x06,
        }
    }

    /// The value that the byte `b` encodes; a byte that encodes none is
    /// reported as an invalid value for this type.
    pub fn try_from_u8(b: u8) -> (r: Result<LogicalAddressType, Error>)
        ensures
            r matches Ok(v) ==> Self::from_code(b) == Some(v),
            r matches Err(e) ==> Self::from_code(b) is None && e@ == invalid_value("LogicalAddressType"@, b as nat),
            r is Ok <==> Self::from_code(b) is Some,
    {
        match b {
            0x00 => Ok(LogicalAddressType::Tv),
            0x01 => Ok(LogicalAddressType::Record),
            0x02 => Ok(LogicalAddressType::Tuner),
            0x03 => Ok(LogicalAddressType::Playback),
            0x04 => Ok(LogicalAddressType::AudioSystem),
            0x05 => Ok(LogicalAddressType::Specific),
            0x06 => Ok(LogicalAddressType::Unregistered),
            _ => Err(Error::invalid_value("LogicalAddressType", b)),
        }
    }

    /// Decoding the code of a value gives the value back, and a byte
    /// decodes only to a value of which it is the code.
    pub proof fn lemma_code(self, b: u8)
        ensures
            Self::from_code(self.code()) == Some(self),
            Self::from_code(b) matches Some(v) ==> v.code() == b,
    {
    }
}

impl From<LogicalAddressType> for u8 {
    fn from(v: LogicalAddressType) -> (r: u8) {
        v.to_u8()
    }
}

impl vstd::std_specs::convert::FromSpecImpl<LogicalAddressType> for u8 {
    open spec fn obeys_from_spec() -> bool {
        true
    }

    open spec fn from_spec(v: LogicalAddressType) -> u8 {
        v.code()
    }
}

impl LogicalAddress {
    /// The address when used as an initiator.
    pub const UNREGISTERED: LogicalAddress = LogicalAddress::UnregisteredOrBroadcast;

    /// The address when used as a destination.
    pub const BROADCAST: LogicalAddress = LogicalAddress::UnregisteredOrBroadcast;

    /// The type of the address: backup addresses have none.
    pub open spec fn spec_ty(self) -> Option<LogicalAddressType> {
        match self {
            LogicalAddress::Tv => Some(LogicalAddressType::Tv),
            LogicalAddress::RecordingDevice1
            | LogicalAddress::RecordingDevice2
            | LogicalAddress::RecordingDevice3 => Some(LogicalAddressType::Record),
            LogicalAddress::Tuner1
            | LogicalAddress::Tuner2
            | LogicalAddress::Tuner3
            | LogicalAddress::Tuner4 => Some(LogicalAddressType::Tuner),
            LogicalAddress::PlaybackDevice1
            | LogicalAddress::PlaybackDevice2
            | LogicalAddress::PlaybackDevice3 => Some(LogicalAddressType::Playback),
            LogicalAddress::AudioSystem => Some(LogicalAddressType::AudioSystem),
            LogicalAddress::Backup1 | LogicalAddress::Backup2 => None,
            LogicalAddress::Specific => Some(LogicalAddressType::Specific),
            LogicalAddress::UnregisteredOrBroadcast => Some(LogicalAddressType::Unregistered),
        }
    }

    /// The primary device type that the address is reserved for, if any.
    pub open spec fn spec_primary_device_type(self) -> Option<PrimaryDeviceType> {
        match self {
            LogicalAddress::Tv => Some(PrimaryDeviceType::Tv),
            LogicalAddress::RecordingDevice1
            | LogicalAddress::RecordingDevice2
            | LogicalAddress::RecordingDevice3 => Some(PrimaryDeviceType::Recording),
            LogicalAddress::Tuner1
            | LogicalAddress::Tuner2
            | LogicalAddress::Tuner3
            | LogicalAddress::Tuner4 => Some(PrimaryDeviceType::Tuner),
            LogicalAddress::PlaybackDevice1
            | LogicalAddress::PlaybackDevice2
            | LogicalAddress::PlaybackDevice3 => Some(PrimaryDeviceType::Playback),
            LogicalAddress::AudioSystem => Some(PrimaryDeviceType::Audio),
            _ => None,
        }
    }

    /// The device-type flags of the address.
    pub open spec fn spec_all_device_types(self) -> u8 {
        match self {
            LogicalAddress::Tv => 0x80u8,
            LogicalAddress::RecordingDevice1
            | LogicalAddress::RecordingDevice2
            | LogicalAddress::RecordingDevice3 => 0x40u8,
            LogicalAddress::Tuner1
            | LogicalAddress::Tuner2
            | LogicalAddress::Tuner3
            | LogicalAddress::Tuner4 => 0x20u8,
            LogicalAddress::PlaybackDevice1
            | LogicalAddress::PlaybackDevice2
            | LogicalAddress::PlaybackDevice3 => 0x10u8,
            LogicalAddress::AudioSystem => 0x08u8,
            _ => 0u8,
        }
    }

    /// The primary device type that the address is reserved for, if any.
    pub fn primary_device_type(self) -> (r: Option<PrimaryDeviceType>)
        ensures
            r == self.spec_primary_device_type(),
    {
        match self {
            LogicalAddress::Tv => Some(PrimaryDeviceType::Tv),
            LogicalAddress::RecordingDevice1
            | LogicalAddress::RecordingDevice2
            | LogicalAddress::RecordingDevice3 => Some(PrimaryDeviceType::Recording),
            LogicalAddress::Tuner1
            | LogicalAddress::Tuner2
            | LogicalAddress::Tuner3
            | LogicalAddress::Tuner4 => Some(PrimaryDeviceType::Tuner),
            LogicalAddress::PlaybackDevice1
            | LogicalAddress::PlaybackDevice2
            | LogicalAddress::PlaybackDevice3 => Some(PrimaryDeviceType::Playback),
            LogicalAddress::AudioSystem => Some(PrimaryDeviceType::Audio),
            LogicalAddress::Backup1 | LogicalAddress::Backup2 => None,
            LogicalAddress::Specific => None,
            LogicalAddress::UnregisteredOrBroadcast => None,
        }
    }

    /// The device-type flags of the address.
    pub fn all_device_types(self) -> (r: AllDeviceTypes)
        ensures
            r.bits == self.spec_all_device_types(),
    {
        match self {
            LogicalAddress::Tv => AllDeviceTypes::TV(),
            LogicalAddress::RecordingDevice1
            | LogicalAddress::RecordingDevice2
            | LogicalAddress::RecordingDevice3 => AllDeviceTypes::RECORDING(),
            LogicalAddress::Tuner1
            | LogicalAddress::Tuner2
            | LogicalAddress::Tuner3
            | LogicalAddress::Tuner4 => AllDeviceTypes::TUNER(),
            LogicalAddress::PlaybackDevice1
            | LogicalAddress::PlaybackDevice2
            | LogicalAddress::PlaybackDevice3 => AllDeviceTypes::PLAYBACK(),
            LogicalAddress::AudioSystem => AllDeviceTypes::AUDIOSYSTEM(),
            LogicalAddress::Backup1 | LogicalAddress::Backup2 => AllDeviceTypes::empty(),
            LogicalAddress::Specific => AllDeviceTypes::empty(),
            LogicalAddress::UnregisteredOrBroadcast => AllDeviceTypes::empty(),
        }
    }

    /// The type of the address: backup addresses have none.
    pub fn ty(self) -> (r: Option<LogicalAddressType>)
        ensures
            r == self.spec_ty(),
    {
        match self {
            LogicalAddress::Tv => Some(LogicalAddressType::Tv),
            LogicalAddress::RecordingDevice1
            | LogicalAddress::RecordingDevice2
            | LogicalAddress::RecordingDevice3 => Some(LogicalAddressType::Record),
            LogicalAddress::Tuner1
            | LogicalAddress::Tuner2
            | LogicalAddress::Tuner3
            | LogicalAddress::Tuner4 => Some(LogicalAddressType::Tuner),
            LogicalAddress::PlaybackDevice1
            | LogicalAddress::PlaybackDevice2
            | LogicalAddress::PlaybackDevice3 => Some(LogicalAddressType::Playback),
            LogicalAddress::AudioSystem => Some(LogicalAddressType::AudioSystem),
            LogicalAddress::Backup1 | LogicalAddress::Backup2 => None,
            LogicalAddress::Specific => Some(LogicalAddressType::Specific),
            LogicalAddress::UnregisteredOrBroadcast => Some(LogicalAddressType::Unregistered),
        }
    }

    /// An address reports the device types of its type: its primary device
    /// type and its device-type flags are those of its address type, and an
    /// address without a type has neither.
    pub proof fn lemma_types_agree(self)
        ensures
            self.spec_primary_device_type() == match self.spec_ty() {
                Some(t) => t.spec_primary_device_type(),
                None => None,
            },
            self.spec_all_device_types() == match self.spec_ty() {
                Some(t) => t.spec_all_device_types(),
                None => 0u8,
            },
    {
    }

    /// The number of an address tells its type: 0 is the TV's; 1, 2 and 9
    /// are recording devices'; 3, 6, 7 and 10 tuners'; 4, 8 and 11 playback
    /// devices'; 5 the audio system's; 14 is the specific address and 15 the
    /// unregistered one; 12 and 13 are backups, of no type.
    pub proof fn lemma_type_by_number(self)
        ensures
            (self.spec_ty() == Some(LogicalAddressType::Tv)) == (self.code() == 0),
            (self.spec_ty() == Some(LogicalAddressType::Record)) == (self.code() == 1 || self.code() == 2
                || self.code() == 9),
            (self.spec_ty() == Some(LogicalAddressType::Tuner)) == (self.code() == 3 || self.code() == 6
                || self.code() == 7 || self.code() == 10),
            (self.spec_ty() == Some(LogicalAddressType::Playback)) == (self.code() == 4 || self.code() == 8
                || self.code() == 11),
            (self.spec_ty() == Some(LogicalAddressType::AudioSystem)) == (self.code() == 5),
            (self.spec_ty() == Some(LogicalAddressType::Specific)) == (self.code() == 14),
            (self.spec_ty() == Some(LogicalAddressType::Unregistered)) == (self.code() == 15),
            (self.spec_ty() is None) == (self.code() == 12 || self.code() == 13),
    {
    }
}

impl Default for LogicalAddress {
    fn default() -> (r: LogicalAddress)
        ensures
            r == LogicalAddress::UnregisteredOrBroadcast,
    {
        LogicalAddress::UnregisteredOrBroadcast
    }
}

impl LogicalAddressType {
    /// The primary device type of devices that claim an address of this type.
    pub open spec fn spec_primary_device_type(self) -> Option<PrimaryDeviceType> {
        match self {
            LogicalAddressType::Tv => Some(PrimaryDeviceType::Tv),
            LogicalAddressType::Record => Some(PrimaryDeviceType::Recording),
            LogicalAddressType::Tuner => Some(PrimaryDeviceType::Tuner),
            LogicalAddressType::Playback => Some(PrimaryDeviceType::Playback),
            LogicalAddressType::AudioSystem => Some(PrimaryDeviceType::Audio),
            LogicalAddressType::Specific => None,
            LogicalAddressType::Unregistered => None,
        }
    }

    /// The device-type flags of devices that claim an address of this type.
    pub open spec fn spec_all_device_types(self) -> u8 {
        match self {
            LogicalAddressType::Tv => 0x80u8,
            LogicalAddressType::Record => 0x40u8,
            LogicalAddressType::Tuner => 0x20u8,
            LogicalAddressType::Playback => 0x10u8,
            LogicalAddressType::AudioSystem => 0x08u8,
            LogicalAddressType::Specific | LogicalAddressType::Unregistered => 0u8,
        }
    }

    /// The primary device type of devices that claim an address of this type.
    pub fn primary_device_type(self) -> (r: Option<PrimaryDeviceType>)
        ensures
            r == self.spec_primary_device_type(),
    {
        match self {
            LogicalAddressType::Tv => Some(PrimaryDeviceType::Tv),
            LogicalAddressType::Record => Some(PrimaryDeviceType::Recording),
            LogicalAddressType::Tuner => Some(PrimaryDeviceType::Tuner),
            LogicalAddressType::Playback => Some(PrimaryDeviceType::Playback),
            LogicalAddressType::AudioSystem => Some(PrimaryDeviceType::Audio),
            LogicalAddressType::Specific => None,
            LogicalAddressType::Unregistered => None,
        }
    }

    /// The device-type flags of devices that claim an address of this type.
    pub fn all_device_types(self) -> (r: AllDeviceTypes)
        ensures
            r.bits == self.spec_all_device_types(),
    {
        match self {
            LogicalAddressType::Tv => AllDeviceTypes::TV(),
            LogicalAddressType::Record => AllDeviceTypes::RECORDING(),
            LogicalAddressType::Tuner => AllDeviceTypes::TUNER(),
            LogicalAddressType::Playback => AllDeviceTypes::PLAYBACK(),
            LogicalAddressType::AudioSystem => AllDeviceTypes::AUDIOSYSTEM(),
            LogicalAddressType::Specific | LogicalAddressType::Unregistered => {
                AllDeviceTypes::empty()
            },
        }
    }

    /// Each type of address and the primary device type and device-type flag
    /// of the devices that claim it: the TV flag is 0x80, recording 0x40,
    /// tuner 0x20, playback 0x10 and audio system 0x08; the specific and
    /// unregistered types have neither.
    pub proof fn lemma_device_types_table()
        ensures
            LogicalAddressType::Tv.spec_primary_device_type() == Some(PrimaryDeviceType::Tv),
            LogicalAddressType::Record.spec_primary_device_type() == Some(PrimaryDeviceType::Recording),
            LogicalAddressType::Tuner.spec_primary_device_type() == Some(PrimaryDeviceType::Tuner),
            LogicalAddressType::Playback.spec_primary_device_type() == Some(PrimaryDeviceType::Playback),
            LogicalAddressType::AudioSystem.spec_primary_device_type() == Some(PrimaryDeviceType::Audio),
            LogicalAddressType::Specific.spec_primary_device_type() is None,
            LogicalAddressType::Unregistered.spec_primary_device_type() is None,
            LogicalAddressType::Tv.spec_all_device_types() == 0x80u8,
            LogicalAddressType::Record.spec_all_device_types() == 0x40u8,
            LogicalAddressType::Tuner.spec_all_device_types() == 0x20u8,
            LogicalAddressType::Playback.spec_all_device_types() == 0x10u8,
            LogicalAddressType::AudioSystem.spec_all_device_types() == 0x08u8,
            LogicalAddressType::Specific.spec_all_device_types() == 0u8,
            LogicalAddressType::Unregistered.spec_all_device_types() == 0u8,
    {
    }
}

impl Default for LogicalAddressType {
    fn default() -> (r: LogicalAddressType)
        ensures
            r == LogicalAddressType::Unregistered,
    {
        LogicalAddressType::Unregistered
    }
}

/// The logical address that `name` names: each address has a few names,
/// among them its number in decimal and, from 10 up, in hexadecimal.
pub open spec fn logical_address_named(name: Seq<char>) -> Option<LogicalAddress> {
    if name == "tv"@ || name == "0"@ {
        Some(LogicalAddress::Tv)
    } else if name == "recording-device1"@ || name == "recording-device-1"@ || name == "recording-device"@ || name == "1"@ {
        Some(LogicalAddress::RecordingDevice1)
    } else if name == "recording-device2"@ || name == "recording-device-2"@ || name == "2"@ {
        Some(LogicalAddress::RecordingDevice2)
    } else if name == "tuner1"@ || name == "tuner-1"@ || name == "tuner"@ || name == "3"@ {
        Some(LogicalAddress::Tuner1)
    } else if name == "playback-device1"@ || name == "playback-device-1"@ || name == "playback-device"@ || name == "4"@ {
        Some(LogicalAddress::PlaybackDevice1)
    } else if name == "audio-system"@ || name == "5"@ {
        Some(LogicalAddress::AudioSystem)
    } else if name == "tuner2"@ || name == "tuner-2"@ || name == "6"@ {
        Some(LogicalAddress::Tuner2)
    } else if name == "tuner3"@ || name == "tuner-3"@ || name == "7"@ {
        Some(LogicalAddress::Tuner3)
    } else if name == "playback-device2"@ || name == "playback-device-2"@ || name == "8"@ {
        Some(LogicalAddress::PlaybackDevice2)
    } else if name == "recording-device3"@ || name == "recording-device-3"@ || name == "9"@ {
        Some(LogicalAddress::RecordingDevice3)
    } else if name == "tuner4"@ || name == "tuner-4"@ || name == "10"@ || name == "a"@ {
        Some(LogicalAddress::Tuner4)
    } else if name == "playback-device3"@ || name == "playback-device-3"@ || name == "11"@ || name == "b"@ {
        Some(LogicalAddress::PlaybackDevice3)
    } else if name == "backup1"@ || name == "backup-1"@ || name == "12"@ || name == "c"@ {
        Some(LogicalAddress::Backup1)
    } else if name == "backup2"@ || name == "backup-2"@ || name == "13"@ || name == "d"@ {
        Some(LogicalAddress::Backup2)
    } else if name == "specific"@ || name == "14"@ || name == "e"@ {
        Some(LogicalAddress::Specific)
    } else if name == "unregistered"@ || name == "broadcast"@ || name == "15"@ || name == "f"@ {
        Some(LogicalAddress::UnregisteredOrBroadcast)
    } else {
        None
    }
}

/// The logical address type that `name` names, in kebab case.
pub open spec fn logical_address_type_named(name: Seq<char>) -> Option<LogicalAddressType> {
    if name == "tv"@ {
        Some(LogicalAddressType::Tv)
    } else if name == "record"@ {
        Some(LogicalAddressType::Record)
    } else if name == "tuner"@ {
        Some(LogicalAddressType::Tuner)
    } else if name == "playback"@ {
        Some(LogicalAddressType::Playback)
    } else if name == "audio-system"@ {
        Some(LogicalAddressType::AudioSystem)
    } else if name == "specific"@ {
        Some(LogicalAddressType::Specific)
    } else if name == "unregistered"@ {
        Some(LogicalAddressType::Unregistered)
    } else {
        None
    }
}

impl LogicalAddress {
    /// The name that the address is written as: the longest of its names.
    pub open spec fn spec_name(self) -> Seq<char> {
        match self {
            LogicalAddress::Tv => "tv"@,
            LogicalAddress::RecordingDevice1 => "recording-device-1"@,
            LogicalAddress::RecordingDevice2 => "recording-device-2"@,
            LogicalAddress::Tuner1 => "tuner-1"@,
            LogicalAddress::PlaybackDevice1 => "playback-device-1"@,
            LogicalAddress::AudioSystem => "audio-system"@,
            LogicalAddress::Tuner2 => "tuner-2"@,
            LogicalAddress::Tuner3 => "tuner-3"@,
            LogicalAddress::PlaybackDevice2 => "playback-device-2"@,
            LogicalAddress::RecordingDevice3 => "recording-device-3"@,
            LogicalAddress::Tuner4 => "tuner-4"@,
            LogicalAddress::PlaybackDevice3 => "playback-device-3"@,
            LogicalAddress::Backup1 => "backup-1"@,
            LogicalAddress::Backup2 => "backup-2"@,
            LogicalAddress::Specific => "specific"@,
            LogicalAddress::UnregisteredOrBroadcast => "unregistered"@,
        }
    }

    /// The logical address that `name` names, if any.
    pub fn from_name(name: &str) -> (r: Option<LogicalAddress>)
        ensures
            r == logical_address_named(name@),
    {
        if str_equal(name, "tv") || str_equal(name, "0") {
            Some(LogicalAddress::Tv)
        } else if str_equal(name, "recording-device1") || str_equal(name, "recording-device-1") || str_equal(name, "recording-device") || str_equal(name, "1") {
            Some(LogicalAddress::RecordingDevice1)
        } else if str_equal(name, "recording-device2") || str_equal(name, "recording-device-2") || str_equal(name, "2") {
            Some(LogicalAddress::RecordingDevice2)
        } else if str_equal(name, "tuner1") || str_equal(name, "tuner-1") || str_equal(name, "tuner") || str_equal(name, "3") {
            Some(LogicalAddress::Tuner1)
        } else if str_equal(name, "playback-device1") || str_equal(name, "playback-device-1") || str_equal(name, "playback-device") || str_equal(name, "4") {
            Some(LogicalAddress::PlaybackDevice1)
        } else if str_equal(name, "audio-system") || str_equal(name, "5") {
            Some(LogicalAddress::AudioSystem)
        } else if str_equal(name, "tuner2") || str_equal(name, "tuner-2") || str_equal(name, "6") {
            Some(LogicalAddress::Tuner2)
        } else if str_equal(name, "tuner3") || str_equal(name, "tuner-3") || str_equal(name, "7") {
            Some(LogicalAddress::Tuner3)
        } else if str_equal(name, "playback-device2") || str_equal(name, "playback-device-2") || str_equal(name, "8") {
            Some(LogicalAddress::PlaybackDevice2)
        } else if str_equal(name, "recording-device3") || str_equal(name, "recording-device-3") || str_equal(name, "9") {
            Some(LogicalAddress::RecordingDevice3)
        } else if str_equal(name, "tuner4") || str_equal(name, "tuner-4") || str_equal(name, "10") || str_equal(name, "a") {
            Some(LogicalAddress::Tuner4)
        } else if str_equal(name, "playback-device3") || str_equal(name, "playback-device-3") || str_equal(name, "11") || str_equal(name, "b") {
            Some(LogicalAddress::PlaybackDevice3)
        } else if str_equal(name, "backup1") || str_equal(name, "backup-1") || str_equal(name, "12") || str_equal(name, "c") {
            Some(LogicalAddress::Backup1)
        } else if str_equal(name, "backup2") || str_equal(name, "backup-2") || str_equal(name, "13") || str_equal(name, "d") {
            Some(LogicalAddress::Backup2)
        } else if str_equal(name, "specific") || str_equal(name, "14") || str_equal(name, "e") {
            Some(LogicalAddress::Specific)
        } else if str_equal(name, "unregistered") || str_equal(name, "broadcast") || str_equal(name, "15") || str_equal(name, "f") {
            Some(LogicalAddress::UnregisteredOrBroadcast)
        } else {
            None
        }
    }

    /// The name that the address is written as: the longest of its names.
    pub fn to_string(&self) -> (r: String)
        ensures
            r@ == self.spec_name(),
    {
        let name = match self {
            LogicalAddress::Tv => "tv",
            LogicalAddress::RecordingDevice1 => "recording-device-1",
            LogicalAddress::RecordingDevice2 => "recording-device-2",
            LogicalAddress::Tuner1 => "tuner-1",
            LogicalAddress::PlaybackDevice1 => "playback-device-1",
            LogicalAddress::AudioSystem => "audio-system",
            LogicalAddress::Tuner2 => "tuner-2",
            LogicalAddress::Tuner3 => "tuner-3",
            LogicalAddress::PlaybackDevice2 => "playback-device-2",
            LogicalAddress::RecordingDevice3 => "recording-device-3",
            LogicalAddress::Tuner4 => "tuner-4",
            LogicalAddress::PlaybackDevice3 => "playback-device-3",
            LogicalAddress::Backup1 => "backup-1",
            LogicalAddress::Backup2 => "backup-2",
            LogicalAddress::Specific => "specific",
            LogicalAddress::UnregisteredOrBroadcast => "unregistered",
        };
        String::from_str(name)
    }
}

impl LogicalAddressType {
    /// The name of the type, in kebab case.
    pub open spec fn spec_name(self) -> Seq<char> {
        match self {
            LogicalAddressType::Tv => "tv"@,
            LogicalAddressType::Record => "record"@,
            LogicalAddressType::Tuner => "tuner"@,
            LogicalAddressType::Playback => "playback"@,
            LogicalAddressType::AudioSystem => "audio-system"@,
            LogicalAddressType::Specific => "specific"@,
            LogicalAddressType::Unregistered => "unregistered"@,
        }
    }

    /// The logical address type that `name` names, if any.
    pub fn from_name(name: &str) -> (r: Option<LogicalAddressType>)
        ensures
            r == logical_address_type_named(name@),
    {
        if str_equal(name, "tv") {
            Some(LogicalAddressType::Tv)
        } else if str_equal(name, "record") {
            Some(LogicalAddressType::Record)
        } else if str_equal(name, "tuner") {
            Some(LogicalAddressType::Tuner)
        } else if str_equal(name, "playback") {
            Some(LogicalAddressType::Playback)
        } else if str_equal(name, "audio-system") {
            Some(LogicalAddressType::AudioSystem)
        } else if str_equal(name, "specific") {
            Some(LogicalAddressType::Specific)
        } else if str_equal(name, "unregistered") {
            Some(LogicalAddressType::Unregistered)
        } else {
            None
        }
    }

    /// The name of the type, in kebab case.
    pub fn to_string(&self) -> (r: String)
        ensures
            r@ == self.spec_name(),
    {
        let name = match self {
            LogicalAddressType::Tv => "tv",
            LogicalAddressType::Record => "record",
            LogicalAddressType::Tuner => "tuner",
            LogicalAddressType::Playback => "playback",
            LogicalAddressType::AudioSystem => "audio-system",
            LogicalAddressType::Specific => "specific",
            LogicalAddressType::Unregistered => "unregistered",
        };
        String::from_str(name)
    }
}

/// The written name of `LogicalAddress::Tv` differs from every name of
/// the variants tested before it, so it reads back as that variant.
proof fn lemma_name_of_tv()
    ensures
        logical_address_named("tv"@) == Some(LogicalAddress::Tv),
{
    reveal_strlit("tv");
    assert("tv"@.len() == 2);
}

/// The written name of `LogicalAddress::RecordingDevice1` differs from every name of
/// the variants tested before it, so it reads back as that variant.
proof fn lemma_name_of_recording_device_1()
    ensures
        logical_address_named("recording-device-1"@) == Some(LogicalAddress::RecordingDevice1),
{
    reveal_strlit("recording-device-1");
    reveal_strlit("tv");
    reveal_strlit("0");
    assert("recording-device-1"@.len() == 18);
    assert("tv"@.len() == 2);
    assert("0"@.len() == 1);
}

/// The written name of `LogicalAddress::RecordingDevice2` differs from every name of
/// the variants tested before it, so it reads back as that variant.
proof fn lemma_name_of_recording_device_2()
    ensures
        logical_address_named("recording-device-2"@) == Some(LogicalAddress::RecordingDevice2),
{
    reveal_strlit("recording-device-2");
    reveal_strlit("tv");
    reveal_strlit("0");
    reveal_strlit("recording-device1");
    reveal_strlit("recording-device-1");
    reveal_strlit("recording-device");
    reveal_strlit("1");
    assert("recording-device-2"@.len() == 18);
    assert("tv"@.len() == 2);
    assert("0"@.len() == 1);
    assert("recording-device1"@.len() == 17);
    assert("recording-device-1"@.len() == 18);
    assert("recording-device"@.len() == 16);
    assert("1"@.len() == 1);
    assert("recording-device-2"@[17] != "recording-device-1"@[17]);
}

/// The written name of `LogicalAddress::Tuner1` differs from every name of
/// the variants tested before it, so it reads back as that variant.
proof fn lemma_name_of_tuner_1()
    ensures
        logical_address_named("tuner-1"@) == Some(LogicalAddress::Tuner1),
{
    reveal_strlit("tuner-1");
    reveal_strlit("tv");
    reveal_strlit("0");
    reveal_strlit("recording-device1");
    reveal_strlit("recording-device-1");
    reveal_strlit("recording-device");
    reveal_strlit("1");
    reveal_strlit("recording-device2");
    reveal_strlit("recording-device-2");
    reveal_strlit("2");
    assert("tuner-1"@.len() == 7);
    assert("tv"@.len() == 2);
    assert("0"@.len() == 1);
    assert("recording-device1"@.len() == 17);
    assert("recording-device-1"@.len() == 18);
    assert("recording-device"@.len() == 16);
    assert("1"@.len() == 1);
    assert("recording-device2"@.len() == 17);
    assert("recording-device-2"@.len() == 18);
    assert("2"@.len() == 1);
}

/// The written name of `LogicalAddress::PlaybackDevice1` differs from every name of
/// the variants tested before it, so it reads back as that variant.
proof fn lemma_name_of_playback_device_1()
    ensures
        logical_address_named("playback-device-1"@) == Some(LogicalAddress::PlaybackDevice1),
{
    reveal_strlit("playback-device-1");
    reveal_strlit("tv");
    reveal_strlit("0");
    reveal_strlit("recording-device1");
    reveal_strlit("recording-device-1");
    reveal_strlit("recording-device");
    reveal_strlit("1");
    reveal_strlit("recording-device2");
    reveal_strlit("recording-device-2");
    reveal_strlit("2");
    reveal_strlit("tuner1");
    reveal_strlit("tuner-1");
    reveal_strlit("tuner");
    reveal_strlit("3");
    assert("playback-device-1"@.len() == 17);
    assert("tv"@.len() == 2);
    assert("0"@.len() == 1);
    assert("recording-device1"@.len() == 17);
    assert("recording-device-1"@.len() == 18);
    assert("recording-device"@.len() == 16);
    assert("1"@.len() == 1);
    assert("recording-device2"@.len() == 17);
    assert("recording-device-2"@.len() == 18);
    assert("2"@.len() == 1);
    assert("tuner1"@.len() == 6);
    assert("tuner-1"@.len() == 7);
    assert("tuner"@.len() == 5);
    assert("3"@.len() == 1);
    assert("playback-device-1"@[0] != "recording-device1"@[0]);
    assert("playback-device-1"@[0] != "recording-device2"@[0]);
}

/// The written name of `LogicalAddress::AudioSystem` differs from every name of
/// the variants tested before it, so it reads back as that variant.
proof fn lemma_name_of_audio_system()
    ensures
        logical_address_named("audio-system"@) == Some(LogicalAddress::AudioSystem),
{
    reveal_strlit("audio-system");
    reveal_strlit("tv");
    reveal_strlit("0");
    reveal_strlit("recording-device1");
    reveal_strlit("recording-device-1");
    reveal_strlit("recording-device");
    reveal_strlit("1");
    reveal_strlit("recording-device2");
    reveal_strlit("recording-device-2");
    reveal_strlit("2");
    reveal_strlit("tuner1");
    reveal_strlit("tuner-1");
    reveal_strlit("tuner");
    reveal_strlit("3");
    reveal_strlit("playback-device1");
    reveal_strlit("playback-device-1");
    reveal_strlit("playback-device");
    reveal_strlit("4");
    assert("audio-system"@.len() == 12);
    assert("tv"@.len() == 2);
    assert("0"@.len() == 1);
    assert("recording-device1"@.len() == 17);
    assert("recording-device-1"@.len() == 18);
    assert("recording-device"@.len() == 16);
    assert("1"@.len() == 1);
    assert("recording-device2"@.len() == 17);
    assert("recording-device-2"@.len() == 18);
    assert("2"@.len() == 1);
    assert("tuner1"@.len() == 6);
    assert("tuner-1"@.len() == 7);
    assert("tuner"@.len() == 5);
    assert("3"@.len() == 1);
    assert("playback-device1"@.len() == 16);
    assert("playback-device-1"@.len() == 17);
    assert("playback-device"@.len() == 15);
    assert("4"@.len() == 1);
}

/// The written name of `LogicalAddress::Tuner2` differs from every name of
/// the variants tested before it, so it reads back as that variant.
proof fn lemma_name_of_tuner_2()
    ensures
        logical_address_named("tuner-2"@) == Some(LogicalAddress::Tuner2),
{
    reveal_strlit("tuner-2");
    reveal_strlit("tv");
    reveal_strlit("0");
    reveal_strlit("recording-device1");
    reveal_strlit("recording-device-1");
    reveal_strlit("recording-device");
    reveal_strlit("1");
    reveal_strlit("recording-device2");
    reveal_strlit("recording-device-2");
    reveal_strlit("2");
    reveal_strlit("tuner1");
    reveal_strlit("tuner-1");
    reveal_strlit("tuner");
    reveal_strlit("3");
    reveal_strlit("playback-device1");
    reveal_strlit("playback-device-1");
    reveal_strlit("playback-device");
    reveal_strlit("4");
    reveal_strlit("audio-system");
    reveal_strlit("5");
    assert("tuner-2"@.len() == 7);
    assert("tv"@.len() == 2);
    assert("0"@.len() == 1);
    assert("recording-device1"@.len() == 17);
    assert("recording-device-1"@.len() == 18);
    assert("recording-device"@.len() == 16);
    assert("1"@.len() == 1);
    assert("recording-device2"@.len() == 17);
    assert("recording-device-2"@.len() == 18);
    assert("2"@.len() == 1);
    assert("tuner1"@.len() == 6);
    assert("tuner-1"@.len() == 7);
    assert("tuner"@.len() == 5);
    assert("3"@.len() == 1);
    assert("playback-device1"@.len() == 16);
    assert("playback-device-1"@.len() == 17);
    assert("playback-device"@.len() == 15);
    assert("4"@.len() == 1);
    assert("audio-system"@.len() == 12);
    assert("5"@.len() == 1);
    assert("tuner-2"@[6] != "tuner-1"@[6]);
}

/// The written name of `LogicalAddress::Tuner3` differs from every name of
/// the variants tested before it, so it reads back as that variant.
proof fn lemma_name_of_tuner_3()
    ensures
        logical_address_named("tuner-3"@) == Some(LogicalAddress::Tuner3),
{
    reveal_strlit("tuner-3");
    reveal_strlit("tv");
    reveal_strlit("0");
    reveal_strlit("recording-device1");
    reveal_strlit("recording-device-1");
    reveal_strlit("recording-device");
    reveal_strlit("1");
    reveal_strlit("recording-device2");
    reveal_strlit("recording-device-2");
    reveal_strlit("2");
    reveal_strlit("tuner1");
    reveal_strlit("tuner-1");
    reveal_strlit("tuner");
    reveal_strlit("3");
    reveal_strlit("playback-device1");
    reveal_strlit("playback-device-1");
    reveal_strlit("playback-device");
    reveal_strlit("4");
    reveal_strlit("audio-system");
    reveal_strlit("5");
    reveal_strlit("tuner2");
    reveal_strlit("tuner-2");
    reveal_strlit("6");
    assert("tuner-3"@.len() == 7);
    assert("tv"@.len() == 2);
    assert("0"@.len() == 1);
    assert("recording-device1"@.len() == 17);
    assert("recording-device-1"@.len() == 18);
    assert("recording-device"@.len() == 16);
    assert("1"@.len() == 1);
    assert("recording-device2"@.len() == 17);
    assert("recording-device-2"@.len() == 18);
    assert("2"@.len() == 1);
    assert("tuner1"@.len() == 6);
    assert("tuner-1"@.len() == 7);
    assert("tuner"@.len() == 5);
    assert("3"@.len() == 1);
    assert("playback-device1"@.len() == 16);
    assert("playback-device-1"@.len() == 17);
    assert("playback-device"@.len() == 15);
    assert("4"@.len() == 1);
    assert("audio-system"@.len() == 12);
    assert("5"@.len() == 1);
    assert("tuner2"@.len() == 6);
    assert("tuner-2"@.len() == 7);
    assert("6"@.len() == 1);
    assert("tuner-3"@[6] != "tuner-1"@[6]);
    assert("tuner-3"@[6] != "tuner-2"@[6]);
}

/// The written name of `LogicalAddress::PlaybackDevice2` differs from every name of
/// the variants tested before it, so it reads back as that variant.
proof fn lemma_name_of_playback_device_2()
    ensures
        logical_address_named("playback-device-2"@) == Some(LogicalAddress::PlaybackDevice2),
{
    reveal_strlit("playback-device-2");
    reveal_strlit("tv");
    reveal_strlit("0");
    reveal_strlit("recording-device1");
    reveal_strlit("recording-device-1");
    reveal_strlit("recording-device");
    reveal_strlit("1");
    reveal_strlit("recording-device2");
    reveal_strlit("recording-device-2");
    reveal_strlit("2");
    reveal_strlit("tuner1");
    reveal_strlit("tuner-1");
    reveal_strlit("tuner");
    reveal_strlit("3");
    reveal_strlit("playback-device1");
    reveal_strlit("playback-device-1");
    reveal_strlit("playback-device");
    reveal_strlit("4");
    reveal_strlit("audio-system");
    reveal_strlit("5");
    reveal_strlit("tuner2");
    reveal_strlit("tuner-2");
    reveal_strlit("6");
    reveal_strlit("tuner3");
    reveal_strlit("tuner-3");
    reveal_strlit("7");
    assert("playback-device-2"@.len() == 17);
    assert("tv"@.len() == 2);
    assert("0"@.len() == 1);
    assert("recording-device1"@.len() == 17);
    assert("recording-device-1"@.len() == 18);
    assert("recording-device"@.len() == 16);
    assert("1"@.len() == 1);
    assert("recording-device2"@.len() == 17);
    assert("recording-device-2"@.len() == 18);
    assert("2"@.len() == 1);
    assert("tuner1"@.len() == 6);
    assert("tuner-1"@.len() == 7);
    assert("tuner"@.len() == 5);
    assert("3"@.len() == 1);
    assert("playback-device1"@.len() == 16);
    assert("playback-device-1"@.len() == 17);
    assert("playback-device"@.len() == 15);
    assert("4"@.len() == 1);
    assert("audio-system"@.len() == 12);
    assert("5"@.len() == 1);
    assert("tuner2"@.len() == 6);
    assert("tuner-2"@.len() == 7);
    assert("6"@.len() == 1);
    assert("tuner3"@.len() == 6);
    assert("tuner-3"@.len() == 7);
    assert("7"@.len() == 1);
    assert("playback-device-2"@[0] != "recording-device1"@[0]);
    assert("playback-device-2"@[0] != "recording-device2"@[0]);
    assert("playback-device-2"@[16] != "playback-device-1"@[16]);
}

/// The written name of `LogicalAddress::RecordingDevice3` differs from every name of
/// the variants tested before it, so it reads back as that variant.
proof fn lemma_name_of_recording_device_3()
    ensures
        logical_address_named("recording-device-3"@) == Some(LogicalAddress::RecordingDevice3),
{
    reveal_strlit("recording-device-3");
    reveal_strlit("tv");
    reveal_strlit("0");
    reveal_strlit("recording-device1");
    reveal_strlit("recording-device-1");
    reveal_strlit("recording-device");
    reveal_strlit("1");
    reveal_strlit("recording-device2");
    reveal_strlit("recording-device-2");
    reveal_strlit("2");
    reveal_strlit("tuner1");
    reveal_strlit("tuner-1");
    reveal_strlit("tuner");
    reveal_strlit("3");
    reveal_strlit("playback-device1");
    reveal_strlit("playback-device-1");
    reveal_strlit("playback-device");
    reveal_strlit("4");
    reveal_strlit("audio-system");
    reveal_strlit("5");
    reveal_strlit("tuner2");
    reveal_strlit("tuner-2");
    reveal_strlit("6");
    reveal_strlit("tuner3");
    reveal_strlit("tuner-3");
    reveal_strlit("7");
    reveal_strlit("playback-device2");
    reveal_strlit("playback-device-2");
    reveal_strlit("8");
    assert("recording-device-3"@.len() == 18);
    assert("tv"@.len() == 2);
    assert("0"@.len() == 1);
    assert("recording-device1"@.len() == 17);
    assert("recording-device-1"@.len() == 18);
    assert("recording-device"@.len() == 16);
    assert("1"@.len() == 1);
    assert("recording-device2"@.len() == 17);
    assert("recording-device-2"@.len() == 18);
    assert("2"@.len() == 1);
    assert("tuner1"@.len() == 6);
    assert("tuner-1"@.len() == 7);
    assert("tuner"@.len() == 5);
    assert("3"@.len() == 1);
    assert("playback-device1"@.len() == 16);
    assert("playback-device-1"@.len() == 17);
    assert("playback-device"@.len() == 15);
    assert("4"@.len() == 1);
    assert("audio-system"@.len() == 12);
    assert("5"@.len() == 1);
    assert("tuner2"@.len() == 6);
    assert("tuner-2"@.len() == 7);
    assert("6"@.len() == 1);
    assert("tuner3"@.len() == 6);
    assert("tuner-3"@.len() == 7);
    assert("7"@.len() == 1);
    assert("playback-device2"@.len() == 16);
    assert("playback-device-2"@.len() == 17);
    assert("8"@.len() == 1);
    assert("recording-device-3"@[17] != "recording-device-1"@[17]);
    assert("recording-device-3"@[17] != "recording-device-2"@[17]);
}

/// The written name of `LogicalAddress::Tuner4` differs from every name of
/// the variants tested before it, so it reads back as that variant.
proof fn lemma_name_of_tuner_4()
    ensures
        logical_address_named("tuner-4"@) == Some(LogicalAddress::Tuner4),
{
    reveal_strlit("tuner-4");
    reveal_strlit("tv");
    reveal_strlit("0");
    reveal_strlit("recording-device1");
    reveal_strlit("recording-device-1");
    reveal_strlit("recording-device");
    reveal_strlit("1");
    reveal_strlit("recording-device2");
    reveal_strlit("recording-device-2");
    reveal_strlit("2");
    reveal_strlit("tuner1");
    reveal_strlit("tuner-1");
    reveal_strlit("tuner");
    reveal_strlit("3");
    reveal_strlit("playback-device1");
    reveal_strlit("playback-device-1");
    reveal_strlit("playback-device");
    reveal_strlit("4");
    reveal_strlit("audio-system");
    reveal_strlit("5");
    reveal_strlit("tuner2");
    reveal_strlit("tuner-2");
    reveal_strlit("6");
    reveal_strlit("tuner3");
    reveal_strlit("tuner-3");
    reveal_strlit("7");
    reveal_strlit("playback-device2");
    reveal_strlit("playback-device-2");
    reveal_strlit("8");
    reveal_strlit("recording-device3");
    reveal_strlit("recording-device-3");
    reveal_strlit("9");
    assert("tuner-4"@.len() == 7);
    assert("tv"@.len() == 2);
    assert("0"@.len() == 1);
    assert("recording-device1"@.len() == 17);
    assert("recording-device-1"@.len() == 18);
    assert("recording-device"@.len() == 16);
    assert("1"@.len() == 1);
    assert("recording-device2"@.len() == 17);
    assert("recording-device-2"@.len() == 18);
    assert("2"@.len() == 1);
    assert("tuner1"@.len() == 6);
    assert("tuner-1"@.len() == 7);
    assert("tuner"@.len() == 5);
    assert("3"@.len() == 1);
    assert("playback-device1"@.len() == 16);
    assert("playback-device-1"@.len() == 17);
    assert("playback-device"@.len() == 15);
    assert("4"@.len() == 1);
    assert("audio-system"@.len() == 12);
    assert("5"@.len() == 1);
    assert("tuner2"@.len() == 6);
    assert("tuner-2"@.len() == 7);
    assert("6"@.len() == 1);
    assert("tuner3"@.len() == 6);
    assert("tuner-3"@.len() == 7);
    assert("7"@.len() == 1);
    assert("playback-device2"@.len() == 16);
    assert("playback-device-2"@.len() == 17);
    assert("8"@.len() == 1);
    assert("recording-device3"@.len() == 17);
    assert("recording-device-3"@.len() == 18);
    assert("9"@.len() == 1);
    assert("tuner-4"@[6] != "tuner-1"@[6]);
    assert("tuner-4"@[6] != "tuner-2"@[6]);
    assert("tuner-4"@[6] != "tuner-3"@[6]);
}

/// The written name of `LogicalAddress::PlaybackDevice3` differs from every name of
/// the variants tested before it, so it reads back as that variant.
proof fn lemma_name_of_playback_device_3()
    ensures
        logical_address_named("playback-device-3"@) == Some(LogicalAddress::PlaybackDevice3),
{
    reveal_strlit("playback-device-3");
    reveal_strlit("tv");
    reveal_strlit("0");
    reveal_strlit("recording-device1");
    reveal_strlit("recording-device-1");
    reveal_strlit("recording-device");
    reveal_strlit("1");
    reveal_strlit("recording-device2");
    reveal_strlit("recording-device-2");
    reveal_strlit("2");
    reveal_strlit("tuner1");
    reveal_strlit("tuner-1");
    reveal_strlit("tuner");
    reveal_strlit("3");
    reveal_strlit("playback-device1");
    reveal_strlit("playback-device-1");
    reveal_strlit("playback-device");
    reveal_strlit("4");
    reveal_strlit("audio-system");
    reveal_strlit("5");
    reveal_strlit("tuner2");
    reveal_strlit("tuner-2");
    reveal_strlit("6");
    reveal_strlit("tuner3");
    reveal_strlit("tuner-3");
    reveal_strlit("7");
    reveal_strlit("playback-device2");
    reveal_strlit("playback-device-2");
    reveal_strlit("8");
    reveal_strlit("recording-device3");
    reveal_strlit("recording-device-3");
    reveal_strlit("9");
    reveal_strlit("tuner4");
    reveal_strlit("tuner-4");
    reveal_strlit("10");
    reveal_strlit("a");
    assert("playback-device-3"@.len() == 17);
    assert("tv"@.len() == 2);
    assert("0"@.len() == 1);
    assert("recording-device1"@.len() == 17);
    assert("recording-device-1"@.len() == 18);
    assert("recording-device"@.len() == 16);
    assert("1"@.len() == 1);
    assert("recording-device2"@.len() == 17);
    assert("recording-device-2"@.len() == 18);
    assert("2"@.len() == 1);
    assert("tuner1"@.len() == 6);
    assert("tuner-1"@.len() == 7);
    assert("tuner"@.len() == 5);
    assert("3"@.len() == 1);
    assert("playback-device1"@.len() == 16);
    assert("playback-device-1"@.len() == 17);
    assert("playback-device"@.len() == 15);
    assert("4"@.len() == 1);
    assert("audio-system"@.len() == 12);
    assert("5"@.len() == 1);
    assert("tuner2"@.len() == 6);
    assert("tuner-2"@.len() == 7);
    assert("6"@.len() == 1);
    assert("tuner3"@.len() == 6);
    assert("tuner-3"@.len() == 7);
    assert("7"@.len() == 1);
    assert("playback-device2"@.len() == 16);
    assert("playback-device-2"@.len() == 17);
    assert("8"@.len() == 1);
    assert("recording-device3"@.len() == 17);
    assert("recording-device-3"@.len() == 18);
    assert("9"@.len() == 1);
    assert("tuner4"@.len() == 6);
    assert("tuner-4"@.len() == 7);
    assert("10"@.len() == 2);
    assert("a"@.len() == 1);
    assert("playback-device-3"@[0] != "recording-device1"@[0]);
    assert("playback-device-3"@[0] != "recording-device2"@[0]);
    assert("playback-device-3"@[16] != "playback-device-1"@[16]);
    assert("playback-device-3"@[16] != "playback-device-2"@[16]);
    assert("playback-device-3"@[0] != "recording-device3"@[0]);
}

/// The written name of `LogicalAddress::Backup1` differs from every name of
/// the variants tested before it, so it reads back as that variant.
proof fn lemma_name_of_backup_1()
    ensures
        logical_address_named("backup-1"@) == Some(LogicalAddress::Backup1),
{
    reveal_strlit("backup-1");
    reveal_strlit("tv");
    reveal_strlit("0");
    reveal_strlit("recording-device1");
    reveal_strlit("recording-device-1");
    reveal_strlit("recording-device");
    reveal_strlit("1");
    reveal_strlit("recording-device2");
    reveal_strlit("recording-device-2");
    reveal_strlit("2");
    reveal_strlit("tuner1");
    reveal_strlit("tuner-1");
    reveal_strlit("tuner");
    reveal_strlit("3");
    reveal_strlit("playback-device1");
    reveal_strlit("playback-device-1");
    reveal_strlit("playback-device");
    reveal_strlit("4");
    reveal_strlit("audio-system");
    reveal_strlit("5");
    reveal_strlit("tuner2");
    reveal_strlit("tuner-2");
    reveal_strlit("6");
    reveal_strlit("tuner3");
    reveal_strlit("tuner-3");
    reveal_strlit("7");
    reveal_strlit("playback-device2");
    reveal_strlit("playback-device-2");
    reveal_strlit("8");
    reveal_strlit("recording-device3");
    reveal_strlit("recording-device-3");
    reveal_strlit("9");
    reveal_strlit("tuner4");
    reveal_strlit("tuner-4");
    reveal_strlit("10");
    reveal_strlit("a");
    reveal_strlit("playback-device3");
    reveal_strlit("playback-device-3");
    reveal_strlit("11");
    reveal_strlit("b");
    assert("backup-1"@.len() == 8);
    assert("tv"@.len() == 2);
    assert("0"@.len() == 1);
    assert("recording-device1"@.len() == 17);
    assert("recording-device-1"@.len() == 18);
    assert("recording-device"@.len() == 16);
    assert("1"@.len() == 1);
    assert("recording-device2"@.len() == 17);
    assert("recording-device-2"@.len() == 18);
    assert("2"@.len() == 1);
    assert("tuner1"@.len() == 6);
    assert("tuner-1"@.len() == 7);
    assert("tuner"@.len() == 5);
    assert("3"@.len() == 1);
    assert("playback-device1"@.len() == 16);
    assert("playback-device-1"@.len() == 17);
    assert("playback-device"@.len() == 15);
    assert("4"@.len() == 1);
    assert("audio-system"@.len() == 12);
    assert("5"@.len() == 1);
    assert("tuner2"@.len() == 6);
    assert("tuner-2"@.len() == 7);
    assert("6"@.len() == 1);
    assert("tuner3"@.len() == 6);
    assert("tuner-3"@.len() == 7);
    assert("7"@.len() == 1);
    assert("playback-device2"@.len() == 16);
    assert("playback-device-2"@.len() == 17);
    assert("8"@.len() == 1);
    assert("recording-device3"@.len() == 17);
    assert("recording-device-3"@.len() == 18);
    assert("9"@.len() == 1);
    assert("tuner4"@.len() == 6);
    assert("tuner-4"@.len() == 7);
    assert("10"@.len() == 2);
    assert("a"@.len() == 1);
    assert("playback-device3"@.len() == 16);
    assert("playback-device-3"@.len() == 17);
    assert("11"@.len() == 2);
    assert("b"@.len() == 1);
}

/// The written name of `LogicalAddress::Backup2` differs from every name of
/// the variants tested before it, so it reads back as that variant.
proof fn lemma_name_of_backup_2()
    ensures
        logical_address_named("backup-2"@) == Some(LogicalAddress::Backup2),
{
    reveal_strlit("backup-2");
    reveal_strlit("tv");
    reveal_strlit("0");
    reveal_strlit("recording-device1");
    reveal_strlit("recording-device-1");
    reveal_strlit("recording-device");
    reveal_strlit("1");
    reveal_strlit("recording-device2");
    reveal_strlit("recording-device-2");
    reveal_strlit("2");
    reveal_strlit("tuner1");
    reveal_strlit("tuner-1");
    reveal_strlit("tuner");
    reveal_strlit("3");
    reveal_strlit("playback-device1");
    reveal_strlit("playback-device-1");
    reveal_strlit("playback-device");
    reveal_strlit("4");
    reveal_strlit("audio-system");
    reveal_strlit("5");
    reveal_strlit("tuner2");
    reveal_strlit("tuner-2");
    reveal_strlit("6");
    reveal_strlit("tuner3");
    reveal_strlit("tuner-3");
    reveal_strlit("7");
    reveal_strlit("playback-device2");
    reveal_strlit("playback-device-2");
    reveal_strlit("8");
    reveal_strlit("recording-device3");
    reveal_strlit("recording-device-3");
    reveal_strlit("9");
    reveal_strlit("tuner4");
    reveal_strlit("tuner-4");
    reveal_strlit("10");
    reveal_strlit("a");
    reveal_strlit("playback-device3");
    reveal_strlit("playback-device-3");
    reveal_strlit("11");
    reveal_strlit("b");
    reveal_strlit("backup1");
    reveal_strlit("backup-1");
    reveal_strlit("12");
    reveal_strlit("c");
    assert("backup-2"@.len() == 8);
    assert("tv"@.len() == 2);
    assert("0"@.len() == 1);
    assert("recording-device1"@.len() == 17);
    assert("recording-device-1"@.len() == 18);
    assert("recording-device"@.len() == 16);
    assert("1"@.len() == 1);
    assert("recording-device2"@.len() == 17);
    assert("recording-device-2"@.len() == 18);
    assert("2"@.len() == 1);
    assert("tuner1"@.len() == 6);
    assert("tuner-1"@.len() == 7);
    assert("tuner"@.len() == 5);
    assert("3"@.len() == 1);
    assert("playback-device1"@.len() == 16);
    assert("playback-device-1"@.len() == 17);
    assert("playback-device"@.len() == 15);
    assert("4"@.len() == 1);
    assert("audio-system"@.len() == 12);
    assert("5"@.len() == 1);
    assert("tuner2"@.len() == 6);
    assert("tuner-2"@.len() == 7);
    assert("6"@.len() == 1);
    assert("tuner3"@.len() == 6);
    assert("tuner-3"@.len() == 7);
    assert("7"@.len() == 1);
    assert("playback-device2"@.len() == 16);
    assert("playback-device-2"@.len() == 17);
    assert("8"@.len() == 1);
    assert("recording-device3"@.len() == 17);
    assert("recording-device-3"@.len() == 18);
    assert("9"@.len() == 1);
    assert("tuner4"@.len() == 6);
    assert("tuner-4"@.len() == 7);
    assert("10"@.len() == 2);
    assert("a"@.len() == 1);
    assert("playback-device3"@.len() == 16);
    assert("playback-device-3"@.len() == 17);
    assert("11"@.len() == 2);
    assert("b"@.len() == 1);
    assert("backup1"@.len() == 7);
    assert("backup-1"@.len() == 8);
    assert("12"@.len() == 2);
    assert("c"@.len() == 1);
    assert("backup-2"@[7] != "backup-1"@[7]);
}

/// The written name of `LogicalAddress::Specific` differs from every name of
/// the variants tested before it, so it reads back as that variant.
proof fn lemma_name_of_specific()
    ensures
        logical_address_named("specific"@) == Some(LogicalAddress::Specific),
{
    reveal_strlit("specific");
    reveal_strlit("tv");
    reveal_strlit("0");
    reveal_strlit("recording-device1");
    reveal_strlit("recording-device-1");
    reveal_strlit("recording-device");
    reveal_strlit("1");
    reveal_strlit("recording-device2");
    reveal_strlit("recording-device-2");
    reveal_strlit("2");
    reveal_strlit("tuner1");
    reveal_strlit("tuner-1");
    reveal_strlit("tuner");
    reveal_strlit("3");
    reveal_strlit("playback-device1");
    reveal_strlit("playback-device-1");
    reveal_strlit("playback-device");
    reveal_strlit("4");
    reveal_strlit("audio-system");
    reveal_strlit("5");
    reveal_strlit("tuner2");
    reveal_strlit("tuner-2");
    reveal_strlit("6");
    reveal_strlit("tuner3");
    reveal_strlit("tuner-3");
    reveal_strlit("7");
    reveal_strlit("playback-device2");
    reveal_strlit("playback-device-2");
    reveal_strlit("8");
    reveal_strlit("recording-device3");
    reveal_strlit("recording-device-3");
    reveal_strlit("9");
    reveal_strlit("tuner4");
    reveal_strlit("tuner-4");
    reveal_strlit("10");
    reveal_strlit("a");
    reveal_strlit("playback-device3");
    reveal_strlit("playback-device-3");
    reveal_strlit("11");
    reveal_strlit("b");
    reveal_strlit("backup1");
    reveal_strlit("backup-1");
    reveal_strlit("12");
    reveal_strlit("c");
    reveal_strlit("backup2");
    reveal_strlit("backup-2");
    reveal_strlit("13");
    reveal_strlit("d");
    assert("specific"@.len() == 8);
    assert("tv"@.len() == 2);
    assert("0"@.len() == 1);
    assert("recording-device1"@.len() == 17);
    assert("recording-device-1"@.len() == 18);
    assert("recording-device"@.len() == 16);
    assert("1"@.len() == 1);
    assert("recording-device2"@.len() == 17);
    assert("recording-device-2"@.len() == 18);
    assert("2"@.len() == 1);
    assert("tuner1"@.len() == 6);
    assert("tuner-1"@.len() == 7);
    assert("tuner"@.len() == 5);
    assert("3"@.len() == 1);
    assert("playback-device1"@.len() == 16);
    assert("playback-device-1"@.len() == 17);
    assert("playback-device"@.len() == 15);
    assert("4"@.len() == 1);
    assert("audio-system"@.len() == 12);
    assert("5"@.len() == 1);
    assert("tuner2"@.len() == 6);
    assert("tuner-2"@.len() == 7);
    assert("6"@.len() == 1);
    assert("tuner3"@.len() == 6);
    assert("tuner-3"@.len() == 7);
    assert("7"@.len() == 1);
    assert("playback-device2"@.len() == 16);
    assert("playback-device-2"@.len() == 17);
    assert("8"@.len() == 1);
    assert("recording-device3"@.len() == 17);
    assert("recording-device-3"@.len() == 18);
    assert("9"@.len() == 1);
    assert("tuner4"@.len() == 6);
    assert("tuner-4"@.len() == 7);
    assert("10"@.len() == 2);
    assert("a"@.len() == 1);
    assert("playback-device3"@.len() == 16);
    assert("playback-device-3"@.len() == 17);
    assert("11"@.len() == 2);
    assert("b"@.len() == 1);
    assert("backup1"@.len() == 7);
    assert("backup-1"@.len() == 8);
    assert("12"@.len() == 2);
    assert("c"@.len() == 1);
    assert("backup2"@.len() == 7);
    assert("backup-2"@.len() == 8);
    assert("13"@.len() == 2);
    assert("d"@.len() == 1);
    assert("specific"@[0] != "backup-1"@[0]);
    assert("specific"@[0] != "backup-2"@[0]);
}

/// The written name of `LogicalAddress::UnregisteredOrBroadcast` differs from every name of
/// the variants tested before it, so it reads back as that variant.
proof fn lemma_name_of_unregistered_or_broadcast()
    ensures
        logical_address_named("unregistered"@) == Some(LogicalAddress::UnregisteredOrBroadcast),
{
    reveal_strlit("unregistered");
    reveal_strlit("tv");
    reveal_strlit("0");
    reveal_strlit("recording-device1");
    reveal_strlit("recording-device-1");
    reveal_strlit("recording-device");
    reveal_strlit("1");
    reveal_strlit("recording-device2");
    reveal_strlit("recording-device-2");
    reveal_strlit("2");
    reveal_strlit("tuner1");
    reveal_strlit("tuner-1");
    reveal_strlit("tuner");
    reveal_strlit("3");
    reveal_strlit("playback-device1");
    reveal_strlit("playback-device-1");
    reveal_strlit("playback-device");
    reveal_strlit("4");
    reveal_strlit("audio-system");
    reveal_strlit("5");
    reveal_strlit("tuner2");
    reveal_strlit("tuner-2");
    reveal_strlit("6");
    reveal_strlit("tuner3");
    reveal_strlit("tuner-3");
    reveal_strlit("7");
    reveal_strlit("playback-device2");
    reveal_strlit("playback-device-2");
    reveal_strlit("8");
    reveal_strlit("recording-device3");
    reveal_strlit("recording-device-3");
    reveal_strlit("9");
    reveal_strlit("tuner4");
    reveal_strlit("tuner-4");
    reveal_strlit("10");
    reveal_strlit("a");
    reveal_strlit("playback-device3");
    reveal_strlit("playback-device-3");
    reveal_strlit("11");
    reveal_strlit("b");
    reveal_strlit("backup1");
    reveal_strlit("backup-1");
    reveal_strlit("12");
    reveal_strlit("c");
    reveal_strlit("backup2");
    reveal_strlit("backup-2");
    reveal_strlit("13");
    reveal_strlit("d");
    reveal_strlit("specific");
    reveal_strlit("14");
    reveal_strlit("e");
    assert("unregistered"@.len() == 12);
    assert("tv"@.len() == 2);
    assert("0"@.len() == 1);
    assert("recording-device1"@.len() == 17);
    assert("recording-device-1"@.len() == 18);
    assert("recording-device"@.len() == 16);
    assert("1"@.len() == 1);
    assert("recording-device2"@.len() == 17);
    assert("recording-device-2"@.len() == 18);
    assert("2"@.len() == 1);
    assert("tuner1"@.len() == 6);
    assert("tuner-1"@.len() == 7);
    assert("tuner"@.len() == 5);
    assert("3"@.len() == 1);
    assert("playback-device1"@.len() == 16);
    assert("playback-device-1"@.len() == 17);
    assert("playback-device"@.len() == 15);
    assert("4"@.len() == 1);
    assert("audio-system"@.len() == 12);
    assert("5"@.len() == 1);
    assert("tuner2"@.len() == 6);
    assert("tuner-2"@.len() == 7);
    assert("6"@.len() == 1);
    assert("tuner3"@.len() == 6);
    assert("tuner-3"@.len() == 7);
    assert("7"@.len() == 1);
    assert("playback-device2"@.len() == 16);
    assert("playback-device-2"@.len() == 17);
    assert("8"@.len() == 1);
    assert("recording-device3"@.len() == 17);
    assert("recording-device-3"@.len() == 18);
    assert("9"@.len() == 1);
    assert("tuner4"@.len() == 6);
    assert("tuner-4"@.len() == 7);
    assert("10"@.len() == 2);
    assert("a"@.len() == 1);
    assert("playback-device3"@.len() == 16);
    assert("playback-device-3"@.len() == 17);
    assert("11"@.len() == 2);
    assert("b"@.len() == 1);
    assert("backup1"@.len() == 7);
    assert("backup-1"@.len() == 8);
    assert("12"@.len() == 2);
    assert("c"@.len() == 1);
    assert("backup2"@.len() == 7);
    assert("backup-2"@.len() == 8);
    assert("13"@.len() == 2);
    assert("d"@.len() == 1);
    assert("specific"@.len() == 8);
    assert("14"@.len() == 2);
    assert("e"@.len() == 1);
    assert("unregistered"@[0] != "audio-system"@[0]);
}

/// The name that a logical address is written as reads back as that
/// address.
pub proof fn lemma_logical_address_name_roundtrip(a: LogicalAddress)
    ensures
        logical_address_named(a.spec_name()) == Some(a),
{
    match a {
        LogicalAddress::Tv => lemma_name_of_tv(),
        LogicalAddress::RecordingDevice1 => lemma_name_of_recording_device_1(),
        LogicalAddress::RecordingDevice2 => lemma_name_of_recording_device_2(),
        LogicalAddress::Tuner1 => lemma_name_of_tuner_1(),
        LogicalAddress::PlaybackDevice1 => lemma_name_of_playback_device_1(),
        LogicalAddress::AudioSystem => lemma_name_of_audio_system(),
        LogicalAddress::Tuner2 => lemma_name_of_tuner_2(),
        LogicalAddress::Tuner3 => lemma_name_of_tuner_3(),
        LogicalAddress::PlaybackDevice2 => lemma_name_of_playback_device_2(),
        LogicalAddress::RecordingDevice3 => lemma_name_of_recording_device_3(),
        LogicalAddress::Tuner4 => lemma_name_of_tuner_4(),
        LogicalAddress::PlaybackDevice3 => lemma_name_of_playback_device_3(),
        LogicalAddress::Backup1 => lemma_name_of_backup_1(),
        LogicalAddress::Backup2 => lemma_name_of_backup_2(),
        LogicalAddress::Specific => lemma_name_of_specific(),
        LogicalAddress::UnregisteredOrBroadcast => lemma_name_of_unregistered_or_broadcast(),
    }
}

/// The name of a logical address type reads back as that type.
pub proof fn lemma_logical_address_type_name_roundtrip(t: LogicalAddressType)
    ensures
        logical_address_type_named(t.spec_name()) == Some(t),
{
    reveal_strlit("tv");
    reveal_strlit("record");
    reveal_strlit("tuner");
    reveal_strlit("playback");
    reveal_strlit("audio-system");
    reveal_strlit("specific");
    reveal_strlit("unregistered");
    assert("tv"@.len() == 2);
    assert("record"@.len() == 6);
    assert("tuner"@.len() == 5);
    assert("playback"@.len() == 8);
    assert("audio-system"@.len() == 12);
    assert("specific"@.len() == 8);
    assert("unregistered"@.len() == 12);
    assert("specific"@[0] != "playback"@[0]);
    assert("unregistered"@[0] != "audio-system"@[0]);
    match t {
        LogicalAddressType::Tv => assert(logical_address_type_named("tv"@) == Some(t)),
        LogicalAddressType::Record => assert(logical_address_type_named("record"@) == Some(t)),
        LogicalAddressType::Tuner => assert(logical_address_type_named("tuner"@) == Some(t)),
        LogicalAddressType::Playback => assert(logical_address_type_named("playback"@) == Some(t)),
        LogicalAddressType::AudioSystem => assert(logical_address_type_named("audio-system"@) == Some(t)),
        LogicalAddressType::Specific => assert(logical_address_type_named("specific"@) == Some(t)),
        LogicalAddressType::Unregistered => assert(logical_address_type_named("unregistered"@) == Some(t)),
    }
}

impl core::str::FromStr for LogicalAddress {
    type Err = strum::ParseError;

    fn from_str(name: &str) -> (r: Result<LogicalAddress, strum::ParseError>)
        ensures
            r is Ok <==> logical_address_named(name@) is Some,
            r matches Ok(a) ==> logical_address_named(name@) == Some(a),
    {
        match LogicalAddress::from_name(name) {
            Some(a) => Ok(a),
            None => Err(variant_not_found()),
        }
    }
}

impl core::str::FromStr for LogicalAddressType {
    type Err = strum::ParseError;

    fn from_str(name: &str) -> (r: Result<LogicalAddressType, strum::ParseError>)
        ensures
            r is Ok <==> logical_address_type_named(name@) is Some,
            r matches Ok(t) ==> logical_address_type_named(name@) == Some(t),
    {
        match LogicalAddressType::from_name(name) {
            Some(t) => Ok(t),
            None => Err(variant_not_found()),
        }
    }
}

/// How a device acts as an initiator, that is, whether it may send messages.
#[derive(Clone, Copy, Debug, PartialEq, Eq, Structural, Hash)]
pub enum InitiatorMode {
    /// Do not act as an initiator.
    Disabled,
    /// Act as an initiator.
    Enabled,
    /// Act as an initiator and disallow other processes acting as an
    /// initiator while the device is open.
    Exclusive,
}

/// How a device acts as a follower, that is, how it handles the messages
/// that it receives.
#[derive(Clone, Copy, Debug, PartialEq, Eq, Structural, Hash)]
pub enum FollowerMode {
    /// Do not act as a follower.
    Disabled,
    /// Act as a follower.
    Enabled,
    /// Act as a follower and disallow other processes acting as a follower
    /// while the device is open.
    Exclusive,
    /// Act as a follower and pass through all messages, bypassing the
    /// processing that the kernel would otherwise do.
    ExclusivePassthru,
    /// Monitor the pins of the connector.
    MonitorPin,
    /// Monitor all messages on the bus, not only those addressed to this
    /// device and broadcast messages.
    Monitor,
    /// Monitor the pins and all messages on the bus.
    MonitorAll,
}

/// A unique 16-bit value that refers to a single device in the topology of
/// the CEC network.
#[derive(Clone, Copy, Debug, PartialEq, Eq, Structural, Hash)]
pub struct PhysicalAddress(pub u16);

impl PhysicalAddress {
    /// The 16-bit value of the address.
    pub open spec fn value(self) -> u16 {
        self.0
    }

    /// The 16-bit value of the address.
    pub fn to_u16(self) -> (r: u16)
        ensures
            r == self.value(),
    {
        self.0
    }

    /// The address with the 16-bit value `v`.
    pub fn from_u16(v: u16) -> (r: PhysicalAddress)
        ensures
            r.value() == v,
    {
        PhysicalAddress(v)
    }
}

impl PhysicalAddress {
    /// The four nibbles of the address, most significant first.
    pub open spec fn nibble(self, i: int) -> u8 {
        ((self.0 >> ((12 - 4 * i) as u16)) & 0xFu16) as u8
    }

    /// The address as its four nibbles in hexadecimal, separated by dots,
    /// such as `1.0.0.0`.
    pub open spec fn text(self) -> Seq<char> {
        seq![
            hex_char(self.nibble(0)),
            '.',
            hex_char(self.nibble(1)),
            '.',
            hex_char(self.nibble(2)),
            '.',
            hex_char(self.nibble(3)),
        ]
    }

    /// The address as its four nibbles in hexadecimal, separated by dots,
    /// such as `1.0.0.0`.
    pub fn to_string(&self) -> (r: String)
        ensures
            r@ == self.text(),
    {
        let v = self.0;
        let mut s = String::new();
        let mut i: u16 = 0;
        while i < 4
            invariant
                i <= 4,
                v == self.0,
                s@ == self.text().subrange(0, if i == 0 { 0 } else { 2 * i - 1 }),
            decreases 4 - i,
        {
            if i > 0 {
                proof {
                    reveal_strlit(".");
                }
                s.append(".");
            }
            let shift: u16 = 12 - 4 * i;
            assert((v >> shift) & 0xFu16 < 16) by (bit_vector);
            let d = ((v >> shift) & 0xF) as u8;
            assert(d == self.nibble(i as int));
            push_hex_digit(&mut s, d);
            assert(s@ =~= self.text().subrange(0, 2 * i + 1));
            i = i + 1;
        }
        assert(s@ =~= self.text());
        s
    }
}

impl Default for PhysicalAddress {
    fn default() -> (r: PhysicalAddress)
        ensures
            r.value() == 0xffff,
    {
        PhysicalAddress(0xFFFF)
    }
}

impl From<u16> for PhysicalAddress {
    fn from(v: u16) -> (r: PhysicalAddress) {
        PhysicalAddress(v)
    }
}

impl vstd::std_specs::convert::FromSpecImpl<u16> for PhysicalAddress {
    open spec fn obeys_from_spec() -> bool {
        true
    }

    open spec fn from_spec(v: u16) -> PhysicalAddress {
        PhysicalAddress(v)
    }
}

impl From<PhysicalAddress> for u16 {
    fn from(v: PhysicalAddress) -> (r: u16) {
        v.0
    }
}

impl vstd::std_specs::convert::FromSpecImpl<PhysicalAddress> for u16 {
    open spec fn obeys_from_spec() -> bool {
        true
    }

    open spec fn from_spec(v: PhysicalAddress) -> u16 {
        v.0
    }
}

impl OperandEncodable for PhysicalAddress {
    open spec fn spec_bytes(&self) -> Seq<u8> {
        seq![hi_byte(self.0), lo_byte(self.0)]
    }

    open spec fn spec_parse(bytes: Seq<u8>) -> Result<PhysicalAddress, ErrorView> {
        if bytes.len() < 2 {
            Err(short_input(2, bytes.len() as usize))
        } else {
            Ok(PhysicalAddress(word(bytes[0], bytes[1])))
        }
    }

    open spec fn spec_wf(&self) -> bool {
        true
    }

    open spec fn spec_expected_len() -> RangeView {
        RangeView::AtLeast(2)
    }

    open spec fn spec_self_delimiting() -> bool {
        true
    }

    fn to_bytes(&self, buf: &mut Vec<u8>) {
        buf.push(hi_byte_of(self.0));
        buf.push(lo_byte_of(self.0));
        proof {
            assert(final(buf)@ =~= old(buf)@ + self.spec_bytes());
        }
    }

    fn try_from_bytes(bytes: &[u8]) -> (r: Result<PhysicalAddress, Error>) {
        if bytes.len() < 2 {
            Err(Error::short_input(2, bytes.len()))
        } else {
            Ok(PhysicalAddress(word_of(bytes[0], bytes[1])))
        }
    }

    fn len(&self) -> (r: usize) {
        2
    }

    fn expected_len() -> (r: Range) {
        Range::AtLeast(2)
    }

    proof fn lemma_roundtrip(&self, rest: Seq<u8>) {
        lemma_word(self.0, 0, 0);
        let all = self.spec_bytes() + rest;
        assert(all[0] == hi_byte(self.0));
        assert(all[1] == lo_byte(self.0));
    }

    proof fn lemma_parse_len(bytes: Seq<u8>) {
    }
}

/// An unsigned 32-bit timeout in milliseconds, as the kernel interface takes
/// it.
#[derive(Clone, Copy, Debug, PartialEq, Eq, Structural, Hash)]
pub struct Timeout(u32);

impl Timeout {
    /// The number of milliseconds.
    pub closed spec fn millis(self) -> u32 {
        self.0
    }

    /// A timeout is its number of milliseconds: two timeouts with the same
    /// count are the same timeout.
    pub proof fn lemma_millis_injective(a: Timeout, b: Timeout)
        ensures
            a.millis() == b.millis() <==> a == b,
    {
    }

    /// The number of milliseconds.
    pub fn as_ms(&self) -> (r: u32)
        ensures
            r == self.millis(),
    {
        self.0
    }

    /// The timeout of `millis` milliseconds.
    pub closed spec fn spec_from_ms(millis: u32) -> Timeout {
        Timeout(millis)
    }

    /// The timeout of `millis` milliseconds has that count.
    pub proof fn lemma_from_ms_millis(millis: u32)
        ensures
            Timeout::spec_from_ms(millis).millis() == millis,
    {
    }

    /// The timeout of `millis` milliseconds.
    #[verifier::when_used_as_spec(spec_from_ms)]
    pub fn from_ms(millis: u32) -> (r: Timeout)
        ensures
            r.millis() == millis,
            r == Timeout::spec_from_ms(millis),
    {
        Timeout(millis)
    }

    /// The timeout of a duration of `millis` milliseconds; a duration that
    /// does not fit in 32 bits is reported as out of range, with the count
    /// saturated to `usize::MAX` where it does not fit in a `usize`.
    pub fn try_from_millis(millis: u128) -> (r: Result<Timeout, Error>)
        ensures
            r is Ok <==> millis <= u32::MAX,
            r matches Ok(t) ==> t.millis() == millis,
            millis <= u32::MAX ==> r == Ok::<Timeout, Error>(Timeout::from_ms(millis as u32)),
            r matches Err(e) ==> e@ == (ErrorView::OutOfRange {
                expected: RangeView::AtMost(0xFFFF_FFFF),
                got: if millis <= usize::MAX { millis as usize } else { usize::MAX },
                quantity: "milliseconds"@,
            }),
    {
        if millis <= 0xFFFF_FFFFu128 {
            Ok(Timeout(millis as u32))
        } else {
            let got: usize = if millis <= usize::MAX as u128 {
                millis as usize
            } else {
                usize::MAX
            };
            Err(Error::OutOfRange { expected: Range::AtMost(0xFFFF_FFFF), got, quantity: "milliseconds" })
        }
    }
}

} // verus!
