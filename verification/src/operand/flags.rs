//! The operands that are one byte of independent flags.

use vstd::prelude::*;

use crate::codec::OperandEncodable;
use crate::error::{short_input, Error, ErrorView, Range, RangeView};

verus! {

/// The set of device types that a device represents.
#[derive(Clone, Copy, Debug, PartialEq, Eq, Structural, Hash)]
pub struct AllDeviceTypes {
    /// The flags, one per bit.
    pub bits: u8,
}

impl AllDeviceTypes {
    /// The flag `TV`, alone.
    #[allow(non_snake_case)]
    pub fn TV() -> (r: AllDeviceTypes)
        ensures
            r.bits == 0x80u8,
    {
        AllDeviceTypes { bits: 0x80 }
    }

    /// The flag `RECORDING`, alone.
    #[allow(non_snake_case)]
    pub fn RECORDING() -> (r: AllDeviceTypes)
        ensures
            r.bits == 0x40u8,
    {
        AllDeviceTypes { bits: 0x40 }
    }

    /// The flag `TUNER`, alone.
    #[allow(non_snake_case)]
    pub fn TUNER() -> (r: AllDeviceTypes)
        ensures
            r.bits == 0x20u8,
    {
        AllDeviceTypes { bits: 0x20 }
    }

    /// The flag `PLAYBACK`, alone.
    #[allow(non_snake_case)]
    pub fn PLAYBACK() -> (r: AllDeviceTypes)
        ensures
            r.bits == 0x10u8,
    {
        AllDeviceTypes { bits: 0x10 }
    }

    /// The flag `AUDIOSYSTEM`, alone.
    #[allow(non_snake_case)]
    pub fn AUDIOSYSTEM() -> (r: AllDeviceTypes)
        ensures
            r.bits == 0x08u8,
    {
        AllDeviceTypes { bits: 0x08 }
    }

    /// The flag `SWITCH`, alone.
    #[allow(non_snake_case)]
    pub fn SWITCH() -> (r: AllDeviceTypes)
        ensures
            r.bits == 0x04u8,
    {
        AllDeviceTypes { bits: 0x04 }
    }

    /// The bits of all the named flags.
    pub open spec fn all_bits() -> u8 {
        0xfcu8
    }

    /// No flag set.
    pub fn empty() -> (r: AllDeviceTypes)
        ensures
            r.bits == 0,
    {
        AllDeviceTypes { bits: 0 }
    }

    /// All the named flags set.
    pub fn all() -> (r: AllDeviceTypes)
        ensures
            r.bits == Self::all_bits(),
    {
        AllDeviceTypes { bits: 0xfc }
    }

    /// The flags as a byte.
    pub fn bits(&self) -> (r: u8)
        ensures
            r == self.bits,
    {
        self.bits
    }

    /// The flags of a byte, keeping bits that name no flag.
    pub fn from_bits_retain(bits: u8) -> (r: AllDeviceTypes)
        ensures
            r.bits == bits,
    {
        AllDeviceTypes { bits }
    }

    /// Whether every flag of `other` is set here.
    pub fn contains(&self, other: AllDeviceTypes) -> (r: bool)
        ensures
            r == (self.bits & other.bits == other.bits),
    {
        self.bits & other.bits == other.bits
    }

    /// Whether no flag is set.
    pub fn is_empty(&self) -> (r: bool)
        ensures
            r == (self.bits == 0),
    {
        self.bits == 0
    }

    /// The flags set here or in `other`.
    pub fn union(self, other: AllDeviceTypes) -> (r: AllDeviceTypes)
        ensures
            r.bits == self.bits | other.bits,
    {
        AllDeviceTypes { bits: self.bits | other.bits }
    }
}

impl OperandEncodable for AllDeviceTypes {
    open spec fn spec_bytes(&self) -> Seq<u8> {
        seq![self.bits]
    }

    open spec fn spec_parse(bytes: Seq<u8>) -> Result<AllDeviceTypes, ErrorView> {
        if bytes.len() < 1 {
            Err(short_input(1, bytes.len() as usize))
        } else {
            Ok(AllDeviceTypes { bits: bytes[0] })
        }
    }

    open spec fn spec_wf(&self) -> bool {
        true
    }

    open spec fn spec_expected_len() -> RangeView {
        RangeView::AtLeast(1)
    }

    open spec fn spec_self_delimiting() -> bool {
        true
    }

    fn to_bytes(&self, buf: &mut Vec<u8>) {
        buf.push(self.bits);
    }

    fn try_from_bytes(bytes: &[u8]) -> (r: Result<AllDeviceTypes, Error>) {
        if bytes.len() < 1 {
            Err(Error::short_input(1, bytes.len()))
        } else {
            Ok(AllDeviceTypes { bits: bytes[0] })
        }
    }

    fn len(&self) -> (r: usize) {
        1
    }

    fn expected_len() -> (r: Range) {
        Range::AtLeast(1)
    }

    proof fn lemma_roundtrip(&self, rest: Seq<u8>) {
        assert((self.spec_bytes() + rest)[0] == self.bits);
    }

    proof fn lemma_parse_len(bytes: Seq<u8>) {
    }
}

/// The first byte of the features of a device.
#[derive(Clone, Copy, Debug, PartialEq, Eq, Structural, Hash)]
pub struct DeviceFeatures1 {
    /// The flags, one per bit.
    pub bits: u8,
}

impl DeviceFeatures1 {
    /// The flag `HAS_RECORD_TV_SCREEN`, alone.
    #[allow(non_snake_case)]
    pub fn HAS_RECORD_TV_SCREEN() -> (r: DeviceFeatures1)
        ensures
            r.bits == 0x40u8,
    {
        DeviceFeatures1 { bits: 0x40 }
    }

    /// The flag `HAS_SET_OSD_STRING`, alone.
    #[allow(non_snake_case)]
    pub fn HAS_SET_OSD_STRING() -> (r: DeviceFeatures1)
        ensures
            r.bits == 0x20u8,
    {
        DeviceFeatures1 { bits: 0x20 }
    }

    /// The flag `HAS_DECK_CONTROL`, alone.
    #[allow(non_snake_case)]
    pub fn HAS_DECK_CONTROL() -> (r: DeviceFeatures1)
        ensures
            r.bits == 0x10u8,
    {
        DeviceFeatures1 { bits: 0x10 }
    }

    /// The flag `HAS_SET_AUDIO_RATE`, alone.
    #[allow(non_snake_case)]
    pub fn HAS_SET_AUDIO_RATE() -> (r: DeviceFeatures1)
        ensures
            r.bits == 0x08u8,
    {
        DeviceFeatures1 { bits: 0x08 }
    }

    /// The flag `SINK_HAS_ARC_TX`, alone.
    #[allow(non_snake_case)]
    pub fn SINK_HAS_ARC_TX() -> (r: DeviceFeatures1)
        ensures
            r.bits == 0x04u8,
    {
        DeviceFeatures1 { bits: 0x04 }
    }

    /// The flag `SOURCE_HAS_ARC_RX`, alone.
    #[allow(non_snake_case)]
    pub fn SOURCE_HAS_ARC_RX() -> (r: DeviceFeatures1)
        ensures
            r.bits == 0x02u8,
    {
        DeviceFeatures1 { bits: 0x02 }
    }

    /// The flag `HAS_SET_AUDIO_VOLUME_LEVEL`, alone.
    #[allow(non_snake_case)]
    pub fn HAS_SET_AUDIO_VOLUME_LEVEL() -> (r: DeviceFeatures1)
        ensures
            r.bits == 0x01u8,
    {
        DeviceFeatures1 { bits: 0x01 }
    }

    /// The bits of all the named flags.
    pub open spec fn all_bits() -> u8 {
        0x7fu8
    }

    /// No flag set.
    pub fn empty() -> (r: DeviceFeatures1)
        ensures
            r.bits == 0,
    {
        DeviceFeatures1 { bits: 0 }
    }

    /// All the named flags set.
    pub fn all() -> (r: DeviceFeatures1)
        ensures
            r.bits == Self::all_bits(),
    {
        DeviceFeatures1 { bits: 0x7f }
    }

    /// The flags as a byte.
    pub fn bits(&self) -> (r: u8)
        ensures
            r == self.bits,
    {
        self.bits
    }

    /// The flags of a byte, keeping bits that name no flag.
    pub fn from_bits_retain(bits: u8) -> (r: DeviceFeatures1)
        ensures
            r.bits == bits,
    {
        DeviceFeatures1 { bits }
    }

    /// Whether every flag of `other` is set here.
    pub fn contains(&self, other: DeviceFeatures1) -> (r: bool)
        ensures
            r == (self.bits & other.bits == other.bits),
    {
        self.bits & other.bits == other.bits
    }

    /// Whether no flag is set.
    pub fn is_empty(&self) -> (r: bool)
        ensures
            r == (self.bits == 0),
    {
        self.bits == 0
    }

    /// The flags set here or in `other`.
    pub fn union(self, other: DeviceFeatures1) -> (r: DeviceFeatures1)
        ensures
            r.bits == self.bits | other.bits,
    {
        DeviceFeatures1 { bits: self.bits | other.bits }
    }
}

impl OperandEncodable for DeviceFeatures1 {
    open spec fn spec_bytes(&self) -> Seq<u8> {
        seq![self.bits]
    }

    open spec fn spec_parse(bytes: Seq<u8>) -> Result<DeviceFeatures1, ErrorView> {
        if bytes.len() < 1 {
            Err(short_input(1, bytes.len() as usize))
        } else {
            Ok(DeviceFeatures1 { bits: bytes[0] })
        }
    }

    open spec fn spec_wf(&self) -> bool {
        true
    }

    open spec fn spec_expected_len() -> RangeView {
        RangeView::AtLeast(1)
    }

    open spec fn spec_self_delimiting() -> bool {
        true
    }

    fn to_bytes(&self, buf: &mut Vec<u8>) {
        buf.push(self.bits);
    }

    fn try_from_bytes(bytes: &[u8]) -> (r: Result<DeviceFeatures1, Error>) {
        if bytes.len() < 1 {
            Err(Error::short_input(1, bytes.len()))
        } else {
            Ok(DeviceFeatures1 { bits: bytes[0] })
        }
    }

    fn len(&self) -> (r: usize) {
        1
    }

    fn expected_len() -> (r: Range) {
        Range::AtLeast(1)
    }

    proof fn lemma_roundtrip(&self, rest: Seq<u8>) {
        assert((self.spec_bytes() + rest)[0] == self.bits);
    }

    proof fn lemma_parse_len(bytes: Seq<u8>) {
    }
}

/// The menus that a source device can show from the remote control.
#[derive(Clone, Copy, Debug, PartialEq, Eq, Structural, Hash)]
pub struct RcProfileSource {
    /// The flags, one per bit.
    pub bits: u8,
}

impl RcProfileSource {
    /// The flag `HAS_DEV_ROOT_MENU`, alone.
    #[allow(non_snake_case)]
    pub fn HAS_DEV_ROOT_MENU() -> (r: RcProfileSource)
        ensures
            r.bits == 0x50u8,
    {
        RcProfileSource { bits: 0x50 }
    }

    /// The flag `HAS_DEV_SETUP_MENU`, alone.
    #[allow(non_snake_case)]
    pub fn HAS_DEV_SETUP_MENU() -> (r: RcProfileSource)
        ensures
            r.bits == 0x48u8,
    {
        RcProfileSource { bits: 0x48 }
    }

    /// The flag `HAS_CONTENTS_MENU`, alone.
    #[allow(non_snake_case)]
    pub fn HAS_CONTENTS_MENU() -> (r: RcProfileSource)
        ensures
            r.bits == 0x44u8,
    {
        RcProfileSource { bits: 0x44 }
    }

    /// The flag `HAS_MEDIA_TOP_MENU`, alone.
    #[allow(non_snake_case)]
    pub fn HAS_MEDIA_TOP_MENU() -> (r: RcProfileSource)
        ensures
            r.bits == 0x42u8,
    {
        RcProfileSource { bits: 0x42 }
    }

    /// The flag `HAS_MEDIA_CONTEXT_MENU`, alone.
    #[allow(non_snake_case)]
    pub fn HAS_MEDIA_CONTEXT_MENU() -> (r: RcProfileSource)
        ensures
            r.bits == 0x41u8,
    {
        RcProfileSource { bits: 0x41 }
    }

    /// The bits of all the named flags.
    pub open spec fn all_bits() -> u8 {
        0x5fu8
    }

    /// No flag set.
    pub fn empty() -> (r: RcProfileSource)
        ensures
            r.bits == 0,
    {
        RcProfileSource { bits: 0 }
    }

    /// All the named flags set.
    pub fn all() -> (r: RcProfileSource)
        ensures
            r.bits == Self::all_bits(),
    {
        RcProfileSource { bits: 0x5f }
    }

    /// The flags as a byte.
    pub fn bits(&self) -> (r: u8)
        ensures
            r == self.bits,
    {
        self.bits
    }

    /// The flags of a byte, keeping bits that name no flag.
    pub fn from_bits_retain(bits: u8) -> (r: RcProfileSource)
        ensures
            r.bits == bits,
    {
        RcProfileSource { bits }
    }

    /// Whether every flag of `other` is set here.
    pub fn contains(&self, other: RcProfileSource) -> (r: bool)
        ensures
            r == (self.bits & other.bits == other.bits),
    {
        self.bits & other.bits == other.bits
    }

    /// Whether no flag is set.
    pub fn is_empty(&self) -> (r: bool)
        ensures
            r == (self.bits == 0),
    {
        self.bits == 0
    }

    /// The flags set here or in `other`.
    pub fn union(self, other: RcProfileSource) -> (r: RcProfileSource)
        ensures
            r.bits == self.bits | other.bits,
    {
        RcProfileSource { bits: self.bits | other.bits }
    }
}

impl OperandEncodable for RcProfileSource {
    open spec fn spec_bytes(&self) -> Seq<u8> {
        seq![self.bits]
    }

    open spec fn spec_parse(bytes: Seq<u8>) -> Result<RcProfileSource, ErrorView> {
        if bytes.len() < 1 {
            Err(short_input(1, bytes.len() as usize))
        } else {
            Ok(RcProfileSource { bits: bytes[0] })
        }
    }

    open spec fn spec_wf(&self) -> bool {
        true
    }

    open spec fn spec_expected_len() -> RangeView {
        RangeView::AtLeast(1)
    }

    open spec fn spec_self_delimiting() -> bool {
        true
    }

    fn to_bytes(&self, buf: &mut Vec<u8>) {
        buf.push(self.bits);
    }

    fn try_from_bytes(bytes: &[u8]) -> (r: Result<RcProfileSource, Error>) {
        if bytes.len() < 1 {
            Err(Error::short_input(1, bytes.len()))
        } else {
            Ok(RcProfileSource { bits: bytes[0] })
        }
    }

    fn len(&self) -> (r: usize) {
        1
    }

    fn expected_len() -> (r: Range) {
        Range::AtLeast(1)
    }

    proof fn lemma_roundtrip(&self, rest: Seq<u8>) {
        assert((self.spec_bytes() + rest)[0] == self.bits);
    }

    proof fn lemma_parse_len(bytes: Seq<u8>) {
    }
}

/// The days of the week on which a timer recording repeats.
#[derive(Clone, Copy, Debug, PartialEq, Eq, Structural, Hash)]
pub struct RecordingSequence {
    /// The flags, one per bit.
    pub bits: u8,
}

impl RecordingSequence {
    /// The flag `SUNDAY`, alone.
    #[allow(non_snake_case)]
    pub fn SUNDAY() -> (r: RecordingSequence)
        ensures
            r.bits == 0x01u8,
    {
        RecordingSequence { bits: 0x01 }
    }

    /// The flag `MONDAY`, alone.
    #[allow(non_snake_case)]
    pub fn MONDAY() -> (r: RecordingSequence)
        ensures
            r.bits == 0x02u8,
    {
        RecordingSequence { bits: 0x02 }
    }

    /// The flag `TUESDAY`, alone.
    #[allow(non_snake_case)]
    pub fn TUESDAY() -> (r: RecordingSequence)
        ensures
            r.bits == 0x04u8,
    {
        RecordingSequence { bits: 0x04 }
    }

    /// The flag `WEDNESDAY`, alone.
    #[allow(non_snake_case)]
    pub fn WEDNESDAY() -> (r: RecordingSequence)
        ensures
            r.bits == 0x08u8,
    {
        RecordingSequence { bits: 0x08 }
    }

    /// The flag `THURSDAY`, alone.
    #[allow(non_snake_case)]
    pub fn THURSDAY() -> (r: RecordingSequence)
        ensures
            r.bits == 0x10u8,
    {
        RecordingSequence { bits: 0x10 }
    }

    /// The flag `FRIDAY`, alone.
    #[allow(non_snake_case)]
    pub fn FRIDAY() -> (r: RecordingSequence)
        ensures
            r.bits == 0x20u8,
    {
        RecordingSequence { bits: 0x20 }
    }

    /// The flag `SATURDAY`, alone.
    #[allow(non_snake_case)]
    pub fn SATURDAY() -> (r: RecordingSequence)
        ensures
            r.bits == 0x40u8,
    {
        RecordingSequence { bits: 0x40 }
    }

    /// The bits of all the named flags.
    pub open spec fn all_bits() -> u8 {
        0x7fu8
    }

    /// No flag set.
    pub fn empty() -> (r: RecordingSequence)
        ensures
            r.bits == 0,
    {
        RecordingSequence { bits: 0 }
    }

    /// All the named flags set.
    pub fn all() -> (r: RecordingSequence)
        ensures
            r.bits == Self::all_bits(),
    {
        RecordingSequence { bits: 0x7f }
    }

    /// The flags as a byte.
    pub fn bits(&self) -> (r: u8)
        ensures
            r == self.bits,
    {
        self.bits
    }

    /// The flags of a byte, keeping bits that name no flag.
    pub fn from_bits_retain(bits: u8) -> (r: RecordingSequence)
        ensures
            r.bits == bits,
    {
        RecordingSequence { bits }
    }

    /// Whether every flag of `other` is set here.
    pub fn contains(&self, other: RecordingSequence) -> (r: bool)
        ensures
            r == (self.bits & other.bits == other.bits),
    {
        self.bits & other.bits == other.bits
    }

    /// Whether no flag is set.
    pub fn is_empty(&self) -> (r: bool)
        ensures
            r == (self.bits == 0),
    {
        self.bits == 0
    }

    /// The flags set here or in `other`.
    pub fn union(self, other: RecordingSequence) -> (r: RecordingSequence)
        ensures
            r.bits == self.bits | other.bits,
    {
        RecordingSequence { bits: self.bits | other.bits }
    }

    /// A recording that does not repeat: no weekday set.
    #[allow(non_snake_case)]
    pub fn ONCE_ONLY() -> (r: RecordingSequence)
        ensures
            r.bits == 0,
    {
        RecordingSequence { bits: 0 }
    }

    /// Whether the recording happens once only, on no weekday.
    pub fn is_once_only(&self) -> (r: bool)
        ensures
            r == (self.bits == 0),
    {
        self.is_empty()
    }
}

impl OperandEncodable for RecordingSequence {
    open spec fn spec_bytes(&self) -> Seq<u8> {
        seq![self.bits]
    }

    open spec fn spec_parse(bytes: Seq<u8>) -> Result<RecordingSequence, ErrorView> {
        if bytes.len() < 1 {
            Err(short_input(1, bytes.len() as usize))
        } else {
            Ok(RecordingSequence { bits: bytes[0] })
        }
    }

    open spec fn spec_wf(&self) -> bool {
        true
    }

    open spec fn spec_expected_len() -> RangeView {
        RangeView::AtLeast(1)
    }

    open spec fn spec_self_delimiting() -> bool {
        true
    }

    fn to_bytes(&self, buf: &mut Vec<u8>) {
        buf.push(self.bits);
    }

    fn try_from_bytes(bytes: &[u8]) -> (r: Result<RecordingSequence, Error>) {
        if bytes.len() < 1 {
            Err(Error::short_input(1, bytes.len()))
        } else {
            Ok(RecordingSequence { bits: bytes[0] })
        }
    }

    fn len(&self) -> (r: usize) {
        1
    }

    fn expected_len() -> (r: Range) {
        Range::AtLeast(1)
    }

    proof fn lemma_roundtrip(&self, rest: Seq<u8>) {
        assert((self.spec_bytes() + rest)[0] == self.bits);
    }

    proof fn lemma_parse_len(bytes: Seq<u8>) {
    }
}

} // verus!
