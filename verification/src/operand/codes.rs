//! The operands that are one byte naming one of a fixed set of values.

use vstd::prelude::*;

use crate::codec::{parse_code, OperandEncodable};
use crate::error::{invalid_value, Error, ErrorView, Range, RangeView};

verus! {

/// The reason given in a `<Feature Abort>` message.
#[derive(Clone, Copy, Debug, PartialEq, Eq, Structural, Hash)]
pub enum AbortReason {
    /// Unrecognized opcode
    UnrecognizedOp,
    /// Not in correct mode to respond
    IncorrectMode,
    /// Cannot provide source
    NoSource,
    /// Invalid operand
    InvalidOp,
    /// Refused
    Refused,
    /// Unable to determine
    Undetermined,
}

impl AbortReason {
    /// The byte that encodes the value.
    pub open spec fn code(self) -> u8 {
        match self {
            AbortReason::UnrecognizedOp => 0x00u8,
            AbortReason::IncorrectMode => 0x01u8,
            AbortReason::NoSource => 0x02u8,
            AbortReason::InvalidOp => 0x03u8,
            AbortReason::Refused => 0x04u8,
            AbortReason::Undetermined => 0x05u8,
        }
    }

    /// Each value and the byte that encodes it.
    pub proof fn lemma_code_table()
        ensures
            AbortReason::UnrecognizedOp.code() == 0x00u8,
            AbortReason::IncorrectMode.code() == 0x01u8,
            AbortReason::NoSource.code() == 0x02u8,
            AbortReason::InvalidOp.code() == 0x03u8,
            AbortReason::Refused.code() == 0x04u8,
            AbortReason::Undetermined.code() == 0x05u8,
    {
    }

    /// The value that the byte `b` encodes, if any.
    pub open spec fn from_code(b: u8) -> Option<AbortReason> {
        match b {
            0x00u8 => Some(AbortReason::UnrecognizedOp),
            0x01u8 => Some(AbortReason::IncorrectMode),
            0x02u8 => Some(AbortReason::NoSource),
            0x03u8 => Some(AbortReason::InvalidOp),
            0x04u8 => Some(AbortReason::Refused),
            0x05u8 => Some(AbortReason::Undetermined),
            _ => None,
        }
    }

    /// The byte that encodes the value.
    pub fn to_u8(self) -> (r: u8)
        ensures
            r == self.code(),
    {
        match self {
            AbortReason::UnrecognizedOp => 0x00,
            AbortReason::IncorrectMode => 0x01,
            AbortReason::NoSource => 0x02,
            AbortReason::InvalidOp => 0x03,
            AbortReason::Refused => 0x04,
            AbortReason::Undetermined => 0x05,
        }
    }

    /// The value that the byte `b` encodes; a byte that encodes none is
    /// reported as an invalid value for this type.
    pub fn try_from_u8(b: u8) -> (r: Result<AbortReason, Error>)
        ensures
            r matches Ok(v) ==> Self::from_code(b) == Some(v),
            r matches Err(e) ==> Self::from_code(b) is None && e@ == invalid_value("AbortReason"@, b as nat),
            r is Ok <==> Self::from_code(b) is Some,
    {
        match b {
            0x00 => Ok(AbortReason::UnrecognizedOp),
            0x01 => Ok(AbortReason::IncorrectMode),
            0x02 => Ok(AbortReason::NoSource),
            0x03 => Ok(AbortReason::InvalidOp),
            0x04 => Ok(AbortReason::Refused),
            0x05 => Ok(AbortReason::Undetermined),
            _ => Err(Error::invalid_value("AbortReason", b)),
        }
    }

    /// Decoding the code of a value gives the value back, and a byte
    /// decodes only to a value of which it is the code.
    pub proof fn lemma_code(self, b: u8)
        ensures
            Self::from_code(self.code()) == Some(self),
            Self::from_code(b) matches Some(v) ==> v.code() == b,
    {
    }
}

impl From<AbortReason> for u8 {
    fn from(v: AbortReason) -> (r: u8) {
        v.to_u8()
    }
}

impl vstd::std_specs::convert::FromSpecImpl<AbortReason> for u8 {
    open spec fn obeys_from_spec() -> bool {
        true
    }

    open spec fn from_spec(v: AbortReason) -> u8 {
        v.code()
    }
}

impl OperandEncodable for AbortReason {
    open spec fn spec_bytes(&self) -> Seq<u8> {
        seq![self.code()]
    }

    open spec fn spec_parse(bytes: Seq<u8>) -> Result<Self, ErrorView> {
        parse_code(bytes, |b: u8| Self::from_code(b), "AbortReason"@)
    }

    open spec fn spec_wf(&self) -> bool {
        true
    }

    open spec fn spec_expected_len() -> RangeView {
        RangeView::AtLeast(1)
    }

    open spec fn spec_self_delimiting() -> bool {
        true
    }

    fn to_bytes(&self, buf: &mut Vec<u8>) {
        buf.push(self.to_u8());
    }

    fn try_from_bytes(bytes: &[u8]) -> (r: Result<Self, Error>) {
        if bytes.len() < 1 {
            return Err(Error::short_input(1, bytes.len()));
        }
        Self::try_from_u8(bytes[0])
    }

    fn len(&self) -> (r: usize) {
        1
    }

    fn expected_len() -> (r: Range) {
        Range::AtLeast(1)
    }

    proof fn lemma_roundtrip(&self, rest: Seq<u8>) {
        self.lemma_code(0);
        assert((self.spec_bytes() + rest)[0] == self.code());
    }

    proof fn lemma_parse_len(bytes: Seq<u8>) {
    }
}

/// The kind of an analogue broadcast.
#[derive(Clone, Copy, Debug, PartialEq, Eq, Structural, Hash)]
pub enum AnalogueBroadcastType {
    Cable,
    Satellite,
    Terrestrial,
}

impl AnalogueBroadcastType {
    /// The byte that encodes the value.
    pub open spec fn code(self) -> u8 {
        match self {
            AnalogueBroadcastType::Cable => 0x00u8,
            AnalogueBroadcastType::Satellite => 0x01u8,
            AnalogueBroadcastType::Terrestrial => 0x02u8,
        }
    }

    /// Each value and the byte that encodes it.
    pub proof fn lemma_code_table()
        ensures
            AnalogueBroadcastType::Cable.code() == 0x00u8,
            AnalogueBroadcastType::Satellite.code() == 0x01u8,
            AnalogueBroadcastType::Terrestrial.code() == 0x02u8,
    {
    }

    /// The value that the byte `b` encodes, if any.
    pub open spec fn from_code(b: u8) -> Option<AnalogueBroadcastType> {
        match b {
            0x00u8 => Some(AnalogueBroadcastType::Cable),
            0x01u8 => Some(AnalogueBroadcastType::Satellite),
            0x02u8 => Some(AnalogueBroadcastType::Terrestrial),
            _ => None,
        }
    }

    /// The byte that encodes the value.
    pub fn to_u8(self) -> (r: u8)
        ensures
            r == self.code(),
    {
        match self {
            AnalogueBroadcastType::Cable => 0x00,
            AnalogueBroadcastType::Satellite => 0x01,
            AnalogueBroadcastType::Terrestrial => 0x02,
        }
    }

    /// The value that the byte `b` encodes; a byte that encodes none is
    /// reported as an invalid value for this type.
    pub fn try_from_u8(b: u8) -> (r: Result<AnalogueBroadcastType, Error>)
        ensures
            r matches Ok(v) ==> Self::from_code(b) == Some(v),
            r matches Err(e) ==> Self::from_code(b) is None && e@ == invalid_value("AnalogueBroadcastType"@, b as nat),
            r is Ok <==> Self::from_code(b) is Some,
    {
        match b {
            0x00 => Ok(AnalogueBroadcastType::Cable),
            0x01 => Ok(AnalogueBroadcastType::Satellite),
            0x02 => Ok(AnalogueBroadcastType::Terrestrial),
            _ => Err(Error::invalid_value("AnalogueBroadcastType", b)),
        }
    }

    /// Decoding the code of a value gives the value back, and a byte
    /// decodes only to a value of which it is the code.
    pub proof fn lemma_code(self, b: u8)
        ensures
            Self::from_code(self.code()) == Some(self),
            Self::from_code(b) matches Some(v) ==> v.code() == b,
    {
    }
}

impl From<AnalogueBroadcastType> for u8 {
    fn from(v: AnalogueBroadcastType) -> (r: u8) {
        v.to_u8()
    }
}

impl vstd::std_specs::convert::FromSpecImpl<AnalogueBroadcastType> for u8 {
    open spec fn obeys_from_spec() -> bool {
        true
    }

    open spec fn from_spec(v: AnalogueBroadcastType) -> u8 {
        v.code()
    }
}

impl OperandEncodable for AnalogueBroadcastType {
    open spec fn spec_bytes(&self) -> Seq<u8> {
        seq![self.code()]
    }

    open spec fn spec_parse(bytes: Seq<u8>) -> Result<Self, ErrorView> {
        parse_code(bytes, |b: u8| Self::from_code(b), "AnalogueBroadcastType"@)
    }

    open spec fn spec_wf(&self) -> bool {
        true
    }

    open spec fn spec_expected_len() -> RangeView {
        RangeView::AtLeast(1)
    }

    open spec fn spec_self_delimiting() -> bool {
        true
    }

    fn to_bytes(&self, buf: &mut Vec<u8>) {
        buf.push(self.to_u8());
    }

    fn try_from_bytes(bytes: &[u8]) -> (r: Result<Self, Error>) {
        if bytes.len() < 1 {
            return Err(Error::short_input(1, bytes.len()));
        }
        Self::try_from_u8(bytes[0])
    }

    fn len(&self) -> (r: usize) {
        1
    }

    fn expected_len() -> (r: Range) {
        Range::AtLeast(1)
    }

    proof fn lemma_roundtrip(&self, rest: Seq<u8>) {
        self.lemma_code(0);
        assert((self.spec_bytes() + rest)[0] == self.code());
    }

    proof fn lemma_parse_len(bytes: Seq<u8>) {
    }
}

/// The audio rate control of `<Set Audio Rate>`.
#[derive(Clone, Copy, Debug, PartialEq, Eq, Structural, Hash)]
pub enum AudioRate {
    /// Rate control off
    Off,
    /// Standard rate, wide range control (IEEE 1394 compatible)
    WideStandard,
    /// Fast rate, wide range control (IEEE 1394 compatible)
    WideFast,
    /// Slow rate, wide range control (IEEE 1394 compatible)
    WideSlow,
    /// Standard rate, narrow range control (HDMI transparent)
    NarrowStandard,
    /// Fast rate, narrow range control (HDMI transparent)
    NarrowFast,
    /// Slow rate, narrow range control (HDMI transparent)
    NarrowSlow,
}

impl AudioRate {
    /// The byte that encodes the value.
    pub open spec fn code(self) -> u8 {
        match self {
            AudioRate::Off => 0x00u8,
            AudioRate::WideStandard => 0x01u8,
            AudioRate::WideFast => 0x02u8,
            AudioRate::WideSlow => 0x03u8,
            AudioRate::NarrowStandard => 0x04u8,
            AudioRate::NarrowFast => 0x05u8,
            AudioRate::NarrowSlow => 0x06u8,
        }
    }

    /// Each value and the byte that encodes it.
    pub proof fn lemma_code_table()
        ensures
            AudioRate::Off.code() == 0x00u8,
            AudioRate::WideStandard.code() == 0x01u8,
            AudioRate::WideFast.code() == 0x02u8,
            AudioRate::WideSlow.code() == 0x03u8,
            AudioRate::NarrowStandard.code() == 0x04u8,
            AudioRate::NarrowFast.code() == 0x05u8,
            AudioRate::NarrowSlow.code() == 0x06u8,
    {
    }

    /// The value that the byte `b` encodes, if any.
    pub open spec fn from_code(b: u8) -> Option<AudioRate> {
        match b {
            0x00u8 => Some(AudioRate::Off),
            0x01u8 => Some(AudioRate::WideStandard),
            0x02u8 => Some(AudioRate::WideFast),
            0x03u8 => Some(AudioRate::WideSlow),
            0x04u8 => Some(AudioRate::NarrowStandard),
            0x05u8 => Some(AudioRate::NarrowFast),
            0x06u8 => Some(AudioRate::NarrowSlow),
            _ => None,
        }
    }

    /// The byte that encodes the value.
    pub fn to_u8(self) -> (r: u8)
        ensures
            r == self.code(),
    {
        match self {
            AudioRate::Off => 0x00,
            AudioRate::WideStandard => 0x01,
            AudioRate::WideFast => 0x02,
            AudioRate::WideSlow => 0x03,
            AudioRate::NarrowStandard => 0x04,
            AudioRate::NarrowFast => 0x05,
            AudioRate::NarrowSlow => 0x06,
        }
    }

    /// The value that the byte `b` encodes; a byte that encodes none is
    /// reported as an invalid value for this type.
    pub fn try_from_u8(b: u8) -> (r: Result<AudioRate, Error>)
        ensures
            r matches Ok(v) ==> Self::from_code(b) == Some(v),
            r matches Err(e) ==> Self::from_code(b) is None && e@ == invalid_value("AudioRate"@, b as nat),
            r is Ok <==> Self::from_code(b) is Some,
    {
        match b {
            0x00 => Ok(AudioRate::Off),
            0x01 => Ok(AudioRate::WideStandard),
            0x02 => Ok(AudioRate::WideFast),
            0x03 => Ok(AudioRate::WideSlow),
            0x04 => Ok(AudioRate::NarrowStandard),
            0x05 => Ok(AudioRate::NarrowFast),
            0x06 => Ok(AudioRate::NarrowSlow),
            _ => Err(Error::invalid_value("AudioRate", b)),
        }
    }

    /// Decoding the code of a value gives the value back, and a byte
    /// decodes only to a value of which it is the code.
    pub proof fn lemma_code(self, b: u8)
        ensures
            Self::from_code(self.code()) == Some(self),
            Self::from_code(b) matches Some(v) ==> v.code() == b,
    {
    }
}

impl From<AudioRate> for u8 {
    fn from(v: AudioRate) -> (r: u8) {
        v.to_u8()
    }
}

impl vstd::std_specs::convert::FromSpecImpl<AudioRate> for u8 {
    open spec fn obeys_from_spec() -> bool {
        true
    }

    open spec fn from_spec(v: AudioRate) -> u8 {
        v.code()
    }
}

impl OperandEncodable for AudioRate {
    open spec fn spec_bytes(&self) -> Seq<u8> {
        seq![self.code()]
    }

    open spec fn spec_parse(bytes: Seq<u8>) -> Result<Self, ErrorView> {
        parse_code(bytes, |b: u8| Self::from_code(b), "AudioRate"@)
    }

    open spec fn spec_wf(&self) -> bool {
        true
    }

    open spec fn spec_expected_len() -> RangeView {
        RangeView::AtLeast(1)
    }

    open spec fn spec_self_delimiting() -> bool {
        true
    }

    fn to_bytes(&self, buf: &mut Vec<u8>) {
        buf.push(self.to_u8());
    }

    fn try_from_bytes(bytes: &[u8]) -> (r: Result<Self, Error>) {
        if bytes.len() < 1 {
            return Err(Error::short_input(1, bytes.len()));
        }
        Self::try_from_u8(bytes[0])
    }

    fn len(&self) -> (r: usize) {
        1
    }

    fn expected_len() -> (r: Range) {
        Range::AtLeast(1)
    }

    proof fn lemma_roundtrip(&self, rest: Seq<u8>) {
        self.lemma_code(0);
        assert((self.spec_bytes() + rest)[0] == self.code());
    }

    proof fn lemma_parse_len(bytes: Seq<u8>) {
    }
}

/// An analogue broadcast system.
#[derive(Clone, Copy, Debug, PartialEq, Eq, Structural, Hash)]
pub enum BroadcastSystem {
    PalBG,
    SecamLq,
    PalM,
    NtscM,
    PalI,
    SecamDK,
    SecamBG,
    SecamL,
    PalDK,
    Other,
}

impl BroadcastSystem {
    /// The byte that encodes the value.
    pub open spec fn code(self) -> u8 {
        match self {
            BroadcastSystem::PalBG => 0x00u8,
            BroadcastSystem::SecamLq => 0x01u8,
            BroadcastSystem::PalM => 0x02u8,
            BroadcastSystem::NtscM => 0x03u8,
            BroadcastSystem::PalI => 0x04u8,
            BroadcastSystem::SecamDK => 0x05u8,
            BroadcastSystem::SecamBG => 0x06u8,
            BroadcastSystem::SecamL => 0x07u8,
            BroadcastSystem::PalDK => 0x08u8,
            BroadcastSystem::Other => 0x1fu8,
        }
    }

    /// Each value and the byte that encodes it.
    pub proof fn lemma_code_table()
        ensures
            BroadcastSystem::PalBG.code() == 0x00u8,
            BroadcastSystem::SecamLq.code() == 0x01u8,
            BroadcastSystem::PalM.code() == 0x02u8,
            BroadcastSystem::NtscM.code() == 0x03u8,
            BroadcastSystem::PalI.code() == 0x04u8,
            BroadcastSystem::SecamDK.code() == 0x05u8,
            BroadcastSystem::SecamBG.code() == 0x06u8,
            BroadcastSystem::SecamL.code() == 0x07u8,
            BroadcastSystem::PalDK.code() == 0x08u8,
            BroadcastSystem::Other.code() == 0x1fu8,
    {
    }

    /// The value that the byte `b` encodes, if any.
    pub open spec fn from_code(b: u8) -> Option<BroadcastSystem> {
        match b {
            0x00u8 => Some(BroadcastSystem::PalBG),
            0x01u8 => Some(BroadcastSystem::SecamLq),
            0x02u8 => Some(BroadcastSystem::PalM),
            0x03u8 => Some(BroadcastSystem::NtscM),
            0x04u8 => Some(BroadcastSystem::PalI),
            0x05u8 => Some(BroadcastSystem::SecamDK),
            0x06u8 => Some(BroadcastSystem::SecamBG),
            0x07u8 => Some(BroadcastSystem::SecamL),
            0x08u8 => Some(BroadcastSystem::PalDK),
            0x1fu8 => Some(BroadcastSystem::Other),
            _ => None,
        }
    }

    /// The byte that encodes the value.
    pub fn to_u8(self) -> (r: u8)
        ensures
            r == self.code(),
    {
        match self {
            BroadcastSystem::PalBG => 0x00,
            BroadcastSystem::SecamLq => 0x01,
            BroadcastSystem::PalM => 0x02,
            BroadcastSystem::NtscM => 0x03,
            BroadcastSystem::PalI => 0x04,
            BroadcastSystem::SecamDK => 0x05,
            BroadcastSystem::SecamBG => 0x06,
            BroadcastSystem::SecamL => 0x07,
            BroadcastSystem::PalDK => 0x08,
            BroadcastSystem::Other => 0x1f,
        }
    }

    /// The value that the byte `b` encodes; a byte that encodes none is
    /// reported as an invalid value for this type.
    pub fn try_from_u8(b: u8) -> (r: Result<BroadcastSystem, Error>)
        ensures
            r matches Ok(v) ==> Self::from_code(b) == Some(v),
            r matches Err(e) ==> Self::from_code(b) is None && e@ == invalid_value("BroadcastSystem"@, b as nat),
            r is Ok <==> Self::from_code(b) is Some,
    {
        match b {
            0x00 => Ok(BroadcastSystem::PalBG),
            0x01 => Ok(BroadcastSystem::SecamLq),
            0x02 => Ok(BroadcastSystem::PalM),
            0x03 => Ok(BroadcastSystem::NtscM),
            0x04 => Ok(BroadcastSystem::PalI),
            0x05 => Ok(BroadcastSystem::SecamDK),
            0x06 => Ok(BroadcastSystem::SecamBG),
            0x07 => Ok(BroadcastSystem::SecamL),
            0x08 => Ok(BroadcastSystem::PalDK),
            0x1f => Ok(BroadcastSystem::Other),
            _ => Err(Error::invalid_value("BroadcastSystem", b)),
        }
    }

    /// Decoding the code of a value gives the value back, and a byte
    /// decodes only to a value of which it is the code.
    pub proof fn lemma_code(self, b: u8)
        ensures
            Self::from_code(self.code()) == Some(self),
            Self::from_code(b) matches Some(v) ==> v.code() == b,
    {
    }
}

impl From<BroadcastSystem> for u8 {
    fn from(v: BroadcastSystem) -> (r: u8) {
        v.to_u8()
    }
}

impl vstd::std_specs::convert::FromSpecImpl<BroadcastSystem> for u8 {
    open spec fn obeys_from_spec() -> bool {
        true
    }

    open spec fn from_spec(v: BroadcastSystem) -> u8 {
        v.code()
    }
}

impl OperandEncodable for BroadcastSystem {
    open spec fn spec_bytes(&self) -> Seq<u8> {
        seq![self.code()]
    }

    open spec fn spec_parse(bytes: Seq<u8>) -> Result<Self, ErrorView> {
        parse_code(bytes, |b: u8| Self::from_code(b), "BroadcastSystem"@)
    }

    open spec fn spec_wf(&self) -> bool {
        true
    }

    open spec fn spec_expected_len() -> RangeView {
        RangeView::AtLeast(1)
    }

    open spec fn spec_self_delimiting() -> bool {
        true
    }

    fn to_bytes(&self, buf: &mut Vec<u8>) {
        buf.push(self.to_u8());
    }

    fn try_from_bytes(bytes: &[u8]) -> (r: Result<Self, Error>) {
        if bytes.len() < 1 {
            return Err(Error::short_input(1, bytes.len()));
        }
        Self::try_from_u8(bytes[0])
    }

    fn len(&self) -> (r: usize) {
        1
    }

    fn expected_len() -> (r: Range) {
        Range::AtLeast(1)
    }

    proof fn lemma_roundtrip(&self, rest: Seq<u8>) {
        self.lemma_code(0);
        assert((self.spec_bytes() + rest)[0] == self.code());
    }

    proof fn lemma_parse_len(bytes: Seq<u8>) {
    }
}

/// The error code of a capability discovery and control reply.
#[derive(Clone, Copy, Debug, PartialEq, Eq, Structural, Hash)]
pub enum CdcErrorCode {
    NoError,
    CapUnsupported,
    WrongState,
    Other,
}

impl CdcErrorCode {
    /// The byte that encodes the value.
    pub open spec fn code(self) -> u8 {
        match self {
            CdcErrorCode::NoError => 0x00u8,
            CdcErrorCode::CapUnsupported => 0x01u8,
            CdcErrorCode::WrongState => 0x02u8,
            CdcErrorCode::Other => 0x03u8,
        }
    }

    /// Each value and the byte that encodes it.
    pub proof fn lemma_code_table()
        ensures
            CdcErrorCode::NoError.code() == 0x00u8,
            CdcErrorCode::CapUnsupported.code() == 0x01u8,
            CdcErrorCode::WrongState.code() == 0x02u8,
            CdcErrorCode::Other.code() == 0x03u8,
    {
    }

    /// The value that the byte `b` encodes, if any.
    pub open spec fn from_code(b: u8) -> Option<CdcErrorCode> {
        match b {
            0x00u8 => Some(CdcErrorCode::NoError),
            0x01u8 => Some(CdcErrorCode::CapUnsupported),
            0x02u8 => Some(CdcErrorCode::WrongState),
            0x03u8 => Some(CdcErrorCode::Other),
            _ => None,
        }
    }

    /// The byte that encodes the value.
    pub fn to_u8(self) -> (r: u8)
        ensures
            r == self.code(),
    {
        match self {
            CdcErrorCode::NoError => 0x00,
            CdcErrorCode::CapUnsupported => 0x01,
            CdcErrorCode::WrongState => 0x02,
            CdcErrorCode::Other => 0x03,
        }
    }

    /// The value that the byte `b` encodes; a byte that encodes none is
    /// reported as an invalid value for this type.
    pub fn try_from_u8(b: u8) -> (r: Result<CdcErrorCode, Error>)
        ensures
            r matches Ok(v) ==> Self::from_code(b) == Some(v),
            r matches Err(e) ==> Self::from_code(b) is None && e@ == invalid_value("CdcErrorCode"@, b as nat),
            r is Ok <==> Self::from_code(b) is Some,
    {
        match b {
            0x00 => Ok(CdcErrorCode::NoError),
            0x01 => Ok(CdcErrorCode::CapUnsupported),
            0x02 => Ok(CdcErrorCode::WrongState),
            0x03 => Ok(CdcErrorCode::Other),
            _ => Err(Error::invalid_value("CdcErrorCode", b)),
        }
    }

    /// Decoding the code of a value gives the value back, and a byte
    /// decodes only to a value of which it is the code.
    pub proof fn lemma_code(self, b: u8)
        ensures
            Self::from_code(self.code()) == Some(self),
            Self::from_code(b) matches Some(v) ==> v.code() == b,
    {
    }
}

impl From<CdcErrorCode> for u8 {
    fn from(v: CdcErrorCode) -> (r: u8) {
        v.to_u8()
    }
}

impl vstd::std_specs::convert::FromSpecImpl<CdcErrorCode> for u8 {
    open spec fn obeys_from_spec() -> bool {
        true
    }

    open spec fn from_spec(v: CdcErrorCode) -> u8 {
        v.code()
    }
}

impl OperandEncodable for CdcErrorCode {
    open spec fn spec_bytes(&self) -> Seq<u8> {
        seq![self.code()]
    }

    open spec fn spec_parse(bytes: Seq<u8>) -> Result<Self, ErrorView> {
        parse_code(bytes, |b: u8| Self::from_code(b), "CdcErrorCode"@)
    }

    open spec fn spec_wf(&self) -> bool {
        true
    }

    open spec fn spec_expected_len() -> RangeView {
        RangeView::AtLeast(1)
    }

    open spec fn spec_self_delimiting() -> bool {
        true
    }

    fn to_bytes(&self, buf: &mut Vec<u8>) {
        buf.push(self.to_u8());
    }

    fn try_from_bytes(bytes: &[u8]) -> (r: Result<Self, Error>) {
        if bytes.len() < 1 {
            return Err(Error::short_input(1, bytes.len()));
        }
        Self::try_from_u8(bytes[0])
    }

    fn len(&self) -> (r: usize) {
        1
    }

    fn expected_len() -> (r: Range) {
        Range::AtLeast(1)
    }

    proof fn lemma_roundtrip(&self, rest: Seq<u8>) {
        self.lemma_code(0);
        assert((self.spec_bytes() + rest)[0] == self.code());
    }

    proof fn lemma_parse_len(bytes: Seq<u8>) {
    }
}

/// A day of a month, 1 to 31.
#[derive(Clone, Copy, Debug, PartialEq, Eq, Structural, Hash)]
pub enum DayOfMonth {
    Day1,
    Day2,
    Day3,
    Day4,
    Day5,
    Day6,
    Day7,
    Day8,
    Day9,
    Day10,
    Day11,
    Day12,
    Day13,
    Day14,
    Day15,
    Day16,
    Day17,
    Day18,
    Day19,
    Day20,
    Day21,
    Day22,
    Day23,
    Day24,
    Day25,
    Day26,
    Day27,
    Day28,
    Day29,
    Day30,
    Day31,
}

impl DayOfMonth {
    /// The byte that encodes the value.
    pub open spec fn code(self) -> u8 {
        match self {
            DayOfMonth::Day1 => 0x01u8,
            DayOfMonth::Day2 => 0x02u8,
            DayOfMonth::Day3 => 0x03u8,
            DayOfMonth::Day4 => 0x04u8,
            DayOfMonth::Day5 => 0x05u8,
            DayOfMonth::Day6 => 0x06u8,
            DayOfMonth::Day7 => 0x07u8,
            DayOfMonth::Day8 => 0x08u8,
            DayOfMonth::Day9 => 0x09u8,
            DayOfMonth::Day10 => 0x0au8,
            DayOfMonth::Day11 => 0x0bu8,
            DayOfMonth::Day12 => 0x0cu8,
            DayOfMonth::Day13 => 0x0du8,
            DayOfMonth::Day14 => 0x0eu8,
            DayOfMonth::Day15 => 0x0fu8,
            DayOfMonth::Day16 => 0x10u8,
            DayOfMonth::Day17 => 0x11u8,
            DayOfMonth::Day18 => 0x12u8,
            DayOfMonth::Day19 => 0x13u8,
            DayOfMonth::Day20 => 0x14u8,
            DayOfMonth::Day21 => 0x15u8,
            DayOfMonth::Day22 => 0x16u8,
            DayOfMonth::Day23 => 0x17u8,
            DayOfMonth::Day24 => 0x18u8,
            DayOfMonth::Day25 => 0x19u8,
            DayOfMonth::Day26 => 0x1au8,
            DayOfMonth::Day27 => 0x1bu8,
            DayOfMonth::Day28 => 0x1cu8,
            DayOfMonth::Day29 => 0x1du8,
            DayOfMonth::Day30 => 0x1eu8,
            DayOfMonth::Day31 => 0x1fu8,
        }
    }

    /// Each value and the byte that encodes it.
    pub proof fn lemma_code_table()
        ensures
            DayOfMonth::Day1.code() == 0x01u8,
            DayOfMonth::Day2.code() == 0x02u8,
            DayOfMonth::Day3.code() == 0x03u8,
            DayOfMonth::Day4.code() == 0x04u8,
            DayOfMonth::Day5.code() == 0x05u8,
            DayOfMonth::Day6.code() == 0x06u8,
            DayOfMonth::Day7.code() == 0x07u8,
            DayOfMonth::Day8.code() == 0x08u8,
            DayOfMonth::Day9.code() == 0x09u8,
            DayOfMonth::Day10.code() == 0x0au8,
            DayOfMonth::Day11.code() == 0x0bu8,
            DayOfMonth::Day12.code() == 0x0cu8,
            DayOfMonth::Day13.code() == 0x0du8,
            DayOfMonth::Day14.code() == 0x0eu8,
            DayOfMonth::Day15.code() == 0x0fu8,
            DayOfMonth::Day16.code() == 0x10u8,
            DayOfMonth::Day17.code() == 0x11u8,
            DayOfMonth::Day18.code() == 0x12u8,
            DayOfMonth::Day19.code() == 0x13u8,
            DayOfMonth::Day20.code() == 0x14u8,
            DayOfMonth::Day21.code() == 0x15u8,
            DayOfMonth::Day22.code() == 0x16u8,
            DayOfMonth::Day23.code() == 0x17u8,
            DayOfMonth::Day24.code() == 0x18u8,
            DayOfMonth::Day25.code() == 0x19u8,
            DayOfMonth::Day26.code() == 0x1au8,
            DayOfMonth::Day27.code() == 0x1bu8,
            DayOfMonth::Day28.code() == 0x1cu8,
            DayOfMonth::Day29.code() == 0x1du8,
            DayOfMonth::Day30.code() == 0x1eu8,
            DayOfMonth::Day31.code() == 0x1fu8,
    {
    }

    /// The value that the byte `b` encodes, if any.
    pub open spec fn from_code(b: u8) -> Option<DayOfMonth> {
        match b {
            0x01u8 => Some(DayOfMonth::Day1),
            0x02u8 => Some(DayOfMonth::Day2),
            0x03u8 => Some(DayOfMonth::Day3),
            0x04u8 => Some(DayOfMonth::Day4),
            0x05u8 => Some(DayOfMonth::Day5),
            0x06u8 => Some(DayOfMonth::Day6),
            0x07u8 => Some(DayOfMonth::Day7),
            0x08u8 => Some(DayOfMonth::Day8),
            0x09u8 => Some(DayOfMonth::Day9),
            0x0au8 => Some(DayOfMonth::Day10),
            0x0bu8 => Some(DayOfMonth::Day11),
            0x0cu8 => Some(DayOfMonth::Day12),
            0x0du8 => Some(DayOfMonth::Day13),
            0x0eu8 => Some(DayOfMonth::Day14),
            0x0fu8 => Some(DayOfMonth::Day15),
            0x10u8 => Some(DayOfMonth::Day16),
            0x11u8 => Some(DayOfMonth::Day17),
            0x12u8 => Some(DayOfMonth::Day18),
            0x13u8 => Some(DayOfMonth::Day19),
            0x14u8 => Some(DayOfMonth::Day20),
            0x15u8 => Some(DayOfMonth::Day21),
            0x16u8 => Some(DayOfMonth::Day22),
            0x17u8 => Some(DayOfMonth::Day23),
            0x18u8 => Some(DayOfMonth::Day24),
            0x19u8 => Some(DayOfMonth::Day25),
            0x1au8 => Some(DayOfMonth::Day26),
            0x1bu8 => Some(DayOfMonth::Day27),
            0x1cu8 => Some(DayOfMonth::Day28),
            0x1du8 => Some(DayOfMonth::Day29),
            0x1eu8 => Some(DayOfMonth::Day30),
            0x1fu8 => Some(DayOfMonth::Day31),
            _ => None,
        }
    }

    /// The byte that encodes the value.
    pub fn to_u8(self) -> (r: u8)
        ensures
            r == self.code(),
    {
        match self {
            DayOfMonth::Day1 => 0x01,
            DayOfMonth::Day2 => 0x02,
            DayOfMonth::Day3 => 0x03,
            DayOfMonth::Day4 => 0x04,
            DayOfMonth::Day5 => 0x05,
            DayOfMonth::Day6 => 0x06,
            DayOfMonth::Day7 => 0x07,
            DayOfMonth::Day8 => 0x08,
            DayOfMonth::Day9 => 0x09,
            DayOfMonth::Day10 => 0x0a,
            DayOfMonth::Day11 => 0x0b,
            DayOfMonth::Day12 => 0x0c,
            DayOfMonth::Day13 => 0x0d,
            DayOfMonth::Day14 => 0x0e,
            DayOfMonth::Day15 => 0x0f,
            DayOfMonth::Day16 => 0x10,
            DayOfMonth::Day17 => 0x11,
            DayOfMonth::Day18 => 0x12,
            DayOfMonth::Day19 => 0x13,
            DayOfMonth::Day20 => 0x14,
            DayOfMonth::Day21 => 0x15,
            DayOfMonth::Day22 => 0x16,
            DayOfMonth::Day23 => 0x17,
            DayOfMonth::Day24 => 0x18,
            DayOfMonth::Day25 => 0x19,
            DayOfMonth::Day26 => 0x1a,
            DayOfMonth::Day27 => 0x1b,
            DayOfMonth::Day28 => 0x1c,
            DayOfMonth::Day29 => 0x1d,
            DayOfMonth::Day30 => 0x1e,
            DayOfMonth::Day31 => 0x1f,
        }
    }

    /// The value that the byte `b` encodes; a byte that encodes none is
    /// reported as an invalid value for this type.
    pub fn try_from_u8(b: u8) -> (r: Result<DayOfMonth, Error>)
        ensures
            r matches Ok(v) ==> Self::from_code(b) == Some(v),
            r matches Err(e) ==> Self::from_code(b) is None && e@ == invalid_value("DayOfMonth"@, b as nat),
            r is Ok <==> Self::from_code(b) is Some,
    {
        match b {
            0x01 => Ok(DayOfMonth::Day1),
            0x02 => Ok(DayOfMonth::Day2),
            0x03 => Ok(DayOfMonth::Day3),
            0x04 => Ok(DayOfMonth::Day4),
            0x05 => Ok(DayOfMonth::Day5),
            0x06 => Ok(DayOfMonth::Day6),
            0x07 => Ok(DayOfMonth::Day7),
            0x08 => Ok(DayOfMonth::Day8),
            0x09 => Ok(DayOfMonth::Day9),
            0x0a => Ok(DayOfMonth::Day10),
            0x0b => Ok(DayOfMonth::Day11),
            0x0c => Ok(DayOfMonth::Day12),
            0x0d => Ok(DayOfMonth::Day13),
            0x0e => Ok(DayOfMonth::Day14),
            0x0f => Ok(DayOfMonth::Day15),
            0x10 => Ok(DayOfMonth::Day16),
            0x11 => Ok(DayOfMonth::Day17),
            0x12 => Ok(DayOfMonth::Day18),
            0x13 => Ok(DayOfMonth::Day19),
            0x14 => Ok(DayOfMonth::Day20),
            0x15 => Ok(DayOfMonth::Day21),
            0x16 => Ok(DayOfMonth::Day22),
            0x17 => Ok(DayOfMonth::Day23),
            0x18 => Ok(DayOfMonth::Day24),
            0x19 => Ok(DayOfMonth::Day25),
            0x1a => Ok(DayOfMonth::Day26),
            0x1b => Ok(DayOfMonth::Day27),
            0x1c => Ok(DayOfMonth::Day28),
            0x1d => Ok(DayOfMonth::Day29),
            0x1e => Ok(DayOfMonth::Day30),
            0x1f => Ok(DayOfMonth::Day31),
            _ => Err(Error::invalid_value("DayOfMonth", b)),
        }
    }

    /// Decoding the code of a value gives the value back, and a byte
    /// decodes only to a value of which it is the code.
    pub proof fn lemma_code(self, b: u8)
        ensures
            Self::from_code(self.code()) == Some(self),
            Self::from_code(b) matches Some(v) ==> v.code() == b,
    {
    }
}

impl From<DayOfMonth> for u8 {
    fn from(v: DayOfMonth) -> (r: u8) {
        v.to_u8()
    }
}

impl vstd::std_specs::convert::FromSpecImpl<DayOfMonth> for u8 {
    open spec fn obeys_from_spec() -> bool {
        true
    }

    open spec fn from_spec(v: DayOfMonth) -> u8 {
        v.code()
    }
}

impl OperandEncodable for DayOfMonth {
    open spec fn spec_bytes(&self) -> Seq<u8> {
        seq![self.code()]
    }

    open spec fn spec_parse(bytes: Seq<u8>) -> Result<Self, ErrorView> {
        parse_code(bytes, |b: u8| Self::from_code(b), "DayOfMonth"@)
    }

    open spec fn spec_wf(&self) -> bool {
        true
    }

    open spec fn spec_expected_len() -> RangeView {
        RangeView::AtLeast(1)
    }

    open spec fn spec_self_delimiting() -> bool {
        true
    }

    fn to_bytes(&self, buf: &mut Vec<u8>) {
        buf.push(self.to_u8());
    }

    fn try_from_bytes(bytes: &[u8]) -> (r: Result<Self, Error>) {
        if bytes.len() < 1 {
            return Err(Error::short_input(1, bytes.len()));
        }
        Self::try_from_u8(bytes[0])
    }

    fn len(&self) -> (r: usize) {
        1
    }

    fn expected_len() -> (r: Range) {
        Range::AtLeast(1)
    }

    proof fn lemma_roundtrip(&self, rest: Seq<u8>) {
        self.lemma_code(0);
        assert((self.spec_bytes() + rest)[0] == self.code());
    }

    proof fn lemma_parse_len(bytes: Seq<u8>) {
    }
}

/// A deck control command.
#[derive(Clone, Copy, Debug, PartialEq, Eq, Structural, Hash)]
pub enum DeckControlMode {
    SkipForward,
    SkipReverse,
    Stop,
    Eject,
}

impl DeckControlMode {
    /// The byte that encodes the value.
    pub open spec fn code(self) -> u8 {
        match self {
            DeckControlMode::SkipForward => 0x01u8,
            DeckControlMode::SkipReverse => 0x02u8,
            DeckControlMode::Stop => 0x03u8,
            DeckControlMode::Eject => 0x04u8,
        }
    }

    /// Each value and the byte that encodes it.
    pub proof fn lemma_code_table()
        ensures
            DeckControlMode::SkipForward.code() == 0x01u8,
            DeckControlMode::SkipReverse.code() == 0x02u8,
            DeckControlMode::Stop.code() == 0x03u8,
            DeckControlMode::Eject.code() == 0x04u8,
    {
    }

    /// The value that the byte `b` encodes, if any.
    pub open spec fn from_code(b: u8) -> Option<DeckControlMode> {
        match b {
            0x01u8 => Some(DeckControlMode::SkipForward),
            0x02u8 => Some(DeckControlMode::SkipReverse),
            0x03u8 => Some(DeckControlMode::Stop),
            0x04u8 => Some(DeckControlMode::Eject),
            _ => None,
        }
    }

    /// The byte that encodes the value.
    pub fn to_u8(self) -> (r: u8)
        ensures
            r == self.code(),
    {
        match self {
            DeckControlMode::SkipForward => 0x01,
            DeckControlMode::SkipReverse => 0x02,
            DeckControlMode::Stop => 0x03,
            DeckControlMode::Eject => 0x04,
        }
    }

    /// The value that the byte `b` encodes; a byte that encodes none is
    /// reported as an invalid value for this type.
    pub fn try_from_u8(b: u8) -> (r: Result<DeckControlMode, Error>)
        ensures
            r matches Ok(v) ==> Self::from_code(b) == Some(v),
            r matches Err(e) ==> Self::from_code(b) is None && e@ == invalid_value("DeckControlMode"@, b as nat),
            r is Ok <==> Self::from_code(b) is Some,
    {
        match b {
            0x01 => Ok(DeckControlMode::SkipForward),
            0x02 => Ok(DeckControlMode::SkipReverse),
            0x03 => Ok(DeckControlMode::Stop),
            0x04 => Ok(DeckControlMode::Eject),
            _ => Err(Error::invalid_value("DeckControlMode", b)),
        }
    }

    /// Decoding the code of a value gives the value back, and a byte
    /// decodes only to a value of which it is the code.
    pub proof fn lemma_code(self, b: u8)
        ensures
            Self::from_code(self.code()) == Some(self),
            Self::from_code(b) matches Some(v) ==> v.code() == b,
    {
    }
}

impl From<DeckControlMode> for u8 {
    fn from(v: DeckControlMode) -> (r: u8) {
        v.to_u8()
    }
}

impl vstd::std_specs::convert::FromSpecImpl<DeckControlMode> for u8 {
    open spec fn obeys_from_spec() -> bool {
        true
    }

    open spec fn from_spec(v: DeckControlMode) -> u8 {
        v.code()
    }
}

impl OperandEncodable for DeckControlMode {
    open spec fn spec_bytes(&self) -> Seq<u8> {
        seq![self.code()]
    }

    open spec fn spec_parse(bytes: Seq<u8>) -> Result<Self, ErrorView> {
        parse_code(bytes, |b: u8| Self::from_code(b), "DeckControlMode"@)
    }

    open spec fn spec_wf(&self) -> bool {
        true
    }

    open spec fn spec_expected_len() -> RangeView {
        RangeView::AtLeast(1)
    }

    open spec fn spec_self_delimiting() -> bool {
        true
    }

    fn to_bytes(&self, buf: &mut Vec<u8>) {
        buf.push(self.to_u8());
    }

    fn try_from_bytes(bytes: &[u8]) -> (r: Result<Self, Error>) {
        if bytes.len() < 1 {
            return Err(Error::short_input(1, bytes.len()));
        }
        Self::try_from_u8(bytes[0])
    }

    fn len(&self) -> (r: usize) {
        1
    }

    fn expected_len() -> (r: Range) {
        Range::AtLeast(1)
    }

    proof fn lemma_roundtrip(&self, rest: Seq<u8>) {
        self.lemma_code(0);
        assert((self.spec_bytes() + rest)[0] == self.code());
    }

    proof fn lemma_parse_len(bytes: Seq<u8>) {
    }
}

/// The state of a deck.
#[derive(Clone, Copy, Debug, PartialEq, Eq, Structural, Hash)]
pub enum DeckInfo {
    Play,
    Record,
    PlayReverse,
    Still,
    Slow,
    SlowReverse,
    FastForward,
    FastReverse,
    NoMedia,
    Stop,
    SkipForward,
    SkipReverse,
    IndexSearchForward,
    IndexSearchReverse,
    Other,
}

impl DeckInfo {
    /// The byte that encodes the value.
    pub open spec fn code(self) -> u8 {
        match self {
            DeckInfo::Play => 0x11u8,
            DeckInfo::Record => 0x12u8,
            DeckInfo::PlayReverse => 0x13u8,
            DeckInfo::Still => 0x14u8,
            DeckInfo::Slow => 0x15u8,
            DeckInfo::SlowReverse => 0x16u8,
            DeckInfo::FastForward => 0x17u8,
            DeckInfo::FastReverse => 0x18u8,
            DeckInfo::NoMedia => 0x19u8,
            DeckInfo::Stop => 0x1au8,
            DeckInfo::SkipForward => 0x1bu8,
            DeckInfo::SkipReverse => 0x1cu8,
            DeckInfo::IndexSearchForward => 0x1du8,
            DeckInfo::IndexSearchReverse => 0x1eu8,
            DeckInfo::Other => 0x1fu8,
        }
    }

    /// Each value and the byte that encodes it.
    pub proof fn lemma_code_table()
        ensures
            DeckInfo::Play.code() == 0x11u8,
            DeckInfo::Record.code() == 0x12u8,
            DeckInfo::PlayReverse.code() == 0x13u8,
            DeckInfo::Still.code() == 0x14u8,
            DeckInfo::Slow.code() == 0x15u8,
            DeckInfo::SlowReverse.code() == 0x16u8,
            DeckInfo::FastForward.code() == 0x17u8,
            DeckInfo::FastReverse.code() == 0x18u8,
            DeckInfo::NoMedia.code() == 0x19u8,
            DeckInfo::Stop.code() == 0x1au8,
            DeckInfo::SkipForward.code() == 0x1bu8,
            DeckInfo::SkipReverse.code() == 0x1cu8,
            DeckInfo::IndexSearchForward.code() == 0x1du8,
            DeckInfo::IndexSearchReverse.code() == 0x1eu8,
            DeckInfo::Other.code() == 0x1fu8,
    {
    }

    /// The value that the byte `b` encodes, if any.
    pub open spec fn from_code(b: u8) -> Option<DeckInfo> {
        match b {
            0x11u8 => Some(DeckInfo::Play),
            0x12u8 => Some(DeckInfo::Record),
            0x13u8 => Some(DeckInfo::PlayReverse),
            0x14u8 => Some(DeckInfo::Still),
            0x15u8 => Some(DeckInfo::Slow),
            0x16u8 => Some(DeckInfo::SlowReverse),
            0x17u8 => Some(DeckInfo::FastForward),
            0x18u8 => Some(DeckInfo::FastReverse),
            0x19u8 => Some(DeckInfo::NoMedia),
            0x1au8 => Some(DeckInfo::Stop),
            0x1bu8 => Some(DeckInfo::SkipForward),
            0x1cu8 => Some(DeckInfo::SkipReverse),
            0x1du8 => Some(DeckInfo::IndexSearchForward),
            0x1eu8 => Some(DeckInfo::IndexSearchReverse),
            0x1fu8 => Some(DeckInfo::Other),
            _ => None,
        }
    }

    /// The byte that encodes the value.
    pub fn to_u8(self) -> (r: u8)
        ensures
            r == self.code(),
    {
        match self {
            DeckInfo::Play => 0x11,
            DeckInfo::Record => 0x12,
            DeckInfo::PlayReverse => 0x13,
            DeckInfo::Still => 0x14,
            DeckInfo::Slow => 0x15,
            DeckInfo::SlowReverse => 0x16,
            DeckInfo::FastForward => 0x17,
            DeckInfo::FastReverse => 0x18,
            DeckInfo::NoMedia => 0x19,
            DeckInfo::Stop => 0x1a,
            DeckInfo::SkipForward => 0x1b,
            DeckInfo::SkipReverse => 0x1c,
            DeckInfo::IndexSearchForward => 0x1d,
            DeckInfo::IndexSearchReverse => 0x1e,
            DeckInfo::Other => 0x1f,
        }
    }

    /// The value that the byte `b` encodes; a byte that encodes none is
    /// reported as an invalid value for this type.
    pub fn try_from_u8(b: u8) -> (r: Result<DeckInfo, Error>)
        ensures
            r matches Ok(v) ==> Self::from_code(b) == Some(v),
            r matches Err(e) ==> Self::from_code(b) is None && e@ == invalid_value("DeckInfo"@, b as nat),
            r is Ok <==> Self::from_code(b) is Some,
    {
        match b {
            0x11 => Ok(DeckInfo::Play),
            0x12 => Ok(DeckInfo::Record),
            0x13 => Ok(DeckInfo::PlayReverse),
            0x14 => Ok(DeckInfo::Still),
            0x15 => Ok(DeckInfo::Slow),
            0x16 => Ok(DeckInfo::SlowReverse),
            0x17 => Ok(DeckInfo::FastForward),
            0x18 => Ok(DeckInfo::FastReverse),
            0x19 => Ok(DeckInfo::NoMedia),
            0x1a => Ok(DeckInfo::Stop),
            0x1b => Ok(DeckInfo::SkipForward),
            0x1c => Ok(DeckInfo::SkipReverse),
            0x1d => Ok(DeckInfo::IndexSearchForward),
            0x1e => Ok(DeckInfo::IndexSearchReverse),
            0x1f => Ok(DeckInfo::Other),
            _ => Err(Error::invalid_value("DeckInfo", b)),
        }
    }

    /// Decoding the code of a value gives the value back, and a byte
    /// decodes only to a value of which it is the code.
    pub proof fn lemma_code(self, b: u8)
        ensures
            Self::from_code(self.code()) == Some(self),
            Self::from_code(b) matches Some(v) ==> v.code() == b,
    {
    }
}

impl From<DeckInfo> for u8 {
    fn from(v: DeckInfo) -> (r: u8) {
        v.to_u8()
    }
}

impl vstd::std_specs::convert::FromSpecImpl<DeckInfo> for u8 {
    open spec fn obeys_from_spec() -> bool {
        true
    }

    open spec fn from_spec(v: DeckInfo) -> u8 {
        v.code()
    }
}

impl OperandEncodable for DeckInfo {
    open spec fn spec_bytes(&self) -> Seq<u8> {
        seq![self.code()]
    }

    open spec fn spec_parse(bytes: Seq<u8>) -> Result<Self, ErrorView> {
        parse_code(bytes, |b: u8| Self::from_code(b), "DeckInfo"@)
    }

    open spec fn spec_wf(&self) -> bool {
        true
    }

    open spec fn spec_expected_len() -> RangeView {
        RangeView::AtLeast(1)
    }

    open spec fn spec_self_delimiting() -> bool {
        true
    }

    fn to_bytes(&self, buf: &mut Vec<u8>) {
        buf.push(self.to_u8());
    }

    fn try_from_bytes(bytes: &[u8]) -> (r: Result<Self, Error>) {
        if bytes.len() < 1 {
            return Err(Error::short_input(1, bytes.len()));
        }
        Self::try_from_u8(bytes[0])
    }

    fn len(&self) -> (r: usize) {
        1
    }

    fn expected_len() -> (r: Range) {
        Range::AtLeast(1)
    }

    proof fn lemma_roundtrip(&self, rest: Seq<u8>) {
        self.lemma_code(0);
        assert((self.spec_bytes() + rest)[0] == self.code());
    }

    proof fn lemma_parse_len(bytes: Seq<u8>) {
    }
}

/// A digital broadcast system.
#[derive(Clone, Copy, Debug, PartialEq, Eq, Structural, Hash)]
pub enum DigitalServiceBroadcastSystem {
    AribGeneric,
    AtscGeneric,
    DvbGeneric,
    AribBs,
    AribCs,
    AribT,
    AtscCable,
    AtscSatellite,
    AtscTerrestrial,
    DvbC,
    DvbS,
    DvbS2,
    DvbT,
}

impl DigitalServiceBroadcastSystem {
    /// The byte that encodes the value.
    pub open spec fn code(self) -> u8 {
        match self {
            DigitalServiceBroadcastSystem::AribGeneric => 0x00u8,
            DigitalServiceBroadcastSystem::AtscGeneric => 0x01u8,
            DigitalServiceBroadcastSystem::DvbGeneric => 0x02u8,
            DigitalServiceBroadcastSystem::AribBs => 0x08u8,
            DigitalServiceBroadcastSystem::AribCs => 0x09u8,
            DigitalServiceBroadcastSystem::AribT => 0x0au8,
            DigitalServiceBroadcastSystem::AtscCable => 0x10u8,
            DigitalServiceBroadcastSystem::AtscSatellite => 0x11u8,
            DigitalServiceBroadcastSystem::AtscTerrestrial => 0x12u8,
            DigitalServiceBroadcastSystem::DvbC => 0x18u8,
            DigitalServiceBroadcastSystem::DvbS => 0x19u8,
            DigitalServiceBroadcastSystem::DvbS2 => 0x1au8,
            DigitalServiceBroadcastSystem::DvbT => 0x1bu8,
        }
    }

    /// Each value and the byte that encodes it.
    pub proof fn lemma_code_table()
        ensures
            DigitalServiceBroadcastSystem::AribGeneric.code() == 0x00u8,
            DigitalServiceBroadcastSystem::AtscGeneric.code() == 0x01u8,
            DigitalServiceBroadcastSystem::DvbGeneric.code() == 0x02u8,
            DigitalServiceBroadcastSystem::AribBs.code() == 0x08u8,
            DigitalServiceBroadcastSystem::AribCs.code() == 0x09u8,
            DigitalServiceBroadcastSystem::AribT.code() == 0x0au8,
            DigitalServiceBroadcastSystem::AtscCable.code() == 0x10u8,
            DigitalServiceBroadcastSystem::AtscSatellite.code() == 0x11u8,
            DigitalServiceBroadcastSystem::AtscTerrestrial.code() == 0x12u8,
            DigitalServiceBroadcastSystem::DvbC.code() == 0x18u8,
            DigitalServiceBroadcastSystem::DvbS.code() == 0x19u8,
            DigitalServiceBroadcastSystem::DvbS2.code() == 0x1au8,
            DigitalServiceBroadcastSystem::DvbT.code() == 0x1bu8,
    {
    }

    /// The value that the byte `b` encodes, if any.
    pub open spec fn from_code(b: u8) -> Option<DigitalServiceBroadcastSystem> {
        match b {
            0x00u8 => Some(DigitalServiceBroadcastSystem::AribGeneric),
            0x01u8 => Some(DigitalServiceBroadcastSystem::AtscGeneric),
            0x02u8 => Some(DigitalServiceBroadcastSystem::DvbGeneric),
            0x08u8 => Some(DigitalServiceBroadcastSystem::AribBs),
            0x09u8 => Some(DigitalServiceBroadcastSystem::AribCs),
            0x0au8 => Some(DigitalServiceBroadcastSystem::AribT),
            0x10u8 => Some(DigitalServiceBroadcastSystem::AtscCable),
            0x11u8 => Some(DigitalServiceBroadcastSystem::AtscSatellite),
            0x12u8 => Some(DigitalServiceBroadcastSystem::AtscTerrestrial),
            0x18u8 => Some(DigitalServiceBroadcastSystem::DvbC),
            0x19u8 => Some(DigitalServiceBroadcastSystem::DvbS),
            0x1au8 => Some(DigitalServiceBroadcastSystem::DvbS2),
            0x1bu8 => Some(DigitalServiceBroadcastSystem::DvbT),
            _ => None,
        }
    }

    /// The byte that encodes the value.
    pub fn to_u8(self) -> (r: u8)
        ensures
            r == self.code(),
    {
        match self {
            DigitalServiceBroadcastSystem::AribGeneric => 0x00,
            DigitalServiceBroadcastSystem::AtscGeneric => 0x01,
            DigitalServiceBroadcastSystem::DvbGeneric => 0x02,
            DigitalServiceBroadcastSystem::AribBs => 0x08,
            DigitalServiceBroadcastSystem::AribCs => 0x09,
            DigitalServiceBroadcastSystem::AribT => 0x0a,
            DigitalServiceBroadcastSystem::AtscCable => 0x10,
            DigitalServiceBroadcastSystem::AtscSatellite => 0x11,
            DigitalServiceBroadcastSystem::AtscTerrestrial => 0x12,
            DigitalServiceBroadcastSystem::DvbC => 0x18,
            DigitalServiceBroadcastSystem::DvbS => 0x19,
            DigitalServiceBroadcastSystem::DvbS2 => 0x1a,
            DigitalServiceBroadcastSystem::DvbT => 0x1b,
        }
    }

    /// The value that the byte `b` encodes; a byte that encodes none is
    /// reported as an invalid value for this type.
    pub fn try_from_u8(b: u8) -> (r: Result<DigitalServiceBroadcastSystem, Error>)
        ensures
            r matches Ok(v) ==> Self::from_code(b) == Some(v),
            r matches Err(e) ==> Self::from_code(b) is None && e@ == invalid_value("DigitalServiceBroadcastSystem"@, b as nat),
            r is Ok <==> Self::from_code(b) is Some,
    {
        match b {
            0x00 => Ok(DigitalServiceBroadcastSystem::AribGeneric),
            0x01 => Ok(DigitalServiceBroadcastSystem::AtscGeneric),
            0x02 => Ok(DigitalServiceBroadcastSystem::DvbGeneric),
            0x08 => Ok(DigitalServiceBroadcastSystem::AribBs),
            0x09 => Ok(DigitalServiceBroadcastSystem::AribCs),
            0x0a => Ok(DigitalServiceBroadcastSystem::AribT),
            0x10 => Ok(DigitalServiceBroadcastSystem::AtscCable),
            0x11 => Ok(DigitalServiceBroadcastSystem::AtscSatellite),
            0x12 => Ok(DigitalServiceBroadcastSystem::AtscTerrestrial),
            0x18 => Ok(DigitalServiceBroadcastSystem::DvbC),
            0x19 => Ok(DigitalServiceBroadcastSystem::DvbS),
            0x1a => Ok(DigitalServiceBroadcastSystem::DvbS2),
            0x1b => Ok(DigitalServiceBroadcastSystem::DvbT),
            _ => Err(Error::invalid_value("DigitalServiceBroadcastSystem", b)),
        }
    }

    /// Decoding the code of a value gives the value back, and a byte
    /// decodes only to a value of which it is the code.
    pub proof fn lemma_code(self, b: u8)
        ensures
            Self::from_code(self.code()) == Some(self),
            Self::from_code(b) matches Some(v) ==> v.code() == b,
    {
    }
}

impl From<DigitalServiceBroadcastSystem> for u8 {
    fn from(v: DigitalServiceBroadcastSystem) -> (r: u8) {
        v.to_u8()
    }
}

impl vstd::std_specs::convert::FromSpecImpl<DigitalServiceBroadcastSystem> for u8 {
    open spec fn obeys_from_spec() -> bool {
        true
    }

    open spec fn from_spec(v: DigitalServiceBroadcastSystem) -> u8 {
        v.code()
    }
}

impl OperandEncodable for DigitalServiceBroadcastSystem {
    open spec fn spec_bytes(&self) -> Seq<u8> {
        seq![self.code()]
    }

    open spec fn spec_parse(bytes: Seq<u8>) -> Result<Self, ErrorView> {
        parse_code(bytes, |b: u8| Self::from_code(b), "DigitalServiceBroadcastSystem"@)
    }

    open spec fn spec_wf(&self) -> bool {
        true
    }

    open spec fn spec_expected_len() -> RangeView {
        RangeView::AtLeast(1)
    }

    open spec fn spec_self_delimiting() -> bool {
        true
    }

    fn to_bytes(&self, buf: &mut Vec<u8>) {
        buf.push(self.to_u8());
    }

    fn try_from_bytes(bytes: &[u8]) -> (r: Result<Self, Error>) {
        if bytes.len() < 1 {
            return Err(Error::short_input(1, bytes.len()));
        }
        Self::try_from_u8(bytes[0])
    }

    fn len(&self) -> (r: usize) {
        1
    }

    fn expected_len() -> (r: Range) {
        Range::AtLeast(1)
    }

    proof fn lemma_roundtrip(&self, rest: Seq<u8>) {
        self.lemma_code(0);
        assert((self.spec_bytes() + rest)[0] == self.code());
    }

    proof fn lemma_parse_len(bytes: Seq<u8>) {
    }
}

/// How long an on-screen string is shown.
#[derive(Clone, Copy, Debug, PartialEq, Eq, Structural, Hash)]
pub enum DisplayControl {
    Default,
    UntilCleared,
    Clear,
}

impl DisplayControl {
    /// The byte that encodes the value.
    pub open spec fn code(self) -> u8 {
        match self {
            DisplayControl::Default => 0x00u8,
            DisplayControl::UntilCleared => 0x40u8,
            DisplayControl::Clear => 0x80u8,
        }
    }

    /// Each value and the byte that encodes it.
    pub proof fn lemma_code_table()
        ensures
            DisplayControl::Default.code() == 0x00u8,
            DisplayControl::UntilCleared.code() == 0x40u8,
            DisplayControl::Clear.code() == 0x80u8,
    {
    }

    /// The value that the byte `b` encodes, if any.
    pub open spec fn from_code(b: u8) -> Option<DisplayControl> {
        match b {
            0x00u8 => Some(DisplayControl::Default),
            0x40u8 => Some(DisplayControl::UntilCleared),
            0x80u8 => Some(DisplayControl::Clear),
            _ => None,
        }
    }

    /// The byte that encodes the value.
    pub fn to_u8(self) -> (r: u8)
        ensures
            r == self.code(),
    {
        match self {
            DisplayControl::Default => 0x00,
            DisplayControl::UntilCleared => 0x40,
            DisplayControl::Clear => 0x80,
        }
    }

    /// The value that the byte `b` encodes; a byte that encodes none is
    /// reported as an invalid value for this type.
    pub fn try_from_u8(b: u8) -> (r: Result<DisplayControl, Error>)
        ensures
            r matches Ok(v) ==> Self::from_code(b) == Some(v),
            r matches Err(e) ==> Self::from_code(b) is None && e@ == invalid_value("DisplayControl"@, b as nat),
            r is Ok <==> Self::from_code(b) is Some,
    {
        match b {
            0x00 => Ok(DisplayControl::Default),
            0x40 => Ok(DisplayControl::UntilCleared),
            0x80 => Ok(DisplayControl::Clear),
            _ => Err(Error::invalid_value("DisplayControl", b)),
        }
    }

    /// Decoding the code of a value gives the value back, and a byte
    /// decodes only to a value of which it is the code.
    pub proof fn lemma_code(self, b: u8)
        ensures
            Self::from_code(self.code()) == Some(self),
            Self::from_code(b) matches Some(v) ==> v.code() == b,
    {
    }
}

impl From<DisplayControl> for u8 {
    fn from(v: DisplayControl) -> (r: u8) {
        v.to_u8()
    }
}

impl vstd::std_specs::convert::FromSpecImpl<DisplayControl> for u8 {
    open spec fn obeys_from_spec() -> bool {
        true
    }

    open spec fn from_spec(v: DisplayControl) -> u8 {
        v.code()
    }
}

impl OperandEncodable for DisplayControl {
    open spec fn spec_bytes(&self) -> Seq<u8> {
        seq![self.code()]
    }

    open spec fn spec_parse(bytes: Seq<u8>) -> Result<Self, ErrorView> {
        parse_code(bytes, |b: u8| Self::from_code(b), "DisplayControl"@)
    }

    open spec fn spec_wf(&self) -> bool {
        true
    }

    open spec fn spec_expected_len() -> RangeView {
        RangeView::AtLeast(1)
    }

    open spec fn spec_self_delimiting() -> bool {
        true
    }

    fn to_bytes(&self, buf: &mut Vec<u8>) {
        buf.push(self.to_u8());
    }

    fn try_from_bytes(bytes: &[u8]) -> (r: Result<Self, Error>) {
        if bytes.len() < 1 {
            return Err(Error::short_input(1, bytes.len()));
        }
        Self::try_from_u8(bytes[0])
    }

    fn len(&self) -> (r: usize) {
        1
    }

    fn expected_len() -> (r: Range) {
        Range::AtLeast(1)
    }

    proof fn lemma_roundtrip(&self, rest: Seq<u8>) {
        self.lemma_code(0);
        assert((self.spec_bytes() + rest)[0] == self.code());
    }

    proof fn lemma_parse_len(bytes: Seq<u8>) {
    }
}

/// The state of an external network connection.
#[derive(Clone, Copy, Debug, PartialEq, Eq, Structural, Hash)]
pub enum EncFunctionalityState {
    ExtConNotSupported,
    ExtConInactive,
    ExtConActive,
}

impl EncFunctionalityState {
    /// The byte that encodes the value.
    pub open spec fn code(self) -> u8 {
        match self {
            EncFunctionalityState::ExtConNotSupported => 0x00u8,
            EncFunctionalityState::ExtConInactive => 0x01u8,
            EncFunctionalityState::ExtConActive => 0x02u8,
        }
    }

    /// Each value and the byte that encodes it.
    pub proof fn lemma_code_table()
        ensures
            EncFunctionalityState::ExtConNotSupported.code() == 0x00u8,
            EncFunctionalityState::ExtConInactive.code() == 0x01u8,
            EncFunctionalityState::ExtConActive.code() == 0x02u8,
    {
    }

    /// The value that the byte `b` encodes, if any.
    pub open spec fn from_code(b: u8) -> Option<EncFunctionalityState> {
        match b {
            0x00u8 => Some(EncFunctionalityState::ExtConNotSupported),
            0x01u8 => Some(EncFunctionalityState::ExtConInactive),
            0x02u8 => Some(EncFunctionalityState::ExtConActive),
            _ => None,
        }
    }

    /// The byte that encodes the value.
    pub fn to_u8(self) -> (r: u8)
        ensures
            r == self.code(),
    {
        match self {
            EncFunctionalityState::ExtConNotSupported => 0x00,
            EncFunctionalityState::ExtConInactive => 0x01,
            EncFunctionalityState::ExtConActive => 0x02,
        }
    }

    /// The value that the byte `b` encodes; a byte that encodes none is
    /// reported as an invalid value for this type.
    pub fn try_from_u8(b: u8) -> (r: Result<EncFunctionalityState, Error>)
        ensures
            r matches Ok(v) ==> Self::from_code(b) == Some(v),
            r matches Err(e) ==> Self::from_code(b) is None && e@ == invalid_value("EncFunctionalityState"@, b as nat),
            r is Ok <==> Self::from_code(b) is Some,
    {
        match b {
            0x00 => Ok(EncFunctionalityState::ExtConNotSupported),
            0x01 => Ok(EncFunctionalityState::ExtConInactive),
            0x02 => Ok(EncFunctionalityState::ExtConActive),
            _ => Err(Error::invalid_value("EncFunctionalityState", b)),
        }
    }

    /// Decoding the code of a value gives the value back, and a byte
    /// decodes only to a value of which it is the code.
    pub proof fn lemma_code(self, b: u8)
        ensures
            Self::from_code(self.code()) == Some(self),
            Self::from_code(b) matches Some(v) ==> v.code() == b,
    {
    }
}

impl From<EncFunctionalityState> for u8 {
    fn from(v: EncFunctionalityState) -> (r: u8) {
        v.to_u8()
    }
}

impl vstd::std_specs::convert::FromSpecImpl<EncFunctionalityState> for u8 {
    open spec fn obeys_from_spec() -> bool {
        true
    }

    open spec fn from_spec(v: EncFunctionalityState) -> u8 {
        v.code()
    }
}

impl OperandEncodable for EncFunctionalityState {
    open spec fn spec_bytes(&self) -> Seq<u8> {
        seq![self.code()]
    }

    open spec fn spec_parse(bytes: Seq<u8>) -> Result<Self, ErrorView> {
        parse_code(bytes, |b: u8| Self::from_code(b), "EncFunctionalityState"@)
    }

    open spec fn spec_wf(&self) -> bool {
        true
    }

    open spec fn spec_expected_len() -> RangeView {
        RangeView::AtLeast(1)
    }

    open spec fn spec_self_delimiting() -> bool {
        true
    }

    fn to_bytes(&self, buf: &mut Vec<u8>) {
        buf.push(self.to_u8());
    }

    fn try_from_bytes(bytes: &[u8]) -> (r: Result<Self, Error>) {
        if bytes.len() < 1 {
            return Err(Error::short_input(1, bytes.len()));
        }
        Self::try_from_u8(bytes[0])
    }

    fn len(&self) -> (r: usize) {
        1
    }

    fn expected_len() -> (r: Range) {
        Range::AtLeast(1)
    }

    proof fn lemma_roundtrip(&self, rest: Seq<u8>) {
        self.lemma_code(0);
        assert((self.spec_bytes() + rest)[0] == self.code());
    }

    proof fn lemma_parse_len(bytes: Seq<u8>) {
    }
}

/// How an external recording source is named.
#[derive(Clone, Copy, Debug, PartialEq, Eq, Structural, Hash)]
pub enum ExternalSourceSpecifier {
    ExternalPlug,
    ExternalPhysicalAddress,
}

impl ExternalSourceSpecifier {
    /// The byte that encodes the value.
    pub open spec fn code(self) -> u8 {
        match self {
            ExternalSourceSpecifier::ExternalPlug => 0x04u8,
            ExternalSourceSpecifier::ExternalPhysicalAddress => 0x05u8,
        }
    }

    /// Each value and the byte that encodes it.
    pub proof fn lemma_code_table()
        ensures
            ExternalSourceSpecifier::ExternalPlug.code() == 0x04u8,
            ExternalSourceSpecifier::ExternalPhysicalAddress.code() == 0x05u8,
    {
    }

    /// The value that the byte `b` encodes, if any.
    pub open spec fn from_code(b: u8) -> Option<ExternalSourceSpecifier> {
        match b {
            0x04u8 => Some(ExternalSourceSpecifier::ExternalPlug),
            0x05u8 => Some(ExternalSourceSpecifier::ExternalPhysicalAddress),
            _ => None,
        }
    }

    /// The byte that encodes the value.
    pub fn to_u8(self) -> (r: u8)
        ensures
            r == self.code(),
    {
        match self {
            ExternalSourceSpecifier::ExternalPlug => 0x04,
            ExternalSourceSpecifier::ExternalPhysicalAddress => 0x05,
        }
    }

    /// The value that the byte `b` encodes; a byte that encodes none is
    /// reported as an invalid value for this type.
    pub fn try_from_u8(b: u8) -> (r: Result<ExternalSourceSpecifier, Error>)
        ensures
            r matches Ok(v) ==> Self::from_code(b) == Some(v),
            r matches Err(e) ==> Self::from_code(b) is None && e@ == invalid_value("ExternalSourceSpecifier"@, b as nat),
            r is Ok <==> Self::from_code(b) is Some,
    {
        match b {
            0x04 => Ok(ExternalSourceSpecifier::ExternalPlug),
            0x05 => Ok(ExternalSourceSpecifier::ExternalPhysicalAddress),
            _ => Err(Error::invalid_value("ExternalSourceSpecifier", b)),
        }
    }

    /// Decoding the code of a value gives the value back, and a byte
    /// decodes only to a value of which it is the code.
    pub proof fn lemma_code(self, b: u8)
        ensures
            Self::from_code(self.code()) == Some(self),
            Self::from_code(b) matches Some(v) ==> v.code() == b,
    {
    }
}

impl From<ExternalSourceSpecifier> for u8 {
    fn from(v: ExternalSourceSpecifier) -> (r: u8) {
        v.to_u8()
    }
}

impl vstd::std_specs::convert::FromSpecImpl<ExternalSourceSpecifier> for u8 {
    open spec fn obeys_from_spec() -> bool {
        true
    }

    open spec fn from_spec(v: ExternalSourceSpecifier) -> u8 {
        v.code()
    }
}

impl OperandEncodable for ExternalSourceSpecifier {
    open spec fn spec_bytes(&self) -> Seq<u8> {
        seq![self.code()]
    }

    open spec fn spec_parse(bytes: Seq<u8>) -> Result<Self, ErrorView> {
        parse_code(bytes, |b: u8| Self::from_code(b), "ExternalSourceSpecifier"@)
    }

    open spec fn spec_wf(&self) -> bool {
        true
    }

    open spec fn spec_expected_len() -> RangeView {
        RangeView::AtLeast(1)
    }

    open spec fn spec_self_delimiting() -> bool {
        true
    }

    fn to_bytes(&self, buf: &mut Vec<u8>) {
        buf.push(self.to_u8());
    }

    fn try_from_bytes(bytes: &[u8]) -> (r: Result<Self, Error>) {
        if bytes.len() < 1 {
            return Err(Error::short_input(1, bytes.len()));
        }
        Self::try_from_u8(bytes[0])
    }

    fn len(&self) -> (r: usize) {
        1
    }

    fn expected_len() -> (r: Range) {
        Range::AtLeast(1)
    }

    proof fn lemma_roundtrip(&self, rest: Seq<u8>) {
        self.lemma_code(0);
        assert((self.spec_bytes() + rest)[0] == self.code());
    }

    proof fn lemma_parse_len(bytes: Seq<u8>) {
    }
}

/// The state of an HDMI Ethernet channel.
#[derive(Clone, Copy, Debug, PartialEq, Eq, Structural, Hash)]
pub enum HecFunctionalityState {
    NotSupported,
    Inactive,
    Active,
    ActivationField,
}

impl HecFunctionalityState {
    /// The byte that encodes the value.
    pub open spec fn code(self) -> u8 {
        match self {
            HecFunctionalityState::NotSupported => 0x00u8,
            HecFunctionalityState::Inactive => 0x01u8,
            HecFunctionalityState::Active => 0x02u8,
            HecFunctionalityState::ActivationField => 0x03u8,
        }
    }

    /// Each value and the byte that encodes it.
    pub proof fn lemma_code_table()
        ensures
            HecFunctionalityState::NotSupported.code() == 0x00u8,
            HecFunctionalityState::Inactive.code() == 0x01u8,
            HecFunctionalityState::Active.code() == 0x02u8,
            HecFunctionalityState::ActivationField.code() == 0x03u8,
    {
    }

    /// The value that the byte `b` encodes, if any.
    pub open spec fn from_code(b: u8) -> Option<HecFunctionalityState> {
        match b {
            0x00u8 => Some(HecFunctionalityState::NotSupported),
            0x01u8 => Some(HecFunctionalityState::Inactive),
            0x02u8 => Some(HecFunctionalityState::Active),
            0x03u8 => Some(HecFunctionalityState::ActivationField),
            _ => None,
        }
    }

    /// The byte that encodes the value.
    pub fn to_u8(self) -> (r: u8)
        ensures
            r == self.code(),
    {
        match self {
            HecFunctionalityState::NotSupported => 0x00,
            HecFunctionalityState::Inactive => 0x01,
            HecFunctionalityState::Active => 0x02,
            HecFunctionalityState::ActivationField => 0x03,
        }
    }

    /// The value that the byte `b` encodes; a byte that encodes none is
    /// reported as an invalid value for this type.
    pub fn try_from_u8(b: u8) -> (r: Result<HecFunctionalityState, Error>)
        ensures
            r matches Ok(v) ==> Self::from_code(b) == Some(v),
            r matches Err(e) ==> Self::from_code(b) is None && e@ == invalid_value("HecFunctionalityState"@, b as nat),
            r is Ok <==> Self::from_code(b) is Some,
    {
        match b {
            0x00 => Ok(HecFunctionalityState::NotSupported),
            0x01 => Ok(HecFunctionalityState::Inactive),
            0x02 => Ok(HecFunctionalityState::Active),
            0x03 => Ok(HecFunctionalityState::ActivationField),
            _ => Err(Error::invalid_value("HecFunctionalityState", b)),
        }
    }

    /// Decoding the code of a value gives the value back, and a byte
    /// decodes only to a value of which it is the code.
    pub proof fn lemma_code(self, b: u8)
        ensures
            Self::from_code(self.code()) == Some(self),
            Self::from_code(b) matches Some(v) ==> v.code() == b,
    {
    }
}

impl From<HecFunctionalityState> for u8 {
    fn from(v: HecFunctionalityState) -> (r: u8) {
        v.to_u8()
    }
}

impl vstd::std_specs::convert::FromSpecImpl<HecFunctionalityState> for u8 {
    open spec fn obeys_from_spec() -> bool {
        true
    }

    open spec fn from_spec(v: HecFunctionalityState) -> u8 {
        v.code()
    }
}

impl OperandEncodable for HecFunctionalityState {
    open spec fn spec_bytes(&self) -> Seq<u8> {
        seq![self.code()]
    }

    open spec fn spec_parse(bytes: Seq<u8>) -> Result<Self, ErrorView> {
        parse_code(bytes, |b: u8| Self::from_code(b), "HecFunctionalityState"@)
    }

    open spec fn spec_wf(&self) -> bool {
        true
    }

    open spec fn spec_expected_len() -> RangeView {
        RangeView::AtLeast(1)
    }

    open spec fn spec_self_delimiting() -> bool {
        true
    }

    fn to_bytes(&self, buf: &mut Vec<u8>) {
        buf.push(self.to_u8());
    }

    fn try_from_bytes(bytes: &[u8]) -> (r: Result<Self, Error>) {
        if bytes.len() < 1 {
            return Err(Error::short_input(1, bytes.len()));
        }
        Self::try_from_u8(bytes[0])
    }

    fn len(&self) -> (r: usize) {
        1
    }

    fn expected_len() -> (r: Range) {
        Range::AtLeast(1)
    }

    proof fn lemma_roundtrip(&self, rest: Seq<u8>) {
        self.lemma_code(0);
        assert((self.spec_bytes() + rest)[0] == self.code());
    }

    proof fn lemma_parse_len(bytes: Seq<u8>) {
    }
}

/// The state of a host.
#[derive(Clone, Copy, Debug, PartialEq, Eq, Structural, Hash)]
pub enum HostFunctionalityState {
    NotSupported,
    Inactive,
    Active,
}

impl HostFunctionalityState {
    /// The byte that encodes the value.
    pub open spec fn code(self) -> u8 {
        match self {
            HostFunctionalityState::NotSupported => 0x00u8,
            HostFunctionalityState::Inactive => 0x01u8,
            HostFunctionalityState::Active => 0x02u8,
        }
    }

    /// Each value and the byte that encodes it.
    pub proof fn lemma_code_table()
        ensures
            HostFunctionalityState::NotSupported.code() == 0x00u8,
            HostFunctionalityState::Inactive.code() == 0x01u8,
            HostFunctionalityState::Active.code() == 0x02u8,
    {
    }

    /// The value that the byte `b` encodes, if any.
    pub open spec fn from_code(b: u8) -> Option<HostFunctionalityState> {
        match b {
            0x00u8 => Some(HostFunctionalityState::NotSupported),
            0x01u8 => Some(HostFunctionalityState::Inactive),
            0x02u8 => Some(HostFunctionalityState::Active),
            _ => None,
        }
    }

    /// The byte that encodes the value.
    pub fn to_u8(self) -> (r: u8)
        ensures
            r == self.code(),
    {
        match self {
            HostFunctionalityState::NotSupported => 0x00,
            HostFunctionalityState::Inactive => 0x01,
            HostFunctionalityState::Active => 0x02,
        }
    }

    /// The value that the byte `b` encodes; a byte that encodes none is
    /// reported as an invalid value for this type.
    pub fn try_from_u8(b: u8) -> (r: Result<HostFunctionalityState, Error>)
        ensures
            r matches Ok(v) ==> Self::from_code(b) == Some(v),
            r matches Err(e) ==> Self::from_code(b) is None && e@ == invalid_value("HostFunctionalityState"@, b as nat),
            r is Ok <==> Self::from_code(b) is Some,
    {
        match b {
            0x00 => Ok(HostFunctionalityState::NotSupported),
            0x01 => Ok(HostFunctionalityState::Inactive),
            0x02 => Ok(HostFunctionalityState::Active),
            _ => Err(Error::invalid_value("HostFunctionalityState", b)),
        }
    }

    /// Decoding the code of a value gives the value back, and a byte
    /// decodes only to a value of which it is the code.
    pub proof fn lemma_code(self, b: u8)
        ensures
            Self::from_code(self.code()) == Some(self),
            Self::from_code(b) matches Some(v) ==> v.code() == b,
    {
    }
}

impl From<HostFunctionalityState> for u8 {
    fn from(v: HostFunctionalityState) -> (r: u8) {
        v.to_u8()
    }
}

impl vstd::std_specs::convert::FromSpecImpl<HostFunctionalityState> for u8 {
    open spec fn obeys_from_spec() -> bool {
        true
    }

    open spec fn from_spec(v: HostFunctionalityState) -> u8 {
        v.code()
    }
}

impl OperandEncodable for HostFunctionalityState {
    open spec fn spec_bytes(&self) -> Seq<u8> {
        seq![self.code()]
    }

    open spec fn spec_parse(bytes: Seq<u8>) -> Result<Self, ErrorView> {
        parse_code(bytes, |b: u8| Self::from_code(b), "HostFunctionalityState"@)
    }

    open spec fn spec_wf(&self) -> bool {
        true
    }

    open spec fn spec_expected_len() -> RangeView {
        RangeView::AtLeast(1)
    }

    open spec fn spec_self_delimiting() -> bool {
        true
    }

    fn to_bytes(&self, buf: &mut Vec<u8>) {
        buf.push(self.to_u8());
    }

    fn try_from_bytes(bytes: &[u8]) -> (r: Result<Self, Error>) {
        if bytes.len() < 1 {
            return Err(Error::short_input(1, bytes.len()));
        }
        Self::try_from_u8(bytes[0])
    }

    fn len(&self) -> (r: usize) {
        1
    }

    fn expected_len() -> (r: Range) {
        Range::AtLeast(1)
    }

    proof fn lemma_roundtrip(&self, rest: Seq<u8>) {
        self.lemma_code(0);
        assert((self.spec_bytes() + rest)[0] == self.code());
    }

    proof fn lemma_parse_len(bytes: Seq<u8>) {
    }
}

/// The error code of a hot plug detect reply.
#[derive(Clone, Copy, Debug, PartialEq, Eq, Structural, Hash)]
pub enum HpdErrorCode {
    NoError,
    InitiatorNotCapable,
    InitiatorWrongState,
    Other,
    NoneNoVideo,
}

impl HpdErrorCode {
    /// The byte that encodes the value.
    pub open spec fn code(self) -> u8 {
        match self {
            HpdErrorCode::NoError => 0x00u8,
            HpdErrorCode::InitiatorNotCapable => 0x01u8,
            HpdErrorCode::InitiatorWrongState => 0x02u8,
            HpdErrorCode::Other => 0x03u8,
            HpdErrorCode::NoneNoVideo => 0x04u8,
        }
    }

    /// Each value and the byte that encodes it.
    pub proof fn lemma_code_table()
        ensures
            HpdErrorCode::NoError.code() == 0x00u8,
            HpdErrorCode::InitiatorNotCapable.code() == 0x01u8,
            HpdErrorCode::InitiatorWrongState.code() == 0x02u8,
            HpdErrorCode::Other.code() == 0x03u8,
            HpdErrorCode::NoneNoVideo.code() == 0x04u8,
    {
    }

    /// The value that the byte `b` encodes, if any.
    pub open spec fn from_code(b: u8) -> Option<HpdErrorCode> {
        match b {
            0x00u8 => Some(HpdErrorCode::NoError),
            0x01u8 => Some(HpdErrorCode::InitiatorNotCapable),
            0x02u8 => Some(HpdErrorCode::InitiatorWrongState),
            0x03u8 => Some(HpdErrorCode::Other),
            0x04u8 => Some(HpdErrorCode::NoneNoVideo),
            _ => None,
        }
    }

    /// The byte that encodes the value.
    pub fn to_u8(self) -> (r: u8)
        ensures
            r == self.code(),
    {
        match self {
            HpdErrorCode::NoError => 0x00,
            HpdErrorCode::InitiatorNotCapable => 0x01,
            HpdErrorCode::InitiatorWrongState => 0x02,
            HpdErrorCode::Other => 0x03,
            HpdErrorCode::NoneNoVideo => 0x04,
        }
    }

    /// The value that the byte `b` encodes; a byte that encodes none is
    /// reported as an invalid value for this type.
    pub fn try_from_u8(b: u8) -> (r: Result<HpdErrorCode, Error>)
        ensures
            r matches Ok(v) ==> Self::from_code(b) == Some(v),
            r matches Err(e) ==> Self::from_code(b) is None && e@ == invalid_value("HpdErrorCode"@, b as nat),
            r is Ok <==> Self::from_code(b) is Some,
    {
        match b {
            0x00 => Ok(HpdErrorCode::NoError),
            0x01 => Ok(HpdErrorCode::InitiatorNotCapable),
            0x02 => Ok(HpdErrorCode::InitiatorWrongState),
            0x03 => Ok(HpdErrorCode::Other),
            0x04 => Ok(HpdErrorCode::NoneNoVideo),
            _ => Err(Error::invalid_value("HpdErrorCode", b)),
        }
    }

    /// Decoding the code of a value gives the value back, and a byte
    /// decodes only to a value of which it is the code.
    pub proof fn lemma_code(self, b: u8)
        ensures
            Self::from_code(self.code()) == Some(self),
            Self::from_code(b) matches Some(v) ==> v.code() == b,
    {
    }
}

impl From<HpdErrorCode> for u8 {
    fn from(v: HpdErrorCode) -> (r: u8) {
        v.to_u8()
    }
}

impl vstd::std_specs::convert::FromSpecImpl<HpdErrorCode> for u8 {
    open spec fn obeys_from_spec() -> bool {
        true
    }

    open spec fn from_spec(v: HpdErrorCode) -> u8 {
        v.code()
    }
}

impl OperandEncodable for HpdErrorCode {
    open spec fn spec_bytes(&self) -> Seq<u8> {
        seq![self.code()]
    }

    open spec fn spec_parse(bytes: Seq<u8>) -> Result<Self, ErrorView> {
        parse_code(bytes, |b: u8| Self::from_code(b), "HpdErrorCode"@)
    }

    open spec fn spec_wf(&self) -> bool {
        true
    }

    open spec fn spec_expected_len() -> RangeView {
        RangeView::AtLeast(1)
    }

    open spec fn spec_self_delimiting() -> bool {
        true
    }

    fn to_bytes(&self, buf: &mut Vec<u8>) {
        buf.push(self.to_u8());
    }

    fn try_from_bytes(bytes: &[u8]) -> (r: Result<Self, Error>) {
        if bytes.len() < 1 {
            return Err(Error::short_input(1, bytes.len()));
        }
        Self::try_from_u8(bytes[0])
    }

    fn len(&self) -> (r: usize) {
        1
    }

    fn expected_len() -> (r: Range) {
        Range::AtLeast(1)
    }

    proof fn lemma_roundtrip(&self, rest: Seq<u8>) {
        self.lemma_code(0);
        assert((self.spec_bytes() + rest)[0] == self.code());
    }

    proof fn lemma_parse_len(bytes: Seq<u8>) {
    }
}

/// A hot plug detect state.
#[derive(Clone, Copy, Debug, PartialEq, Eq, Structural, Hash)]
pub enum HpdStateState {
    CpEdidDisable,
    CpEdidEnable,
    CpEdidDisableEnable,
    EdidDisable,
    EdidEnable,
    EdidDisableEnable,
}

impl HpdStateState {
    /// The byte that encodes the value.
    pub open spec fn code(self) -> u8 {
        match self {
            HpdStateState::CpEdidDisable => 0x00u8,
            HpdStateState::CpEdidEnable => 0x01u8,
            HpdStateState::CpEdidDisableEnable => 0x02u8,
            HpdStateState::EdidDisable => 0x03u8,
            HpdStateState::EdidEnable => 0x04u8,
            HpdStateState::EdidDisableEnable => 0x05u8,
        }
    }

    /// Each value and the byte that encodes it.
    pub proof fn lemma_code_table()
        ensures
            HpdStateState::CpEdidDisable.code() == 0x00u8,
            HpdStateState::CpEdidEnable.code() == 0x01u8,
            HpdStateState::CpEdidDisableEnable.code() == 0x02u8,
            HpdStateState::EdidDisable.code() == 0x03u8,
            HpdStateState::EdidEnable.code() == 0x04u8,
            HpdStateState::EdidDisableEnable.code() == 0x05u8,
    {
    }

    /// The value that the byte `b` encodes, if any.
    pub open spec fn from_code(b: u8) -> Option<HpdStateState> {
        match b {
            0x00u8 => Some(HpdStateState::CpEdidDisable),
            0x01u8 => Some(HpdStateState::CpEdidEnable),
            0x02u8 => Some(HpdStateState::CpEdidDisableEnable),
            0x03u8 => Some(HpdStateState::EdidDisable),
            0x04u8 => Some(HpdStateState::EdidEnable),
            0x05u8 => Some(HpdStateState::EdidDisableEnable),
            _ => None,
        }
    }

    /// The byte that encodes the value.
    pub fn to_u8(self) -> (r: u8)
        ensures
            r == self.code(),
    {
        match self {
            HpdStateState::CpEdidDisable => 0x00,
            HpdStateState::CpEdidEnable => 0x01,
            HpdStateState::CpEdidDisableEnable => 0x02,
            HpdStateState::EdidDisable => 0x03,
            HpdStateState::EdidEnable => 0x04,
            HpdStateState::EdidDisableEnable => 0x05,
        }
    }

    /// The value that the byte `b` encodes; a byte that encodes none is
    /// reported as an invalid value for this type.
    pub fn try_from_u8(b: u8) -> (r: Result<HpdStateState, Error>)
        ensures
            r matches Ok(v) ==> Self::from_code(b) == Some(v),
            r matches Err(e) ==> Self::from_code(b) is None && e@ == invalid_value("HpdStateState"@, b as nat),
            r is Ok <==> Self::from_code(b) is Some,
    {
        match b {
            0x00 => Ok(HpdStateState::CpEdidDisable),
            0x01 => Ok(HpdStateState::CpEdidEnable),
            0x02 => Ok(HpdStateState::CpEdidDisableEnable),
            0x03 => Ok(HpdStateState::EdidDisable),
            0x04 => Ok(HpdStateState::EdidEnable),
            0x05 => Ok(HpdStateState::EdidDisableEnable),
            _ => Err(Error::invalid_value("HpdStateState", b)),
        }
    }

    /// Decoding the code of a value gives the value back, and a byte
    /// decodes only to a value of which it is the code.
    pub proof fn lemma_code(self, b: u8)
        ensures
            Self::from_code(self.code()) == Some(self),
            Self::from_code(b) matches Some(v) ==> v.code() == b,
    {
    }
}

impl From<HpdStateState> for u8 {
    fn from(v: HpdStateState) -> (r: u8) {
        v.to_u8()
    }
}

impl vstd::std_specs::convert::FromSpecImpl<HpdStateState> for u8 {
    open spec fn obeys_from_spec() -> bool {
        true
    }

    open spec fn from_spec(v: HpdStateState) -> u8 {
        v.code()
    }
}

impl OperandEncodable for HpdStateState {
    open spec fn spec_bytes(&self) -> Seq<u8> {
        seq![self.code()]
    }

    open spec fn spec_parse(bytes: Seq<u8>) -> Result<Self, ErrorView> {
        parse_code(bytes, |b: u8| Self::from_code(b), "HpdStateState"@)
    }

    open spec fn spec_wf(&self) -> bool {
        true
    }

    open spec fn spec_expected_len() -> RangeView {
        RangeView::AtLeast(1)
    }

    open spec fn spec_self_delimiting() -> bool {
        true
    }

    fn to_bytes(&self, buf: &mut Vec<u8>) {
        buf.push(self.to_u8());
    }

    fn try_from_bytes(bytes: &[u8]) -> (r: Result<Self, Error>) {
        if bytes.len() < 1 {
            return Err(Error::short_input(1, bytes.len()));
        }
        Self::try_from_u8(bytes[0])
    }

    fn len(&self) -> (r: usize) {
        1
    }

    fn expected_len() -> (r: Range) {
        Range::AtLeast(1)
    }

    proof fn lemma_roundtrip(&self, rest: Seq<u8>) {
        self.lemma_code(0);
        assert((self.spec_bytes() + rest)[0] == self.code());
    }

    proof fn lemma_parse_len(bytes: Seq<u8>) {
    }
}

/// The media present in a recorder.
#[derive(Clone, Copy, Debug, PartialEq, Eq, Structural, Hash)]
pub enum MediaInfo {
    UnprotectedMedia,
    ProtectedMedia,
    NoMedia,
}

impl MediaInfo {
    /// The byte that encodes the value.
    pub open spec fn code(self) -> u8 {
        match self {
            MediaInfo::UnprotectedMedia => 0x00u8,
            MediaInfo::ProtectedMedia => 0x01u8,
            MediaInfo::NoMedia => 0x02u8,
        }
    }

    /// Each value and the byte that encodes it.
    pub proof fn lemma_code_table()
        ensures
            MediaInfo::UnprotectedMedia.code() == 0x00u8,
            MediaInfo::ProtectedMedia.code() == 0x01u8,
            MediaInfo::NoMedia.code() == 0x02u8,
    {
    }

    /// The value that the byte `b` encodes, if any.
    pub open spec fn from_code(b: u8) -> Option<MediaInfo> {
        match b {
            0x00u8 => Some(MediaInfo::UnprotectedMedia),
            0x01u8 => Some(MediaInfo::ProtectedMedia),
            0x02u8 => Some(MediaInfo::NoMedia),
            _ => None,
        }
    }

    /// The byte that encodes the value.
    pub fn to_u8(self) -> (r: u8)
        ensures
            r == self.code(),
    {
        match self {
            MediaInfo::UnprotectedMedia => 0x00,
            MediaInfo::ProtectedMedia => 0x01,
            MediaInfo::NoMedia => 0x02,
        }
    }

    /// The value that the byte `b` encodes; a byte that encodes none is
    /// reported as an invalid value for this type.
    pub fn try_from_u8(b: u8) -> (r: Result<MediaInfo, Error>)
        ensures
            r matches Ok(v) ==> Self::from_code(b) == Some(v),
            r matches Err(e) ==> Self::from_code(b) is None && e@ == invalid_value("MediaInfo"@, b as nat),
            r is Ok <==> Self::from_code(b) is Some,
    {
        match b {
            0x00 => Ok(MediaInfo::UnprotectedMedia),
            0x01 => Ok(MediaInfo::ProtectedMedia),
            0x02 => Ok(MediaInfo::NoMedia),
            _ => Err(Error::invalid_value("MediaInfo", b)),
        }
    }

    /// Decoding the code of a value gives the value back, and a byte
    /// decodes only to a value of which it is the code.
    pub proof fn lemma_code(self, b: u8)
        ensures
            Self::from_code(self.code()) == Some(self),
            Self::from_code(b) matches Some(v) ==> v.code() == b,
    {
    }
}

impl From<MediaInfo> for u8 {
    fn from(v: MediaInfo) -> (r: u8) {
        v.to_u8()
    }
}

impl vstd::std_specs::convert::FromSpecImpl<MediaInfo> for u8 {
    open spec fn obeys_from_spec() -> bool {
        true
    }

    open spec fn from_spec(v: MediaInfo) -> u8 {
        v.code()
    }
}

impl OperandEncodable for MediaInfo {
    open spec fn spec_bytes(&self) -> Seq<u8> {
        seq![self.code()]
    }

    open spec fn spec_parse(bytes: Seq<u8>) -> Result<Self, ErrorView> {
        parse_code(bytes, |b: u8| Self::from_code(b), "MediaInfo"@)
    }

    open spec fn spec_wf(&self) -> bool {
        true
    }

    open spec fn spec_expected_len() -> RangeView {
        RangeView::AtLeast(1)
    }

    open spec fn spec_self_delimiting() -> bool {
        true
    }

    fn to_bytes(&self, buf: &mut Vec<u8>) {
        buf.push(self.to_u8());
    }

    fn try_from_bytes(bytes: &[u8]) -> (r: Result<Self, Error>) {
        if bytes.len() < 1 {
            return Err(Error::short_input(1, bytes.len()));
        }
        Self::try_from_u8(bytes[0])
    }

    fn len(&self) -> (r: usize) {
        1
    }

    fn expected_len() -> (r: Range) {
        Range::AtLeast(1)
    }

    proof fn lemma_roundtrip(&self, rest: Seq<u8>) {
        self.lemma_code(0);
        assert((self.spec_bytes() + rest)[0] == self.code());
    }

    proof fn lemma_parse_len(bytes: Seq<u8>) {
    }
}

/// A menu request.
#[derive(Clone, Copy, Debug, PartialEq, Eq, Structural, Hash)]
pub enum MenuRequestType {
    Activate,
    Deactivate,
    Query,
}

impl MenuRequestType {
    /// The byte that encodes the value.
    pub open spec fn code(self) -> u8 {
        match self {
            MenuRequestType::Activate => 0x00u8,
            MenuRequestType::Deactivate => 0x01u8,
            MenuRequestType::Query => 0x02u8,
        }
    }

    /// Each value and the byte that encodes it.
    pub proof fn lemma_code_table()
        ensures
            MenuRequestType::Activate.code() == 0x00u8,
            MenuRequestType::Deactivate.code() == 0x01u8,
            MenuRequestType::Query.code() == 0x02u8,
    {
    }

    /// The value that the byte `b` encodes, if any.
    pub open spec fn from_code(b: u8) -> Option<MenuRequestType> {
        match b {
            0x00u8 => Some(MenuRequestType::Activate),
            0x01u8 => Some(MenuRequestType::Deactivate),
            0x02u8 => Some(MenuRequestType::Query),
            _ => None,
        }
    }

    /// The byte that encodes the value.
    pub fn to_u8(self) -> (r: u8)
        ensures
            r == self.code(),
    {
        match self {
            MenuRequestType::Activate => 0x00,
            MenuRequestType::Deactivate => 0x01,
            MenuRequestType::Query => 0x02,
        }
    }

    /// The value that the byte `b` encodes; a byte that encodes none is
    /// reported as an invalid value for this type.
    pub fn try_from_u8(b: u8) -> (r: Result<MenuRequestType, Error>)
        ensures
            r matches Ok(v) ==> Self::from_code(b) == Some(v),
            r matches Err(e) ==> Self::from_code(b) is None && e@ == invalid_value("MenuRequestType"@, b as nat),
            r is Ok <==> Self::from_code(b) is Some,
    {
        match b {
            0x00 => Ok(MenuRequestType::Activate),
            0x01 => Ok(MenuRequestType::Deactivate),
            0x02 => Ok(MenuRequestType::Query),
            _ => Err(Error::invalid_value("MenuRequestType", b)),
        }
    }

    /// Decoding the code of a value gives the value back, and a byte
    /// decodes only to a value of which it is the code.
    pub proof fn lemma_code(self, b: u8)
        ensures
            Self::from_code(self.code()) == Some(self),
            Self::from_code(b) matches Some(v) ==> v.code() == b,
    {
    }
}

impl From<MenuRequestType> for u8 {
    fn from(v: MenuRequestType) -> (r: u8) {
        v.to_u8()
    }
}

impl vstd::std_specs::convert::FromSpecImpl<MenuRequestType> for u8 {
    open spec fn obeys_from_spec() -> bool {
        true
    }

    open spec fn from_spec(v: MenuRequestType) -> u8 {
        v.code()
    }
}

impl OperandEncodable for MenuRequestType {
    open spec fn spec_bytes(&self) -> Seq<u8> {
        seq![self.code()]
    }

    open spec fn spec_parse(bytes: Seq<u8>) -> Result<Self, ErrorView> {
        parse_code(bytes, |b: u8| Self::from_code(b), "MenuRequestType"@)
    }

    open spec fn spec_wf(&self) -> bool {
        true
    }

    open spec fn spec_expected_len() -> RangeView {
        RangeView::AtLeast(1)
    }

    open spec fn spec_self_delimiting() -> bool {
        true
    }

    fn to_bytes(&self, buf: &mut Vec<u8>) {
        buf.push(self.to_u8());
    }

    fn try_from_bytes(bytes: &[u8]) -> (r: Result<Self, Error>) {
        if bytes.len() < 1 {
            return Err(Error::short_input(1, bytes.len()));
        }
        Self::try_from_u8(bytes[0])
    }

    fn len(&self) -> (r: usize) {
        1
    }

    fn expected_len() -> (r: Range) {
        Range::AtLeast(1)
    }

    proof fn lemma_roundtrip(&self, rest: Seq<u8>) {
        self.lemma_code(0);
        assert((self.spec_bytes() + rest)[0] == self.code());
    }

    proof fn lemma_parse_len(bytes: Seq<u8>) {
    }
}

/// Whether a menu is shown.
#[derive(Clone, Copy, Debug, PartialEq, Eq, Structural, Hash)]
pub enum MenuState {
    Activated,
    Deactivated,
}

impl MenuState {
    /// The byte that encodes the value.
    pub open spec fn code(self) -> u8 {
        match self {
            MenuState::Activated => 0x00u8,
            MenuState::Deactivated => 0x01u8,
        }
    }

    /// Each value and the byte that encodes it.
    pub proof fn lemma_code_table()
        ensures
            MenuState::Activated.code() == 0x00u8,
            MenuState::Deactivated.code() == 0x01u8,
    {
    }

    /// The value that the byte `b` encodes, if any.
    pub open spec fn from_code(b: u8) -> Option<MenuState> {
        match b {
            0x00u8 => Some(MenuState::Activated),
            0x01u8 => Some(MenuState::Deactivated),
            _ => None,
        }
    }

    /// The byte that encodes the value.
    pub fn to_u8(self) -> (r: u8)
        ensures
            r == self.code(),
    {
        match self {
            MenuState::Activated => 0x00,
            MenuState::Deactivated => 0x01,
        }
    }

    /// The value that the byte `b` encodes; a byte that encodes none is
    /// reported as an invalid value for this type.
    pub fn try_from_u8(b: u8) -> (r: Result<MenuState, Error>)
        ensures
            r matches Ok(v) ==> Self::from_code(b) == Some(v),
            r matches Err(e) ==> Self::from_code(b) is None && e@ == invalid_value("MenuState"@, b as nat),
            r is Ok <==> Self::from_code(b) is Some,
    {
        match b {
            0x00 => Ok(MenuState::Activated),
            0x01 => Ok(MenuState::Deactivated),
            _ => Err(Error::invalid_value("MenuState", b)),
        }
    }

    /// Decoding the code of a value gives the value back, and a byte
    /// decodes only to a value of which it is the code.
    pub proof fn lemma_code(self, b: u8)
        ensures
            Self::from_code(self.code()) == Some(self),
            Self::from_code(b) matches Some(v) ==> v.code() == b,
    {
    }
}

impl From<MenuState> for u8 {
    fn from(v: MenuState) -> (r: u8) {
        v.to_u8()
    }
}

impl vstd::std_specs::convert::FromSpecImpl<MenuState> for u8 {
    open spec fn obeys_from_spec() -> bool {
        true
    }

    open spec fn from_spec(v: MenuState) -> u8 {
        v.code()
    }
}

impl OperandEncodable for MenuState {
    open spec fn spec_bytes(&self) -> Seq<u8> {
        seq![self.code()]
    }

    open spec fn spec_parse(bytes: Seq<u8>) -> Result<Self, ErrorView> {
        parse_code(bytes, |b: u8| Self::from_code(b), "MenuState"@)
    }

    open spec fn spec_wf(&self) -> bool {
        true
    }

    open spec fn spec_expected_len() -> RangeView {
        RangeView::AtLeast(1)
    }

    open spec fn spec_self_delimiting() -> bool {
        true
    }

    fn to_bytes(&self, buf: &mut Vec<u8>) {
        buf.push(self.to_u8());
    }

    fn try_from_bytes(bytes: &[u8]) -> (r: Result<Self, Error>) {
        if bytes.len() < 1 {
            return Err(Error::short_input(1, bytes.len()));
        }
        Self::try_from_u8(bytes[0])
    }

    fn len(&self) -> (r: usize) {
        1
    }

    fn expected_len() -> (r: Range) {
        Range::AtLeast(1)
    }

    proof fn lemma_roundtrip(&self, rest: Seq<u8>) {
        self.lemma_code(0);
        assert((self.spec_bytes() + rest)[0] == self.code());
    }

    proof fn lemma_parse_len(bytes: Seq<u8>) {
    }
}

/// A month, 1 to 12.
#[derive(Clone, Copy, Debug, PartialEq, Eq, Structural, Hash)]
pub enum MonthOfYear {
    January,
    February,
    March,
    April,
    May,
    June,
    July,
    August,
    September,
    October,
    November,
    December,
}

impl MonthOfYear {
    /// The byte that encodes the value.
    pub open spec fn code(self) -> u8 {
        match self {
            MonthOfYear::January => 0x01u8,
            MonthOfYear::February => 0x02u8,
            MonthOfYear::March => 0x03u8,
            MonthOfYear::April => 0x04u8,
            MonthOfYear::May => 0x05u8,
            MonthOfYear::June => 0x06u8,
            MonthOfYear::July => 0x07u8,
            MonthOfYear::August => 0x08u8,
            MonthOfYear::September => 0x09u8,
            MonthOfYear::October => 0x0au8,
            MonthOfYear::November => 0x0bu8,
            MonthOfYear::December => 0x0cu8,
        }
    }

    /// Each value and the byte that encodes it.
    pub proof fn lemma_code_table()
        ensures
            MonthOfYear::January.code() == 0x01u8,
            MonthOfYear::February.code() == 0x02u8,
            MonthOfYear::March.code() == 0x03u8,
            MonthOfYear::April.code() == 0x04u8,
            MonthOfYear::May.code() == 0x05u8,
            MonthOfYear::June.code() == 0x06u8,
            MonthOfYear::July.code() == 0x07u8,
            MonthOfYear::August.code() == 0x08u8,
            MonthOfYear::September.code() == 0x09u8,
            MonthOfYear::October.code() == 0x0au8,
            MonthOfYear::November.code() == 0x0bu8,
            MonthOfYear::December.code() == 0x0cu8,
    {
    }

    /// The value that the byte `b` encodes, if any.
    pub open spec fn from_code(b: u8) -> Option<MonthOfYear> {
        match b {
            0x01u8 => Some(MonthOfYear::January),
            0x02u8 => Some(MonthOfYear::February),
            0x03u8 => Some(MonthOfYear::March),
            0x04u8 => Some(MonthOfYear::April),
            0x05u8 => Some(MonthOfYear::May),
            0x06u8 => Some(MonthOfYear::June),
            0x07u8 => Some(MonthOfYear::July),
            0x08u8 => Some(MonthOfYear::August),
            0x09u8 => Some(MonthOfYear::September),
            0x0au8 => Some(MonthOfYear::October),
            0x0bu8 => Some(MonthOfYear::November),
            0x0cu8 => Some(MonthOfYear::December),
            _ => None,
        }
    }

    /// The byte that encodes the value.
    pub fn to_u8(self) -> (r: u8)
        ensures
            r == self.code(),
    {
        match self {
            MonthOfYear::January => 0x01,
            MonthOfYear::February => 0x02,
            MonthOfYear::March => 0x03,
            MonthOfYear::April => 0x04,
            MonthOfYear::May => 0x05,
            MonthOfYear::June => 0x06,
            MonthOfYear::July => 0x07,
            MonthOfYear::August => 0x08,
            MonthOfYear::September => 0x09,
            MonthOfYear::October => 0x0a,
            MonthOfYear::November => 0x0b,
            MonthOfYear::December => 0x0c,
        }
    }

    /// The value that the byte `b` encodes; a byte that encodes none is
    /// reported as an invalid value for this type.
    pub fn try_from_u8(b: u8) -> (r: Result<MonthOfYear, Error>)
        ensures
            r matches Ok(v) ==> Self::from_code(b) == Some(v),
            r matches Err(e) ==> Self::from_code(b) is None && e@ == invalid_value("MonthOfYear"@, b as nat),
            r is Ok <==> Self::from_code(b) is Some,
    {
        match b {
            0x01 => Ok(MonthOfYear::January),
            0x02 => Ok(MonthOfYear::February),
            0x03 => Ok(MonthOfYear::March),
            0x04 => Ok(MonthOfYear::April),
            0x05 => Ok(MonthOfYear::May),
            0x06 => Ok(MonthOfYear::June),
            0x07 => Ok(MonthOfYear::July),
            0x08 => Ok(MonthOfYear::August),
            0x09 => Ok(MonthOfYear::September),
            0x0a => Ok(MonthOfYear::October),
            0x0b => Ok(MonthOfYear::November),
            0x0c => Ok(MonthOfYear::December),
            _ => Err(Error::invalid_value("MonthOfYear", b)),
        }
    }

    /// Decoding the code of a value gives the value back, and a byte
    /// decodes only to a value of which it is the code.
    pub proof fn lemma_code(self, b: u8)
        ensures
            Self::from_code(self.code()) == Some(self),
            Self::from_code(b) matches Some(v) ==> v.code() == b,
    {
    }
}

impl From<MonthOfYear> for u8 {
    fn from(v: MonthOfYear) -> (r: u8) {
        v.to_u8()
    }
}

impl vstd::std_specs::convert::FromSpecImpl<MonthOfYear> for u8 {
    open spec fn obeys_from_spec() -> bool {
        true
    }

    open spec fn from_spec(v: MonthOfYear) -> u8 {
        v.code()
    }
}

impl OperandEncodable for MonthOfYear {
    open spec fn spec_bytes(&self) -> Seq<u8> {
        seq![self.code()]
    }

    open spec fn spec_parse(bytes: Seq<u8>) -> Result<Self, ErrorView> {
        parse_code(bytes, |b: u8| Self::from_code(b), "MonthOfYear"@)
    }

    open spec fn spec_wf(&self) -> bool {
        true
    }

    open spec fn spec_expected_len() -> RangeView {
        RangeView::AtLeast(1)
    }

    open spec fn spec_self_delimiting() -> bool {
        true
    }

    fn to_bytes(&self, buf: &mut Vec<u8>) {
        buf.push(self.to_u8());
    }

    fn try_from_bytes(bytes: &[u8]) -> (r: Result<Self, Error>) {
        if bytes.len() < 1 {
            return Err(Error::short_input(1, bytes.len()));
        }
        Self::try_from_u8(bytes[0])
    }

    fn len(&self) -> (r: usize) {
        1
    }

    fn expected_len() -> (r: Range) {
        Range::AtLeast(1)
    }

    proof fn lemma_roundtrip(&self, rest: Seq<u8>) {
        self.lemma_code(0);
        assert((self.spec_bytes() + rest)[0] == self.code());
    }

    proof fn lemma_parse_len(bytes: Seq<u8>) {
    }
}

/// A playback mode.
#[derive(Clone, Copy, Debug, PartialEq, Eq, Structural, Hash)]
pub enum PlayMode {
    Forward,
    Reverse,
    Still,
    FastForwardMinimum,
    FastForwardMedium,
    FastForwardMaximum,
    FastReverseMinimum,
    FastReverseMedium,
    FastReverseMaximum,
    SlowForwardMinimum,
    SlowForwardMedium,
    SlowForwardMaximum,
    SlowReverseMinimum,
    SlowReverseMedium,
    SlowReverseMaximum,
}

impl PlayMode {
    /// The byte that encodes the value.
    pub open spec fn code(self) -> u8 {
        match self {
            PlayMode::Forward => 0x24u8,
            PlayMode::Reverse => 0x20u8,
            PlayMode::Still => 0x25u8,
            PlayMode::FastForwardMinimum => 0x05u8,
            PlayMode::FastForwardMedium => 0x06u8,
            PlayMode::FastForwardMaximum => 0x07u8,
            PlayMode::FastReverseMinimum => 0x09u8,
            PlayMode::FastReverseMedium => 0x0au8,
            PlayMode::FastReverseMaximum => 0x0bu8,
            PlayMode::SlowForwardMinimum => 0x15u8,
            PlayMode::SlowForwardMedium => 0x16u8,
            PlayMode::SlowForwardMaximum => 0x17u8,
            PlayMode::SlowReverseMinimum => 0x19u8,
            PlayMode::SlowReverseMedium => 0x1au8,
            PlayMode::SlowReverseMaximum => 0x1bu8,
        }
    }

    /// Each value and the byte that encodes it.
    pub proof fn lemma_code_table()
        ensures
            PlayMode::Forward.code() == 0x24u8,
            PlayMode::Reverse.code() == 0x20u8,
            PlayMode::Still.code() == 0x25u8,
            PlayMode::FastForwardMinimum.code() == 0x05u8,
            PlayMode::FastForwardMedium.code() == 0x06u8,
            PlayMode::FastForwardMaximum.code() == 0x07u8,
            PlayMode::FastReverseMinimum.code() == 0x09u8,
            PlayMode::FastReverseMedium.code() == 0x0au8,
            PlayMode::FastReverseMaximum.code() == 0x0bu8,
            PlayMode::SlowForwardMinimum.code() == 0x15u8,
            PlayMode::SlowForwardMedium.code() == 0x16u8,
            PlayMode::SlowForwardMaximum.code() == 0x17u8,
            PlayMode::SlowReverseMinimum.code() == 0x19u8,
            PlayMode::SlowReverseMedium.code() == 0x1au8,
            PlayMode::SlowReverseMaximum.code() == 0x1bu8,
    {
    }

    /// The value that the byte `b` encodes, if any.
    pub open spec fn from_code(b: u8) -> Option<PlayMode> {
        match b {
            0x24u8 => Some(PlayMode::Forward),
            0x20u8 => Some(PlayMode::Reverse),
            0x25u8 => Some(PlayMode::Still),
            0x05u8 => Some(PlayMode::FastForwardMinimum),
            0x06u8 => Some(PlayMode::FastForwardMedium),
            0x07u8 => Some(PlayMode::FastForwardMaximum),
            0x09u8 => Some(PlayMode::FastReverseMinimum),
            0x0au8 => Some(PlayMode::FastReverseMedium),
            0x0bu8 => Some(PlayMode::FastReverseMaximum),
            0x15u8 => Some(PlayMode::SlowForwardMinimum),
            0x16u8 => Some(PlayMode::SlowForwardMedium),
            0x17u8 => Some(PlayMode::SlowForwardMaximum),
            0x19u8 => Some(PlayMode::SlowReverseMinimum),
            0x1au8 => Some(PlayMode::SlowReverseMedium),
            0x1bu8 => Some(PlayMode::SlowReverseMaximum),
            _ => None,
        }
    }

    /// The byte that encodes the value.
    pub fn to_u8(self) -> (r: u8)
        ensures
            r == self.code(),
    {
        match self {
            PlayMode::Forward => 0x24,
            PlayMode::Reverse => 0x20,
            PlayMode::Still => 0x25,
            PlayMode::FastForwardMinimum => 0x05,
            PlayMode::FastForwardMedium => 0x06,
            PlayMode::FastForwardMaximum => 0x07,
            PlayMode::FastReverseMinimum => 0x09,
            PlayMode::FastReverseMedium => 0x0a,
            PlayMode::FastReverseMaximum => 0x0b,
            PlayMode::SlowForwardMinimum => 0x15,
            PlayMode::SlowForwardMedium => 0x16,
            PlayMode::SlowForwardMaximum => 0x17,
            PlayMode::SlowReverseMinimum => 0x19,
            PlayMode::SlowReverseMedium => 0x1a,
            PlayMode::SlowReverseMaximum => 0x1b,
        }
    }

    /// The value that the byte `b` encodes; a byte that encodes none is
    /// reported as an invalid value for this type.
    pub fn try_from_u8(b: u8) -> (r: Result<PlayMode, Error>)
        ensures
            r matches Ok(v) ==> Self::from_code(b) == Some(v),
            r matches Err(e) ==> Self::from_code(b) is None && e@ == invalid_value("PlayMode"@, b as nat),
            r is Ok <==> Self::from_code(b) is Some,
    {
        match b {
            0x24 => Ok(PlayMode::Forward),
            0x20 => Ok(PlayMode::Reverse),
            0x25 => Ok(PlayMode::Still),
            0x05 => Ok(PlayMode::FastForwardMinimum),
            0x06 => Ok(PlayMode::FastForwardMedium),
            0x07 => Ok(PlayMode::FastForwardMaximum),
            0x09 => Ok(PlayMode::FastReverseMinimum),
            0x0a => Ok(PlayMode::FastReverseMedium),
            0x0b => Ok(PlayMode::FastReverseMaximum),
            0x15 => Ok(PlayMode::SlowForwardMinimum),
            0x16 => Ok(PlayMode::SlowForwardMedium),
            0x17 => Ok(PlayMode::SlowForwardMaximum),
            0x19 => Ok(PlayMode::SlowReverseMinimum),
            0x1a => Ok(PlayMode::SlowReverseMedium),
            0x1b => Ok(PlayMode::SlowReverseMaximum),
            _ => Err(Error::invalid_value("PlayMode", b)),
        }
    }

    /// Decoding the code of a value gives the value back, and a byte
    /// decodes only to a value of which it is the code.
    pub proof fn lemma_code(self, b: u8)
        ensures
            Self::from_code(self.code()) == Some(self),
            Self::from_code(b) matches Some(v) ==> v.code() == b,
    {
    }
}

impl From<PlayMode> for u8 {
    fn from(v: PlayMode) -> (r: u8) {
        v.to_u8()
    }
}

impl vstd::std_specs::convert::FromSpecImpl<PlayMode> for u8 {
    open spec fn obeys_from_spec() -> bool {
        true
    }

    open spec fn from_spec(v: PlayMode) -> u8 {
        v.code()
    }
}

impl OperandEncodable for PlayMode {
    open spec fn spec_bytes(&self) -> Seq<u8> {
        seq![self.code()]
    }

    open spec fn spec_parse(bytes: Seq<u8>) -> Result<Self, ErrorView> {
        parse_code(bytes, |b: u8| Self::from_code(b), "PlayMode"@)
    }

    open spec fn spec_wf(&self) -> bool {
        true
    }

    open spec fn spec_expected_len() -> RangeView {
        RangeView::AtLeast(1)
    }

    open spec fn spec_self_delimiting() -> bool {
        true
    }

    fn to_bytes(&self, buf: &mut Vec<u8>) {
        buf.push(self.to_u8());
    }

    fn try_from_bytes(bytes: &[u8]) -> (r: Result<Self, Error>) {
        if bytes.len() < 1 {
            return Err(Error::short_input(1, bytes.len()));
        }
        Self::try_from_u8(bytes[0])
    }

    fn len(&self) -> (r: usize) {
        1
    }

    fn expected_len() -> (r: Range) {
        Range::AtLeast(1)
    }

    proof fn lemma_roundtrip(&self, rest: Seq<u8>) {
        self.lemma_code(0);
        assert((self.spec_bytes() + rest)[0] == self.code());
    }

    proof fn lemma_parse_len(bytes: Seq<u8>) {
    }
}

/// The power state of a device.
#[derive(Clone, Copy, Debug, PartialEq, Eq, Structural, Hash)]
pub enum PowerStatus {
    /// On
    On,
    /// Standby
    Standby,
    /// In transition from Standby to On
    ToOn,
    /// In transition from On to Standby
    ToStandby,
}

impl PowerStatus {
    /// The byte that encodes the value.
    pub open spec fn code(self) -> u8 {
        match self {
            PowerStatus::On => 0x00u8,
            PowerStatus::Standby => 0x01u8,
            PowerStatus::ToOn => 0x02u8,
            PowerStatus::ToStandby => 0x03u8,
        }
    }

    /// Each value and the byte that encodes it.
    pub proof fn lemma_code_table()
        ensures
            PowerStatus::On.code() == 0x00u8,
            PowerStatus::Standby.code() == 0x01u8,
            PowerStatus::ToOn.code() == 0x02u8,
            PowerStatus::ToStandby.code() == 0x03u8,
    {
    }

    /// The value that the byte `b` encodes, if any.
    pub open spec fn from_code(b: u8) -> Option<PowerStatus> {
        match b {
            0x00u8 => Some(PowerStatus::On),
            0x01u8 => Some(PowerStatus::Standby),
            0x02u8 => Some(PowerStatus::ToOn),
            0x03u8 => Some(PowerStatus::ToStandby),
            _ => None,
        }
    }

    /// The byte that encodes the value.
    pub fn to_u8(self) -> (r: u8)
        ensures
            r == self.code(),
    {
        match self {
            PowerStatus::On => 0x00,
            PowerStatus::Standby => 0x01,
            PowerStatus::ToOn => 0x02,
            PowerStatus::ToStandby => 0x03,
        }
    }

    /// The value that the byte `b` encodes; a byte that encodes none is
    /// reported as an invalid value for this type.
    pub fn try_from_u8(b: u8) -> (r: Result<PowerStatus, Error>)
        ensures
            r matches Ok(v) ==> Self::from_code(b) == Some(v),
            r matches Err(e) ==> Self::from_code(b) is None && e@ == invalid_value("PowerStatus"@, b as nat),
            r is Ok <==> Self::from_code(b) is Some,
    {
        match b {
            0x00 => Ok(PowerStatus::On),
            0x01 => Ok(PowerStatus::Standby),
            0x02 => Ok(PowerStatus::ToOn),
            0x03 => Ok(PowerStatus::ToStandby),
            _ => Err(Error::invalid_value("PowerStatus", b)),
        }
    }

    /// Decoding the code of a value gives the value back, and a byte
    /// decodes only to a value of which it is the code.
    pub proof fn lemma_code(self, b: u8)
        ensures
            Self::from_code(self.code()) == Some(self),
            Self::from_code(b) matches Some(v) ==> v.code() == b,
    {
    }
}

impl From<PowerStatus> for u8 {
    fn from(v: PowerStatus) -> (r: u8) {
        v.to_u8()
    }
}

impl vstd::std_specs::convert::FromSpecImpl<PowerStatus> for u8 {
    open spec fn obeys_from_spec() -> bool {
        true
    }

    open spec fn from_spec(v: PowerStatus) -> u8 {
        v.code()
    }
}

impl OperandEncodable for PowerStatus {
    open spec fn spec_bytes(&self) -> Seq<u8> {
        seq![self.code()]
    }

    open spec fn spec_parse(bytes: Seq<u8>) -> Result<Self, ErrorView> {
        parse_code(bytes, |b: u8| Self::from_code(b), "PowerStatus"@)
    }

    open spec fn spec_wf(&self) -> bool {
        true
    }

    open spec fn spec_expected_len() -> RangeView {
        RangeView::AtLeast(1)
    }

    open spec fn spec_self_delimiting() -> bool {
        true
    }

    fn to_bytes(&self, buf: &mut Vec<u8>) {
        buf.push(self.to_u8());
    }

    fn try_from_bytes(bytes: &[u8]) -> (r: Result<Self, Error>) {
        if bytes.len() < 1 {
            return Err(Error::short_input(1, bytes.len()));
        }
        Self::try_from_u8(bytes[0])
    }

    fn len(&self) -> (r: usize) {
        1
    }

    fn expected_len() -> (r: Range) {
        Range::AtLeast(1)
    }

    proof fn lemma_roundtrip(&self, rest: Seq<u8>) {
        self.lemma_code(0);
        assert((self.spec_bytes() + rest)[0] == self.code());
    }

    proof fn lemma_parse_len(bytes: Seq<u8>) {
    }
}

/// The primary type of a device.
#[derive(Clone, Copy, Debug, PartialEq, Eq, Structural, Hash)]
pub enum PrimaryDeviceType {
    Tv,
    Recording,
    Tuner,
    Playback,
    Audio,
    Switch,
    Processor,
}

impl PrimaryDeviceType {
    /// The byte that encodes the value.
    pub open spec fn code(self) -> u8 {
        match self {
            PrimaryDeviceType::Tv => 0x00u8,
            PrimaryDeviceType::Recording => 0x01u8,
            PrimaryDeviceType::Tuner => 0x03u8,
            PrimaryDeviceType::Playback => 0x04u8,
            PrimaryDeviceType::Audio => 0x05u8,
            PrimaryDeviceType::Switch => 0x06u8,
            PrimaryDeviceType::Processor => 0x07u8,
        }
    }

    /// Each value and the byte that encodes it.
    pub proof fn lemma_code_table()
        ensures
            PrimaryDeviceType::Tv.code() == 0x00u8,
            PrimaryDeviceType::Recording.code() == 0x01u8,
            PrimaryDeviceType::Tuner.code() == 0x03u8,
            PrimaryDeviceType::Playback.code() == 0x04u8,
            PrimaryDeviceType::Audio.code() == 0x05u8,
            PrimaryDeviceType::Switch.code() == 0x06u8,
            PrimaryDeviceType::Processor.code() == 0x07u8,
    {
    }

    /// The value that the byte `b` encodes, if any.
    pub open spec fn from_code(b: u8) -> Option<PrimaryDeviceType> {
        match b {
            0x00u8 => Some(PrimaryDeviceType::Tv),
            0x01u8 => Some(PrimaryDeviceType::Recording),
            0x03u8 => Some(PrimaryDeviceType::Tuner),
            0x04u8 => Some(PrimaryDeviceType::Playback),
            0x05u8 => Some(PrimaryDeviceType::Audio),
            0x06u8 => Some(PrimaryDeviceType::Switch),
            0x07u8 => Some(PrimaryDeviceType::Processor),
            _ => None,
        }
    }

    /// The byte that encodes the value.
    pub fn to_u8(self) -> (r: u8)
        ensures
            r == self.code(),
    {
        match self {
            PrimaryDeviceType::Tv => 0x00,
            PrimaryDeviceType::Recording => 0x01,
            PrimaryDeviceType::Tuner => 0x03,
            PrimaryDeviceType::Playback => 0x04,
            PrimaryDeviceType::Audio => 0x05,
            PrimaryDeviceType::Switch => 0x06,
            PrimaryDeviceType::Processor => 0x07,
        }
    }

    /// The value that the byte `b` encodes; a byte that encodes none is
    /// reported as an invalid value for this type.
    pub fn try_from_u8(b: u8) -> (r: Result<PrimaryDeviceType, Error>)
        ensures
            r matches Ok(v) ==> Self::from_code(b) == Some(v),
            r matches Err(e) ==> Self::from_code(b) is None && e@ == invalid_value("PrimaryDeviceType"@, b as nat),
            r is Ok <==> Self::from_code(b) is Some,
    {
        match b {
            0x00 => Ok(PrimaryDeviceType::Tv),
            0x01 => Ok(PrimaryDeviceType::Recording),
            0x03 => Ok(PrimaryDeviceType::Tuner),
            0x04 => Ok(PrimaryDeviceType::Playback),
            0x05 => Ok(PrimaryDeviceType::Audio),
            0x06 => Ok(PrimaryDeviceType::Switch),
            0x07 => Ok(PrimaryDeviceType::Processor),
            _ => Err(Error::invalid_value("PrimaryDeviceType", b)),
        }
    }

    /// Decoding the code of a value gives the value back, and a byte
    /// decodes only to a value of which it is the code.
    pub proof fn lemma_code(self, b: u8)
        ensures
            Self::from_code(self.code()) == Some(self),
            Self::from_code(b) matches Some(v) ==> v.code() == b,
    {
    }
}

impl From<PrimaryDeviceType> for u8 {
    fn from(v: PrimaryDeviceType) -> (r: u8) {
        v.to_u8()
    }
}

impl vstd::std_specs::convert::FromSpecImpl<PrimaryDeviceType> for u8 {
    open spec fn obeys_from_spec() -> bool {
        true
    }

    open spec fn from_spec(v: PrimaryDeviceType) -> u8 {
        v.code()
    }
}

impl OperandEncodable for PrimaryDeviceType {
    open spec fn spec_bytes(&self) -> Seq<u8> {
        seq![self.code()]
    }

    open spec fn spec_parse(bytes: Seq<u8>) -> Result<Self, ErrorView> {
        parse_code(bytes, |b: u8| Self::from_code(b), "PrimaryDeviceType"@)
    }

    open spec fn spec_wf(&self) -> bool {
        true
    }

    open spec fn spec_expected_len() -> RangeView {
        RangeView::AtLeast(1)
    }

    open spec fn spec_self_delimiting() -> bool {
        true
    }

    fn to_bytes(&self, buf: &mut Vec<u8>) {
        buf.push(self.to_u8());
    }

    fn try_from_bytes(bytes: &[u8]) -> (r: Result<Self, Error>) {
        if bytes.len() < 1 {
            return Err(Error::short_input(1, bytes.len()));
        }
        Self::try_from_u8(bytes[0])
    }

    fn len(&self) -> (r: usize) {
        1
    }

    fn expected_len() -> (r: Range) {
        Range::AtLeast(1)
    }

    proof fn lemma_roundtrip(&self, rest: Seq<u8>) {
        self.lemma_code(0);
        assert((self.spec_bytes() + rest)[0] == self.code());
    }

    proof fn lemma_parse_len(bytes: Seq<u8>) {
    }
}

/// The kind of a recording source.
#[derive(Clone, Copy, Debug, PartialEq, Eq, Structural, Hash)]
pub enum RecordSourceType {
    Own,
    Digital,
    Analogue,
    ExternalPlug,
    ExternalPhysicalAddress,
}

impl RecordSourceType {
    /// The byte that encodes the value.
    pub open spec fn code(self) -> u8 {
        match self {
            RecordSourceType::Own => 0x01u8,
            RecordSourceType::Digital => 0x02u8,
            RecordSourceType::Analogue => 0x03u8,
            RecordSourceType::ExternalPlug => 0x04u8,
            RecordSourceType::ExternalPhysicalAddress => 0x05u8,
        }
    }

    /// Each value and the byte that encodes it.
    pub proof fn lemma_code_table()
        ensures
            RecordSourceType::Own.code() == 0x01u8,
            RecordSourceType::Digital.code() == 0x02u8,
            RecordSourceType::Analogue.code() == 0x03u8,
            RecordSourceType::ExternalPlug.code() == 0x04u8,
            RecordSourceType::ExternalPhysicalAddress.code() == 0x05u8,
    {
    }

    /// The value that the byte `b` encodes, if any.
    pub open spec fn from_code(b: u8) -> Option<RecordSourceType> {
        match b {
            0x01u8 => Some(RecordSourceType::Own),
            0x02u8 => Some(RecordSourceType::Digital),
            0x03u8 => Some(RecordSourceType::Analogue),
            0x04u8 => Some(RecordSourceType::ExternalPlug),
            0x05u8 => Some(RecordSourceType::ExternalPhysicalAddress),
            _ => None,
        }
    }

    /// The byte that encodes the value.
    pub fn to_u8(self) -> (r: u8)
        ensures
            r == self.code(),
    {
        match self {
            RecordSourceType::Own => 0x01,
            RecordSourceType::Digital => 0x02,
            RecordSourceType::Analogue => 0x03,
            RecordSourceType::ExternalPlug => 0x04,
            RecordSourceType::ExternalPhysicalAddress => 0x05,
        }
    }

    /// The value that the byte `b` encodes; a byte that encodes none is
    /// reported as an invalid value for this type.
    pub fn try_from_u8(b: u8) -> (r: Result<RecordSourceType, Error>)
        ensures
            r matches Ok(v) ==> Self::from_code(b) == Some(v),
            r matches Err(e) ==> Self::from_code(b) is None && e@ == invalid_value("RecordSourceType"@, b as nat),
            r is Ok <==> Self::from_code(b) is Some,
    {
        match b {
            0x01 => Ok(RecordSourceType::Own),
            0x02 => Ok(RecordSourceType::Digital),
            0x03 => Ok(RecordSourceType::Analogue),
            0x04 => Ok(RecordSourceType::ExternalPlug),
            0x05 => Ok(RecordSourceType::ExternalPhysicalAddress),
            _ => Err(Error::invalid_value("RecordSourceType", b)),
        }
    }

    /// Decoding the code of a value gives the value back, and a byte
    /// decodes only to a value of which it is the code.
    pub proof fn lemma_code(self, b: u8)
        ensures
            Self::from_code(self.code()) == Some(self),
            Self::from_code(b) matches Some(v) ==> v.code() == b,
    {
    }
}

impl From<RecordSourceType> for u8 {
    fn from(v: RecordSourceType) -> (r: u8) {
        v.to_u8()
    }
}

impl vstd::std_specs::convert::FromSpecImpl<RecordSourceType> for u8 {
    open spec fn obeys_from_spec() -> bool {
        true
    }

    open spec fn from_spec(v: RecordSourceType) -> u8 {
        v.code()
    }
}

impl OperandEncodable for RecordSourceType {
    open spec fn spec_bytes(&self) -> Seq<u8> {
        seq![self.code()]
    }

    open spec fn spec_parse(bytes: Seq<u8>) -> Result<Self, ErrorView> {
        parse_code(bytes, |b: u8| Self::from_code(b), "RecordSourceType"@)
    }

    open spec fn spec_wf(&self) -> bool {
        true
    }

    open spec fn spec_expected_len() -> RangeView {
        RangeView::AtLeast(1)
    }

    open spec fn spec_self_delimiting() -> bool {
        true
    }

    fn to_bytes(&self, buf: &mut Vec<u8>) {
        buf.push(self.to_u8());
    }

    fn try_from_bytes(bytes: &[u8]) -> (r: Result<Self, Error>) {
        if bytes.len() < 1 {
            return Err(Error::short_input(1, bytes.len()));
        }
        Self::try_from_u8(bytes[0])
    }

    fn len(&self) -> (r: usize) {
        1
    }

    fn expected_len() -> (r: Range) {
        Range::AtLeast(1)
    }

    proof fn lemma_roundtrip(&self, rest: Seq<u8>) {
        self.lemma_code(0);
        assert((self.spec_bytes() + rest)[0] == self.code());
    }

    proof fn lemma_parse_len(bytes: Seq<u8>) {
    }
}

/// The outcome of a recording request.
#[derive(Clone, Copy, Debug, PartialEq, Eq, Structural, Hash)]
pub enum RecordStatusInfo {
    CurrentSource,
    DigitalService,
    AnalogueService,
    ExternalInput,
    NoDigitalService,
    NoAnalogueService,
    NoService,
    InvalidExternalPlug,
    InvalidExternalPhysicalAddress,
    CaUnsupported,
    InsufficientCaEntitlements,
    DisallowedCopySource,
    NoFurtherCopies,
    NoMedia,
    Playing,
    AlreadyRecording,
    MediaProtected,
    NoSignal,
    MediaProblem,
    NotEnoughSpace,
    ParentalLock,
    TerminatedOk,
    AlreadyTerminated,
    Other,
}

impl RecordStatusInfo {
    /// The byte that encodes the value.
    pub open spec fn code(self) -> u8 {
        match self {
            RecordStatusInfo::CurrentSource => 0x01u8,
            RecordStatusInfo::DigitalService => 0x02u8,
            RecordStatusInfo::AnalogueService => 0x03u8,
            RecordStatusInfo::ExternalInput => 0x04u8,
            RecordStatusInfo::NoDigitalService => 0x05u8,
            RecordStatusInfo::NoAnalogueService => 0x06u8,
            RecordStatusInfo::NoService => 0x07u8,
            RecordStatusInfo::InvalidExternalPlug => 0x09u8,
            RecordStatusInfo::InvalidExternalPhysicalAddress => 0x0au8,
            RecordStatusInfo::CaUnsupported => 0x0bu8,
            RecordStatusInfo::InsufficientCaEntitlements => 0x0cu8,
            RecordStatusInfo::DisallowedCopySource => 0x0du8,
            RecordStatusInfo::NoFurtherCopies => 0x0eu8,
            RecordStatusInfo::NoMedia => 0x10u8,
            RecordStatusInfo::Playing => 0x11u8,
            RecordStatusInfo::AlreadyRecording => 0x12u8,
            RecordStatusInfo::MediaProtected => 0x13u8,
            RecordStatusInfo::NoSignal => 0x14u8,
            RecordStatusInfo::MediaProblem => 0x15u8,
            RecordStatusInfo::NotEnoughSpace => 0x16u8,
            RecordStatusInfo::ParentalLock => 0x17u8,
            RecordStatusInfo::TerminatedOk => 0x1au8,
            RecordStatusInfo::AlreadyTerminated => 0x1bu8,
            RecordStatusInfo::Other => 0x1fu8,
        }
    }

    /// Each value and the byte that encodes it.
    pub proof fn lemma_code_table()
        ensures
            RecordStatusInfo::CurrentSource.code() == 0x01u8,
            RecordStatusInfo::DigitalService.code() == 0x02u8,
            RecordStatusInfo::AnalogueService.code() == 0x03u8,
            RecordStatusInfo::ExternalInput.code() == 0x04u8,
            RecordStatusInfo::NoDigitalService.code() == 0x05u8,
            RecordStatusInfo::NoAnalogueService.code() == 0x06u8,
            RecordStatusInfo::NoService.code() == 0x07u8,
            RecordStatusInfo::InvalidExternalPlug.code() == 0x09u8,
            RecordStatusInfo::InvalidExternalPhysicalAddress.code() == 0x0au8,
            RecordStatusInfo::CaUnsupported.code() == 0x0bu8,
            RecordStatusInfo::InsufficientCaEntitlements.code() == 0x0cu8,
            RecordStatusInfo::DisallowedCopySource.code() == 0x0du8,
            RecordStatusInfo::NoFurtherCopies.code() == 0x0eu8,
            RecordStatusInfo::NoMedia.code() == 0x10u8,
            RecordStatusInfo::Playing.code() == 0x11u8,
            RecordStatusInfo::AlreadyRecording.code() == 0x12u8,
            RecordStatusInfo::MediaProtected.code() == 0x13u8,
            RecordStatusInfo::NoSignal.code() == 0x14u8,
            RecordStatusInfo::MediaProblem.code() == 0x15u8,
            RecordStatusInfo::NotEnoughSpace.code() == 0x16u8,
            RecordStatusInfo::ParentalLock.code() == 0x17u8,
            RecordStatusInfo::TerminatedOk.code() == 0x1au8,
            RecordStatusInfo::AlreadyTerminated.code() == 0x1bu8,
            RecordStatusInfo::Other.code() == 0x1fu8,
    {
    }

    /// The value that the byte `b` encodes, if any.
    pub open spec fn from_code(b: u8) -> Option<RecordStatusInfo> {
        match b {
            0x01u8 => Some(RecordStatusInfo::CurrentSource),
            0x02u8 => Some(RecordStatusInfo::DigitalService),
            0x03u8 => Some(RecordStatusInfo::AnalogueService),
            0x04u8 => Some(RecordStatusInfo::ExternalInput),
            0x05u8 => Some(RecordStatusInfo::NoDigitalService),
            0x06u8 => Some(RecordStatusInfo::NoAnalogueService),
            0x07u8 => Some(RecordStatusInfo::NoService),
            0x09u8 => Some(RecordStatusInfo::InvalidExternalPlug),
            0x0au8 => Some(RecordStatusInfo::InvalidExternalPhysicalAddress),
            0x0bu8 => Some(RecordStatusInfo::CaUnsupported),
            0x0cu8 => Some(RecordStatusInfo::InsufficientCaEntitlements),
            0x0du8 => Some(RecordStatusInfo::DisallowedCopySource),
            0x0eu8 => Some(RecordStatusInfo::NoFurtherCopies),
            0x10u8 => Some(RecordStatusInfo::NoMedia),
            0x11u8 => Some(RecordStatusInfo::Playing),
            0x12u8 => Some(RecordStatusInfo::AlreadyRecording),
            0x13u8 => Some(RecordStatusInfo::MediaProtected),
            0x14u8 => Some(RecordStatusInfo::NoSignal),
            0x15u8 => Some(RecordStatusInfo::MediaProblem),
            0x16u8 => Some(RecordStatusInfo::NotEnoughSpace),
            0x17u8 => Some(RecordStatusInfo::ParentalLock),
            0x1au8 => Some(RecordStatusInfo::TerminatedOk),
            0x1bu8 => Some(RecordStatusInfo::AlreadyTerminated),
            0x1fu8 => Some(RecordStatusInfo::Other),
            _ => None,
        }
    }

    /// The byte that encodes the value.
    pub fn to_u8(self) -> (r: u8)
        ensures
            r == self.code(),
    {
        match self {
            RecordStatusInfo::CurrentSource => 0x01,
            RecordStatusInfo::DigitalService => 0x02,
            RecordStatusInfo::AnalogueService => 0x03,
            RecordStatusInfo::ExternalInput => 0x04,
            RecordStatusInfo::NoDigitalService => 0x05,
            RecordStatusInfo::NoAnalogueService => 0x06,
            RecordStatusInfo::NoService => 0x07,
            RecordStatusInfo::InvalidExternalPlug => 0x09,
            RecordStatusInfo::InvalidExternalPhysicalAddress => 0x0a,
            RecordStatusInfo::CaUnsupported => 0x0b,
            RecordStatusInfo::InsufficientCaEntitlements => 0x0c,
            RecordStatusInfo::DisallowedCopySource => 0x0d,
            RecordStatusInfo::NoFurtherCopies => 0x0e,
            RecordStatusInfo::NoMedia => 0x10,
            RecordStatusInfo::Playing => 0x11,
            RecordStatusInfo::AlreadyRecording => 0x12,
            RecordStatusInfo::MediaProtected => 0x13,
            RecordStatusInfo::NoSignal => 0x14,
            RecordStatusInfo::MediaProblem => 0x15,
            RecordStatusInfo::NotEnoughSpace => 0x16,
            RecordStatusInfo::ParentalLock => 0x17,
            RecordStatusInfo::TerminatedOk => 0x1a,
            RecordStatusInfo::AlreadyTerminated => 0x1b,
            RecordStatusInfo::Other => 0x1f,
        }
    }

    /// The value that the byte `b` encodes; a byte that encodes none is
    /// reported as an invalid value for this type.
    pub fn try_from_u8(b: u8) -> (r: Result<RecordStatusInfo, Error>)
        ensures
            r matches Ok(v) ==> Self::from_code(b) == Some(v),
            r matches Err(e) ==> Self::from_code(b) is None && e@ == invalid_value("RecordStatusInfo"@, b as nat),
            r is Ok <==> Self::from_code(b) is Some,
    {
        match b {
            0x01 => Ok(RecordStatusInfo::CurrentSource),
            0x02 => Ok(RecordStatusInfo::DigitalService),
            0x03 => Ok(RecordStatusInfo::AnalogueService),
            0x04 => Ok(RecordStatusInfo::ExternalInput),
            0x05 => Ok(RecordStatusInfo::NoDigitalService),
            0x06 => Ok(RecordStatusInfo::NoAnalogueService),
            0x07 => Ok(RecordStatusInfo::NoService),
            0x09 => Ok(RecordStatusInfo::InvalidExternalPlug),
            0x0a => Ok(RecordStatusInfo::InvalidExternalPhysicalAddress),
            0x0b => Ok(RecordStatusInfo::CaUnsupported),
            0x0c => Ok(RecordStatusInfo::InsufficientCaEntitlements),
            0x0d => Ok(RecordStatusInfo::DisallowedCopySource),
            0x0e => Ok(RecordStatusInfo::NoFurtherCopies),
            0x10 => Ok(RecordStatusInfo::NoMedia),
            0x11 => Ok(RecordStatusInfo::Playing),
            0x12 => Ok(RecordStatusInfo::AlreadyRecording),
            0x13 => Ok(RecordStatusInfo::MediaProtected),
            0x14 => Ok(RecordStatusInfo::NoSignal),
            0x15 => Ok(RecordStatusInfo::MediaProblem),
            0x16 => Ok(RecordStatusInfo::NotEnoughSpace),
            0x17 => Ok(RecordStatusInfo::ParentalLock),
            0x1a => Ok(RecordStatusInfo::TerminatedOk),
            0x1b => Ok(RecordStatusInfo::AlreadyTerminated),
            0x1f => Ok(RecordStatusInfo::Other),
            _ => Err(Error::invalid_value("RecordStatusInfo", b)),
        }
    }

    /// Decoding the code of a value gives the value back, and a byte
    /// decodes only to a value of which it is the code.
    pub proof fn lemma_code(self, b: u8)
        ensures
            Self::from_code(self.code()) == Some(self),
            Self::from_code(b) matches Some(v) ==> v.code() == b,
    {
    }
}

impl From<RecordStatusInfo> for u8 {
    fn from(v: RecordStatusInfo) -> (r: u8) {
        v.to_u8()
    }
}

impl vstd::std_specs::convert::FromSpecImpl<RecordStatusInfo> for u8 {
    open spec fn obeys_from_spec() -> bool {
        true
    }

    open spec fn from_spec(v: RecordStatusInfo) -> u8 {
        v.code()
    }
}

impl OperandEncodable for RecordStatusInfo {
    open spec fn spec_bytes(&self) -> Seq<u8> {
        seq![self.code()]
    }

    open spec fn spec_parse(bytes: Seq<u8>) -> Result<Self, ErrorView> {
        parse_code(bytes, |b: u8| Self::from_code(b), "RecordStatusInfo"@)
    }

    open spec fn spec_wf(&self) -> bool {
        true
    }

    open spec fn spec_expected_len() -> RangeView {
        RangeView::AtLeast(1)
    }

    open spec fn spec_self_delimiting() -> bool {
        true
    }

    fn to_bytes(&self, buf: &mut Vec<u8>) {
        buf.push(self.to_u8());
    }

    fn try_from_bytes(bytes: &[u8]) -> (r: Result<Self, Error>) {
        if bytes.len() < 1 {
            return Err(Error::short_input(1, bytes.len()));
        }
        Self::try_from_u8(bytes[0])
    }

    fn len(&self) -> (r: usize) {
        1
    }

    fn expected_len() -> (r: Range) {
        Range::AtLeast(1)
    }

    proof fn lemma_roundtrip(&self, rest: Seq<u8>) {
        self.lemma_code(0);
        assert((self.spec_bytes() + rest)[0] == self.code());
    }

    proof fn lemma_parse_len(bytes: Seq<u8>) {
    }
}

/// A remote control profile of a TV.
#[derive(Clone, Copy, Debug, PartialEq, Eq, Structural, Hash)]
pub enum RcProfileId {
    ProfileNone,
    Profile1,
    Profile2,
    Profile3,
    Profile4,
}

impl RcProfileId {
    /// The byte that encodes the value.
    pub open spec fn code(self) -> u8 {
        match self {
            RcProfileId::ProfileNone => 0x00u8,
            RcProfileId::Profile1 => 0x02u8,
            RcProfileId::Profile2 => 0x06u8,
            RcProfileId::Profile3 => 0x0au8,
            RcProfileId::Profile4 => 0x0eu8,
        }
    }

    /// Each value and the byte that encodes it.
    pub proof fn lemma_code_table()
        ensures
            RcProfileId::ProfileNone.code() == 0x00u8,
            RcProfileId::Profile1.code() == 0x02u8,
            RcProfileId::Profile2.code() == 0x06u8,
            RcProfileId::Profile3.code() == 0x0au8,
            RcProfileId::Profile4.code() == 0x0eu8,
    {
    }

    /// The value that the byte `b` encodes, if any.
    pub open spec fn from_code(b: u8) -> Option<RcProfileId> {
        match b {
            0x00u8 => Some(RcProfileId::ProfileNone),
            0x02u8 => Some(RcProfileId::Profile1),
            0x06u8 => Some(RcProfileId::Profile2),
            0x0au8 => Some(RcProfileId::Profile3),
            0x0eu8 => Some(RcProfileId::Profile4),
            _ => None,
        }
    }

    /// The byte that encodes the value.
    pub fn to_u8(self) -> (r: u8)
        ensures
            r == self.code(),
    {
        match self {
            RcProfileId::ProfileNone => 0x00,
            RcProfileId::Profile1 => 0x02,
            RcProfileId::Profile2 => 0x06,
            RcProfileId::Profile3 => 0x0a,
            RcProfileId::Profile4 => 0x0e,
        }
    }

    /// The value that the byte `b` encodes; a byte that encodes none is
    /// reported as an invalid value for this type.
    pub fn try_from_u8(b: u8) -> (r: Result<RcProfileId, Error>)
        ensures
            r matches Ok(v) ==> Self::from_code(b) == Some(v),
            r matches Err(e) ==> Self::from_code(b) is None && e@ == invalid_value("RcProfileId"@, b as nat),
            r is Ok <==> Self::from_code(b) is Some,
    {
        match b {
            0x00 => Ok(RcProfileId::ProfileNone),
            0x02 => Ok(RcProfileId::Profile1),
            0x06 => Ok(RcProfileId::Profile2),
            0x0a => Ok(RcProfileId::Profile3),
            0x0e => Ok(RcProfileId::Profile4),
            _ => Err(Error::invalid_value("RcProfileId", b)),
        }
    }

    /// Decoding the code of a value gives the value back, and a byte
    /// decodes only to a value of which it is the code.
    pub proof fn lemma_code(self, b: u8)
        ensures
            Self::from_code(self.code()) == Some(self),
            Self::from_code(b) matches Some(v) ==> v.code() == b,
    {
    }
}

impl From<RcProfileId> for u8 {
    fn from(v: RcProfileId) -> (r: u8) {
        v.to_u8()
    }
}

impl vstd::std_specs::convert::FromSpecImpl<RcProfileId> for u8 {
    open spec fn obeys_from_spec() -> bool {
        true
    }

    open spec fn from_spec(v: RcProfileId) -> u8 {
        v.code()
    }
}

impl OperandEncodable for RcProfileId {
    open spec fn spec_bytes(&self) -> Seq<u8> {
        seq![self.code()]
    }

    open spec fn spec_parse(bytes: Seq<u8>) -> Result<Self, ErrorView> {
        parse_code(bytes, |b: u8| Self::from_code(b), "RcProfileId"@)
    }

    open spec fn spec_wf(&self) -> bool {
        true
    }

    open spec fn spec_expected_len() -> RangeView {
        RangeView::AtLeast(1)
    }

    open spec fn spec_self_delimiting() -> bool {
        true
    }

    fn to_bytes(&self, buf: &mut Vec<u8>) {
        buf.push(self.to_u8());
    }

    fn try_from_bytes(bytes: &[u8]) -> (r: Result<Self, Error>) {
        if bytes.len() < 1 {
            return Err(Error::short_input(1, bytes.len()));
        }
        Self::try_from_u8(bytes[0])
    }

    fn len(&self) -> (r: usize) {
        1
    }

    fn expected_len() -> (r: Range) {
        Range::AtLeast(1)
    }

    proof fn lemma_roundtrip(&self, rest: Seq<u8>) {
        self.lemma_code(0);
        assert((self.spec_bytes() + rest)[0] == self.code());
    }

    proof fn lemma_parse_len(bytes: Seq<u8>) {
    }
}

/// How often a status is to be reported.
#[derive(Clone, Copy, Debug, PartialEq, Eq, Structural, Hash)]
pub enum StatusRequest {
    On,
    Off,
    Once,
}

impl StatusRequest {
    /// The byte that encodes the value.
    pub open spec fn code(self) -> u8 {
        match self {
            StatusRequest::On => 0x01u8,
            StatusRequest::Off => 0x02u8,
            StatusRequest::Once => 0x03u8,
        }
    }

    /// Each value and the byte that encodes it.
    pub proof fn lemma_code_table()
        ensures
            StatusRequest::On.code() == 0x01u8,
            StatusRequest::Off.code() == 0x02u8,
            StatusRequest::Once.code() == 0x03u8,
    {
    }

    /// The value that the byte `b` encodes, if any.
    pub open spec fn from_code(b: u8) -> Option<StatusRequest> {
        match b {
            0x01u8 => Some(StatusRequest::On),
            0x02u8 => Some(StatusRequest::Off),
            0x03u8 => Some(StatusRequest::Once),
            _ => None,
        }
    }

    /// The byte that encodes the value.
    pub fn to_u8(self) -> (r: u8)
        ensures
            r == self.code(),
    {
        match self {
            StatusRequest::On => 0x01,
            StatusRequest::Off => 0x02,
            StatusRequest::Once => 0x03,
        }
    }

    /// The value that the byte `b` encodes; a byte that encodes none is
    /// reported as an invalid value for this type.
    pub fn try_from_u8(b: u8) -> (r: Result<StatusRequest, Error>)
        ensures
            r matches Ok(v) ==> Self::from_code(b) == Some(v),
            r matches Err(e) ==> Self::from_code(b) is None && e@ == invalid_value("StatusRequest"@, b as nat),
            r is Ok <==> Self::from_code(b) is Some,
    {
        match b {
            0x01 => Ok(StatusRequest::On),
            0x02 => Ok(StatusRequest::Off),
            0x03 => Ok(StatusRequest::Once),
            _ => Err(Error::invalid_value("StatusRequest", b)),
        }
    }

    /// Decoding the code of a value gives the value back, and a byte
    /// decodes only to a value of which it is the code.
    pub proof fn lemma_code(self, b: u8)
        ensures
            Self::from_code(self.code()) == Some(self),
            Self::from_code(b) matches Some(v) ==> v.code() == b,
    {
    }
}

impl From<StatusRequest> for u8 {
    fn from(v: StatusRequest) -> (r: u8) {
        v.to_u8()
    }
}

impl vstd::std_specs::convert::FromSpecImpl<StatusRequest> for u8 {
    open spec fn obeys_from_spec() -> bool {
        true
    }

    open spec fn from_spec(v: StatusRequest) -> u8 {
        v.code()
    }
}

impl OperandEncodable for StatusRequest {
    open spec fn spec_bytes(&self) -> Seq<u8> {
        seq![self.code()]
    }

    open spec fn spec_parse(bytes: Seq<u8>) -> Result<Self, ErrorView> {
        parse_code(bytes, |b: u8| Self::from_code(b), "StatusRequest"@)
    }

    open spec fn spec_wf(&self) -> bool {
        true
    }

    open spec fn spec_expected_len() -> RangeView {
        RangeView::AtLeast(1)
    }

    open spec fn spec_self_delimiting() -> bool {
        true
    }

    fn to_bytes(&self, buf: &mut Vec<u8>) {
        buf.push(self.to_u8());
    }

    fn try_from_bytes(bytes: &[u8]) -> (r: Result<Self, Error>) {
        if bytes.len() < 1 {
            return Err(Error::short_input(1, bytes.len()));
        }
        Self::try_from_u8(bytes[0])
    }

    fn len(&self) -> (r: usize) {
        1
    }

    fn expected_len() -> (r: Range) {
        Range::AtLeast(1)
    }

    proof fn lemma_roundtrip(&self, rest: Seq<u8>) {
        self.lemma_code(0);
        assert((self.spec_bytes() + rest)[0] == self.code());
    }

    proof fn lemma_parse_len(bytes: Seq<u8>) {
    }
}

/// The outcome of clearing a timer.
#[derive(Clone, Copy, Debug, PartialEq, Eq, Structural, Hash)]
pub enum TimerClearedStatusData {
    Recording,
    NoMatching,
    NoInfo,
    Cleared,
}

impl TimerClearedStatusData {
    /// The byte that encodes the value.
    pub open spec fn code(self) -> u8 {
        match self {
            TimerClearedStatusData::Recording => 0x00u8,
            TimerClearedStatusData::NoMatching => 0x01u8,
            TimerClearedStatusData::NoInfo => 0x02u8,
            TimerClearedStatusData::Cleared => 0x80u8,
        }
    }

    /// Each value and the byte that encodes it.
    pub proof fn lemma_code_table()
        ensures
            TimerClearedStatusData::Recording.code() == 0x00u8,
            TimerClearedStatusData::NoMatching.code() == 0x01u8,
            TimerClearedStatusData::NoInfo.code() == 0x02u8,
            TimerClearedStatusData::Cleared.code() == 0x80u8,
    {
    }

    /// The value that the byte `b` encodes, if any.
    pub open spec fn from_code(b: u8) -> Option<TimerClearedStatusData> {
        match b {
            0x00u8 => Some(TimerClearedStatusData::Recording),
            0x01u8 => Some(TimerClearedStatusData::NoMatching),
            0x02u8 => Some(TimerClearedStatusData::NoInfo),
            0x80u8 => Some(TimerClearedStatusData::Cleared),
            _ => None,
        }
    }

    /// The byte that encodes the value.
    pub fn to_u8(self) -> (r: u8)
        ensures
            r == self.code(),
    {
        match self {
            TimerClearedStatusData::Recording => 0x00,
            TimerClearedStatusData::NoMatching => 0x01,
            TimerClearedStatusData::NoInfo => 0x02,
            TimerClearedStatusData::Cleared => 0x80,
        }
    }

    /// The value that the byte `b` encodes; a byte that encodes none is
    /// reported as an invalid value for this type.
    pub fn try_from_u8(b: u8) -> (r: Result<TimerClearedStatusData, Error>)
        ensures
            r matches Ok(v) ==> Self::from_code(b) == Some(v),
            r matches Err(e) ==> Self::from_code(b) is None && e@ == invalid_value("TimerClearedStatusData"@, b as nat),
            r is Ok <==> Self::from_code(b) is Some,
    {
        match b {
            0x00 => Ok(TimerClearedStatusData::Recording),
            0x01 => Ok(TimerClearedStatusData::NoMatching),
            0x02 => Ok(TimerClearedStatusData::NoInfo),
            0x80 => Ok(TimerClearedStatusData::Cleared),
            _ => Err(Error::invalid_value("TimerClearedStatusData", b)),
        }
    }

    /// Decoding the code of a value gives the value back, and a byte
    /// decodes only to a value of which it is the code.
    pub proof fn lemma_code(self, b: u8)
        ensures
            Self::from_code(self.code()) == Some(self),
            Self::from_code(b) matches Some(v) ==> v.code() == b,
    {
    }
}

impl From<TimerClearedStatusData> for u8 {
    fn from(v: TimerClearedStatusData) -> (r: u8) {
        v.to_u8()
    }
}

impl vstd::std_specs::convert::FromSpecImpl<TimerClearedStatusData> for u8 {
    open spec fn obeys_from_spec() -> bool {
        true
    }

    open spec fn from_spec(v: TimerClearedStatusData) -> u8 {
        v.code()
    }
}

impl OperandEncodable for TimerClearedStatusData {
    open spec fn spec_bytes(&self) -> Seq<u8> {
        seq![self.code()]
    }

    open spec fn spec_parse(bytes: Seq<u8>) -> Result<Self, ErrorView> {
        parse_code(bytes, |b: u8| Self::from_code(b), "TimerClearedStatusData"@)
    }

    open spec fn spec_wf(&self) -> bool {
        true
    }

    open spec fn spec_expected_len() -> RangeView {
        RangeView::AtLeast(1)
    }

    open spec fn spec_self_delimiting() -> bool {
        true
    }

    fn to_bytes(&self, buf: &mut Vec<u8>) {
        buf.push(self.to_u8());
    }

    fn try_from_bytes(bytes: &[u8]) -> (r: Result<Self, Error>) {
        if bytes.len() < 1 {
            return Err(Error::short_input(1, bytes.len()));
        }
        Self::try_from_u8(bytes[0])
    }

    fn len(&self) -> (r: usize) {
        1
    }

    fn expected_len() -> (r: Range) {
        Range::AtLeast(1)
    }

    proof fn lemma_roundtrip(&self, rest: Seq<u8>) {
        self.lemma_code(0);
        assert((self.spec_bytes() + rest)[0] == self.code());
    }

    proof fn lemma_parse_len(bytes: Seq<u8>) {
    }
}

/// What a tuner shows.
#[derive(Clone, Copy, Debug, PartialEq, Eq, Structural, Hash)]
pub enum TunerDisplayInfo {
    Digital,
    NotDisplayed,
    Analogue,
}

impl TunerDisplayInfo {
    /// The byte that encodes the value.
    pub open spec fn code(self) -> u8 {
        match self {
            TunerDisplayInfo::Digital => 0x00u8,
            TunerDisplayInfo::NotDisplayed => 0x01u8,
            TunerDisplayInfo::Analogue => 0x02u8,
        }
    }

    /// Each value and the byte that encodes it.
    pub proof fn lemma_code_table()
        ensures
            TunerDisplayInfo::Digital.code() == 0x00u8,
            TunerDisplayInfo::NotDisplayed.code() == 0x01u8,
            TunerDisplayInfo::Analogue.code() == 0x02u8,
    {
    }

    /// The value that the byte `b` encodes, if any.
    pub open spec fn from_code(b: u8) -> Option<TunerDisplayInfo> {
        match b {
            0x00u8 => Some(TunerDisplayInfo::Digital),
            0x01u8 => Some(TunerDisplayInfo::NotDisplayed),
            0x02u8 => Some(TunerDisplayInfo::Analogue),
            _ => None,
        }
    }

    /// The byte that encodes the value.
    pub fn to_u8(self) -> (r: u8)
        ensures
            r == self.code(),
    {
        match self {
            TunerDisplayInfo::Digital => 0x00,
            TunerDisplayInfo::NotDisplayed => 0x01,
            TunerDisplayInfo::Analogue => 0x02,
        }
    }

    /// The value that the byte `b` encodes; a byte that encodes none is
    /// reported as an invalid value for this type.
    pub fn try_from_u8(b: u8) -> (r: Result<TunerDisplayInfo, Error>)
        ensures
            r matches Ok(v) ==> Self::from_code(b) == Some(v),
            r matches Err(e) ==> Self::from_code(b) is None && e@ == invalid_value("TunerDisplayInfo"@, b as nat),
            r is Ok <==> Self::from_code(b) is Some,
    {
        match b {
            0x00 => Ok(TunerDisplayInfo::Digital),
            0x01 => Ok(TunerDisplayInfo::NotDisplayed),
            0x02 => Ok(TunerDisplayInfo::Analogue),
            _ => Err(Error::invalid_value("TunerDisplayInfo", b)),
        }
    }

    /// Decoding the code of a value gives the value back, and a byte
    /// decodes only to a value of which it is the code.
    pub proof fn lemma_code(self, b: u8)
        ensures
            Self::from_code(self.code()) == Some(self),
            Self::from_code(b) matches Some(v) ==> v.code() == b,
    {
    }
}

impl From<TunerDisplayInfo> for u8 {
    fn from(v: TunerDisplayInfo) -> (r: u8) {
        v.to_u8()
    }
}

impl vstd::std_specs::convert::FromSpecImpl<TunerDisplayInfo> for u8 {
    open spec fn obeys_from_spec() -> bool {
        true
    }

    open spec fn from_spec(v: TunerDisplayInfo) -> u8 {
        v.code()
    }
}

impl OperandEncodable for TunerDisplayInfo {
    open spec fn spec_bytes(&self) -> Seq<u8> {
        seq![self.code()]
    }

    open spec fn spec_parse(bytes: Seq<u8>) -> Result<Self, ErrorView> {
        parse_code(bytes, |b: u8| Self::from_code(b), "TunerDisplayInfo"@)
    }

    open spec fn spec_wf(&self) -> bool {
        true
    }

    open spec fn spec_expected_len() -> RangeView {
        RangeView::AtLeast(1)
    }

    open spec fn spec_self_delimiting() -> bool {
        true
    }

    fn to_bytes(&self, buf: &mut Vec<u8>) {
        buf.push(self.to_u8());
    }

    fn try_from_bytes(bytes: &[u8]) -> (r: Result<Self, Error>) {
        if bytes.len() < 1 {
            return Err(Error::short_input(1, bytes.len()));
        }
        Self::try_from_u8(bytes[0])
    }

    fn len(&self) -> (r: usize) {
        1
    }

    fn expected_len() -> (r: Range) {
        Range::AtLeast(1)
    }

    proof fn lemma_roundtrip(&self, rest: Seq<u8>) {
        self.lemma_code(0);
        assert((self.spec_bytes() + rest)[0] == self.code());
    }

    proof fn lemma_parse_len(bytes: Seq<u8>) {
    }
}

/// A broadcast type selected from the user interface.
#[derive(Clone, Copy, Debug, PartialEq, Eq, Structural, Hash)]
pub enum UiBroadcastType {
    ToggleAll,
    ToggleDigitalAnalogue,
    Analogue,
    AnalogueTerrestrial,
    AnalogueCable,
    AnalogueSatellite,
    Digital,
    DigitalTerrestrial,
    DigitalCable,
    DigitalSatellite,
    DigitalCommsSatellite,
    DigitalCommsSatellite2,
    Ip,
}

impl UiBroadcastType {
    /// The byte that encodes the value.
    pub open spec fn code(self) -> u8 {
        match self {
            UiBroadcastType::ToggleAll => 0x00u8,
            UiBroadcastType::ToggleDigitalAnalogue => 0x01u8,
            UiBroadcastType::Analogue => 0x10u8,
            UiBroadcastType::AnalogueTerrestrial => 0x20u8,
            UiBroadcastType::AnalogueCable => 0x30u8,
            UiBroadcastType::AnalogueSatellite => 0x40u8,
            UiBroadcastType::Digital => 0x50u8,
            UiBroadcastType::DigitalTerrestrial => 0x60u8,
            UiBroadcastType::DigitalCable => 0x70u8,
            UiBroadcastType::DigitalSatellite => 0x80u8,
            UiBroadcastType::DigitalCommsSatellite => 0x90u8,
            UiBroadcastType::DigitalCommsSatellite2 => 0x91u8,
            UiBroadcastType::Ip => 0xa0u8,
        }
    }

    /// Each value and the byte that encodes it.
    pub proof fn lemma_code_table()
        ensures
            UiBroadcastType::ToggleAll.code() == 0x00u8,
            UiBroadcastType::ToggleDigitalAnalogue.code() == 0x01u8,
            UiBroadcastType::Analogue.code() == 0x10u8,
            UiBroadcastType::AnalogueTerrestrial.code() == 0x20u8,
            UiBroadcastType::AnalogueCable.code() == 0x30u8,
            UiBroadcastType::AnalogueSatellite.code() == 0x40u8,
            UiBroadcastType::Digital.code() == 0x50u8,
            UiBroadcastType::DigitalTerrestrial.code() == 0x60u8,
            UiBroadcastType::DigitalCable.code() == 0x70u8,
            UiBroadcastType::DigitalSatellite.code() == 0x80u8,
            UiBroadcastType::DigitalCommsSatellite.code() == 0x90u8,
            UiBroadcastType::DigitalCommsSatellite2.code() == 0x91u8,
            UiBroadcastType::Ip.code() == 0xa0u8,
    {
    }

    /// The value that the byte `b` encodes, if any.
    pub open spec fn from_code(b: u8) -> Option<UiBroadcastType> {
        match b {
            0x00u8 => Some(UiBroadcastType::ToggleAll),
            0x01u8 => Some(UiBroadcastType::ToggleDigitalAnalogue),
            0x10u8 => Some(UiBroadcastType::Analogue),
            0x20u8 => Some(UiBroadcastType::AnalogueTerrestrial),
            0x30u8 => Some(UiBroadcastType::AnalogueCable),
            0x40u8 => Some(UiBroadcastType::AnalogueSatellite),
            0x50u8 => Some(UiBroadcastType::Digital),
            0x60u8 => Some(UiBroadcastType::DigitalTerrestrial),
            0x70u8 => Some(UiBroadcastType::DigitalCable),
            0x80u8 => Some(UiBroadcastType::DigitalSatellite),
            0x90u8 => Some(UiBroadcastType::DigitalCommsSatellite),
            0x91u8 => Some(UiBroadcastType::DigitalCommsSatellite2),
            0xa0u8 => Some(UiBroadcastType::Ip),
            _ => None,
        }
    }

    /// The byte that encodes the value.
    pub fn to_u8(self) -> (r: u8)
        ensures
            r == self.code(),
    {
        match self {
            UiBroadcastType::ToggleAll => 0x00,
            UiBroadcastType::ToggleDigitalAnalogue => 0x01,
            UiBroadcastType::Analogue => 0x10,
            UiBroadcastType::AnalogueTerrestrial => 0x20,
            UiBroadcastType::AnalogueCable => 0x30,
            UiBroadcastType::AnalogueSatellite => 0x40,
            UiBroadcastType::Digital => 0x50,
            UiBroadcastType::DigitalTerrestrial => 0x60,
            UiBroadcastType::DigitalCable => 0x70,
            UiBroadcastType::DigitalSatellite => 0x80,
            UiBroadcastType::DigitalCommsSatellite => 0x90,
            UiBroadcastType::DigitalCommsSatellite2 => 0x91,
            UiBroadcastType::Ip => 0xa0,
        }
    }

    /// The value that the byte `b` encodes; a byte that encodes none is
    /// reported as an invalid value for this type.
    pub fn try_from_u8(b: u8) -> (r: Result<UiBroadcastType, Error>)
        ensures
            r matches Ok(v) ==> Self::from_code(b) == Some(v),
            r matches Err(e) ==> Self::from_code(b) is None && e@ == invalid_value("UiBroadcastType"@, b as nat),
            r is Ok <==> Self::from_code(b) is Some,
    {
        match b {
            0x00 => Ok(UiBroadcastType::ToggleAll),
            0x01 => Ok(UiBroadcastType::ToggleDigitalAnalogue),
            0x10 => Ok(UiBroadcastType::Analogue),
            0x20 => Ok(UiBroadcastType::AnalogueTerrestrial),
            0x30 => Ok(UiBroadcastType::AnalogueCable),
            0x40 => Ok(UiBroadcastType::AnalogueSatellite),
            0x50 => Ok(UiBroadcastType::Digital),
            0x60 => Ok(UiBroadcastType::DigitalTerrestrial),
            0x70 => Ok(UiBroadcastType::DigitalCable),
            0x80 => Ok(UiBroadcastType::DigitalSatellite),
            0x90 => Ok(UiBroadcastType::DigitalCommsSatellite),
            0x91 => Ok(UiBroadcastType::DigitalCommsSatellite2),
            0xa0 => Ok(UiBroadcastType::Ip),
            _ => Err(Error::invalid_value("UiBroadcastType", b)),
        }
    }

    /// Decoding the code of a value gives the value back, and a byte
    /// decodes only to a value of which it is the code.
    pub proof fn lemma_code(self, b: u8)
        ensures
            Self::from_code(self.code()) == Some(self),
            Self::from_code(b) matches Some(v) ==> v.code() == b,
    {
    }
}

impl From<UiBroadcastType> for u8 {
    fn from(v: UiBroadcastType) -> (r: u8) {
        v.to_u8()
    }
}

impl vstd::std_specs::convert::FromSpecImpl<UiBroadcastType> for u8 {
    open spec fn obeys_from_spec() -> bool {
        true
    }

    open spec fn from_spec(v: UiBroadcastType) -> u8 {
        v.code()
    }
}

impl OperandEncodable for UiBroadcastType {
    open spec fn spec_bytes(&self) -> Seq<u8> {
        seq![self.code()]
    }

    open spec fn spec_parse(bytes: Seq<u8>) -> Result<Self, ErrorView> {
        parse_code(bytes, |b: u8| Self::from_code(b), "UiBroadcastType"@)
    }

    open spec fn spec_wf(&self) -> bool {
        true
    }

    open spec fn spec_expected_len() -> RangeView {
        RangeView::AtLeast(1)
    }

    open spec fn spec_self_delimiting() -> bool {
        true
    }

    fn to_bytes(&self, buf: &mut Vec<u8>) {
        buf.push(self.to_u8());
    }

    fn try_from_bytes(bytes: &[u8]) -> (r: Result<Self, Error>) {
        if bytes.len() < 1 {
            return Err(Error::short_input(1, bytes.len()));
        }
        Self::try_from_u8(bytes[0])
    }

    fn len(&self) -> (r: usize) {
        1
    }

    fn expected_len() -> (r: Range) {
        Range::AtLeast(1)
    }

    proof fn lemma_roundtrip(&self, rest: Seq<u8>) {
        self.lemma_code(0);
        assert((self.spec_bytes() + rest)[0] == self.code());
    }

    proof fn lemma_parse_len(bytes: Seq<u8>) {
    }
}

/// A remote control button.
#[derive(Clone, Copy, Debug, PartialEq, Eq, Structural, Hash)]
pub enum UiCommand {
    Select,
    Up,
    Down,
    Left,
    Right,
    RightUp,
    RightDown,
    LeftUp,
    LeftDown,
    DeviceRootMenu,
    DeviceSetupMenu,
    ContentsMenu,
    FavoriteMenu,
    Back,
    MediaTopMenu,
    MediaContextSensitiveMenu,
    NumberEntryMode,
    Number11,
    Number12,
    Number0OrNumber10,
    Number1,
    Number2,
    Number3,
    Number4,
    Number5,
    Number6,
    Number7,
    Number8,
    Number9,
    Dot,
    Enter,
    Clear,
    NextFavorite,
    ChannelUp,
    ChannelDown,
    PreviousChannel,
    SoundSelect,
    InputSelect,
    DisplayInformation,
    Help,
    PageUp,
    PageDown,
    Power,
    VolumeUp,
    VolumeDown,
    Mute,
    Play,
    Stop,
    Pause,
    Record,
    Rewind,
    FastForward,
    Eject,
    SkipForward,
    SkipBackward,
    StopRecord,
    PauseRecord,
    Angle,
    SubPicture,
    VideoOnDemand,
    ElectronicProgramGuide,
    TimerProgramming,
    InitialConfiguration,
    SelectBroadcastType,
    SelectSoundPresentation,
    AudioDescription,
    Internet,
    ThreeDMode,
    PlayFunction,
    PausePlayFunction,
    RecordFunction,
    PauseRecordFunction,
    StopFunction,
    MuteFunction,
    RestoreVolumeFunction,
    TuneFunction,
    SelectMediaFunction,
    AvInputFunction,
    AudioInputFunction,
    PowerToggleFunction,
    PowerOffFunction,
    PowerOnFunction,
    F1Blue,
    F2Red,
    F3Green,
    F4Yellow,
    F5,
    Data,
}

impl UiCommand {
    /// The byte that encodes the value.
    pub open spec fn code(self) -> u8 {
        match self {
            UiCommand::Select => 0x00u8,
            UiCommand::Up => 0x01u8,
            UiCommand::Down => 0x02u8,
            UiCommand::Left => 0x03u8,
            UiCommand::Right => 0x04u8,
            UiCommand::RightUp => 0x05u8,
            UiCommand::RightDown => 0x06u8,
            UiCommand::LeftUp => 0x07u8,
            UiCommand::LeftDown => 0x08u8,
            UiCommand::DeviceRootMenu => 0x09u8,
            UiCommand::DeviceSetupMenu => 0x0au8,
            UiCommand::ContentsMenu => 0x0bu8,
            UiCommand::FavoriteMenu => 0x0cu8,
            UiCommand::Back => 0x0du8,
            UiCommand::MediaTopMenu => 0x10u8,
            UiCommand::MediaContextSensitiveMenu => 0x11u8,
            UiCommand::NumberEntryMode => 0x1du8,
            UiCommand::Number11 => 0x1eu8,
            UiCommand::Number12 => 0x1fu8,
            UiCommand::Number0OrNumber10 => 0x20u8,
            UiCommand::Number1 => 0x21u8,
            UiCommand::Number2 => 0x22u8,
            UiCommand::Number3 => 0x23u8,
            UiCommand::Number4 => 0x24u8,
            UiCommand::Number5 => 0x25u8,
            UiCommand::Number6 => 0x26u8,
            UiCommand::Number7 => 0x27u8,
            UiCommand::Number8 => 0x28u8,
            UiCommand::Number9 => 0x29u8,
            UiCommand::Dot => 0x2au8,
            UiCommand::Enter => 0x2bu8,
            UiCommand::Clear => 0x2cu8,
            UiCommand::NextFavorite => 0x2fu8,
            UiCommand::ChannelUp => 0x30u8,
            UiCommand::ChannelDown => 0x31u8,
            UiCommand::PreviousChannel => 0x32u8,
            UiCommand::SoundSelect => 0x33u8,
            UiCommand::InputSelect => 0x34u8,
            UiCommand::DisplayInformation => 0x35u8,
            UiCommand::Help => 0x36u8,
            UiCommand::PageUp => 0x37u8,
            UiCommand::PageDown => 0x38u8,
            UiCommand::Power => 0x40u8,
            UiCommand::VolumeUp => 0x41u8,
            UiCommand::VolumeDown => 0x42u8,
            UiCommand::Mute => 0x43u8,
            UiCommand::Play => 0x44u8,
            UiCommand::Stop => 0x45u8,
            UiCommand::Pause => 0x46u8,
            UiCommand::Record => 0x47u8,
            UiCommand::Rewind => 0x48u8,
            UiCommand::FastForward => 0x49u8,
            UiCommand::Eject => 0x4au8,
            UiCommand::SkipForward => 0x4bu8,
            UiCommand::SkipBackward => 0x4cu8,
            UiCommand::StopRecord => 0x4du8,
            UiCommand::PauseRecord => 0x4eu8,
            UiCommand::Angle => 0x50u8,
            UiCommand::SubPicture => 0x51u8,
            UiCommand::VideoOnDemand => 0x52u8,
            UiCommand::ElectronicProgramGuide => 0x53u8,
            UiCommand::TimerProgramming => 0x54u8,
            UiCommand::InitialConfiguration => 0x55u8,
            UiCommand::SelectBroadcastType => 0x56u8,
            UiCommand::SelectSoundPresentation => 0x57u8,
            UiCommand::AudioDescription => 0x58u8,
            UiCommand::Internet => 0x59u8,
            UiCommand::ThreeDMode => 0x5au8,
            UiCommand::PlayFunction => 0x60u8,
            UiCommand::PausePlayFunction => 0x61u8,
            UiCommand::RecordFunction => 0x62u8,
            UiCommand::PauseRecordFunction => 0x63u8,
            UiCommand::StopFunction => 0x64u8,
            UiCommand::MuteFunction => 0x65u8,
            UiCommand::RestoreVolumeFunction => 0x66u8,
            UiCommand::TuneFunction => 0x67u8,
            UiCommand::SelectMediaFunction => 0x68u8,
            UiCommand::AvInputFunction => 0x69u8,
            UiCommand::AudioInputFunction => 0x6au8,
            UiCommand::PowerToggleFunction => 0x6bu8,
            UiCommand::PowerOffFunction => 0x6cu8,
            UiCommand::PowerOnFunction => 0x6du8,
            UiCommand::F1Blue => 0x71u8,
            UiCommand::F2Red => 0x72u8,
            UiCommand::F3Green => 0x73u8,
            UiCommand::F4Yellow => 0x74u8,
            UiCommand::F5 => 0x75u8,
            UiCommand::Data => 0x76u8,
        }
    }

    /// Each value and the byte that encodes it.
    pub proof fn lemma_code_table()
        ensures
            UiCommand::Select.code() == 0x00u8,
            UiCommand::Up.code() == 0x01u8,
            UiCommand::Down.code() == 0x02u8,
            UiCommand::Left.code() == 0x03u8,
            UiCommand::Right.code() == 0x04u8,
            UiCommand::RightUp.code() == 0x05u8,
            UiCommand::RightDown.code() == 0x06u8,
            UiCommand::LeftUp.code() == 0x07u8,
            UiCommand::LeftDown.code() == 0x08u8,
            UiCommand::DeviceRootMenu.code() == 0x09u8,
            UiCommand::DeviceSetupMenu.code() == 0x0au8,
            UiCommand::ContentsMenu.code() == 0x0bu8,
            UiCommand::FavoriteMenu.code() == 0x0cu8,
            UiCommand::Back.code() == 0x0du8,
            UiCommand::MediaTopMenu.code() == 0x10u8,
            UiCommand::MediaContextSensitiveMenu.code() == 0x11u8,
            UiCommand::NumberEntryMode.code() == 0x1du8,
            UiCommand::Number11.code() == 0x1eu8,
            UiCommand::Number12.code() == 0x1fu8,
            UiCommand::Number0OrNumber10.code() == 0x20u8,
            UiCommand::Number1.code() == 0x21u8,
            UiCommand::Number2.code() == 0x22u8,
            UiCommand::Number3.code() == 0x23u8,
            UiCommand::Number4.code() == 0x24u8,
            UiCommand::Number5.code() == 0x25u8,
            UiCommand::Number6.code() == 0x26u8,
            UiCommand::Number7.code() == 0x27u8,
            UiCommand::Number8.code() == 0x28u8,
            UiCommand::Number9.code() == 0x29u8,
            UiCommand::Dot.code() == 0x2au8,
            UiCommand::Enter.code() == 0x2bu8,
            UiCommand::Clear.code() == 0x2cu8,
            UiCommand::NextFavorite.code() == 0x2fu8,
            UiCommand::ChannelUp.code() == 0x30u8,
            UiCommand::ChannelDown.code() == 0x31u8,
            UiCommand::PreviousChannel.code() == 0x32u8,
            UiCommand::SoundSelect.code() == 0x33u8,
            UiCommand::InputSelect.code() == 0x34u8,
            UiCommand::DisplayInformation.code() == 0x35u8,
            UiCommand::Help.code() == 0x36u8,
            UiCommand::PageUp.code() == 0x37u8,
            UiCommand::PageDown.code() == 0x38u8,
            UiCommand::Power.code() == 0x40u8,
            UiCommand::VolumeUp.code() == 0x41u8,
            UiCommand::VolumeDown.code() == 0x42u8,
            UiCommand::Mute.code() == 0x43u8,
            UiCommand::Play.code() == 0x44u8,
            UiCommand::Stop.code() == 0x45u8,
            UiCommand::Pause.code() == 0x46u8,
            UiCommand::Record.code() == 0x47u8,
            UiCommand::Rewind.code() == 0x48u8,
            UiCommand::FastForward.code() == 0x49u8,
            UiCommand::Eject.code() == 0x4au8,
            UiCommand::SkipForward.code() == 0x4bu8,
            UiCommand::SkipBackward.code() == 0x4cu8,
            UiCommand::StopRecord.code() == 0x4du8,
            UiCommand::PauseRecord.code() == 0x4eu8,
            UiCommand::Angle.code() == 0x50u8,
            UiCommand::SubPicture.code() == 0x51u8,
            UiCommand::VideoOnDemand.code() == 0x52u8,
            UiCommand::ElectronicProgramGuide.code() == 0x53u8,
            UiCommand::TimerProgramming.code() == 0x54u8,
            UiCommand::InitialConfiguration.code() == 0x55u8,
            UiCommand::SelectBroadcastType.code() == 0x56u8,
            UiCommand::SelectSoundPresentation.code() == 0x57u8,
            UiCommand::AudioDescription.code() == 0x58u8,
            UiCommand::Internet.code() == 0x59u8,
            UiCommand::ThreeDMode.code() == 0x5au8,
            UiCommand::PlayFunction.code() == 0x60u8,
            UiCommand::PausePlayFunction.code() == 0x61u8,
            UiCommand::RecordFunction.code() == 0x62u8,
            UiCommand::PauseRecordFunction.code() == 0x63u8,
            UiCommand::StopFunction.code() == 0x64u8,
            UiCommand::MuteFunction.code() == 0x65u8,
            UiCommand::RestoreVolumeFunction.code() == 0x66u8,
            UiCommand::TuneFunction.code() == 0x67u8,
            UiCommand::SelectMediaFunction.code() == 0x68u8,
            UiCommand::AvInputFunction.code() == 0x69u8,
            UiCommand::AudioInputFunction.code() == 0x6au8,
            UiCommand::PowerToggleFunction.code() == 0x6bu8,
            UiCommand::PowerOffFunction.code() == 0x6cu8,
            UiCommand::PowerOnFunction.code() == 0x6du8,
            UiCommand::F1Blue.code() == 0x71u8,
            UiCommand::F2Red.code() == 0x72u8,
            UiCommand::F3Green.code() == 0x73u8,
            UiCommand::F4Yellow.code() == 0x74u8,
            UiCommand::F5.code() == 0x75u8,
            UiCommand::Data.code() == 0x76u8,
    {
    }

    /// The value that the byte `b` encodes, if any.
    pub open spec fn from_code(b: u8) -> Option<UiCommand> {
        match b {
            0x00u8 => Some(UiCommand::Select),
            0x01u8 => Some(UiCommand::Up),
            0x02u8 => Some(UiCommand::Down),
            0x03u8 => Some(UiCommand::Left),
            0x04u8 => Some(UiCommand::Right),
            0x05u8 => Some(UiCommand::RightUp),
            0x06u8 => Some(UiCommand::RightDown),
            0x07u8 => Some(UiCommand::LeftUp),
            0x08u8 => Some(UiCommand::LeftDown),
            0x09u8 => Some(UiCommand::DeviceRootMenu),
            0x0au8 => Some(UiCommand::DeviceSetupMenu),
            0x0bu8 => Some(UiCommand::ContentsMenu),
            0x0cu8 => Some(UiCommand::FavoriteMenu),
            0x0du8 => Some(UiCommand::Back),
            0x10u8 => Some(UiCommand::MediaTopMenu),
            0x11u8 => Some(UiCommand::MediaContextSensitiveMenu),
            0x1du8 => Some(UiCommand::NumberEntryMode),
            0x1eu8 => Some(UiCommand::Number11),
            0x1fu8 => Some(UiCommand::Number12),
            0x20u8 => Some(UiCommand::Number0OrNumber10),
            0x21u8 => Some(UiCommand::Number1),
            0x22u8 => Some(UiCommand::Number2),
            0x23u8 => Some(UiCommand::Number3),
            0x24u8 => Some(UiCommand::Number4),
            0x25u8 => Some(UiCommand::Number5),
            0x26u8 => Some(UiCommand::Number6),
            0x27u8 => Some(UiCommand::Number7),
            0x28u8 => Some(UiCommand::Number8),
            0x29u8 => Some(UiCommand::Number9),
            0x2au8 => Some(UiCommand::Dot),
            0x2bu8 => Some(UiCommand::Enter),
            0x2cu8 => Some(UiCommand::Clear),
            0x2fu8 => Some(UiCommand::NextFavorite),
            0x30u8 => Some(UiCommand::ChannelUp),
            0x31u8 => Some(UiCommand::ChannelDown),
            0x32u8 => Some(UiCommand::PreviousChannel),
            0x33u8 => Some(UiCommand::SoundSelect),
            0x34u8 => Some(UiCommand::InputSelect),
            0x35u8 => Some(UiCommand::DisplayInformation),
            0x36u8 => Some(UiCommand::Help),
            0x37u8 => Some(UiCommand::PageUp),
            0x38u8 => Some(UiCommand::PageDown),
            0x40u8 => Some(UiCommand::Power),
            0x41u8 => Some(UiCommand::VolumeUp),
            0x42u8 => Some(UiCommand::VolumeDown),
            0x43u8 => Some(UiCommand::Mute),
            0x44u8 => Some(UiCommand::Play),
            0x45u8 => Some(UiCommand::Stop),
            0x46u8 => Some(UiCommand::Pause),
            0x47u8 => Some(UiCommand::Record),
            0x48u8 => Some(UiCommand::Rewind),
            0x49u8 => Some(UiCommand::FastForward),
            0x4au8 => Some(UiCommand::Eject),
            0x4bu8 => Some(UiCommand::SkipForward),
            0x4cu8 => Some(UiCommand::SkipBackward),
            0x4du8 => Some(UiCommand::StopRecord),
            0x4eu8 => Some(UiCommand::PauseRecord),
            0x50u8 => Some(UiCommand::Angle),
            0x51u8 => Some(UiCommand::SubPicture),
            0x52u8 => Some(UiCommand::VideoOnDemand),
            0x53u8 => Some(UiCommand::ElectronicProgramGuide),
            0x54u8 => Some(UiCommand::TimerProgramming),
            0x55u8 => Some(UiCommand::InitialConfiguration),
            0x56u8 => Some(UiCommand::SelectBroadcastType),
            0x57u8 => Some(UiCommand::SelectSoundPresentation),
            0x58u8 => Some(UiCommand::AudioDescription),
            0x59u8 => Some(UiCommand::Internet),
            0x5au8 => Some(UiCommand::ThreeDMode),
            0x60u8 => Some(UiCommand::PlayFunction),
            0x61u8 => Some(UiCommand::PausePlayFunction),
            0x62u8 => Some(UiCommand::RecordFunction),
            0x63u8 => Some(UiCommand::PauseRecordFunction),
            0x64u8 => Some(UiCommand::StopFunction),
            0x65u8 => Some(UiCommand::MuteFunction),
            0x66u8 => Some(UiCommand::RestoreVolumeFunction),
            0x67u8 => Some(UiCommand::TuneFunction),
            0x68u8 => Some(UiCommand::SelectMediaFunction),
            0x69u8 => Some(UiCommand::AvInputFunction),
            0x6au8 => Some(UiCommand::AudioInputFunction),
            0x6bu8 => Some(UiCommand::PowerToggleFunction),
            0x6cu8 => Some(UiCommand::PowerOffFunction),
            0x6du8 => Some(UiCommand::PowerOnFunction),
            0x71u8 => Some(UiCommand::F1Blue),
            0x72u8 => Some(UiCommand::F2Red),
            0x73u8 => Some(UiCommand::F3Green),
            0x74u8 => Some(UiCommand::F4Yellow),
            0x75u8 => Some(UiCommand::F5),
            0x76u8 => Some(UiCommand::Data),
            _ => None,
        }
    }

    /// The byte that encodes the value.
    pub fn to_u8(self) -> (r: u8)
        ensures
            r == self.code(),
    {
        match self {
            UiCommand::Select => 0x00,
            UiCommand::Up => 0x01,
            UiCommand::Down => 0x02,
            UiCommand::Left => 0x03,
            UiCommand::Right => 0x04,
            UiCommand::RightUp => 0x05,
            UiCommand::RightDown => 0x06,
            UiCommand::LeftUp => 0x07,
            UiCommand::LeftDown => 0x08,
            UiCommand::DeviceRootMenu => 0x09,
            UiCommand::DeviceSetupMenu => 0x0a,
            UiCommand::ContentsMenu => 0x0b,
            UiCommand::FavoriteMenu => 0x0c,
            UiCommand::Back => 0x0d,
            UiCommand::MediaTopMenu => 0x10,
            UiCommand::MediaContextSensitiveMenu => 0x11,
            UiCommand::NumberEntryMode => 0x1d,
            UiCommand::Number11 => 0x1e,
            UiCommand::Number12 => 0x1f,
            UiCommand::Number0OrNumber10 => 0x20,
            UiCommand::Number1 => 0x21,
            UiCommand::Number2 => 0x22,
            UiCommand::Number3 => 0x23,
            UiCommand::Number4 => 0x24,
            UiCommand::Number5 => 0x25,
            UiCommand::Number6 => 0x26,
            UiCommand::Number7 => 0x27,
            UiCommand::Number8 => 0x28,
            UiCommand::Number9 => 0x29,
            UiCommand::Dot => 0x2a,
            UiCommand::Enter => 0x2b,
            UiCommand::Clear => 0x2c,
            UiCommand::NextFavorite => 0x2f,
            UiCommand::ChannelUp => 0x30,
            UiCommand::ChannelDown => 0x31,
            UiCommand::PreviousChannel => 0x32,
            UiCommand::SoundSelect => 0x33,
            UiCommand::InputSelect => 0x34,
            UiCommand::DisplayInformation => 0x35,
            UiCommand::Help => 0x36,
            UiCommand::PageUp => 0x37,
            UiCommand::PageDown => 0x38,
            UiCommand::Power => 0x40,
            UiCommand::VolumeUp => 0x41,
            UiCommand::VolumeDown => 0x42,
            UiCommand::Mute => 0x43,
            UiCommand::Play => 0x44,
            UiCommand::Stop => 0x45,
            UiCommand::Pause => 0x46,
            UiCommand::Record => 0x47,
            UiCommand::Rewind => 0x48,
            UiCommand::FastForward => 0x49,
            UiCommand::Eject => 0x4a,
            UiCommand::SkipForward => 0x4b,
            UiCommand::SkipBackward => 0x4c,
            UiCommand::StopRecord => 0x4d,
            UiCommand::PauseRecord => 0x4e,
            UiCommand::Angle => 0x50,
            UiCommand::SubPicture => 0x51,
            UiCommand::VideoOnDemand => 0x52,
            UiCommand::ElectronicProgramGuide => 0x53,
            UiCommand::TimerProgramming => 0x54,
            UiCommand::InitialConfiguration => 0x55,
            UiCommand::SelectBroadcastType => 0x56,
            UiCommand::SelectSoundPresentation => 0x57,
            UiCommand::AudioDescription => 0x58,
            UiCommand::Internet => 0x59,
            UiCommand::ThreeDMode => 0x5a,
            UiCommand::PlayFunction => 0x60,
            UiCommand::PausePlayFunction => 0x61,
            UiCommand::RecordFunction => 0x62,
            UiCommand::PauseRecordFunction => 0x63,
            UiCommand::StopFunction => 0x64,
            UiCommand::MuteFunction => 0x65,
            UiCommand::RestoreVolumeFunction => 0x66,
            UiCommand::TuneFunction => 0x67,
            UiCommand::SelectMediaFunction => 0x68,
            UiCommand::AvInputFunction => 0x69,
            UiCommand::AudioInputFunction => 0x6a,
            UiCommand::PowerToggleFunction => 0x6b,
            UiCommand::PowerOffFunction => 0x6c,
            UiCommand::PowerOnFunction => 0x6d,
            UiCommand::F1Blue => 0x71,
            UiCommand::F2Red => 0x72,
            UiCommand::F3Green => 0x73,
            UiCommand::F4Yellow => 0x74,
            UiCommand::F5 => 0x75,
            UiCommand::Data => 0x76,
        }
    }

    /// The value that the byte `b` encodes; a byte that encodes none is
    /// reported as an invalid value for this type.
    pub fn try_from_u8(b: u8) -> (r: Result<UiCommand, Error>)
        ensures
            r matches Ok(v) ==> Self::from_code(b) == Some(v),
            r matches Err(e) ==> Self::from_code(b) is None && e@ == invalid_value("UiCommand"@, b as nat),
            r is Ok <==> Self::from_code(b) is Some,
    {
        match b {
            0x00 => Ok(UiCommand::Select),
            0x01 => Ok(UiCommand::Up),
            0x02 => Ok(UiCommand::Down),
            0x03 => Ok(UiCommand::Left),
            0x04 => Ok(UiCommand::Right),
            0x05 => Ok(UiCommand::RightUp),
            0x06 => Ok(UiCommand::RightDown),
            0x07 => Ok(UiCommand::LeftUp),
            0x08 => Ok(UiCommand::LeftDown),
            0x09 => Ok(UiCommand::DeviceRootMenu),
            0x0a => Ok(UiCommand::DeviceSetupMenu),
            0x0b => Ok(UiCommand::ContentsMenu),
            0x0c => Ok(UiCommand::FavoriteMenu),
            0x0d => Ok(UiCommand::Back),
            0x10 => Ok(UiCommand::MediaTopMenu),
            0x11 => Ok(UiCommand::MediaContextSensitiveMenu),
            0x1d => Ok(UiCommand::NumberEntryMode),
            0x1e => Ok(UiCommand::Number11),
            0x1f => Ok(UiCommand::Number12),
            0x20 => Ok(UiCommand::Number0OrNumber10),
            0x21 => Ok(UiCommand::Number1),
            0x22 => Ok(UiCommand::Number2),
            0x23 => Ok(UiCommand::Number3),
            0x24 => Ok(UiCommand::Number4),
            0x25 => Ok(UiCommand::Number5),
            0x26 => Ok(UiCommand::Number6),
            0x27 => Ok(UiCommand::Number7),
            0x28 => Ok(UiCommand::Number8),
            0x29 => Ok(UiCommand::Number9),
            0x2a => Ok(UiCommand::Dot),
            0x2b => Ok(UiCommand::Enter),
            0x2c => Ok(UiCommand::Clear),
            0x2f => Ok(UiCommand::NextFavorite),
            0x30 => Ok(UiCommand::ChannelUp),
            0x31 => Ok(UiCommand::ChannelDown),
            0x32 => Ok(UiCommand::PreviousChannel),
            0x33 => Ok(UiCommand::SoundSelect),
            0x34 => Ok(UiCommand::InputSelect),
            0x35 => Ok(UiCommand::DisplayInformation),
            0x36 => Ok(UiCommand::Help),
            0x37 => Ok(UiCommand::PageUp),
            0x38 => Ok(UiCommand::PageDown),
            0x40 => Ok(UiCommand::Power),
            0x41 => Ok(UiCommand::VolumeUp),
            0x42 => Ok(UiCommand::VolumeDown),
            0x43 => Ok(UiCommand::Mute),
            0x44 => Ok(UiCommand::Play),
            0x45 => Ok(UiCommand::Stop),
            0x46 => Ok(UiCommand::Pause),
            0x47 => Ok(UiCommand::Record),
            0x48 => Ok(UiCommand::Rewind),
            0x49 => Ok(UiCommand::FastForward),
            0x4a => Ok(UiCommand::Eject),
            0x4b => Ok(UiCommand::SkipForward),
            0x4c => Ok(UiCommand::SkipBackward),
            0x4d => Ok(UiCommand::StopRecord),
            0x4e => Ok(UiCommand::PauseRecord),
            0x50 => Ok(UiCommand::Angle),
            0x51 => Ok(UiCommand::SubPicture),
            0x52 => Ok(UiCommand::VideoOnDemand),
            0x53 => Ok(UiCommand::ElectronicProgramGuide),
            0x54 => Ok(UiCommand::TimerProgramming),
            0x55 => Ok(UiCommand::InitialConfiguration),
            0x56 => Ok(UiCommand::SelectBroadcastType),
            0x57 => Ok(UiCommand::SelectSoundPresentation),
            0x58 => Ok(UiCommand::AudioDescription),
            0x59 => Ok(UiCommand::Internet),
            0x5a => Ok(UiCommand::ThreeDMode),
            0x60 => Ok(UiCommand::PlayFunction),
            0x61 => Ok(UiCommand::PausePlayFunction),
            0x62 => Ok(UiCommand::RecordFunction),
            0x63 => Ok(UiCommand::PauseRecordFunction),
            0x64 => Ok(UiCommand::StopFunction),
            0x65 => Ok(UiCommand::MuteFunction),
            0x66 => Ok(UiCommand::RestoreVolumeFunction),
            0x67 => Ok(UiCommand::TuneFunction),
            0x68 => Ok(UiCommand::SelectMediaFunction),
            0x69 => Ok(UiCommand::AvInputFunction),
            0x6a => Ok(UiCommand::AudioInputFunction),
            0x6b => Ok(UiCommand::PowerToggleFunction),
            0x6c => Ok(UiCommand::PowerOffFunction),
            0x6d => Ok(UiCommand::PowerOnFunction),
            0x71 => Ok(UiCommand::F1Blue),
            0x72 => Ok(UiCommand::F2Red),
            0x73 => Ok(UiCommand::F3Green),
            0x74 => Ok(UiCommand::F4Yellow),
            0x75 => Ok(UiCommand::F5),
            0x76 => Ok(UiCommand::Data),
            _ => Err(Error::invalid_value("UiCommand", b)),
        }
    }

    /// Decoding the code of a value gives the value back, and a byte
    /// decodes only to a value of which it is the code.
    pub proof fn lemma_code(self, b: u8)
        ensures
            Self::from_code(self.code()) == Some(self),
            Self::from_code(b) matches Some(v) ==> v.code() == b,
    {
    }
}

impl From<UiCommand> for u8 {
    fn from(v: UiCommand) -> (r: u8) {
        v.to_u8()
    }
}

impl vstd::std_specs::convert::FromSpecImpl<UiCommand> for u8 {
    open spec fn obeys_from_spec() -> bool {
        true
    }

    open spec fn from_spec(v: UiCommand) -> u8 {
        v.code()
    }
}

impl OperandEncodable for UiCommand {
    open spec fn spec_bytes(&self) -> Seq<u8> {
        seq![self.code()]
    }

    open spec fn spec_parse(bytes: Seq<u8>) -> Result<Self, ErrorView> {
        parse_code(bytes, |b: u8| Self::from_code(b), "UiCommand"@)
    }

    open spec fn spec_wf(&self) -> bool {
        true
    }

    open spec fn spec_expected_len() -> RangeView {
        RangeView::AtLeast(1)
    }

    open spec fn spec_self_delimiting() -> bool {
        true
    }

    fn to_bytes(&self, buf: &mut Vec<u8>) {
        buf.push(self.to_u8());
    }

    fn try_from_bytes(bytes: &[u8]) -> (r: Result<Self, Error>) {
        if bytes.len() < 1 {
            return Err(Error::short_input(1, bytes.len()));
        }
        Self::try_from_u8(bytes[0])
    }

    fn len(&self) -> (r: usize) {
        1
    }

    fn expected_len() -> (r: Range) {
        Range::AtLeast(1)
    }

    proof fn lemma_roundtrip(&self, rest: Seq<u8>) {
        self.lemma_code(0);
        assert((self.spec_bytes() + rest)[0] == self.code());
    }

    proof fn lemma_parse_len(bytes: Seq<u8>) {
    }
}

/// A version of the CEC specification.
#[derive(Clone, Copy, Debug, PartialEq, Eq, Structural, Hash)]
pub enum Version {
    V1_1,
    V1_2,
    V1_2a,
    V1_3,
    V1_3a,
    V1_4,
    V2_0,
}

impl Version {
    /// The byte that encodes the value.
    pub open spec fn code(self) -> u8 {
        match self {
            Version::V1_1 => 0x00u8,
            Version::V1_2 => 0x01u8,
            Version::V1_2a => 0x02u8,
            Version::V1_3 => 0x03u8,
            Version::V1_3a => 0x04u8,
            Version::V1_4 => 0x05u8,
            Version::V2_0 => 0x06u8,
        }
    }

    /// Each value and the byte that encodes it.
    pub proof fn lemma_code_table()
        ensures
            Version::V1_1.code() == 0x00u8,
            Version::V1_2.code() == 0x01u8,
            Version::V1_2a.code() == 0x02u8,
            Version::V1_3.code() == 0x03u8,
            Version::V1_3a.code() == 0x04u8,
            Version::V1_4.code() == 0x05u8,
            Version::V2_0.code() == 0x06u8,
    {
    }

    /// The value that the byte `b` encodes, if any.
    pub open spec fn from_code(b: u8) -> Option<Version> {
        match b {
            0x00u8 => Some(Version::V1_1),
            0x01u8 => Some(Version::V1_2),
            0x02u8 => Some(Version::V1_2a),
            0x03u8 => Some(Version::V1_3),
            0x04u8 => Some(Version::V1_3a),
            0x05u8 => Some(Version::V1_4),
            0x06u8 => Some(Version::V2_0),
            _ => None,
        }
    }

    /// The byte that encodes the value.
    pub fn to_u8(self) -> (r: u8)
        ensures
            r == self.code(),
    {
        match self {
            Version::V1_1 => 0x00,
            Version::V1_2 => 0x01,
            Version::V1_2a => 0x02,
            Version::V1_3 => 0x03,
            Version::V1_3a => 0x04,
            Version::V1_4 => 0x05,
            Version::V2_0 => 0x06,
        }
    }

    /// The value that the byte `b` encodes; a byte that encodes none is
    /// reported as an invalid value for this type.
    pub fn try_from_u8(b: u8) -> (r: Result<Version, Error>)
        ensures
            r matches Ok(v) ==> Self::from_code(b) == Some(v),
            r matches Err(e) ==> Self::from_code(b) is None && e@ == invalid_value("Version"@, b as nat),
            r is Ok <==> Self::from_code(b) is Some,
    {
        match b {
            0x00 => Ok(Version::V1_1),
            0x01 => Ok(Version::V1_2),
            0x02 => Ok(Version::V1_2a),
            0x03 => Ok(Version::V1_3),
            0x04 => Ok(Version::V1_3a),
            0x05 => Ok(Version::V1_4),
            0x06 => Ok(Version::V2_0),
            _ => Err(Error::invalid_value("Version", b)),
        }
    }

    /// Decoding the code of a value gives the value back, and a byte
    /// decodes only to a value of which it is the code.
    pub proof fn lemma_code(self, b: u8)
        ensures
            Self::from_code(self.code()) == Some(self),
            Self::from_code(b) matches Some(v) ==> v.code() == b,
    {
    }
}

impl From<Version> for u8 {
    fn from(v: Version) -> (r: u8) {
        v.to_u8()
    }
}

impl vstd::std_specs::convert::FromSpecImpl<Version> for u8 {
    open spec fn obeys_from_spec() -> bool {
        true
    }

    open spec fn from_spec(v: Version) -> u8 {
        v.code()
    }
}

impl OperandEncodable for Version {
    open spec fn spec_bytes(&self) -> Seq<u8> {
        seq![self.code()]
    }

    open spec fn spec_parse(bytes: Seq<u8>) -> Result<Self, ErrorView> {
        parse_code(bytes, |b: u8| Self::from_code(b), "Version"@)
    }

    open spec fn spec_wf(&self) -> bool {
        true
    }

    open spec fn spec_expected_len() -> RangeView {
        RangeView::AtLeast(1)
    }

    open spec fn spec_self_delimiting() -> bool {
        true
    }

    fn to_bytes(&self, buf: &mut Vec<u8>) {
        buf.push(self.to_u8());
    }

    fn try_from_bytes(bytes: &[u8]) -> (r: Result<Self, Error>) {
        if bytes.len() < 1 {
            return Err(Error::short_input(1, bytes.len()));
        }
        Self::try_from_u8(bytes[0])
    }

    fn len(&self) -> (r: usize) {
        1
    }

    fn expected_len() -> (r: Range) {
        Range::AtLeast(1)
    }

    proof fn lemma_roundtrip(&self, rest: Seq<u8>) {
        self.lemma_code(0);
        assert((self.spec_bytes() + rest)[0] == self.code());
    }

    proof fn lemma_parse_len(bytes: Seq<u8>) {
    }
}

/// A sound presentation setting.
#[derive(Clone, Copy, Debug, PartialEq, Eq, Structural, Hash)]
pub enum UiSoundPresentationControl {
    DualMono,
    Karaoke,
    Downmix,
    Reverb,
    Equalizer,
    BassUp,
    BassNeutral,
    BassDown,
    TrebleUp,
    TrebleNeutral,
    TrebleDown,
}

impl UiSoundPresentationControl {
    /// The byte that encodes the value.
    pub open spec fn code(self) -> u8 {
        match self {
            UiSoundPresentationControl::DualMono => 0x10u8,
            UiSoundPresentationControl::Karaoke => 0x20u8,
            UiSoundPresentationControl::Downmix => 0x80u8,
            UiSoundPresentationControl::Reverb => 0x90u8,
            UiSoundPresentationControl::Equalizer => 0xa0u8,
            UiSoundPresentationControl::BassUp => 0xb1u8,
            UiSoundPresentationControl::BassNeutral => 0xb2u8,
            UiSoundPresentationControl::BassDown => 0xb3u8,
            UiSoundPresentationControl::TrebleUp => 0xc1u8,
            UiSoundPresentationControl::TrebleNeutral => 0xc2u8,
            UiSoundPresentationControl::TrebleDown => 0xc3u8,
        }
    }

    /// Each value and the byte that encodes it.
    pub proof fn lemma_code_table()
        ensures
            UiSoundPresentationControl::DualMono.code() == 0x10u8,
            UiSoundPresentationControl::Karaoke.code() == 0x20u8,
            UiSoundPresentationControl::Downmix.code() == 0x80u8,
            UiSoundPresentationControl::Reverb.code() == 0x90u8,
            UiSoundPresentationControl::Equalizer.code() == 0xa0u8,
            UiSoundPresentationControl::BassUp.code() == 0xb1u8,
            UiSoundPresentationControl::BassNeutral.code() == 0xb2u8,
            UiSoundPresentationControl::BassDown.code() == 0xb3u8,
            UiSoundPresentationControl::TrebleUp.code() == 0xc1u8,
            UiSoundPresentationControl::TrebleNeutral.code() == 0xc2u8,
            UiSoundPresentationControl::TrebleDown.code() == 0xc3u8,
    {
    }

    /// The value that the byte `b` encodes, if any.
    pub open spec fn from_code(b: u8) -> Option<UiSoundPresentationControl> {
        match b {
            0x10u8 => Some(UiSoundPresentationControl::DualMono),
            0x20u8 => Some(UiSoundPresentationControl::Karaoke),
            0x80u8 => Some(UiSoundPresentationControl::Downmix),
            0x90u8 => Some(UiSoundPresentationControl::Reverb),
            0xa0u8 => Some(UiSoundPresentationControl::Equalizer),
            0xb1u8 => Some(UiSoundPresentationControl::BassUp),
            0xb2u8 => Some(UiSoundPresentationControl::BassNeutral),
            0xb3u8 => Some(UiSoundPresentationControl::BassDown),
            0xc1u8 => Some(UiSoundPresentationControl::TrebleUp),
            0xc2u8 => Some(UiSoundPresentationControl::TrebleNeutral),
            0xc3u8 => Some(UiSoundPresentationControl::TrebleDown),
            _ => None,
        }
    }

    /// The byte that encodes the value.
    pub fn to_u8(self) -> (r: u8)
        ensures
            r == self.code(),
    {
        match self {
            UiSoundPresentationControl::DualMono => 0x10,
            UiSoundPresentationControl::Karaoke => 0x20,
            UiSoundPresentationControl::Downmix => 0x80,
            UiSoundPresentationControl::Reverb => 0x90,
            UiSoundPresentationControl::Equalizer => 0xa0,
            UiSoundPresentationControl::BassUp => 0xb1,
            UiSoundPresentationControl::BassNeutral => 0xb2,
            UiSoundPresentationControl::BassDown => 0xb3,
            UiSoundPresentationControl::TrebleUp => 0xc1,
            UiSoundPresentationControl::TrebleNeutral => 0xc2,
            UiSoundPresentationControl::TrebleDown => 0xc3,
        }
    }

    /// The value that the byte `b` encodes; a byte that encodes none is
    /// reported as an invalid value for this type.
    pub fn try_from_u8(b: u8) -> (r: Result<UiSoundPresentationControl, Error>)
        ensures
            r matches Ok(v) ==> Self::from_code(b) == Some(v),
            r matches Err(e) ==> Self::from_code(b) is None && e@ == invalid_value("UiSoundPresentationControl"@, b as nat),
            r is Ok <==> Self::from_code(b) is Some,
    {
        match b {
            0x10 => Ok(UiSoundPresentationControl::DualMono),
            0x20 => Ok(UiSoundPresentationControl::Karaoke),
            0x80 => Ok(UiSoundPresentationControl::Downmix),
            0x90 => Ok(UiSoundPresentationControl::Reverb),
            0xa0 => Ok(UiSoundPresentationControl::Equalizer),
            0xb1 => Ok(UiSoundPresentationControl::BassUp),
            0xb2 => Ok(UiSoundPresentationControl::BassNeutral),
            0xb3 => Ok(UiSoundPresentationControl::BassDown),
            0xc1 => Ok(UiSoundPresentationControl::TrebleUp),
            0xc2 => Ok(UiSoundPresentationControl::TrebleNeutral),
            0xc3 => Ok(UiSoundPresentationControl::TrebleDown),
            _ => Err(Error::invalid_value("UiSoundPresentationControl", b)),
        }
    }

    /// Decoding the code of a value gives the value back, and a byte
    /// decodes only to a value of which it is the code.
    pub proof fn lemma_code(self, b: u8)
        ensures
            Self::from_code(self.code()) == Some(self),
            Self::from_code(b) matches Some(v) ==> v.code() == b,
    {
    }
}

impl From<UiSoundPresentationControl> for u8 {
    fn from(v: UiSoundPresentationControl) -> (r: u8) {
        v.to_u8()
    }
}

impl vstd::std_specs::convert::FromSpecImpl<UiSoundPresentationControl> for u8 {
    open spec fn obeys_from_spec() -> bool {
        true
    }

    open spec fn from_spec(v: UiSoundPresentationControl) -> u8 {
        v.code()
    }
}

impl OperandEncodable for UiSoundPresentationControl {
    open spec fn spec_bytes(&self) -> Seq<u8> {
        seq![self.code()]
    }

    open spec fn spec_parse(bytes: Seq<u8>) -> Result<Self, ErrorView> {
        parse_code(bytes, |b: u8| Self::from_code(b), "UiSoundPresentationControl"@)
    }

    open spec fn spec_wf(&self) -> bool {
        true
    }

    open spec fn spec_expected_len() -> RangeView {
        RangeView::AtLeast(1)
    }

    open spec fn spec_self_delimiting() -> bool {
        true
    }

    fn to_bytes(&self, buf: &mut Vec<u8>) {
        buf.push(self.to_u8());
    }

    fn try_from_bytes(bytes: &[u8]) -> (r: Result<Self, Error>) {
        if bytes.len() < 1 {
            return Err(Error::short_input(1, bytes.len()));
        }
        Self::try_from_u8(bytes[0])
    }

    fn len(&self) -> (r: usize) {
        1
    }

    fn expected_len() -> (r: Range) {
        Range::AtLeast(1)
    }

    proof fn lemma_roundtrip(&self, rest: Seq<u8>) {
        self.lemma_code(0);
        assert((self.spec_bytes() + rest)[0] == self.code());
    }

    proof fn lemma_parse_len(bytes: Seq<u8>) {
    }
}

} // verus!
