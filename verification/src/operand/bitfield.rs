//! The operands that pack several small fields into one byte.

use vstd::prelude::*;

use crate::codec::OperandEncodable;
use crate::error::{short_input, Error, ErrorView, Range, RangeView};

verus! {

/// The format of a short audio descriptor, in two bits.
#[derive(Clone, Copy, Debug, PartialEq, Eq, Structural, Hash)]
pub enum AudioFormatId {
    CEA861,
    CEA861Cxt,
    /// A value that names neither format.
    Invalid(u8),
}

impl AudioFormatId {
    /// The bits of the value.
    pub open spec fn spec_into_bits(self) -> u8 {
        match self {
            AudioFormatId::CEA861 => 0,
            AudioFormatId::CEA861Cxt => 1,
            AudioFormatId::Invalid(x) => x,
        }
    }

    /// The value of the low two bits of `bits`.
    pub open spec fn spec_from_bits(bits: u8) -> AudioFormatId {
        let x = (bits & 3u8) as u8;
        if x == 0 {
            AudioFormatId::CEA861
        } else if x == 1 {
            AudioFormatId::CEA861Cxt
        } else {
            AudioFormatId::Invalid(x)
        }
    }

    /// Whether the value is one that two bits can hold and decode back to.
    pub open spec fn spec_canonical(self) -> bool {
        match self {
            AudioFormatId::Invalid(x) => 2 <= x <= 3,
            _ => true,
        }
    }

    /// The bits of the value.
    pub fn into_bits(self) -> (r: u8)
        ensures
            r == self.spec_into_bits(),
    {
        match self {
            AudioFormatId::CEA861 => 0,
            AudioFormatId::CEA861Cxt => 1,
            AudioFormatId::Invalid(x) => x,
        }
    }

    /// The value of the low two bits of `bits`.
    pub fn from_bits(bits: u8) -> (r: AudioFormatId)
        ensures
            r == Self::spec_from_bits(bits),
    {
        let x = bits & 3;
        if x == 0 {
            AudioFormatId::CEA861
        } else if x == 1 {
            AudioFormatId::CEA861Cxt
        } else {
            AudioFormatId::Invalid(x)
        }
    }
}

/// Whether the audio output delay of a device is compensated, in two bits.
#[derive(Clone, Copy, Debug, PartialEq, Eq, Structural, Hash)]
pub enum AudioOutputCompensated {
    NotApplicable,
    Delay,
    NoDelay,
    PartialDelay,
}

impl AudioOutputCompensated {
    /// The bits of the value.
    pub open spec fn spec_into_bits(self) -> u8 {
        match self {
            AudioOutputCompensated::NotApplicable => 0,
            AudioOutputCompensated::Delay => 1,
            AudioOutputCompensated::NoDelay => 2,
            AudioOutputCompensated::PartialDelay => 3,
        }
    }

    /// The value of the low two bits of `bits`.
    pub open spec fn spec_from_bits(bits: u8) -> AudioOutputCompensated {
        let x = (bits & 3u8) as u8;
        if x == 0 {
            AudioOutputCompensated::NotApplicable
        } else if x == 1 {
            AudioOutputCompensated::Delay
        } else if x == 2 {
            AudioOutputCompensated::NoDelay
        } else {
            AudioOutputCompensated::PartialDelay
        }
    }

    /// The bits of the value.
    pub fn into_bits(self) -> (r: u8)
        ensures
            r == self.spec_into_bits(),
    {
        match self {
            AudioOutputCompensated::NotApplicable => 0,
            AudioOutputCompensated::Delay => 1,
            AudioOutputCompensated::NoDelay => 2,
            AudioOutputCompensated::PartialDelay => 3,
        }
    }

    /// The value of the low two bits of `bits`.
    pub fn from_bits(bits: u8) -> (r: AudioOutputCompensated)
        ensures
            r == Self::spec_from_bits(bits),
    {
        let x = bits & 3;
        if x == 0 {
            AudioOutputCompensated::NotApplicable
        } else if x == 1 {
            AudioOutputCompensated::Delay
        } else if x == 2 {
            AudioOutputCompensated::NoDelay
        } else {
            AudioOutputCompensated::PartialDelay
        }
    }
}

/// Facts of the bit layout shared by the packed bytes: masking a field out
/// and a value in leaves the other bits, and the low two bits of a value
/// below four are the value.
pub proof fn lemma_byte_fields()
    by (bit_vector)
    ensures
        forall|x: u8| #![auto] x <= 3 ==> (x & 3u8) == x,
        forall|b: u8, v: u8| #![auto] v <= 0x3f ==> (((b & 0xc0u8) | v) & 0x3fu8) == v
            && (((b & 0xc0u8) | v) >> 6u8) == (b >> 6u8),
        forall|b: u8, v: u8| #![auto] v <= 3 ==> (((b & 0x3fu8) | (v << 6u8)) >> 6u8) == v
            && (((b & 0x3fu8) | (v << 6u8)) & 0x3fu8) == (b & 0x3fu8),
        forall|b: u8, v: u8| #![auto] v <= 0x7f ==> (((b & 0x80u8) | v) & 0x7fu8) == v
            && (((b & 0x80u8) | v) & 0x80u8) == (b & 0x80u8),
        forall|b: u8| #![auto] ((b & 0x7fu8) & 0x7fu8) == (b & 0x7fu8),
        forall|b: u8| #![auto] ((b & 0x7fu8) & 0x80u8) == 0,
        forall|b: u8| #![auto] ((b | 0x80u8) & 0x80u8) == 0x80u8,
        forall|b: u8| #![auto] ((b | 0x80u8) & 0x7fu8) == (b & 0x7fu8),
        forall|b: u8, v: u8| #![auto] v <= 3 ==> (((b & 0xfcu8) | v) & 3u8) == v
            && (((b & 0xfcu8) | v) & 4u8) == (b & 4u8),
        forall|b: u8| #![auto] ((b | 4u8) & 4u8) == 4u8,
        forall|b: u8| #![auto] ((b | 4u8) & 3u8) == (b & 3u8),
        forall|b: u8| #![auto] ((b & 0xfbu8) & 4u8) == 0,
        forall|b: u8| #![auto] ((b & 0xfbu8) & 3u8) == (b & 3u8),
{
}

/// A short audio descriptor's format: its code in the low six bits, its
/// format identifier in the high two.
#[derive(Clone, Copy, Debug, PartialEq, Eq, Structural, Hash)]
pub struct AudioFormatIdAndCode(pub u8);

impl AudioFormatIdAndCode {
    /// The audio format code.
    pub open spec fn spec_code(self) -> usize {
        (self.0 & 0x3fu8) as usize
    }

    /// The audio format identifier.
    pub open spec fn spec_id(self) -> AudioFormatId {
        AudioFormatId::spec_from_bits(self.0 >> 6u8)
    }

    /// All fields zero.
    pub fn new() -> (r: AudioFormatIdAndCode)
        ensures
            r.0 == 0,
    {
        AudioFormatIdAndCode(0)
    }

    /// The value packed in `bits`.
    pub fn from_bits(bits: u8) -> (r: AudioFormatIdAndCode)
        ensures
            r.0 == bits,
    {
        AudioFormatIdAndCode(bits)
    }

    /// The packed byte.
    pub fn into_bits(self) -> (r: u8)
        ensures
            r == self.0,
    {
        self.0
    }

    /// The audio format code.
    pub fn code(&self) -> (r: usize)
        ensures
            r == self.spec_code(),
    {
        (self.0 & 0x3f) as usize
    }

    /// The audio format identifier.
    pub fn id(&self) -> (r: AudioFormatId)
        ensures
            r == self.spec_id(),
    {
        AudioFormatId::from_bits(self.0 >> 6)
    }

    /// The value with its code replaced by `value`, which must fit in six
    /// bits; the identifier is kept.
    pub fn with_code(self, value: usize) -> (r: AudioFormatIdAndCode)
        requires
            value <= 0x3f,
        ensures
            r.0 == ((self.0 & 0xc0u8) | value as u8),
            r.spec_code() == value,
            r.spec_id() == self.spec_id(),
    {
        proof {
            lemma_byte_fields();
        }
        AudioFormatIdAndCode((self.0 & 0xc0) | value as u8)
    }

    /// The value with its identifier replaced by `value`, whose bits must fit
    /// in two; the code is kept.
    pub fn with_id(self, value: AudioFormatId) -> (r: AudioFormatIdAndCode)
        requires
            value.spec_into_bits() <= 3,
        ensures
            r.0 == ((self.0 & 0x3fu8) | (value.spec_into_bits() << 6u8)),
            r.spec_code() == self.spec_code(),
            value.spec_canonical() ==> r.spec_id() == value,
    {
        proof {
            lemma_byte_fields();
        }
        let b = value.into_bits();
        AudioFormatIdAndCode((self.0 & 0x3f) | (b << 6))
    }

    /// Replaces the code by `value`, which must fit in six bits.
    pub fn set_code(&mut self, value: usize)
        requires
            value <= 0x3f,
        ensures
            *final(self) == old(self).with_code_spec(value),
            final(self).spec_code() == value,
            final(self).spec_id() == old(self).spec_id(),
    {
        *self = self.with_code(value);
    }

    /// Replaces the identifier by `value`, whose bits must fit in two.
    pub fn set_id(&mut self, value: AudioFormatId)
        requires
            value.spec_into_bits() <= 3,
        ensures
            *final(self) == old(self).with_id_spec(value),
            final(self).spec_code() == old(self).spec_code(),
            value.spec_canonical() ==> final(self).spec_id() == value,
    {
        *self = self.with_id(value);
    }

    /// The value with its code replaced by `value`.
    pub open spec fn with_code_spec(self, value: usize) -> AudioFormatIdAndCode {
        AudioFormatIdAndCode(((self.0 & 0xc0u8) | value as u8) as u8)
    }

    /// The value with its identifier replaced by `value`.
    pub open spec fn with_id_spec(self, value: AudioFormatId) -> AudioFormatIdAndCode {
        AudioFormatIdAndCode(((self.0 & 0x3fu8) | (value.spec_into_bits() << 6u8)) as u8)
    }
}

/// The volume and mute state of an audio system: the volume in the low seven
/// bits, muting in the high one.
#[derive(Clone, Copy, Debug, PartialEq, Eq, Structural, Hash)]
pub struct AudioStatus(pub u8);

impl AudioStatus {
    /// The volume.
    pub open spec fn spec_volume(self) -> usize {
        (self.0 & 0x7fu8) as usize
    }

    /// Whether the audio is muted.
    pub open spec fn spec_mute(self) -> bool {
        self.0 & 0x80u8 == 0x80u8
    }

    /// The value with its volume replaced by `value`.
    pub open spec fn with_volume_spec(self, value: usize) -> AudioStatus {
        AudioStatus(((self.0 & 0x80u8) | value as u8) as u8)
    }

    /// The value with its muting replaced by `value`.
    pub open spec fn with_mute_spec(self, value: bool) -> AudioStatus {
        AudioStatus(if value { (self.0 | 0x80u8) as u8 } else { (self.0 & 0x7fu8) as u8 })
    }

    /// All fields zero.
    pub fn new() -> (r: AudioStatus)
        ensures
            r.0 == 0,
    {
        AudioStatus(0)
    }

    /// The value packed in `bits`.
    pub fn from_bits(bits: u8) -> (r: AudioStatus)
        ensures
            r.0 == bits,
    {
        AudioStatus(bits)
    }

    /// The packed byte.
    pub fn into_bits(self) -> (r: u8)
        ensures
            r == self.0,
    {
        self.0
    }

    /// The volume.
    pub fn volume(&self) -> (r: usize)
        ensures
            r == self.spec_volume(),
    {
        (self.0 & 0x7f) as usize
    }

    /// Whether the audio is muted.
    pub fn mute(&self) -> (r: bool)
        ensures
            r == self.spec_mute(),
    {
        self.0 & 0x80 == 0x80
    }

    /// The value with its volume replaced by `value`, which must fit in seven
    /// bits; muting is kept.
    pub fn with_volume(self, value: usize) -> (r: AudioStatus)
        requires
            value <= 0x7f,
        ensures
            r == self.with_volume_spec(value),
            r.spec_volume() == value,
            r.spec_mute() == self.spec_mute(),
    {
        proof {
            lemma_byte_fields();
        }
        AudioStatus((self.0 & 0x80) | value as u8)
    }

    /// The value with its muting replaced by `value`; the volume is kept.
    pub fn with_mute(self, value: bool) -> (r: AudioStatus)
        ensures
            r == self.with_mute_spec(value),
            r.spec_mute() == value,
            r.spec_volume() == self.spec_volume(),
    {
        proof {
            lemma_byte_fields();
        }
        if value {
            AudioStatus(self.0 | 0x80)
        } else {
            AudioStatus(self.0 & 0x7f)
        }
    }

    /// Replaces the volume by `value`, which must fit in seven bits.
    pub fn set_volume(&mut self, value: usize)
        requires
            value <= 0x7f,
        ensures
            *final(self) == old(self).with_volume_spec(value),
            final(self).spec_volume() == value,
            final(self).spec_mute() == old(self).spec_mute(),
    {
        *self = self.with_volume(value);
    }

    /// Replaces the muting by `value`.
    pub fn set_mute(&mut self, value: bool)
        ensures
            *final(self) == old(self).with_mute_spec(value),
            final(self).spec_mute() == value,
            final(self).spec_volume() == old(self).spec_volume(),
    {
        *self = self.with_mute(value);
    }
}

/// The latency flags of a device: the audio output compensation in the low
/// two bits, low-latency mode in the third, five reserved bits above.
#[derive(Clone, Copy, Debug, PartialEq, Eq, Structural, Hash)]
pub struct LatencyFlags(pub u8);

impl LatencyFlags {
    /// The audio output compensation.
    pub open spec fn spec_audio_out_compensated(self) -> AudioOutputCompensated {
        AudioOutputCompensated::spec_from_bits(self.0)
    }

    /// Whether low-latency mode is on.
    pub open spec fn spec_low_latency_mode(self) -> bool {
        self.0 & 4u8 == 4u8
    }

    /// The value with its audio output compensation replaced by `value`.
    pub open spec fn with_audio_out_compensated_spec(self, value: AudioOutputCompensated) -> LatencyFlags {
        LatencyFlags(((self.0 & 0xfcu8) | value.spec_into_bits()) as u8)
    }

    /// The value with its low-latency mode replaced by `value`.
    pub open spec fn with_low_latency_mode_spec(self, value: bool) -> LatencyFlags {
        LatencyFlags(if value { (self.0 | 4u8) as u8 } else { (self.0 & 0xfbu8) as u8 })
    }

    /// All fields zero.
    pub fn new() -> (r: LatencyFlags)
        ensures
            r.0 == 0,
    {
        LatencyFlags(0)
    }

    /// The value packed in `bits`.
    pub fn from_bits(bits: u8) -> (r: LatencyFlags)
        ensures
            r.0 == bits,
    {
        LatencyFlags(bits)
    }

    /// The packed byte.
    pub fn into_bits(self) -> (r: u8)
        ensures
            r == self.0,
    {
        self.0
    }

    /// The audio output compensation.
    pub fn audio_out_compensated(&self) -> (r: AudioOutputCompensated)
        ensures
            r == self.spec_audio_out_compensated(),
    {
        AudioOutputCompensated::from_bits(self.0)
    }

    /// Whether low-latency mode is on.
    pub fn low_latency_mode(&self) -> (r: bool)
        ensures
            r == self.spec_low_latency_mode(),
    {
        self.0 & 4 == 4
    }

    /// The value with its audio output compensation replaced by `value`; the
    /// other bits are kept.
    pub fn with_audio_out_compensated(self, value: AudioOutputCompensated) -> (r: LatencyFlags)
        ensures
            r == self.with_audio_out_compensated_spec(value),
            r.spec_audio_out_compensated() == value,
            r.spec_low_latency_mode() == self.spec_low_latency_mode(),
    {
        proof {
            lemma_byte_fields();
        }
        LatencyFlags((self.0 & 0xfc) | value.into_bits())
    }

    /// The value with its low-latency mode replaced by `value`; the other bits
    /// are kept.
    pub fn with_low_latency_mode(self, value: bool) -> (r: LatencyFlags)
        ensures
            r == self.with_low_latency_mode_spec(value),
            r.spec_low_latency_mode() == value,
            r.spec_audio_out_compensated() == self.spec_audio_out_compensated(),
    {
        proof {
            lemma_byte_fields();
        }
        if value {
            LatencyFlags(self.0 | 4)
        } else {
            LatencyFlags(self.0 & 0xfb)
        }
    }

    /// Replaces the audio output compensation by `value`.
    pub fn set_audio_out_compensated(&mut self, value: AudioOutputCompensated)
        ensures
            *final(self) == old(self).with_audio_out_compensated_spec(value),
            final(self).spec_audio_out_compensated() == value,
            final(self).spec_low_latency_mode() == old(self).spec_low_latency_mode(),
    {
        *self = self.with_audio_out_compensated(value);
    }

    /// Replaces the low-latency mode by `value`.
    pub fn set_low_latency_mode(&mut self, value: bool)
        ensures
            *final(self) == old(self).with_low_latency_mode_spec(value),
            final(self).spec_low_latency_mode() == value,
            final(self).spec_audio_out_compensated() == old(self).spec_audio_out_compensated(),
    {
        *self = self.with_low_latency_mode(value);
    }
}

impl Default for AudioFormatIdAndCode {
    fn default() -> (r: AudioFormatIdAndCode)
        ensures
            r.0 == 0,
    {
        AudioFormatIdAndCode(0)
    }
}

impl From<u8> for AudioFormatIdAndCode {
    fn from(bits: u8) -> (r: AudioFormatIdAndCode) {
        AudioFormatIdAndCode(bits)
    }
}

impl vstd::std_specs::convert::FromSpecImpl<u8> for AudioFormatIdAndCode {
    open spec fn obeys_from_spec() -> bool {
        true
    }

    open spec fn from_spec(bits: u8) -> AudioFormatIdAndCode {
        AudioFormatIdAndCode(bits)
    }
}

impl From<AudioFormatIdAndCode> for u8 {
    fn from(v: AudioFormatIdAndCode) -> (r: u8) {
        v.0
    }
}

impl vstd::std_specs::convert::FromSpecImpl<AudioFormatIdAndCode> for u8 {
    open spec fn obeys_from_spec() -> bool {
        true
    }

    open spec fn from_spec(v: AudioFormatIdAndCode) -> u8 {
        v.0
    }
}

impl OperandEncodable for AudioFormatIdAndCode {
    open spec fn spec_bytes(&self) -> Seq<u8> {
        seq![self.0]
    }

    open spec fn spec_parse(bytes: Seq<u8>) -> Result<AudioFormatIdAndCode, ErrorView> {
        if bytes.len() < 1 {
            Err(short_input(1, bytes.len() as usize))
        } else {
            Ok(AudioFormatIdAndCode(bytes[0]))
        }
    }

    open spec fn spec_wf(&self) -> bool {
        true
    }

    open spec fn spec_expected_len() -> RangeView {
        RangeView::AtLeast(1)
    }

    open spec fn spec_self_delimiting() -> bool {
        true
    }

    fn to_bytes(&self, buf: &mut Vec<u8>) {
        buf.push(self.0);
    }

    fn try_from_bytes(bytes: &[u8]) -> (r: Result<AudioFormatIdAndCode, Error>) {
        if bytes.len() < 1 {
            Err(Error::short_input(1, bytes.len()))
        } else {
            Ok(AudioFormatIdAndCode(bytes[0]))
        }
    }

    fn len(&self) -> (r: usize) {
        1
    }

    fn expected_len() -> (r: Range) {
        Range::AtLeast(1)
    }

    proof fn lemma_roundtrip(&self, rest: Seq<u8>) {
        assert((self.spec_bytes() + rest)[0] == self.0);
    }

    proof fn lemma_parse_len(bytes: Seq<u8>) {
    }
}

impl Default for AudioStatus {
    fn default() -> (r: AudioStatus)
        ensures
            r.0 == 0,
    {
        AudioStatus(0)
    }
}

impl From<u8> for AudioStatus {
    fn from(bits: u8) -> (r: AudioStatus) {
        AudioStatus(bits)
    }
}

impl vstd::std_specs::convert::FromSpecImpl<u8> for AudioStatus {
    open spec fn obeys_from_spec() -> bool {
        true
    }

    open spec fn from_spec(bits: u8) -> AudioStatus {
        AudioStatus(bits)
    }
}

impl From<AudioStatus> for u8 {
    fn from(v: AudioStatus) -> (r: u8) {
        v.0
    }
}

impl vstd::std_specs::convert::FromSpecImpl<AudioStatus> for u8 {
    open spec fn obeys_from_spec() -> bool {
        true
    }

    open spec fn from_spec(v: AudioStatus) -> u8 {
        v.0
    }
}

impl OperandEncodable for AudioStatus {
    open spec fn spec_bytes(&self) -> Seq<u8> {
        seq![self.0]
    }

    open spec fn spec_parse(bytes: Seq<u8>) -> Result<AudioStatus, ErrorView> {
        if bytes.len() < 1 {
            Err(short_input(1, bytes.len() as usize))
        } else {
            Ok(AudioStatus(bytes[0]))
        }
    }

    open spec fn spec_wf(&self) -> bool {
        true
    }

    open spec fn spec_expected_len() -> RangeView {
        RangeView::AtLeast(1)
    }

    open spec fn spec_self_delimiting() -> bool {
        true
    }

    fn to_bytes(&self, buf: &mut Vec<u8>) {
        buf.push(self.0);
    }

    fn try_from_bytes(bytes: &[u8]) -> (r: Result<AudioStatus, Error>) {
        if bytes.len() < 1 {
            Err(Error::short_input(1, bytes.len()))
        } else {
            Ok(AudioStatus(bytes[0]))
        }
    }

    fn len(&self) -> (r: usize) {
        1
    }

    fn expected_len() -> (r: Range) {
        Range::AtLeast(1)
    }

    proof fn lemma_roundtrip(&self, rest: Seq<u8>) {
        assert((self.spec_bytes() + rest)[0] == self.0);
    }

    proof fn lemma_parse_len(bytes: Seq<u8>) {
    }
}

impl Default for LatencyFlags {
    fn default() -> (r: LatencyFlags)
        ensures
            r.0 == 0,
    {
        LatencyFlags(0)
    }
}

impl From<u8> for LatencyFlags {
    fn from(bits: u8) -> (r: LatencyFlags) {
        LatencyFlags(bits)
    }
}

impl vstd::std_specs::convert::FromSpecImpl<u8> for LatencyFlags {
    open spec fn obeys_from_spec() -> bool {
        true
    }

    open spec fn from_spec(bits: u8) -> LatencyFlags {
        LatencyFlags(bits)
    }
}

impl From<LatencyFlags> for u8 {
    fn from(v: LatencyFlags) -> (r: u8) {
        v.0
    }
}

impl vstd::std_specs::convert::FromSpecImpl<LatencyFlags> for u8 {
    open spec fn obeys_from_spec() -> bool {
        true
    }

    open spec fn from_spec(v: LatencyFlags) -> u8 {
        v.0
    }
}

impl OperandEncodable for LatencyFlags {
    open spec fn spec_bytes(&self) -> Seq<u8> {
        seq![self.0]
    }

    open spec fn spec_parse(bytes: Seq<u8>) -> Result<LatencyFlags, ErrorView> {
        if bytes.len() < 1 {
            Err(short_input(1, bytes.len() as usize))
        } else {
            Ok(LatencyFlags(bytes[0]))
        }
    }

    open spec fn spec_wf(&self) -> bool {
        true
    }

    open spec fn spec_expected_len() -> RangeView {
        RangeView::AtLeast(1)
    }

    open spec fn spec_self_delimiting() -> bool {
        true
    }

    fn to_bytes(&self, buf: &mut Vec<u8>) {
        buf.push(self.0);
    }

    fn try_from_bytes(bytes: &[u8]) -> (r: Result<LatencyFlags, Error>) {
        if bytes.len() < 1 {
            Err(Error::short_input(1, bytes.len()))
        } else {
            Ok(LatencyFlags(bytes[0]))
        }
    }

    fn len(&self) -> (r: usize) {
        1
    }

    fn expected_len() -> (r: Range) {
        Range::AtLeast(1)
    }

    proof fn lemma_roundtrip(&self, rest: Seq<u8>) {
        assert((self.spec_bytes() + rest)[0] == self.0);
    }

    proof fn lemma_parse_len(bytes: Seq<u8>) {
    }
}

} // verus!
