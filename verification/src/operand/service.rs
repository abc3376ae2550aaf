//! The operands with a fixed layout of several fields: broadcast service
//! identifiers, channels, times and durations.

use vstd::prelude::*;

use crate::codec::{hi_byte, hi_byte_of, lemma_word, lo_byte, lo_byte_of, slice_from, word, word_of, OperandEncodable};
use crate::error::{invalid_value, short_input, Error, ErrorView, Range, RangeView};
use crate::address::PhysicalAddress;
use crate::codec::{parse_at, parse_field, result_view};
use crate::operand::codes::{
    AnalogueBroadcastType, BroadcastSystem, DigitalServiceBroadcastSystem, RecordSourceType, TunerDisplayInfo,
};
use crate::operand::scalar::{BcdByte, DurationHours, Hour, Minute};

verus! {

/// Appends the two bytes of `v`, high byte first.
pub fn push_u16(buf: &mut Vec<u8>, v: u16)
    ensures
        final(buf)@ == old(buf)@ + seq![hi_byte(v), lo_byte(v)],
{
    buf.push(hi_byte_of(v));
    buf.push(lo_byte_of(v));
    proof {
        assert(final(buf)@ =~= old(buf)@ + seq![hi_byte(v), lo_byte(v)]);
    }
}

/// The six bytes of three 16-bit values, each high byte first.
pub open spec fn three_words(a: u16, b: u16, c: u16) -> Seq<u8> {
    seq![hi_byte(a), lo_byte(a), hi_byte(b), lo_byte(b), hi_byte(c), lo_byte(c)]
}

/// An analogue broadcast service: its type, frequency and system.
#[derive(Clone, Copy, Debug, PartialEq, Eq, Structural, Hash)]
pub struct AnalogueServiceId {
    pub broadcast_type: AnalogueBroadcastType,
    pub frequency: u16,
    pub broadcast_system: BroadcastSystem,
}

impl OperandEncodable for AnalogueServiceId {
    open spec fn spec_bytes(&self) -> Seq<u8> {
        seq![
            self.broadcast_type.code(),
            hi_byte(self.frequency),
            lo_byte(self.frequency),
            self.broadcast_system.code(),
        ]
    }

    open spec fn spec_parse(bytes: Seq<u8>) -> Result<AnalogueServiceId, ErrorView> {
        if bytes.len() < 4 {
            Err(short_input(4, bytes.len() as usize))
        } else {
            match AnalogueBroadcastType::from_code(bytes[0]) {
                None => Err(invalid_value("AnalogueBroadcastType"@, bytes[0] as nat)),
                Some(broadcast_type) => match BroadcastSystem::from_code(bytes[3]) {
                    None => Err(invalid_value("BroadcastSystem"@, bytes[3] as nat)),
                    Some(broadcast_system) => Ok(
                        AnalogueServiceId {
                            broadcast_type,
                            frequency: word(bytes[1], bytes[2]),
                            broadcast_system,
                        },
                    ),
                },
            }
        }
    }

    open spec fn spec_wf(&self) -> bool {
        true
    }

    open spec fn spec_expected_len() -> RangeView {
        RangeView::AtLeast(4)
    }

    open spec fn spec_self_delimiting() -> bool {
        true
    }

    fn to_bytes(&self, buf: &mut Vec<u8>) {
        buf.push(self.broadcast_type.to_u8());
        push_u16(buf, self.frequency);
        buf.push(self.broadcast_system.to_u8());
        proof {
            assert(final(buf)@ =~= old(buf)@ + self.spec_bytes());
        }
    }

    fn try_from_bytes(bytes: &[u8]) -> (r: Result<AnalogueServiceId, Error>) {
        if bytes.len() < 4 {
            return Err(Error::short_input(4, bytes.len()));
        }
        let broadcast_type = match AnalogueBroadcastType::try_from_u8(bytes[0]) {
            Ok(v) => v,
            Err(e) => return Err(e),
        };
        let frequency = word_of(bytes[1], bytes[2]);
        let broadcast_system = match BroadcastSystem::try_from_u8(bytes[3]) {
            Ok(v) => v,
            Err(e) => return Err(e),
        };
        Ok(AnalogueServiceId { broadcast_type, frequency, broadcast_system })
    }

    fn len(&self) -> (r: usize) {
        4
    }

    fn expected_len() -> (r: Range) {
        Range::AtLeast(4)
    }

    proof fn lemma_roundtrip(&self, rest: Seq<u8>) {
        let all = self.spec_bytes() + rest;
        assert(all[0] == self.broadcast_type.code());
        assert(all[1] == hi_byte(self.frequency));
        assert(all[2] == lo_byte(self.frequency));
        assert(all[3] == self.broadcast_system.code());
        self.broadcast_type.lemma_code(0);
        self.broadcast_system.lemma_code(0);
        lemma_word(self.frequency, 0, 0);
    }

    proof fn lemma_parse_len(bytes: Seq<u8>) {
    }
}

/// The identifiers of an ARIB digital service.
#[derive(Clone, Copy, Debug, PartialEq, Eq, Structural, Hash)]
pub struct AribData {
    pub transport_stream_id: u16,
    pub service_id: u16,
    pub original_network_id: u16,
}

impl OperandEncodable for AribData {
    open spec fn spec_bytes(&self) -> Seq<u8> {
        three_words(self.transport_stream_id, self.service_id, self.original_network_id)
    }

    open spec fn spec_parse(bytes: Seq<u8>) -> Result<AribData, ErrorView> {
        if bytes.len() < 6 {
            Err(short_input(6, bytes.len() as usize))
        } else {
            Ok(
                AribData {
                    transport_stream_id: word(bytes[0], bytes[1]),
                    service_id: word(bytes[2], bytes[3]),
                    original_network_id: word(bytes[4], bytes[5]),
                },
            )
        }
    }

    open spec fn spec_wf(&self) -> bool {
        true
    }

    open spec fn spec_expected_len() -> RangeView {
        RangeView::AtLeast(6)
    }

    open spec fn spec_self_delimiting() -> bool {
        true
    }

    fn to_bytes(&self, buf: &mut Vec<u8>) {
        push_u16(buf, self.transport_stream_id);
        push_u16(buf, self.service_id);
        push_u16(buf, self.original_network_id);
        proof {
            assert(final(buf)@ =~= old(buf)@ + self.spec_bytes());
        }
    }

    fn try_from_bytes(bytes: &[u8]) -> (r: Result<AribData, Error>) {
        if bytes.len() < 6 {
            return Err(Error::short_input(6, bytes.len()));
        }
        Ok(
            AribData {
                transport_stream_id: word_of(bytes[0], bytes[1]),
                service_id: word_of(bytes[2], bytes[3]),
                original_network_id: word_of(bytes[4], bytes[5]),
            },
        )
    }

    fn len(&self) -> (r: usize) {
        6
    }

    fn expected_len() -> (r: Range) {
        Range::AtLeast(6)
    }

    proof fn lemma_roundtrip(&self, rest: Seq<u8>) {
        lemma_three_words(self.transport_stream_id, self.service_id, self.original_network_id, rest);
    }

    proof fn lemma_parse_len(bytes: Seq<u8>) {
    }
}

/// Three 16-bit values written one after the other read back from the start
/// of the bytes, whatever follows.
pub proof fn lemma_three_words(a: u16, b: u16, c: u16, rest: Seq<u8>)
    ensures
        ({
            let all = three_words(a, b, c) + rest;
            &&& all.len() >= 6
            &&& word(all[0], all[1]) == a
            &&& word(all[2], all[3]) == b
            &&& word(all[4], all[5]) == c
        }),
{
    let all = three_words(a, b, c) + rest;
    assert(all[0] == hi_byte(a) && all[1] == lo_byte(a));
    assert(all[2] == hi_byte(b) && all[3] == lo_byte(b));
    assert(all[4] == hi_byte(c) && all[5] == lo_byte(c));
    lemma_word(a, 0, 0);
    lemma_word(b, 0, 0);
    lemma_word(c, 0, 0);
}

/// The identifiers of a DVB digital service.
#[derive(Clone, Copy, Debug, PartialEq, Eq, Structural, Hash)]
pub struct DvbData {
    pub transport_stream_id: u16,
    pub service_id: u16,
    pub original_network_id: u16,
}

impl OperandEncodable for DvbData {
    open spec fn spec_bytes(&self) -> Seq<u8> {
        three_words(self.transport_stream_id, self.service_id, self.original_network_id)
    }

    open spec fn spec_parse(bytes: Seq<u8>) -> Result<DvbData, ErrorView> {
        if bytes.len() < 6 {
            Err(short_input(6, bytes.len() as usize))
        } else {
            Ok(
                DvbData {
                    transport_stream_id: word(bytes[0], bytes[1]),
                    service_id: word(bytes[2], bytes[3]),
                    original_network_id: word(bytes[4], bytes[5]),
                },
            )
        }
    }

    open spec fn spec_wf(&self) -> bool {
        true
    }

    open spec fn spec_expected_len() -> RangeView {
        RangeView::AtLeast(6)
    }

    open spec fn spec_self_delimiting() -> bool {
        true
    }

    fn to_bytes(&self, buf: &mut Vec<u8>) {
        push_u16(buf, self.transport_stream_id);
        push_u16(buf, self.service_id);
        push_u16(buf, self.original_network_id);
        proof {
            assert(final(buf)@ =~= old(buf)@ + self.spec_bytes());
        }
    }

    fn try_from_bytes(bytes: &[u8]) -> (r: Result<DvbData, Error>) {
        if bytes.len() < 6 {
            return Err(Error::short_input(6, bytes.len()));
        }
        Ok(
            DvbData {
                transport_stream_id: word_of(bytes[0], bytes[1]),
                service_id: word_of(bytes[2], bytes[3]),
                original_network_id: word_of(bytes[4], bytes[5]),
            },
        )
    }

    fn len(&self) -> (r: usize) {
        6
    }

    fn expected_len() -> (r: Range) {
        Range::AtLeast(6)
    }

    proof fn lemma_roundtrip(&self, rest: Seq<u8>) {
        lemma_three_words(self.transport_stream_id, self.service_id, self.original_network_id, rest);
    }

    proof fn lemma_parse_len(bytes: Seq<u8>) {
    }
}

/// The identifiers of an ATSC digital service; two reserved zero bytes
/// follow them in the encoding.
#[derive(Clone, Copy, Debug, PartialEq, Eq, Structural, Hash)]
pub struct AtscData {
    pub transport_stream_id: u16,
    pub program_number: u16,
}

impl OperandEncodable for AtscData {
    open spec fn spec_bytes(&self) -> Seq<u8> {
        three_words(self.transport_stream_id, self.program_number, 0)
    }

    open spec fn spec_parse(bytes: Seq<u8>) -> Result<AtscData, ErrorView> {
        if bytes.len() < 6 {
            Err(short_input(6, bytes.len() as usize))
        } else if word(bytes[4], bytes[5]) != 0 {
            Err(ErrorView::InvalidData)
        } else {
            Ok(
                AtscData {
                    transport_stream_id: word(bytes[0], bytes[1]),
                    program_number: word(bytes[2], bytes[3]),
                },
            )
        }
    }

    open spec fn spec_wf(&self) -> bool {
        true
    }

    open spec fn spec_expected_len() -> RangeView {
        RangeView::AtLeast(6)
    }

    open spec fn spec_self_delimiting() -> bool {
        true
    }

    fn to_bytes(&self, buf: &mut Vec<u8>) {
        push_u16(buf, self.transport_stream_id);
        push_u16(buf, self.program_number);
        push_u16(buf, 0);
        proof {
            assert(final(buf)@ =~= old(buf)@ + self.spec_bytes());
        }
    }

    fn try_from_bytes(bytes: &[u8]) -> (r: Result<AtscData, Error>) {
        if bytes.len() < 6 {
            return Err(Error::short_input(6, bytes.len()));
        }
        if word_of(bytes[4], bytes[5]) != 0 {
            return Err(Error::InvalidData);
        }
        Ok(
            AtscData {
                transport_stream_id: word_of(bytes[0], bytes[1]),
                program_number: word_of(bytes[2], bytes[3]),
            },
        )
    }

    fn len(&self) -> (r: usize) {
        6
    }

    fn expected_len() -> (r: Range) {
        Range::AtLeast(6)
    }

    proof fn lemma_roundtrip(&self, rest: Seq<u8>) {
        lemma_three_words(self.transport_stream_id, self.program_number, 0, rest);
    }

    proof fn lemma_parse_len(bytes: Seq<u8>) {
    }
}

/// A channel number: one part, or a major and a minor part.
#[derive(Clone, Copy, Debug, PartialEq, Eq, Structural, Hash)]
pub enum ChannelId {
    OnePart(u16),
    TwoPart(u16, u16),
}

/// The code of the one-part channel number format.
pub const CHANNEL_FORMAT_ONE_PART: u16 = 1;

/// The code of the two-part channel number format.
pub const CHANNEL_FORMAT_TWO_PART: u16 = 2;

impl ChannelId {
    /// The first 16-bit word of the encoding: the number format in the top
    /// six bits, the major channel (or zero) in the low ten.
    pub open spec fn high_word(self) -> u16 {
        match self {
            ChannelId::OnePart(_) => (CHANNEL_FORMAT_ONE_PART << 10u16) as u16,
            ChannelId::TwoPart(major, _) => ((CHANNEL_FORMAT_TWO_PART << 10u16) | major) as u16,
        }
    }

    /// The second 16-bit word of the encoding.
    pub open spec fn low_word(self) -> u16 {
        match self {
            ChannelId::OnePart(part) => part,
            ChannelId::TwoPart(_, minor) => minor,
        }
    }
}

/// The number format field and the low ten bits of a high word, and those of
/// a word built from a format and a major number below 1024.
pub proof fn lemma_channel_word()
    by (bit_vector)
    ensures
        forall|h: u16| #![auto] (h >> 10u16) < 64,
        forall|m: u16| #![auto] m < 1024 ==> ((1u16 << 10u16) | m) >> 10u16 == 1 && ((2u16 << 10u16)
            | m) >> 10u16 == 2 && (((2u16 << 10u16) | m) & 0x3ffu16) == m,
{
}

impl OperandEncodable for ChannelId {
    open spec fn spec_bytes(&self) -> Seq<u8> {
        seq![
            hi_byte(self.high_word()),
            lo_byte(self.high_word()),
            hi_byte(self.low_word()),
            lo_byte(self.low_word()),
        ]
    }

    open spec fn spec_parse(bytes: Seq<u8>) -> Result<ChannelId, ErrorView> {
        if bytes.len() < 4 {
            Err(short_input(4, bytes.len() as usize))
        } else {
            let high = word(bytes[0], bytes[1]);
            let low = word(bytes[2], bytes[3]);
            let format = high >> 10u16;
            if format == CHANNEL_FORMAT_ONE_PART {
                Ok(ChannelId::OnePart(low))
            } else if format == CHANNEL_FORMAT_TWO_PART {
                Ok(ChannelId::TwoPart(high & 0x3ffu16, low))
            } else {
                Err(invalid_value("ChannelNumberFormat"@, format as nat))
            }
        }
    }

    open spec fn spec_wf(&self) -> bool {
        match self {
            ChannelId::OnePart(_) => true,
            ChannelId::TwoPart(major, _) => *major < 1024,
        }
    }

    open spec fn spec_expected_len() -> RangeView {
        RangeView::AtLeast(4)
    }

    open spec fn spec_self_delimiting() -> bool {
        true
    }

    fn to_bytes(&self, buf: &mut Vec<u8>) {
        let (high, low) = match self {
            ChannelId::OnePart(part) => (CHANNEL_FORMAT_ONE_PART << 10, *part),
            ChannelId::TwoPart(major, minor) => ((CHANNEL_FORMAT_TWO_PART << 10) | *major, *minor),
        };
        push_u16(buf, high);
        push_u16(buf, low);
        proof {
            assert(final(buf)@ =~= old(buf)@ + self.spec_bytes());
        }
    }

    fn try_from_bytes(bytes: &[u8]) -> (r: Result<ChannelId, Error>) {
        if bytes.len() < 4 {
            return Err(Error::short_input(4, bytes.len()));
        }
        let high = word_of(bytes[0], bytes[1]);
        let low = word_of(bytes[2], bytes[3]);
        let format = high >> 10;
        proof {
            lemma_channel_word();
        }
        if format == CHANNEL_FORMAT_ONE_PART {
            Ok(ChannelId::OnePart(low))
        } else if format == CHANNEL_FORMAT_TWO_PART {
            Ok(ChannelId::TwoPart(high & 0x3ff, low))
        } else {
            Err(Error::invalid_value("ChannelNumberFormat", format as u8))
        }
    }

    fn len(&self) -> (r: usize) {
        4
    }

    fn expected_len() -> (r: Range) {
        Range::AtLeast(4)
    }

    proof fn lemma_roundtrip(&self, rest: Seq<u8>) {
        let all = self.spec_bytes() + rest;
        assert(all[0] == hi_byte(self.high_word()) && all[1] == lo_byte(self.high_word()));
        assert(all[2] == hi_byte(self.low_word()) && all[3] == lo_byte(self.low_word()));
        lemma_word(self.high_word(), 0, 0);
        lemma_word(self.low_word(), 0, 0);
        lemma_channel_word();
        match self {
            ChannelId::OnePart(_) => {
                assert((1u16 << 10u16) >> 10u16 == 1) by (bit_vector);
            },
            ChannelId::TwoPart(major, _) => {
                assert(((2u16 << 10u16) | *major) >> 10u16 == 2);
            },
        }
    }

    proof fn lemma_parse_len(bytes: Seq<u8>) {
    }
}

/// A duration in hours and minutes.
#[derive(Clone, Copy, Debug, PartialEq, Eq, Hash)]
pub struct Duration {
    pub hours: DurationHours,
    pub minutes: Minute,
}

impl OperandEncodable for Duration {
    open spec fn spec_bytes(&self) -> Seq<u8> {
        seq![self.hours.0, self.minutes.0]
    }

    open spec fn spec_parse(bytes: Seq<u8>) -> Result<Duration, ErrorView> {
        if bytes.len() < 2 {
            Err(short_input(2, bytes.len() as usize))
        } else {
            match DurationHours::spec_parse(bytes) {
                Err(e) => Err(e),
                Ok(hours) => match Minute::spec_parse(bytes.drop_first()) {
                    Err(e) => Err(e),
                    Ok(minutes) => Ok(Duration { hours, minutes }),
                },
            }
        }
    }

    open spec fn spec_wf(&self) -> bool {
        self.hours.spec_wf() && self.minutes.spec_wf()
    }

    open spec fn spec_expected_len() -> RangeView {
        RangeView::AtLeast(2)
    }

    open spec fn spec_self_delimiting() -> bool {
        true
    }

    fn to_bytes(&self, buf: &mut Vec<u8>) {
        buf.push(self.hours.0);
        buf.push(self.minutes.0);
        proof {
            assert(final(buf)@ =~= old(buf)@ + self.spec_bytes());
        }
    }

    fn try_from_bytes(bytes: &[u8]) -> (r: Result<Duration, Error>) {
        if bytes.len() < 2 {
            return Err(Error::short_input(2, bytes.len()));
        }
        let hours = match DurationHours::try_from_bytes(bytes) {
            Ok(v) => v,
            Err(e) => return Err(e),
        };
        let rest = slice_from(bytes, 1);
        proof {
            assert(rest@ =~= bytes@.drop_first());
        }
        let minutes = match Minute::try_from_bytes(rest) {
            Ok(v) => v,
            Err(e) => return Err(e),
        };
        Ok(Duration { hours, minutes })
    }

    fn len(&self) -> (r: usize) {
        2
    }

    fn expected_len() -> (r: Range) {
        Range::AtLeast(2)
    }

    proof fn lemma_roundtrip(&self, rest: Seq<u8>) {
        let all = self.spec_bytes() + rest;
        assert(all =~= self.hours.spec_bytes() + (self.minutes.spec_bytes() + rest));
        assert(all.drop_first() =~= self.minutes.spec_bytes() + rest);
        self.hours.lemma_roundtrip(self.minutes.spec_bytes() + rest);
        self.minutes.lemma_roundtrip(rest);
    }

    proof fn lemma_parse_len(bytes: Seq<u8>) {
    }
}

/// A time of day in hours and minutes.
#[derive(Clone, Copy, Debug, PartialEq, Eq, Hash)]
pub struct Time {
    pub hour: Hour,
    pub minute: Minute,
}

impl OperandEncodable for Time {
    open spec fn spec_bytes(&self) -> Seq<u8> {
        seq![self.hour.0, self.minute.0]
    }

    open spec fn spec_parse(bytes: Seq<u8>) -> Result<Time, ErrorView> {
        if bytes.len() < 2 {
            Err(short_input(2, bytes.len() as usize))
        } else {
            match Hour::spec_parse(bytes) {
                Err(e) => Err(e),
                Ok(hour) => match Minute::spec_parse(bytes.drop_first()) {
                    Err(e) => Err(e),
                    Ok(minute) => Ok(Time { hour, minute }),
                },
            }
        }
    }

    open spec fn spec_wf(&self) -> bool {
        self.hour.spec_wf() && self.minute.spec_wf()
    }

    open spec fn spec_expected_len() -> RangeView {
        RangeView::AtLeast(2)
    }

    open spec fn spec_self_delimiting() -> bool {
        true
    }

    fn to_bytes(&self, buf: &mut Vec<u8>) {
        buf.push(self.hour.0);
        buf.push(self.minute.0);
        proof {
            assert(final(buf)@ =~= old(buf)@ + self.spec_bytes());
        }
    }

    fn try_from_bytes(bytes: &[u8]) -> (r: Result<Time, Error>) {
        if bytes.len() < 2 {
            return Err(Error::short_input(2, bytes.len()));
        }
        let hour = match Hour::try_from_bytes(bytes) {
            Ok(v) => v,
            Err(e) => return Err(e),
        };
        let rest = slice_from(bytes, 1);
        proof {
            assert(rest@ =~= bytes@.drop_first());
        }
        let minute = match Minute::try_from_bytes(rest) {
            Ok(v) => v,
            Err(e) => return Err(e),
        };
        Ok(Time { hour, minute })
    }

    fn len(&self) -> (r: usize) {
        2
    }

    fn expected_len() -> (r: Range) {
        Range::AtLeast(2)
    }

    proof fn lemma_roundtrip(&self, rest: Seq<u8>) {
        let all = self.spec_bytes() + rest;
        assert(all =~= self.hour.spec_bytes() + (self.minute.spec_bytes() + rest));
        assert(all.drop_first() =~= self.minute.spec_bytes() + rest);
        self.hour.lemma_roundtrip(self.minute.spec_bytes() + rest);
        self.minute.lemma_roundtrip(rest);
    }

    proof fn lemma_parse_len(bytes: Seq<u8>) {
    }
}

/// The bits of a head byte that holds a code below `0x80` and a flag in its
/// top bit.
pub proof fn lemma_head_bits()
    by (bit_vector)
    ensures
        forall|c: u8| #![auto] c < 0x80 ==> (c & 0x7fu8) == c,
        forall|c: u8| #![auto] c < 0x80 ==> (c >> 7u8) == 0,
        forall|c: u8| #![auto] c < 0x80 ==> ((c | 0x80u8) & 0x7fu8) == c,
        forall|c: u8| #![auto] c < 0x80 ==> ((c | 0x80u8) >> 7u8) == 1,
        forall|c: u8| #![auto] c < 0x80 ==> ((c | 0x80u8) & 0x80u8) == 0x80u8,
        forall|c: u8| #![auto] c < 0x80 ==> (c & 0x80u8) == 0,
        forall|h: u8| #![auto] (h >> 7u8) == 0 || (h >> 7u8) == 1,
{
}

/// A digital broadcast service, named by the identifiers of its broadcast
/// system or by its channel.
#[derive(Clone, Copy, Debug, PartialEq, Eq, Structural, Hash)]
pub enum DigitalServiceId {
    AribGeneric(AribData),
    AtscGeneric(AtscData),
    DvbGeneric(DvbData),
    AribBs(AribData),
    AribCs(AribData),
    AribT(AribData),
    AtscCable(AtscData),
    AtscSatellite(AtscData),
    AtscTerrestrial(AtscData),
    DvbC(DvbData),
    DvbS(DvbData),
    DvbS2(DvbData),
    DvbT(DvbData),
    Channel { broadcast_system: DigitalServiceBroadcastSystem, channel_id: ChannelId, reserved: u16 },
}

/// Whether `sys` is one of the ARIB systems.
pub open spec fn is_arib(sys: DigitalServiceBroadcastSystem) -> bool {
    sys is AribGeneric || sys is AribBs || sys is AribCs || sys is AribT
}

/// Whether `sys` is one of the ATSC systems.
pub open spec fn is_atsc(sys: DigitalServiceBroadcastSystem) -> bool {
    sys is AtscGeneric || sys is AtscCable || sys is AtscSatellite || sys is AtscTerrestrial
}

/// The service of the ARIB system `sys` with identifiers `d`.
pub open spec fn arib_service(sys: DigitalServiceBroadcastSystem, d: AribData) -> DigitalServiceId {
    match sys {
        DigitalServiceBroadcastSystem::AribBs => DigitalServiceId::AribBs(d),
        DigitalServiceBroadcastSystem::AribCs => DigitalServiceId::AribCs(d),
        DigitalServiceBroadcastSystem::AribT => DigitalServiceId::AribT(d),
        _ => DigitalServiceId::AribGeneric(d),
    }
}

/// The service of the ATSC system `sys` with identifiers `d`.
pub open spec fn atsc_service(sys: DigitalServiceBroadcastSystem, d: AtscData) -> DigitalServiceId {
    match sys {
        DigitalServiceBroadcastSystem::AtscCable => DigitalServiceId::AtscCable(d),
        DigitalServiceBroadcastSystem::AtscSatellite => DigitalServiceId::AtscSatellite(d),
        DigitalServiceBroadcastSystem::AtscTerrestrial => DigitalServiceId::AtscTerrestrial(d),
        _ => DigitalServiceId::AtscGeneric(d),
    }
}

/// The service of the DVB system `sys` with identifiers `d`.
pub open spec fn dvb_service(sys: DigitalServiceBroadcastSystem, d: DvbData) -> DigitalServiceId {
    match sys {
        DigitalServiceBroadcastSystem::DvbC => DigitalServiceId::DvbC(d),
        DigitalServiceBroadcastSystem::DvbS => DigitalServiceId::DvbS(d),
        DigitalServiceBroadcastSystem::DvbS2 => DigitalServiceId::DvbS2(d),
        DigitalServiceBroadcastSystem::DvbT => DigitalServiceId::DvbT(d),
        _ => DigitalServiceId::DvbGeneric(d),
    }
}

/// The service of the system `sys` named by the identifiers encoded in
/// `data`.
pub open spec fn service_by_id(sys: DigitalServiceBroadcastSystem, data: Seq<u8>) -> Result<
    DigitalServiceId,
    ErrorView,
> {
    if is_arib(sys) {
        match AribData::spec_parse(data) {
            Ok(d) => Ok(arib_service(sys, d)),
            Err(e) => Err(e),
        }
    } else if is_atsc(sys) {
        match AtscData::spec_parse(data) {
            Ok(d) => Ok(atsc_service(sys, d)),
            Err(e) => Err(e),
        }
    } else {
        match DvbData::spec_parse(data) {
            Ok(d) => Ok(dvb_service(sys, d)),
            Err(e) => Err(e),
        }
    }
}

impl DigitalServiceId {
    /// The broadcast system of the service.
    pub open spec fn system(self) -> DigitalServiceBroadcastSystem {
        match self {
            DigitalServiceId::AribGeneric(_) => DigitalServiceBroadcastSystem::AribGeneric,
            DigitalServiceId::AtscGeneric(_) => DigitalServiceBroadcastSystem::AtscGeneric,
            DigitalServiceId::DvbGeneric(_) => DigitalServiceBroadcastSystem::DvbGeneric,
            DigitalServiceId::AribBs(_) => DigitalServiceBroadcastSystem::AribBs,
            DigitalServiceId::AribCs(_) => DigitalServiceBroadcastSystem::AribCs,
            DigitalServiceId::AribT(_) => DigitalServiceBroadcastSystem::AribT,
            DigitalServiceId::AtscCable(_) => DigitalServiceBroadcastSystem::AtscCable,
            DigitalServiceId::AtscSatellite(_) => DigitalServiceBroadcastSystem::AtscSatellite,
            DigitalServiceId::AtscTerrestrial(_) => DigitalServiceBroadcastSystem::AtscTerrestrial,
            DigitalServiceId::DvbC(_) => DigitalServiceBroadcastSystem::DvbC,
            DigitalServiceId::DvbS(_) => DigitalServiceBroadcastSystem::DvbS,
            DigitalServiceId::DvbS2(_) => DigitalServiceBroadcastSystem::DvbS2,
            DigitalServiceId::DvbT(_) => DigitalServiceBroadcastSystem::DvbT,
            DigitalServiceId::Channel { broadcast_system, .. } => broadcast_system,
        }
    }

    /// The first byte of the encoding: the system's code, with the top bit
    /// set when the service is named by its channel.
    pub open spec fn head(self) -> u8 {
        match self {
            DigitalServiceId::Channel { broadcast_system, .. } => (broadcast_system.code() | 0x80u8) as u8,
            _ => self.system().code(),
        }
    }

    /// The six bytes that follow the head byte.
    pub open spec fn data_bytes(self) -> Seq<u8> {
        match self {
            DigitalServiceId::AribGeneric(d) => d.spec_bytes(),
            DigitalServiceId::AtscGeneric(d) => d.spec_bytes(),
            DigitalServiceId::DvbGeneric(d) => d.spec_bytes(),
            DigitalServiceId::AribBs(d) => d.spec_bytes(),
            DigitalServiceId::AribCs(d) => d.spec_bytes(),
            DigitalServiceId::AribT(d) => d.spec_bytes(),
            DigitalServiceId::AtscCable(d) => d.spec_bytes(),
            DigitalServiceId::AtscSatellite(d) => d.spec_bytes(),
            DigitalServiceId::AtscTerrestrial(d) => d.spec_bytes(),
            DigitalServiceId::DvbC(d) => d.spec_bytes(),
            DigitalServiceId::DvbS(d) => d.spec_bytes(),
            DigitalServiceId::DvbS2(d) => d.spec_bytes(),
            DigitalServiceId::DvbT(d) => d.spec_bytes(),
            DigitalServiceId::Channel { channel_id, reserved, .. } => channel_id.spec_bytes()
                + seq![hi_byte(reserved), lo_byte(reserved)],
        }
    }

    /// The service of the ARIB system `sys` with identifiers `d`.
    fn arib(sys: DigitalServiceBroadcastSystem, d: AribData) -> (r: DigitalServiceId)
        ensures
            r == arib_service(sys, d),
    {
        match sys {
            DigitalServiceBroadcastSystem::AribBs => DigitalServiceId::AribBs(d),
            DigitalServiceBroadcastSystem::AribCs => DigitalServiceId::AribCs(d),
            DigitalServiceBroadcastSystem::AribT => DigitalServiceId::AribT(d),
            _ => DigitalServiceId::AribGeneric(d),
        }
    }

    /// The service of the ATSC system `sys` with identifiers `d`.
    fn atsc(sys: DigitalServiceBroadcastSystem, d: AtscData) -> (r: DigitalServiceId)
        ensures
            r == atsc_service(sys, d),
    {
        match sys {
            DigitalServiceBroadcastSystem::AtscCable => DigitalServiceId::AtscCable(d),
            DigitalServiceBroadcastSystem::AtscSatellite => DigitalServiceId::AtscSatellite(d),
            DigitalServiceBroadcastSystem::AtscTerrestrial => DigitalServiceId::AtscTerrestrial(d),
            _ => DigitalServiceId::AtscGeneric(d),
        }
    }

    /// The service of the DVB system `sys` with identifiers `d`.
    fn dvb(sys: DigitalServiceBroadcastSystem, d: DvbData) -> (r: DigitalServiceId)
        ensures
            r == dvb_service(sys, d),
    {
        match sys {
            DigitalServiceBroadcastSystem::DvbC => DigitalServiceId::DvbC(d),
            DigitalServiceBroadcastSystem::DvbS => DigitalServiceId::DvbS(d),
            DigitalServiceBroadcastSystem::DvbS2 => DigitalServiceId::DvbS2(d),
            DigitalServiceBroadcastSystem::DvbT => DigitalServiceId::DvbT(d),
            _ => DigitalServiceId::DvbGeneric(d),
        }
    }
}

impl OperandEncodable for DigitalServiceId {
    open spec fn spec_bytes(&self) -> Seq<u8> {
        seq![self.head()] + self.data_bytes()
    }

    open spec fn spec_parse(bytes: Seq<u8>) -> Result<DigitalServiceId, ErrorView> {
        if bytes.len() < 7 {
            Err(short_input(7, bytes.len() as usize))
        } else {
            let head = bytes[0];
            let system = (head & 0x7fu8) as u8;
            match DigitalServiceBroadcastSystem::from_code(system) {
                None => Err(invalid_value("DigitalServiceBroadcastSystem"@, system as nat)),
                Some(sys) => if head >> 7u8 == 1 {
                    match ChannelId::spec_parse(bytes.skip(1)) {
                        Err(e) => Err(e),
                        Ok(channel_id) => Ok(
                            DigitalServiceId::Channel {
                                broadcast_system: sys,
                                channel_id,
                                reserved: word(bytes[5], bytes[6]),
                            },
                        ),
                    }
                } else {
                    service_by_id(sys, bytes.skip(1))
                },
            }
        }
    }

    open spec fn spec_wf(&self) -> bool {
        match self {
            DigitalServiceId::Channel { channel_id, .. } => channel_id.spec_wf(),
            _ => true,
        }
    }

    open spec fn spec_expected_len() -> RangeView {
        RangeView::AtLeast(7)
    }

    open spec fn spec_self_delimiting() -> bool {
        true
    }

    fn to_bytes(&self, buf: &mut Vec<u8>) {
        match self {
            DigitalServiceId::AribGeneric(d) | DigitalServiceId::AribBs(d) | DigitalServiceId::AribCs(d)
            | DigitalServiceId::AribT(d) => {
                buf.push(self.system_code());
                d.to_bytes(buf);
            },
            DigitalServiceId::AtscGeneric(d) | DigitalServiceId::AtscCable(d)
            | DigitalServiceId::AtscSatellite(d) | DigitalServiceId::AtscTerrestrial(d) => {
                buf.push(self.system_code());
                d.to_bytes(buf);
            },
            DigitalServiceId::DvbGeneric(d) | DigitalServiceId::DvbC(d) | DigitalServiceId::DvbS(d)
            | DigitalServiceId::DvbS2(d) | DigitalServiceId::DvbT(d) => {
                buf.push(self.system_code());
                d.to_bytes(buf);
            },
            DigitalServiceId::Channel { broadcast_system, channel_id, reserved } => {
                buf.push(broadcast_system.to_u8() | 0x80);
                channel_id.to_bytes(buf);
                push_u16(buf, *reserved);
            },
        }
        proof {
            assert(final(buf)@ =~= old(buf)@ + self.spec_bytes());
        }
    }

    fn try_from_bytes(bytes: &[u8]) -> (r: Result<DigitalServiceId, Error>) {
        if bytes.len() < 7 {
            return Err(Error::short_input(7, bytes.len()));
        }
        let head = bytes[0];
        let sys = match DigitalServiceBroadcastSystem::try_from_u8(head & 0x7f) {
            Ok(v) => v,
            Err(e) => return Err(e),
        };
        let data = slice_from(bytes, 1);
        proof {
            assert(data@ =~= bytes@.skip(1));
        }
        if head >> 7 == 1 {
            match ChannelId::try_from_bytes(data) {
                Ok(channel_id) => Ok(
                    DigitalServiceId::Channel {
                        broadcast_system: sys,
                        channel_id,
                        reserved: word_of(bytes[5], bytes[6]),
                    },
                ),
                Err(e) => Err(e),
            }
        } else {
            match sys {
                DigitalServiceBroadcastSystem::AribGeneric | DigitalServiceBroadcastSystem::AribBs
                | DigitalServiceBroadcastSystem::AribCs | DigitalServiceBroadcastSystem::AribT => {
                    match AribData::try_from_bytes(data) {
                        Ok(d) => Ok(DigitalServiceId::arib(sys, d)),
                        Err(e) => Err(e),
                    }
                },
                DigitalServiceBroadcastSystem::AtscGeneric | DigitalServiceBroadcastSystem::AtscCable
                | DigitalServiceBroadcastSystem::AtscSatellite
                | DigitalServiceBroadcastSystem::AtscTerrestrial => {
                    match AtscData::try_from_bytes(data) {
                        Ok(d) => Ok(DigitalServiceId::atsc(sys, d)),
                        Err(e) => Err(e),
                    }
                },
                _ => {
                    match DvbData::try_from_bytes(data) {
                        Ok(d) => Ok(DigitalServiceId::dvb(sys, d)),
                        Err(e) => Err(e),
                    }
                },
            }
        }
    }

    fn len(&self) -> (r: usize) {
        7
    }

    fn expected_len() -> (r: Range) {
        Range::AtLeast(7)
    }

    proof fn lemma_roundtrip(&self, rest: Seq<u8>) {
        let all = self.spec_bytes() + rest;
        lemma_head_bits();
        self.system().lemma_code(0);
        assert(self.system().code() < 0x80);
        assert(all[0] == self.head());
        assert(all.skip(1) =~= self.data_bytes() + rest);
        match self {
            DigitalServiceId::Channel { channel_id, reserved, .. } => {
                let cb = channel_id.spec_bytes();
                assert(all.skip(1) =~= cb + (seq![hi_byte(*reserved), lo_byte(*reserved)] + rest));
                channel_id.lemma_roundtrip(seq![hi_byte(*reserved), lo_byte(*reserved)] + rest);
                assert(all[5] == hi_byte(*reserved) && all[6] == lo_byte(*reserved));
                lemma_word(*reserved, 0, 0);
            },
            DigitalServiceId::AribGeneric(d) | DigitalServiceId::AribBs(d) | DigitalServiceId::AribCs(d)
            | DigitalServiceId::AribT(d) => {
                d.lemma_roundtrip(rest);
            },
            DigitalServiceId::AtscGeneric(d) | DigitalServiceId::AtscCable(d)
            | DigitalServiceId::AtscSatellite(d) | DigitalServiceId::AtscTerrestrial(d) => {
                d.lemma_roundtrip(rest);
            },
            DigitalServiceId::DvbGeneric(d) | DigitalServiceId::DvbC(d) | DigitalServiceId::DvbS(d)
            | DigitalServiceId::DvbS2(d) | DigitalServiceId::DvbT(d) => {
                d.lemma_roundtrip(rest);
            },
        }
    }

    proof fn lemma_parse_len(bytes: Seq<u8>) {
    }
}

impl DigitalServiceId {
    /// The code of the broadcast system.
    fn system_code(&self) -> (r: u8)
        ensures
            r == self.system().code(),
    {
        match self {
            DigitalServiceId::AribGeneric(_) => DigitalServiceBroadcastSystem::AribGeneric.to_u8(),
            DigitalServiceId::AtscGeneric(_) => DigitalServiceBroadcastSystem::AtscGeneric.to_u8(),
            DigitalServiceId::DvbGeneric(_) => DigitalServiceBroadcastSystem::DvbGeneric.to_u8(),
            DigitalServiceId::AribBs(_) => DigitalServiceBroadcastSystem::AribBs.to_u8(),
            DigitalServiceId::AribCs(_) => DigitalServiceBroadcastSystem::AribCs.to_u8(),
            DigitalServiceId::AribT(_) => DigitalServiceBroadcastSystem::AribT.to_u8(),
            DigitalServiceId::AtscCable(_) => DigitalServiceBroadcastSystem::AtscCable.to_u8(),
            DigitalServiceId::AtscSatellite(_) => DigitalServiceBroadcastSystem::AtscSatellite.to_u8(),
            DigitalServiceId::AtscTerrestrial(_) => DigitalServiceBroadcastSystem::AtscTerrestrial.to_u8(),
            DigitalServiceId::DvbC(_) => DigitalServiceBroadcastSystem::DvbC.to_u8(),
            DigitalServiceId::DvbS(_) => DigitalServiceBroadcastSystem::DvbS.to_u8(),
            DigitalServiceId::DvbS2(_) => DigitalServiceBroadcastSystem::DvbS2.to_u8(),
            DigitalServiceId::DvbT(_) => DigitalServiceBroadcastSystem::DvbT.to_u8(),
            DigitalServiceId::Channel { broadcast_system, .. } => broadcast_system.to_u8(),
        }
    }
}

/// A broadcast service, digital or analogue.
#[derive(Clone, Copy, Debug, PartialEq, Eq, Structural, Hash)]
pub enum ServiceId {
    Digital(DigitalServiceId),
    Analogue(AnalogueServiceId),
}

impl ServiceId {
    /// The encoding of the service.
    pub open spec fn spec_bytes(self) -> Seq<u8> {
        match self {
            ServiceId::Digital(d) => d.spec_bytes(),
            ServiceId::Analogue(a) => a.spec_bytes(),
        }
    }

    /// Whether the service decodes back from its own encoding.
    pub open spec fn spec_wf(self) -> bool {
        match self {
            ServiceId::Digital(d) => d.spec_wf(),
            ServiceId::Analogue(a) => a.spec_wf(),
        }
    }
}

/// The error for a length of `got` bytes that is neither of `a` and `b`.
pub open spec fn bad_length(a: usize, b: usize, got: usize) -> ErrorView {
    ErrorView::OutOfRange { expected: RangeView::Only(seq![a, b]), got, quantity: "bytes"@ }
}

/// The state of a tuner: whether it records, what it shows, and the service
/// it is tuned to.
#[derive(Clone, Copy, Debug, PartialEq, Eq, Structural, Hash)]
pub struct TunerDeviceInfo {
    pub recording: bool,
    pub tuner_display_info: TunerDisplayInfo,
    pub service_id: ServiceId,
}

impl TunerDeviceInfo {
    /// The first byte of the encoding: the display state, with the top bit
    /// set while recording.
    pub open spec fn head(self) -> u8 {
        if self.recording {
            (self.tuner_display_info.code() | 0x80u8) as u8
        } else {
            self.tuner_display_info.code()
        }
    }
}

impl OperandEncodable for TunerDeviceInfo {
    open spec fn spec_bytes(&self) -> Seq<u8> {
        seq![self.head()] + self.service_id.spec_bytes()
    }

    open spec fn spec_parse(bytes: Seq<u8>) -> Result<TunerDeviceInfo, ErrorView> {
        if bytes.len() < 5 {
            Err(bad_length(5, 8, bytes.len() as usize))
        } else {
            let head = bytes[0];
            let display = (head & 0x7fu8) as u8;
            match TunerDisplayInfo::from_code(display) {
                None => Err(invalid_value("TunerDisplayInfo"@, display as nat)),
                Some(tuner_display_info) => {
                    let recording = head & 0x80u8 == 0x80u8;
                    if bytes.len() == 5 {
                        match AnalogueServiceId::spec_parse(bytes.skip(1)) {
                            Err(e) => Err(e),
                            Ok(a) => Ok(
                                TunerDeviceInfo {
                                    recording,
                                    tuner_display_info,
                                    service_id: ServiceId::Analogue(a),
                                },
                            ),
                        }
                    } else if bytes.len() == 8 {
                        match DigitalServiceId::spec_parse(bytes.skip(1)) {
                            Err(e) => Err(e),
                            Ok(d) => Ok(
                                TunerDeviceInfo {
                                    recording,
                                    tuner_display_info,
                                    service_id: ServiceId::Digital(d),
                                },
                            ),
                        }
                    } else {
                        Err(bad_length(5, 8, bytes.len() as usize))
                    }
                },
            }
        }
    }

    open spec fn spec_wf(&self) -> bool {
        self.service_id.spec_wf()
    }

    open spec fn spec_expected_len() -> RangeView {
        RangeView::Only(seq![5, 8])
    }

    open spec fn spec_self_delimiting() -> bool {
        false
    }

    fn to_bytes(&self, buf: &mut Vec<u8>) {
        let display = self.tuner_display_info.to_u8();
        buf.push(if self.recording { display | 0x80 } else { display });
        match self.service_id {
            ServiceId::Analogue(a) => a.to_bytes(buf),
            ServiceId::Digital(d) => d.to_bytes(buf),
        }
        proof {
            assert(final(buf)@ =~= old(buf)@ + self.spec_bytes());
        }
    }

    fn try_from_bytes(bytes: &[u8]) -> (r: Result<TunerDeviceInfo, Error>) {
        if bytes.len() < 5 {
            return Err(Error::OutOfRange { expected: Range::only_two(5, 8), got: bytes.len(), quantity: "bytes" });
        }
        let head = bytes[0];
        let tuner_display_info = match TunerDisplayInfo::try_from_u8(head & 0x7f) {
            Ok(v) => v,
            Err(e) => return Err(e),
        };
        let recording = head & 0x80 == 0x80;
        let data = slice_from(bytes, 1);
        proof {
            assert(data@ =~= bytes@.skip(1));
        }
        if bytes.len() == 5 {
            match AnalogueServiceId::try_from_bytes(data) {
                Ok(a) => Ok(TunerDeviceInfo { recording, tuner_display_info, service_id: ServiceId::Analogue(a) }),
                Err(e) => Err(e),
            }
        } else if bytes.len() == 8 {
            match DigitalServiceId::try_from_bytes(data) {
                Ok(d) => Ok(TunerDeviceInfo { recording, tuner_display_info, service_id: ServiceId::Digital(d) }),
                Err(e) => Err(e),
            }
        } else {
            Err(Error::OutOfRange { expected: Range::only_two(5, 8), got: bytes.len(), quantity: "bytes" })
        }
    }

    fn len(&self) -> (r: usize) {
        match self.service_id {
            ServiceId::Analogue(_) => 5,
            ServiceId::Digital(_) => 8,
        }
    }

    fn expected_len() -> (r: Range) {
        Range::only_two(5, 8)
    }

    proof fn lemma_roundtrip(&self, rest: Seq<u8>) {
        let all = self.spec_bytes() + rest;
        lemma_head_bits();
        self.tuner_display_info.lemma_code(0);
        assert(self.tuner_display_info.code() < 0x80);
        assert(all[0] == self.head());
        assert(all.skip(1) =~= self.service_id.spec_bytes());
        match self.service_id {
            ServiceId::Analogue(a) => {
                a.lemma_roundtrip(Seq::<u8>::empty());
                assert(a.spec_bytes() + Seq::<u8>::empty() =~= a.spec_bytes());
            },
            ServiceId::Digital(d) => {
                d.lemma_roundtrip(Seq::<u8>::empty());
                assert(d.spec_bytes() + Seq::<u8>::empty() =~= d.spec_bytes());
            },
        }
    }

    proof fn lemma_parse_len(bytes: Seq<u8>) {
    }
}

/// An external source: a plug number or a physical address.
#[derive(Clone, Copy, Debug, PartialEq, Eq, Structural, Hash)]
pub enum ExternalSource {
    Plug(u8),
    PhysicalAddress(PhysicalAddress),
}

impl OperandEncodable for ExternalSource {
    open spec fn spec_bytes(&self) -> Seq<u8> {
        match self {
            ExternalSource::Plug(plug) => seq![*plug],
            ExternalSource::PhysicalAddress(pa) => pa.spec_bytes(),
        }
    }

    open spec fn spec_parse(bytes: Seq<u8>) -> Result<ExternalSource, ErrorView> {
        if bytes.len() == 1 {
            Ok(ExternalSource::Plug(bytes[0]))
        } else if bytes.len() == 2 {
            Ok(ExternalSource::PhysicalAddress(PhysicalAddress(word(bytes[0], bytes[1]))))
        } else {
            Err(bad_length(1, 2, bytes.len() as usize))
        }
    }

    open spec fn spec_wf(&self) -> bool {
        true
    }

    open spec fn spec_expected_len() -> RangeView {
        RangeView::Only(seq![1, 2])
    }

    open spec fn spec_self_delimiting() -> bool {
        false
    }

    fn to_bytes(&self, buf: &mut Vec<u8>) {
        match self {
            ExternalSource::Plug(plug) => buf.push(*plug),
            ExternalSource::PhysicalAddress(pa) => pa.to_bytes(buf),
        }
    }

    fn try_from_bytes(bytes: &[u8]) -> (r: Result<ExternalSource, Error>) {
        if bytes.len() == 1 {
            Ok(ExternalSource::Plug(bytes[0]))
        } else if bytes.len() == 2 {
            match PhysicalAddress::try_from_bytes(bytes) {
                Ok(pa) => Ok(ExternalSource::PhysicalAddress(pa)),
                Err(e) => Err(e),
            }
        } else {
            Err(Error::OutOfRange { expected: Range::only_two(1, 2), got: bytes.len(), quantity: "bytes" })
        }
    }

    fn len(&self) -> (r: usize) {
        match self {
            ExternalSource::Plug(_) => 1,
            ExternalSource::PhysicalAddress(_) => 2,
        }
    }

    fn expected_len() -> (r: Range) {
        Range::only_two(1, 2)
    }

    proof fn lemma_roundtrip(&self, rest: Seq<u8>) {
        let all = self.spec_bytes() + rest;
        assert(all =~= self.spec_bytes());
        match self {
            ExternalSource::Plug(_) => {},
            ExternalSource::PhysicalAddress(pa) => {
                lemma_word(pa.0, 0, 0);
            },
        }
    }

    proof fn lemma_parse_len(bytes: Seq<u8>) {
    }
}

/// The source of a recording: the recorder's own tuner, a digital or an
/// analogue service, or an external source.
#[derive(Clone, Copy, Debug, PartialEq, Eq, Structural, Hash)]
pub enum RecordSource {
    Own,
    DigitalService(DigitalServiceId),
    AnalogueService(AnalogueServiceId),
    External(ExternalSource),
}

impl RecordSource {
    /// The kind of the source, which its first byte encodes.
    pub open spec fn source_type(self) -> RecordSourceType {
        match self {
            RecordSource::Own => RecordSourceType::Own,
            RecordSource::DigitalService(_) => RecordSourceType::Digital,
            RecordSource::AnalogueService(_) => RecordSourceType::Analogue,
            RecordSource::External(ExternalSource::Plug(_)) => RecordSourceType::ExternalPlug,
            RecordSource::External(ExternalSource::PhysicalAddress(_)) => RecordSourceType::ExternalPhysicalAddress,
        }
    }

    /// The bytes that follow the first.
    pub open spec fn data_bytes(self) -> Seq<u8> {
        match self {
            RecordSource::Own => Seq::empty(),
            RecordSource::DigitalService(d) => d.spec_bytes(),
            RecordSource::AnalogueService(a) => a.spec_bytes(),
            RecordSource::External(x) => x.spec_bytes(),
        }
    }
}

impl OperandEncodable for RecordSource {
    open spec fn spec_bytes(&self) -> Seq<u8> {
        seq![self.source_type().code()] + self.data_bytes()
    }

    open spec fn spec_parse(bytes: Seq<u8>) -> Result<RecordSource, ErrorView> {
        match RecordSourceType::spec_parse(bytes) {
            Err(e) => Err(e),
            Ok(RecordSourceType::Own) => Ok(RecordSource::Own),
            Ok(RecordSourceType::Digital) => match parse_at::<DigitalServiceId>(bytes, 1) {
                Err(e) => Err(e),
                Ok(d) => Ok(RecordSource::DigitalService(d)),
            },
            Ok(RecordSourceType::Analogue) => match parse_at::<AnalogueServiceId>(bytes, 1) {
                Err(e) => Err(e),
                Ok(a) => Ok(RecordSource::AnalogueService(a)),
            },
            Ok(RecordSourceType::ExternalPlug) => if bytes.len() < 2 {
                Err(short_input(2, bytes.len() as usize))
            } else {
                Ok(RecordSource::External(ExternalSource::Plug(bytes[1])))
            },
            Ok(RecordSourceType::ExternalPhysicalAddress) => match parse_at::<PhysicalAddress>(bytes, 1) {
                Err(e) => Err(e),
                Ok(pa) => Ok(RecordSource::External(ExternalSource::PhysicalAddress(pa))),
            },
        }
    }

    open spec fn spec_wf(&self) -> bool {
        match self {
            RecordSource::DigitalService(d) => d.spec_wf(),
            _ => true,
        }
    }

    open spec fn spec_expected_len() -> RangeView {
        RangeView::AtLeast(1)
    }

    open spec fn spec_self_delimiting() -> bool {
        true
    }

    fn to_bytes(&self, buf: &mut Vec<u8>) {
        match self {
            RecordSource::Own => {
                buf.push(RecordSourceType::Own.to_u8());
            },
            RecordSource::DigitalService(d) => {
                buf.push(RecordSourceType::Digital.to_u8());
                d.to_bytes(buf);
            },
            RecordSource::AnalogueService(a) => {
                buf.push(RecordSourceType::Analogue.to_u8());
                a.to_bytes(buf);
            },
            RecordSource::External(x) => {
                match x {
                    ExternalSource::Plug(_) => buf.push(RecordSourceType::ExternalPlug.to_u8()),
                    ExternalSource::PhysicalAddress(_) => buf.push(
                        RecordSourceType::ExternalPhysicalAddress.to_u8(),
                    ),
                }
                x.to_bytes(buf);
            },
        }
        proof {
            assert(final(buf)@ =~= old(buf)@ + self.spec_bytes());
        }
    }

    fn try_from_bytes(bytes: &[u8]) -> (r: Result<RecordSource, Error>) {
        let source_type = match RecordSourceType::try_from_bytes(bytes) {
            Ok(t) => t,
            Err(e) => return Err(e),
        };
        match source_type {
            RecordSourceType::Own => Ok(RecordSource::Own),
            RecordSourceType::Digital => match parse_field::<DigitalServiceId>(bytes, 1) {
                Ok(d) => Ok(RecordSource::DigitalService(d)),
                Err(e) => Err(e),
            },
            RecordSourceType::Analogue => match parse_field::<AnalogueServiceId>(bytes, 1) {
                Ok(a) => Ok(RecordSource::AnalogueService(a)),
                Err(e) => Err(e),
            },
            RecordSourceType::ExternalPlug => if bytes.len() < 2 {
                Err(Error::short_input(2, bytes.len()))
            } else {
                Ok(RecordSource::External(ExternalSource::Plug(bytes[1])))
            },
            RecordSourceType::ExternalPhysicalAddress => match parse_field::<PhysicalAddress>(bytes, 1) {
                Ok(pa) => Ok(RecordSource::External(ExternalSource::PhysicalAddress(pa))),
                Err(e) => Err(e),
            },
        }
    }

    fn len(&self) -> (r: usize) {
        match self {
            RecordSource::Own => 1,
            RecordSource::DigitalService(d) => 1 + d.len(),
            RecordSource::AnalogueService(a) => 1 + a.len(),
            RecordSource::External(x) => 1 + x.len(),
        }
    }

    fn expected_len() -> (r: Range) {
        Range::AtLeast(1)
    }

    proof fn lemma_roundtrip(&self, rest: Seq<u8>) {
        let all = self.spec_bytes() + rest;
        let t = self.source_type();
        t.lemma_roundtrip(self.data_bytes() + rest);
        assert(all =~= t.spec_bytes() + (self.data_bytes() + rest));
        match self {
            RecordSource::Own => {},
            RecordSource::DigitalService(d) => {
                crate::codec::lemma_parse_at_encoding(t.spec_bytes(), *d, rest);
            },
            RecordSource::AnalogueService(a) => {
                crate::codec::lemma_parse_at_encoding(t.spec_bytes(), *a, rest);
            },
            RecordSource::External(ExternalSource::Plug(p)) => {
                assert(all[1] == *p);
            },
            RecordSource::External(ExternalSource::PhysicalAddress(pa)) => {
                crate::codec::lemma_parse_at_encoding(t.spec_bytes(), *pa, rest);
            },
        }
    }

    proof fn lemma_parse_len(bytes: Seq<u8>) {
        match RecordSourceType::spec_parse(bytes) {
            Ok(RecordSourceType::Digital) => {
                DigitalServiceId::lemma_parse_len(bytes.subrange(1, bytes.len() as int));
            },
            Ok(RecordSourceType::Analogue) => {
                AnalogueServiceId::lemma_parse_len(bytes.subrange(1, bytes.len() as int));
            },
            Ok(RecordSourceType::ExternalPhysicalAddress) => {
                PhysicalAddress::lemma_parse_len(bytes.subrange(1, bytes.len() as int));
            },
            _ => {},
        }
    }
}

} // verus!
