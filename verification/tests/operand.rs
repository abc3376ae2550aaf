use linux_cec::address::PhysicalAddress;
use linux_cec::codec::OperandEncodable;
use linux_cec::operand::bitfield::{
    AudioFormatId, AudioFormatIdAndCode, AudioOutputCompensated, AudioStatus, LatencyFlags,
};
use linux_cec::operand::buffer::BoundedBufferOperand;
use linux_cec::operand::codes::{
    AnalogueBroadcastType, BroadcastSystem, DigitalServiceBroadcastSystem, MediaInfo, RcProfileId,
    RecordSourceType, TunerDisplayInfo,
};
use linux_cec::operand::features::{RcProfile, RcProfile1};
use linux_cec::operand::flags::RcProfileSource;
use linux_cec::operand::scalar::{BcdByte, Delay, DurationHours, Hour, Minute, VendorId};
use linux_cec::operand::service::{
    AnalogueServiceId, AribData, AtscData, ChannelId, DigitalServiceId, Duration, DvbData,
    ExternalSource, RecordSource, ServiceId, Time, TunerDeviceInfo,
};
use linux_cec::operand::timer::{
    NotProgrammedErrorInfo, ProgrammedInfo, TimerProgrammedInfo, TimerStatusData,
};
use linux_cec::{Error, Range};
use std::str::FromStr;

fn short(expected: usize, got: usize) -> Error {
    Error::OutOfRange { expected: Range::AtLeast(expected), got, quantity: "bytes" }
}

fn interval(min: usize, max: usize, got: usize, quantity: &'static str) -> Error {
    Error::OutOfRange { expected: Range::Interval { min, max }, got, quantity }
}

fn invalid(ty: &'static str, value: &str) -> Error {
    Error::InvalidValueForType { ty, value: String::from(value) }
}

/// Encodes `instance`, compares with `bytes`, decodes `bytes` back and
/// checks the length.
fn exact_roundtrip<T: OperandEncodable + PartialEq + std::fmt::Debug>(instance: &T, bytes: &[u8]) {
    let mut buf = Vec::new();
    instance.to_bytes(&mut buf);
    assert_eq!(&buf, bytes);
    assert_eq!(T::try_from_bytes(bytes).as_ref(), Ok(instance));
    assert_eq!(instance.len(), bytes.len());
}

/// As `exact_roundtrip`, and a trailing junk byte is ignored on decoding.
fn roundtrip<T: OperandEncodable + PartialEq + std::fmt::Debug>(instance: T, bytes: &[u8]) {
    exact_roundtrip(&instance, bytes);
    let mut overfull = bytes.to_vec();
    overfull.push(0xFF);
    assert_eq!(T::try_from_bytes(&overfull).as_ref(), Ok(&instance));
}

#[test]
fn test_decode_out_of_range() {
    assert_eq!(Delay::try_from_bytes(&[0]), Err(interval(1, 251, 0, "value")));
    assert_eq!(Delay::try_from_bytes(&[252]), Err(interval(1, 251, 252, "value")));
}

#[test]
fn operand_test_decode_empty() {
    assert_eq!(Delay::try_from_bytes(&[]), Err(short(1, 0)));
    assert_eq!(<u8 as OperandEncodable>::try_from_bytes(&[]), Err(short(1, 0)));
    assert_eq!(<[u8; 1] as OperandEncodable>::try_from_bytes(&[]), Err(short(1, 0)));
    assert_eq!(<u16 as OperandEncodable>::try_from_bytes(&[]), Err(short(2, 0)));
    assert_eq!(<bool as OperandEncodable>::try_from_bytes(&[]), Err(short(1, 0)));
    assert_eq!(DigitalServiceId::try_from_bytes(&[]), Err(short(7, 0)));
    assert_eq!(AudioFormatIdAndCode::try_from_bytes(&[]), Err(short(1, 0)));
    assert_eq!(AudioStatus::try_from_bytes(&[]), Err(short(1, 0)));
    assert_eq!(BcdByte::<0, 99>::try_from_bytes(&[]), Err(short(1, 0)));
    assert_eq!(AribData::try_from_bytes(&[]), Err(short(6, 0)));
    assert_eq!(AtscData::try_from_bytes(&[]), Err(short(6, 0)));
    assert_eq!(ChannelId::try_from_bytes(&[]), Err(short(4, 0)));
    assert_eq!(DvbData::try_from_bytes(&[]), Err(short(6, 0)));
    assert_eq!(LatencyFlags::try_from_bytes(&[]), Err(short(1, 0)));
    assert_eq!(TimerStatusData::try_from_bytes(&[]), Err(short(1, 0)));
    assert_eq!(
        TunerDeviceInfo::try_from_bytes(&[]),
        Err(Error::OutOfRange { got: 0, expected: Range::only_two(5, 8), quantity: "bytes" })
    );
    assert_eq!(
        ExternalSource::try_from_bytes(&[]),
        Err(Error::OutOfRange { got: 0, expected: Range::only_two(1, 2), quantity: "bytes" })
    );
}

#[test]
fn test_decode_missing_bytes() {
    assert_eq!(<[u8; 3] as OperandEncodable>::try_from_bytes(&[0x12]), Err(short(3, 1)));
}

#[test]
fn test_decode_underfull() {
    assert_eq!(<u16 as OperandEncodable>::try_from_bytes(&[0x56]), Err(short(2, 1)));
}

#[test]
fn test_decode_nb() {
    assert_eq!(<bool as OperandEncodable>::try_from_bytes(&[0x02]), Ok(true));
}

#[test]
fn test_encode_underfull_with_junk() {
    let mut buf = Vec::new();
    BoundedBufferOperand::<2, u8> { buffer: [0x12, 0x34], len: 1 }.to_bytes(&mut buf);
    assert_eq!(&buf, &[0x12]);
}

#[test]
fn operand_test_decode_overfull() {
    assert_eq!(
        BoundedBufferOperand::<2, u8>::try_from_bytes(&[0x12, 0x34, 0x56]).unwrap(),
        BoundedBufferOperand::<2, u8> { buffer: [0x12, 0x34], len: 2 }
    );
    assert_eq!(
        TunerDeviceInfo::try_from_bytes(&[0x01, 0x23, 0x45, 0x67, 0x89, 0xAB, 0xCD, 0xEF, 0x01]),
        Err(Error::OutOfRange { got: 9, expected: Range::only_two(5, 8), quantity: "bytes" })
    );
    assert_eq!(
        ExternalSource::try_from_bytes(&[0x12, 0x34, 0x56]),
        Err(Error::OutOfRange { got: 3, expected: Range::only_two(1, 2), quantity: "bytes" })
    );
}

#[test]
fn test_decode_u16_misaligned() {
    assert_eq!(
        BoundedBufferOperand::<2, u16>::try_from_bytes(&[0x12, 0x34, 0x56]).unwrap(),
        BoundedBufferOperand::<2, u16> { buffer: [0x1234, 0], len: 1 }
    );
}

#[test]
fn test_from_string_fit() {
    let s = "abc";
    let buffer = BoundedBufferOperand::<3, u8>::from_str(s).unwrap();
    assert_eq!(buffer.len, 3);
    assert_eq!(&buffer.buffer, s.as_bytes());
}

#[test]
fn test_from_string_underfull() {
    let s = "abc";
    let buffer = BoundedBufferOperand::<4, u8>::from_str(s).unwrap();
    assert_eq!(buffer.len, 3);
    assert_ne!(&buffer.buffer, s.as_bytes());
    assert_eq!(&buffer.buffer, &[b'a', b'b', b'c', 0]);
}

#[test]
fn test_from_string_overfull() {
    assert_eq!(
        BoundedBufferOperand::<2, u8>::from_str("abc"),
        Err(Error::OutOfRange { expected: Range::AtMost(2), got: 3, quantity: "bytes" })
    );
}

#[test]
fn test_from_string_overfull_utf8() {
    assert_eq!(
        BoundedBufferOperand::<2, u8>::from_str("\u{1F4A9}"),
        Err(Error::OutOfRange { expected: Range::AtMost(2), got: 4, quantity: "bytes" })
    );
}

fn terrestrial() -> u8 {
    u8::from(AnalogueBroadcastType::Terrestrial)
}

#[test]
fn test_decode_missing_opcodes_1() {
    assert_eq!(
        AnalogueServiceId::try_from_bytes(&[terrestrial(), 0x12, 0x34]),
        Err(short(4, 3))
    );
}

#[test]
fn test_decode_missing_opcodes_1_and_byte() {
    assert_eq!(AnalogueServiceId::try_from_bytes(&[terrestrial(), 0x12]), Err(short(4, 2)));
}

#[test]
fn test_decode_missing_opcodes_2() {
    assert_eq!(AnalogueServiceId::try_from_bytes(&[terrestrial()]), Err(short(4, 1)));
}

#[test]
fn test_decode_missing_opcodes_3() {
    assert_eq!(AnalogueServiceId::try_from_bytes(&[]), Err(short(4, 0)));
}

#[test]
fn test_create_range() {
    assert_eq!(BcdByte::<10, 20>::try_from(0), Err(interval(10, 20, 0, "value")));
    assert_eq!(BcdByte::<10, 20>::try_from(9), Err(interval(10, 20, 9, "value")));
    assert!(BcdByte::<10, 20>::try_from(10).is_ok());
    assert!(BcdByte::<10, 20>::try_from(20).is_ok());
    assert_eq!(BcdByte::<10, 20>::try_from(21), Err(interval(10, 20, 21, "value")));
    assert_eq!(BcdByte::<10, 20>::try_from(30), Err(interval(10, 20, 30, "value")));
}

#[test]
fn test_decode_range() {
    assert_eq!(BcdByte::<10, 20>::try_from_bytes(&[0]), Err(interval(10, 20, 0, "value")));
    assert_eq!(BcdByte::<10, 20>::try_from_bytes(&[9]), Err(interval(10, 20, 9, "value")));
    assert_eq!(BcdByte::<10, 20>::try_from_bytes(&[0xA]), Err(interval(0, 9, 10, "low bits")));
    assert_eq!(BcdByte::<10, 20>::try_from_bytes(&[0xA0]), Err(interval(0, 9, 10, "high bits")));
    assert!(BcdByte::<10, 20>::try_from_bytes(&[0x10]).is_ok());
    assert!(BcdByte::<10, 20>::try_from_bytes(&[0x20]).is_ok());
    assert_eq!(BcdByte::<10, 20>::try_from_bytes(&[0x21]), Err(interval(10, 20, 21, "value")));
    assert_eq!(BcdByte::<10, 20>::try_from_bytes(&[0x30]), Err(interval(10, 20, 30, "value")));
}

#[test]
fn test_decode_junk() {
    assert_eq!(
        AtscData::try_from_bytes(&[0x12, 0x34, 0x56, 0x78, 0xAB, 0xCD]),
        Err(Error::InvalidData)
    );
}

#[test]
fn test_decode_invalid_format() {
    assert_eq!(
        ChannelId::try_from_bytes(&[0x00, 0x00, 0x12, 0x34]),
        Err(invalid("ChannelNumberFormat", "0"))
    );
}

#[test]
fn operand_test_invalid_minute() {
    assert_eq!(Duration::try_from_bytes(&[0x04, 0x69]), Err(interval(0, 59, 69, "value")));
    assert_eq!(Time::try_from_bytes(&[0x04, 0x69]), Err(interval(0, 59, 69, "value")));
}

#[test]
fn operand_test_invalid_bcd_hour() {
    assert_eq!(Duration::try_from_bytes(&[0x0A, 0x20]), Err(interval(0, 9, 10, "low bits")));
    assert_eq!(Time::try_from_bytes(&[0x0A, 0x20]), Err(interval(0, 9, 10, "low bits")));
}

#[test]
fn operand_test_invalid_bcd_minute() {
    assert_eq!(Duration::try_from_bytes(&[0x04, 0x1A]), Err(interval(0, 9, 10, "low bits")));
    assert_eq!(Time::try_from_bytes(&[0x04, 0x1A]), Err(interval(0, 9, 10, "low bits")));
}

#[test]
fn test_invalid_hour() {
    assert_eq!(Time::try_from_bytes(&[0x24, 0x30]), Err(interval(0, 23, 24, "value")));
}

#[test]
fn test_rc_profile_1_tv() {
    assert_eq!(RcProfile1::try_from(0x02), Ok(RcProfile1::Tv { id: RcProfileId::Profile1 }));
}

#[test]
fn test_rc_profile_1_source() {
    assert_eq!(RcProfile1::try_from(0x5F), Ok(RcProfile1::Source(RcProfileSource::all())));
}

#[test]
fn test_decode_reserved_not_programmed_error_info() {
    assert_eq!(
        TimerStatusData::try_from_bytes(&[0x00]),
        Err(invalid("NotProgrammedErrorInfo", "0"))
    );
}

#[test]
fn test_decode_reserved_programmed_info() {
    assert_eq!(TimerStatusData::try_from_bytes(&[0x10]), Err(invalid("ProgrammedInfo", "0")));
}

#[test]
fn test_decode_reserved_media_info() {
    assert_eq!(TimerStatusData::try_from_bytes(&[0x60]), Err(invalid("MediaInfo", "3")));
}

#[test]
fn test_decode_midrange_6() {
    assert_eq!(
        TunerDeviceInfo::try_from_bytes(&[0x01, 0x23, 0x45, 0x67, 0x89, 0xAB]),
        Err(Error::OutOfRange { got: 6, expected: Range::only_two(5, 8), quantity: "bytes" })
    );
}

#[test]
fn test_decode_midrange_7() {
    assert_eq!(
        TunerDeviceInfo::try_from_bytes(&[0x01, 0x23, 0x45, 0x67, 0x89, 0xAB, 0xCD]),
        Err(Error::OutOfRange { got: 7, expected: Range::only_two(5, 8), quantity: "bytes" })
    );
}

#[test]
fn test_decode_invalid_tuner_display_info() {
    assert_eq!(
        TunerDeviceInfo::try_from_bytes(&[0x09, 0x23, 0x45, 0x67, 0x89, 0xAB, 0xCD, 0xEF]),
        Err(invalid("TunerDisplayInfo", "9"))
    );
}

fn digital() -> u8 {
    u8::from(RecordSourceType::Digital)
}

fn arib_generic() -> u8 {
    u8::from(DigitalServiceBroadcastSystem::AribGeneric)
}

#[test]
fn test_digital_decoding_missing_bytes_1() {
    assert_eq!(
        RecordSource::try_from_bytes(&[digital(), arib_generic(), 0x12, 0x34, 0x56, 0x78, 0x9A]),
        Err(short(8, 7))
    );
}

#[test]
fn test_digital_decoding_missing_bytes_2() {
    assert_eq!(
        RecordSource::try_from_bytes(&[digital(), arib_generic(), 0x12, 0x34, 0x56, 0x78]),
        Err(short(8, 6))
    );
}

#[test]
fn test_digital_decoding_missing_bytes_3() {
    assert_eq!(
        RecordSource::try_from_bytes(&[digital(), arib_generic(), 0x12, 0x34, 0x56]),
        Err(short(8, 5))
    );
}

#[test]
fn test_digital_decoding_missing_bytes_4() {
    assert_eq!(
        RecordSource::try_from_bytes(&[digital(), arib_generic(), 0x12, 0x34]),
        Err(short(8, 4))
    );
}

#[test]
fn test_digital_decoding_missing_bytes_5() {
    assert_eq!(
        RecordSource::try_from_bytes(&[digital(), arib_generic(), 0x12]),
        Err(short(8, 3))
    );
}

#[test]
fn test_digital_decoding_missing_operand_1() {
    assert_eq!(RecordSource::try_from_bytes(&[digital(), arib_generic()]), Err(short(8, 2)));
}

#[test]
fn test_digital_decoding_missing_operand_2() {
    assert_eq!(RecordSource::try_from_bytes(&[digital()]), Err(short(8, 1)));
}

fn analogue() -> u8 {
    u8::from(RecordSourceType::Analogue)
}

fn satellite() -> u8 {
    u8::from(AnalogueBroadcastType::Satellite)
}

#[test]
fn test_analogue_decoding_missing_operands_1() {
    assert_eq!(
        RecordSource::try_from_bytes(&[analogue(), satellite(), 0x12, 0x34]),
        Err(short(5, 4))
    );
}

#[test]
fn test_analogue_decoding_missing_operands_1_and_byte() {
    assert_eq!(RecordSource::try_from_bytes(&[analogue(), satellite(), 0x12]), Err(short(5, 3)));
}

#[test]
fn test_analogue_decoding_missing_operands_2() {
    assert_eq!(RecordSource::try_from_bytes(&[analogue(), satellite()]), Err(short(5, 2)));
}

#[test]
fn test_analogue_decoding_missing_operands_3() {
    assert_eq!(RecordSource::try_from_bytes(&[analogue()]), Err(short(5, 1)));
}

#[test]
fn test_external_plug_decoding_missing_operand() {
    assert_eq!(
        RecordSource::try_from_bytes(&[u8::from(RecordSourceType::ExternalPlug)]),
        Err(short(2, 1))
    );
}

#[test]
fn test_external_phys_addr_decoding_missing_byte() {
    assert_eq!(
        RecordSource::try_from_bytes(&[u8::from(RecordSourceType::ExternalPhysicalAddress), 0x12]),
        Err(short(3, 2))
    );
}

#[test]
fn test_external_phys_addr_decoding_missing_operand() {
    assert_eq!(
        RecordSource::try_from_bytes(&[u8::from(RecordSourceType::ExternalPhysicalAddress)]),
        Err(short(3, 1))
    );
}

#[test]
fn test_decoding_invalid_operand() {
    assert_eq!(RecordSource::try_from_bytes(&[0xFE]), Err(invalid("RecordSourceType", "254")));
}

#[test]
fn test_roundtrip_scalars() {
    roundtrip(Delay(1), &[1]);
    roundtrip(Delay(251), &[251]);
    roundtrip(0x56u8, &[0x56]);
    exact_roundtrip(&None::<u8>, &[]);
    roundtrip(0x5678u16, &[0x56, 0x78]);
    roundtrip(true, &[0x01]);
    roundtrip(false, &[0x00]);
    roundtrip([0x56u8, 0x78, 0x9A], &[0x56, 0x78, 0x9A]);
    roundtrip(Some(0x56u8), &[0x56]);
    roundtrip(BcdByte::<0, 99>::try_from(12).unwrap(), &[0x12]);
    roundtrip(VendorId([0x00, 0x0C, 0x03]), &[0x00, 0x0C, 0x03]);
    roundtrip(PhysicalAddress(0x1234), &[0x12, 0x34]);
}

#[test]
fn test_decode_none_option() {
    assert_eq!(<Option<u8> as OperandEncodable>::try_from_bytes(&[]), Ok(None));
    assert_eq!(None::<u8>.len(), 0);
}

#[test]
fn test_roundtrip_bitfields() {
    roundtrip(AudioFormatIdAndCode::new().with_code(0x05).with_id(AudioFormatId::CEA861Cxt), &[0x45]);
    roundtrip(AudioStatus::new().with_volume(0x09).with_mute(true), &[0x89]);
    roundtrip(
        LatencyFlags::new()
            .with_audio_out_compensated(AudioOutputCompensated::PartialDelay)
            .with_low_latency_mode(true),
        &[0x07],
    );
}

#[test]
fn test_roundtrip_services() {
    let analogue_service = AnalogueServiceId {
        broadcast_type: AnalogueBroadcastType::Terrestrial,
        frequency: 0x1234,
        broadcast_system: BroadcastSystem::PalBG,
    };
    roundtrip(
        analogue_service,
        &[terrestrial(), 0x12, 0x34, u8::from(BroadcastSystem::PalBG)],
    );
    roundtrip(
        AribData { transport_stream_id: 0x1234, service_id: 0x5678, original_network_id: 0xABCD },
        &[0x12, 0x34, 0x56, 0x78, 0xAB, 0xCD],
    );
    roundtrip(
        AtscData { transport_stream_id: 0x1234, program_number: 0x5678 },
        &[0x12, 0x34, 0x56, 0x78, 0x00, 0x00],
    );
    roundtrip(ChannelId::OnePart(0x1234), &[0x04, 0x00, 0x12, 0x34]);
    roundtrip(ChannelId::TwoPart(0x0123, 0x4567), &[0x09, 0x23, 0x45, 0x67]);
    let dvb = DvbData { transport_stream_id: 0x1234, service_id: 0x5678, original_network_id: 0xABCD };
    roundtrip(dvb, &[0x12, 0x34, 0x56, 0x78, 0xAB, 0xCD]);
    roundtrip(
        DigitalServiceId::DvbGeneric(dvb),
        &[u8::from(DigitalServiceBroadcastSystem::DvbGeneric), 0x12, 0x34, 0x56, 0x78, 0xAB, 0xCD],
    );
    exact_roundtrip(
        &TunerDeviceInfo {
            recording: true,
            tuner_display_info: TunerDisplayInfo::Analogue,
            service_id: ServiceId::Analogue(analogue_service),
        },
        &[0x82, terrestrial(), 0x12, 0x34, u8::from(BroadcastSystem::PalBG)],
    );
    exact_roundtrip(
        &TunerDeviceInfo {
            recording: true,
            tuner_display_info: TunerDisplayInfo::Analogue,
            service_id: ServiceId::Digital(DigitalServiceId::DvbGeneric(dvb)),
        },
        &[0x82, u8::from(DigitalServiceBroadcastSystem::DvbGeneric), 0x12, 0x34, 0x56, 0x78, 0xAB, 0xCD],
    );
    exact_roundtrip(&ExternalSource::Plug(0x56), &[0x56]);
    exact_roundtrip(&ExternalSource::PhysicalAddress(PhysicalAddress(0x5678)), &[0x56, 0x78]);
    exact_roundtrip(
        &RecordSource::External(ExternalSource::PhysicalAddress(PhysicalAddress(0x1234))),
        &[u8::from(RecordSourceType::ExternalPhysicalAddress), 0x12, 0x34],
    );
    exact_roundtrip(&RecordSource::Own, &[u8::from(RecordSourceType::Own)]);
}

#[test]
fn test_roundtrip_times() {
    roundtrip(
        Duration {
            hours: DurationHours::try_from(99u8).unwrap(),
            minutes: Minute::try_from(20u8).unwrap(),
        },
        &[0x99, 0x20],
    );
    roundtrip(
        Time { hour: Hour::try_from(4u8).unwrap(), minute: Minute::try_from(20u8).unwrap() },
        &[0x04, 0x20],
    );
    roundtrip(
        TimerStatusData {
            overlap_warning: false,
            media_info: MediaInfo::UnprotectedMedia,
            programmed_info: TimerProgrammedInfo::Programmed(ProgrammedInfo::EnoughSpace),
        },
        &[0x18],
    );
    roundtrip(
        TimerStatusData {
            overlap_warning: true,
            media_info: MediaInfo::ProtectedMedia,
            programmed_info: TimerProgrammedInfo::NotProgrammed(NotProgrammedErrorInfo::Duplicate {
                duration_available: Some(Duration {
                    hours: DurationHours::try_from(23u8).unwrap(),
                    minutes: Minute::try_from(59u8).unwrap(),
                }),
            }),
        },
        &[0xAE, 0x23, 0x59],
    );
}

#[test]
fn test_roundtrip_rc_profile() {
    roundtrip(RcProfile::new(RcProfile1::Tv { id: RcProfileId::Profile1 }), &[0x02]);
    roundtrip(
        RcProfile::new(RcProfile1::Source(RcProfileSource::HAS_DEV_ROOT_MENU())),
        &[0x40 | RcProfileSource::HAS_DEV_ROOT_MENU().bits()],
    );
    roundtrip(
        RcProfile {
            rc_profile_1: RcProfile1::Tv { id: RcProfileId::Profile1 },
            rc_profile_n: BoundedBufferOperand::try_from_bytes(&[0x40]).unwrap(),
        },
        &[0x82, 0x40],
    );
}

#[test]
fn test_vendor_id_text() {
    assert_eq!(VendorId::from_str("00-0c-03"), Ok(VendorId([0x00, 0x0C, 0x03])));
    assert_eq!(VendorId::from_str("AB-cd-Ef"), Ok(VendorId([0xAB, 0xCD, 0xEF])));
    assert_eq!(VendorId::from_str("+1-02-03"), Ok(VendorId([0x01, 0x02, 0x03])));
    assert_eq!(VendorId::from_str("00-0c"), Err(Error::InvalidData));
    assert_eq!(VendorId::from_str("00-0c-03-04"), Err(Error::InvalidData));
    assert_eq!(VendorId::from_str("000-c-03"), Err(Error::InvalidData));
    assert_eq!(VendorId::from_str("0g-0c-03"), Err(Error::InvalidData));
    assert_eq!(VendorId([0x00, 0x0C, 0x03]).to_string(), "00-0c-03");
    assert_eq!(VendorId([0xAB, 0xCD, 0xEF]).to_string(), "ab-cd-ef");
    let v = VendorId([0x12, 0x9A, 0xF0]);
    assert_eq!(VendorId::from_str(&v.to_string()), Ok(v));
}

#[test]
fn test_delay_try_from() {
    assert_eq!(Delay::try_from(1), Ok(Delay(1)));
    assert_eq!(Delay::try_from(0), Err(interval(1, 251, 0, "value")));
    assert!(Delay(251).is_valid());
    assert!(!Delay(252).is_valid());
}
