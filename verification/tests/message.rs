use linux_cec::message::{Message, Opcode};
use linux_cec::{Error, Range};

#[test]
fn message_test_decoding_missing_operand() {
    assert_eq!(
        Message::try_from_bytes(&[u8::from(Opcode::ActiveSource)]),
        Err(Error::OutOfRange {
            expected: Range::AtLeast(3),
            got: 1,
            quantity: "bytes",
        })
    );
    assert_eq!(
        Message::try_from_bytes(&[u8::from(Opcode::InactiveSource)]),
        Err(Error::OutOfRange {
            expected: Range::AtLeast(3),
            got: 1,
            quantity: "bytes",
        })
    );
    assert_eq!(
        Message::try_from_bytes(&[u8::from(Opcode::RoutingChange), 0x12, 0x34]),
        Err(Error::OutOfRange {
            expected: Range::AtLeast(5),
            got: 3,
            quantity: "bytes",
        })
    );
    assert_eq!(
        Message::try_from_bytes(&[u8::from(Opcode::RoutingInformation)]),
        Err(Error::OutOfRange {
            expected: Range::AtLeast(3),
            got: 1,
            quantity: "bytes",
        })
    );
    assert_eq!(
        Message::try_from_bytes(&[u8::from(Opcode::SetStreamPath)]),
        Err(Error::OutOfRange {
            expected: Range::AtLeast(3),
            got: 1,
            quantity: "bytes",
        })
    );
    assert_eq!(
        Message::try_from_bytes(&[u8::from(Opcode::TimerClearedStatus)]),
        Err(Error::OutOfRange {
            expected: Range::AtLeast(2),
            got: 1,
            quantity: "bytes",
        })
    );
    assert_eq!(
        Message::try_from_bytes(&[u8::from(Opcode::TimerStatus)]),
        Err(Error::OutOfRange {
            expected: Range::AtLeast(2),
            got: 1,
            quantity: "bytes",
        })
    );
    assert_eq!(
        Message::try_from_bytes(&[u8::from(Opcode::CecVersion)]),
        Err(Error::OutOfRange {
            expected: Range::AtLeast(2),
            got: 1,
            quantity: "bytes",
        })
    );
    assert_eq!(
        Message::try_from_bytes(&[u8::from(Opcode::ReportPhysicalAddr), 0x12, 0x34]),
        Err(Error::OutOfRange {
            expected: Range::AtLeast(4),
            got: 3,
            quantity: "bytes",
        })
    );
    assert_eq!(
        Message::try_from_bytes(&[u8::from(Opcode::SetMenuLanguage)]),
        Err(Error::OutOfRange {
            expected: Range::AtLeast(4),
            got: 1,
            quantity: "bytes",
        })
    );
    assert_eq!(
        Message::try_from_bytes(&[u8::from(Opcode::DeckControl)]),
        Err(Error::OutOfRange {
            expected: Range::AtLeast(2),
            got: 1,
            quantity: "bytes",
        })
    );
    assert_eq!(
        Message::try_from_bytes(&[u8::from(Opcode::DeckStatus)]),
        Err(Error::OutOfRange {
            expected: Range::AtLeast(2),
            got: 1,
            quantity: "bytes",
        })
    );
    assert_eq!(
        Message::try_from_bytes(&[u8::from(Opcode::GiveDeckStatus)]),
        Err(Error::OutOfRange {
            expected: Range::AtLeast(2),
            got: 1,
            quantity: "bytes",
        })
    );
    assert_eq!(
        Message::try_from_bytes(&[u8::from(Opcode::Play)]),
        Err(Error::OutOfRange {
            expected: Range::AtLeast(2),
            got: 1,
            quantity: "bytes",
        })
    );
    assert_eq!(
        Message::try_from_bytes(&[u8::from(Opcode::GiveTunerDeviceStatus)]),
        Err(Error::OutOfRange {
            expected: Range::AtLeast(2),
            got: 1,
            quantity: "bytes",
        })
    );
}

#[test]
fn message_test_decoding_missing_byte() {
    assert_eq!(
        Message::try_from_bytes(&[u8::from(Opcode::ActiveSource), 0x12]),
        Err(Error::OutOfRange {
            expected: Range::AtLeast(3),
            got: 2,
            quantity: "bytes",
        })
    );
    assert_eq!(
        Message::try_from_bytes(&[u8::from(Opcode::InactiveSource), 0x12]),
        Err(Error::OutOfRange {
            expected: Range::AtLeast(3),
            got: 2,
            quantity: "bytes",
        })
    );
    assert_eq!(
        Message::try_from_bytes(&[u8::from(Opcode::RoutingChange), 0x12, 0x34, 0x56]),
        Err(Error::OutOfRange {
            expected: Range::AtLeast(5),
            got: 4,
            quantity: "bytes",
        })
    );
    assert_eq!(
        Message::try_from_bytes(&[u8::from(Opcode::RoutingInformation), 0x12]),
        Err(Error::OutOfRange {
            expected: Range::AtLeast(3),
            got: 2,
            quantity: "bytes",
        })
    );
    assert_eq!(
        Message::try_from_bytes(&[u8::from(Opcode::SetStreamPath), 0x12]),
        Err(Error::OutOfRange {
            expected: Range::AtLeast(3),
            got: 2,
            quantity: "bytes",
        })
    );
    assert_eq!(
        Message::try_from_bytes(&[u8::from(Opcode::SetMenuLanguage), 0x12, 0x34]),
        Err(Error::OutOfRange {
            expected: Range::AtLeast(4),
            got: 3,
            quantity: "bytes",
        })
    );
}

#[test]
fn message_test_decoding_missing_operand_and_byte() {
    assert_eq!(
        Message::try_from_bytes(&[u8::from(Opcode::RoutingChange), 0x12]),
        Err(Error::OutOfRange {
            expected: Range::AtLeast(3),
            got: 2,
            quantity: "bytes",
        })
    );
    assert_eq!(
        Message::try_from_bytes(&[u8::from(Opcode::ReportPhysicalAddr), 0x12]),
        Err(Error::OutOfRange {
            expected: Range::AtLeast(3),
            got: 2,
            quantity: "bytes",
        })
    );
}

#[test]
fn message_test_decoding_missing_operands() {
    assert_eq!(
        Message::try_from_bytes(&[u8::from(Opcode::RoutingChange)]),
        Err(Error::OutOfRange {
            expected: Range::AtLeast(3),
            got: 1,
            quantity: "bytes",
        })
    );
    assert_eq!(
        Message::try_from_bytes(&[u8::from(Opcode::ReportPhysicalAddr)]),
        Err(Error::OutOfRange {
            expected: Range::AtLeast(3),
            got: 1,
            quantity: "bytes",
        })
    );
}

#[test]
fn test_decode_all_missing() {
    assert_eq!(
        Message::try_from_bytes(&[u8::from(Opcode::RecordOn)]),
        Err(Error::OutOfRange {
            expected: Range::AtLeast(2),
            got: 1,
            quantity: "bytes",
        })
    );
}

#[test]
fn test_decode_missing_operand() {
    assert_eq!(
        Message::try_from_bytes(&[u8::from(Opcode::RecordStatus)]),
        Err(Error::OutOfRange {
            expected: Range::AtLeast(2),
            got: 1,
            quantity: "bytes"
        })
    );
}

#[test]
fn test_decode_invalid_operand() {
    assert_eq!(
        Message::try_from_bytes(&[u8::from(Opcode::RecordStatus), 0xFE]),
        Err(Error::InvalidValueForType {
            ty: "RecordStatusInfo",
            value: String::from("254"),
        })
    );
}

#[test]
fn test_decoding_missing_bytes() {
    assert_eq!(
        Message::try_from_bytes(&[u8::from(Opcode::SetMenuLanguage), 0x12]),
        Err(Error::OutOfRange {
            expected: Range::AtLeast(4),
            got: 2,
            quantity: "bytes",
        })
    );
}
