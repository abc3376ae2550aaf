use linux_cec::cdc::{HecField, HecState, HpdStateErrorCode, InputPortHpdState, Message, Opcode};
use linux_cec::codec::OperandEncodable;
use linux_cec::{Error, Range};

#[test]
fn cdc_test_decode_empty() {
    assert_eq!(
        HecState::try_from_bytes(&[]),
        Err(Error::OutOfRange {
            got: 0,
            expected: Range::AtLeast(1),
            quantity: "bytes"
        })
    );
    assert_eq!(
        InputPortHpdState::try_from_bytes(&[]),
        Err(Error::OutOfRange {
            got: 0,
            expected: Range::AtLeast(1),
            quantity: "bytes"
        })
    );
    assert_eq!(
        HpdStateErrorCode::try_from_bytes(&[]),
        Err(Error::OutOfRange {
            got: 0,
            expected: Range::AtLeast(1),
            quantity: "bytes"
        })
    );
    assert_eq!(
        HecField::try_from_bytes(&[]),
        Err(Error::OutOfRange {
            got: 0,
            expected: Range::AtLeast(2),
            quantity: "bytes"
        })
    );
}

#[test]
fn cdc_test_decoding_missing_byte() {
    assert_eq!(
        Message::try_from_bytes(&[u8::from(Opcode::HecInquireState), 0x12, 0x34, 0x56]),
        Err(Error::OutOfRange {
            expected: Range::AtLeast(5),
            got: 4,
            quantity: "bytes",
        })
    );
    assert_eq!(
        Message::try_from_bytes(&[u8::from(Opcode::HecReportState), 0x12, 0x34, 0xE4, 0x4C]),
        Err(Error::OutOfRange {
            expected: Range::AtLeast(6),
            got: 5,
            quantity: "bytes",
        })
    );
    assert_eq!(
        Message::try_from_bytes(&[
            u8::from(Opcode::HecRequestDeactivation),
            0x12,
            0x34,
            0x56,
            0x78,
            0x9A
        ]),
        Err(Error::OutOfRange {
            expected: Range::AtLeast(7),
            got: 6,
            quantity: "bytes",
        })
    );
}

#[test]
fn cdc_test_decoding_missing_operand() {
    assert_eq!(
        Message::try_from_bytes(&[u8::from(Opcode::HecInquireState), 0x12, 0x34]),
        Err(Error::OutOfRange {
            expected: Range::AtLeast(5),
            got: 3,
            quantity: "bytes",
        })
    );
    assert_eq!(
        Message::try_from_bytes(&[u8::from(Opcode::HecReportState), 0x12, 0x34]),
        Err(Error::OutOfRange {
            expected: Range::AtLeast(4),
            got: 3,
            quantity: "bytes",
        })
    );
    assert_eq!(
        Message::try_from_bytes(&[u8::from(Opcode::HecSetStateAdjacent), 0x12, 0x34]),
        Err(Error::OutOfRange {
            expected: Range::AtLeast(4),
            got: 3,
            quantity: "bytes",
        })
    );
}

#[test]
fn cdc_test_decoding_missing_operand_and_byte() {
    assert_eq!(
        Message::try_from_bytes(&[u8::from(Opcode::HecInquireState), 0x12]),
        Err(Error::OutOfRange {
            expected: Range::AtLeast(5),
            got: 2,
            quantity: "bytes",
        })
    );
    assert_eq!(
        Message::try_from_bytes(&[u8::from(Opcode::HecReportState), 0x12]),
        Err(Error::OutOfRange {
            expected: Range::AtLeast(4),
            got: 2,
            quantity: "bytes",
        })
    );
    assert_eq!(
        Message::try_from_bytes(&[u8::from(Opcode::HecSetStateAdjacent), 0x12]),
        Err(Error::OutOfRange {
            expected: Range::AtLeast(4),
            got: 2,
            quantity: "bytes",
        })
    );
}

#[test]
fn cdc_test_decoding_missing_operands() {
    assert_eq!(
        Message::try_from_bytes(&[u8::from(Opcode::HecReportState)]),
        Err(Error::OutOfRange {
            expected: Range::AtLeast(4),
            got: 1,
            quantity: "bytes",
        })
    );
    assert_eq!(
        Message::try_from_bytes(&[u8::from(Opcode::HecSetState)]),
        Err(Error::OutOfRange {
            expected: Range::AtLeast(6),
            got: 1,
            quantity: "bytes",
        })
    );
}

#[test]
fn cdc_test_decoding_missing_operand_1() {
    assert_eq!(
        Message::try_from_bytes(&[u8::from(Opcode::HecSetState), 0x12, 0x34, 0x56, 0x78]),
        Err(Error::OutOfRange {
            expected: Range::AtLeast(6),
            got: 5,
            quantity: "bytes",
        })
    );
    assert_eq!(
        Message::try_from_bytes(&[
            u8::from(Opcode::HecRequestDeactivation),
            0x12,
            0x34,
            0x56,
            0x78
        ]),
        Err(Error::OutOfRange {
            expected: Range::AtLeast(7),
            got: 5,
            quantity: "bytes",
        })
    );
}

#[test]
fn cdc_test_decoding_missing_operand_1_and_byte() {
    assert_eq!(
        Message::try_from_bytes(&[u8::from(Opcode::HecSetState), 0x12, 0x34, 0x56]),
        Err(Error::OutOfRange {
            expected: Range::AtLeast(6),
            got: 4,
            quantity: "bytes",
        })
    );
    assert_eq!(
        Message::try_from_bytes(&[u8::from(Opcode::HecRequestDeactivation), 0x12, 0x34, 0x56]),
        Err(Error::OutOfRange {
            expected: Range::AtLeast(7),
            got: 4,
            quantity: "bytes",
        })
    );
}

#[test]
fn cdc_test_decoding_missing_operand_2() {
    assert_eq!(
        Message::try_from_bytes(&[u8::from(Opcode::HecSetState), 0x12, 0x34]),
        Err(Error::OutOfRange {
            expected: Range::AtLeast(6),
            got: 3,
            quantity: "bytes",
        })
    );
    assert_eq!(
        Message::try_from_bytes(&[u8::from(Opcode::HecRequestDeactivation), 0x12, 0x34]),
        Err(Error::OutOfRange {
            expected: Range::AtLeast(7),
            got: 3,
            quantity: "bytes",
        })
    );
}

#[test]
fn cdc_test_decoding_missing_operand_2_and_byte() {
    assert_eq!(
        Message::try_from_bytes(&[u8::from(Opcode::HecSetState), 0x12]),
        Err(Error::OutOfRange {
            expected: Range::AtLeast(6),
            got: 2,
            quantity: "bytes",
        })
    );
    assert_eq!(
        Message::try_from_bytes(&[u8::from(Opcode::HecRequestDeactivation), 0x12]),
        Err(Error::OutOfRange {
            expected: Range::AtLeast(7),
            got: 2,
            quantity: "bytes",
        })
    );
}
