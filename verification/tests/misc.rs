use linux_cec::address::{LogicalAddress, PhysicalAddress, Timeout};
use linux_cec::cdc;
use linux_cec::device::{frame_message, trimmed_osd_name};
use linux_cec::message::{Message, Opcode};
use linux_cec::operand::scalar::VendorId;
use linux_cec::sys::{cec_msg, VendorId as SysVendorId};
use linux_cec::{Error, LogicalAddressType, Range};
use std::str::FromStr;

#[test]
fn test_range_text() {
    assert_eq!(Range::AtMost(14).to_string(), "at most 14");
    assert_eq!(Range::AtLeast(1).to_string(), "at least 1");
    assert_eq!(Range::Exact(7).to_string(), "7");
    assert_eq!(Range::Interval { min: 1, max: 251 }.to_string(), "between 1 and 251");
    assert_eq!(Range::only_two(5, 8).to_string(), "one of 5, 8");
}

#[test]
fn test_range_admits_and_add() {
    let only = Range::only_two(1, 2);
    assert!(only.admits(1));
    assert!(only.admits(2));
    assert!(!only.admits(3));
    assert_eq!(only.add(3), Range::only_two(4, 5));
    assert_eq!(Range::AtLeast(2).add(4), Range::AtLeast(6));
    assert_eq!(
        Range::Interval { min: 1, max: 2 }.add(1),
        Range::Interval { min: 2, max: 3 }
    );
    assert_eq!(Range::AtMost(3).check(4, "bytes"), Err(Error::OutOfRange {
        expected: Range::AtMost(3),
        got: 4,
        quantity: "bytes",
    }));
    assert_eq!(Range::AtMost(3).check(3, "bytes"), Ok(()));
}

#[test]
fn test_add_offset() {
    let e = Error::OutOfRange { expected: Range::AtLeast(2), got: 1, quantity: "bytes" };
    assert_eq!(
        e.add_offset(3),
        Error::OutOfRange { expected: Range::AtLeast(5), got: 4, quantity: "bytes" }
    );
    let e = Error::OutOfRange { expected: Range::AtMost(2), got: 3, quantity: "value" };
    assert_eq!(
        e.add_offset(3),
        Error::OutOfRange { expected: Range::AtMost(2), got: 3, quantity: "value" }
    );
    assert_eq!(Error::InvalidData.add_offset(3), Error::InvalidData);
}

#[test]
fn test_physical_address_text() {
    assert_eq!(PhysicalAddress(0x1000).to_string(), "1.0.0.0");
    assert_eq!(PhysicalAddress(0xABCD).to_string(), "a.b.c.d");
    assert_eq!(PhysicalAddress::default(), PhysicalAddress(0xFFFF));
    assert_eq!(u16::from(PhysicalAddress::from(0x1234u16)), 0x1234);
}

#[test]
fn test_trimmed_osd_name() {
    assert_eq!(trimmed_osd_name("Steam Deck"), "Steam Deck");
    assert_eq!(trimmed_osd_name("fourteen bytes"), "fourteen bytes");
    assert_eq!(trimmed_osd_name("fifteen bytes!!"), "fifteen bytes!");
    // "é" takes two bytes: the cut falls before it, at byte 13.
    assert_eq!(trimmed_osd_name("thirteen byteé"), "thirteen byte");
    assert_eq!(trimmed_osd_name("abcdefghi\u{1F4A9}\u{1F4A9}"), "abcdefghi\u{1F4A9}");
}

#[test]
fn test_timeout() {
    assert_eq!(Timeout::from_ms(1000).as_ms(), 1000);
    assert_eq!(Timeout::try_from_millis(5), Ok(Timeout::from_ms(5)));
    assert_eq!(Timeout::try_from_millis(0xFFFF_FFFF), Ok(Timeout::from_ms(0xFFFF_FFFF)));
    assert_eq!(
        Timeout::try_from_millis(0x1_0000_0000),
        Err(Error::OutOfRange {
            expected: Range::AtMost(0xFFFF_FFFF),
            got: 0x1_0000_0000,
            quantity: "milliseconds",
        })
    );
}

#[test]
fn test_vendor_id_sys() {
    assert_eq!(VendorId::try_from_sys(SysVendorId(0xFFFF_FFFF)), Ok(None));
    assert_eq!(VendorId::try_from_sys(SysVendorId(0x000C03)), Ok(Some(VendorId([0x00, 0x0C, 0x03]))));
    assert_eq!(VendorId::try_from_sys(SysVendorId(0x0100_0000)), Err(Error::InvalidData));
    assert_eq!(SysVendorId::from(VendorId([0x00, 0x0C, 0x03])), SysVendorId(0x000C03));
}

#[test]
fn test_cec_msg_addresses() {
    let msg = cec_msg::new(4, 0);
    assert_eq!(msg.initiator(), 4);
    assert_eq!(msg.destination(), 0);
    assert_eq!(msg.len, 1);
    assert!(!msg.is_broadcast());
    assert_eq!(msg.opcode(), None);
    assert!(cec_msg::new(4, 15).is_broadcast());

    let mut reply = cec_msg::new(1, 2);
    reply.set_reply_to(&msg);
    assert_eq!(reply.initiator(), 0);
    assert_eq!(reply.destination(), 4);
}

#[test]
fn test_message_roundtrip() {
    let message = Message::ActiveSource { address: PhysicalAddress(0x1234) };
    let bytes = message.to_bytes();
    assert_eq!(bytes, vec![u8::from(Opcode::ActiveSource), 0x12, 0x34]);
    assert_eq!(Message::try_from_bytes(&bytes), Ok(message));
    assert_eq!(message.len(), 3);

    let framed = frame_message(&message, LogicalAddress::PlaybackDevice1, LogicalAddress::UnregisteredOrBroadcast);
    assert_eq!(framed.len, 4);
    assert_eq!(&framed.msg[..4], &[0x4F, u8::from(Opcode::ActiveSource), 0x12, 0x34]);
}

#[test]
fn test_message_invalid_opcode() {
    assert_eq!(
        Message::try_from_bytes(&[]),
        Err(Error::OutOfRange { expected: Range::AtLeast(1), got: 0, quantity: "bytes" })
    );
    assert_eq!(
        Message::try_from_bytes(&[0x01]),
        Err(Error::InvalidValueForType { ty: "Opcode", value: String::from("1") })
    );
}

#[test]
fn test_cdc_roundtrip() {
    let message = cdc::Message::HecInquireState {
        terminating_address1: PhysicalAddress(0x1234),
        terminating_address2: PhysicalAddress(0x5678),
    };
    let bytes = message.to_bytes();
    assert_eq!(bytes, vec![u8::from(cdc::Opcode::HecInquireState), 0x12, 0x34, 0x56, 0x78]);
    assert_eq!(cdc::Message::try_from_bytes(&bytes), Ok(message));
    assert_eq!(message.len(), 5);
}

#[test]
fn test_logical_address_names() {
    assert_eq!(LogicalAddress::from_name("tv"), Some(LogicalAddress::Tv));
    assert_eq!(LogicalAddress::from_name("0"), Some(LogicalAddress::Tv));
    assert_eq!(LogicalAddress::from_name("recording-device"), Some(LogicalAddress::RecordingDevice1));
    assert_eq!(LogicalAddress::from_name("a"), Some(LogicalAddress::Tuner4));
    assert_eq!(LogicalAddress::from_name("broadcast"), Some(LogicalAddress::UnregisteredOrBroadcast));
    assert_eq!(LogicalAddress::from_name("TV"), None);
    assert_eq!(LogicalAddress::from_name("16"), None);
    assert!(LogicalAddress::from_str("playback-device-2").is_ok());
    assert!(LogicalAddress::from_str("playback").is_err());
    assert_eq!(LogicalAddress::RecordingDevice1.to_string(), "recording-device-1");
    assert_eq!(LogicalAddress::UnregisteredOrBroadcast.to_string(), "unregistered");
    assert_eq!(LogicalAddress::AudioSystem.to_string(), "audio-system");
    assert_eq!(
        LogicalAddress::from_name(&LogicalAddress::Backup2.to_string()),
        Some(LogicalAddress::Backup2)
    );

    assert_eq!(LogicalAddressType::from_name("audio-system"), Some(LogicalAddressType::AudioSystem));
    assert_eq!(LogicalAddressType::from_name("audio_system"), None);
    assert_eq!(LogicalAddressType::Playback.to_string(), "playback");
    assert_eq!(LogicalAddressType::from_str("tv"), Ok(LogicalAddressType::Tv));
}
