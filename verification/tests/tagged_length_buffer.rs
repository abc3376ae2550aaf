use linux_cec::codec::OperandEncodable;
use linux_cec::operand::buffer::{BoundedBufferOperand, TaggedLengthBuffer};
use linux_cec::operand::features::DeviceFeatures;
use linux_cec::operand::flags::DeviceFeatures1;
use linux_cec::{Error, Range};

fn features(first: u8, extra: &[u8]) -> DeviceFeatures {
    DeviceFeatures {
        device_features_1: DeviceFeatures1::from_bits_retain(first),
        device_features_n: BoundedBufferOperand::try_from_slice(extra).unwrap(),
    }
}

#[test]
fn test_u8_fixed_param() {
    assert_eq!(features(0x56, &[]).fixed_param(), DeviceFeatures1::from_bits_retain(0x56));
}

#[test]
fn test_u8_extra_params() {
    assert_eq!(features(0, &[1, 2]).extra_params(), &[1, 2]);
}

#[test]
fn test_u8_try_new() {
    assert_eq!(
        Ok(features(0x56, &[0x78])),
        DeviceFeatures::try_new(DeviceFeatures1::from_bits_retain(0x56), &[0x78])
    );
}

fn roundtrip(instance: DeviceFeatures, bytes: &[u8]) {
    let mut buf = Vec::new();
    instance.to_bytes(&mut buf);
    assert_eq!(&buf, bytes);
    assert_eq!(DeviceFeatures::try_from_bytes(bytes), Ok(instance));
    assert_eq!(instance.len(), bytes.len());
}

#[test]
fn test_fixed_only() {
    roundtrip(features(0x12, &[]), &[0x12]);
}

#[test]
fn test_fixed_and_one_byte() {
    roundtrip(features(0x12, &[0x34]), &[0x92, 0x34]);
}

#[test]
fn test_fixed_and_two_bytes() {
    roundtrip(features(0x12, &[0x34, 0x56]), &[0x92, 0xB4, 0x56]);
}

#[test]
fn test_decode_zero_bytes() {
    assert_eq!(
        DeviceFeatures::try_from_bytes(&[]),
        Err(Error::OutOfRange { expected: Range::AtLeast(1), got: 0, quantity: "bytes" })
    );
}

#[test]
fn test_decode_one_byte_junk() {
    assert_eq!(DeviceFeatures::try_from_bytes(&[0x12, 0x34]), Ok(features(0x12, &[])));
}

#[test]
fn test_decode_two_bytes_junk() {
    assert_eq!(DeviceFeatures::try_from_bytes(&[0x92, 0x34, 0x56]), Ok(features(0x12, &[0x34])));
}

#[test]
fn operand_test_decode_missing_byte() {
    assert_eq!(
        <[u8; 2] as OperandEncodable>::try_from_bytes(&[0x12]),
        Err(Error::OutOfRange { got: 1, expected: Range::AtLeast(2), quantity: "bytes" })
    );
    assert_eq!(DeviceFeatures::try_from_bytes(&[0x92]), Ok(features(0x12, &[])));
}

#[test]
fn test_decode_missing_byte_2() {
    assert_eq!(DeviceFeatures::try_from_bytes(&[0x92, 0xB4]), Ok(features(0x12, &[0x34])));
}
