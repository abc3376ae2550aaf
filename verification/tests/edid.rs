use linux_cec::edid::parse_hdmi_edid_pa;
use linux_cec::PhysicalAddress;

/// An EDID of `base_len` zero bytes followed by one extension block that is
/// zero but for the bytes given by offset within the block.
fn edid(base_len: usize, set: &[(usize, u8)]) -> Vec<u8> {
    let mut block = [0u8; 128];
    for &(offset, value) in set {
        block[offset] = value;
    }
    let mut bytes = vec![0u8; base_len];
    bytes.extend_from_slice(&block);
    bytes
}

#[test]
fn test_parse_edid_missing() {
    let bytes = edid(128, &[(0, 0x02), (1, 0x03)]);
    assert_eq!(parse_hdmi_edid_pa(&bytes), None);
}

#[test]
fn test_parse_edid_missing_header() {
    let bytes = edid(128, &[(4, 0x65), (5, 0x03), (6, 0x0c), (8, 0x12), (9, 0x34)]);
    assert_eq!(parse_hdmi_edid_pa(&bytes), None);
}

#[test]
fn test_parse_edid_early() {
    let bytes = edid(128, &[(0, 0x02), (1, 0x03), (4, 0x65), (5, 0x03), (6, 0x0c), (8, 0x12), (9, 0x34)]);
    assert_eq!(parse_hdmi_edid_pa(&bytes), Some(PhysicalAddress(0x1234)));
}

#[test]
fn test_parse_edid_extra_block() {
    let bytes = edid(256, &[(0, 0x02), (1, 0x03), (4, 0x65), (5, 0x03), (6, 0x0c), (8, 0x12), (9, 0x34)]);
    assert_eq!(parse_hdmi_edid_pa(&bytes), Some(PhysicalAddress(0x1234)));
}

#[test]
fn test_parse_edid_island() {
    let bytes = edid(128, &[(0, 0x02), (1, 0x03), (8, 0x65), (9, 0x03), (10, 0x0c), (12, 0x12), (13, 0x34)]);
    assert_eq!(parse_hdmi_edid_pa(&bytes), Some(PhysicalAddress(0x1234)));
}

#[test]
fn test_parse_edid_skipped() {
    let bytes = edid(128, &[(0, 0x02), (1, 0x03), (4, 0x6b), (8, 0x65), (9, 0x03), (10, 0x0c), (12, 0x12), (13, 0x34)]);
    assert_eq!(parse_hdmi_edid_pa(&bytes), None);
}

#[test]
fn test_parse_edid_cutoff_0() {
    let bytes = edid(128, &[(0, 0x02), (1, 0x03), (2, 0x04), (4, 0x65), (5, 0x03), (6, 0x0c), (8, 0x12), (9, 0x34)]);
    assert_eq!(parse_hdmi_edid_pa(&bytes), None);
}

#[test]
fn test_parse_edid_cutoff_1() {
    let bytes = edid(128, &[(0, 0x02), (1, 0x03), (2, 0x05), (4, 0x65), (5, 0x03), (6, 0x0c), (8, 0x12), (9, 0x34)]);
    assert_eq!(parse_hdmi_edid_pa(&bytes), None);
}

#[test]
fn test_parse_edid_cutoff_2() {
    let bytes = edid(128, &[(0, 0x02), (1, 0x03), (2, 0x06), (4, 0x65), (5, 0x03), (6, 0x0c), (8, 0x12), (9, 0x34)]);
    assert_eq!(parse_hdmi_edid_pa(&bytes), None);
}

#[test]
fn test_parse_edid_cutoff_3() {
    let bytes = edid(128, &[(0, 0x02), (1, 0x03), (2, 0x07), (4, 0x65), (5, 0x03), (6, 0x0c), (8, 0x12), (9, 0x34)]);
    assert_eq!(parse_hdmi_edid_pa(&bytes), None);
}

#[test]
fn test_parse_edid_cutoff_4() {
    let bytes = edid(128, &[(0, 0x02), (1, 0x03), (2, 0x08), (4, 0x65), (5, 0x03), (6, 0x0c), (8, 0x12), (9, 0x34)]);
    assert_eq!(parse_hdmi_edid_pa(&bytes), None);
}

#[test]
fn test_parse_edid_cutoff_5() {
    let bytes = edid(128, &[(0, 0x02), (1, 0x03), (2, 0x09), (4, 0x65), (5, 0x03), (6, 0x0c), (8, 0x12), (9, 0x34)]);
    assert_eq!(parse_hdmi_edid_pa(&bytes), None);
}

#[test]
fn test_parse_edid_cutoff_6() {
    let bytes = edid(128, &[(0, 0x02), (1, 0x03), (2, 0x0a), (4, 0x65), (5, 0x03), (6, 0x0c), (8, 0x12), (9, 0x34)]);
    assert_eq!(parse_hdmi_edid_pa(&bytes), Some(PhysicalAddress(0x1234)));
}

#[test]
fn test_parse_edid_cutoff_7() {
    let bytes = edid(128, &[(0, 0x02), (1, 0x03), (2, 0x0b), (4, 0x65), (5, 0x03), (6, 0x0c), (8, 0x12), (9, 0x34)]);
    assert_eq!(parse_hdmi_edid_pa(&bytes), Some(PhysicalAddress(0x1234)));
}

#[test]
fn test_parse_edid_cutoff_end() {
    let bytes = edid(128, &[(0, 0x02), (1, 0x03), (2, 0x7f), (122, 0x65), (123, 0x03), (124, 0x0c), (126, 0x12), (127, 0x34)]);
    assert_eq!(parse_hdmi_edid_pa(&bytes), None);
}

#[test]
fn test_parse_edid_cutoff_invalid_len() {
    let bytes = edid(128, &[(0, 0x02), (1, 0x03), (2, 0x80), (122, 0x65), (123, 0x03), (124, 0x0c), (126, 0x12), (127, 0x34)]);
    assert_eq!(parse_hdmi_edid_pa(&bytes), None);
}

#[test]
fn test_parse_edid_short_inputs() {
    assert_eq!(parse_hdmi_edid_pa(&[]), None);
    assert_eq!(parse_hdmi_edid_pa(&[0u8; 128]), None);
    let mut cut = edid(128, &[(0, 0x02), (1, 0x03), (4, 0x65), (5, 0x03), (6, 0x0c), (8, 0x12), (9, 0x34)]);
    cut.pop();
    assert_eq!(parse_hdmi_edid_pa(&cut), None);
}

#[test]
fn test_parse_edid_second_extension() {
    let mut bytes = edid(128, &[(0, 0x70), (1, 0x01)]);
    bytes.extend_from_slice(&edid(0, &[(0, 0x02), (1, 0x03), (4, 0x65), (5, 0x03), (6, 0x0c), (8, 0xAB), (9, 0xCD)]));
    assert_eq!(parse_hdmi_edid_pa(&bytes), Some(PhysicalAddress(0xABCD)));
}

#[test]
fn test_parse_edid_cta_tag_any_revision() {
    let bytes = edid(128, &[(0, 0x02), (4, 0x65), (5, 0x03), (6, 0x0c), (8, 0x10), (9, 0x00)]);
    assert_eq!(parse_hdmi_edid_pa(&bytes), Some(PhysicalAddress(0x1000)));
    let bytes = edid(128, &[(0, 0x70), (1, 0x03), (4, 0x65), (5, 0x03), (6, 0x0c), (8, 0x20), (9, 0x00)]);
    assert_eq!(parse_hdmi_edid_pa(&bytes), Some(PhysicalAddress(0x2000)));
}
