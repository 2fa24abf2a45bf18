use oicq_core::binary_reader::{BinaryReader, ByteCursor};
use oicq_core::errors::DecodeError;

#[test]
fn read_string_decodes_inclusive_length() {
    let mut c = ByteCursor::new(vec![0, 0, 0, 6, b'h', b'i']);
    assert_eq!(c.read_string().unwrap(), "hi");
    assert_eq!(c.pos, 6);
}

#[test]
fn read_string_empty_payload() {
    let mut c = ByteCursor::new(vec![0, 0, 0, 4, 7, 7]);
    assert_eq!(c.read_string().unwrap(), "");
    assert_eq!(c.pos, 4);
}

#[test]
fn read_string_rejects_short_declared_length() {
    let mut c = ByteCursor::new(vec![0, 0, 0, 3]);
    assert_eq!(c.read_string(), Err(DecodeError::InvalidLength));
    assert_eq!(c.pos, 0);
}

#[test]
fn read_string_rejects_negative_declared_length() {
    let mut c = ByteCursor::new(vec![0x80, 0, 0, 0, 1, 2]);
    assert_eq!(c.read_string(), Err(DecodeError::InvalidLength));
    assert_eq!(c.pos, 0);
}

#[test]
fn read_string_rejects_overrun() {
    let mut c = ByteCursor::new(vec![0, 0, 0, 10, 1]);
    assert_eq!(c.read_string(), Err(DecodeError::Truncated));
    assert_eq!(c.pos, 0);
}

#[test]
fn read_string_rejects_invalid_utf8() {
    let mut c = ByteCursor::new(vec![0, 0, 0, 6, 0xFF, 0xFE]);
    assert_eq!(c.read_string(), Err(DecodeError::InvalidText));
    assert_eq!(c.pos, 0);
}

#[test]
fn read_bytes_short_returns_declared_bytes() {
    let mut c = ByteCursor::new(vec![0, 2, 0xAA, 0xBB]);
    assert_eq!(c.read_bytes_short().unwrap(), vec![0xAA, 0xBB]);
    assert_eq!(c.pos, 4);
}

#[test]
fn read_bytes_short_empty() {
    let mut c = ByteCursor::new(vec![0, 0, 5]);
    assert_eq!(c.read_bytes_short().unwrap(), Vec::<u8>::new());
    assert_eq!(c.pos, 2);
}

#[test]
fn read_bytes_short_rejects_overrun() {
    let mut c = ByteCursor::new(vec![0, 5, 0xAA]);
    assert_eq!(c.read_bytes_short(), Err(DecodeError::Truncated));
    assert_eq!(c.pos, 0);
}

#[test]
fn tlv_map_width_1_stops_at_terminator() {
    let mut c = ByteCursor::new(vec![
        1, 0, 1, 0xAA, 2, 0, 2, 0xBB, 0xCC, 255, 9, 9,
    ]);
    let m = c.read_tlv_map(1).unwrap();
    assert_eq!(m.len(), 2);
    assert_eq!(m.get(&1).unwrap(), &vec![0xAA]);
    assert_eq!(m.get(&2).unwrap(), &vec![0xBB, 0xCC]);
    assert_eq!(c.pos, 10);
}

#[test]
fn tlv_map_width_2_stops_at_terminator() {
    let mut c = ByteCursor::new(vec![
        0, 7, 0, 1, 0x11, 0, 255, 3, 3, 3,
    ]);
    let m = c.read_tlv_map(2).unwrap();
    assert_eq!(m.len(), 1);
    assert_eq!(m.get(&7).unwrap(), &vec![0x11]);
    assert_eq!(c.pos, 7);
}

#[test]
fn tlv_map_width_4_narrows_tag_to_low_16_bits() {
    let mut c = ByteCursor::new(vec![
        0, 1, 0, 3, 0, 1, 0x42, 0, 0, 0, 255,
    ]);
    let m = c.read_tlv_map(4).unwrap();
    assert_eq!(m.len(), 1);
    assert_eq!(m.get(&3).unwrap(), &vec![0x42]);
    assert_eq!(c.pos, 11);
}

#[test]
fn tlv_map_soft_stop_below_tag_width() {
    let mut c = ByteCursor::new(vec![
        0, 7, 0, 1, 0x11, 9,
    ]);
    let m = c.read_tlv_map(2).unwrap();
    assert_eq!(m.len(), 1);
    assert_eq!(m.get(&7).unwrap(), &vec![0x11]);
    assert_eq!(c.pos, 5);
}

#[test]
fn tlv_map_empty_input() {
    let mut c = ByteCursor::new(vec![]);
    let m = c.read_tlv_map(1).unwrap();
    assert!(m.is_empty());
    assert_eq!(c.pos, 0);
}

#[test]
fn tlv_map_duplicate_tag_keeps_last() {
    let mut c = ByteCursor::new(vec![
        1, 0, 1, 0xAA, 1, 0, 1, 0xBB, 255,
    ]);
    let m = c.read_tlv_map(1).unwrap();
    assert_eq!(m.len(), 1);
    assert_eq!(m.get(&1).unwrap(), &vec![0xBB]);
}

#[test]
fn tlv_map_rejects_truncated_value() {
    let mut c = ByteCursor::new(vec![1, 0, 5, 0xAA]);
    assert_eq!(c.read_tlv_map(1), Err(DecodeError::Truncated));
    assert_eq!(c.pos, 0);
}

#[test]
fn tlv_map_rejects_truncated_length_field() {
    let mut c = ByteCursor::new(vec![1, 0]);
    assert_eq!(c.read_tlv_map(1), Err(DecodeError::Truncated));
    assert_eq!(c.pos, 0);
}

#[test]
fn tlv_map_rejects_unsupported_width() {
    let mut c = ByteCursor::new(vec![1, 2, 3]);
    assert_eq!(c.read_tlv_map(3), Err(DecodeError::UnsupportedTagWidth));
    assert_eq!(c.read_tlv_map(0), Err(DecodeError::UnsupportedTagWidth));
    assert_eq!(c.pos, 0);
}
