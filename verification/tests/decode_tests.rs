use ifd_decode::record::{DecodeError, IFD};

fn sample_bytes() -> Vec<u8> {
    vec![0x01, 0x00, 0x02, 0x00, 0x05, 0x00, 0x00, 0x00, 0x08, 0x00, 0x00, 0x00]
}

#[test]
fn decode_twelve_byte_record() {
    let buf = sample_bytes();
    let r = IFD::from_offset(&buf, 0).unwrap();
    assert_eq!(r.tag, 1);
    assert_eq!(r.tag_type, 2);
    assert_eq!(r.count, 5);
    assert_eq!(r.value_offset, 8);
}

#[test]
fn decode_display_rendering() {
    let buf = sample_bytes();
    let r = IFD::from_offset(&buf, 0).unwrap();
    assert_eq!(r.display_string(), "1, 2, 5, 8");
}

#[test]
fn decode_hex_rendering() {
    let buf = sample_bytes();
    let r = IFD::from_offset(&buf, 0).unwrap();
    assert_eq!(r.hex_string(), "[01, 00][02, 00][05, 00, 00, 00][08, 00, 00, 00]");
}

#[test]
fn decode_multibyte_fields() {
    let buf = vec![0x0f, 0x01, 0x02, 0x00, 0x14, 0x00, 0x00, 0x00, 0xb2, 0x01, 0x00, 0x00];
    let r = IFD::from_offset(&buf, 0).unwrap();
    assert_eq!(r.tag, 0x010f);
    assert_eq!(r.tag_type, 2);
    assert_eq!(r.count, 20);
    assert_eq!(r.value_offset, 434);
    assert_eq!(r.display_string(), "271, 2, 20, 434");
}

#[test]
fn decode_at_nonzero_offset() {
    let mut buf = vec![0xaa, 0xbb, 0xcc];
    buf.extend(sample_bytes());
    let r = IFD::from_offset(&buf, 3).unwrap();
    assert_eq!(r.tag, 1);
    assert_eq!(r.value_offset, 8);
}

#[test]
fn decode_short_buffer_is_out_of_bounds() {
    let buf = vec![0u8; 11];
    assert_eq!(IFD::from_offset(&buf, 0), Err(DecodeError::OutOfBounds));
}

#[test]
fn decode_offset_near_end_is_out_of_bounds() {
    let buf = vec![0u8; 20];
    assert_eq!(IFD::from_offset(&buf, 9), Err(DecodeError::OutOfBounds));
    assert!(IFD::from_offset(&buf, 8).is_ok());
}

#[test]
fn decode_then_encode_round_trips() {
    let bytes = vec![0x0f, 0x01, 0x02, 0x00, 0x14, 0x00, 0x00, 0x00, 0xb2, 0x01, 0x00, 0x00];
    let r = IFD::from_offset(&bytes, 0).unwrap();
    assert_eq!(r.to_le_bytes(), bytes);
}

#[test]
fn encode_emits_little_endian_fields() {
    let r = IFD { tag: 0x0102, tag_type: 0x0304, count: 0x05060708, value_offset: 0x090a0b0c };
    assert_eq!(
        r.to_le_bytes(),
        vec![0x02, 0x01, 0x04, 0x03, 0x08, 0x07, 0x06, 0x05, 0x0c, 0x0b, 0x0a, 0x09]
    );
}

#[test]
fn default_record_is_all_zero() {
    let r = IFD::default();
    assert_eq!(r, IFD { tag: 0, tag_type: 0, count: 0, value_offset: 0 });
    assert_eq!(r.display_string(), "0, 0, 0, 0");
}
