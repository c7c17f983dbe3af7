use ifd_decode::fmt::{byte_vec_to_hex_string, dump_lines, hex_of_range, u32_to_dec_string, ByteSlice};
use ifd_decode::parse::bytes_from_str;

#[test]
fn hex_string_has_trailing_space() {
    let v = vec![0x0fu8, 0x01];
    assert_eq!(byte_vec_to_hex_string(&v), "0f 01 ");
}

#[test]
fn hex_string_pads_to_two_digits() {
    let v = vec![0x00u8, 0x0a, 0xff];
    assert_eq!(byte_vec_to_hex_string(&v), "00 0a ff ");
}

#[test]
fn hex_string_of_empty_vec_is_empty() {
    let v: Vec<u8> = vec![];
    assert_eq!(byte_vec_to_hex_string(&v), "");
}

#[test]
fn byte_slice_wraps_for_hex() {
    let bs = ByteSlice::from(vec![0x49u8, 0x49, 0x2a, 0x00]);
    assert_eq!(bs.hex_string(), "49 49 2a 00 ");
}

#[test]
fn hex_of_range_renders_the_window() {
    let buf = vec![0x11u8, 0x22, 0x33, 0x44, 0x55];
    assert_eq!(hex_of_range(&buf, 1, 3), "22 33 44 ");
}

#[test]
fn decimal_rendering_exact_values() {
    assert_eq!(u32_to_dec_string(0), "0");
    assert_eq!(u32_to_dec_string(8), "8");
    assert_eq!(u32_to_dec_string(434), "434");
    assert_eq!(u32_to_dec_string(4294967295), "4294967295");
}

#[test]
fn dump_lines_label_and_chunks() {
    let mut buf: Vec<u8> = Vec::new();
    for i in 0..20 {
        buf.push(i as u8);
    }
    let lines = dump_lines(&buf, 0, 10, 20);
    assert_eq!(lines.len(), 2);
    assert_eq!(lines[0], " 0: 00 01 02 03 04 05 06 07 08 09 ");
    assert_eq!(lines[1], "10: 0a 0b 0c 0d 0e 0f 10 11 12 13 ");
}

#[test]
fn dump_lines_nonzero_start() {
    let buf = vec![0xabu8; 8];
    let lines = dump_lines(&buf, 2, 3, 6);
    assert_eq!(lines.len(), 2);
    assert_eq!(lines[0], " 2: ab ab ab ");
    assert_eq!(lines[1], " 5: ab ab ab ");
}

#[test]
fn parse_hex_pairs() {
    assert_eq!(bytes_from_str("4949"), vec![0x49u8, 0x49]);
    assert_eq!(bytes_from_str("0f01"), vec![0x0fu8, 0x01]);
}

#[test]
fn parse_mixed_case_digits() {
    assert_eq!(bytes_from_str("aAfF09"), vec![0xaau8, 0xff, 0x09]);
}

#[test]
fn parse_odd_length_pads_with_zero() {
    assert_eq!(bytes_from_str("abc"), vec![0xabu8, 0xc0]);
    assert_eq!(bytes_from_str("4"), vec![0x40u8]);
}

#[test]
fn parse_non_hex_chunk_falls_back_to_zero() {
    assert_eq!(bytes_from_str("zz49"), vec![0x00u8, 0x49]);
    assert_eq!(bytes_from_str("4g"), vec![0x00u8]);
}

#[test]
fn parse_empty_string_yields_no_bytes() {
    assert_eq!(bytes_from_str(""), Vec::<u8>::new());
}
