use ifd_decode::search::find;

#[test]
fn find_returns_first_occurrence() {
    let buf = vec![9u8, 8, 7, 6, 7, 6];
    let pat = vec![7u8, 6];
    assert_eq!(find(&buf, &pat), 2);
}

#[test]
fn find_absent_pattern_returns_sentinel() {
    let buf = vec![1u8, 2, 3, 4, 5];
    let pat = vec![9u8, 9];
    assert_eq!(find(&buf, &pat), 0);
}

#[test]
fn find_pattern_longer_than_buffer_returns_sentinel() {
    let buf = vec![1u8, 2];
    let pat = vec![1u8, 2, 3];
    assert_eq!(find(&buf, &pat), 0);
}

#[test]
fn find_in_empty_buffer_returns_sentinel() {
    let buf: Vec<u8> = vec![];
    let pat = vec![0x49u8];
    assert_eq!(find(&buf, &pat), 0);
}

#[test]
fn find_tiff_header_at_start() {
    let mut buf = b"II*\0".to_vec();
    buf.extend(vec![0u8; 16]);
    assert_eq!(find(&buf, &vec![0x49u8, 0x49]), 0);
}

#[test]
fn find_single_byte_pattern() {
    let buf = vec![0u8, 0, 0, 0x2a, 0];
    assert_eq!(find(&buf, &vec![0x2au8]), 3);
}

#[test]
fn find_full_buffer_match() {
    let buf = vec![5u8, 6, 7];
    assert_eq!(find(&buf, &vec![5u8, 6, 7]), 0);
}
