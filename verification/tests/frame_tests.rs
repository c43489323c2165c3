use network_direct::frame::{decode_frame, encode_frame, length_prefix, read_length_prefix};

#[test]
fn frame_is_big_endian_length_then_payload() {
    let f = encode_frame(&[7u8, 8, 9]);
    assert_eq!(f, vec![0, 0, 0, 0, 0, 0, 0, 3, 7, 8, 9]);
}

#[test]
fn empty_payload_frame_is_eight_zero_bytes() {
    assert_eq!(encode_frame(&[]), vec![0u8; 8]);
}

#[test]
fn length_prefix_matches_to_be_bytes() {
    let n: u64 = 0x0102_0304_0506_0708;
    assert_eq!(length_prefix(n), n.to_be_bytes().to_vec());
}

#[test]
fn read_length_prefix_needs_eight_bytes() {
    assert_eq!(read_length_prefix(&[0, 0, 0, 0, 0, 0, 1]), None);
    assert_eq!(read_length_prefix(&[0, 0, 0, 0, 0, 0, 1, 2, 99]), Some(258));
    assert_eq!(read_length_prefix(&u64::MAX.to_be_bytes()), Some(u64::MAX));
}

#[test]
fn frame_roundtrip_with_trailing_bytes() {
    let payload: Vec<u8> = (0u8..200).collect();
    let mut buf = encode_frame(&payload);
    buf.extend_from_slice(&[1, 2, 3]);
    let (got, used) = decode_frame(&buf).unwrap();
    assert_eq!(got, payload);
    assert_eq!(used, 208);
    assert_eq!(decode_frame(&buf[used..]), None);
}

#[test]
fn incomplete_frame_is_not_decoded() {
    let buf = encode_frame(&[1, 2, 3, 4]);
    assert_eq!(decode_frame(&buf[..11]), None);
    assert_eq!(decode_frame(&buf[..5]), None);
    assert_eq!(decode_frame(&buf), Some((vec![1, 2, 3, 4], 12)));
}

#[test]
fn huge_announced_length_is_incomplete() {
    let buf = [0xffu8; 16];
    assert_eq!(decode_frame(&buf), None);
}
