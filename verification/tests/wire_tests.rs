use market_sz::wire::{
    decode_msg_head, generate_checksum, get_i64, get_u16, get_u32, heartbeat_message, login2_request,
    login_request, push_u32_be, copy_bytes,
};

#[test]
fn checksum_sums_bytes() {
    assert_eq!(generate_checksum(&[1, 2, 3]), 6);
    assert_eq!(generate_checksum(&[]), 0);
    assert_eq!(generate_checksum(&[255, 255, 255, 255]), 1020);
}

#[test]
fn checksum_of_parts_and_reordered_bytes() {
    let a = [7u8, 200, 13];
    let b = [255u8, 0, 1, 99];
    let mut ab = a.to_vec();
    ab.extend_from_slice(&b);
    assert_eq!(generate_checksum(&ab), generate_checksum(&a) + generate_checksum(&b));
    assert_eq!(generate_checksum(&[255, 255]), 510);
    let mut rev = ab.clone();
    rev.reverse();
    assert_eq!(generate_checksum(&rev), generate_checksum(&ab));
    assert_eq!(generate_checksum(&[99, 7, 255, 13, 1, 0, 200]), generate_checksum(&ab));
}

#[test]
fn heartbeat_frame_bytes() {
    let m = heartbeat_message();
    assert_eq!(m, vec![0, 0, 0, 3, 0, 0, 0, 0, 0, 0, 0, 3]);
}

#[test]
fn header_decodes_type_and_length() {
    let h = decode_msg_head(&[0x00, 0x04, 0x94, 0x4f, 0x00, 0x00, 0x01, 0x02, 0xff]);
    assert_eq!(h._msg_type, 300111);
    assert_eq!(h._body_length, 258);
}

#[test]
fn big_endian_reads() {
    let b = [0xff, 0xff, 0xff, 0xff, 0xff, 0xff, 0xff, 0xfe, 0x12, 0x34];
    assert_eq!(get_i64(&b, 0), -2);
    assert_eq!(get_u16(&b, 8), 0x1234);
    assert_eq!(get_u32(&b, 6), 0xfffe1234);
    let v = 20240105093000123i64.to_be_bytes();
    assert_eq!(get_i64(&v, 0), 20240105093000123);
}

#[test]
fn push_u32_writes_big_endian() {
    let mut v = vec![9u8];
    push_u32_be(&mut v, 0x01020304);
    assert_eq!(v, vec![9, 1, 2, 3, 4]);
}

#[test]
fn copy_bytes_copies() {
    assert_eq!(copy_bytes(&[5, 6, 7]), vec![5, 6, 7]);
}

#[test]
fn login2_frame_layout() {
    let m = login2_request();
    assert_eq!(m.len(), 104);
    assert_eq!(&m[0..4], &[0, 0, 0, 1]);
    assert_eq!(&m[4..8], &[0, 0, 0, 92]);
    assert_eq!(&m[8..20], b"F000648Q0011");
    assert_eq!(&m[20..28], &[0; 8]);
    assert_eq!(&m[28..31], b"VDE");
    assert_eq!(&m[48..52], &[0, 0, 0, 150]);
    assert_eq!(&m[52..64], b"F000648Q0011");
    assert_eq!(&m[68..72], b"1.00");
    let sum: u32 = m[0..100].iter().map(|b| *b as u32).sum();
    assert_eq!(&m[100..104], &sum.to_be_bytes());
}

#[test]
fn login_frame_is_recorded_bytes() {
    let m = login_request();
    assert_eq!(m.len(), 104);
    assert_eq!(&m[0..8], &[0, 0, 0, 1, 0, 0, 0, 0x5c]);
    assert_eq!(&m[8..20], b"F000648Q0011");
    assert_eq!(m[103], 0x6a);
}
