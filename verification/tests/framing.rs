use aetherlink::frame::{check_frame_len, encode_frame, frame_body_len, header_len, DESKTOP_FRAME_LIMIT, FRAME_LIMIT};

#[test]
fn encode_frame_prefixes_big_endian_length() {
    let out = encode_frame(&[7, 8, 9]);
    assert_eq!(out, vec![0, 0, 0, 3, 7, 8, 9]);
}

#[test]
fn encode_frame_of_empty_body() {
    assert_eq!(encode_frame(&[]), vec![0, 0, 0, 0]);
}

#[test]
fn encode_frame_length_above_one_byte() {
    let data = vec![1u8; 300];
    let out = encode_frame(&data);
    assert_eq!(&out[..4], &[0, 0, 1, 44]);
    assert_eq!(out.len(), 304);
    assert_eq!(&out[4..], &data[..]);
}

#[test]
fn header_len_reads_big_endian() {
    assert_eq!(header_len(&[0x01, 0x02, 0x03, 0x04]), 0x01020304);
    assert_eq!(header_len(&[0xff, 0xff, 0xff, 0xff]), u32::MAX);
}

#[test]
fn check_frame_len_accepts_up_to_limit() {
    assert_eq!(check_frame_len(65000, DESKTOP_FRAME_LIMIT), Ok(65000));
    assert_eq!(check_frame_len(65535, FRAME_LIMIT), Ok(65535));
    assert_eq!(check_frame_len(0, FRAME_LIMIT), Ok(0));
}

#[test]
fn check_frame_len_refuses_above_limit() {
    assert_eq!(
        check_frame_len(65001, DESKTOP_FRAME_LIMIT),
        Err("Слишком большой фрейм: 65001 байт".to_string())
    );
    assert_eq!(
        check_frame_len(65536, FRAME_LIMIT),
        Err("Слишком большой фрейм: 65536 байт".to_string())
    );
}

#[test]
fn law_frame_roundtrip_on_values() {
    let data: Vec<u8> = (0..=255u8).collect();
    let frame = encode_frame(&data);
    assert_eq!(frame_body_len(&frame[..4], FRAME_LIMIT), Ok(data.len()));
    assert_eq!(&frame[4..], &data[..]);
}

#[test]
fn law_frame_limit_on_values() {
    let body = vec![0u8; 65001];
    let frame = encode_frame(&body);
    assert!(frame_body_len(&frame[..4], DESKTOP_FRAME_LIMIT).is_err());
    assert_eq!(frame_body_len(&frame[..4], FRAME_LIMIT), Ok(65001));
}
