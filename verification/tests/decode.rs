use whisker_reader::decode::{decode_bytes, decode_line, frame_token, DecodeError};
use whisker_reader::sample::SensorSample;

#[test]
fn decodes_example_line_ignoring_trailing_content() {
    let r = decode_line("0102030405060708 ignored");
    assert_eq!(r, Ok(SensorSample { x: 0x0203, y: 0x0405, z: 0x0607 }));
}

#[test]
fn decoding_is_deterministic() {
    let line = "0102030405060708 ignored";
    assert_eq!(decode_line(line), decode_line(line));
    assert_eq!(decode_line("00ffff0000abcd"), decode_line("00ffff0000abcd"));
}

#[test]
fn malformed_token_is_rejected() {
    assert_eq!(decode_line("zz "), Err(DecodeError::MalformedFrame));
}

#[test]
fn odd_length_token_is_malformed() {
    assert_eq!(decode_line("010"), Err(DecodeError::MalformedFrame));
}

#[test]
fn non_hex_character_is_malformed() {
    assert_eq!(decode_line("01g2030405060708"), Err(DecodeError::MalformedFrame));
}

#[test]
fn short_frame_underflows_instead_of_crashing() {
    assert_eq!(decode_line("0102 "), Err(DecodeError::UnderflowFrame));
}

#[test]
fn empty_line_underflows() {
    assert_eq!(decode_line(""), Err(DecodeError::UnderflowFrame));
}

#[test]
fn line_opening_with_space_has_empty_token() {
    assert_eq!(decode_line(" 0102030405060708"), Err(DecodeError::UnderflowFrame));
}

#[test]
fn six_byte_frame_underflows() {
    assert_eq!(decode_line("010203040506"), Err(DecodeError::UnderflowFrame));
}

#[test]
fn seven_byte_frame_is_enough() {
    let r = decode_line("01020304050607");
    assert_eq!(r, Ok(SensorSample { x: 0x0203, y: 0x0405, z: 0x0607 }));
}

#[test]
fn header_byte_is_ignored() {
    let a = decode_line("00020304050607");
    let b = decode_line("ff020304050607");
    assert_eq!(a, b);
    assert_eq!(a, Ok(SensorSample { x: 0x0203, y: 0x0405, z: 0x0607 }));
}

#[test]
fn upper_case_hex_decodes() {
    let r = decode_line("01FFFF0000ABCD rest of line");
    assert_eq!(r, Ok(SensorSample { x: 0xffff, y: 0x0000, z: 0xabcd }));
}

#[test]
fn trailing_newline_without_space_is_part_of_the_token() {
    assert_eq!(decode_line("0102030405060708\n"), Err(DecodeError::MalformedFrame));
}

#[test]
fn frame_token_stops_at_first_space() {
    assert_eq!(frame_token("abc def ghi"), "abc");
    assert_eq!(frame_token("abc"), "abc");
    assert_eq!(frame_token(" abc"), "");
    assert_eq!(frame_token(""), "");
}

#[test]
fn decode_bytes_reads_fixed_offsets() {
    let bytes = vec![0x7e, 0x12, 0x34, 0x56, 0x78, 0x9a, 0xbc, 0xde];
    assert_eq!(
        decode_bytes(&bytes),
        Ok(SensorSample { x: 0x1234, y: 0x5678, z: 0x9abc })
    );
}

#[test]
fn decode_bytes_underflow_boundary() {
    assert_eq!(
        decode_bytes(&vec![0, 1, 2, 3, 4, 5]),
        Err(DecodeError::UnderflowFrame)
    );
    assert_eq!(
        decode_bytes(&vec![0, 1, 2, 3, 4, 5, 6]),
        Ok(SensorSample { x: 0x0102, y: 0x0304, z: 0x0506 })
    );
}

#[test]
fn encode_then_decode_round_trips() {
    let s = SensorSample { x: 0x0203, y: 0x0405, z: 0x0607 };
    let bytes = s.encode(0x01);
    assert_eq!(bytes, vec![0x01, 0x02, 0x03, 0x04, 0x05, 0x06, 0x07]);
    assert_eq!(decode_bytes(&bytes), Ok(s));
}

#[test]
fn encode_then_decode_round_trips_at_extremes() {
    let s = SensorSample { x: 0xffff, y: 0x0000, z: 0x8001 };
    let bytes = s.encode(0x00);
    assert_eq!(decode_bytes(&bytes), Ok(s));
}

#[test]
fn encoded_frame_survives_hex_round_trip() {
    let s = SensorSample { x: 0x0203, y: 0x0405, z: 0x0607 };
    let line = hex::encode(s.encode(0x2a));
    assert_eq!(decode_line(&line), Ok(s));
}
