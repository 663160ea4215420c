use forza_chroma::datagram::{decode, encode, DASH_SIZE, DATAGRAM_SIZE, SLED_SIZE};
use forza_chroma::error::Error;

fn patterned_buffer() -> Vec<u8> {
    let mut v = Vec::with_capacity(DATAGRAM_SIZE);
    for i in 0..DATAGRAM_SIZE {
        v.push(((i * 7 + 13) % 251) as u8);
    }
    v
}

#[test]
fn wire_sizes_are_the_conformance_contract() {
    assert_eq!(SLED_SIZE, 232);
    assert_eq!(DASH_SIZE, 79);
    assert_eq!(DATAGRAM_SIZE, 324);
}

#[test]
fn decode_then_reencode_reproduces_bytes() {
    let buf = patterned_buffer();
    let d = decode(&buf).unwrap();
    let out = encode(&d);
    assert_eq!(out, buf);
}

#[test]
fn decode_then_reencode_all_zero() {
    let buf = vec![0u8; DATAGRAM_SIZE];
    let d = decode(&buf).unwrap();
    assert_eq!(encode(&d), buf);
}

#[test]
fn decode_then_reencode_all_ones() {
    let buf = vec![0xffu8; DATAGRAM_SIZE];
    let d = decode(&buf).unwrap();
    assert_eq!(encode(&d), buf);
}

#[test]
fn short_buffer_is_truncated_datagram() {
    let buf = vec![0u8; DATAGRAM_SIZE - 1];
    assert_eq!(decode(&buf), Err(Error::TruncatedDatagram));
    assert_eq!(decode(&[]), Err(Error::TruncatedDatagram));
    assert_eq!(decode(&[0u8; 100]), Err(Error::TruncatedDatagram));
}

#[test]
fn fields_read_little_endian_at_fixed_offsets() {
    let mut buf = vec![0u8; DATAGRAM_SIZE];
    // is_race_on at offset 0
    buf[0] = 1;
    // timestamp_ms = 0x04030201 at offset 4
    buf[4] = 0x01;
    buf[5] = 0x02;
    buf[6] = 0x03;
    buf[7] = 0x04;
    // engine_max_rpm bits at offset 8
    let bits = 8000.0f32.to_bits().to_le_bytes();
    buf[8..12].copy_from_slice(&bits);
    // lap_number at offset 312, race_position at 314
    buf[312] = 0x34;
    buf[313] = 0x12;
    buf[314] = 3;
    // steer (i8) at offset 320
    buf[320] = 0xff;
    let d = decode(&buf).unwrap();
    assert_eq!(d.sled.is_race_on, 1);
    assert_eq!(d.sled.timestamp_ms, 0x0403_0201);
    assert_eq!(d.sled.engine_max_rpm, 8000.0f32.to_bits());
    assert_eq!(d.dash.lap_number, 0x1234);
    assert_eq!(d.dash.race_position, 3);
    assert_eq!(d.dash.steer, -1);
}

#[test]
fn oversized_buffer_decodes_first_datagram() {
    let mut buf = patterned_buffer();
    let d_exact = decode(&buf).unwrap();
    buf.push(0xaa);
    buf.push(0xbb);
    let d_long = decode(&buf).unwrap();
    assert_eq!(d_exact, d_long);
}
