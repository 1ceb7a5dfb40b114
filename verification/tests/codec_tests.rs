use kegs::codec::KegsPayload;
use kegs::logging::{encode_log, LogLevel};

fn payload_i64(values: &[i64]) -> Vec<u8> {
    let mut p = KegsPayload::new();
    for v in values {
        p.write_i64(*v);
    }
    p.into_bytes()
}

#[test]
fn i64_round_trip() {
    let cases: [i64; 6] = [0, 1, -1, 42, i64::MIN, i64::MAX];
    let bytes = payload_i64(&cases);
    let mut p = KegsPayload::from_bytes(bytes);
    for v in cases {
        assert_eq!(p.read_i64(), v);
    }
    assert_eq!(p.available(), 0);
}

#[test]
fn f32_round_trip() {
    let cases: [f32; 5] = [0.0, 1.5, -1000001.0, 127.5, f32::MAX];
    let mut p = KegsPayload::new();
    for v in cases {
        p.write_f32(v.to_bits());
    }
    let mut r = KegsPayload::from_bytes(p.into_bytes());
    for v in cases {
        assert_eq!(f32::from_bits(r.read_f32()), v);
    }
    assert_eq!(r.available(), 0);
}

#[test]
fn mixed_stream_round_trip() {
    let mut p = KegsPayload::new();
    p.write_i64(-7);
    p.write_f32(2.25f32.to_bits());
    p.write_bytes(&[9, 8, 7]);
    let mut r = KegsPayload::from_bytes(p.into_bytes());
    assert_eq!(r.read_i64(), -7);
    assert_eq!(f32::from_bits(r.read_f32()), 2.25);
    assert_eq!(r.read_bytes(), vec![9, 8, 7]);
    assert_eq!(r.available(), 0);
}

#[test]
fn empty_blob_reads_empty() {
    let mut p = KegsPayload::new();
    p.write_bytes(&[]);
    let mut r = KegsPayload::from_bytes(p.into_bytes());
    assert_eq!(r.read_bytes(), Vec::<u8>::new());
    assert_eq!(r.available(), 0);
}

#[test]
fn string_round_trip() {
    let mut p = KegsPayload::new();
    p.write_bytes("hello".as_bytes());
    let mut r = KegsPayload::from_bytes(p.into_bytes());
    assert_eq!(r.read_string(), Some(String::from("hello")));
    assert_eq!(r.available(), 0);
}

#[test]
fn invalid_utf8_string_is_none() {
    let mut p = KegsPayload::new();
    p.write_bytes(&[0xff, 0xfe]);
    let mut r = KegsPayload::from_bytes(p.into_bytes());
    assert_eq!(r.read_string(), None);
    assert_eq!(r.available(), 0);
}

#[test]
fn little_endian_layout() {
    let mut p = KegsPayload::new();
    p.write_i64(0x0102_0304_0506_0708);
    let bytes = p.into_bytes();
    assert_eq!(bytes, vec![8, 7, 6, 5, 4, 3, 2, 1]);
}

#[test]
fn preallocated_starts_empty() {
    let p = KegsPayload::preallocated(64);
    assert_eq!(p.into_bytes(), Vec::<u8>::new());
}

#[test]
fn auto_sentinel_bit_pattern() {
    assert_eq!((-1000001.0f32).to_bits(), 0xC974_2410);
    assert_eq!(kegs::channels::AUTO_VALUE_BITS, 0xC974_2410);
}

#[test]
fn add_test_sums() {
    let mut p = KegsPayload::new();
    p.write_i64(2);
    p.write_i64(3);
    let out = kegs::add_test(p.into_bytes());
    let mut r = KegsPayload::from_bytes(out);
    assert_eq!(r.read_i64(), 5);
    assert_eq!(r.available(), 0);
}

#[test]
fn log_record_layout() {
    let rec = encode_log(LogLevel::Info, "hi");
    let mut r = KegsPayload::from_bytes(rec);
    assert_eq!(r.read_i64(), 20);
    assert_eq!(r.read_string(), Some(String::from("hi")));
    assert_eq!(r.available(), 0);
}

#[test]
fn log_level_codes() {
    assert_eq!(LogLevel::Trace.code(), 0);
    assert_eq!(LogLevel::Debug.code(), 10);
    assert_eq!(LogLevel::Info.code(), 20);
    assert_eq!(LogLevel::Warn.code(), 30);
    assert_eq!(LogLevel::Error.code(), 40);
    assert_eq!(LogLevel::Critical.code(), 50);
}
