use netspeed_core::bus::TelemetrySample;
use netspeed_core::wire::{decode_datagram, encode_sample, push_u64_le, read_u64_le};

fn zero() -> TelemetrySample {
    TelemetrySample::default()
}

fn sample(a: u64, b: u64, c: u64, d: u64, e: u64, f: u64) -> TelemetrySample {
    TelemetrySample {
        direct_up_bps: a,
        direct_down_bps: b,
        proxy_up_bps: c,
        proxy_down_bps: d,
        bypass_up_bps: e,
        bypass_down_bps: f,
    }
}

/// `len` bytes in which counter `k` (as far as it fits) is `k + 1`.
fn counted(len: usize) -> Vec<u8> {
    let mut full = Vec::new();
    for k in 0..16u64 {
        full.extend_from_slice(&(k + 1).to_le_bytes());
    }
    full.truncate(len);
    full
}

#[test]
fn default_sample_is_all_zero() {
    assert_eq!(zero(), sample(0, 0, 0, 0, 0, 0));
}

#[test]
fn empty_datagram_decodes_to_zero() {
    assert_eq!(decode_datagram(&[]), zero());
}

#[test]
fn datagram_of_31_bytes_decodes_to_zero() {
    let d = vec![0xffu8; 31];
    assert_eq!(decode_datagram(&d), zero());
}

#[test]
fn every_length_below_32_decodes_to_zero() {
    for len in 0..32usize {
        assert_eq!(decode_datagram(&counted(len)), zero(), "length {}", len);
    }
}

#[test]
fn lengths_from_32_to_47_fill_four_counters() {
    for len in 32..48usize {
        assert_eq!(decode_datagram(&counted(len)), sample(1, 2, 3, 4, 0, 0), "length {}", len);
    }
}

#[test]
fn length_48_fills_all_six_counters() {
    assert_eq!(decode_datagram(&counted(48)), sample(1, 2, 3, 4, 5, 6));
}

#[test]
fn lengths_above_48_leave_the_bypass_pair_zero() {
    for len in [49usize, 56, 64, 128] {
        assert_eq!(decode_datagram(&counted(len)), sample(1, 2, 3, 4, 0, 0), "length {}", len);
    }
}

#[test]
fn scenario_32_byte_datagram() {
    let mut d = Vec::new();
    d.extend_from_slice(&1000u64.to_le_bytes());
    d.extend_from_slice(&2000u64.to_le_bytes());
    d.extend_from_slice(&0u64.to_le_bytes());
    d.extend_from_slice(&0u64.to_le_bytes());
    assert_eq!(d.len(), 32);
    assert_eq!(decode_datagram(&d), sample(1000, 2000, 0, 0, 0, 0));
}

#[test]
fn counters_are_little_endian() {
    let mut d = vec![0u8; 48];
    d[0] = 0x01;
    d[1] = 0x02;
    d[15] = 0x80;
    d[47] = 0x01;
    let s = decode_datagram(&d);
    assert_eq!(s.direct_up_bps, 0x0201);
    assert_eq!(s.direct_down_bps, 0x8000_0000_0000_0000);
    assert_eq!(s.bypass_down_bps, 0x0100_0000_0000_0000);
}

#[test]
fn read_u64_le_matches_std() {
    let d: Vec<u8> = (1..=24u8).collect();
    for at in 0..=16usize {
        let mut w = [0u8; 8];
        w.copy_from_slice(&d[at..at + 8]);
        assert_eq!(read_u64_le(&d, at), u64::from_le_bytes(w));
    }
    assert_eq!(read_u64_le(&[0xff; 8], 0), u64::MAX);
    assert_eq!(read_u64_le(&[0xe8, 0x03, 0, 0, 0, 0, 0, 0], 0), 1000);
}

#[test]
fn push_u64_le_appends_eight_bytes() {
    let mut out = vec![0xaau8];
    push_u64_le(&mut out, 0x0102_0304_0506_0708);
    assert_eq!(out, vec![0xaa, 8, 7, 6, 5, 4, 3, 2, 1]);
    let mut out = Vec::new();
    push_u64_le(&mut out, u64::MAX);
    assert_eq!(out, vec![0xff; 8]);
}

#[test]
fn encoding_is_48_bytes_in_field_order() {
    let e = encode_sample(&sample(1, 2, 3, 4, 5, 6));
    assert_eq!(e, counted(48));
    let e = encode_sample(&sample(1000, 0, 0, 0, 0, 0x0100));
    assert_eq!(e.len(), 48);
    assert_eq!(&e[0..8], &[0xe8, 0x03, 0, 0, 0, 0, 0, 0]);
    assert_eq!(&e[40..48], &[0, 1, 0, 0, 0, 0, 0, 0]);
}

#[test]
fn encode_then_decode_gives_the_sample_back() {
    let cases = [
        zero(),
        sample(1, 2, 3, 4, 5, 6),
        sample(u64::MAX, 0, u64::MAX, 0, u64::MAX, 0),
        sample(0x0123_4567_89ab_cdef, 255, 256, 65535, 65536, 1 << 63),
        sample(u64::MAX, u64::MAX, u64::MAX, u64::MAX, u64::MAX, u64::MAX),
    ];
    for s in cases {
        let e = encode_sample(&s);
        assert_eq!(e.len(), 48);
        assert_eq!(decode_datagram(&e), s);
    }
}

#[test]
fn truncated_encoding_loses_the_bypass_pair() {
    let e = encode_sample(&sample(9, 8, 7, 6, 5, 4));
    assert_eq!(decode_datagram(&e[..40]), sample(9, 8, 7, 6, 0, 0));
    assert_eq!(decode_datagram(&e[..32]), sample(9, 8, 7, 6, 0, 0));
    assert_eq!(decode_datagram(&e[..24]), zero());
}
