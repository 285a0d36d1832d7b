//! The telemetry datagram: six unsigned 64-bit counters, little-endian, in a
//! fixed order. How many of them a datagram carries follows from its length
//! alone; there is no checksum and no version.

use vstd::prelude::*;
use crate::bus::TelemetrySample;

verus! {

/// Length from which a datagram carries the direct and the proxied pair.
pub const BASE_LEN: usize = 32;

/// The one length at which a datagram also carries the bypass pair.
pub const FULL_LEN: usize = 48;

/// The number that the eight bytes from `at` on spell, lowest byte first.
pub open spec fn le_value(bytes: Seq<u8>, at: int) -> int {
    bytes[at] as int
        + 0x100 * (bytes[at + 1] as int)
        + 0x1_0000 * (bytes[at + 2] as int)
        + 0x100_0000 * (bytes[at + 3] as int)
        + 0x1_0000_0000 * (bytes[at + 4] as int)
        + 0x100_0000_0000 * (bytes[at + 5] as int)
        + 0x1_0000_0000_0000 * (bytes[at + 6] as int)
        + 0x100_0000_0000_0000 * (bytes[at + 7] as int)
}

/// The eight bytes of `v`, lowest first.
pub open spec fn le_bytes(v: u64) -> Seq<u8> {
    seq![
        (v % 0x100) as u8,
        (v / 0x100 % 0x100) as u8,
        (v / 0x1_0000 % 0x100) as u8,
        (v / 0x100_0000 % 0x100) as u8,
        (v / 0x1_0000_0000 % 0x100) as u8,
        (v / 0x100_0000_0000 % 0x100) as u8,
        (v / 0x1_0000_0000_0000 % 0x100) as u8,
        (v / 0x100_0000_0000_0000 % 0x100) as u8,
    ]
}

/// The sample a datagram stands for. Below 32 bytes nothing is read. From 32
/// bytes on the first four counters are read. The bypass pair is read at
/// exactly 48 bytes and at no other length. What is not read is zero.
pub open spec fn decode_spec(d: Seq<u8>) -> TelemetrySample {
    TelemetrySample {
        direct_up_bps: if d.len() >= 32 { le_value(d, 0) as u64 } else { 0 },
        direct_down_bps: if d.len() >= 32 { le_value(d, 8) as u64 } else { 0 },
        proxy_up_bps: if d.len() >= 32 { le_value(d, 16) as u64 } else { 0 },
        proxy_down_bps: if d.len() >= 32 { le_value(d, 24) as u64 } else { 0 },
        bypass_up_bps: if d.len() == 48 { le_value(d, 32) as u64 } else { 0 },
        bypass_down_bps: if d.len() == 48 { le_value(d, 40) as u64 } else { 0 },
    }
}

/// The 48 bytes that carry all six counters of a sample.
pub open spec fn encode_spec(s: TelemetrySample) -> Seq<u8> {
    le_bytes(s.direct_up_bps) + le_bytes(s.direct_down_bps) + le_bytes(s.proxy_up_bps)
        + le_bytes(s.proxy_down_bps) + le_bytes(s.bypass_up_bps) + le_bytes(s.bypass_down_bps)
}

/// Eight bytes always spell a number that fits in 64 bits.
pub proof fn lemma_le_value_fits(bytes: Seq<u8>, at: int)
    requires
        0 <= at,
        at + 8 <= bytes.len(),
    ensures
        0 <= le_value(bytes, at) <= u64::MAX,
{
}

/// Reads the little-endian counter that starts at `at`.
pub fn read_u64_le(data: &[u8], at: usize) -> (v: u64)
    requires
        at + 8 <= data.len(),
    ensures
        v == le_value(data@, at as int),
{
    let b0: u64 = data[at] as u64;
    let b1: u64 = data[at + 1] as u64;
    let b2: u64 = data[at + 2] as u64;
    let b3: u64 = data[at + 3] as u64;
    let b4: u64 = data[at + 4] as u64;
    let b5: u64 = data[at + 5] as u64;
    let b6: u64 = data[at + 6] as u64;
    let b7: u64 = data[at + 7] as u64;
    b0 + 0x100 * b1 + 0x1_0000 * b2 + 0x100_0000 * b3 + 0x1_0000_0000 * b4 + 0x100_0000_0000 * b5
        + 0x1_0000_0000_0000 * b6 + 0x100_0000_0000_0000 * b7
}

/// Decodes one datagram. Every datagram decodes: a short or an odd-sized one
/// gives a sample with fewer counters filled in, never an error. Nothing of an
/// earlier sample enters the result.
pub fn decode_datagram(datagram: &[u8]) -> (s: TelemetrySample)
    ensures
        s == decode_spec(datagram@),
        datagram@.len() < 32 ==> s == TelemetrySample::zero(),
        datagram@.len() != 48 ==> s.bypass_up_bps == 0 && s.bypass_down_bps == 0,
        datagram@.len() >= 32 ==> s.direct_up_bps == le_value(datagram@, 0) && s.direct_down_bps
            == le_value(datagram@, 8) && s.proxy_up_bps == le_value(datagram@, 16)
            && s.proxy_down_bps == le_value(datagram@, 24),
        datagram@.len() == 48 ==> s.bypass_up_bps == le_value(datagram@, 32) && s.bypass_down_bps
            == le_value(datagram@, 40),
{
    let mut s = TelemetrySample::default();
    let n: usize = datagram.len();
    if n >= BASE_LEN {
        s.direct_up_bps = read_u64_le(datagram, 0);
        s.direct_down_bps = read_u64_le(datagram, 8);
        s.proxy_up_bps = read_u64_le(datagram, 16);
        s.proxy_down_bps = read_u64_le(datagram, 24);
    }
    if n == FULL_LEN {
        s.bypass_up_bps = read_u64_le(datagram, 32);
        s.bypass_down_bps = read_u64_le(datagram, 40);
    }
    s
}

/// Appends the eight bytes of `v`, lowest first.
#[verifier::rlimit(60)]
pub fn push_u64_le(out: &mut Vec<u8>, v: u64)
    ensures
        final(out)@ == old(out)@ + le_bytes(v),
{
    out.push((v % 0x100) as u8);
    out.push((v / 0x100 % 0x100) as u8);
    out.push((v / 0x1_0000 % 0x100) as u8);
    out.push((v / 0x100_0000 % 0x100) as u8);
    out.push((v / 0x1_0000_0000 % 0x100) as u8);
    out.push((v / 0x100_0000_0000 % 0x100) as u8);
    out.push((v / 0x1_0000_0000_0000 % 0x100) as u8);
    out.push((v / 0x100_0000_0000_0000 % 0x100) as u8);
    assert(out@ =~= old(out)@ + le_bytes(v));
}

/// Encodes a sample as the full 48-byte datagram.
#[verifier::rlimit(60)]
pub fn encode_sample(s: &TelemetrySample) -> (out: Vec<u8>)
    ensures
        out@ == encode_spec(*s),
        out@.len() == 48,
{
    let mut out: Vec<u8> = Vec::new();
    push_u64_le(&mut out, s.direct_up_bps);
    assert(out@ =~= le_bytes(s.direct_up_bps));
    push_u64_le(&mut out, s.direct_down_bps);
    push_u64_le(&mut out, s.proxy_up_bps);
    push_u64_le(&mut out, s.proxy_down_bps);
    push_u64_le(&mut out, s.bypass_up_bps);
    push_u64_le(&mut out, s.bypass_down_bps);
    proof {
        lemma_encoding_layout(*s);
    }
    out
}

/// The eight bytes of a number spell that number again.
#[verifier::rlimit(60)]
pub proof fn lemma_le_round_trip(v: u64)
    ensures
        le_bytes(v).len() == 8,
        le_value(le_bytes(v), 0) == v,
{
    let x: int = v as int;
    let q1 = x / 0x100;
    let q2 = x / 0x1_0000;
    let q3 = x / 0x100_0000;
    let q4 = x / 0x1_0000_0000;
    let q5 = x / 0x100_0000_0000;
    let q6 = x / 0x1_0000_0000_0000;
    let q7 = x / 0x100_0000_0000_0000;
    assert(q2 == q1 / 0x100);
    assert(q3 == q2 / 0x100);
    assert(q4 == q3 / 0x100);
    assert(q5 == q4 / 0x100);
    assert(q6 == q5 / 0x100);
    assert(q7 == q6 / 0x100);
    assert(q7 < 0x100);
}

/// Where eight bytes of a sequence are the bytes of a number, the sequence
/// spells that number there.
pub proof fn lemma_le_value_at(all: Seq<u8>, at: int, v: u64)
    requires
        0 <= at,
        at + 8 <= all.len(),
        all.subrange(at, at + 8) == le_bytes(v),
    ensures
        le_value(all, at) == v,
{
    lemma_le_round_trip(v);
    let part = all.subrange(at, at + 8);
    assert forall|k: int| 0 <= k < 8 implies all[at + k] == le_bytes(v)[k] by {
        assert(part[k] == all[at + k]);
    }
}

/// The encoding is 48 bytes long and holds the six counters one after
/// another, eight bytes each.
#[verifier::rlimit(60)]
pub proof fn lemma_encoding_layout(s: TelemetrySample)
    ensures
        encode_spec(s).len() == 48,
        encode_spec(s).subrange(0, 8) == le_bytes(s.direct_up_bps),
        encode_spec(s).subrange(8, 16) == le_bytes(s.direct_down_bps),
        encode_spec(s).subrange(16, 24) == le_bytes(s.proxy_up_bps),
        encode_spec(s).subrange(24, 32) == le_bytes(s.proxy_down_bps),
        encode_spec(s).subrange(32, 40) == le_bytes(s.bypass_up_bps),
        encode_spec(s).subrange(40, 48) == le_bytes(s.bypass_down_bps),
{
    let b0 = le_bytes(s.direct_up_bps);
    let b1 = le_bytes(s.direct_down_bps);
    let b2 = le_bytes(s.proxy_up_bps);
    let b3 = le_bytes(s.proxy_down_bps);
    let b4 = le_bytes(s.bypass_up_bps);
    let b5 = le_bytes(s.bypass_down_bps);
    let e1 = b0 + b1;
    let e2 = e1 + b2;
    let e3 = e2 + b3;
    let e4 = e3 + b4;
    let e = e4 + b5;
    assert(b0.len() == 8 && b1.len() == 8 && b2.len() == 8);
    assert(b3.len() == 8 && b4.len() == 8 && b5.len() == 8);
    assert(e == encode_spec(s));
    assert(e.subrange(40, 48) =~= b5);
    assert(e.subrange(0, 40) =~= e4);
    assert(e.subrange(32, 40) =~= e4.subrange(32, 40));
    assert(e4.subrange(32, 40) =~= b4);
    assert(e.subrange(24, 32) =~= e3.subrange(24, 32));
    assert(e3.subrange(24, 32) =~= b3);
    assert(e.subrange(16, 24) =~= e2.subrange(16, 24));
    assert(e2.subrange(16, 24) =~= b2);
    assert(e.subrange(8, 16) =~= e1.subrange(8, 16));
    assert(e1.subrange(8, 16) =~= b1);
    assert(e.subrange(0, 8) =~= b0);
}

/// Encoding a sample and decoding the 48 bytes gives the sample back, every
/// counter exact.
pub proof fn lemma_round_trip(s: TelemetrySample)
    ensures
        encode_spec(s).len() == 48,
        decode_spec(encode_spec(s)) == s,
{
    let e = encode_spec(s);
    lemma_encoding_layout(s);
    lemma_le_value_at(e, 0, s.direct_up_bps);
    lemma_le_value_at(e, 8, s.direct_down_bps);
    lemma_le_value_at(e, 16, s.proxy_up_bps);
    lemma_le_value_at(e, 24, s.proxy_down_bps);
    lemma_le_value_at(e, 32, s.bypass_up_bps);
    lemma_le_value_at(e, 40, s.bypass_down_bps);
}

} // verus!
