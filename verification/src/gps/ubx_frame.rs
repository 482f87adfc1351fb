use vstd::prelude::*;
use crate::gps::ubx_parser::{
    lemma_ubx_checksum_push, le_i32, le_u16, le_u32, le_value4, ubx_checksum, ubx_frame, ubx_frame_body,
};

verus! {

// Writing UBX payloads and frames: little-endian field encodings and the framing
// (sync bytes, header, payload, Fletcher checksum) that the frame assembler reads back.

/// The little-endian bytes of a `u16`.
pub open spec fn le_bytes_u16(v: u16) -> Seq<u8> {
    seq![(v % 256) as u8, (v / 256) as u8]
}

/// The little-endian bytes of a `u32`.
pub open spec fn le_bytes_u32(v: u32) -> Seq<u8> {
    seq![(v % 256) as u8, ((v / 256) % 256) as u8, ((v / 65536) % 256) as u8, (v / 16777216) as u8]
}

/// The two's complement bit pattern of an `i32`.
pub open spec fn i32_bits(v: i32) -> u32 {
    if v >= 0 {
        v as u32
    } else {
        (v + 0x1_0000_0000) as u32
    }
}

/// The little-endian two's complement bytes of an `i32`.
pub open spec fn le_bytes_i32(v: i32) -> Seq<u8> {
    le_bytes_u32(i32_bits(v))
}

/// Reading back the bytes of a `u16` gives the value.
pub proof fn lemma_le_u16_roundtrip(s: Seq<u8>, at: int, v: u16)
    requires
        0 <= at,
        at + 2 <= s.len(),
        s[at] == le_bytes_u16(v)[0],
        s[at + 1] == le_bytes_u16(v)[1],
    ensures
        le_u16(s, at) == v,
{
}

/// Reading back the bytes of a `u32` gives the value.
pub proof fn lemma_le_u32_roundtrip(s: Seq<u8>, at: int, v: u32)
    requires
        0 <= at,
        at + 4 <= s.len(),
        s[at] == le_bytes_u32(v)[0],
        s[at + 1] == le_bytes_u32(v)[1],
        s[at + 2] == le_bytes_u32(v)[2],
        s[at + 3] == le_bytes_u32(v)[3],
    ensures
        le_u32(s, at) == v,
        le_value4(s, at) == v,
{
    let b = le_bytes_u32(v);
    assert(b[0] + 256 * b[1] + 65536 * b[2] + 16777216 * b[3] == v) by (nonlinear_arith)
        requires
            b[0] == v % 256,
            b[1] == (v / 256) % 256,
            b[2] == (v / 65536) % 256,
            b[3] == v / 16777216,
    ;
}

/// Reading back the bytes of an `i32` gives the value.
pub proof fn lemma_le_i32_roundtrip(s: Seq<u8>, at: int, v: i32)
    requires
        0 <= at,
        at + 4 <= s.len(),
        s[at] == le_bytes_i32(v)[0],
        s[at + 1] == le_bytes_i32(v)[1],
        s[at + 2] == le_bytes_i32(v)[2],
        s[at + 3] == le_bytes_i32(v)[3],
    ensures
        le_i32(s, at) == v,
{
    lemma_le_u32_roundtrip(s, at, i32_bits(v));
}

/// Writes the little-endian bytes of `v` at `at`.
pub fn write_u16<const N: usize>(buf: &mut [u8; N], at: usize, v: u16)
    requires
        at + 2 <= N,
    ensures
        final(buf)@ == old(buf)@.update(at as int, le_bytes_u16(v)[0]).update(
            at + 1,
            le_bytes_u16(v)[1],
        ),
{
    buf[at] = (v % 256) as u8;
    buf[at + 1] = (v / 256) as u8;
}

/// Writes the little-endian bytes of `v` at `at`.
pub fn write_u32<const N: usize>(buf: &mut [u8; N], at: usize, v: u32)
    requires
        at + 4 <= N,
    ensures
        final(buf)@ == old(buf)@.update(at as int, le_bytes_u32(v)[0]).update(
            at + 1,
            le_bytes_u32(v)[1],
        ).update(at + 2, le_bytes_u32(v)[2]).update(at + 3, le_bytes_u32(v)[3]),
{
    buf[at] = (v % 256) as u8;
    buf[at + 1] = ((v / 256) % 256) as u8;
    buf[at + 2] = ((v / 65536) % 256) as u8;
    buf[at + 3] = (v / 16777216) as u8;
}

/// Writes the little-endian two's complement bytes of `v` at `at`.
pub fn write_i32<const N: usize>(buf: &mut [u8; N], at: usize, v: i32)
    requires
        at + 4 <= N,
    ensures
        final(buf)@ == old(buf)@.update(at as int, le_bytes_i32(v)[0]).update(
            at + 1,
            le_bytes_i32(v)[1],
        ).update(at + 2, le_bytes_i32(v)[2]).update(at + 3, le_bytes_i32(v)[3]),
{
    let bits: u32 = if v >= 0 {
        v as u32
    } else {
        ((v as i64) + 0x1_0000_0000i64) as u32
    };
    write_u32(buf, at, bits);
}

/// The UBX Fletcher checksum of a byte run.
pub fn fletcher_checksum(bytes: &[u8]) -> (r: (u8, u8))
    ensures
        r == ubx_checksum(bytes@),
{
    let mut ck_a: u8 = 0;
    let mut ck_b: u8 = 0;
    let mut i: usize = 0;
    while i < bytes.len()
        invariant
            i <= bytes@.len(),
            (ck_a, ck_b) == ubx_checksum(bytes@.take(i as int)),
        decreases bytes@.len() - i,
    {
        let byte = bytes[i];
        proof {
            assert(bytes@.take(i + 1) =~= bytes@.take(i as int).push(byte));
            lemma_ubx_checksum_push(bytes@.take(i as int), byte);
        }
        ck_a = ck_a.wrapping_add(byte);
        ck_b = ck_b.wrapping_add(ck_a);
        i = i + 1;
    }
    assert(bytes@.take(bytes@.len() as int) =~= bytes@);
    (ck_a, ck_b)
}

/// Writes a whole frame (sync bytes, class, id, length, payload, checksum) into `frame`.
pub fn fill_ubx_frame<const N: usize>(frame: &mut [u8; N], class: u8, id: u8, payload: &[u8])
    requires
        N == payload@.len() + 8,
        payload@.len() <= 256,
    ensures
        final(frame)@ == ubx_frame(class, id, payload@),
{
    let n = payload.len();
    frame[0] = 0xB5;
    frame[1] = 0x62;
    frame[2] = class;
    frame[3] = id;
    frame[4] = (n % 256) as u8;
    frame[5] = (n / 256) as u8;
    let mut i: usize = 0;
    while i < n
        invariant
            N == n + 8,
            n == payload@.len(),
            i <= n,
            frame@.take(6) == seq![0xB5u8, 0x62u8] + ubx_frame_body(class, id, payload@).take(4),
            forall|j: int| 0 <= j < i ==> frame@[6 + j] == payload@[j],
        decreases n - i,
    {
        frame[6 + i] = payload[i];
        i = i + 1;
        assert(frame@.take(6) =~= seq![0xB5u8, 0x62u8] + ubx_frame_body(class, id, payload@).take(
            4,
        ));
    }
    let ghost body = ubx_frame_body(class, id, payload@);
    assert(frame@.subrange(2, 6 + n as int) =~= body) by {
        assert forall|j: int| 0 <= j < n + 4 implies frame@.subrange(2, 6 + n as int)[j]
            == body[j] by {
            if j < 4 {
                assert(frame@.take(6)[2 + j] == (seq![0xB5u8, 0x62u8] + body.take(4))[2 + j]);
            } else {
                assert(frame@[6 + (j - 4)] == payload@[j - 4]);
            }
        }
    }
    let (ck_a, ck_b) = fletcher_checksum(&frame[2..n + 6]);
    frame[n + 6] = ck_a;
    frame[n + 7] = ck_b;
    assert(frame@ =~= ubx_frame(class, id, payload@)) by {
        let f = ubx_frame(class, id, payload@);
        assert forall|j: int| 0 <= j < N implies frame@[j] == f[j] by {
            if j < 2 {
                assert(frame@.take(6)[j] == (seq![0xB5u8, 0x62u8] + body.take(4))[j]);
            } else if j < n + 6 {
                assert(frame@.subrange(2, 6 + n as int)[j - 2] == body[j - 2]);
            }
        }
    }
}

} // verus!
