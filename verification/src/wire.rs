//! Byte order and the fixed-width integer encodings of the X11 wire format.
use vstd::prelude::*;

verus! {

/// The byte order a client announced in its connection setup.
#[derive(Clone, Copy, Debug, PartialEq, Eq, Structural)]
pub enum XByteOrder {
    LittleEndian,
    BigEndian,
}

/// The two bytes of `v` in `order`.
pub open spec fn u16_bytes(order: XByteOrder, v: u16) -> Seq<u8> {
    match order {
        XByteOrder::LittleEndian => seq![v as u8, (v >> 8u16) as u8],
        XByteOrder::BigEndian => seq![(v >> 8u16) as u8, v as u8],
    }
}

/// The four bytes of `v` in `order`.
pub open spec fn u32_bytes(order: XByteOrder, v: u32) -> Seq<u8> {
    let le = seq![v as u8, (v >> 8u32) as u8, (v >> 16u32) as u8, (v >> 24u32) as u8];
    match order {
        XByteOrder::LittleEndian => le,
        XByteOrder::BigEndian => le.reverse(),
    }
}

/// The eight bytes of `v` in `order`.
pub open spec fn u64_bytes(order: XByteOrder, v: u64) -> Seq<u8> {
    let le = seq![
        v as u8,
        (v >> 8u64) as u8,
        (v >> 16u64) as u8,
        (v >> 24u64) as u8,
        (v >> 32u64) as u8,
        (v >> 40u64) as u8,
        (v >> 48u64) as u8,
        (v >> 56u64) as u8,
    ];
    match order {
        XByteOrder::LittleEndian => le,
        XByteOrder::BigEndian => le.reverse(),
    }
}

/// `s` with the bytes from `at` on replaced by `b`.
pub open spec fn splice(s: Seq<u8>, at: int, b: Seq<u8>) -> Seq<u8> {
    s.subrange(0, at) + b + s.subrange(at + b.len(), s.len() as int)
}

/// `n` rounded up to a whole number of four-byte units.
pub open spec fn spec_padded_len(n: int) -> int {
    (n + 3) / 4 * 4
}

/// `n` rounded up to a whole number of four-byte units.
pub fn padded_len(n: usize) -> (padded: usize)
    requires
        n + 3 <= usize::MAX,
    ensures
        padded == spec_padded_len(n as int),
        n <= padded < n + 4,
        padded % 4 == 0,
{
    (n + 3) / 4 * 4
}

pub fn u16_to_bytes(order: XByteOrder, v: u16) -> (bytes: [u8; 2])
    ensures
        bytes@ == u16_bytes(order, v),
{
    let lo = v as u8;
    let hi = (v >> 8u16) as u8;
    let bytes = match order {
        XByteOrder::LittleEndian => [lo, hi],
        XByteOrder::BigEndian => [hi, lo],
    };
    assert(bytes@ =~= u16_bytes(order, v));
    bytes
}

pub fn u32_to_bytes(order: XByteOrder, v: u32) -> (bytes: [u8; 4])
    ensures
        bytes@ == u32_bytes(order, v),
{
    let b0 = v as u8;
    let b1 = (v >> 8u32) as u8;
    let b2 = (v >> 16u32) as u8;
    let b3 = (v >> 24u32) as u8;
    let bytes = match order {
        XByteOrder::LittleEndian => [b0, b1, b2, b3],
        XByteOrder::BigEndian => [b3, b2, b1, b0],
    };
    assert(bytes@ =~= u32_bytes(order, v));
    bytes
}

pub fn u64_to_bytes(order: XByteOrder, v: u64) -> (bytes: [u8; 8])
    ensures
        bytes@ == u64_bytes(order, v),
{
    let b0 = v as u8;
    let b1 = (v >> 8u64) as u8;
    let b2 = (v >> 16u64) as u8;
    let b3 = (v >> 24u64) as u8;
    let b4 = (v >> 32u64) as u8;
    let b5 = (v >> 40u64) as u8;
    let b6 = (v >> 48u64) as u8;
    let b7 = (v >> 56u64) as u8;
    let bytes = match order {
        XByteOrder::LittleEndian => [b0, b1, b2, b3, b4, b5, b6, b7],
        XByteOrder::BigEndian => [b7, b6, b5, b4, b3, b2, b1, b0],
    };
    assert(bytes@ =~= u64_bytes(order, v));
    bytes
}

/// Writes `b` into `out` from `at` on.
fn put_bytes(out: &mut Vec<u8>, at: usize, b: &[u8])
    requires
        at + b@.len() <= old(out)@.len(),
    ensures
        final(out)@ == splice(old(out)@, at as int, b@),
{
    let len = out.len();
    let mut i: usize = 0;
    while i < b.len()
        invariant
            len == out@.len(),
            at + b@.len() <= out@.len(),
            out@.len() == old(out)@.len(),
            i <= b@.len(),
            out@ =~= splice(old(out)@, at as int, b@.subrange(0, i as int)),
        decreases b@.len() - i,
    {
        out.set(at + i, b[i]);
        i = i + 1;
    }
    assert(b@.subrange(0, b@.len() as int) =~= b@);
}

/// Writes `value` into `out` at `at` in `order`.
pub fn put_u16(order: XByteOrder, out: &mut Vec<u8>, at: usize, value: u16)
    requires
        at + 2 <= old(out)@.len(),
    ensures
        final(out)@ == splice(old(out)@, at as int, u16_bytes(order, value)),
{
    let bytes = u16_to_bytes(order, value);
    put_bytes(out, at, &bytes);
}

/// Writes `value` into `out` at `at` in `order`, as two's complement.
pub fn put_i16(order: XByteOrder, out: &mut Vec<u8>, at: usize, value: i16)
    requires
        at + 2 <= old(out)@.len(),
    ensures
        final(out)@ == splice(old(out)@, at as int, u16_bytes(order, value as u16)),
{
    put_u16(order, out, at, value as u16);
}

/// Writes `value` into `out` at `at` in `order`.
pub fn put_u32(order: XByteOrder, out: &mut Vec<u8>, at: usize, value: u32)
    requires
        at + 4 <= old(out)@.len(),
    ensures
        final(out)@ == splice(old(out)@, at as int, u32_bytes(order, value)),
{
    let bytes = u32_to_bytes(order, value);
    put_bytes(out, at, &bytes);
}

/// Writes `value` into `out` at `at` in `order`.
pub fn put_u64(order: XByteOrder, out: &mut Vec<u8>, at: usize, value: u64)
    requires
        at + 8 <= old(out)@.len(),
    ensures
        final(out)@ == splice(old(out)@, at as int, u64_bytes(order, value)),
{
    let bytes = u64_to_bytes(order, value);
    put_bytes(out, at, &bytes);
}

/// Appends `value` to `out` in `order`.
pub fn push_u16(order: XByteOrder, out: &mut Vec<u8>, value: u16)
    ensures
        final(out)@ == old(out)@ + u16_bytes(order, value),
{
    let bytes = u16_to_bytes(order, value);
    out.push(bytes[0]);
    out.push(bytes[1]);
    assert(out@ =~= old(out)@ + u16_bytes(order, value));
}

/// Appends `value` to `out` in `order`.
pub fn push_u32(order: XByteOrder, out: &mut Vec<u8>, value: u32)
    ensures
        final(out)@ == old(out)@ + u32_bytes(order, value),
{
    let bytes = u32_to_bytes(order, value);
    out.push(bytes[0]);
    out.push(bytes[1]);
    out.push(bytes[2]);
    out.push(bytes[3]);
    assert(out@ =~= old(out)@ + u32_bytes(order, value));
}

/// Appends `value` to `out` in `order`.
pub fn push_u64(order: XByteOrder, out: &mut Vec<u8>, value: u64)
    ensures
        final(out)@ == old(out)@ + u64_bytes(order, value),
{
    let bytes = u64_to_bytes(order, value);
    let mut i: usize = 0;
    while i < 8
        invariant
            i <= 8,
            bytes@ == u64_bytes(order, value),
            out@ =~= old(out)@ + bytes@.subrange(0, i as int),
        decreases 8 - i,
    {
        out.push(bytes[i]);
        i = i + 1;
    }
    assert(bytes@.subrange(0, 8) =~= bytes@);
}

/// Appends `value` to `out` in `order`, as two's complement.
pub fn push_i64(order: XByteOrder, out: &mut Vec<u8>, value: i64)
    ensures
        final(out)@ == old(out)@ + u64_bytes(order, value as u64),
{
    push_u64(order, out, value as u64);
}


/// The 32-bit value the four bytes of `s` from `at` on hold in `order`.
pub open spec fn u32_at(order: XByteOrder, s: Seq<u8>, at: int) -> u32 {
    let (b0, b1, b2, b3) = match order {
        XByteOrder::LittleEndian => (s[at], s[at + 1], s[at + 2], s[at + 3]),
        XByteOrder::BigEndian => (s[at + 3], s[at + 2], s[at + 1], s[at]),
    };
    (b0 as u32) | ((b1 as u32) << 8u32) | ((b2 as u32) << 16u32) | ((b3 as u32) << 24u32)
}

/// Reads the 32-bit value at `at` in `order`.
pub fn read_u32(order: XByteOrder, bytes: &[u8], at: usize) -> (value: u32)
    requires
        at + 4 <= bytes@.len(),
    ensures
        value == u32_at(order, bytes@, at as int),
{
    let _len = bytes.len();
    let (b0, b1, b2, b3) = match order {
        XByteOrder::LittleEndian => (bytes[at], bytes[at + 1], bytes[at + 2], bytes[at + 3]),
        XByteOrder::BigEndian => (bytes[at + 3], bytes[at + 2], bytes[at + 1], bytes[at]),
    };
    (b0 as u32) | ((b1 as u32) << 8u32) | ((b2 as u32) << 16u32) | ((b3 as u32) << 24u32)
}

/// Reading a 32-bit value back from the bytes written for it gives the value,
/// in either byte order.
pub proof fn law_u32_read_inverts_write(order: XByteOrder, v: u32)
    ensures
        u32_at(order, u32_bytes(order, v), 0) == v,
{
    let b0 = v as u8;
    let b1 = (v >> 8u32) as u8;
    let b2 = (v >> 16u32) as u8;
    let b3 = (v >> 24u32) as u8;
    assert((b0 as u32) | ((b1 as u32) << 8u32) | ((b2 as u32) << 16u32) | ((b3 as u32) << 24u32)
        == v) by (bit_vector)
        requires
            b0 == v as u8,
            b1 == (v >> 8u32) as u8,
            b2 == (v >> 16u32) as u8,
            b3 == (v >> 24u32) as u8,
    ;
    let s = u32_bytes(order, v);
    match order {
        XByteOrder::LittleEndian => {
            assert(s[0] == b0 && s[1] == b1 && s[2] == b2 && s[3] == b3);
        },
        XByteOrder::BigEndian => {
            assert(s[3] == b0 && s[2] == b1 && s[1] == b2 && s[0] == b3);
        },
    }
}

/// The 16-bit value the two bytes of `s` from `at` on hold in `order`.
pub open spec fn u16_at(order: XByteOrder, s: Seq<u8>, at: int) -> u16 {
    let (b0, b1) = match order {
        XByteOrder::LittleEndian => (s[at], s[at + 1]),
        XByteOrder::BigEndian => (s[at + 1], s[at]),
    };
    (b0 as u16) | ((b1 as u16) << 8u16)
}

/// Reading a 16-bit value back from the bytes written for it gives the value,
/// in either byte order.
pub proof fn law_u16_read_inverts_write(order: XByteOrder, v: u16)
    ensures
        u16_at(order, u16_bytes(order, v), 0) == v,
{
    let b0 = v as u8;
    let b1 = (v >> 8u16) as u8;
    assert((b0 as u16) | ((b1 as u16) << 8u16) == v) by (bit_vector)
        requires
            b0 == v as u8,
            b1 == (v >> 8u16) as u8,
    ;
    let s = u16_bytes(order, v);
    match order {
        XByteOrder::LittleEndian => {
            assert(s[0] == b0 && s[1] == b1);
        },
        XByteOrder::BigEndian => {
            assert(s[1] == b0 && s[0] == b1);
        },
    }
}

/// The two bytes written for a 16-bit value are two bytes long.
pub proof fn lemma_u16_bytes_len(order: XByteOrder, v: u16)
    ensures
        u16_bytes(order, v).len() == 2,
{
}

/// The four bytes written for a 32-bit value are four bytes long.
pub proof fn lemma_u32_bytes_len(order: XByteOrder, v: u32)
    ensures
        u32_bytes(order, v).len() == 4,
{
}

/// A 16-bit value written at `at` in a longer record reads back from there.
pub proof fn lemma_u16_at_written(order: XByteOrder, s: Seq<u8>, at: int, v: u16)
    requires
        0 <= at,
        at + 2 <= s.len(),
        s.subrange(at, at + 2) == u16_bytes(order, v),
    ensures
        u16_at(order, s, at) == v,
{
    law_u16_read_inverts_write(order, v);
    let w = u16_bytes(order, v);
    assert(s[at] == w[0]);
    assert(s[at + 1] == w[1]);
}

} // verus!
