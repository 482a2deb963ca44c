//! Building blocks of reply records: the common reply header, the padding
//! that rounds a variable part up to four bytes, the saturating narrowings
//! count fields are written with, and the byte strings of integer lists.
use vstd::prelude::*;

use crate::client_output::{push_zeros, raw_xid, raw_xid_of, zero_bytes};
use crate::resource::XResourceId;
use crate::wire::{
    XByteOrder, push_u16, push_u32, push_u64, spec_padded_len, u16_bytes, u32_bytes, u64_bytes,
};

verus! {

/// The first eight bytes of every reply: the reply marker, one byte of
/// reply-specific data, the sequence number, and the length in four-byte
/// units of what follows the first 32 bytes.
pub open spec fn reply_head(order: XByteOrder, detail: u8, sequence: u16, units: u32) -> Seq<u8> {
    seq![1u8, detail] + u16_bytes(order, sequence) + u32_bytes(order, units)
}

/// The zeros that round `n` bytes up to a four-byte boundary.
pub open spec fn pad_bytes(n: int) -> Seq<u8> {
    zero_bytes((spec_padded_len(n) - n) as nat)
}

/// `s` followed by the zeros that round it up to a four-byte boundary.
pub open spec fn pad_to_four(s: Seq<u8>) -> Seq<u8> {
    s + pad_bytes(s.len() as int)
}

/// `n` as a byte, or `fallback` where it does not fit.
pub open spec fn fit_u8(n: int, fallback: u8) -> u8 {
    if 0 <= n <= u8::MAX {
        n as u8
    } else {
        fallback
    }
}

/// `n` as a `u16`, or `fallback` where it does not fit.
pub open spec fn fit_u16(n: int, fallback: u16) -> u16 {
    if 0 <= n <= u16::MAX {
        n as u16
    } else {
        fallback
    }
}

/// `n` as a `u32`, or `fallback` where it does not fit.
pub open spec fn fit_u32(n: int, fallback: u32) -> u32 {
    if 0 <= n <= u32::MAX {
        n as u32
    } else {
        fallback
    }
}

/// `n` as an `i16`, or zero where it does not fit.
pub open spec fn fit_i16(n: int) -> i16 {
    if i16::MIN <= n <= i16::MAX {
        n as i16
    } else {
        0
    }
}

pub fn fit_u8_of(n: usize, fallback: u8) -> (v: u8)
    ensures
        v == fit_u8(n as int, fallback),
{
    if n <= 255 {
        n as u8
    } else {
        fallback
    }
}

pub fn fit_u16_of(n: usize, fallback: u16) -> (v: u16)
    ensures
        v == fit_u16(n as int, fallback),
{
    if n <= 65535 {
        n as u16
    } else {
        fallback
    }
}

pub fn fit_u32_of(n: usize, fallback: u32) -> (v: u32)
    ensures
        v == fit_u32(n as int, fallback),
{
    if n as u64 <= 0xffff_ffffu64 {
        n as u32
    } else {
        fallback
    }
}

pub fn fit_i16_of(n: i32) -> (v: i16)
    ensures
        v == fit_i16(n as int),
{
    if -32768 <= n && n <= 32767 {
        n as i16
    } else {
        0
    }
}

proof fn lemma_padded_len(n: int)
    requires
        n >= 0,
    ensures
        spec_padded_len(n) / 4 == (if n % 4 == 0 {
            n / 4
        } else {
            n / 4 + 1
        }),
        spec_padded_len(n) - n == (if n % 4 == 0 {
            0
        } else {
            4 - n % 4
        }),
{
    let q = n / 4;
    let r = n % 4;
    assert(n == 4 * q + r && 0 <= r < 4);
    assert(spec_padded_len(n) == (n + 3) / 4 * 4);
    if r == 0 {
        assert((n + 3) / 4 == q);
    } else {
        assert((n + 3) / 4 == q + 1);
    }
}

/// `n` rounded up to four bytes, counted in four-byte units; it cannot
/// overflow where `padded_len` could.
pub fn padded_units(n: usize) -> (units: usize)
    ensures
        units == spec_padded_len(n as int) / 4,
{
    proof {
        lemma_padded_len(n as int);
    }
    if n % 4 == 0 {
        n / 4
    } else {
        n / 4 + 1
    }
}

pub fn push_reply_head(
    order: XByteOrder,
    out: &mut Vec<u8>,
    detail: u8,
    sequence: u16,
    units: u32,
)
    ensures
        final(out)@ == old(out)@ + reply_head(order, detail, sequence, units),
{
    out.push(1);
    out.push(detail);
    push_u16(order, out, sequence);
    push_u32(order, out, units);
    assert(out@ =~= old(out)@ + reply_head(order, detail, sequence, units));
}

/// Appends the zeros that round `n` bytes up to a four-byte boundary.
pub fn push_padding(out: &mut Vec<u8>, n: usize)
    ensures
        final(out)@ == old(out)@ + pad_bytes(n as int),
{
    proof {
        lemma_padded_len(n as int);
    }
    let count: usize = if n % 4 == 0 {
        0
    } else {
        4 - n % 4
    };
    push_zeros(out, count);
}

/// Appends `bytes` to `out`.
pub fn push_slice(out: &mut Vec<u8>, bytes: &[u8])
    ensures
        final(out)@ == old(out)@ + bytes@,
{
    let mut i: usize = 0;
    while i < bytes.len()
        invariant
            i <= bytes@.len(),
            out@ =~= old(out)@ + bytes@.subrange(0, i as int),
        decreases bytes@.len() - i,
    {
        out.push(bytes[i]);
        i = i + 1;
    }
    assert(bytes@.subrange(0, bytes@.len() as int) =~= bytes@);
}

/// Each value of `s` in `order`, one after another.
pub open spec fn u32_seq_bytes(order: XByteOrder, s: Seq<u32>) -> Seq<u8>
    decreases s.len(),
{
    if s.len() == 0 {
        Seq::empty()
    } else {
        u32_seq_bytes(order, s.drop_last()) + u32_bytes(order, s.last())
    }
}

/// Each value of `s` in `order`, one after another.
pub open spec fn u64_seq_bytes(order: XByteOrder, s: Seq<u64>) -> Seq<u8>
    decreases s.len(),
{
    if s.len() == 0 {
        Seq::empty()
    } else {
        u64_seq_bytes(order, s.drop_last()) + u64_bytes(order, s.last())
    }
}

/// The XID of each resource of `s` in `order`, one after another.
pub open spec fn xid_seq_bytes(order: XByteOrder, s: Seq<XResourceId>) -> Seq<u8>
    decreases s.len(),
{
    if s.len() == 0 {
        Seq::empty()
    } else {
        xid_seq_bytes(order, s.drop_last()) + u32_bytes(order, raw_xid(s.last()))
    }
}

/// Each name and value of `s` in `order`, one pair after another.
pub open spec fn pair_seq_bytes(order: XByteOrder, s: Seq<(u32, u32)>) -> Seq<u8>
    decreases s.len(),
{
    if s.len() == 0 {
        Seq::empty()
    } else {
        pair_seq_bytes(order, s.drop_last()) + u32_bytes(order, s.last().0) + u32_bytes(
            order,
            s.last().1,
        )
    }
}

pub proof fn lemma_u32_seq_bytes_len(order: XByteOrder, s: Seq<u32>)
    ensures
        u32_seq_bytes(order, s).len() == 4 * s.len(),
    decreases s.len(),
{
    if s.len() > 0 {
        lemma_u32_seq_bytes_len(order, s.drop_last());
    }
}

pub proof fn lemma_pair_seq_bytes_len(order: XByteOrder, s: Seq<(u32, u32)>)
    ensures
        pair_seq_bytes(order, s).len() == 8 * s.len(),
    decreases s.len(),
{
    if s.len() > 0 {
        lemma_pair_seq_bytes_len(order, s.drop_last());
    }
}

pub proof fn lemma_pad_to_four_len(s: Seq<u8>)
    ensures
        pad_to_four(s).len() == spec_padded_len(s.len() as int),
        pad_to_four(s).len() % 4 == 0,
{
    lemma_padded(s.len() as int);
}

/// Rounding up to four bytes adds fewer than four and lands on a multiple of
/// four.
pub proof fn lemma_padded(n: int)
    requires
        n >= 0,
    ensures
        n <= spec_padded_len(n) < n + 4,
        spec_padded_len(n) % 4 == 0,
        spec_padded_len(n) == 4 * (spec_padded_len(n) / 4),
        n % 4 == 0 ==> spec_padded_len(n) == n,
        pad_bytes(n).len() == spec_padded_len(n) - n,
{
    lemma_padded_len(n);
}

pub proof fn lemma_u64_seq_bytes_len(order: XByteOrder, s: Seq<u64>)
    ensures
        u64_seq_bytes(order, s).len() == 8 * s.len(),
    decreases s.len(),
{
    if s.len() > 0 {
        lemma_u64_seq_bytes_len(order, s.drop_last());
    }
}

pub proof fn lemma_xid_seq_bytes_len(order: XByteOrder, s: Seq<XResourceId>)
    ensures
        xid_seq_bytes(order, s).len() == 4 * s.len(),
    decreases s.len(),
{
    if s.len() > 0 {
        lemma_xid_seq_bytes_len(order, s.drop_last());
    }
}

pub fn push_u32_seq(order: XByteOrder, out: &mut Vec<u8>, values: &[u32])
    ensures
        final(out)@ == old(out)@ + u32_seq_bytes(order, values@),
{
    let mut i: usize = 0;
    while i < values.len()
        invariant
            i <= values@.len(),
            out@ == old(out)@ + u32_seq_bytes(order, values@.subrange(0, i as int)),
        decreases values@.len() - i,
    {
        assert(values@.subrange(0, i + 1).drop_last() =~= values@.subrange(0, i as int));
        push_u32(order, out, values[i]);
        i = i + 1;
        assert(out@ =~= old(out)@ + u32_seq_bytes(order, values@.subrange(0, i as int)));
    }
    assert(values@.subrange(0, values@.len() as int) =~= values@);
}

pub fn push_u64_seq(order: XByteOrder, out: &mut Vec<u8>, values: &[u64])
    ensures
        final(out)@ == old(out)@ + u64_seq_bytes(order, values@),
{
    let mut i: usize = 0;
    while i < values.len()
        invariant
            i <= values@.len(),
            out@ == old(out)@ + u64_seq_bytes(order, values@.subrange(0, i as int)),
        decreases values@.len() - i,
    {
        assert(values@.subrange(0, i + 1).drop_last() =~= values@.subrange(0, i as int));
        push_u64(order, out, values[i]);
        i = i + 1;
        assert(out@ =~= old(out)@ + u64_seq_bytes(order, values@.subrange(0, i as int)));
    }
    assert(values@.subrange(0, values@.len() as int) =~= values@);
}

pub fn push_xid_seq(order: XByteOrder, out: &mut Vec<u8>, values: &[XResourceId])
    ensures
        final(out)@ == old(out)@ + xid_seq_bytes(order, values@),
{
    let mut i: usize = 0;
    while i < values.len()
        invariant
            i <= values@.len(),
            out@ == old(out)@ + xid_seq_bytes(order, values@.subrange(0, i as int)),
        decreases values@.len() - i,
    {
        assert(values@.subrange(0, i + 1).drop_last() =~= values@.subrange(0, i as int));
        push_u32(order, out, raw_xid_of(values[i]));
        i = i + 1;
        assert(out@ =~= old(out)@ + xid_seq_bytes(order, values@.subrange(0, i as int)));
    }
    assert(values@.subrange(0, values@.len() as int) =~= values@);
}

pub fn push_pair_seq(order: XByteOrder, out: &mut Vec<u8>, values: &[(u32, u32)])
    ensures
        final(out)@ == old(out)@ + pair_seq_bytes(order, values@),
{
    let mut i: usize = 0;
    while i < values.len()
        invariant
            i <= values@.len(),
            out@ == old(out)@ + pair_seq_bytes(order, values@.subrange(0, i as int)),
        decreases values@.len() - i,
    {
        assert(values@.subrange(0, i + 1).drop_last() =~= values@.subrange(0, i as int));
        let (name, value) = values[i];
        push_u32(order, out, name);
        push_u32(order, out, value);
        i = i + 1;
        assert(out@ =~= old(out)@ + pair_seq_bytes(order, values@.subrange(0, i as int)));
    }
    assert(values@.subrange(0, values@.len() as int) =~= values@);
}

} // verus!
