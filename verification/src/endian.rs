//! Big-endian integers as byte sequences, and the calls that convert between
//! the two.
//!
//! The spec functions here are the vocabulary in which every layout of the
//! crate is written: `be16(v)`, `be32(v)`, ... are the bytes of a value, and
//! `u16_at(s, i)`, `u32_at(s, i)`, ... the value of the bytes that start at
//! offset `i` of `s`. The executable conversions are `byteorder`'s.

use byteorder::{BigEndian, ReadBytesExt, WriteBytesExt};
use vstd::prelude::*;

verus! {

/// The two bytes of `v`, most significant first.
pub open spec fn be16(v: u16) -> Seq<u8> {
    seq![(v / 0x100) as u8, (v % 0x100) as u8]
}

/// The low three bytes of `v`, most significant first.
pub open spec fn be24(v: u32) -> Seq<u8> {
    seq![(v / 0x1_0000 % 0x100) as u8, (v / 0x100 % 0x100) as u8, (v % 0x100) as u8]
}

/// The four bytes of `v`, most significant first.
pub open spec fn be32(v: u32) -> Seq<u8> {
    seq![
        (v / 0x100_0000) as u8,
        (v / 0x1_0000 % 0x100) as u8,
        (v / 0x100 % 0x100) as u8,
        (v % 0x100) as u8,
    ]
}

/// The low six bytes of `v`, most significant first.
pub open spec fn be48(v: u64) -> Seq<u8> {
    seq![
        (v / 0x100_0000_0000 % 0x100) as u8,
        (v / 0x1_0000_0000 % 0x100) as u8,
        (v / 0x100_0000 % 0x100) as u8,
        (v / 0x1_0000 % 0x100) as u8,
        (v / 0x100 % 0x100) as u8,
        (v % 0x100) as u8,
    ]
}

/// The eight bytes of `v`, most significant first.
pub open spec fn be64(v: u64) -> Seq<u8> {
    seq![
        (v / 0x100_0000_0000_0000) as u8,
        (v / 0x1_0000_0000_0000 % 0x100) as u8,
        (v / 0x100_0000_0000 % 0x100) as u8,
        (v / 0x1_0000_0000 % 0x100) as u8,
        (v / 0x100_0000 % 0x100) as u8,
        (v / 0x1_0000 % 0x100) as u8,
        (v / 0x100 % 0x100) as u8,
        (v % 0x100) as u8,
    ]
}

/// The 16-bit pattern of `v` in two's complement.
pub open spec fn i16_bits(v: i16) -> u16 {
    if v >= 0 {
        v as u16
    } else {
        (v + 0x1_0000) as u16
    }
}

/// The signed value whose two's complement pattern is `u`.
pub open spec fn i16_of_bits(u: u16) -> i16 {
    if u < 0x8000 {
        u as i16
    } else {
        (u - 0x1_0000) as i16
    }
}

/// The two bytes of `v` in two's complement, most significant first.
pub open spec fn be16_signed(v: i16) -> Seq<u8> {
    be16(i16_bits(v))
}

/// The big-endian 16-bit value that starts at offset `i` of `s`.
#[verifier::opaque]
pub open spec fn u16_at(s: Seq<u8>, i: int) -> u16 {
    (s[i] * 0x100 + s[i + 1]) as u16
}

/// The big-endian 24-bit value that starts at offset `i` of `s`.
#[verifier::opaque]
pub open spec fn u24_at(s: Seq<u8>, i: int) -> u32 {
    (s[i] * 0x1_0000 + s[i + 1] * 0x100 + s[i + 2]) as u32
}

/// The big-endian 32-bit value that starts at offset `i` of `s`.
#[verifier::opaque]
pub open spec fn u32_at(s: Seq<u8>, i: int) -> u32 {
    (s[i] * 0x100_0000 + s[i + 1] * 0x1_0000 + s[i + 2] * 0x100 + s[i + 3]) as u32
}

/// The big-endian 48-bit value that starts at offset `i` of `s`.
#[verifier::opaque]
pub open spec fn u48_at(s: Seq<u8>, i: int) -> u64 {
    (s[i] * 0x100_0000_0000 + s[i + 1] * 0x1_0000_0000 + s[i + 2] * 0x100_0000 + s[i + 3]
        * 0x1_0000 + s[i + 4] * 0x100 + s[i + 5]) as u64
}

/// The big-endian 64-bit value that starts at offset `i` of `s`.
#[verifier::opaque]
pub open spec fn u64_at(s: Seq<u8>, i: int) -> u64 {
    (s[i] * 0x100_0000_0000_0000 + s[i + 1] * 0x1_0000_0000_0000 + s[i + 2] * 0x100_0000_0000
        + s[i + 3] * 0x1_0000_0000 + s[i + 4] * 0x100_0000 + s[i + 5] * 0x1_0000 + s[i + 6]
        * 0x100 + s[i + 7]) as u64
}

/// The big-endian two's complement 16-bit value that starts at offset `i` of `s`.
pub open spec fn i16_at(s: Seq<u8>, i: int) -> i16 {
    i16_of_bits(u16_at(s, i))
}

/// Calls `byteorder::WriteBytesExt::write_u8` on a `Vec<u8>`: the byte is
/// appended. Writing to a `Vec<u8>` never fails.
#[verifier::external_body]
pub(crate) fn put_u8(out: &mut Vec<u8>, v: u8)
    ensures
        final(out)@ == old(out)@.push(v),
{
    let _ = out.write_u8(v);
}

/// Calls `byteorder::WriteBytesExt::write_u16::<BigEndian>` on a `Vec<u8>`:
/// the two bytes of `v`, most significant first, are appended.
#[verifier::external_body]
pub(crate) fn put_u16(out: &mut Vec<u8>, v: u16)
    ensures
        final(out)@ == old(out)@ + be16(v),
{
    let _ = out.write_u16::<BigEndian>(v);
}

/// Calls `byteorder::WriteBytesExt::write_i16::<BigEndian>` on a `Vec<u8>`:
/// the two bytes of `v` in two's complement, most significant first, are
/// appended.
#[verifier::external_body]
pub(crate) fn put_i16(out: &mut Vec<u8>, v: i16)
    ensures
        final(out)@ == old(out)@ + be16_signed(v),
{
    let _ = out.write_i16::<BigEndian>(v);
}

/// Calls `byteorder::WriteBytesExt::write_u24::<BigEndian>` on a `Vec<u8>`:
/// the three bytes of `v`, most significant first, are appended. The call
/// panics on a value of more than 24 bits, which `requires` leaves out.
#[verifier::external_body]
pub(crate) fn put_u24(out: &mut Vec<u8>, v: u32)
    requires
        v < 0x100_0000,
    ensures
        final(out)@ == old(out)@ + be24(v),
{
    let _ = out.write_u24::<BigEndian>(v);
}

/// Calls `byteorder::WriteBytesExt::write_u32::<BigEndian>` on a `Vec<u8>`:
/// the four bytes of `v`, most significant first, are appended.
#[verifier::external_body]
pub(crate) fn put_u32(out: &mut Vec<u8>, v: u32)
    ensures
        final(out)@ == old(out)@ + be32(v),
{
    let _ = out.write_u32::<BigEndian>(v);
}

/// Calls `byteorder::WriteBytesExt::write_u48::<BigEndian>` on a `Vec<u8>`:
/// the six bytes of `v`, most significant first, are appended. The call
/// panics on a value of more than 48 bits, which `requires` leaves out.
#[verifier::external_body]
pub(crate) fn put_u48(out: &mut Vec<u8>, v: u64)
    requires
        v < 0x1_0000_0000_0000,
    ensures
        final(out)@ == old(out)@ + be48(v),
{
    let _ = out.write_u48::<BigEndian>(v);
}

/// Calls `byteorder::WriteBytesExt::write_u64::<BigEndian>` on a `Vec<u8>`:
/// the eight bytes of `v`, most significant first, are appended.
#[verifier::external_body]
pub(crate) fn put_u64(out: &mut Vec<u8>, v: u64)
    ensures
        final(out)@ == old(out)@ + be64(v),
{
    let _ = out.write_u64::<BigEndian>(v);
}

/// Calls `byteorder::ReadBytesExt::read_u8` on a byte slice: its first
/// byte, or `None` when the slice is empty.
#[verifier::external_body]
pub(crate) fn get_u8(buf: &[u8]) -> (r: Option<u8>)
    ensures
        r == (if buf@.len() >= 1 {
            Some(buf@[0])
        } else {
            None
        }),
{
    let mut rest = buf;
    rest.read_u8().ok()
}

/// Calls `byteorder::ReadBytesExt::read_u16::<BigEndian>` on a byte slice:
/// the value of its first two bytes, most significant first, or `None` when
/// the slice holds fewer.
#[verifier::external_body]
pub(crate) fn get_u16(buf: &[u8]) -> (r: Option<u16>)
    ensures
        r == (if buf@.len() >= 2 {
            Some(u16_at(buf@, 0))
        } else {
            None
        }),
{
    let mut rest = buf;
    rest.read_u16::<BigEndian>().ok()
}

/// Calls `byteorder::ReadBytesExt::read_i16::<BigEndian>` on a byte slice:
/// the two's complement value of its first two bytes, most significant
/// first, or `None` when the slice holds fewer.
#[verifier::external_body]
pub(crate) fn get_i16(buf: &[u8]) -> (r: Option<i16>)
    ensures
        r == (if buf@.len() >= 2 {
            Some(i16_at(buf@, 0))
        } else {
            None
        }),
{
    let mut rest = buf;
    rest.read_i16::<BigEndian>().ok()
}

/// Calls `byteorder::ReadBytesExt::read_u24::<BigEndian>` on a byte slice:
/// the value of its first three bytes, most significant first, or `None`
/// when the slice holds fewer.
#[verifier::external_body]
pub(crate) fn get_u24(buf: &[u8]) -> (r: Option<u32>)
    ensures
        r == (if buf@.len() >= 3 {
            Some(u24_at(buf@, 0))
        } else {
            None
        }),
{
    let mut rest = buf;
    rest.read_u24::<BigEndian>().ok()
}

/// Calls `byteorder::ReadBytesExt::read_u32::<BigEndian>` on a byte slice:
/// the value of its first four bytes, most significant first, or `None`
/// when the slice holds fewer.
#[verifier::external_body]
pub(crate) fn get_u32(buf: &[u8]) -> (r: Option<u32>)
    ensures
        r == (if buf@.len() >= 4 {
            Some(u32_at(buf@, 0))
        } else {
            None
        }),
{
    let mut rest = buf;
    rest.read_u32::<BigEndian>().ok()
}

/// Calls `byteorder::ReadBytesExt::read_u48::<BigEndian>` on a byte slice:
/// the value of its first six bytes, most significant first, or `None`
/// when the slice holds fewer.
#[verifier::external_body]
pub(crate) fn get_u48(buf: &[u8]) -> (r: Option<u64>)
    ensures
        r == (if buf@.len() >= 6 {
            Some(u48_at(buf@, 0))
        } else {
            None
        }),
{
    let mut rest = buf;
    rest.read_u48::<BigEndian>().ok()
}

/// Calls `byteorder::ReadBytesExt::read_u64::<BigEndian>` on a byte slice:
/// the value of its first eight bytes, most significant first, or `None`
/// when the slice holds fewer.
#[verifier::external_body]
pub(crate) fn get_u64(buf: &[u8]) -> (r: Option<u64>)
    ensures
        r == (if buf@.len() >= 8 {
            Some(u64_at(buf@, 0))
        } else {
            None
        }),
{
    let mut rest = buf;
    rest.read_u64::<BigEndian>().ok()
}

/// The value at an offset depends on the bytes from that offset on alone.
pub proof fn lemma_at_skip(s: Seq<u8>, from: int, i: int)
    requires
        0 <= from <= s.len(),
        0 <= i,
    ensures
        i + 2 <= s.len() - from ==> u16_at(s.skip(from), i) == u16_at(s, from + i),
        i + 3 <= s.len() - from ==> u24_at(s.skip(from), i) == u24_at(s, from + i),
        i + 4 <= s.len() - from ==> u32_at(s.skip(from), i) == u32_at(s, from + i),
        i + 6 <= s.len() - from ==> u48_at(s.skip(from), i) == u48_at(s, from + i),
        i + 8 <= s.len() - from ==> u64_at(s.skip(from), i) == u64_at(s, from + i),
{
    reveal(u16_at);
    reveal(u24_at);
    reveal(u32_at);
    reveal(u48_at);
    reveal(u64_at);
}

/// The two bytes of a value read back as the value, whatever surrounds them.
pub proof fn lemma_u16_round_trip(pre: Seq<u8>, v: u16, post: Seq<u8>)
    ensures
        u16_at(pre + be16(v) + post, pre.len() as int) == v,
{
    reveal(u16_at);
}

/// The three bytes of a value of at most 24 bits read back as the value,
/// whatever surrounds them.
pub proof fn lemma_u24_round_trip(pre: Seq<u8>, v: u32, post: Seq<u8>)
    requires
        v < 0x100_0000,
    ensures
        u24_at(pre + be24(v) + post, pre.len() as int) == v,
{
    reveal(u24_at);
}

/// The four bytes of a value read back as the value, whatever surrounds them.
pub proof fn lemma_u32_round_trip(pre: Seq<u8>, v: u32, post: Seq<u8>)
    ensures
        u32_at(pre + be32(v) + post, pre.len() as int) == v,
{
    reveal(u32_at);
}

/// The six bytes of a value of at most 48 bits read back as the value,
/// whatever surrounds them.
pub proof fn lemma_u48_round_trip(pre: Seq<u8>, v: u64, post: Seq<u8>)
    requires
        v < 0x1_0000_0000_0000,
    ensures
        u48_at(pre + be48(v) + post, pre.len() as int) == v,
{
    reveal(u48_at);
    let s = pre + be48(v) + post;
    let i = pre.len() as int;
    assert(s[i] == (v / 0x100_0000_0000 % 0x100) as u8);
    assert(s[i + 1] == (v / 0x1_0000_0000 % 0x100) as u8);
    assert(s[i + 2] == (v / 0x100_0000 % 0x100) as u8);
    assert(s[i + 3] == (v / 0x1_0000 % 0x100) as u8);
    assert(s[i + 4] == (v / 0x100 % 0x100) as u8);
    assert(s[i + 5] == (v % 0x100) as u8);
    assert(v < 0x1_0000_0000_0000 ==> (v / 0x100_0000_0000 % 0x100) * 0x100_0000_0000 + (v
        / 0x1_0000_0000 % 0x100) * 0x1_0000_0000 + (v / 0x100_0000 % 0x100) * 0x100_0000 + (v
        / 0x1_0000 % 0x100) * 0x1_0000 + (v / 0x100 % 0x100) * 0x100 + v % 0x100 == v)
        by (bit_vector);
}

/// The eight bytes of a value read back as the value, whatever surrounds
/// them.
pub proof fn lemma_u64_round_trip(pre: Seq<u8>, v: u64, post: Seq<u8>)
    ensures
        u64_at(pre + be64(v) + post, pre.len() as int) == v,
{
    reveal(u64_at);
    let s = pre + be64(v) + post;
    let i = pre.len() as int;
    assert(s[i] == (v / 0x100_0000_0000_0000) as u8);
    assert(s[i + 1] == (v / 0x1_0000_0000_0000 % 0x100) as u8);
    assert(s[i + 2] == (v / 0x100_0000_0000 % 0x100) as u8);
    assert(s[i + 3] == (v / 0x1_0000_0000 % 0x100) as u8);
    assert(s[i + 4] == (v / 0x100_0000 % 0x100) as u8);
    assert(s[i + 5] == (v / 0x1_0000 % 0x100) as u8);
    assert(s[i + 6] == (v / 0x100 % 0x100) as u8);
    assert(s[i + 7] == (v % 0x100) as u8);
    assert((v / 0x100_0000_0000_0000) * 0x100_0000_0000_0000 + (v / 0x1_0000_0000_0000 % 0x100)
        * 0x1_0000_0000_0000 + (v / 0x100_0000_0000 % 0x100) * 0x100_0000_0000 + (v
        / 0x1_0000_0000 % 0x100) * 0x1_0000_0000 + (v / 0x100_0000 % 0x100) * 0x100_0000 + (v
        / 0x1_0000 % 0x100) * 0x1_0000 + (v / 0x100 % 0x100) * 0x100 + v % 0x100 == v)
        by (bit_vector);
}

/// The two bytes of a signed value read back as the value, whatever
/// surrounds them.
pub proof fn lemma_i16_round_trip(pre: Seq<u8>, v: i16, post: Seq<u8>)
    ensures
        i16_at(pre + be16_signed(v) + post, pre.len() as int) == v,
{
    reveal(u16_at);
}

} // verus!
