//! Byte layouts: little-endian integers, slicing and comparison.

use vstd::prelude::*;

verus! {

/// The two little-endian bytes of a 16-bit integer.
pub open spec fn le16(value: u16) -> Seq<u8> {
    seq![(value % 256) as u8, (value / 256) as u8]
}

/// The four little-endian bytes of a 32-bit integer.
pub open spec fn le32(value: u32) -> Seq<u8> {
    seq![
        (value % 256) as u8,
        (value / 256 % 256) as u8,
        (value / 65536 % 256) as u8,
        (value / 16777216) as u8,
    ]
}

/// The eight little-endian bytes of a 64-bit integer.
pub open spec fn le64(value: u64) -> Seq<u8> {
    le32((value % 0x1_0000_0000) as u32) + le32((value / 0x1_0000_0000) as u32)
}

/// The integer whose two little-endian bytes stand at `at`.
pub open spec fn le16_at(bytes: Seq<u8>, at: int) -> u16 {
    (bytes[at] + 256 * bytes[at + 1]) as u16
}

/// The integer whose four little-endian bytes stand at `at`.
pub open spec fn le32_at(bytes: Seq<u8>, at: int) -> u32 {
    (bytes[at] + 256 * bytes[at + 1] + 65536 * bytes[at + 2] + 16777216 * bytes[at + 3]) as u32
}

/// Reading a 16-bit integer gives back the one whose bytes were written.
pub proof fn law_le16_round_trip(bytes: Seq<u8>, at: int, value: u16)
    requires
        0 <= at,
        at + 2 <= bytes.len(),
        bytes.subrange(at, at + 2) == le16(value),
    ensures
        le16_at(bytes, at) == value,
{
    let part = bytes.subrange(at, at + 2);
    assert(part[0] == bytes[at]);
    assert(part[1] == bytes[at + 1]);
}

/// Reading a 32-bit integer gives back the one whose bytes were written.
pub proof fn law_le32_round_trip(bytes: Seq<u8>, at: int, value: u32)
    requires
        0 <= at,
        at + 4 <= bytes.len(),
        bytes.subrange(at, at + 4) == le32(value),
    ensures
        le32_at(bytes, at) == value,
{
    let part = bytes.subrange(at, at + 4);
    assert(part[0] == bytes[at]);
    assert(part[1] == bytes[at + 1]);
    assert(part[2] == bytes[at + 2]);
    assert(part[3] == bytes[at + 3]);
}

/// Different 64-bit integers have different bytes.
pub proof fn law_le64_is_injective(one: u64, other: u64)
    requires
        le64(one) == le64(other),
    ensures
        one == other,
{
    let low = (one % 0x1_0000_0000) as u32;
    let high = (one / 0x1_0000_0000) as u32;
    let bytes = le64(one);
    assert(bytes.subrange(0, 4) == le32(low));
    assert(bytes.subrange(4, 8) == le32(high));
    law_le32_round_trip(bytes, 0, low);
    law_le32_round_trip(bytes, 4, high);
    let other_low = (other % 0x1_0000_0000) as u32;
    let other_high = (other / 0x1_0000_0000) as u32;
    assert(le64(other).subrange(0, 4) == le32(other_low));
    assert(le64(other).subrange(4, 8) == le32(other_high));
    law_le32_round_trip(bytes, 0, other_low);
    law_le32_round_trip(bytes, 4, other_high);
}

/// Appends the little-endian bytes of a 16-bit integer.
pub fn push_le16(out: &mut Vec<u8>, value: u16)
    ensures
        final(out)@ == old(out)@ + le16(value),
{
    out.push((value % 256) as u8);
    out.push((value / 256) as u8);
}

/// Appends the little-endian bytes of a 32-bit integer.
pub fn push_le32(out: &mut Vec<u8>, value: u32)
    ensures
        final(out)@ == old(out)@ + le32(value),
{
    out.push((value % 256) as u8);
    out.push((value / 256 % 256) as u8);
    out.push((value / 65536 % 256) as u8);
    out.push((value / 16777216) as u8);
}

/// Appends the little-endian bytes of a 64-bit integer.
pub fn push_le64(out: &mut Vec<u8>, value: u64)
    ensures
        final(out)@ == old(out)@ + le64(value),
{
    push_le32(out, (value % 0x1_0000_0000) as u32);
    push_le32(out, (value / 0x1_0000_0000) as u32);
}

/// Reads the 16-bit little-endian integer at `at`.
pub fn read_le16(bytes: &[u8], at: usize) -> (value: u16)
    requires
        at + 2 <= bytes@.len(),
    ensures
        value == le16_at(bytes@, at as int),
{
    bytes[at] as u16 + 256 * bytes[at + 1] as u16
}

/// Reads the 32-bit little-endian integer at `at`.
pub fn read_le32(bytes: &[u8], at: usize) -> (value: u32)
    requires
        at + 4 <= bytes@.len(),
    ensures
        value == le32_at(bytes@, at as int),
{
    bytes[at] as u32 + 256 * bytes[at + 1] as u32 + 65536 * bytes[at + 2] as u32 + 16777216
        * bytes[at + 3] as u32
}

/// Appends a slice.
pub fn push_all(out: &mut Vec<u8>, bytes: &[u8])
    ensures
        final(out)@ == old(out)@ + bytes@,
{
    let ghost before = out@;
    let length: usize = bytes.len();
    for at in 0..length
        invariant
            length == bytes@.len(),
            out@ == before + bytes@.take(at as int),
    {
        out.push(bytes[at]);
        assert(bytes@.take(at + 1) == bytes@.take(at as int).push(bytes@[at as int]));
    }
    assert(bytes@.take(length as int) == bytes@);
}

/// Copies the bytes from `from` up to `to`.
pub fn copy_range(bytes: &[u8], from: usize, to: usize) -> (copy: Vec<u8>)
    requires
        from <= to <= bytes@.len(),
    ensures
        copy@ == bytes@.subrange(from as int, to as int),
{
    let mut copy: Vec<u8> = Vec::new();
    for at in from..to
        invariant
            from <= to <= bytes@.len(),
            copy@ == bytes@.subrange(from as int, at as int),
    {
        copy.push(bytes[at]);
        assert(bytes@.subrange(from as int, at + 1) == bytes@.subrange(from as int, at as int).push(
            bytes@[at as int],
        ));
    }
    copy
}

/// Whether two byte strings are equal.
pub fn same_bytes(left: &[u8], right: &[u8]) -> (same: bool)
    ensures
        same == (left@ == right@),
{
    if left.len() != right.len() {
        return false;
    }
    let length: usize = left.len();
    for at in 0..length
        invariant
            length == left@.len(),
            length == right@.len(),
            forall|i: int| 0 <= i < at ==> left@[i] == right@[i],
    {
        if left[at] != right[at] {
            return false;
        }
    }
    assert(left@ == right@);
    true
}

/// The 16 bytes that start at `at`.
pub fn array16(bytes: &[u8], at: usize) -> (part: [u8; 16])
    requires
        at + 16 <= bytes@.len(),
    ensures
        part@ == bytes@.subrange(at as int, at + 16),
{
    let mut part: [u8; 16] = [0u8; 16];
    let length: usize = bytes.len();
    for i in 0..16usize
        invariant
            length == bytes@.len(),
            at + 16 <= length,
            forall|j: int| 0 <= j < i ==> part@[j] == bytes@[at + j],
    {
        part[i] = bytes[at + i];
    }
    assert(part@ == bytes@.subrange(at as int, at + 16));
    part
}

/// The 24 bytes that start at `at`.
pub fn array24(bytes: &[u8], at: usize) -> (part: [u8; 24])
    requires
        at + 24 <= bytes@.len(),
    ensures
        part@ == bytes@.subrange(at as int, at + 24),
{
    let mut part: [u8; 24] = [0u8; 24];
    let length: usize = bytes.len();
    for i in 0..24usize
        invariant
            length == bytes@.len(),
            at + 24 <= length,
            forall|j: int| 0 <= j < i ==> part@[j] == bytes@[at + j],
    {
        part[i] = bytes[at + i];
    }
    assert(part@ == bytes@.subrange(at as int, at + 24));
    part
}

/// The 32 bytes that start at `at`.
pub fn array32(bytes: &[u8], at: usize) -> (part: [u8; 32])
    requires
        at + 32 <= bytes@.len(),
    ensures
        part@ == bytes@.subrange(at as int, at + 32),
{
    let mut part: [u8; 32] = [0u8; 32];
    let length: usize = bytes.len();
    for i in 0..32usize
        invariant
            length == bytes@.len(),
            at + 32 <= length,
            forall|j: int| 0 <= j < i ==> part@[j] == bytes@[at + j],
    {
        part[i] = bytes[at + i];
    }
    assert(part@ == bytes@.subrange(at as int, at + 32));
    part
}

} // verus!
