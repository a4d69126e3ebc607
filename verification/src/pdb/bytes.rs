//! Numbers as they are written in bytes, and that they are read back.
use crate::reader;
use vstd::prelude::*;

verus! {

/// A number of two bytes, least significant first.
#[verifier::opaque]
pub open spec fn le16(v: u16) -> Seq<u8> {
    seq![(v % 0x100) as u8, (v / 0x100) as u8]
}

/// A number of four bytes, least significant first.
#[verifier::opaque]
pub open spec fn le32(v: u32) -> Seq<u8> {
    seq![
        (v % 0x100) as u8,
        (v / 0x100 % 0x100) as u8,
        (v / 0x1_0000 % 0x100) as u8,
        (v / 0x100_0000) as u8,
    ]
}

/// A number of eight bytes, least significant first.
#[verifier::opaque]
pub open spec fn le64(v: u64) -> Seq<u8> {
    le32((v % 0x1_0000_0000) as u32) + le32((v / 0x1_0000_0000) as u32)
}

/// A compressed number of a blob: one, two or four bytes, most significant first, where
/// the leading bits of the first byte are 0, 10 or 110.
#[verifier::opaque]
pub open spec fn compressed(v: u32) -> Seq<u8> {
    if v < 0x80 {
        seq![v as u8]
    } else if v < 0x4000 {
        seq![(0x80 + v / 0x100) as u8, (v % 0x100) as u8]
    } else {
        seq![
            (0xC0 + v / 0x100_0000) as u8,
            (v / 0x1_0000 % 0x100) as u8,
            (v / 0x100 % 0x100) as u8,
            (v % 0x100) as u8,
        ]
    }
}

/// A number of two bytes takes two.
pub broadcast proof fn lemma_le16_len(v: u16)
    ensures
        #[trigger] le16(v).len() == 2,
{
    reveal(le16);
}

/// A number of four bytes takes four.
pub broadcast proof fn lemma_le32_len(v: u32)
    ensures
        #[trigger] le32(v).len() == 4,
{
    reveal(le32);
}

/// A number of eight bytes takes eight.
pub broadcast proof fn lemma_le64_len(v: u64)
    ensures
        #[trigger] le64(v).len() == 8,
{
    reveal(le64);
    reveal(le32);
}

/// The part stands in the data at `pos`.
pub open spec fn has(data: Seq<u8>, pos: int, part: Seq<u8>) -> bool {
    &&& 0 <= pos
    &&& pos + part.len() <= data.len()
    &&& data.subrange(pos, pos + part.len()) == part
}

/// Two parts stand one after the other where both together stand.
pub proof fn lemma_has_both(data: Seq<u8>, pos: int, a: Seq<u8>, b: Seq<u8>)
    requires
        has(data, pos, a + b),
    ensures
        has(data, pos, a),
        has(data, pos + a.len(), b),
{
    let both = data.subrange(pos, pos + (a + b).len());
    assert(both.subrange(0, a.len() as int) =~= a);
    assert(both.subrange(a.len() as int, (a + b).len() as int) =~= b);
    assert(data.subrange(pos, pos + a.len()) =~= both.subrange(0, a.len() as int));
    assert(data.subrange(pos + a.len(), pos + a.len() + b.len()) =~= both.subrange(
        a.len() as int,
        (a + b).len() as int,
    ));
}

/// What stands in a part of the data stands in the data.
pub proof fn lemma_has_within(data: Seq<u8>, pos: int, part: Seq<u8>, at: int, inner: Seq<u8>)
    requires
        has(data, pos, part),
        has(part, at, inner),
    ensures
        has(data, pos + at, inner),
{
    let there = data.subrange(pos, pos + part.len());
    assert(data.subrange(pos + at, pos + at + inner.len()) =~= there.subrange(
        at,
        at + inner.len(),
    ));
}

/// A byte of a part stands in the data.
pub proof fn lemma_has_byte(data: Seq<u8>, pos: int, part: Seq<u8>, i: int)
    requires
        has(data, pos, part),
        0 <= i < part.len(),
    ensures
        data[pos + i] == part[i],
{
    assert(data.subrange(pos, pos + part.len())[i] == part[i]);
}

/// A part of the data that is skipped to stands at its start.
pub proof fn lemma_has_whole(data: Seq<u8>)
    ensures
        has(data, 0, data),
{
    assert(data.subrange(0, data.len() as int) =~= data);
}

/// A number of two bytes is read as it was written.
pub proof fn law_u16_round_trip(data: Seq<u8>, pos: int, v: u16)
    requires
        has(data, pos, le16(v)),
    ensures
        reader::u16_at(data, pos) == Some(v),
{
    reveal(le16);
    lemma_has_byte(data, pos, le16(v), 0);
    lemma_has_byte(data, pos, le16(v), 1);
}

/// A number of four bytes is read as it was written.
pub proof fn law_u32_round_trip(data: Seq<u8>, pos: int, v: u32)
    requires
        has(data, pos, le32(v)),
    ensures
        reader::u32_at(data, pos) == Some(v),
{
    reveal(le32);
    lemma_has_byte(data, pos, le32(v), 0);
    lemma_has_byte(data, pos, le32(v), 1);
    lemma_has_byte(data, pos, le32(v), 2);
    lemma_has_byte(data, pos, le32(v), 3);
}

/// A number of eight bytes is read as it was written.
pub proof fn law_u64_round_trip(data: Seq<u8>, pos: int, v: u64)
    requires
        has(data, pos, le64(v)),
    ensures
        reader::u64_at(data, pos) == Some(v),
{
    let low = (v % 0x1_0000_0000) as u32;
    let high = (v / 0x1_0000_0000) as u32;
    reveal(le64);
    lemma_le32_len(low);
    lemma_has_both(data, pos, le32(low), le32(high));
    law_u32_round_trip(data, pos, low);
    law_u32_round_trip(data, pos + 4, high);
}

/// A compressed number is read as it was written, and exactly its bytes are consumed.
pub proof fn law_compressed_round_trip(data: Seq<u8>, pos: int, v: u32)
    requires
        v < 0x2000_0000,
        has(data, pos, compressed(v)),
    ensures
        reader::compressed_at(data, pos) == Some((v, pos + compressed(v).len())),
{
    reveal(compressed);
    let raw = compressed(v);
    lemma_has_byte(data, pos, raw, 0);
    if v >= 0x80 {
        lemma_has_byte(data, pos, raw, 1);
        if v >= 0x4000 {
            lemma_has_byte(data, pos, raw, 2);
            lemma_has_byte(data, pos, raw, 3);
        }
    }
}

} // verus!
