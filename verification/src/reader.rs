//! Numbers in bytes, and the sections of an executable.
use crate::fsharp_pickle_merge::lookup;
use vstd::prelude::*;
use vstd::slice::*;

verus! {

/// The bytes from `start` up to `end`, if they are there.
pub open spec fn bytes_at(data: Seq<u8>, start: int, end: int) -> Option<Seq<u8>> {
    if 0 <= start <= end <= data.len() {
        Some(data.subrange(start, end))
    } else {
        None
    }
}

/// The little-endian number of two bytes at `pos`.
pub open spec fn u16_at(data: Seq<u8>, pos: int) -> Option<u16> {
    if 0 <= pos && pos + 2 <= data.len() {
        Some((data[pos] + data[pos + 1] * 0x100) as u16)
    } else {
        None
    }
}

/// The little-endian number of four bytes at `pos`.
pub open spec fn u32_at(data: Seq<u8>, pos: int) -> Option<u32> {
    if 0 <= pos && pos + 4 <= data.len() {
        Some(
            (data[pos] + data[pos + 1] * 0x100 + data[pos + 2] * 0x1_0000 + data[pos + 3]
                * 0x100_0000) as u32,
        )
    } else {
        None
    }
}

/// The little-endian number of eight bytes at `pos`.
pub open spec fn u64_at(data: Seq<u8>, pos: int) -> Option<u64> {
    match (u32_at(data, pos), u32_at(data, pos + 4)) {
        (Some(low), Some(high)) => Some((low + high * 0x1_0000_0000) as u64),
        _ => None,
    }
}

/// The compressed number at `pos`, with the place after it. The first byte tells
/// whether it takes one, two or four bytes; they stand most significant first.
pub open spec fn compressed_at(data: Seq<u8>, pos: int) -> Option<(u32, int)> {
    if !(0 <= pos < data.len()) {
        None
    } else if data[pos] < 0x80 {
        Some((data[pos] as u32, pos + 1))
    } else if data[pos] < 0xC0 {
        if pos + 2 <= data.len() {
            Some((((data[pos] - 0x80) * 0x100 + data[pos + 1]) as u32, pos + 2))
        } else {
            None
        }
    } else if data[pos] < 0xE0 {
        if pos + 4 <= data.len() {
            Some(
                (
                    ((data[pos] - 0xC0) * 0x100_0000 + data[pos + 1] * 0x1_0000 + data[pos + 2]
                        * 0x100 + data[pos + 3]) as u32,
                    pos + 4,
                ),
            )
        } else {
            None
        }
    } else {
        None
    }
}

/// A section of an executable: where it lies in memory and where its bytes lie in
/// the file.
#[derive(Debug, Clone, Copy)]
pub struct Section {
    pub virtual_address: u32,
    pub virtual_size: u32,
    pub raw_data_ptr: u32,
    pub raw_data_size: u32,
}

/// The section holds the address.
pub open spec fn holds(rva: u32) -> spec_fn(Section) -> bool {
    |s: Section|
        s.virtual_address <= rva && (rva < s.virtual_address + s.virtual_size || rva
            < s.virtual_address + s.raw_data_size)
}

/// The bytes of the file from the address on, to the end of the section that holds
/// it.
pub open spec fn mapped(image: Seq<u8>, sections: Seq<Section>, rva: u32) -> Option<Seq<u8>> {
    match lookup::first_from(sections, 0, holds(rva)) {
        None => None,
        Some(i) => bytes_at(
            image,
            sections[i].raw_data_ptr + (rva - sections[i].virtual_address),
            sections[i].raw_data_ptr + sections[i].raw_data_size,
        ),
    }
}

/// The bytes from `start` up to `end`, if they are there.
pub fn slice_at<'a>(data: &'a [u8], start: usize, end: usize) -> (r: Option<&'a [u8]>)
    ensures
        match bytes_at(data@, start as int, end as int) {
            Some(s) => r is Some && r->0@ == s,
            None => r is None,
        },
{
    if start <= end && end <= data.len() {
        Some(slice_subrange(data, start, end))
    } else {
        None
    }
}

/// The little-endian number of two bytes at `pos`.
pub fn read_u16_at(data: &[u8], pos: usize) -> (r: Option<u16>)
    ensures
        r == u16_at(data@, pos as int),
{
    if data.len() < 2 || pos > data.len() - 2 {
        return None;
    }
    Some(data[pos] as u16 + data[pos + 1] as u16 * 0x100)
}

/// The little-endian number of four bytes at `pos`.
pub fn read_u32_at(data: &[u8], pos: usize) -> (r: Option<u32>)
    ensures
        r == u32_at(data@, pos as int),
{
    if data.len() < 4 || pos > data.len() - 4 {
        return None;
    }
    Some(
        data[pos] as u32 + data[pos + 1] as u32 * 0x100 + data[pos + 2] as u32 * 0x1_0000
            + data[pos + 3] as u32 * 0x100_0000,
    )
}

/// The little-endian number of eight bytes at `pos`.
pub fn read_u64_at(data: &[u8], pos: usize) -> (r: Option<u64>)
    ensures
        r == u64_at(data@, pos as int),
{
    if data.len() < 8 || pos > data.len() - 8 {
        return None;
    }
    match (read_u32_at(data, pos), read_u32_at(data, pos + 4)) {
        (Some(low), Some(high)) => Some(low as u64 + high as u64 * 0x1_0000_0000),
        _ => None,
    }
}

/// The compressed number at `pos`, with the place after it.
pub fn read_compressed_u32_at(data: &[u8], pos: usize) -> (r: Option<(u32, usize)>)
    ensures
        match compressed_at(data@, pos as int) {
            Some((v, next)) => pos < next <= data@.len() && r == Some((v, next as usize)),
            None => r is None,
        },
{
    if pos >= data.len() {
        return None;
    }
    let first: u8 = data[pos];
    if first < 0x80 {
        return Some((first as u32, pos + 1));
    }
    if first < 0xC0 {
        if data.len() - pos < 2 {
            return None;
        }
        return Some(((first - 0x80) as u32 * 0x100 + data[pos + 1] as u32, pos + 2));
    }
    if first < 0xE0 {
        if data.len() - pos < 4 {
            return None;
        }
        return Some(
            (
                (first - 0xC0) as u32 * 0x100_0000 + data[pos + 1] as u32 * 0x1_0000 + data[pos
                    + 2] as u32 * 0x100 + data[pos + 3] as u32,
                pos + 4,
            ),
        );
    }
    None
}

/// The bytes of the file from the address on, to the end of the section that holds
/// it.
pub fn rva_to_slice<'a>(image: &'a [u8], sections: &[Section], rva: u32) -> (r: Option<&'a [u8]>)
    ensures
        match mapped(image@, sections@, rva) {
            Some(s) => r is Some && r->0@ == s,
            None => r is None,
        },
{
    let ghost p = holds(rva);
    let mut i: usize = 0;
    while i < sections.len()
        invariant
            i <= sections.len(),
            p == holds(rva),
            forall|j: int| 0 <= j < i ==> !p(#[trigger] sections@[j]),
        decreases sections.len() - i,
    {
        let s = sections[i];
        let address: u64 = rva as u64;
        let base: u64 = s.virtual_address as u64;
        if base <= address && (address < base + s.virtual_size as u64 || address < base
            + s.raw_data_size as u64) {
            proof {
                lookup::lemma_first_is(sections@, 0, i as int, p);
            }
            let start: u64 = s.raw_data_ptr as u64 + (address - base);
            let end: u64 = s.raw_data_ptr as u64 + s.raw_data_size as u64;
            if end > image.len() as u64 || start > end {
                return None;
            }
            return slice_at(image, start as usize, end as usize);
        }
        i = i + 1;
    }
    proof {
        lookup::lemma_first_is(sections@, 0, i as int, p);
    }
    None
}

} // verus!
