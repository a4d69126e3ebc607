//! What the heaps of a debug database hold: blobs and GUIDs, and the names, sequence
//! points and sources that are written in blobs.
use crate::fsharp_resource;
use crate::fsharp_resource::{decompress_deflate_exact, InflateFault};
use crate::pdb::error::{PdbError, PdbFault};
use crate::reader;
use crate::reader::{read_compressed_u32_at, read_u32_at, slice_at};
use crate::text;
use crate::text::text_of_bytes;
use vstd::prelude::*;
use vstd::slice::*;

verus! {

/// The place of a sequence point in the source: a document and, in it, a line and a
/// column, all counted from one.
#[derive(Debug, Clone, Copy, PartialEq, Eq, Structural)]
pub struct SequencePoint {
    pub document: u32,
    pub start_line: u32,
    pub start_column: u32,
}

/// The blob at `index`: a compressed length and so many bytes.
pub open spec fn blob(blobs: Seq<u8>, index: u32) -> Result<Seq<u8>, PdbFault> {
    match reader::compressed_at(blobs, index as int) {
        None => Err(PdbFault::TableIndexOutOfRange),
        Some((len, start)) => match reader::bytes_at(blobs, start, start + len) {
            None => Err(PdbFault::TableIndexOutOfRange),
            Some(b) => Ok(b),
        },
    }
}

/// The GUID at `index`, counted from one.
pub open spec fn guid(guids: Seq<u8>, index: u32) -> Result<Seq<u8>, PdbFault> {
    if index == 0 {
        Err(PdbFault::TableIndexOutOfRange)
    } else {
        match reader::bytes_at(guids, (index - 1) * 16, index * 16) {
            None => Err(PdbFault::TableIndexOutOfRange),
            Some(b) => Ok(b),
        }
    }
}

/// The parts of a document name from `pos` on, each but the first after a separator,
/// appended to `acc`. The part zero is empty; the separator zero is none.
pub open spec fn name_parts_from(
    blobs: Seq<u8>,
    parts: Seq<u8>,
    pos: int,
    separator: u8,
    first: bool,
    acc: Seq<u8>,
) -> Option<Seq<u8>>
    decreases parts.len() - pos,
{
    if pos >= parts.len() {
        Some(acc)
    } else {
        match reader::compressed_at(parts, pos) {
            None => None,
            Some((index, next)) => if next <= pos {
                None
            } else {
                let acc = if !first && separator != 0 {
                    acc.push(separator)
                } else {
                    acc
                };
                if index == 0 {
                    name_parts_from(blobs, parts, next, separator, false, acc)
                } else {
                    match blob(blobs, index) {
                        Err(_) => None,
                        Ok(part) => name_parts_from(
                            blobs,
                            parts,
                            next,
                            separator,
                            false,
                            acc + part,
                        ),
                    }
                }
            },
        }
    }
}

/// The document name in a blob: a separator and the parts between which it stands.
pub open spec fn document_name_in(blobs: Seq<u8>, name: Seq<u8>) -> Result<Seq<char>, PdbFault> {
    if name.len() == 0 {
        Ok(Seq::empty())
    } else {
        match name_parts_from(blobs, name.skip(1), 0, name[0], true, Seq::empty()) {
            None => Err(PdbFault::MalformedDocumentName),
            Some(bytes) => match text::utf8_text(bytes) {
                None => Err(PdbFault::MalformedDocumentName),
                Some(t) => Ok(t),
            },
        }
    }
}

/// The first visible sequence point of the records from `pos` on, where `document`
/// is the current document.
///
/// A record starts with the distance of the code; zero, but in the first record,
/// announces another document. Then come the differences of lines and columns; where
/// both are zero the point is hidden, otherwise the line and column of the point
/// follow.
pub open spec fn point_from(
    data: Seq<u8>,
    pos: int,
    document: u32,
    first: bool,
    document_count: u32,
) -> Result<Option<SequencePoint>, PdbFault>
    decreases data.len() - pos,
{
    if pos >= data.len() {
        Ok(None)
    } else {
        match reader::compressed_at(data, pos) {
            Some((distance, p1)) if p1 > pos => match reader::compressed_at(data, p1) {
                Some((second, p2)) if p2 > p1 => if distance == 0 && !first {
                    point_from(data, p2, second, first, document_count)
                } else {
                    match reader::compressed_at(data, p2) {
                        Some((third, p3)) if p3 > p2 => if second == 0 && third == 0 {
                            point_from(data, p3, document, false, document_count)
                        } else {
                            visible_point(data, p3, document, document_count)
                        },
                        _ => Err(PdbFault::MalformedSequencePoints),
                    }
                },
                _ => Err(PdbFault::MalformedSequencePoints),
            },
            _ => Err(PdbFault::MalformedSequencePoints),
        }
    }
}

/// The visible point whose line and column are at `pos`.
pub open spec fn visible_point(
    data: Seq<u8>,
    pos: int,
    document: u32,
    document_count: u32,
) -> Result<Option<SequencePoint>, PdbFault> {
    match reader::compressed_at(data, pos) {
        None => Err(PdbFault::MalformedSequencePoints),
        Some((start_line, p1)) => match reader::compressed_at(data, p1) {
            None => Err(PdbFault::MalformedSequencePoints),
            Some((start_column, _)) => if document == 0 || document > document_count {
                Err(PdbFault::MalformedSequencePoints)
            } else {
                Ok(Some(SequencePoint { document, start_line, start_column }))
            },
        },
    }
}

/// The first visible sequence point in a blob: the signature of the locals, the first
/// document unless the method has only one, and the records.
pub open spec fn first_point_in(data: Seq<u8>, document_column: u32, document_count: u32) -> Result<
    Option<SequencePoint>,
    PdbFault,
> {
    match reader::compressed_at(data, 0) {
        None => Err(PdbFault::MalformedSequencePoints),
        Some((_, p1)) => if document_column != 0 {
            point_from(data, p1, document_column, true, document_count)
        } else {
            match reader::compressed_at(data, p1) {
                None => Err(PdbFault::MalformedSequencePoints),
                Some((document, p2)) => point_from(data, p2, document, true, document_count),
            }
        },
    }
}

/// The source in these bytes, without the byte order mark.
pub open spec fn source_text_of(bytes: Seq<u8>) -> Result<Seq<char>, PdbFault> {
    let body = if reader::bytes_at(bytes, 0, 3) == Some(seq![0xEFu8, 0xBB, 0xBF]) {
        bytes.skip(3)
    } else {
        bytes
    };
    match text::utf8_text(body) {
        None => Err(PdbFault::MalformedEmbeddedSource),
        Some(t) => Ok(t),
    }
}

/// The source in the outcome of inflating it.
pub open spec fn inflated_source(outcome: Result<Seq<u8>, InflateFault>) -> Result<
    Seq<char>,
    PdbFault,
> {
    match outcome {
        Err(_) => Err(PdbFault::MalformedEmbeddedSource),
        Ok(bytes) => source_text_of(bytes),
    }
}

/// The source in a blob: a signed number and the content. If the number is zero the
/// content is the source; if it is positive, the content is compressed and the number
/// is the size of the source.
pub open spec fn embedded_source_in(value: Seq<u8>) -> Result<Seq<char>, PdbFault> {
    match reader::u32_at(value, 0) {
        None => Err(PdbFault::MalformedEmbeddedSource),
        Some(format) => if format == 0 {
            source_text_of(value.skip(4))
        } else if format < 0x8000_0000 {
            inflated_source(
                fsharp_resource::decompressed_exactly(value.skip(4), format as usize),
            )
        } else {
            Err(PdbFault::MalformedEmbeddedSource)
        },
    }
}

/// The blob at `index`.
pub fn blob_at<'a>(blobs: &'a [u8], index: u32) -> (r: Result<&'a [u8], PdbError>)
    ensures
        match blob(blobs@, index) {
            Ok(b) => r is Ok && r->Ok_0@ == b,
            Err(e) => r is Err && r->Err_0.deep_view() == e,
        },
{
    assert(blobs.len() <= usize::MAX);
    match read_compressed_u32_at(blobs, index as usize) {
        None => Err(PdbError::TableIndexOutOfRange),
        Some((len, start)) => match start.checked_add(len as usize) {
            None => Err(PdbError::TableIndexOutOfRange),
            Some(end) => match slice_at(blobs, start, end) {
                None => Err(PdbError::TableIndexOutOfRange),
                Some(b) => Ok(b),
            },
        },
    }
}

/// The GUID at `index`.
pub fn guid_at<'a>(guids: &'a [u8], index: u32) -> (r: Result<&'a [u8], PdbError>)
    ensures
        match guid(guids@, index) {
            Ok(b) => r is Ok && r->Ok_0@ == b,
            Err(e) => r is Err && r->Err_0.deep_view() == e,
        },
{
    assert(guids.len() <= usize::MAX);
    if index == 0 {
        return Err(PdbError::TableIndexOutOfRange);
    }
    match (index as usize).checked_mul(16) {
        None => Err(PdbError::TableIndexOutOfRange),
        Some(end) => match slice_at(guids, end - 16, end) {
            None => Err(PdbError::TableIndexOutOfRange),
            Some(b) => Ok(b),
        },
    }
}

/// Append the bytes of a slice.
fn append_bytes(out: &mut Vec<u8>, bytes: &[u8])
    ensures
        final(out)@ == old(out)@ + bytes@,
{
    let mut i: usize = 0;
    while i < bytes.len()
        invariant
            i <= bytes@.len(),
            out@ == old(out)@ + bytes@.take(i as int),
        decreases bytes.len() - i,
    {
        out.push(bytes[i]);
        assert(old(out)@ + bytes@.take(i + 1) =~= (old(out)@ + bytes@.take(i as int)).push(
            bytes@[i as int],
        ));
        i = i + 1;
    }
    assert(bytes@.take(i as int) =~= bytes@);
}

/// The document name in a blob.
pub fn decode_document_name(blobs: &[u8], name_blob: &[u8]) -> (r: Result<String, PdbError>)
    ensures
        match document_name_in(blobs@, name_blob@) {
            Ok(t) => r is Ok && r->Ok_0@ == t,
            Err(e) => r is Err && r->Err_0.deep_view() == e,
        },
{
    if name_blob.len() == 0 {
        return Ok(String::new());
    }
    let separator: u8 = name_blob[0];
    let parts = slice_subrange(name_blob, 1, name_blob.len());
    assert(parts@ =~= name_blob@.skip(1));
    let mut out: Vec<u8> = Vec::new();
    let mut pos: usize = 0;
    let mut first: bool = true;
    let ghost want = name_parts_from(blobs@, parts@, 0, separator, true, Seq::empty());
    while pos < parts.len()
        invariant
            pos <= parts@.len(),
            name_blob@.len() > 0,
            separator == name_blob@[0],
            parts@ == name_blob@.skip(1),
            want == name_parts_from(
                blobs@,
                name_blob@.skip(1),
                0,
                name_blob@[0],
                true,
                Seq::empty(),
            ),
            want == name_parts_from(blobs@, parts@, pos as int, separator, first, out@),
        decreases parts.len() - pos,
    {
        let (index, next) = match read_compressed_u32_at(parts, pos) {
            Some(found) => found,
            None => {
                return Err(PdbError::MalformedDocumentName);
            },
        };
        if !first && separator != 0 {
            out.push(separator);
        }
        first = false;
        if index != 0 {
            match blob_at(blobs, index) {
                Ok(part) => {
                    append_bytes(&mut out, part);
                },
                Err(_) => {
                    return Err(PdbError::MalformedDocumentName);
                },
            }
        }
        pos = next;
    }
    match text_of_bytes(out) {
        Some(t) => Ok(t),
        None => Err(PdbError::MalformedDocumentName),
    }
}

/// The compressed number at `pos` of the sequence points.
fn point_number(data: &[u8], pos: usize) -> (r: Result<(u32, usize), PdbError>)
    ensures
        match reader::compressed_at(data@, pos as int) {
            Some((v, next)) => pos < next <= data@.len() && r == Ok::<(u32, usize), PdbError>(
                (v, next as usize),
            ),
            None => r is Err && r->Err_0.deep_view() == PdbFault::MalformedSequencePoints,
        },
{
    match read_compressed_u32_at(data, pos) {
        Some(found) => Ok(found),
        None => Err(PdbError::MalformedSequencePoints),
    }
}

/// The first visible sequence point in a blob.
pub fn decode_first_sequence_point(
    data: &[u8],
    document_column: u32,
    document_count: u32,
) -> (r: Result<Option<SequencePoint>, PdbError>)
    ensures
        match first_point_in(data@, document_column, document_count) {
            Ok(p) => r == Ok::<Option<SequencePoint>, PdbError>(p),
            Err(e) => r is Err && r->Err_0.deep_view() == e,
        },
{
    let (_local_signature, after_signature) = point_number(data, 0)?;
    let (mut document, mut pos) = if document_column == 0 {
        point_number(data, after_signature)?
    } else {
        (document_column, after_signature)
    };
    let mut first: bool = true;
    let ghost want = first_point_in(data@, document_column, document_count);
    while pos < data.len()
        invariant
            pos <= data@.len(),
            want == first_point_in(data@, document_column, document_count),
            want == point_from(data@, pos as int, document, first, document_count),
        decreases data.len() - pos,
    {
        let (distance, p1) = point_number(data, pos)?;
        let (second, p2) = point_number(data, p1)?;
        if distance == 0 && !first {
            document = second;
            pos = p2;
        } else {
            // The difference of columns is signed where the lines differ. That does not
            // change its width.
            let (third, p3) = point_number(data, p2)?;
            if second == 0 && third == 0 {
                first = false;
                pos = p3;
            } else {
                let (start_line, p4) = point_number(data, p3)?;
                let (start_column, _) = point_number(data, p4)?;
                if document == 0 || document > document_count {
                    return Err(PdbError::MalformedSequencePoints);
                }
                return Ok(Some(SequencePoint { document, start_line, start_column }));
            }
        }
    }
    Ok(None)
}

/// Every sequence point names a document of the table.
pub proof fn law_points_name_a_document(
    data: Seq<u8>,
    pos: int,
    document: u32,
    first: bool,
    document_count: u32,
)
    ensures
        match point_from(data, pos, document, first, document_count) {
            Ok(Some(p)) => 1 <= p.document <= document_count,
            _ => true,
        },
    decreases data.len() - pos,
{
    if pos < data.len() {
        if let Some((distance, p1)) = reader::compressed_at(data, pos) {
            if let Some((second, p2)) = reader::compressed_at(data, p1) {
                if distance == 0 && !first {
                    if p1 > pos && p2 > p1 {
                        law_points_name_a_document(data, p2, second, first, document_count);
                    }
                } else {
                    if let Some((third, p3)) = reader::compressed_at(data, p2) {
                        if second == 0 && third == 0 && p1 > pos && p2 > p1 && p3 > p2 {
                            law_points_name_a_document(data, p3, document, false, document_count);
                        }
                    }
                }
            }
        }
    }
}

/// The source in these bytes, without the byte order mark.
pub fn source_text(bytes: Vec<u8>) -> (r: Result<String, PdbError>)
    ensures
        match source_text_of(bytes@) {
            Ok(t) => r is Ok && r->Ok_0@ == t,
            Err(e) => r is Err && r->Err_0.deep_view() == e,
        },
{
    let has_mark: bool = bytes.len() >= 3 && bytes[0] == 0xEF && bytes[1] == 0xBB && bytes[2]
        == 0xBF;
    proof {
        if bytes@.len() >= 3 {
            let head = bytes@.subrange(0, 3);
            if has_mark {
                assert(head =~= seq![0xEFu8, 0xBB, 0xBF]);
            } else if head == seq![0xEFu8, 0xBB, 0xBF] {
                assert(head[0] == 0xEF && head[1] == 0xBB && head[2] == 0xBF);
            }
        }
    }
    let body = if has_mark {
        let rest = slice_subrange(bytes.as_slice(), 3, bytes.len());
        assert(rest@ =~= bytes@.skip(3));
        slice_to_vec(rest)
    } else {
        bytes
    };
    match text_of_bytes(body) {
        Some(t) => Ok(t),
        None => Err(PdbError::MalformedEmbeddedSource),
    }
}

/// The source in a blob.
pub fn decode_embedded_source(value: &[u8]) -> (r: Result<String, PdbError>)
    ensures
        match embedded_source_in(value@) {
            Ok(t) => r is Ok && r->Ok_0@ == t,
            Err(e) => r is Err && r->Err_0.deep_view() == e,
        },
{
    let format: u32 = match read_u32_at(value, 0) {
        Some(n) => n,
        None => {
            return Err(PdbError::MalformedEmbeddedSource);
        },
    };
    let content = slice_subrange(value, 4, value.len());
    assert(content@ =~= value@.skip(4));
    if format == 0 {
        source_text(slice_to_vec(content))
    } else if format < 0x8000_0000 {
        match decompress_deflate_exact(content, format as usize) {
            Ok(bytes) => source_text(bytes),
            Err(_) => Err(PdbError::MalformedEmbeddedSource),
        }
    } else {
        Err(PdbError::MalformedEmbeddedSource)
    }
}

} // verus!
