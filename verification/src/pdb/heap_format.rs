//! What a compiler writes into the heaps of a debug database, and that it is read back.
use crate::fsharp_resource;
use crate::pdb::bytes;
use crate::pdb::bytes::{compressed, has, le32};
use crate::pdb::error::PdbFault;
use crate::pdb::heaps;
use crate::pdb::metadata;
use crate::pdb::metadata::PdbModel;
use crate::pdb::SequencePoint;
use vstd::prelude::*;

verus! {

broadcast use {bytes::lemma_le16_len, bytes::lemma_le32_len};

/// A compressed number takes a byte or more.
broadcast proof fn lemma_compressed_len(v: u32)
    ensures
        #[trigger] compressed(v).len() >= 1,
{
    reveal(compressed);
}

/// The heap holds the blob at `index`: its length, compressed, then its bytes.
pub open spec fn holds_blob(blobs: Seq<u8>, index: u32, data: Seq<u8>) -> bool {
    data.len() < 0x2000_0000 && has(blobs, index as int, compressed(data.len() as u32) + data)
}

/// A blob is read as it was written.
pub proof fn law_blob_is_read_as_written(blobs: Seq<u8>, index: u32, data: Seq<u8>)
    requires
        holds_blob(blobs, index, data),
    ensures
        heaps::blob(blobs, index) == Ok::<Seq<u8>, PdbFault>(data),
{
    let n = data.len() as u32;
    bytes::lemma_has_both(blobs, index as int, compressed(n), data);
    bytes::law_compressed_round_trip(blobs, index as int, n);
}

/// The heap of GUIDs is a row of sixteen bytes each, counted from one.
pub proof fn law_guid_is_read_as_written(guids: Seq<u8>, before: Seq<Seq<u8>>, data: Seq<u8>)
    requires
        data.len() == 16,
        forall|i: int| 0 <= i < before.len() ==> (#[trigger] before[i]).len() == 16,
        before.len() < u32::MAX,
        has(guids, 0, all_of(before) + data),
    ensures
        heaps::guid(guids, (before.len() + 1) as u32) == Ok::<Seq<u8>, PdbFault>(data),
{
    lemma_all_of_len(before, 16);
    bytes::lemma_has_both(guids, 0, all_of(before), data);
}

/// Parts one after another.
pub open spec fn all_of(parts: Seq<Seq<u8>>) -> Seq<u8>
    decreases parts.len(),
{
    if parts.len() == 0 {
        Seq::empty()
    } else {
        parts[0] + all_of(parts.drop_first())
    }
}

/// Parts of one length take that length each.
proof fn lemma_all_of_len(parts: Seq<Seq<u8>>, n: nat)
    requires
        forall|i: int| 0 <= i < parts.len() ==> (#[trigger] parts[i]).len() == n,
    ensures
        all_of(parts).len() == parts.len() * n,
    decreases parts.len(),
{
    if parts.len() > 0 {
        let tail = parts.drop_first();
        assert forall|i: int| 0 <= i < tail.len() implies (#[trigger] tail[i]).len() == n by {
            assert(tail[i] == parts[i + 1]);
        }
        lemma_all_of_len(tail, n);
        assert(parts.len() * n == n + (parts.len() - 1) * n) by (nonlinear_arith)
            requires
                parts.len() > 0,
        ;
    } else {
        assert(0 * n == 0);
    }
}

/// A part of a document name: where its bytes are in the heap, `0` for none.
pub struct NamePart {
    pub index: u32,
    pub text: Seq<u8>,
}

/// The heap holds the part.
pub open spec fn holds_part(blobs: Seq<u8>, p: NamePart) -> bool {
    &&& p.index < 0x2000_0000
    &&& p.index == 0 ==> p.text.len() == 0
    &&& p.index != 0 ==> holds_blob(blobs, p.index, p.text)
}

/// The indices of the parts, one after another.
pub open spec fn part_indices(parts: Seq<NamePart>) -> Seq<u8>
    decreases parts.len(),
{
    if parts.len() == 0 {
        Seq::empty()
    } else {
        compressed(parts[0].index) + part_indices(parts.drop_first())
    }
}

/// The parts with the separator in front of each. No separator is a zero byte.
pub open spec fn separated(parts: Seq<NamePart>, separator: u8) -> Seq<u8>
    decreases parts.len(),
{
    if parts.len() == 0 {
        Seq::empty()
    } else if separator == 0 {
        parts[0].text + separated(parts.drop_first(), separator)
    } else {
        seq![separator] + parts[0].text + separated(parts.drop_first(), separator)
    }
}

/// The parts with the separator between them.
pub open spec fn joined_parts(parts: Seq<NamePart>, separator: u8) -> Seq<u8> {
    if parts.len() == 0 {
        Seq::empty()
    } else {
        parts[0].text + separated(parts.drop_first(), separator)
    }
}

proof fn lemma_parts(
    blobs: Seq<u8>,
    data: Seq<u8>,
    pos: int,
    parts: Seq<NamePart>,
    separator: u8,
    first: bool,
    acc: Seq<u8>,
)
    requires
        has(data, pos, part_indices(parts)),
        pos + part_indices(parts).len() == data.len(),
        forall|i: int| 0 <= i < parts.len() ==> holds_part(blobs, #[trigger] parts[i]),
    ensures
        heaps::name_parts_from(blobs, data, pos, separator, first, acc) == Some(
            acc + (if first {
                joined_parts(parts, separator)
            } else {
                separated(parts, separator)
            }),
        ),
    decreases parts.len(),
{
    let want = acc + (if first {
        joined_parts(parts, separator)
    } else {
        separated(parts, separator)
    });
    if parts.len() == 0 {
        assert(want =~= acc);
    } else {
        let p = parts[0];
        let tail = parts.drop_first();
        assert(holds_part(blobs, p));
        assert forall|i: int| 0 <= i < tail.len() implies holds_part(blobs, #[trigger] tail[i]) by {
            assert(tail[i] == parts[i + 1]);
        }
        bytes::lemma_has_both(data, pos, compressed(p.index), part_indices(tail));
        bytes::law_compressed_round_trip(data, pos, p.index);
        let next = pos + compressed(p.index).len();
        let started = if !first && separator != 0 {
            acc.push(separator)
        } else {
            acc
        };
        if p.index != 0 {
            law_blob_is_read_as_written(blobs, p.index, p.text);
        }
        let grown = started + p.text;
        assert(p.index == 0 ==> grown =~= started);
        lemma_parts(blobs, data, next, tail, separator, false, grown);
        assert(grown + separated(tail, separator) =~= want);
    }
}

/// A document name is the text of its parts with the separator between them: the blob of
/// the name is the separator and the indices of the parts.
pub proof fn law_document_name_is_read_as_written(
    blobs: Seq<u8>,
    separator: u8,
    parts: Seq<NamePart>,
    name: Seq<char>,
)
    requires
        forall|i: int| 0 <= i < parts.len() ==> holds_part(blobs, #[trigger] parts[i]),
        joined_parts(parts, separator) == vstd::utf8::encode_utf8(name),
    ensures
        heaps::document_name_in(blobs, seq![separator] + part_indices(parts)) == Ok::<
            Seq<char>,
            PdbFault,
        >(name),
{
    let whole = seq![separator] + part_indices(parts);
    assert(whole.skip(1) =~= part_indices(parts));
    bytes::lemma_has_whole(part_indices(parts));
    lemma_parts(blobs, part_indices(parts), 0, parts, separator, true, Seq::empty());
    assert(Seq::empty() + joined_parts(parts, separator) =~= joined_parts(parts, separator));
    vstd::utf8::encode_utf8_valid_utf8(name);
    vstd::utf8::encode_utf8_decode_utf8(name);
}

/// What may stand before the first visible sequence point: hidden points, each with the
/// distance of its instruction, and changes of the document.
pub enum Skipped {
    Hidden(u32),
    Document(u32),
}

/// The records in front of the rest.
pub open spec fn records(skipped: Seq<Skipped>, rest: Seq<u8>) -> Seq<u8>
    decreases skipped.len(),
{
    if skipped.len() == 0 {
        rest
    } else {
        match skipped[0] {
            Skipped::Hidden(distance) => compressed(distance) + (compressed(0) + (compressed(0)
                + records(skipped.drop_first(), rest))),
            Skipped::Document(document) => compressed(0) + (compressed(document) + records(
                skipped.drop_first(),
                rest,
            )),
        }
    }
}

/// The records can be written: the first record is a point, and later points are further
/// on than the points before them.
pub open spec fn can_be_skipped(skipped: Seq<Skipped>, first: bool) -> bool
    decreases skipped.len(),
{
    skipped.len() == 0 || {
        &&& match skipped[0] {
            Skipped::Hidden(distance) => distance < 0x2000_0000 && (first || distance != 0),
            Skipped::Document(document) => document < 0x2000_0000 && !first,
        }
        &&& can_be_skipped(skipped.drop_first(), false)
    }
}

/// The document after the records.
pub open spec fn document_after(skipped: Seq<Skipped>, document: u32) -> u32
    decreases skipped.len(),
{
    if skipped.len() == 0 {
        document
    } else {
        document_after(
            skipped.drop_first(),
            match skipped[0] {
                Skipped::Hidden(_) => document,
                Skipped::Document(d) => d,
            },
        )
    }
}

/// A visible point: the distance of its instruction, how many lines and columns it spans,
/// where it starts.
pub struct Visible {
    pub distance: u32,
    pub lines: u32,
    pub columns: u32,
    pub start_line: u32,
    pub start_column: u32,
}

/// A visible point in front of the rest.
pub open spec fn visible(p: Visible, rest: Seq<u8>) -> Seq<u8> {
    compressed(p.distance) + (compressed(p.lines) + (compressed(p.columns) + (compressed(
        p.start_line,
    ) + (compressed(p.start_column) + rest))))
}

/// The point can be written: its numbers fit, it spans something, and it is further on
/// than the points before it.
pub open spec fn can_be_visible(p: Visible, first: bool) -> bool {
    &&& p.distance < 0x2000_0000 && p.lines < 0x2000_0000 && p.columns < 0x2000_0000
    &&& p.start_line < 0x2000_0000 && p.start_column < 0x2000_0000
    &&& p.lines != 0 || p.columns != 0
    &&& first || p.distance != 0
}

proof fn lemma_visible(
    data: Seq<u8>,
    pos: int,
    p: Visible,
    rest: Seq<u8>,
    document: u32,
    first: bool,
    count: u32,
)
    requires
        has(data, pos, visible(p, rest)),
        can_be_visible(p, first),
        1 <= document <= count,
    ensures
        heaps::point_from(data, pos, document, first, count) == Ok::<
            Option<SequencePoint>,
            PdbFault,
        >(
            Some(
                SequencePoint {
                    document,
                    start_line: p.start_line,
                    start_column: p.start_column,
                },
            ),
        ),
{
    let r4 = compressed(p.start_column) + rest;
    let r3 = compressed(p.start_line) + r4;
    let r2 = compressed(p.columns) + r3;
    let r1 = compressed(p.lines) + r2;
    bytes::lemma_has_both(data, pos, compressed(p.distance), r1);
    bytes::law_compressed_round_trip(data, pos, p.distance);
    let p1 = pos + compressed(p.distance).len();
    bytes::lemma_has_both(data, p1, compressed(p.lines), r2);
    bytes::law_compressed_round_trip(data, p1, p.lines);
    let p2 = p1 + compressed(p.lines).len();
    bytes::lemma_has_both(data, p2, compressed(p.columns), r3);
    bytes::law_compressed_round_trip(data, p2, p.columns);
    let p3 = p2 + compressed(p.columns).len();
    bytes::lemma_has_both(data, p3, compressed(p.start_line), r4);
    bytes::law_compressed_round_trip(data, p3, p.start_line);
    let p4 = p3 + compressed(p.start_line).len();
    bytes::lemma_has_both(data, p4, compressed(p.start_column), rest);
    bytes::law_compressed_round_trip(data, p4, p.start_column);
}

/// Skipped records lead to what is after them.
proof fn lemma_skipped(
    data: Seq<u8>,
    pos: int,
    skipped: Seq<Skipped>,
    rest: Seq<u8>,
    document: u32,
    first: bool,
    count: u32,
) -> (end: int)
    requires
        has(data, pos, records(skipped, rest)),
        can_be_skipped(skipped, first),
    ensures
        has(data, end, rest),
        end == pos + records(skipped, rest).len() - rest.len(),
        heaps::point_from(data, pos, document, first, count) == heaps::point_from(
            data,
            end,
            document_after(skipped, document),
            first && skipped.len() == 0,
            count,
        ),
    decreases skipped.len(),
{
    if skipped.len() == 0 {
        pos
    } else {
        let tail = skipped.drop_first();
        let more = records(tail, rest);
        match skipped[0] {
            Skipped::Hidden(distance) => {
                let r2 = compressed(0) + more;
                bytes::lemma_has_both(data, pos, compressed(distance), compressed(0) + r2);
                bytes::law_compressed_round_trip(data, pos, distance);
                let p1 = pos + compressed(distance).len();
                bytes::lemma_has_both(data, p1, compressed(0), r2);
                bytes::law_compressed_round_trip(data, p1, 0);
                let p2 = p1 + compressed(0).len();
                bytes::lemma_has_both(data, p2, compressed(0), more);
                bytes::law_compressed_round_trip(data, p2, 0);
                lemma_skipped(
                    data,
                    p2 + compressed(0).len(),
                    tail,
                    rest,
                    document,
                    false,
                    count,
                )
            },
            Skipped::Document(d) => {
                bytes::lemma_has_both(data, pos, compressed(0), compressed(d) + more);
                bytes::law_compressed_round_trip(data, pos, 0);
                let p1 = pos + compressed(0).len();
                bytes::lemma_has_both(data, p1, compressed(d), more);
                bytes::law_compressed_round_trip(data, p1, d);
                lemma_skipped(data, p1 + compressed(d).len(), tail, rest, d, false, count)
            },
        }
    }
}

/// The header of the points of a method: its local signature, and its document where the
/// table does not name one.
pub open spec fn points(signature: u32, column: u32, document: u32, rest: Seq<u8>) -> Seq<u8> {
    if column != 0 {
        compressed(signature) + rest
    } else {
        compressed(signature) + (compressed(document) + rest)
    }
}

/// The header leads to the records after it.
proof fn lemma_header(
    signature: u32,
    column: u32,
    document: u32,
    rest: Seq<u8>,
    count: u32,
) -> (pos: int)
    requires
        signature < 0x2000_0000,
        document < 0x2000_0000,
        column != 0 ==> column == document,
    ensures
        ({
            let data = points(signature, column, document, rest);
            &&& has(data, pos, rest)
            &&& pos + rest.len() == data.len()
            &&& heaps::first_point_in(data, column, count) == heaps::point_from(
                data,
                pos,
                document,
                true,
                count,
            )
        }),
{
    let data = points(signature, column, document, rest);
    bytes::lemma_has_whole(data);
    let p1 = compressed(signature).len() as int;
    if column != 0 {
        bytes::lemma_has_both(data, 0, compressed(signature), rest);
        bytes::law_compressed_round_trip(data, 0, signature);
        p1
    } else {
        bytes::lemma_has_both(data, 0, compressed(signature), compressed(document) + rest);
        bytes::law_compressed_round_trip(data, 0, signature);
        bytes::lemma_has_both(data, p1, compressed(document), rest);
        bytes::law_compressed_round_trip(data, p1, document);
        p1 + compressed(document).len()
    }
}

/// The first visible point of a method is found behind hidden points and changes of the
/// document, with the document that is in force there and the place where it starts.
pub proof fn law_first_visible_point_is_found(
    signature: u32,
    column: u32,
    document: u32,
    skipped: Seq<Skipped>,
    p: Visible,
    rest: Seq<u8>,
    count: u32,
)
    requires
        signature < 0x2000_0000,
        document < 0x2000_0000,
        column != 0 ==> column == document,
        can_be_skipped(skipped, true),
        can_be_visible(p, skipped.len() == 0),
        1 <= document_after(skipped, document) <= count,
    ensures
        heaps::first_point_in(
            points(signature, column, document, records(skipped, visible(p, rest))),
            column,
            count,
        ) == Ok::<Option<SequencePoint>, PdbFault>(
            Some(
                SequencePoint {
                    document: document_after(skipped, document),
                    start_line: p.start_line,
                    start_column: p.start_column,
                },
            ),
        ),
{
    let inner = visible(p, rest);
    let all = records(skipped, inner);
    let data = points(signature, column, document, all);
    let pos = lemma_header(signature, column, document, all, count);
    let end = lemma_skipped(data, pos, skipped, inner, document, true, count);
    lemma_visible(
        data,
        end,
        p,
        rest,
        document_after(skipped, document),
        skipped.len() == 0,
        count,
    );
}

/// A method whose points are all hidden has no visible point.
pub proof fn law_hidden_points_are_not_found(
    signature: u32,
    column: u32,
    document: u32,
    skipped: Seq<Skipped>,
    count: u32,
)
    requires
        signature < 0x2000_0000,
        document < 0x2000_0000,
        column != 0 ==> column == document,
        can_be_skipped(skipped, true),
    ensures
        heaps::first_point_in(
            points(signature, column, document, records(skipped, Seq::empty())),
            column,
            count,
        ) == Ok::<Option<SequencePoint>, PdbFault>(None),
{
    let all = records(skipped, Seq::empty());
    let data = points(signature, column, document, all);
    let pos = lemma_header(signature, column, document, all, count);
    let end = lemma_skipped(data, pos, skipped, Seq::empty(), document, true, count);
}

/// An embedded source that is not compressed: a zero, then the text, with or without the
/// byte order mark.
pub proof fn law_embedded_text_is_read_as_written(source: Seq<char>, marked: bool)
    requires
        !marked ==> !bytes::has(vstd::utf8::encode_utf8(source), 0, seq![0xEFu8, 0xBB, 0xBF]),
    ensures
        heaps::embedded_source_in(
            le32(0) + (if marked {
                seq![0xEFu8, 0xBB, 0xBF] + vstd::utf8::encode_utf8(source)
            } else {
                vstd::utf8::encode_utf8(source)
            }),
        ) == Ok::<Seq<char>, PdbFault>(source),
{
    let coded = vstd::utf8::encode_utf8(source);
    let mark = seq![0xEFu8, 0xBB, 0xBF];
    let body = if marked {
        mark + coded
    } else {
        coded
    };
    let value = le32(0) + body;
    bytes::lemma_has_whole(value);
    bytes::lemma_has_both(value, 0, le32(0), body);
    bytes::law_u32_round_trip(value, 0, 0);
    assert(value.skip(4) =~= body);
    vstd::utf8::encode_utf8_valid_utf8(source);
    vstd::utf8::encode_utf8_decode_utf8(source);
    if marked {
        assert(body.subrange(0, 3) =~= mark);
        assert(body.skip(3) =~= coded);
    }
}

/// An embedded source that is compressed: the length of the text, then the deflated text.
pub proof fn law_deflated_text_is_inflated(source: Seq<char>, size: u32, deflated: Seq<u8>)
    requires
        0 < size < 0x400_0000,
        !bytes::has(vstd::utf8::encode_utf8(source), 0, seq![0xEFu8, 0xBB, 0xBF]),
        fsharp_resource::decompressed_exactly(deflated, size as usize) == Ok::<
            Seq<u8>,
            fsharp_resource::InflateFault,
        >(vstd::utf8::encode_utf8(source)),
    ensures
        heaps::embedded_source_in(le32(size) + deflated) == Ok::<Seq<char>, PdbFault>(source),
{
    let value = le32(size) + deflated;
    bytes::lemma_has_whole(value);
    bytes::lemma_has_both(value, 0, le32(size), deflated);
    bytes::law_u32_round_trip(value, 0, size);
    assert(value.skip(4) =~= deflated);
    vstd::utf8::encode_utf8_valid_utf8(source);
    vstd::utf8::encode_utf8_decode_utf8(source);
}

/// The custom information at a row is the embedded source of a document: its parent is
/// the document, by the tag 22, and its kind is the GUID
/// 0E8A571B-6926-466E-B4AD-8AB04611F5FE.
pub open spec fn embeds_source(p: PdbModel, row: nat, rid: u32) -> bool {
    &&& p.tables.cell(0x37, row, 0) == rid * 32 + 22
    &&& heaps::guid(p.guids, p.tables.cell(0x37, row, 1)) == Ok::<Seq<u8>, PdbFault>(
        seq![
            0x1Bu8, 0x57, 0x8A, 0x0E, 0x26, 0x69, 0x6E, 0x46, 0xB4, 0xAD, 0x8A, 0xB0, 0x46, 0x11,
            0xF5, 0xFE,
        ],
    )
}

/// The source of a document is that of the first row that embeds one for it.
pub proof fn law_embedded_source_is_found(p: PdbModel, rid: u32, row: nat, value: Seq<u8>)
    requires
        1 <= rid <= p.tables.rows[0x30],
        row < p.tables.rows[0x37],
        embeds_source(p, row, rid),
        holds_blob(p.blobs, p.tables.cell(0x37, row, 2), value),
        forall|j: nat|
            j < row && #[trigger] p.tables.cell(0x37, j, 0) == rid * 32 + 22 ==> heaps::guid(
                p.guids,
                p.tables.cell(0x37, j, 1),
            ) is Ok && !embeds_source(p, j, rid),
    ensures
        match heaps::embedded_source_in(value) {
            Ok(t) => p.embedded_source(rid) == Ok::<Option<Seq<char>>, PdbFault>(Some(t)),
            Err(e) => p.embedded_source(rid) == Err::<Option<Seq<char>>, PdbFault>(e),
        },
{
    lemma_embedded_from(p, rid, row, value, 0);
}

#[verifier::spinoff_prover]
#[verifier::rlimit(60)]
proof fn lemma_embedded_from(p: PdbModel, rid: u32, row: nat, value: Seq<u8>, from: nat)
    requires
        from <= row < p.tables.rows[0x37],
        embeds_source(p, row, rid),
        holds_blob(p.blobs, p.tables.cell(0x37, row, 2), value),
        forall|j: nat|
            j < row && #[trigger] p.tables.cell(0x37, j, 0) == rid * 32 + 22 ==> heaps::guid(
                p.guids,
                p.tables.cell(0x37, j, 1),
            ) is Ok && !embeds_source(p, j, rid),
    ensures
        match heaps::embedded_source_in(value) {
            Ok(t) => p.embedded_source_from(rid, from) == Ok::<Option<Seq<char>>, PdbFault>(
                Some(t),
            ),
            Err(e) => p.embedded_source_from(rid, from) == Err::<Option<Seq<char>>, PdbFault>(e),
        },
    decreases row - from,
{
    law_blob_is_read_as_written(p.blobs, p.tables.cell(0x37, row, 2), value);
    let kind = seq![
        0x1Bu8, 0x57, 0x8A, 0x0E, 0x26, 0x69, 0x6E, 0x46, 0xB4, 0xAD, 0x8A, 0xB0, 0x46, 0x11, 0xF5,
        0xFE,
    ];
    assert(metadata::embedded_source_kind() =~= kind);
    let parent = p.tables.cell(0x37, from, 0);
    assert(parent == rid * 32 + 22 <==> parent % 32 == 22 && parent / 32 == rid);
    if from < row {
        lemma_embedded_from(p, rid, row, value, from + 1);
    }
}

/// A document for which no row embeds a source has none.
#[verifier::spinoff_prover]
#[verifier::rlimit(60)]
pub proof fn law_no_embedded_source_is_found(p: PdbModel, rid: u32, from: nat)
    requires
        from <= p.tables.rows[0x37],
        forall|j: nat|
            j < p.tables.rows[0x37] && #[trigger] p.tables.cell(0x37, j, 0) == rid * 32 + 22
                ==> heaps::guid(p.guids, p.tables.cell(0x37, j, 1)) is Ok && !embeds_source(
                p,
                j,
                rid,
            ),
    ensures
        p.embedded_source_from(rid, from) == Ok::<Option<Seq<char>>, PdbFault>(None),
    decreases p.tables.rows[0x37] - from,
{
    let kind = seq![
        0x1Bu8, 0x57, 0x8A, 0x0E, 0x26, 0x69, 0x6E, 0x46, 0xB4, 0xAD, 0x8A, 0xB0, 0x46, 0x11, 0xF5,
        0xFE,
    ];
    assert(metadata::embedded_source_kind() =~= kind);
    if from < p.tables.rows[0x37] {
        let parent = p.tables.cell(0x37, from, 0);
        assert(parent == rid * 32 + 22 <==> parent % 32 == 22 && parent / 32 == rid);
        law_no_embedded_source_is_found(p, rid, from + 1);
    }
}

/// The custom information at a row is the source link: its kind is the GUID
/// CC110556-A091-4D38-9FEC-25AB9A351A6A.
pub open spec fn links_sources(p: PdbModel, row: nat) -> bool {
    heaps::guid(p.guids, p.tables.cell(0x37, row, 1)) == Ok::<Seq<u8>, PdbFault>(
        seq![
            0x56u8, 0x05, 0x11, 0xCC, 0x91, 0xA0, 0x38, 0x4D, 0x9F, 0xEC, 0x25, 0xAB, 0x9A, 0x35,
            0x1A, 0x6A,
        ],
    )
}

/// The source link is the text of the first row of its kind.
#[verifier::spinoff_prover]
#[verifier::rlimit(60)]
pub proof fn law_source_link_is_found(p: PdbModel, row: nat, link: Seq<char>, from: nat)
    requires
        from <= row < p.tables.rows[0x37],
        links_sources(p, row),
        holds_blob(p.blobs, p.tables.cell(0x37, row, 2), vstd::utf8::encode_utf8(link)),
        forall|j: nat|
            j < row ==> heaps::guid(p.guids, #[trigger] p.tables.cell(0x37, j, 1)) is Ok
                && !links_sources(p, j),
    ensures
        p.source_link_from(from) == Ok::<Option<Seq<char>>, PdbFault>(Some(link)),
    decreases row - from,
{
    let coded = vstd::utf8::encode_utf8(link);
    law_blob_is_read_as_written(p.blobs, p.tables.cell(0x37, row, 2), coded);
    vstd::utf8::encode_utf8_valid_utf8(link);
    vstd::utf8::encode_utf8_decode_utf8(link);
    let kind = seq![
        0x56u8, 0x05, 0x11, 0xCC, 0x91, 0xA0, 0x38, 0x4D, 0x9F, 0xEC, 0x25, 0xAB, 0x9A, 0x35, 0x1A,
        0x6A,
    ];
    assert(metadata::source_link_kind() =~= kind);
    if from < row {
        assert(!links_sources(p, from));
        law_source_link_is_found(p, row, link, from + 1);
    }
}

/// The name of a document is that of the blob that its row refers to.
pub proof fn law_document_is_named_by_its_row(
    p: PdbModel,
    rid: u32,
    separator: u8,
    parts: Seq<NamePart>,
    name: Seq<char>,
)
    requires
        1 <= rid <= p.tables.rows[0x30],
        forall|i: int| 0 <= i < parts.len() ==> holds_part(p.blobs, #[trigger] parts[i]),
        joined_parts(parts, separator) == vstd::utf8::encode_utf8(name),
        holds_blob(
            p.blobs,
            p.tables.cell(0x30, (rid - 1) as nat, 0),
            seq![separator] + part_indices(parts),
        ),
    ensures
        p.document_name(rid) == Ok::<Seq<char>, PdbFault>(name),
{
    law_blob_is_read_as_written(
        p.blobs,
        p.tables.cell(0x30, (rid - 1) as nat, 0),
        seq![separator] + part_indices(parts),
    );
    law_document_name_is_read_as_written(p.blobs, separator, parts, name);
}

/// The first point of a method is that of the blob that its row refers to.
pub proof fn law_method_is_placed_by_its_row(
    p: PdbModel,
    rid: u32,
    signature: u32,
    document: u32,
    skipped: Seq<Skipped>,
    v: Visible,
    rest: Seq<u8>,
)
    requires
        1 <= rid <= p.tables.rows[0x31],
        signature < 0x2000_0000,
        document < 0x2000_0000,
        p.tables.cell(0x31, (rid - 1) as nat, 0) == 0 || p.tables.cell(0x31, (rid - 1) as nat, 0)
            == document,
        p.tables.cell(0x31, (rid - 1) as nat, 1) != 0,
        can_be_skipped(skipped, true),
        can_be_visible(v, skipped.len() == 0),
        1 <= document_after(skipped, document) <= p.tables.rows[0x30],
        holds_blob(
            p.blobs,
            p.tables.cell(0x31, (rid - 1) as nat, 1),
            points(
                signature,
                p.tables.cell(0x31, (rid - 1) as nat, 0),
                document,
                records(skipped, visible(v, rest)),
            ),
        ),
    ensures
        p.first_sequence_point(rid) == Ok::<Option<SequencePoint>, PdbFault>(
            Some(
                SequencePoint {
                    document: document_after(skipped, document),
                    start_line: v.start_line,
                    start_column: v.start_column,
                },
            ),
        ),
{
    let column = p.tables.cell(0x31, (rid - 1) as nat, 0);
    let data = points(signature, column, document, records(skipped, visible(v, rest)));
    law_blob_is_read_as_written(p.blobs, p.tables.cell(0x31, (rid - 1) as nat, 1), data);
    law_first_visible_point_is_found(
        signature,
        column,
        document,
        skipped,
        v,
        rest,
        p.tables.rows[0x30],
    );
}

} // verus!
