//! The root of a debug database and its streams, from the side of the writer.
use crate::pdb::bytes;
use crate::pdb::bytes::{has, le16, le32};
use crate::pdb::error::PdbFault;
use crate::pdb::metadata;
use crate::pdb::metadata::StreamsModel;
use crate::pdb::table_format;
use crate::pdb::table_format::Database;
use vstd::prelude::*;

verus! {

broadcast use {bytes::lemma_le16_len, bytes::lemma_le32_len};

/// Zero bytes.
pub open spec fn zeros(n: nat) -> Seq<u8> {
    Seq::new(n, |i: int| 0u8)
}

/// A name with one to four zero bytes after it, so that it takes a multiple of four.
pub open spec fn padded(name: Seq<u8>) -> Seq<u8> {
    name + zeros((4 - name.len() % 4) as nat)
}

/// A stream: its name, and where its bytes are.
pub struct Stream {
    pub name: Seq<u8>,
    pub offset: u32,
    pub data: Seq<u8>,
}

/// The headers of streams: the offset, the size and the name of each.
pub open spec fn headers(streams: Seq<Stream>) -> Seq<u8>
    decreases streams.len(),
{
    if streams.len() == 0 {
        Seq::empty()
    } else {
        le32(streams[0].offset) + (le32(streams[0].data.len() as u32) + (padded(streams[0].name)
            + headers(streams.drop_first())))
    }
}

/// The root of a database.
pub struct Root {
    pub major: u16,
    pub minor: u16,
    pub reserved: u32,
    pub version: Seq<u8>,
    pub flags: u16,
    pub streams: Seq<Stream>,
}

impl Root {
    /// The root as it is written: the signature BSJB, the versions, the version text
    /// filled up to a multiple of four, the flags, the number of streams, their headers.
    pub open spec fn bytes(self) -> Seq<u8> {
        seq!['B' as u8, 'S' as u8, 'J' as u8, 'B' as u8] + (le16(self.major) + (le16(self.minor) + (
        le32(self.reserved) + (le32(self.version.len() as u32) + ((self.version + zeros(
            ((4 - self.version.len() % 4) % 4) as nat,
        )) + (le16(self.flags) + (le16(self.streams.len() as u16) + headers(self.streams))))))))
    }

    /// The numbers fit their fields, and the names are short and hold no zero.
    pub open spec fn valid(self) -> bool {
        &&& self.version.len() <= 0xFF
        &&& self.streams.len() <= u16::MAX
        &&& forall|i: int| 0 <= i < self.streams.len() ==> is_named(#[trigger] self.streams[i])
    }
}

/// The stream has a name that can be written.
pub open spec fn is_named(s: Stream) -> bool {
    &&& s.data.len() <= u32::MAX
    &&& s.name.len() < 32
    &&& forall|i: int| 0 <= i < s.name.len() ==> (#[trigger] s.name[i]) != 0
}

/// The bytes of the last stream of this name.
pub open spec fn last_named(streams: Seq<Stream>, name: Seq<u8>) -> Option<Seq<u8>>
    decreases streams.len(),
{
    if streams.len() == 0 {
        None
    } else if streams.last().name == name {
        Some(streams.last().data)
    } else {
        last_named(streams.drop_last(), name)
    }
}

/// A padded name takes a multiple of four bytes.
proof fn lemma_padded_len(name: Seq<u8>)
    ensures
        padded(name).len() == name.len() + 4 - name.len() % 4,
{
}

proof fn lemma_name(image: Seq<u8>, pos: int, name: Seq<u8>, acc: Seq<u8>)
    requires
        has(image, pos, padded(name)),
        acc.len() + name.len() < 32,
        forall|i: int| 0 <= i < name.len() ==> (#[trigger] name[i]) != 0,
    ensures
        metadata::stream_name_from(image, pos, acc) == Some(
            (acc + name, pos + padded(name).len()),
        ),
    decreases name.len(),
{
    let all = padded(name);
    assert forall|i: int| 0 <= i < all.len() implies image[pos + i] == #[trigger] all[i] by {
        bytes::lemma_has_byte(image, pos, all, i);
    }
    reveal_with_fuel(metadata::zero_in, 5);
    assert(image[pos + 0] == all[0] && image[pos + 1] == all[1] && image[pos + 2] == all[2]
        && image[pos + 3] == all[3]);
    if name.len() < 4 {
        assert(metadata::zero_in(image, pos, 0) == name.len());
        assert(image.subrange(pos, pos + name.len()) =~= name);
    } else {
        let tail = name.skip(4);
        assert(metadata::zero_in(image, pos, 0) == 4);
        assert(name.len() % 4 == tail.len() % 4);
        assert(all =~= name.take(4) + padded(tail));
        bytes::lemma_has_both(image, pos, name.take(4), padded(tail));
        assert forall|i: int| 0 <= i < tail.len() implies (#[trigger] tail[i]) != 0 by {
            assert(tail[i] == name[i + 4]);
        }
        let next = acc + image.subrange(pos, pos + 4);
        assert(image.subrange(pos, pos + 4) =~= name.take(4));
        lemma_name(image, pos + 4, tail, next);
        assert(next + tail =~= acc + name);
    }
}

/// The streams that a reader knows by name.
spec fn known(streams: Seq<Stream>) -> StreamsModel {
    StreamsModel {
        blobs: last_named(
            streams,
            seq!['#' as u8, 'B' as u8, 'l' as u8, 'o' as u8, 'b' as u8],
        ),
        guids: last_named(
            streams,
            seq!['#' as u8, 'G' as u8, 'U' as u8, 'I' as u8, 'D' as u8],
        ),
        tilde: last_named(streams, seq!['#' as u8, '~' as u8]),
        pdb: last_named(streams, seq!['#' as u8, 'P' as u8, 'd' as u8, 'b' as u8]),
    }
}

/// One more stream is known.
proof fn lemma_known(streams: Seq<Stream>, s: Stream)
    ensures
        known(streams.push(s)) == metadata::with_stream(known(streams), s.name, s.data),
{
    assert(streams.push(s).drop_last() =~= streams);
    let blob = seq!['#' as u8, 'B' as u8, 'l' as u8, 'o' as u8, 'b' as u8];
    let guid = seq!['#' as u8, 'G' as u8, 'U' as u8, 'I' as u8, 'D' as u8];
    let tilde = seq!['#' as u8, '~' as u8];
    let pdb = seq!['#' as u8, 'P' as u8, 'd' as u8, 'b' as u8];
    assert(metadata::blob_name() =~= blob);
    assert(metadata::guid_name() =~= guid);
    assert(metadata::tilde_name() =~= tilde);
    assert(metadata::pdb_name() =~= pdb);
    assert(blob[1] != guid[1] && blob[1] != tilde[1] && blob[1] != pdb[1]);
    assert(guid[1] != tilde[1] && guid[1] != pdb[1] && tilde[1] != pdb[1]);
}

proof fn lemma_streams(
    image: Seq<u8>,
    pos: int,
    streams: Seq<Stream>,
    before: Seq<Stream>,
    all: Seq<Stream>,
)
    requires
        has(image, pos, headers(streams)),
        all == before + streams,
        forall|i: int|
            0 <= i < streams.len() ==> is_named(#[trigger] streams[i]) && has(
                image,
                streams[i].offset as int,
                streams[i].data,
            ),
    ensures
        metadata::streams_from(image, pos, streams.len(), known(before)) == Some(known(all)),
    decreases streams.len(),
{
    if streams.len() == 0 {
        assert(all =~= before);
    } else {
        let s = streams[0];
        let tail = streams.drop_first();
        assert(is_named(s) && has(image, s.offset as int, s.data));
        let r2 = padded(s.name) + headers(tail);
        let r1 = le32(s.data.len() as u32) + r2;
        bytes::lemma_has_both(image, pos, le32(s.offset), r1);
        bytes::law_u32_round_trip(image, pos, s.offset);
        bytes::lemma_has_both(image, pos + 4, le32(s.data.len() as u32), r2);
        bytes::law_u32_round_trip(image, pos + 4, s.data.len() as u32);
        bytes::lemma_has_both(image, pos + 8, padded(s.name), headers(tail));
        lemma_name(image, pos + 8, s.name, Seq::empty());
        assert(Seq::empty() + s.name =~= s.name);
        lemma_known(before, s);
        assert forall|i: int| 0 <= i < tail.len() implies is_named(#[trigger] tail[i]) && has(
            image,
            tail[i].offset as int,
            tail[i].data,
        ) by {
            assert(tail[i] == streams[i + 1]);
        }
        assert(before.push(s) + tail =~= all);
        lemma_streams(image, pos + 8 + padded(s.name).len(), tail, before.push(s), all);
    }
}

/// The streams of a database are read as they were written: each that a reader knows is
/// the last one of its name.
pub proof fn law_streams_are_read_as_written(image: Seq<u8>, root: Root)
    requires
        root.valid(),
        has(image, 0, root.bytes()),
        forall|i: int|
            0 <= i < root.streams.len() ==> has(
                image,
                (#[trigger] root.streams[i]).offset as int,
                root.streams[i].data,
            ),
    ensures
        ({
            let s = metadata::streams_of(image);
            &&& s is Some
            &&& s->0.blobs == last_named(
                root.streams,
                seq!['#' as u8, 'B' as u8, 'l' as u8, 'o' as u8, 'b' as u8],
            )
            &&& s->0.guids == last_named(
                root.streams,
                seq!['#' as u8, 'G' as u8, 'U' as u8, 'I' as u8, 'D' as u8],
            )
            &&& s->0.tilde == last_named(root.streams, seq!['#' as u8, '~' as u8])
            &&& s->0.pdb == last_named(
                root.streams,
                seq!['#' as u8, 'P' as u8, 'd' as u8, 'b' as u8],
            )
        }),
{
    let sig = seq!['B' as u8, 'S' as u8, 'J' as u8, 'B' as u8];
    let fill = ((4 - root.version.len() % 4) % 4) as nat;
    let text = root.version + zeros(fill);
    let r7 = le16(root.streams.len() as u16) + headers(root.streams);
    let r6 = le16(root.flags) + r7;
    let r5 = text + r6;
    let r4 = le32(root.version.len() as u32) + r5;
    let r3 = le32(root.reserved) + r4;
    let r2 = le16(root.minor) + r3;
    let r1 = le16(root.major) + r2;
    bytes::lemma_has_both(image, 0, sig, r1);
    assert(image[0] == 'B' as u8 && image[1] == 'S' as u8 && image[2] == 'J' as u8 && image[3]
        == 'B' as u8) by {
        bytes::lemma_has_byte(image, 0, sig, 0);
        bytes::lemma_has_byte(image, 0, sig, 1);
        bytes::lemma_has_byte(image, 0, sig, 2);
        bytes::lemma_has_byte(image, 0, sig, 3);
    }
    bytes::lemma_has_both(image, 4, le16(root.major), r2);
    bytes::lemma_has_both(image, 6, le16(root.minor), r3);
    bytes::lemma_has_both(image, 8, le32(root.reserved), r4);
    bytes::lemma_has_both(image, 12, le32(root.version.len() as u32), r5);
    bytes::law_u32_round_trip(image, 12, root.version.len() as u32);
    bytes::lemma_has_both(image, 16, text, r6);
    let after = 16int + text.len();
    assert(after == 16 + (root.version.len() + 3) / 4 * 4);
    bytes::lemma_has_both(image, after, le16(root.flags), r7);
    bytes::lemma_has_both(
        image,
        after + 2,
        le16(root.streams.len() as u16),
        headers(root.streams),
    );
    bytes::law_u16_round_trip(image, after + 2, root.streams.len() as u16);
    assert(Seq::<Stream>::empty() + root.streams =~= root.streams);
    lemma_streams(image, after + 4, root.streams, Seq::empty(), root.streams);
}

/// A database that was written is read: its heaps, its identity, its row counts and its
/// cells are those that were written.
pub proof fn law_database_is_read_as_written(image: Seq<u8>, root: Root, db: Database)
    requires
        root.valid(),
        db.valid(),
        has(image, 0, root.bytes()),
        forall|i: int|
            0 <= i < root.streams.len() ==> has(
                image,
                (#[trigger] root.streams[i]).offset as int,
                root.streams[i].data,
            ),
        last_named(root.streams, seq!['#' as u8, 'B' as u8, 'l' as u8, 'o' as u8, 'b' as u8])
            is Some,
        last_named(root.streams, seq!['#' as u8, '~' as u8]) == Some(db.table_stream()),
        last_named(root.streams, seq!['#' as u8, 'P' as u8, 'd' as u8, 'b' as u8]) == Some(
            db.pdb_stream(),
        ),
    ensures
        ({
            let r = metadata::pdb_of(image);
            let p = r->Ok_0;
            let guids = last_named(
                root.streams,
                seq!['#' as u8, 'G' as u8, 'U' as u8, 'I' as u8, 'D' as u8],
            );
            &&& r is Ok
            &&& p.blobs == last_named(
                root.streams,
                seq!['#' as u8, 'B' as u8, 'l' as u8, 'o' as u8, 'b' as u8],
            )->0
            &&& guids is Some ==> p.guids == guids->0
            &&& guids is None ==> p.guids.len() == 0
            &&& p.id == db.id
            &&& forall|t: usize|
                0 <= t <= 0x37 ==> p.tables.rows[t as int] == #[trigger] db.count(t)
            &&& forall|t: usize, i: int, c: int|
                #![trigger p.tables.cell(t, i as nat, c as nat)]
                0x30 <= t <= 0x37 && 0 <= i < db.count(t) && 0 <= c < db.cells(t, i).len()
                    ==> p.tables.cell(t, i as nat, c as nat) == db.cells(t, i)[c].value
        }),
{
    law_streams_are_read_as_written(image, root);
    table_format::law_tables_are_read_as_written(db);
    reveal(Database::pdb_stream);
    assert(db.pdb_stream().take(20) =~= db.id);
}

/// A database without one of its streams is refused, and the first missing one is named.
pub proof fn law_missing_stream_is_named(image: Seq<u8>, root: Root)
    requires
        root.valid(),
        has(image, 0, root.bytes()),
        forall|i: int|
            0 <= i < root.streams.len() ==> has(
                image,
                (#[trigger] root.streams[i]).offset as int,
                root.streams[i].data,
            ),
    ensures
        ({
            let tilde = last_named(root.streams, seq!['#' as u8, '~' as u8]);
            let blob = last_named(
                root.streams,
                seq!['#' as u8, 'B' as u8, 'l' as u8, 'o' as u8, 'b' as u8],
            );
            let pdb = last_named(
                root.streams,
                seq!['#' as u8, 'P' as u8, 'd' as u8, 'b' as u8],
            );
            let r = metadata::pdb_of(image);
            &&& tilde is None ==> r is Err && r->Err_0 == PdbFault::MissingPdbStream("#~"@)
            &&& tilde is Some && blob is None ==> r is Err && r->Err_0
                == PdbFault::MissingPdbStream("#Blob"@)
            &&& tilde is Some && blob is Some && pdb is None ==> r is Err && r->Err_0
                == PdbFault::MissingPdbStream("#Pdb"@)
        }),
{
    law_streams_are_read_as_written(image, root);
}

} // verus!
