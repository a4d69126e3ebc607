//! The debug database: its streams, tables and heaps.
//!
//! The database is a metadata container with tables of its own: the documents, the
//! sequence points of the methods, and custom information such as embedded sources.
//! Some of its columns point into tables of the assembly, whose sizes it repeats.
use crate::pdb::error::{PdbError, PdbFault};
use crate::pdb::heaps;
use crate::pdb::heaps::{
    blob_at, decode_document_name, decode_embedded_source, decode_first_sequence_point, guid_at,
    SequencePoint,
};
use crate::pdb::tables;
use crate::pdb::tables::{
    HeapWidths, Tables, TablesModel, TABLE_CUSTOM_DEBUG_INFO, TABLE_DOCUMENT,
    TABLE_METHOD_DEBUG_INFO,
};
use crate::reader;
use crate::reader::{read_u16_at, read_u32_at, read_u64_at, slice_at};
use crate::text;
use crate::text::text_of_bytes;
use vstd::prelude::*;
use vstd::slice::*;

verus! {

/// The first four bytes of a metadata container.
pub const METADATA_SIGNATURE: u32 = 0x424A_5342;

/// The tag of a document among the tables with custom debug information.
pub const HCDI_TAG_DOCUMENT: u32 = 22;

/// The kind of custom information that is the source of a document.
pub open spec fn embedded_source_kind() -> Seq<u8> {
    seq![
        0x1bu8, 0x57, 0x8a, 0x0e, 0x26, 0x69, 0x6e, 0x46, 0xb4, 0xad, 0x8a, 0xb0, 0x46, 0x11, 0xf5,
        0xfe,
    ]
}

/// The kind of custom information that maps sources to places on the web.
pub open spec fn source_link_kind() -> Seq<u8> {
    seq![
        0x56u8, 0x05, 0x11, 0xcc, 0x91, 0xa0, 0x38, 0x4d, 0x9f, 0xec, 0x25, 0xab, 0x9a, 0x35, 0x1a,
        0x6a,
    ]
}

/// A parsed debug database.
pub struct PdbModel {
    pub blobs: Seq<u8>,
    pub guids: Seq<u8>,
    pub tables: TablesModel,
    pub id: Seq<u8>,
}

/// The name of a stream that starts at `pos`, after the bytes in `acc`, with the place
/// after it. The name ends at a zero and is filled up to four bytes.
pub open spec fn stream_name_from(data: Seq<u8>, pos: int, acc: Seq<u8>) -> Option<(Seq<u8>, int)>
    decreases data.len() - pos,
{
    if pos < 0 || pos + 4 > data.len() {
        None
    } else {
        let end = zero_in(data, pos, 0);
        if end < 4 {
            Some((acc + data.subrange(pos, pos + end), pos + 4))
        } else if acc.len() + 4 > 32 {
            None
        } else {
            stream_name_from(data, pos + 4, acc + data.subrange(pos, pos + 4))
        }
    }
}

/// The place of the first zero among the four bytes at `pos`, from the `i`-th on, or
/// four.
pub open spec fn zero_in(data: Seq<u8>, pos: int, i: nat) -> nat
    decreases 4 - i,
{
    if i >= 4 {
        4
    } else if data[pos + i] == 0 {
        i
    } else {
        zero_in(data, pos, i + 1)
    }
}

/// The streams of a database, as far as they are used.
pub struct StreamsModel {
    pub blobs: Option<Seq<u8>>,
    pub guids: Option<Seq<u8>>,
    pub tilde: Option<Seq<u8>>,
    pub pdb: Option<Seq<u8>>,
}

/// The name of the blob heap.
pub open spec fn blob_name() -> Seq<u8> {
    seq![0x23u8, 0x42, 0x6C, 0x6F, 0x62]
}

/// The name of the GUID heap.
pub open spec fn guid_name() -> Seq<u8> {
    seq![0x23u8, 0x47, 0x55, 0x49, 0x44]
}

/// The name of the stream of tables.
pub open spec fn tilde_name() -> Seq<u8> {
    seq![0x23u8, 0x7E]
}

/// The name of the stream that is that of a debug database alone.
pub open spec fn pdb_name() -> Seq<u8> {
    seq![0x23u8, 0x50, 0x64, 0x62]
}

/// The streams with one more.
pub open spec fn with_stream(s: StreamsModel, name: Seq<u8>, data: Seq<u8>) -> StreamsModel {
    if name == blob_name() {
        StreamsModel { blobs: Some(data), ..s }
    } else if name == guid_name() {
        StreamsModel { guids: Some(data), ..s }
    } else if name == tilde_name() {
        StreamsModel { tilde: Some(data), ..s }
    } else if name == pdb_name() {
        StreamsModel { pdb: Some(data), ..s }
    } else {
        s
    }
}

/// The streams whose `n` headers start at `pos`, added to those in `acc`. A header is
/// an offset, a size and a name.
pub open spec fn streams_from(image: Seq<u8>, pos: int, n: nat, acc: StreamsModel) -> Option<
    StreamsModel,
>
    decreases n,
{
    if n == 0 {
        Some(acc)
    } else {
        match (
            reader::u32_at(image, pos),
            reader::u32_at(image, pos + 4),
            stream_name_from(image, pos + 8, Seq::empty()),
        ) {
            (Some(off), Some(size), Some((name, next))) => match reader::bytes_at(
                image,
                off as int,
                off + size,
            ) {
                Some(region) => streams_from(
                    image,
                    next,
                    (n - 1) as nat,
                    with_stream(acc, name, region),
                ),
                None => None,
            },
            _ => None,
        }
    }
}

/// The streams of a database. The root is a signature, two versions, a text with its
/// length, filled up to four bytes, flags and the number of streams.
pub open spec fn streams_of(image: Seq<u8>) -> Option<StreamsModel> {
    match (reader::u32_at(image, 0), reader::u32_at(image, 12)) {
        (Some(signature), Some(version_len)) => {
            let after = 16 + (version_len + 3) / 4 * 4;
            match reader::u16_at(image, after + 2) {
                Some(n) => if signature == METADATA_SIGNATURE {
                    streams_from(
                        image,
                        after + 4,
                        n as nat,
                        StreamsModel { blobs: None, guids: None, tilde: None, pdb: None },
                    )
                } else {
                    None
                },
                None => None,
            }
        },
        _ => None,
    }
}

/// The bit of the table `i` is set.
pub open spec fn has_bit(bits: u64, i: u64) -> bool {
    bits & (1u64 << i) != 0
}

/// The row counts of the tables from the `i`-th on, written at `pos`, with the place
/// after them. Only tables of debug data may be there.
pub open spec fn own_rows_from(
    tilde: Seq<u8>,
    bits: u64,
    i: nat,
    pos: int,
    rows: Seq<u32>,
) -> Result<(Seq<u32>, int), PdbFault>
    decreases 64 - i,
{
    if i >= 64 {
        Ok((rows, pos))
    } else if !has_bit(bits, i as u64) {
        own_rows_from(tilde, bits, i + 1, pos, rows)
    } else if !tables::is_debug_table(i as usize) {
        Err(PdbFault::UnsupportedPdbTable(i as usize))
    } else {
        match reader::u32_at(tilde, pos) {
            None => Err(PdbFault::BadMetadataImage),
            Some(n) => own_rows_from(tilde, bits, i + 1, pos + 4, rows.update(i as int, n)),
        }
    }
}

/// The row counts with those of the tables of the assembly from the `i`-th on, written
/// at `pos`. The count of a table of debug data is passed over.
pub open spec fn referenced_rows_from(
    pdb: Seq<u8>,
    bits: u64,
    i: nat,
    pos: int,
    rows: Seq<u32>,
) -> Result<Seq<u32>, PdbFault>
    decreases 64 - i,
{
    if i >= 64 {
        Ok(rows)
    } else if !has_bit(bits, i as u64) {
        referenced_rows_from(pdb, bits, i + 1, pos, rows)
    } else {
        match reader::u32_at(pdb, pos) {
            None => Err(PdbFault::BadMetadataImage),
            Some(n) => referenced_rows_from(
                pdb,
                bits,
                i + 1,
                pos + 4,
                if i < TABLE_DOCUMENT {
                    rows.update(i as int, n)
                } else {
                    rows
                },
            ),
        }
    }
}

/// How wide an index into a heap is, by its bit in the header.
pub open spec fn heap_width(flags: u8, bit: u8) -> usize {
    if flags & bit != 0 {
        4
    } else {
        2
    }
}

/// The widths of the heap indices.
pub open spec fn heap_widths(flags: u8) -> HeapWidths {
    HeapWidths {
        string: heap_width(flags, 0x01),
        guid: heap_width(flags, 0x02),
        blob: heap_width(flags, 0x04),
    }
}

/// The tables in the stream of tables, sized with the help of the other stream.
pub open spec fn tables_of(tilde: Seq<u8>, pdb: Seq<u8>) -> Result<TablesModel, PdbFault> {
    if tilde.len() < 24 || tilde[6] & 0x40 != 0 {
        Err(PdbFault::BadMetadataImage)
    } else {
        match own_rows_from(
            tilde,
            reader::u64_at(tilde, 8)->0,
            0,
            24,
            Seq::new(64, |i: int| 0u32),
        ) {
            Err(e) => Err(e),
            Ok((own, after)) => if pdb.len() < 32 {
                Err(PdbFault::BadMetadataImage)
            } else {
                match referenced_rows_from(pdb, reader::u64_at(pdb, 24)->0, 0, 32, own) {
                    Err(e) => Err(e),
                    Ok(rows) => {
                        let m = TablesModel {
                            rows,
                            heap: heap_widths(tilde[6]),
                            data: tilde.skip(after),
                        };
                        if m.table_start((TABLE_CUSTOM_DEBUG_INFO + 1) as usize) > m.data.len() {
                            Err(PdbFault::TableIndexOutOfRange)
                        } else {
                            Ok(m)
                        }
                    },
                }
            },
        }
    }
}

/// The database in an image.
pub open spec fn pdb_of(image: Seq<u8>) -> Result<PdbModel, PdbFault> {
    match streams_of(image) {
        None => Err(PdbFault::BadMetadataImage),
        Some(s) => if s.tilde is None {
            Err(PdbFault::MissingPdbStream("#~"@))
        } else if s.blobs is None {
            Err(PdbFault::MissingPdbStream("#Blob"@))
        } else if s.pdb is None {
            Err(PdbFault::MissingPdbStream("#Pdb"@))
        } else {
            match tables_of(s.tilde->0, s.pdb->0) {
                Err(e) => Err(e),
                Ok(tables) => Ok(
                    PdbModel {
                        blobs: s.blobs->0,
                        guids: match s.guids {
                            Some(g) => g,
                            None => Seq::empty(),
                        },
                        tables,
                        id: s.pdb->0.take(20),
                    },
                ),
            }
        },
    }
}

impl PdbModel {
    /// The name of a document.
    pub open spec fn document_name(self, rid: u32) -> Result<Seq<char>, PdbFault> {
        if rid == 0 || rid > self.tables.rows[TABLE_DOCUMENT as int] {
            Err(PdbFault::TableIndexOutOfRange)
        } else {
            match heaps::blob(self.blobs, self.tables.cell(TABLE_DOCUMENT, (rid - 1) as nat, 0)) {
                Err(e) => Err(e),
                Ok(name) => heaps::document_name_in(self.blobs, name),
            }
        }
    }

    /// The first visible sequence point of a method.
    pub open spec fn first_sequence_point(self, rid: u32) -> Result<
        Option<SequencePoint>,
        PdbFault,
    > {
        if rid == 0 || rid > self.tables.rows[TABLE_METHOD_DEBUG_INFO as int] {
            Err(PdbFault::TableIndexOutOfRange)
        } else {
            let document = self.tables.cell(TABLE_METHOD_DEBUG_INFO, (rid - 1) as nat, 0);
            let points = self.tables.cell(TABLE_METHOD_DEBUG_INFO, (rid - 1) as nat, 1);
            if points == 0 {
                Ok(None)
            } else {
                match heaps::blob(self.blobs, points) {
                    Err(_) => Err(PdbFault::MalformedSequencePoints),
                    Ok(data) => heaps::first_point_in(
                        data,
                        document,
                        self.tables.rows[TABLE_DOCUMENT as int],
                    ),
                }
            }
        }
    }

    /// The source of a document, in the custom information from `row` on.
    pub open spec fn embedded_source_from(self, rid: u32, row: nat) -> Result<
        Option<Seq<char>>,
        PdbFault,
    >
        decreases self.tables.rows[TABLE_CUSTOM_DEBUG_INFO as int] - row,
    {
        if row >= self.tables.rows[TABLE_CUSTOM_DEBUG_INFO as int] {
            Ok(None)
        } else {
            let parent = self.tables.cell(TABLE_CUSTOM_DEBUG_INFO, row, 0);
            if parent % 32 != HCDI_TAG_DOCUMENT || parent / 32 != rid {
                self.embedded_source_from(rid, row + 1)
            } else {
                match heaps::guid(self.guids, self.tables.cell(TABLE_CUSTOM_DEBUG_INFO, row, 1)) {
                    Err(e) => Err(e),
                    Ok(kind) => if kind != embedded_source_kind() {
                        self.embedded_source_from(rid, row + 1)
                    } else {
                        match heaps::blob(
                            self.blobs,
                            self.tables.cell(TABLE_CUSTOM_DEBUG_INFO, row, 2),
                        ) {
                            Err(_) => Err(PdbFault::MalformedEmbeddedSource),
                            Ok(value) => match heaps::embedded_source_in(value) {
                                Err(e) => Err(e),
                                Ok(t) => Ok(Some(t)),
                            },
                        }
                    },
                }
            }
        }
    }

    /// The source of a document, if it is embedded.
    pub open spec fn embedded_source(self, rid: u32) -> Result<Option<Seq<char>>, PdbFault> {
        if rid == 0 || rid > self.tables.rows[TABLE_DOCUMENT as int] {
            Err(PdbFault::TableIndexOutOfRange)
        } else {
            self.embedded_source_from(rid, 0)
        }
    }

    /// The source link document, in the custom information from `row` on.
    pub open spec fn source_link_from(self, row: nat) -> Result<Option<Seq<char>>, PdbFault>
        decreases self.tables.rows[TABLE_CUSTOM_DEBUG_INFO as int] - row,
    {
        if row >= self.tables.rows[TABLE_CUSTOM_DEBUG_INFO as int] {
            Ok(None)
        } else {
            match heaps::guid(self.guids, self.tables.cell(TABLE_CUSTOM_DEBUG_INFO, row, 1)) {
                Err(e) => Err(e),
                Ok(kind) => if kind != source_link_kind() {
                    self.source_link_from(row + 1)
                } else {
                    match heaps::blob(
                        self.blobs,
                        self.tables.cell(TABLE_CUSTOM_DEBUG_INFO, row, 2),
                    ) {
                        Err(_) => Err(PdbFault::MalformedSourceLink),
                        Ok(value) => match text::utf8_text(value) {
                            None => Err(PdbFault::MalformedSourceLink),
                            Some(t) => Ok(Some(t)),
                        },
                    }
                },
            }
        }
    }
}

/// A parsed debug database, which borrows the image.
pub struct PortablePdb<'a> {
    blobs: &'a [u8],
    guids: Option<&'a [u8]>,
    tables: Tables<'a>,
    id: [u8; 20],
}

impl<'a> View for PortablePdb<'a> {
    type V = PdbModel;

    closed spec fn view(&self) -> PdbModel {
        PdbModel {
            blobs: self.blobs@,
            guids: match self.guids {
                Some(g) => g@,
                None => Seq::empty(),
            },
            tables: self.tables@,
            id: self.id@,
        }
    }
}

/// The streams of a database, as far as they are used.
struct Streams<'a> {
    blobs: Option<&'a [u8]>,
    guids: Option<&'a [u8]>,
    tilde: Option<&'a [u8]>,
    pdb: Option<&'a [u8]>,
}

impl<'a> View for Streams<'a> {
    type V = StreamsModel;

    closed spec fn view(&self) -> StreamsModel {
        StreamsModel {
            blobs: match self.blobs {
                Some(d) => Some(d@),
                None => None,
            },
            guids: match self.guids {
                Some(d) => Some(d@),
                None => None,
            },
            tilde: match self.tilde {
                Some(d) => Some(d@),
                None => None,
            },
            pdb: match self.pdb {
                Some(d) => Some(d@),
                None => None,
            },
        }
    }
}

/// Whether two byte strings are the same.
fn same_bytes(a: &[u8], b: &[u8]) -> (r: bool)
    ensures
        r == (a@ == b@),
{
    if a.len() != b.len() {
        return false;
    }
    let mut i: usize = 0;
    while i < a.len()
        invariant
            i <= a@.len(),
            a@.len() == b@.len(),
            forall|j: int| 0 <= j < i ==> a@[j] == b@[j],
        decreases a.len() - i,
    {
        if a[i] != b[i] {
            return false;
        }
        i = i + 1;
    }
    assert(a@ =~= b@);
    true
}

/// The name of a stream, with the place after it.
fn read_stream_name(data: &[u8], start: usize) -> (r: Option<(Vec<u8>, usize)>)
    ensures
        match stream_name_from(data@, start as int, Seq::empty()) {
            Some((name, next)) => next <= data@.len() && match r {
                Some((n, p)) => n@ == name && p == next,
                None => false,
            },
            None => r is None,
        },
{
    let mut name: Vec<u8> = Vec::new();
    let mut pos: usize = start;
    assert(name@ =~= Seq::empty());
    loop
        invariant
            name@.len() <= 32,
            stream_name_from(data@, start as int, Seq::empty()) == stream_name_from(
                data@,
                pos as int,
                name@,
            ),
        decreases data@.len() - pos,
    {
        if data.len() < 4 || pos > data.len() - 4 {
            return None;
        }
        assert(data.len() <= usize::MAX);
        let ghost before = name@;
        let mut i: usize = 0;
        while i < 4
            invariant
                i <= 4,
                pos + 4 <= data@.len() <= usize::MAX,
                before.len() <= 32,
                name@ == before + data@.subrange(pos as int, pos + i),
                zero_in(data@, pos as int, 0) == zero_in(data@, pos as int, i as nat),
                stream_name_from(data@, start as int, Seq::empty()) == stream_name_from(
                    data@,
                    pos as int,
                    before,
                ),
            decreases 4 - i,
        {
            if data[pos + i] == 0 {
                return Some((name, pos + 4));
            }
            name.push(data[pos + i]);
            assert(before + data@.subrange(pos as int, pos + i + 1) =~= (before + data@.subrange(
                pos as int,
                pos + i,
            )).push(data@[pos + i]));
            i = i + 1;
        }
        if name.len() > 32 {
            return None;
        }
        pos = pos + 4;
    }
}

/// The streams of a database.
fn read_streams<'a>(image: &'a [u8]) -> (r: Option<Streams<'a>>)
    ensures
        match streams_of(image@) {
            Some(s) => r is Some && r->0@ == s,
            None => r is None,
        },
{
    assert(image.len() <= usize::MAX);
    let signature: u32 = match read_u32_at(image, 0) {
        Some(n) => n,
        None => {
            return None;
        },
    };
    let version_len: u32 = match read_u32_at(image, 12) {
        Some(n) => n,
        None => {
            return None;
        },
    };
    let after_wide: u64 = 16 + (version_len as u64 + 3) / 4 * 4;
    if after_wide > image.len() as u64 || image.len() as u64 - after_wide < 4 {
        return None;
    }
    let after: usize = after_wide as usize;
    let n: u16 = match read_u16_at(image, after + 2) {
        Some(n) => n,
        None => {
            return None;
        },
    };
    if signature != METADATA_SIGNATURE {
        return None;
    }
    let mut streams = Streams { blobs: None, guids: None, tilde: None, pdb: None };
    let mut pos: usize = after + 4;
    let mut left: u16 = n;
    let blob_bytes: [u8; 5] = [0x23, 0x42, 0x6C, 0x6F, 0x62];
    let guid_bytes: [u8; 5] = [0x23, 0x47, 0x55, 0x49, 0x44];
    let tilde_bytes: [u8; 2] = [0x23, 0x7E];
    let pdb_bytes: [u8; 4] = [0x23, 0x50, 0x64, 0x62];
    assert(blob_bytes@ =~= blob_name());
    assert(guid_bytes@ =~= guid_name());
    assert(tilde_bytes@ =~= tilde_name());
    assert(pdb_bytes@ =~= pdb_name());
    while left > 0
        invariant
            pos <= image@.len(),
            image@.len() <= usize::MAX,
            blob_bytes@ == blob_name(),
            guid_bytes@ == guid_name(),
            tilde_bytes@ == tilde_name(),
            pdb_bytes@ == pdb_name(),
            streams_of(image@) == streams_from(image@, pos as int, left as nat, streams@),
        decreases left,
    {
        if image.len() - pos < 8 {
            return None;
        }
        match (
            read_u32_at(image, pos),
            read_u32_at(image, pos + 4),
            read_stream_name(image, pos + 8),
        ) {
            (Some(off), Some(size), Some((name, next))) => {
                let end: usize = match (off as usize).checked_add(size as usize) {
                    Some(end) => end,
                    None => {
                        return None;
                    },
                };
                match slice_at(image, off as usize, end) {
                    Some(region) => {
                        if same_bytes(name.as_slice(), blob_bytes.as_slice()) {
                            streams.blobs = Some(region);
                        } else if same_bytes(name.as_slice(), guid_bytes.as_slice()) {
                            streams.guids = Some(region);
                        } else if same_bytes(name.as_slice(), tilde_bytes.as_slice()) {
                            streams.tilde = Some(region);
                        } else if same_bytes(name.as_slice(), pdb_bytes.as_slice()) {
                            streams.pdb = Some(region);
                        }
                    },
                    None => {
                        return None;
                    },
                }
                pos = next;
            },
            _ => {
                return None;
            },
        }
        left = left - 1;
    }
    Some(streams)
}

/// The row counts of the tables of debug data, with the place after them.
fn read_own_rows(tilde: &[u8], bits: u64) -> (r: Result<(Vec<u32>, usize), PdbError>)
    requires
        tilde@.len() >= 24,
    ensures
        match own_rows_from(tilde@, bits, 0, 24, Seq::new(64, |i: int| 0u32)) {
            Ok((rows, after)) => r is Ok && r->Ok_0.0@ == rows && r->Ok_0.1 == after && rows.len()
                == 64 && after <= tilde@.len(),
            Err(e) => r is Err && r->Err_0.deep_view() == e,
        },
{
    assert(tilde.len() <= usize::MAX);
    let mut rows: Vec<u32> = Vec::new();
    let mut k: usize = 0;
    while k < 64
        invariant
            k <= 64,
            rows@ == Seq::new(k as nat, |i: int| 0u32),
        decreases 64 - k,
    {
        rows.push(0);
        k = k + 1;
        assert(rows@ =~= Seq::new(k as nat, |i: int| 0u32));
    }
    let mut pos: usize = 24;
    let mut i: usize = 0;
    while i < 64
        invariant
            i <= 64,
            rows@.len() == 64,
            pos <= tilde@.len() <= usize::MAX,
            own_rows_from(tilde@, bits, 0, 24, Seq::new(64, |i: int| 0u32)) == own_rows_from(
                tilde@,
                bits,
                i as nat,
                pos as int,
                rows@,
            ),
        decreases 64 - i,
    {
        if bits & (1u64 << (i as u64)) != 0 {
            if !(TABLE_DOCUMENT <= i && i <= TABLE_CUSTOM_DEBUG_INFO) {
                return Err(PdbError::UnsupportedPdbTable(i));
            }
            match read_u32_at(tilde, pos) {
                Some(n) => {
                    rows.set(i, n);
                    pos = pos + 4;
                },
                None => {
                    return Err(PdbError::BadMetadataImage);
                },
            }
        }
        i = i + 1;
    }
    Ok((rows, pos))
}

/// Add the row counts of the tables of the assembly.
fn read_referenced_rows(pdb: &[u8], bits: u64, own: Vec<u32>) -> (r: Result<Vec<u32>, PdbError>)
    requires
        pdb@.len() >= 32,
        own@.len() == 64,
    ensures
        match referenced_rows_from(pdb@, bits, 0, 32, own@) {
            Ok(rows) => r is Ok && r->Ok_0@ == rows && rows.len() == 64,
            Err(e) => r is Err && r->Err_0.deep_view() == e,
        },
{
    assert(pdb.len() <= usize::MAX);
    let ghost start = own@;
    let mut rows = own;
    let mut pos: usize = 32;
    let mut i: usize = 0;
    while i < 64
        invariant
            i <= 64,
            rows@.len() == 64,
            start == own@,
            pos <= pdb@.len() <= usize::MAX,
            referenced_rows_from(pdb@, bits, 0, 32, start) == referenced_rows_from(
                pdb@,
                bits,
                i as nat,
                pos as int,
                rows@,
            ),
        decreases 64 - i,
    {
        if bits & (1u64 << (i as u64)) != 0 {
            match read_u32_at(pdb, pos) {
                Some(n) => {
                    if i < TABLE_DOCUMENT {
                        rows.set(i, n);
                    }
                    pos = pos + 4;
                },
                None => {
                    return Err(PdbError::BadMetadataImage);
                },
            }
        }
        i = i + 1;
    }
    Ok(rows)
}

/// How wide an index into a heap is, by its bit in the header.
fn heap_index_width(flags: u8, bit: u8) -> (r: usize)
    ensures
        r == heap_width(flags, bit),
{
    if flags & bit != 0 {
        4
    } else {
        2
    }
}

/// The tables in the stream of tables.
fn read_tables<'a>(tilde: &'a [u8], pdb: &[u8]) -> (r: Result<Tables<'a>, PdbError>)
    ensures
        match tables_of(tilde@, pdb@) {
            Ok(m) => r is Ok && r->Ok_0@ == m && m.wf() && pdb@.len() >= 32,
            Err(e) => r is Err && r->Err_0.deep_view() == e,
        },
{
    if tilde.len() < 24 || tilde[6] & 0x40 != 0 {
        return Err(PdbError::BadMetadataImage);
    }
    let flags: u8 = tilde[6];
    let valid: u64 = match read_u64_at(tilde, 8) {
        Some(n) => n,
        None => {
            return Err(PdbError::BadMetadataImage);
        },
    };
    let (own, after) = read_own_rows(tilde, valid)?;
    if pdb.len() < 32 {
        return Err(PdbError::BadMetadataImage);
    }
    let referenced: u64 = match read_u64_at(pdb, 24) {
        Some(n) => n,
        None => {
            return Err(PdbError::BadMetadataImage);
        },
    };
    let rows = read_referenced_rows(pdb, referenced, own)?;
    let data = slice_subrange(tilde, after, tilde.len());
    assert(data@ =~= tilde@.skip(after as int));
    let tables = Tables {
        rows,
        heap: HeapWidths {
            string: heap_index_width(flags, 0x01),
            guid: heap_index_width(flags, 0x02),
            blob: heap_index_width(flags, 0x04),
        },
        data,
    };
    let end: usize = match tables.offset(TABLE_CUSTOM_DEBUG_INFO + 1) {
        Some(n) => n,
        None => {
            assert(data.len() <= usize::MAX);
            return Err(PdbError::TableIndexOutOfRange);
        },
    };
    if end > data.len() {
        return Err(PdbError::TableIndexOutOfRange);
    }
    Ok(tables)
}

impl<'a> PortablePdb<'a> {
    /// The tables lie within the stream of tables.
    #[verifier::type_invariant]
    spec fn wf(self) -> bool {
        self.tables@.wf()
    }

    /// Parse a debug database.
    pub fn read(image: &'a [u8]) -> (r: Result<PortablePdb<'a>, PdbError>)
        ensures
            match pdb_of(image@) {
                Ok(m) => r is Ok && r->Ok_0@ == m,
                Err(e) => r is Err && r->Err_0.deep_view() == e,
            },
    {
        let streams = match read_streams(image) {
            Some(s) => s,
            None => {
                return Err(PdbError::BadMetadataImage);
            },
        };
        let tilde = match streams.tilde {
            Some(d) => d,
            None => {
                return Err(PdbError::MissingPdbStream("#~"));
            },
        };
        let blobs = match streams.blobs {
            Some(d) => d,
            None => {
                return Err(PdbError::MissingPdbStream("#Blob"));
            },
        };
        let pdb = match streams.pdb {
            Some(d) => d,
            None => {
                return Err(PdbError::MissingPdbStream("#Pdb"));
            },
        };
        let tables = read_tables(tilde, pdb)?;
        let mut id: [u8; 20] = [0u8; 20];
        let mut i: usize = 0;
        while i < 20
            invariant
                i <= 20,
                pdb@.len() >= 32,
                forall|j: int| 0 <= j < i ==> id@[j] == pdb@[j],
            decreases 20 - i,
        {
            id[i] = pdb[i];
            i = i + 1;
        }
        assert(id@ =~= pdb@.take(20));
        Ok(PortablePdb { blobs, guids: streams.guids, tables, id })
    }

    /// The identifier of the database: a GUID and a stamp. A database belongs to an
    /// executable whose pointer has the same one.
    pub fn id(&self) -> (r: [u8; 20])
        ensures
            r@ == self@.id,
    {
        self.id
    }

    /// The number of documents.
    pub fn document_count(&self) -> (r: u32)
        ensures
            r == self@.tables.rows[TABLE_DOCUMENT as int],
    {
        proof {
            use_type_invariant(self);
        }
        self.tables.rows[TABLE_DOCUMENT]
    }

    /// The name of a document, which is counted from one.
    pub fn document_name(&self, rid: u32) -> (r: Result<String, PdbError>)
        ensures
            match self@.document_name(rid) {
                Ok(t) => r is Ok && r->Ok_0@ == t,
                Err(e) => r is Err && r->Err_0.deep_view() == e,
            },
    {
        proof {
            use_type_invariant(self);
        }
        if rid == 0 || rid > self.tables.rows[TABLE_DOCUMENT] {
            return Err(PdbError::TableIndexOutOfRange);
        }
        let index: u32 = self.tables.col_value(TABLE_DOCUMENT, rid - 1, 0);
        let name = blob_at(self.blobs, index)?;
        decode_document_name(self.blobs, name)
    }

    /// The number of methods: it is that of the assembly.
    pub fn method_debug_info_count(&self) -> (r: u32)
        ensures
            r == self@.tables.rows[TABLE_METHOD_DEBUG_INFO as int],
    {
        proof {
            use_type_invariant(self);
        }
        self.tables.rows[TABLE_METHOD_DEBUG_INFO]
    }

    /// The first visible sequence point of a method, which is counted from one.
    pub fn method_first_sequence_point(&self, method_rid: u32) -> (r: Result<
        Option<SequencePoint>,
        PdbError,
    >)
        ensures
            match self@.first_sequence_point(method_rid) {
                Ok(p) => r == Ok::<Option<SequencePoint>, PdbError>(p),
                Err(e) => r is Err && r->Err_0.deep_view() == e,
            },
    {
        proof {
            use_type_invariant(self);
        }
        if method_rid == 0 || method_rid > self.tables.rows[TABLE_METHOD_DEBUG_INFO] {
            return Err(PdbError::TableIndexOutOfRange);
        }
        let document: u32 = self.tables.col_value(TABLE_METHOD_DEBUG_INFO, method_rid - 1, 0);
        let points: u32 = self.tables.col_value(TABLE_METHOD_DEBUG_INFO, method_rid - 1, 1);
        if points == 0 {
            return Ok(None);
        }
        match blob_at(self.blobs, points) {
            Ok(data) => decode_first_sequence_point(
                data,
                document,
                self.tables.rows[TABLE_DOCUMENT],
            ),
            Err(_) => Err(PdbError::MalformedSequencePoints),
        }
    }

    /// The GUID at `index`.
    fn guid_at(&self, index: u32) -> (r: Result<&'a [u8], PdbError>)
        ensures
            match heaps::guid(self@.guids, index) {
                Ok(b) => r is Ok && r->Ok_0@ == b,
                Err(e) => r is Err && r->Err_0.deep_view() == e,
            },
    {
        match self.guids {
            Some(g) => guid_at(g, index),
            None => Err(PdbError::TableIndexOutOfRange),
        }
    }

    /// The source of a document, which is counted from one, if it is embedded. If it
    /// is not, it has to be found in another way.
    pub fn document_embedded_source(&self, rid: u32) -> (r: Result<Option<String>, PdbError>)
        ensures
            match self@.embedded_source(rid) {
                Ok(t) => r is Ok && r->Ok_0.deep_view() == t,
                Err(e) => r is Err && r->Err_0.deep_view() == e,
            },
    {
        proof {
            use_type_invariant(self);
        }
        if rid == 0 || rid > self.tables.rows[TABLE_DOCUMENT] {
            return Err(PdbError::TableIndexOutOfRange);
        }
        let kind_bytes: [u8; 16] = [
            0x1b, 0x57, 0x8a, 0x0e, 0x26, 0x69, 0x6e, 0x46, 0xb4, 0xad, 0x8a, 0xb0, 0x46, 0x11,
            0xf5, 0xfe,
        ];
        assert(kind_bytes@ =~= embedded_source_kind());
        let count: u32 = self.tables.rows[TABLE_CUSTOM_DEBUG_INFO];
        let mut row: u32 = 0;
        while row < count
            invariant
                row <= count,
                self.wf(),
                count == self@.tables.rows[TABLE_CUSTOM_DEBUG_INFO as int],
                kind_bytes@ == embedded_source_kind(),
                !(rid == 0 || rid > self@.tables.rows[TABLE_DOCUMENT as int]),
                self@.embedded_source_from(rid, 0) == self@.embedded_source_from(rid, row as nat),
            decreases count - row,
        {
            let parent: u32 = self.tables.col_value(TABLE_CUSTOM_DEBUG_INFO, row, 0);
            if parent % 32 == HCDI_TAG_DOCUMENT && parent / 32 == rid {
                let kind_index: u32 = self.tables.col_value(TABLE_CUSTOM_DEBUG_INFO, row, 1);
                let kind = self.guid_at(kind_index)?;
                if same_bytes(kind, kind_bytes.as_slice()) {
                    let value_index: u32 = self.tables.col_value(TABLE_CUSTOM_DEBUG_INFO, row, 2);
                    return match blob_at(self.blobs, value_index) {
                        Ok(value) => {
                            let source = decode_embedded_source(value)?;
                            Ok(Some(source))
                        },
                        Err(_) => Err(PdbError::MalformedEmbeddedSource),
                    };
                }
            }
            row = row + 1;
        }
        Ok(None)
    }

    /// The source link document, which maps paths of sources to places on the web, if
    /// there is one. To read the map is up to the caller.
    pub fn sourcelink_json(&self) -> (r: Result<Option<String>, PdbError>)
        ensures
            match self@.source_link_from(0) {
                Ok(t) => r is Ok && r->Ok_0.deep_view() == t,
                Err(e) => r is Err && r->Err_0.deep_view() == e,
            },
    {
        proof {
            use_type_invariant(self);
        }
        let kind_bytes: [u8; 16] = [
            0x56, 0x05, 0x11, 0xcc, 0x91, 0xa0, 0x38, 0x4d, 0x9f, 0xec, 0x25, 0xab, 0x9a, 0x35,
            0x1a, 0x6a,
        ];
        assert(kind_bytes@ =~= source_link_kind());
        let count: u32 = self.tables.rows[TABLE_CUSTOM_DEBUG_INFO];
        let mut row: u32 = 0;
        while row < count
            invariant
                row <= count,
                self.wf(),
                count == self@.tables.rows[TABLE_CUSTOM_DEBUG_INFO as int],
                kind_bytes@ == source_link_kind(),
                self@.source_link_from(0) == self@.source_link_from(row as nat),
            decreases count - row,
        {
            let kind_index: u32 = self.tables.col_value(TABLE_CUSTOM_DEBUG_INFO, row, 1);
            let kind = self.guid_at(kind_index)?;
            if same_bytes(kind, kind_bytes.as_slice()) {
                let value_index: u32 = self.tables.col_value(TABLE_CUSTOM_DEBUG_INFO, row, 2);
                return match blob_at(self.blobs, value_index) {
                    Ok(value) => match text_of_bytes(slice_to_vec(value)) {
                        Some(t) => Ok(Some(t)),
                        None => Err(PdbError::MalformedSourceLink),
                    },
                    Err(_) => Err(PdbError::MalformedSourceLink),
                };
            }
            row = row + 1;
        }
        Ok(None)
    }
}

/// A sequence point of a database names one of its documents.
pub proof fn law_sequence_points_name_documents(m: PdbModel, rid: u32)
    ensures
        match m.first_sequence_point(rid) {
            Ok(Some(p)) => 1 <= p.document <= m.tables.rows[TABLE_DOCUMENT as int],
            _ => true,
        },
{
    let document = m.tables.cell(TABLE_METHOD_DEBUG_INFO, (rid - 1) as nat, 0);
    let points = m.tables.cell(TABLE_METHOD_DEBUG_INFO, (rid - 1) as nat, 1);
    let count = m.tables.rows[TABLE_DOCUMENT as int];
    if let Ok(data) = heaps::blob(m.blobs, points) {
        if let Some((_, p1)) = reader::compressed_at(data, 0) {
            if document != 0 {
                heaps::law_points_name_a_document(data, p1, document, true, count);
            } else {
                if let Some((first, p2)) = reader::compressed_at(data, p1) {
                    heaps::law_points_name_a_document(data, p2, first, true, count);
                }
            }
        }
    }
}

} // verus!
