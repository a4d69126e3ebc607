//! Whole debug databases and executables, put together byte by byte.
use borzoi_assembly::fsharp_resource::{InflateError, InflateErrorKind};
use borzoi_assembly::pdb::debug_directory::accept_inflated;
use borzoi_assembly::pdb::heaps::{blob_at, guid_at, source_text, SequencePoint};
use borzoi_assembly::pdb::{
    codeview_pdb_reference, embedded_portable_pdb, PdbError, PdbReference, PortablePdb,
};
use flate2::write::DeflateEncoder;
use flate2::Compression;
use std::io::Write;

const EMBEDDED_SOURCE: [u8; 16] = [
    0x1b, 0x57, 0x8a, 0x0e, 0x26, 0x69, 0x6e, 0x46, 0xb4, 0xad, 0x8a, 0xb0, 0x46, 0x11, 0xf5, 0xfe,
];

const SOURCE_LINK: [u8; 16] = [
    0x56, 0x05, 0x11, 0xcc, 0x91, 0xa0, 0x38, 0x4d, 0x9f, 0xec, 0x25, 0xab, 0x9a, 0x35, 0x1a, 0x6a,
];

fn deflate(bytes: &[u8]) -> Vec<u8> {
    let mut encoder = DeflateEncoder::new(Vec::new(), Compression::default());
    encoder.write_all(bytes).unwrap();
    encoder.finish().unwrap()
}

fn put16(out: &mut Vec<u8>, v: u16) {
    out.extend_from_slice(&v.to_le_bytes());
}

fn put32(out: &mut Vec<u8>, v: u32) {
    out.extend_from_slice(&v.to_le_bytes());
}

fn put64(out: &mut Vec<u8>, v: u64) {
    out.extend_from_slice(&v.to_le_bytes());
}

/// A metadata container with these streams.
fn container(streams: &[(&str, Vec<u8>)]) -> Vec<u8> {
    let mut out = Vec::new();
    put32(&mut out, 0x424A_5342);
    put16(&mut out, 1);
    put16(&mut out, 1);
    put32(&mut out, 0);
    put32(&mut out, 10);
    out.extend_from_slice(b"PDB v1.0\0\0\0\0");
    put16(&mut out, 0);
    put16(&mut out, streams.len() as u16);
    let padded = |name: &str| (name.len() / 4 + 1) * 4;
    let mut at = out.len();
    for (name, _) in streams {
        at += 8 + padded(name);
    }
    for (name, data) in streams {
        put32(&mut out, at as u32);
        put32(&mut out, data.len() as u32);
        let mut field = name.as_bytes().to_vec();
        field.resize(padded(name), 0);
        out.extend_from_slice(&field);
        at += data.len();
    }
    for (_, data) in streams {
        out.extend_from_slice(data);
    }
    out
}

/// A heap of blobs, and the index of each.
struct Blobs {
    heap: Vec<u8>,
}

impl Blobs {
    fn new() -> Self {
        Blobs { heap: vec![0] }
    }

    fn put(&mut self, bytes: &[u8]) -> u16 {
        let at = self.heap.len() as u16;
        if bytes.len() < 0x80 {
            self.heap.push(bytes.len() as u8);
        } else {
            self.heap.push(0x80 | (bytes.len() >> 8) as u8);
            self.heap.push(bytes.len() as u8);
        }
        self.heap.extend_from_slice(bytes);
        at
    }
}

fn pdb_stream() -> Vec<u8> {
    let mut out: Vec<u8> = (1..=20).collect();
    put32(&mut out, 0);
    put64(&mut out, 1 << 6);
    put32(&mut out, 3);
    out
}

/// The stream of tables with these rows of documents, methods and custom information.
fn table_stream(documents: &[[u16; 4]], methods: &[[u16; 2]], custom: &[[u16; 3]]) -> Vec<u8> {
    let mut out = Vec::new();
    put32(&mut out, 0);
    out.extend_from_slice(&[2, 0, 0, 1]);
    put64(&mut out, (1 << 0x30) | (1 << 0x31) | (1 << 0x37));
    put64(&mut out, 0);
    put32(&mut out, documents.len() as u32);
    put32(&mut out, methods.len() as u32);
    put32(&mut out, custom.len() as u32);
    for cell in documents.iter().flatten() {
        put16(&mut out, *cell);
    }
    for cell in methods.iter().flatten() {
        put16(&mut out, *cell);
    }
    for cell in custom.iter().flatten() {
        put16(&mut out, *cell);
    }
    out
}

/// A database of two documents and three methods. The first document has its source
/// embedded, the module a source link.
fn sample() -> Vec<u8> {
    let mut blobs = Blobs::new();
    let src = blobs.put(b"src");
    let file = blobs.put(b"printf.fs");
    let first = blobs.put(&[b'/', src as u8, file as u8]);
    let second = blobs.put(&[b'/', 0, src as u8]);
    let points = blobs.put(&[0, 0, 0, 0, 4, 1, 9, 7, 3]);
    let hidden = blobs.put(&[0, 0, 0, 0]);
    let mut value = Vec::new();
    let text = "let x = 1\n".repeat(40);
    put32(&mut value, text.len() as u32);
    value.extend_from_slice(&deflate(text.as_bytes()));
    let source = blobs.put(&value);
    let link = blobs.put(b"{\"documents\":{}}");
    let mut guids = EMBEDDED_SOURCE.to_vec();
    guids.extend_from_slice(&SOURCE_LINK);
    container(&[
        ("#Pdb", pdb_stream()),
        (
            "#~",
            table_stream(
                &[[first, 0, 0, 0], [second, 0, 0, 0]],
                &[[1, points], [0, 0], [2, hidden]],
                &[[(1 << 5) | 7, 2, link], [(1 << 5) | 22, 1, source]],
            ),
        ),
        ("#GUID", guids),
        ("#Blob", blobs.heap),
    ])
}

#[test]
fn a_database_is_read() {
    let image = sample();
    let pdb = PortablePdb::read(&image).unwrap();
    let want: Vec<u8> = (1..=20).collect();
    assert_eq!(pdb.id().to_vec(), want);
    assert_eq!(pdb.document_count(), 2);
    assert_eq!(pdb.method_debug_info_count(), 3);
    assert_eq!(pdb.document_name(1).unwrap(), "src/printf.fs");
    assert_eq!(pdb.document_name(2).unwrap(), "/src");
}

#[test]
fn sequence_points_are_those_of_the_method() {
    let image = sample();
    let pdb = PortablePdb::read(&image).unwrap();
    let point = pdb.method_first_sequence_point(1).unwrap();
    assert_eq!(point, Some(SequencePoint { document: 1, start_line: 7, start_column: 3 }));
    assert_eq!(pdb.method_first_sequence_point(2).unwrap(), None);
    assert_eq!(pdb.method_first_sequence_point(3).unwrap(), None);
}

#[test]
fn every_sequence_point_names_a_document() {
    let image = sample();
    let pdb = PortablePdb::read(&image).unwrap();
    for rid in 1..=pdb.method_debug_info_count() {
        if let Some(point) = pdb.method_first_sequence_point(rid).unwrap() {
            assert!(1 <= point.document && point.document <= pdb.document_count());
        }
    }
}

#[test]
fn embedded_source_and_source_link_are_found() {
    let image = sample();
    let pdb = PortablePdb::read(&image).unwrap();
    let text = "let x = 1\n".repeat(40);
    assert_eq!(pdb.document_embedded_source(1).unwrap(), Some(text));
    assert_eq!(pdb.document_embedded_source(2).unwrap(), None);
    assert_eq!(pdb.sourcelink_json().unwrap(), Some("{\"documents\":{}}".to_string()));
}

#[test]
fn rows_outside_of_a_table_are_refused() {
    let image = sample();
    let pdb = PortablePdb::read(&image).unwrap();
    for rid in [0, 3, u32::MAX] {
        assert!(matches!(pdb.document_name(rid), Err(PdbError::TableIndexOutOfRange)));
        assert!(matches!(
            pdb.document_embedded_source(rid),
            Err(PdbError::TableIndexOutOfRange)
        ));
    }
    for rid in [0, 4] {
        assert!(matches!(
            pdb.method_first_sequence_point(rid),
            Err(PdbError::TableIndexOutOfRange)
        ));
    }
}

#[test]
fn a_missing_stream_is_named() {
    let tables = table_stream(&[], &[], &[]);
    let image = container(&[("#Pdb", pdb_stream()), ("#Blob", vec![0])]);
    assert!(matches!(PortablePdb::read(&image), Err(PdbError::MissingPdbStream("#~"))));
    let image = container(&[("#Pdb", pdb_stream()), ("#~", tables.clone())]);
    assert!(matches!(PortablePdb::read(&image), Err(PdbError::MissingPdbStream("#Blob"))));
    let image = container(&[("#~", tables.clone()), ("#Blob", vec![0])]);
    assert!(matches!(PortablePdb::read(&image), Err(PdbError::MissingPdbStream("#Pdb"))));
    let image = container(&[("#Pdb", pdb_stream()), ("#~", tables), ("#Blob", vec![0])]);
    let pdb = PortablePdb::read(&image).unwrap();
    assert_eq!(pdb.document_count(), 0);
    assert_eq!(pdb.sourcelink_json().unwrap(), None);
}

#[test]
fn a_table_of_the_assembly_is_refused() {
    let mut tables = table_stream(&[], &[], &[]);
    let valid: u64 = (1 << 0x30) | (1 << 0x2);
    tables[8..16].copy_from_slice(&valid.to_le_bytes());
    let image = container(&[("#Pdb", pdb_stream()), ("#~", tables), ("#Blob", vec![0])]);
    assert!(matches!(PortablePdb::read(&image), Err(PdbError::UnsupportedPdbTable(2))));
}

#[test]
fn rows_that_are_not_there_are_refused() {
    let mut tables = table_stream(&[[0, 0, 0, 0]], &[], &[]);
    tables.truncate(tables.len() - 1);
    let image = container(&[("#Pdb", pdb_stream()), ("#~", tables), ("#Blob", vec![0])]);
    assert!(matches!(PortablePdb::read(&image), Err(PdbError::TableIndexOutOfRange)));
}

#[test]
fn a_malformed_container_is_refused() {
    assert!(matches!(PortablePdb::read(&[]), Err(PdbError::BadMetadataImage)));
    let mut image = sample();
    image[0] = 0;
    assert!(matches!(PortablePdb::read(&image), Err(PdbError::BadMetadataImage)));
    let image = sample();
    for len in 0..image.len() {
        assert!(PortablePdb::read(&image[..len]).is_err());
    }
}

#[test]
fn malformed_custom_information_is_refused() {
    let mut blobs = Blobs::new();
    let name = blobs.put(&[b'/']);
    let bad_text = blobs.put(&[0xFF]);
    let bad_source = blobs.put(&[0, 0, 0, 0, 0xFF]);
    let mut guids = EMBEDDED_SOURCE.to_vec();
    guids.extend_from_slice(&SOURCE_LINK);
    let image = container(&[
        ("#Pdb", pdb_stream()),
        (
            "#~",
            table_stream(
                &[[name, 0, 0, 0]],
                &[[1, 1000]],
                &[[(1 << 5) | 7, 2, bad_text], [(1 << 5) | 22, 1, bad_source]],
            ),
        ),
        ("#GUID", guids),
        ("#Blob", blobs.heap),
    ]);
    let pdb = PortablePdb::read(&image).unwrap();
    assert_eq!(pdb.document_name(1).unwrap(), "");
    assert!(matches!(pdb.sourcelink_json(), Err(PdbError::MalformedSourceLink)));
    assert!(matches!(
        pdb.document_embedded_source(1),
        Err(PdbError::MalformedEmbeddedSource)
    ));
    assert!(matches!(
        pdb.method_first_sequence_point(1),
        Err(PdbError::MalformedSequencePoints)
    ));
}

#[test]
fn heap_indices_are_checked() {
    let heap = [0u8, 2, 0xAA, 0xBB, 5, 1];
    assert_eq!(blob_at(&heap, 1).unwrap(), &[0xAA, 0xBB]);
    assert_eq!(blob_at(&heap, 0).unwrap(), &[] as &[u8]);
    assert!(matches!(blob_at(&heap, 4), Err(PdbError::TableIndexOutOfRange)));
    assert!(matches!(blob_at(&heap, 6), Err(PdbError::TableIndexOutOfRange)));
    assert_eq!(guid_at(&EMBEDDED_SOURCE, 1).unwrap(), &EMBEDDED_SOURCE);
    assert!(matches!(guid_at(&EMBEDDED_SOURCE, 0), Err(PdbError::TableIndexOutOfRange)));
    assert!(matches!(guid_at(&EMBEDDED_SOURCE, 2), Err(PdbError::TableIndexOutOfRange)));
}

#[test]
fn source_text_is_decoded() {
    let bytes = "\u{FEFF}caf\u{e9}".as_bytes().to_vec();
    assert_eq!(source_text(bytes).unwrap(), "caf\u{e9}");
    assert!(matches!(source_text(vec![0xC3]), Err(PdbError::MalformedEmbeddedSource)));
}

/// An executable with one section, which the debug directory starts.
fn executable(entries: &[[u8; 28]], payload: &[u8]) -> Vec<u8> {
    let mut out = vec![0u8; 0x80];
    out[0..2].copy_from_slice(b"MZ");
    out[0x3C..0x40].copy_from_slice(&0x80u32.to_le_bytes());
    out.extend_from_slice(b"PE\0\0");
    put16(&mut out, 0x14C);
    put16(&mut out, 1);
    out.extend_from_slice(&[0; 12]);
    put16(&mut out, 224);
    put16(&mut out, 0);
    let optional = out.len();
    out.resize(optional + 224, 0);
    out[optional..optional + 2].copy_from_slice(&0x10Bu16.to_le_bytes());
    let directory = optional + 96 + 6 * 8;
    out[directory..directory + 4].copy_from_slice(&0x2000u32.to_le_bytes());
    let size = (entries.len() * 28) as u32;
    out[directory + 4..directory + 8].copy_from_slice(&size.to_le_bytes());
    out.extend_from_slice(b".text\0\0\0");
    put32(&mut out, 0x1000);
    put32(&mut out, 0x2000);
    put32(&mut out, 0x1000);
    put32(&mut out, 0x200);
    out.resize(0x200, 0);
    for entry in entries {
        out.extend_from_slice(entry);
    }
    out.resize(0x300, 0);
    out.extend_from_slice(payload);
    out.resize(0x1200, 0);
    out
}

fn entry(stamp: u32, kind: u32, size: usize) -> [u8; 28] {
    let mut e = [0u8; 28];
    e[4..8].copy_from_slice(&stamp.to_le_bytes());
    e[12..16].copy_from_slice(&kind.to_le_bytes());
    e[16..20].copy_from_slice(&(size as u32).to_le_bytes());
    e[20..24].copy_from_slice(&0x2100u32.to_le_bytes());
    e
}

fn embedded_payload(pdb: &[u8], size: usize) -> Vec<u8> {
    let mut out = b"MPDB".to_vec();
    put32(&mut out, size as u32);
    out.extend_from_slice(&deflate(pdb));
    out
}

#[test]
fn an_embedded_database_is_inflated() {
    let pdb = sample();
    let payload = embedded_payload(&pdb, pdb.len());
    let image = executable(&[entry(0, 2, 0), entry(0, 17, payload.len())], &payload);
    assert_eq!(embedded_portable_pdb(&image).unwrap(), Some(pdb));
}

#[test]
fn an_executable_without_debug_data_has_no_database() {
    let image = executable(&[], &[]);
    assert_eq!(embedded_portable_pdb(&image).unwrap(), None);
    assert_eq!(codeview_pdb_reference(&image).unwrap(), None);
    let image = executable(&[entry(0, 16, 0)], &[]);
    assert_eq!(embedded_portable_pdb(&image).unwrap(), None);
    assert_eq!(codeview_pdb_reference(&image).unwrap(), None);
}

#[test]
fn an_embedded_database_of_the_wrong_size_is_refused() {
    let pdb = sample();
    for size in [pdb.len() - 1, pdb.len() + 1, 0x1000_0000] {
        let payload = embedded_payload(&pdb, size);
        let image = executable(&[entry(0, 17, payload.len())], &payload);
        assert!(matches!(embedded_portable_pdb(&image), Err(PdbError::BadEmbeddedPdb)));
    }
}

#[test]
fn an_embedded_database_without_its_magic_is_refused() {
    let mut payload = embedded_payload(b"abc", 3);
    payload[0] = b'X';
    let image = executable(&[entry(0, 17, payload.len())], &payload);
    assert!(matches!(embedded_portable_pdb(&image), Err(PdbError::BadEmbeddedPdb)));
}

#[test]
fn a_corrupt_stream_is_refused_with_its_cause() {
    let mut payload = b"MPDB".to_vec();
    put32(&mut payload, 3);
    payload.push(0xFF);
    let image = executable(&[entry(0, 17, payload.len())], &payload);
    let err = embedded_portable_pdb(&image).unwrap_err();
    let cause = err.cause().unwrap();
    assert_eq!(cause.kind(), InflateErrorKind::InvalidInput);
    assert_eq!(
        err.message(),
        format!("embedded PDB decompression failed: {}", cause.message)
    );
}

#[test]
fn bytes_that_are_no_executable_are_refused() {
    assert!(matches!(embedded_portable_pdb(&[]), Err(PdbError::NotPortableExecutable)));
    assert!(matches!(embedded_portable_pdb(b"MZ"), Err(PdbError::NotPortableExecutable)));
    let mut image = executable(&[], &[]);
    image[0x80] = b'X';
    assert!(matches!(codeview_pdb_reference(&image), Err(PdbError::NotPortableExecutable)));
    let mut image = executable(&[], &[]);
    image[0x98] = 0;
    assert!(matches!(codeview_pdb_reference(&image), Err(PdbError::NotPortableExecutable)));
    let image = executable(&[entry(0, 2, 24)], &[]);
    assert!(matches!(
        codeview_pdb_reference(&image[..0x100]),
        Err(PdbError::MalformedDebugDirectory)
    ));
    assert!(matches!(
        codeview_pdb_reference(&image[..0x180]),
        Err(PdbError::NotPortableExecutable)
    ));
}

#[test]
fn the_pointer_to_a_separate_database_is_read() {
    let mut payload = b"RSDS".to_vec();
    payload.extend_from_slice(&EMBEDDED_SOURCE);
    put32(&mut payload, 1);
    payload.extend_from_slice(b"C:\\obj\\Demo.pdb\0rest");
    let image = executable(&[entry(0x1234_5678, 2, payload.len())], &payload);
    let reference = codeview_pdb_reference(&image).unwrap().unwrap();
    let mut id = [0u8; 20];
    id[..16].copy_from_slice(&EMBEDDED_SOURCE);
    id[16..].copy_from_slice(&0x1234_5678u32.to_le_bytes());
    assert_eq!(reference, PdbReference { path: "C:\\obj\\Demo.pdb".to_string(), id });
    assert_eq!(reference.file_name(), Some("Demo.pdb"));
    payload[24] = 0xFF;
    let image = executable(&[entry(0, 2, payload.len())], &payload);
    assert!(matches!(
        codeview_pdb_reference(&image),
        Err(PdbError::MalformedDebugDirectory)
    ));
}

fn failure(kind: InflateErrorKind) -> Result<Vec<u8>, InflateError> {
    Err(InflateError { kind, message: "no".to_string() })
}

#[test]
fn the_outcome_of_inflating_is_judged() {
    assert_eq!(accept_inflated(Ok(vec![1, 2]), 2).unwrap(), vec![1, 2]);
    assert!(matches!(accept_inflated(Ok(vec![1]), 2), Err(PdbError::BadEmbeddedPdb)));
    assert!(matches!(
        accept_inflated(failure(InflateErrorKind::InvalidData), 2),
        Err(PdbError::BadEmbeddedPdb)
    ));
    assert!(matches!(
        accept_inflated(failure(InflateErrorKind::UnexpectedEof), 2),
        Err(PdbError::Decompress(_))
    ));
}

#[test]
fn failures_are_told_in_words() {
    let cases = [
        (PdbError::NotPortableExecutable, "not a portable executable"),
        (PdbError::MalformedDebugDirectory, "malformed PE debug directory"),
        (PdbError::BadEmbeddedPdb, "malformed embedded portable PDB"),
        (PdbError::BadMetadataImage, "malformed portable-PDB metadata image"),
        (
            PdbError::MissingPdbStream("#Blob"),
            "portable PDB is missing the #Blob stream",
        ),
        (
            PdbError::UnsupportedPdbTable(0x2A),
            "unexpected non-PDB table 0x2a in the portable PDB",
        ),
        (PdbError::TableIndexOutOfRange, "portable-PDB table index out of range"),
        (PdbError::MalformedDocumentName, "malformed portable-PDB document name"),
        (
            PdbError::MalformedSequencePoints,
            "malformed portable-PDB sequence-points blob",
        ),
        (PdbError::MalformedEmbeddedSource, "malformed portable-PDB embedded source"),
        (PdbError::MalformedSourceLink, "malformed portable-PDB SourceLink"),
    ];
    for (error, text) in cases {
        assert_eq!(error.message(), text);
        assert!(error.cause().is_none());
    }
}
