//! Document names, sequence points and embedded sources.
use borzoi_assembly::pdb::error::PdbError;
use borzoi_assembly::pdb::heaps::{
    SequencePoint, decode_document_name, decode_embedded_source, decode_first_sequence_point,
};
use flate2::write::DeflateEncoder;
use flate2::Compression;
use std::io::Write;

fn blob_heap() -> Vec<u8> {
    let mut h = vec![0u8];
    for s in ["src", "FSharp.Core", "printf.fs"] {
        h.push(s.len() as u8);
        h.extend_from_slice(s.as_bytes());
    }
    h
}

fn name_blob(separator: u8, parts: &[u8]) -> Vec<u8> {
    let mut v = vec![separator];
    v.extend_from_slice(parts);
    v
}

#[test]
fn document_name_joins_parts_with_separator() {
    let heap = blob_heap();
    let name = decode_document_name(&heap, &name_blob(b'/', &[1, 5, 17])).unwrap();
    assert_eq!(name, "src/FSharp.Core/printf.fs");
}

#[test]
fn empty_leading_part_yields_leading_separator() {
    let heap = blob_heap();
    let name = decode_document_name(&heap, &name_blob(b'/', &[0, 1])).unwrap();
    assert_eq!(name, "/src");
}

#[test]
fn zero_separator_concatenates_parts() {
    let heap = blob_heap();
    let name = decode_document_name(&heap, &name_blob(0, &[1, 5])).unwrap();
    assert_eq!(name, "srcFSharp.Core");
}

#[test]
fn empty_name_blob_is_empty_string() {
    assert_eq!(decode_document_name(&[0u8], &[]).unwrap(), "");
    assert_eq!(
        decode_document_name(&[0u8], &name_blob(b'/', &[])).unwrap(),
        ""
    );
}

#[test]
fn part_index_past_the_heap_is_malformed() {
    let heap = blob_heap();
    assert!(matches!(
        decode_document_name(&heap, &name_blob(b'/', &[99])),
        Err(PdbError::MalformedDocumentName)
    ));
}

#[test]
fn first_non_hidden_point_after_a_hidden_one() {
    let blob = [0, 0, 0, 0, 5, 0, 10, 42, 7];
    let sp = decode_first_sequence_point(&blob, 5, 8).unwrap().unwrap();
    assert_eq!(
        sp,
        SequencePoint {
            document: 5,
            start_line: 42,
            start_column: 7
        }
    );
}

#[test]
fn document_record_switches_the_current_document() {
    let blob = [
        0, 3, 0, 0, 0, 0, 8, 5, 0, 10, 42, 7,
    ];
    let sp = decode_first_sequence_point(&blob, 0, 8).unwrap().unwrap();
    assert_eq!(
        sp,
        SequencePoint {
            document: 8,
            start_line: 42,
            start_column: 7
        }
    );
}

#[test]
fn first_record_non_hidden_is_absolute() {
    let blob = [0, 3, 0, 4, 100, 12];
    let sp = decode_first_sequence_point(&blob, 9, 9).unwrap().unwrap();
    assert_eq!(
        sp,
        SequencePoint {
            document: 9,
            start_line: 100,
            start_column: 12
        }
    );
}

#[test]
fn no_records_or_all_hidden_is_none() {
    assert_eq!(decode_first_sequence_point(&[0], 5, 8).unwrap(), None);
    assert_eq!(
        decode_first_sequence_point(&[0, 0, 0, 0], 5, 8).unwrap(),
        None
    );
}

#[test]
fn truncated_blob_is_malformed() {
    assert!(matches!(
        decode_first_sequence_point(&[0, 5, 0, 10], 5, 8),
        Err(PdbError::MalformedSequencePoints)
    ));
}

#[test]
fn document_rid_zero_is_malformed() {
    let blob = [0, 0, 3, 0, 4, 100, 12];
    assert!(matches!(
        decode_first_sequence_point(&blob, 0, 8),
        Err(PdbError::MalformedSequencePoints)
    ));
}

#[test]
fn document_rid_past_the_table_is_malformed() {
    let blob = [0, 3, 0, 4, 100, 12];
    assert!(matches!(
        decode_first_sequence_point(&blob, 9, 8),
        Err(PdbError::MalformedSequencePoints)
    ));
}

#[test]
fn document_switch_to_out_of_range_rid_is_malformed() {
    let blob = [
        0, 3, 0, 0, 0, 0, 8, 5, 0, 10, 42, 7,
    ];
    assert!(matches!(
        decode_first_sequence_point(&blob, 0, 5),
        Err(PdbError::MalformedSequencePoints)
    ));
}

fn embedded_value(format: i32, content: &[u8]) -> Vec<u8> {
    let mut v = format.to_le_bytes().to_vec();
    v.extend_from_slice(content);
    v
}

fn deflate(bytes: &[u8]) -> Vec<u8> {
    let mut e = DeflateEncoder::new(Vec::new(), Compression::default());
    e.write_all(bytes).unwrap();
    e.finish().unwrap()
}

#[test]
fn uncompressed_embedded_source_is_returned_verbatim() {
    let src = "let printfn fmt = ...\n";
    let value = embedded_value(0, src.as_bytes());
    assert_eq!(decode_embedded_source(&value).unwrap(), src);
}

#[test]
fn compressed_embedded_source_inflates() {
    let src = "module Microsoft.FSharp.Core.Printf\nlet printfn = ...\n";
    let value = embedded_value(src.len() as i32, &deflate(src.as_bytes()));
    assert_eq!(decode_embedded_source(&value).unwrap(), src);
}

#[test]
fn utf8_bom_is_stripped() {
    let mut content = vec![0xEF, 0xBB, 0xBF];
    content.extend_from_slice(b"namespace N\n");
    let value = embedded_value(0, &content);
    assert_eq!(decode_embedded_source(&value).unwrap(), "namespace N\n");
}

#[test]
fn embedded_source_too_short_or_negative_is_malformed() {
    assert!(matches!(
        decode_embedded_source(&[0, 0]),
        Err(PdbError::MalformedEmbeddedSource)
    ));
    let value = embedded_value(-1, b"junk");
    assert!(matches!(
        decode_embedded_source(&value),
        Err(PdbError::MalformedEmbeddedSource)
    ));
}

#[test]
fn compressed_embedded_source_size_mismatch_is_malformed() {
    let src = b"hello";
    let value = embedded_value(999, &deflate(src));
    assert!(matches!(
        decode_embedded_source(&value),
        Err(PdbError::MalformedEmbeddedSource)
    ));
}
