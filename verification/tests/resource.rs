//! Deflate streams.
use borzoi_assembly::fsharp_resource::{
    InflateErrorKind, MAX_DEFLATE_OUTPUT_BYTES, decompress_deflate_exact,
    decompress_deflate_limited,
};
use flate2::write::DeflateEncoder;
use flate2::Compression;
use std::io::Write;

fn deflate(bytes: &[u8]) -> Vec<u8> {
    let mut encoder = DeflateEncoder::new(Vec::new(), Compression::default());
    encoder.write_all(bytes).unwrap();
    encoder.finish().unwrap()
}

#[test]
fn capped_deflate_allows_output_at_the_limit() {
    let compressed = deflate(&[0u8; 32]);
    let out = decompress_deflate_limited(&compressed, 32).unwrap();
    assert_eq!(out, [0u8; 32]);
}

#[test]
fn capped_deflate_rejects_output_past_the_limit() {
    let compressed = deflate(&[0u8; 32]);
    let err = decompress_deflate_limited(&compressed, 31).unwrap_err();
    assert_eq!(err.kind(), InflateErrorKind::InvalidData);
}

#[test]
fn exact_deflate_rejects_declared_size_past_the_global_limit() {
    let compressed = deflate(&[]);
    let err = decompress_deflate_exact(&compressed, MAX_DEFLATE_OUTPUT_BYTES + 1).unwrap_err();
    assert_eq!(err.kind(), InflateErrorKind::InvalidData);
}

#[test]
fn exact_deflate_rejects_stream_longer_than_declared_size() {
    let compressed = deflate(&[0u8; 32]);
    let err = decompress_deflate_exact(&compressed, 31).unwrap_err();
    assert_eq!(err.kind(), InflateErrorKind::InvalidData);
}
