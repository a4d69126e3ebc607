//! The names of F# resources, the resources of the host, and how they are inflated.
use borzoi_assembly::fsharp_resource::{
    b_stream_signature_resource_for_host, classify_fsharp_resource, decompress_deflate,
    decompress_deflate_exact, decompress_deflate_limited, foreign_signature_data_present,
    is_compressed_kind, of_size, primary_signature_resource_for_host, within_limit, InflateError,
    InflateErrorKind, MAX_DEFLATE_OUTPUT_BYTES,
};
use borzoi_assembly::{FSharpResource, ResourceKind};
use flate2::write::DeflateEncoder;
use flate2::Compression;
use std::io::Write;

const KINDS: [(ResourceKind, &str, bool); 10] = [
    (ResourceKind::SignatureData, "FSharpSignatureData.", false),
    (ResourceKind::SignatureDataB, "FSharpSignatureDataB.", false),
    (ResourceKind::SignatureCompressedData, "FSharpSignatureCompressedData.", true),
    (ResourceKind::SignatureCompressedDataB, "FSharpSignatureCompressedDataB.", true),
    (ResourceKind::SignatureDataFSharpCore, "FSharpSignatureInfo.", false),
    (ResourceKind::OptimizationData, "FSharpOptimizationData.", false),
    (ResourceKind::OptimizationDataB, "FSharpOptimizationDataB.", false),
    (ResourceKind::OptimizationCompressedData, "FSharpOptimizationCompressedData.", true),
    (ResourceKind::OptimizationCompressedDataB, "FSharpOptimizationCompressedDataB.", true),
    (ResourceKind::OptimizationDataFSharpCore, "FSharpOptimizationInfo.", false),
];

fn deflate(bytes: &[u8]) -> Vec<u8> {
    let mut encoder = DeflateEncoder::new(Vec::new(), Compression::default());
    encoder.write_all(bytes).unwrap();
    encoder.finish().unwrap()
}

#[test]
fn each_kind_has_its_prefix() {
    for (kind, prefix, compressed) in KINDS {
        let name = format!("{prefix}My.Lib");
        assert_eq!(classify_fsharp_resource(&name), Some((kind, "My.Lib")));
        assert_eq!(classify_fsharp_resource(prefix), Some((kind, "")));
        assert_eq!(is_compressed_kind(kind), compressed);
    }
}

#[test]
fn other_names_are_no_fsharp_resources() {
    for name in ["", "FSharp", "FSharpSignatureData", "fsharpSignatureData.X", "X.resources"] {
        assert_eq!(classify_fsharp_resource(name), None);
    }
}

fn resource(kind: ResourceKind, name: &str, payload: u8) -> FSharpResource {
    FSharpResource { kind, name: name.to_string(), payload: vec![payload] }
}

#[test]
fn the_streams_of_the_host_are_chosen() {
    let resources = vec![
        resource(ResourceKind::SignatureData, "FSharpSignatureData.Other", 1),
        resource(ResourceKind::OptimizationData, "FSharpOptimizationData.Host", 2),
        resource(ResourceKind::SignatureDataB, "FSharpSignatureDataB.Other", 3),
        resource(
            ResourceKind::SignatureCompressedData,
            "FSharpSignatureCompressedData.Host",
            4,
        ),
        resource(ResourceKind::SignatureDataB, "FSharpSignatureDataB.Host", 5),
        resource(ResourceKind::SignatureData, "FSharpSignatureData.Host", 6),
    ];
    let primary = primary_signature_resource_for_host(&resources, "Host").unwrap();
    assert_eq!(primary.payload, vec![4]);
    assert_eq!(b_stream_signature_resource_for_host(&resources, "Host"), Some(&[5u8][..]));
    assert!(foreign_signature_data_present(&resources, "Host"));
    assert!(primary_signature_resource_for_host(&resources, "host").is_none());
    assert!(b_stream_signature_resource_for_host(&resources, "Ho").is_none());
    assert!(!foreign_signature_data_present(&resources[1..], "Host"));
    assert!(!foreign_signature_data_present(&[], "Host"));
}

#[test]
fn what_was_deflated_is_inflated() {
    let text: Vec<u8> = (0..10_000u32).map(|i| (i % 251) as u8).collect();
    let stream = deflate(&text);
    assert_ne!(stream, text);
    assert_eq!(decompress_deflate(&stream).unwrap(), text);
    assert_eq!(decompress_deflate_exact(&stream, text.len()).unwrap(), text);
    assert_eq!(decompress_deflate_limited(&stream, usize::MAX).unwrap(), text);
}

#[test]
fn a_corrupt_stream_fails() {
    let err = decompress_deflate(&[0xFF, 0xFF]).unwrap_err();
    assert_eq!(err.kind(), InflateErrorKind::InvalidInput);
    let mut stream = deflate(&[7u8; 1000]);
    stream.truncate(stream.len() / 2);
    assert!(decompress_deflate_exact(&stream, 1000).is_err());
}

#[test]
fn the_failures_are_told_in_words() {
    let stream = deflate(&[0u8; 32]);
    let err = decompress_deflate_limited(&stream, 31).unwrap_err();
    assert_eq!(err.message, "deflate output exceeded the limit of 31 bytes");
    let err = decompress_deflate_exact(&stream, 33).unwrap_err();
    assert_eq!(err.kind(), InflateErrorKind::UnexpectedEof);
    assert_eq!(err.message, "deflate output was 32 bytes, expected 33");
    let err = decompress_deflate_exact(&stream, MAX_DEFLATE_OUTPUT_BYTES + 1).unwrap_err();
    assert_eq!(err.message, "deflate output exceeded the limit of 67108865 bytes");
}

#[test]
fn an_outcome_is_held_to_limit_and_size() {
    assert_eq!(within_limit(Ok(vec![1, 2]), 2).unwrap(), vec![1, 2]);
    assert_eq!(within_limit(Ok(vec![1, 2]), 1).unwrap_err().kind(), InflateErrorKind::InvalidData);
    assert_eq!(of_size(Ok(vec![1, 2]), 2).unwrap(), vec![1, 2]);
    assert_eq!(of_size(Ok(vec![1, 2]), 1).unwrap_err().kind(), InflateErrorKind::UnexpectedEof);
    assert_eq!(of_size(Ok(vec![1, 2]), 3).unwrap_err().kind(), InflateErrorKind::UnexpectedEof);
    let failure = InflateError { kind: InflateErrorKind::Other, message: "no".to_string() };
    assert_eq!(within_limit(Err(failure.clone()), 9).unwrap_err(), failure);
    assert_eq!(of_size(Err(failure.clone()), 9).unwrap_err(), failure);
}
