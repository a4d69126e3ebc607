//! The primitives of the pickle reader.
use borzoi_assembly::error::ImportError;
use borzoi_assembly::fsharp_pickle::reader::PickleReader;

#[test]
fn read_byte_advances_and_errors_on_eof() {
    let mut r = PickleReader::new(&[0x42, 0xAB]);
    assert_eq!(r.read_byte("t").unwrap(), 0x42);
    assert_eq!(r.read_byte("t").unwrap(), 0xAB);
    assert!(matches!(
        r.read_byte("ctx"),
        Err(ImportError::UnexpectedEndOfStream { context: "ctx" })
    ));
}

#[test]
fn read_uint32_one_byte_literal_range() {
    for v in [0u32, 1, 0x40, 0x7F] {
        let bytes = [v as u8];
        let mut r = PickleReader::new(&bytes);
        assert_eq!(r.read_uint32("t").unwrap(), v);
        assert!(r.is_eof());
    }
}

#[test]
fn read_uint32_two_byte_range() {
    let bytes = [0x80, 0x80];
    let mut r = PickleReader::new(&bytes);
    assert_eq!(r.read_uint32("t").unwrap(), 0x80);

    let bytes = [0xBF, 0xFF];
    let mut r = PickleReader::new(&bytes);
    assert_eq!(r.read_uint32("t").unwrap(), 0x3FFF);

    let bytes = [0x92, 0x34];
    let mut r = PickleReader::new(&bytes);
    assert_eq!(r.read_uint32("t").unwrap(), 0x1234);
}

#[test]
fn read_uint32_marker_form() {
    let bytes = [0xFF, 0x55, 0xDA, 0xBA, 0x00];
    let mut r = PickleReader::new(&bytes);
    assert_eq!(r.read_uint32("t").unwrap(), 0x00BADA55);

    let bytes = [0xFF, 0xFF, 0xFF, 0xFF, 0x7F];
    let mut r = PickleReader::new(&bytes);
    assert_eq!(r.read_uint32("t").unwrap(), 0x7FFF_FFFFu32);

    let bytes = [0xFF, 0x00, 0x00, 0x00, 0x80];
    let mut r = PickleReader::new(&bytes);
    let v = r.read_int32("t").unwrap();
    assert_eq!(v, i32::MIN);
}

#[test]
fn read_uint32_rejects_reserved_first_byte() {
    for b in [0xC0u8, 0xD5, 0xFE] {
        let bytes = [b];
        let mut r = PickleReader::new(&bytes);
        match r.read_uint32("ctx") {
            Err(ImportError::UnsupportedPickleTag {
                context: "ctx",
                tag,
            }) => {
                assert_eq!(tag, u32::from(b));
            }
            other => panic!("unexpected: {other:?}"),
        }
    }
}

#[test]
fn read_uint32_two_byte_eof() {
    let bytes = [0x80];
    let mut r = PickleReader::new(&bytes);
    assert!(matches!(
        r.read_uint32("ctx"),
        Err(ImportError::UnexpectedEndOfStream { context: "ctx" })
    ));
}

#[test]
fn read_uint32_marker_form_eof() {
    let bytes = [0xFF, 0x01, 0x02];
    let mut r = PickleReader::new(&bytes);
    assert!(matches!(
        r.read_uint32("ctx"),
        Err(ImportError::UnexpectedEndOfStream { context: "ctx" })
    ));
}

#[test]
fn read_int64_word_order_low_then_high() {
    let bytes = [0x02, 0x01];
    let mut r = PickleReader::new(&bytes);
    assert_eq!(r.read_int64("t").unwrap(), 0x0000_0001_0000_0002i64);
}

#[test]
fn read_int64_negative_round_trip() {
    let mut buf = Vec::new();
    buf.push(0xFF);
    buf.extend_from_slice(&0xFFFF_FFFFu32.to_le_bytes());
    buf.push(0xFF);
    buf.extend_from_slice(&0xFFFF_FFFFu32.to_le_bytes());
    let mut r = PickleReader::new(&buf);
    assert_eq!(r.read_int64("t").unwrap(), -1i64);
}

#[test]
fn read_bool_accepts_0_and_1_only() {
    let bytes = [0, 1];
    let mut r = PickleReader::new(&bytes);
    assert!(!r.read_bool("t").unwrap());
    assert!(r.read_bool("t").unwrap());

    let bytes = [2];
    let mut r = PickleReader::new(&bytes);
    assert!(matches!(
        r.read_bool("ctx"),
        Err(ImportError::UnsupportedPickleTag {
            context: "ctx",
            tag: 2
        })
    ));
}

#[test]
fn read_string_raw_round_trips() {
    let bytes = [0x05, b'h', b'e', b'l', b'l', b'o'];
    let mut r = PickleReader::new(&bytes);
    assert_eq!(r.read_string_raw("t").unwrap(), "hello");
}

#[test]
fn read_string_raw_empty() {
    let bytes = [0x00];
    let mut r = PickleReader::new(&bytes);
    assert_eq!(r.read_string_raw("t").unwrap(), "");
}

#[test]
fn read_string_raw_rejects_bad_utf8() {
    let bytes = [0x02, 0xFF, 0xFE];
    let mut r = PickleReader::new(&bytes);
    assert!(matches!(
        r.read_string_raw("t"),
        Err(ImportError::MalformedPickleHeader { .. })
    ));
}

#[test]
fn read_array_rejects_length_exceeding_remaining_bytes() {
    let mut bytes = Vec::new();
    bytes.push(0xFF);
    bytes.extend_from_slice(&1_000_000u32.to_le_bytes());
    bytes.extend_from_slice(&[0x01, 0x02, 0x03, 0x04, 0x05]);
    let mut r = PickleReader::new(&bytes);
    match r.read_array::<u32>("ctx", |r| r.read_uint32("e")) {
        Err(ImportError::MalformedPickleHeader { detail }) => {
            assert!(
                detail.contains("array length 1000000"),
                "detail should name the offending count: {detail}",
            );
        }
        other => panic!("expected MalformedPickleHeader, got {other:?}"),
    }
}

#[test]
fn read_array_at_capacity_succeeds() {
    let bytes = [0x03, 0x01, 0x02, 0x03];
    let mut r = PickleReader::new(&bytes);
    let v: Vec<u32> = r.read_array("t", |r| r.read_uint32("e")).unwrap();
    assert_eq!(v, vec![1, 2, 3]);
}

#[test]
fn read_array_empty_single_many() {
    let bytes = [0x00];
    let mut r = PickleReader::new(&bytes);
    let v: Vec<u32> = r.read_array("t", |r| r.read_uint32("e")).unwrap();
    assert_eq!(v, Vec::<u32>::new());

    let bytes = [0x01, 0x05];
    let mut r = PickleReader::new(&bytes);
    let v: Vec<u32> = r.read_array("t", |r| r.read_uint32("e")).unwrap();
    assert_eq!(v, vec![5]);

    let bytes = [0x03, 0x01, 0x02, 0x03];
    let mut r = PickleReader::new(&bytes);
    let v: Vec<u32> = r.read_array("t", |r| r.read_uint32("e")).unwrap();
    assert_eq!(v, vec![1, 2, 3]);
}

#[test]
fn read_option_none_some() {
    let bytes = [0x00];
    let mut r = PickleReader::new(&bytes);
    let v: Option<u32> = r.read_option("t", |r| r.read_uint32("e")).unwrap();
    assert_eq!(v, None);

    let bytes = [0x01, 0x42];
    let mut r = PickleReader::new(&bytes);
    let v: Option<u32> = r.read_option("t", |r| r.read_uint32("e")).unwrap();
    assert_eq!(v, Some(0x42));

    let bytes = [0x02];
    let mut r = PickleReader::new(&bytes);
    assert!(matches!(
        r.read_option::<u32>("ctx", |r| r.read_uint32("e")),
        Err(ImportError::UnsupportedPickleTag {
            context: "ctx",
            tag: 2
        })
    ));
}

#[test]
fn read_byte_b_returns_zero_when_b_absent() {
    let bytes = [0xAAu8];
    let mut r = PickleReader::new_dual(&bytes, None);
    assert_eq!(r.read_byte_b("ctx"), 0);
    assert_eq!(r.read_byte_b("ctx"), 0);
    assert_eq!(r.read_byte("ctx").unwrap(), 0xAA);
}

#[test]
fn read_byte_b_returns_zero_when_b_empty() {
    let bytes = [0u8];
    let bb: [u8; 0] = [];
    let mut r = PickleReader::new_dual(&bytes, Some(&bb));
    assert_eq!(r.read_byte_b("ctx"), 0);
    assert_eq!(r.read_byte_b("ctx"), 0);
}

#[test]
fn read_byte_b_consumes_then_returns_zero_at_eof() {
    let bytes = [0u8];
    let bb = [0x11u8, 0x22];
    let mut r = PickleReader::new_dual(&bytes, Some(&bb));
    assert_eq!(r.read_byte_b("ctx"), 0x11);
    assert_eq!(r.read_byte_b("ctx"), 0x22);
    assert_eq!(r.read_byte_b("ctx"), 0);
    assert_eq!(r.read_byte_b("ctx"), 0);
}

#[test]
fn read_uint32_b_returns_zero_when_b_absent() {
    let bytes = [0u8];
    let mut r = PickleReader::new_dual(&bytes, None);
    assert_eq!(r.read_uint32_b("ctx"), 0);
}

#[test]
fn read_uint32_b_one_and_two_byte_forms() {
    let bytes = [0u8];
    let bb = [0x42u8];
    let mut r = PickleReader::new_dual(&bytes, Some(&bb));
    assert_eq!(r.read_uint32_b("ctx"), 0x42);

    let bb = [0x92u8, 0x34];
    let mut r = PickleReader::new_dual(&bytes, Some(&bb));
    assert_eq!(r.read_uint32_b("ctx"), 0x1234);
}

#[test]
fn read_uint32_b_two_byte_form_truncated_yields_zero_tail() {
    let bytes = [0u8];
    let bb = [0x80u8];
    let mut r = PickleReader::new_dual(&bytes, Some(&bb));
    assert_eq!(r.read_uint32_b("ctx"), 0);
}

#[test]
fn read_uint32_b_ff_marker_consumes_marker_plus_four() {
    let bytes = [0u8];
    let bb = [0xFFu8, 0x04, 0x03, 0x02, 0x01, 0x42];
    let mut r = PickleReader::new_dual(&bytes, Some(&bb));
    assert_eq!(r.read_uint32_b("ctx"), 0x0102_0304);
    assert_eq!(r.read_byte_b("trailer"), 0x42);
}

#[test]
fn read_uint32_b_reserved_marker_still_consumes_four_bytes() {
    let bytes = [0u8];
    let bb = [0xC5u8, 0x04, 0x03, 0x02, 0x01, 0x77];
    let mut r = PickleReader::new_dual(&bytes, Some(&bb));
    assert_eq!(r.read_uint32_b("ctx"), 0x0102_0304);
    assert_eq!(r.read_byte_b("trailer"), 0x77);
}

#[test]
fn read_uint32_b_reserved_marker_near_eof_still_advances() {
    let bytes = [0u8];
    let bb = [0xD0u8];
    let mut r = PickleReader::new_dual(&bytes, Some(&bb));
    assert_eq!(r.read_uint32_b("ctx"), 0);
}

#[test]
fn read_uint32_le_round_trips() {
    let v = 0x0102_0304u32;
    let bytes = v.to_le_bytes();
    let mut r = PickleReader::new(&bytes);
    assert_eq!(r.read_uint32_le("t").unwrap(), v);
    assert!(r.is_eof());
}

#[test]
fn read_uint32_le_errors_on_short_input() {
    let bytes = [0x01u8, 0x02, 0x03];
    let mut r = PickleReader::new(&bytes);
    assert!(matches!(
        r.read_uint32_le("ctx"),
        Err(ImportError::UnexpectedEndOfStream { context: "ctx" })
    ));
}

#[test]
fn read_list_round_trips_like_array() {
    let bytes = [0x03u8, 0x05, 0x06, 0x07];
    let mut r = PickleReader::new(&bytes);
    let v: Vec<u8> = r.read_list("t", |r| r.read_byte("e")).unwrap();
    assert_eq!(v, vec![5, 6, 7]);
}

#[test]
fn read_string_errors_when_table_not_attached() {
    let bytes = [0x00u8];
    let mut r = PickleReader::new(&bytes);
    match r.read_string("ctx") {
        Err(ImportError::MalformedPickleHeader { detail }) => {
            assert!(detail.contains("strings table not attached"));
        }
        other => panic!("unexpected: {other:?}"),
    }
}

#[test]
fn read_string_resolves_against_attached_table() {
    let bytes = [0x01u8];
    let mut r = PickleReader::new(&bytes);
    let strings = vec!["zero".to_string(), "one".to_string(), "two".to_string()];
    let pubpaths: Vec<Vec<u32>> = vec![];
    r.attach_tables(&strings, &pubpaths);
    assert_eq!(r.read_string("ctx").unwrap(), "one");
}

#[test]
fn read_string_errors_on_out_of_range_index() {
    let bytes = [0x05u8];
    let mut r = PickleReader::new(&bytes);
    let strings = vec!["a".to_string(), "b".to_string()];
    let pubpaths: Vec<Vec<u32>> = vec![];
    r.attach_tables(&strings, &pubpaths);
    match r.read_string("ctx") {
        Err(ImportError::DanglingPickleRef {
            kind: "string",
            index: 5,
        }) => {}
        other => panic!("unexpected: {other:?}"),
    }
}

#[test]
fn read_string_index_returns_raw_index_after_bounds_check() {
    let bytes = [0x02u8];
    let mut r = PickleReader::new(&bytes);
    let strings = vec!["a".to_string(), "b".to_string(), "c".to_string()];
    let pubpaths: Vec<Vec<u32>> = vec![];
    r.attach_tables(&strings, &pubpaths);
    assert_eq!(r.read_string_index("ctx").unwrap(), 2);
}

#[test]
fn read_string_index_errors_on_out_of_range() {
    let bytes = [0x09u8];
    let mut r = PickleReader::new(&bytes);
    let strings = vec!["a".to_string()];
    let pubpaths: Vec<Vec<u32>> = vec![];
    r.attach_tables(&strings, &pubpaths);
    match r.read_string_index("ctx") {
        Err(ImportError::DanglingPickleRef {
            kind: "string",
            index: 9,
        }) => {}
        other => panic!("unexpected: {other:?}"),
    }
}

#[test]
fn read_pubpath_resolves_against_attached_table() {
    let bytes = [0x00u8];
    let mut r = PickleReader::new(&bytes);
    let strings: Vec<String> = vec![];
    let pubpaths = vec![vec![1u32, 2, 3], vec![4u32]];
    r.attach_tables(&strings, &pubpaths);
    assert_eq!(r.read_pubpath("ctx").unwrap(), vec![1, 2, 3]);
}

#[test]
fn read_pubpath_errors_on_out_of_range_index() {
    let bytes = [0x09u8];
    let mut r = PickleReader::new(&bytes);
    let strings: Vec<String> = vec![];
    let pubpaths = vec![vec![1u32]];
    r.attach_tables(&strings, &pubpaths);
    match r.read_pubpath("ctx") {
        Err(ImportError::DanglingPickleRef {
            kind: "pubpath",
            index: 9,
        }) => {}
        other => panic!("unexpected: {other:?}"),
    }
}

#[test]
fn read_space_consumes_only_zero_bytes() {
    let bytes = [0u8, 0, 0, 0x42];
    let mut r = PickleReader::new(&bytes);
    r.read_space(3, "ctx").unwrap();
    assert_eq!(r.read_byte("t").unwrap(), 0x42);
}

#[test]
fn read_space_errors_on_non_zero() {
    let bytes = [0u8, 0xAA];
    let mut r = PickleReader::new(&bytes);
    match r.read_space(2, "ctx") {
        Err(ImportError::MalformedPickleHeader { detail }) => {
            assert!(detail.contains("0xaa"), "detail: {detail}");
        }
        other => panic!("unexpected: {other:?}"),
    }
}

#[test]
fn read_used_space1_absent_returns_none_and_consumes_one_byte() {
    let bytes = [0u8, 0xAB];
    let mut r = PickleReader::new(&bytes);
    let v: Option<u8> = r.read_used_space1("ctx", |r| r.read_byte("e")).unwrap();
    assert_eq!(v, None);
    assert_eq!(r.read_byte("t").unwrap(), 0xAB);
}

#[test]
fn read_used_space1_present_runs_closure_then_consumes_one_reserved_zero() {
    let bytes = [1u8, 0x42, 0x00, 0x99];
    let mut r = PickleReader::new(&bytes);
    let v: Option<u8> = r.read_used_space1("ctx", |r| r.read_byte("e")).unwrap();
    assert_eq!(v, Some(0x42));
    assert_eq!(r.read_byte("t").unwrap(), 0x99);
}

#[test]
fn read_used_space1_errors_on_unexpected_tag() {
    let bytes = [2u8];
    let mut r = PickleReader::new(&bytes);
    match r.read_used_space1::<u8>("ctx", |_| Ok(0)) {
        Err(ImportError::MalformedPickleHeader { detail }) => {
            assert!(detail.contains("u_used_space1"), "detail: {detail}");
        }
        other => panic!("unexpected: {other:?}"),
    }
}

#[test]
fn read_used_space1_errors_on_non_zero_reserved_byte() {
    let bytes = [1u8, 0x42, 0xFF];
    let mut r = PickleReader::new(&bytes);
    match r.read_used_space1::<u8>("ctx", |r| r.read_byte("e")) {
        Err(ImportError::MalformedPickleHeader { detail }) => {
            assert!(detail.contains("reserved-space"), "detail: {detail}");
        }
        other => panic!("unexpected: {other:?}"),
    }
}

#[test]
fn expect_eof_at_end_ok_with_trailing_bytes_errors() {
    let bytes = [];
    let r = PickleReader::new(&bytes);
    assert!(r.expect_eof("end").is_ok());

    let bytes = [0xFFu8];
    let r = PickleReader::new(&bytes);
    assert!(matches!(
        r.expect_eof("end"),
        Err(ImportError::MalformedPickleHeader { .. })
    ));
}

#[test]
fn expect_eof_b_succeeds_when_b_absent_or_drained() {
    let bytes = [];
    let r = PickleReader::new(&bytes);
    assert!(r.expect_eof_b("end").is_ok());

    let primary = [];
    let bb: [u8; 0] = [];
    let r = PickleReader::new_dual(&primary, Some(&bb));
    assert!(r.expect_eof_b("end").is_ok());
}

#[test]
fn expect_eof_b_errors_on_trailing_b_bytes() {
    let primary = [];
    let bb = [0x01u8, 0x02];
    let r = PickleReader::new_dual(&primary, Some(&bb));
    match r.expect_eof_b("phase 1") {
        Err(ImportError::MalformedPickleHeader { detail }) => {
            assert!(detail.contains("B stream"), "detail: {detail}");
            assert!(detail.contains("phase 1"), "detail: {detail}");
        }
        other => panic!("unexpected: {other:?}"),
    }
}
