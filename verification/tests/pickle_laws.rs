//! What holds of the pickle reader and the declaration tables on all inputs, on some
//! of them.
use borzoi_assembly::error::ImportError;
use borzoi_assembly::fsharp_pickle::model::{
    FSharpTyparConstraint, PickledIdent, PickledPos, PickledRange, PickledTyparSpecData,
    PickledXmlDoc,
};
use borzoi_assembly::fsharp_pickle::osgn::{OsgnTable, PhaseOneState};
use borzoi_assembly::fsharp_pickle::reader::{signed_word, PickleReader};
use borzoi_assembly::fsharp_pickle::types::read_ty;

/// The bytes of a number in a pickle.
fn uint32_bytes(v: u32) -> Vec<u8> {
    if v < 0x80 {
        vec![v as u8]
    } else if v < 0x4000 {
        vec![0x80 | (v >> 8) as u8, v as u8]
    } else {
        let mut out = vec![0xFF];
        out.extend_from_slice(&v.to_le_bytes());
        out
    }
}

#[test]
fn a_number_is_read_as_it_was_written() {
    for v in [0, 1, 0x7F, 0x80, 0x3FFF, 0x4000, 0x1234_5678, u32::MAX] {
        let mut bytes = uint32_bytes(v);
        let n = bytes.len();
        bytes.push(0xAA);
        let mut reader = PickleReader::new(&bytes);
        assert_eq!(reader.read_uint32("number").unwrap(), v);
        assert_eq!(reader.pos(), n);
        let mut reader = PickleReader::new(&bytes);
        assert_eq!(reader.read_int32("number").unwrap(), v as i32);
        assert_eq!(signed_word(v), v as i32);
    }
}

#[test]
fn the_second_stream_goes_on_with_zeros() {
    let mut short = PickleReader::new_dual(&[], Some(&[1, 2]));
    let mut long = PickleReader::new_dual(&[], Some(&[1, 2, 0, 0, 0, 0]));
    for _ in 0..4 {
        assert_eq!(short.read_byte_b("byte"), long.read_byte_b("byte"));
    }
    let mut short = PickleReader::new_dual(&[], Some(&[0xFF, 1]));
    let mut long = PickleReader::new_dual(&[], Some(&[0xFF, 1, 0, 0, 0]));
    assert_eq!(short.read_uint32_b("number"), 1);
    assert_eq!(long.read_uint32_b("number"), 1);
}

#[test]
fn a_list_never_announces_more_than_is_left() {
    for n in 0..6u8 {
        let bytes = [n, 1, 1, 1];
        let mut reader = PickleReader::new(&bytes);
        match reader.read_array_len("list") {
            Ok(len) => {
                assert_eq!(len, n as usize);
                assert!(len <= reader.remaining());
            }
            Err(e) => {
                assert!(n > 3);
                assert_eq!(
                    e,
                    ImportError::MalformedPickleHeader {
                        detail: format!("list: array length {n} exceeds remaining bytes 3"),
                    }
                );
            }
        }
    }
}

#[test]
fn a_primitive_that_fails_leaves_the_cursor() {
    let mut reader = PickleReader::new(&[0x80]);
    assert_eq!(
        reader.read_uint32("ctx"),
        Err(ImportError::UnexpectedEndOfStream { context: "ctx" })
    );
    assert_eq!(reader.pos(), 0);
    assert_eq!(reader.read_byte("ctx"), Ok(0x80));

    // Behind a byte that was read, the place behind it.
    let bytes = [7, 0xFF, 1, 2];
    let mut reader = PickleReader::new(&bytes);
    assert_eq!(reader.read_byte("ctx"), Ok(7));
    assert!(reader.read_uint32("ctx").is_err());
    assert!(reader.read_int32("ctx").is_err());
    assert!(reader.read_int64("ctx").is_err());
    assert!(reader.read_bool("ctx").is_err());
    assert!(reader.read_bytes(9, "ctx").is_err());
    assert!(reader.read_uint32_le("ctx").is_err());
    assert!(reader.read_space(3, "ctx").is_err());
    assert_eq!(reader.pos(), 1);

    // A length that is read and then refused, or whose bytes are.
    let bytes = [2, 0xFF, 0xFE];
    let mut reader = PickleReader::new(&bytes);
    assert!(reader.read_string_raw("ctx").is_err());
    assert_eq!(reader.pos(), 0);
    let bytes = [9, 1, 2];
    let mut reader = PickleReader::new(&bytes);
    assert!(reader.read_array_len("ctx").is_err());
    assert!(reader.read_byte_memory("ctx").is_err());
    assert!(reader.read_string_raw("ctx").is_err());
    assert_eq!(reader.pos(), 0);

    // An index into a table that has no such entry.
    let strings: Vec<String> = vec!["only".to_string()];
    let bytes = [1];
    let mut reader = PickleReader::new(&bytes);
    reader.attach_tables(&strings, &[]);
    assert!(reader.read_string("ctx").is_err());
    assert!(reader.read_string_index("ctx").is_err());
    assert!(reader.read_pubpath("ctx").is_err());
    assert_eq!(reader.pos(), 0);
}

#[test]
fn a_decoded_type_refers_into_its_tables() {
    let state = |bytes: &'static [u8]| {
        let mut state = PhaseOneState::with_capacities(PickleReader::new(bytes), 2, 3, 1);
        state.nlerefs_len = 4;
        state.simpletys_len = 5;
        state
    };
    // A tuple of a simple type, a local and a non-local one, and a variable.
    let within: &[u8] = &[0, 4, 1, 4, 2, 0, 1, 0, 2, 1, 3, 0, 4, 2];
    assert!(read_ty(&mut state(within)).is_ok());
    let simple: &[u8] = &[0, 1, 1, 5];
    assert_eq!(
        read_ty(&mut state(simple)),
        Err(ImportError::DanglingPickleRef { kind: "simpletyp", index: 5 })
    );
    let local: &[u8] = &[0, 1, 2, 0, 2, 0];
    assert_eq!(
        read_ty(&mut state(local)),
        Err(ImportError::OsgnIndexOutOfRange { kind: "tycons", index: 2, max: 2 })
    );
    let non_local: &[u8] = &[0, 1, 2, 1, 4, 0];
    assert_eq!(
        read_ty(&mut state(non_local)),
        Err(ImportError::DanglingPickleRef { kind: "nleref", index: 4 })
    );
    let variable: &[u8] = &[0, 1, 4, 3];
    assert_eq!(
        read_ty(&mut state(variable)),
        Err(ImportError::OsgnIndexOutOfRange { kind: "typars", index: 3, max: 3 })
    );
}

#[test]
fn a_type_that_nests_too_deep_is_refused() {
    let bytes = vec![3u8; 100_000];
    let mut state = PhaseOneState::with_capacities(PickleReader::new(&bytes), 1, 1, 1);
    let err = read_ty(&mut state).unwrap_err();
    assert!(matches!(err, ImportError::PickleRecursionLimitExceeded { .. }));
}

#[test]
fn the_depth_is_limited() {
    let mut reader = PickleReader::new(&[]);
    let mut depth = 0u32;
    let err = loop {
        match reader.enter_recursion("nest") {
            Ok(()) => depth += 1,
            Err(e) => break e,
        }
    };
    assert_eq!(err, ImportError::PickleRecursionLimitExceeded { context: "nest", limit: depth });
    reader.exit_recursion();
    assert!(reader.enter_recursion("nest").is_ok());
}

fn typar(name: &str) -> PickledTyparSpecData {
    PickledTyparSpecData {
        ident: PickledIdent {
            name: name.to_string(),
            range: PickledRange {
                file: 0,
                start: PickledPos { line: 0, column: 0 },
                end: PickledPos { line: 0, column: 0 },
            },
        },
        attribs: Vec::new(),
        flags: 0,
        constraints: Vec::new(),
        xmldoc: PickledXmlDoc { lines: Vec::new() },
    }
}

#[test]
fn a_stamp_keeps_its_first_body() {
    let mut table: OsgnTable<PickledTyparSpecData> = OsgnTable::with_capacity("typars", 2);
    assert_eq!(
        table.get(0).unwrap_err(),
        ImportError::DanglingPickleRef { kind: "typars", index: 0 }
    );
    assert_eq!(table.link(0, typar("a")).unwrap(), 0);
    assert_eq!(table.link(0, typar("a")).unwrap(), 0);
    assert_eq!(
        table.link(0, typar("b")).unwrap_err(),
        ImportError::OsgnConflictingRelink { kind: "typars", index: 0 }
    );
    assert_eq!(table.link(1, typar("b")).unwrap(), 1);
    assert_eq!(table.get(0).unwrap().ident.name, "a");
    assert_eq!(
        table.link(2, typar("c")).unwrap_err(),
        ImportError::OsgnIndexOutOfRange { kind: "typars", index: 2, max: 2 }
    );
    let unconstrained: Vec<FSharpTyparConstraint> = Vec::new();
    assert_eq!(table.get(1).unwrap().constraints, unconstrained);
}

#[test]
fn a_stamp_is_read_and_checked() {
    let table: OsgnTable<PickledTyparSpecData> = OsgnTable::with_capacity("typars", 2);
    let mut reader = PickleReader::new(&[1, 2]);
    assert_eq!(table.read_ref(&mut reader, "typar").unwrap(), 1);
    assert_eq!(
        table.read_ref(&mut reader, "typar").unwrap_err(),
        ImportError::OsgnIndexOutOfRange { kind: "typars", index: 2, max: 2 }
    );
}
