//! Value references in a pickle.
use borzoi_assembly::error::ImportError;
use borzoi_assembly::fsharp_pickle::model::{Nullness, PickledTcRef, PickledType, PickledVRef};
use borzoi_assembly::fsharp_pickle::osgn::PhaseOneState;
use borzoi_assembly::fsharp_pickle::reader::PickleReader;
use borzoi_assembly::fsharp_pickle::vrefs::read_vref;

fn make_state<'a>(bytes: &'a [u8], strings: &'a [String]) -> PhaseOneState<'a> {
    let mut r = PickleReader::new(bytes);
    let pubpaths: &'a [Vec<u32>] = &[];
    r.attach_tables(strings, pubpaths);
    PhaseOneState::with_capacities(r, 0, 0, 0)
}

fn make_state_vals<'a>(
    bytes: &'a [u8],
    strings: &'a [String],
    nvals: usize,
) -> PhaseOneState<'a> {
    let mut r = PickleReader::new(bytes);
    let pubpaths: &'a [Vec<u32>] = &[];
    r.attach_tables(strings, pubpaths);
    PhaseOneState::with_capacities(r, 0, 0, nvals)
}

#[test]
fn vref_nonlocal_minimal() {
    let strings = vec!["foo".to_string()];
    let bytes = vec![
        1u8,
        1u8, 2u8,
        0u8,
        0u8,
        0u8,
        0u8,
        0u8,
    ];
    let mut s = make_state(&bytes, &strings);
    let v = read_vref(&mut s).unwrap();
    let PickledVRef::NonLocal(nl) = v else {
        panic!("expected NonLocal")
    };
    assert_eq!(nl.enclosing_entity, PickledTcRef::NonLocal(2));
    assert!(nl.member_parent_mangled_name.is_none());
    assert!(!nl.member_is_override);
    assert_eq!(nl.logical_name, "foo");
    assert_eq!(nl.total_arg_count, 0);
    assert!(nl.partial_type.is_none());
    assert!(s.reader.is_eof());
}

#[test]
fn vref_nonlocal_with_member_parent_and_partial_type() {
    let strings = vec!["MyClass".to_string(), "Foo".to_string()];
    let bytes = vec![
        1u8,
        0u8, 0u8,
        1u8, 0u8,
        0x01,
        1u8,
        2u8,
        1u8,
        1u8,
        1u8,
    ];
    let mut r = PickleReader::new(&bytes);
    let pubpaths: &[Vec<u32>] = &[];
    r.attach_tables(&strings, pubpaths);
    let mut s = PhaseOneState::with_capacities(r, 1, 0, 0);
    let PickledVRef::NonLocal(nl) = read_vref(&mut s).unwrap() else {
        panic!("expected NonLocal")
    };
    assert_eq!(nl.enclosing_entity, PickledTcRef::Local(0));
    assert_eq!(nl.member_parent_mangled_name.as_deref(), Some("MyClass"));
    assert!(nl.member_is_override);
    assert_eq!(nl.logical_name, "Foo");
    assert_eq!(nl.total_arg_count, 2);
    assert_eq!(
        nl.partial_type,
        Some(PickledType::AppSimple {
            simpletyp_index: 1,
            nullness: Nullness::Ambivalent,
        }),
    );
    assert!(s.reader.is_eof());
}

#[test]
fn vref_local_returns_index() {
    let strings: Vec<String> = vec![];
    let bytes = vec![0u8, 5u8];
    let mut s = make_state_vals(&bytes, &strings, 8);
    let v = read_vref(&mut s).unwrap();
    assert_eq!(v, PickledVRef::Local(5));
    assert!(s.reader.is_eof());
}

#[test]
fn vref_local_out_of_range_errors() {
    let strings: Vec<String> = vec![];
    let bytes = vec![0u8, 9u8];
    let mut s = make_state_vals(&bytes, &strings, 4);
    match read_vref(&mut s) {
        Err(ImportError::OsgnIndexOutOfRange {
            kind: "vals",
            index: 9,
            max: 4,
        }) => {}
        other => panic!("unexpected: {other:?}"),
    }
}

#[test]
fn vref_unknown_tag_errors() {
    let strings: Vec<String> = vec![];
    let bytes = vec![9u8];
    let mut s = make_state(&bytes, &strings);
    match read_vref(&mut s) {
        Err(ImportError::UnsupportedPickleTag {
            context: "u_vref tag",
            tag: 9,
        }) => {}
        other => panic!("unexpected: {other:?}"),
    }
}
