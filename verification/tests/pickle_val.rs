//! Values in a pickle.
use borzoi_assembly::error::ImportError;
use borzoi_assembly::fsharp_pickle::model::{
    Nullness, PickledMemberKind, PickledParentRef, PickledTcRef, PickledType, TyparKind,
};
use borzoi_assembly::fsharp_pickle::osgn::PhaseOneState;
use borzoi_assembly::fsharp_pickle::reader::PickleReader;
use borzoi_assembly::fsharp_pickle::val::{
    read_arg_repr_info, read_member_flags, read_member_kind, read_parentref, read_ranges,
    read_slotparam, read_typar_repr_info, read_val, read_val_data, read_val_repr_info,
};

fn make_state<'a>(bytes: &'a [u8], strings: &'a [String]) -> PhaseOneState<'a> {
    let mut r = PickleReader::new(bytes);
    let pubpaths: &'a [Vec<u32>] = &[];
    r.attach_tables(strings, pubpaths);
    PhaseOneState::with_capacities(r, 0, 0, 0)
}

fn make_state_caps<'a>(
    bytes: &'a [u8],
    strings: &'a [String],
    ntycons: usize,
    ntypars: usize,
    nvals: usize,
) -> PhaseOneState<'a> {
    let mut r = PickleReader::new(bytes);
    let pubpaths: &'a [Vec<u32>] = &[];
    r.attach_tables(strings, pubpaths);
    PhaseOneState::with_capacities(r, ntycons, ntypars, nvals)
}

#[test]
fn member_kind_round_trip() {
    for (tag, expected) in [
        (0u8, PickledMemberKind::Member),
        (1, PickledMemberKind::PropertyGet),
        (2, PickledMemberKind::PropertySet),
        (3, PickledMemberKind::Constructor),
        (4, PickledMemberKind::ClassConstructor),
    ] {
        let bytes = [tag];
        let mut r = PickleReader::new(&bytes);
        assert_eq!(read_member_kind(&mut r).unwrap(), expected);
    }
}

#[test]
fn member_kind_unknown_errors() {
    let bytes = [7u8];
    let mut r = PickleReader::new(&bytes);
    match read_member_kind(&mut r) {
        Err(ImportError::UnsupportedPickleTag {
            context: "u_member_kind",
            tag: 7,
        }) => {}
        other => panic!("unexpected: {other:?}"),
    }
}

#[test]
fn member_flags_drops_unused_bool() {
    let bytes = vec![1u8, 0u8, 1u8, 0u8, 1u8, 1u8];
    let mut r = PickleReader::new(&bytes);
    let f = read_member_flags(&mut r).unwrap();
    assert!(f.is_instance);
    assert!(f.is_dispatch_slot);
    assert!(!f.is_override_or_explicit_impl);
    assert!(f.is_final);
    assert_eq!(f.kind, PickledMemberKind::PropertyGet);
}

#[test]
fn typar_repr_info_round_trip() {
    let strings = vec!["T".to_string(), "src.fs".to_string()];
    let bytes = vec![0u8, 1u8, 1u8, 0u8, 1u8, 1u8, 0u8];
    let mut r = PickleReader::new(&bytes);
    let pubpaths: &[Vec<u32>] = &[];
    r.attach_tables(&strings, pubpaths);
    let info = read_typar_repr_info(&mut r).unwrap();
    assert_eq!(info.ident.name, "T");
    assert_eq!(info.kind, TyparKind::Type);
    assert!(r.is_eof());
}

#[test]
fn arg_repr_info_empty() {
    let bytes = vec![0u8, 0u8];
    let strings: Vec<String> = vec![];
    let mut s = make_state(&bytes, &strings);
    let info = read_arg_repr_info(&mut s).unwrap();
    assert!(info.attribs.is_empty());
    assert!(info.name.is_none());
}

#[test]
fn val_repr_info_three_typars_one_arg_group() {
    let strings = vec!["T".to_string(), "src.fs".to_string()];
    let mut bytes = vec![3u8];
    for _ in 0..3 {
        bytes.extend([0u8, 1u8, 1u8, 0u8, 1u8, 1u8, 0u8]);
    }
    bytes.extend([1u8, 0u8]);
    bytes.extend([0u8, 0u8]);
    let mut s = make_state(&bytes, &strings);
    let info = read_val_repr_info(&mut s).unwrap();
    assert_eq!(info.typar_repr.len(), 3);
    assert_eq!(info.arg_repr.len(), 1);
    assert!(info.arg_repr[0].is_empty());
    assert!(info.return_repr.attribs.is_empty());
    assert!(s.reader.is_eof());
}

#[test]
fn ranges_none_yields_two_nones() {
    let bytes = vec![0u8];
    let mut r = PickleReader::new(&bytes);
    let (a, b) = read_ranges(&mut r).unwrap();
    assert!(a.is_none());
    assert!(b.is_none());
}

#[test]
fn ranges_some_yields_two_somes() {
    let strings = vec!["a".to_string(), "src.fs".to_string()];
    let bytes = vec![
        1u8,
        1u8, 1u8, 0u8, 1u8, 1u8,
        1u8, 2u8, 0u8, 2u8, 5u8,
    ];
    let mut r = PickleReader::new(&bytes);
    let pubpaths: &[Vec<u32>] = &[];
    r.attach_tables(&strings, pubpaths);
    let (a, b) = read_ranges(&mut r).unwrap();
    assert!(a.is_some());
    assert!(b.is_some());
    assert_eq!(a.unwrap().start.line, 1);
    assert_eq!(b.unwrap().end.column, 5);
}

#[test]
fn parentref_none() {
    let bytes = vec![0u8];
    let mut s = PhaseOneState::with_capacities(PickleReader::new(&bytes), 0, 0, 0);
    assert_eq!(read_parentref(&mut s).unwrap(), PickledParentRef::NoParent);
}

#[test]
fn parentref_parent_with_nle() {
    let bytes = vec![1u8, 1u8, 2u8];
    let mut s = PhaseOneState::with_capacities(PickleReader::new(&bytes), 0, 0, 0);
    assert_eq!(
        read_parentref(&mut s).unwrap(),
        PickledParentRef::Parent(PickledTcRef::NonLocal(2))
    );
}

#[test]
fn parentref_unknown_tag_errors() {
    let bytes = vec![9u8];
    let mut s = PhaseOneState::with_capacities(PickleReader::new(&bytes), 0, 0, 0);
    match read_parentref(&mut s) {
        Err(ImportError::UnsupportedPickleTag {
            context: "u_parentref",
            tag: 9,
        }) => {}
        other => panic!("unexpected: {other:?}"),
    }
}

#[test]
fn val_data_minimal_round_trip() {
    let strings = vec!["x".to_string(), "".to_string()];
    let bytes = vec![
        0u8,
        0u8,
        0u8,
        1u8, 0u8,
        0u8, 0u8,
        0u8,
        0u8,
        0u8,
        1u8,
        0u8,
        0u8,
        0u8,
        0u8,
    ];
    let mut s = make_state(&bytes, &strings);
    let v = read_val_data(&mut s).unwrap();
    assert_eq!(v.logical_name, "x");
    assert!(v.compiled_name.is_none());
    assert!(v.range.is_none());
    assert!(v.other_range.is_none());
    assert!(matches!(
        v.ty,
        PickledType::AppSimple {
            simpletyp_index: 0,
            nullness: Nullness::Ambivalent
        }
    ));
    assert_eq!(v.flags, 0);
    assert!(v.member_info.is_none());
    assert!(v.attribs.is_empty());
    assert!(v.repr_info.is_none());
    assert_eq!(v.xmldoc_sig, "");
    assert!(v.access.is_empty());
    assert_eq!(v.parent, PickledParentRef::NoParent);
    assert!(v.literal_value.is_none());
    assert!(v.xmldoc.is_none());
    assert!(s.reader.is_eof());
}

#[test]
fn u_val_osgn_decl_links_slot() {
    let strings = vec!["x".to_string(), "".to_string()];
    let bytes = vec![
        0u8,
        0u8,
        0u8,
        0u8,
        1u8, 0u8,
        0u8, 0u8,
        0u8,
        0u8,
        0u8,
        1u8,
        0u8,
        0u8,
        0u8,
        0u8,
    ];
    let mut s = make_state_caps(&bytes, &strings, 0, 0, 1);
    let idx = read_val(&mut s).unwrap();
    assert_eq!(idx, 0);
    assert!(s.ivals.get(0).is_ok());
    assert!(s.reader.is_eof());
}

#[test]
fn slotparam_round_trip() {
    let strings = vec!["p".to_string()];
    let bytes = vec![
        1u8, 0u8,
        1u8, 0u8,
        0u8, 0u8, 0u8,
        0u8,
    ];
    let mut s = make_state(&bytes, &strings);
    let p = read_slotparam(&mut s).unwrap();
    assert_eq!(p.name.as_deref(), Some("p"));
    assert!(!p.is_in_arg);
    assert!(!p.is_out_arg);
    assert!(!p.is_optional);
    assert!(p.attribs.is_empty());
    assert!(s.reader.is_eof());
}
