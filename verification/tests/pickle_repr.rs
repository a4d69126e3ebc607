//! Type representations in a pickle.
use borzoi_assembly::error::ImportError;
use borzoi_assembly::fsharp_pickle::model::{
    Nullness, PickledExnRepr, PickledILType, PickledTcRef, PickledTyconObjModelKind,
    PickledTyconRepr, PickledTyconReprClosure, PickledType,
};
use borzoi_assembly::fsharp_pickle::osgn::PhaseOneState;
use borzoi_assembly::fsharp_pickle::reader::PickleReader;
use borzoi_assembly::fsharp_pickle::repr::{
    read_attribs_ext, read_exnc_repr, read_recdfield_spec, read_rfield_table,
    read_tycon_objmodel_data, read_tycon_objmodel_kind, read_tycon_repr, read_unioncase_spec,
    resolve_repr,
};

fn make_state<'a>(bytes: &'a [u8], strings: &'a [String]) -> PhaseOneState<'a> {
    let mut r = PickleReader::new(bytes);
    let pubpaths: &'a [Vec<u32>] = &[];
    r.attach_tables(strings, pubpaths);
    PhaseOneState::with_capacities(r, 0, 0, 0)
}

const APPSIMPLE_0: [u8; 2] = [1u8, 0u8];

fn appsimple_assert(ty: &PickledType) {
    assert!(matches!(
        ty,
        PickledType::AppSimple {
            simpletyp_index: 0,
            nullness: Nullness::Ambivalent,
        }
    ));
}

#[test]
fn attribs_ext_no_extra() {
    let bytes = vec![0u8];
    let strings: Vec<String> = vec![];
    let mut s = make_state(&bytes, &strings);
    let (extra, attribs) = read_attribs_ext(&mut s, "attribs_ext_no_extra ctx").unwrap();
    assert!(extra.is_none());
    assert!(attribs.is_empty());
}

#[test]
fn attribs_ext_with_xmldoc_extra() {
    let strings: Vec<String> = vec![];
    let mut bytes = vec![
        0xFFu8,
        0x00, 0x00, 0x00, 0x80,
        0u8,
    ];
    let _ = &mut bytes;
    let mut s = make_state(&bytes, &strings);
    let (extra, attribs) =
        read_attribs_ext(&mut s, "attribs_ext_with_xmldoc_extra ctx").unwrap();
    assert!(extra.is_some());
    assert!(extra.unwrap().lines.is_empty());
    assert!(attribs.is_empty());
    assert!(s.reader.is_eof());
}

#[test]
fn recdfield_spec_minimal_round_trip() {
    let strings = vec!["x".to_string(), "".to_string()];
    let bytes = vec![
        0u8,
        0u8,
        APPSIMPLE_0[0],
        APPSIMPLE_0[1],
        0u8,
        0u8,
        0u8,
        0u8,
        1u8,
        1u8,
        0u8,
        1u8,
        1u8,
        0u8,
        0u8,
        1u8,
        0u8,
    ];
    let mut s = make_state(&bytes, &strings);
    let f = read_recdfield_spec(&mut s).unwrap();
    assert!(!f.is_mutable);
    assert!(!f.is_volatile);
    appsimple_assert(&f.ty);
    assert!(!f.is_static);
    assert!(!f.is_secret);
    assert!(f.literal_value.is_none());
    assert_eq!(f.ident.name, "x");
    assert!(f.property_attribs.is_empty());
    assert!(f.field_attribs.is_empty());
    assert!(f.xmldoc.is_none());
    assert_eq!(f.xmldoc_sig, "");
    assert!(f.access.is_empty());
    assert!(s.reader.is_eof());
}

#[test]
fn rfield_table_two_fields() {
    let strings = vec!["a".to_string(), "b".to_string(), "".to_string()];
    let one_field = |name_idx: u8| {
        vec![
            0u8,
            0u8,
            APPSIMPLE_0[0],
            APPSIMPLE_0[1],
            0u8,
            0u8,
            0u8,
            name_idx,
            1u8,
            1u8,
            0u8,
            1u8,
            1u8,
            0u8,
            0u8,
            2u8,
            0u8,
        ]
    };
    let mut bytes = vec![2u8];
    bytes.extend(one_field(0));
    bytes.extend(one_field(1));
    let mut s = make_state(&bytes, &strings);
    let v = read_rfield_table(&mut s).unwrap();
    assert_eq!(v.len(), 2);
    assert_eq!(v[0].ident.name, "a");
    assert_eq!(v[1].ident.name, "b");
    assert!(s.reader.is_eof());
}

#[test]
fn unioncase_spec_round_trip() {
    let strings = vec!["C".to_string(), "".to_string()];
    let bytes = vec![
        0u8,
        APPSIMPLE_0[0],
        APPSIMPLE_0[1],
        1u8,
        0u8,
        1u8,
        1u8,
        0u8,
        1u8,
        1u8,
        0u8,
        1u8,
        0u8,
    ];
    let mut s = make_state(&bytes, &strings);
    let c = read_unioncase_spec(&mut s).unwrap();
    assert!(c.fields.is_empty());
    appsimple_assert(&c.return_ty);
    assert_eq!(c.ident.name, "C");
    assert!(c.attribs.is_empty());
    assert!(c.xmldoc.is_none());
    assert_eq!(c.xmldoc_sig, "");
    assert!(c.access.is_empty());
    assert!(s.reader.is_eof());
}

#[test]
fn tycon_objmodel_kind_no_payload_tags() {
    for (tag, expected) in [
        (0u8, PickledTyconObjModelKind::Class),
        (1, PickledTyconObjModelKind::Interface),
        (2, PickledTyconObjModelKind::Struct),
        (4, PickledTyconObjModelKind::Enum),
        (5, PickledTyconObjModelKind::Union),
        (6, PickledTyconObjModelKind::Record),
    ] {
        let bytes = [tag];
        let strings: Vec<String> = vec![];
        let mut s = make_state(&bytes, &strings);
        assert_eq!(read_tycon_objmodel_kind(&mut s).unwrap(), expected);
    }
}

#[test]
fn tycon_objmodel_kind_unknown_errors() {
    let bytes = [9u8];
    let strings: Vec<String> = vec![];
    let mut s = make_state(&bytes, &strings);
    match read_tycon_objmodel_kind(&mut s) {
        Err(ImportError::UnsupportedPickleTag {
            context: "u_tycon_objmodel_kind",
            tag: 9,
        }) => {}
        other => panic!("unexpected: {other:?}"),
    }
}

#[test]
fn tycon_objmodel_data_class_no_vslots() {
    let strings: Vec<String> = vec![];
    let bytes = vec![
        0u8,
        0u8,
        0u8,
    ];
    let mut s = make_state(&bytes, &strings);
    let d = read_tycon_objmodel_data(&mut s).unwrap();
    assert_eq!(d.kind, PickledTyconObjModelKind::Class);
    assert!(d.vslots.is_empty());
    assert!(d.rfields.is_empty());
    assert!(s.reader.is_eof());
}

#[test]
fn tycon_repr_no_repr() {
    let bytes = vec![0u8];
    let strings: Vec<String> = vec![];
    let mut s = make_state(&bytes, &strings);
    let closure = read_tycon_repr(&mut s).unwrap();
    assert_eq!(closure, PickledTyconReprClosure::NoRepr);
    assert_eq!(
        resolve_repr(closure, false).unwrap(),
        PickledTyconRepr::NoRepr
    );
}

#[test]
fn tycon_repr_record_branch() {
    let bytes = vec![1u8, 0u8, 0u8];
    let strings: Vec<String> = vec![];
    let mut s = make_state(&bytes, &strings);
    let closure = read_tycon_repr(&mut s).unwrap();
    assert_eq!(closure, PickledTyconReprClosure::Record(vec![]));
    match resolve_repr(closure, false).unwrap() {
        PickledTyconRepr::Record(v) => assert!(v.is_empty()),
        other => panic!("unexpected: {other:?}"),
    }
}

#[test]
fn tycon_repr_union_branch() {
    let bytes = vec![1u8, 1u8, 0u8];
    let strings: Vec<String> = vec![];
    let mut s = make_state(&bytes, &strings);
    let closure = read_tycon_repr(&mut s).unwrap();
    assert_eq!(closure, PickledTyconReprClosure::Union(vec![]));
}

#[test]
fn tycon_repr_il_type_with_flag_false_yields_asmrepr() {
    let bytes = vec![1u8, 2u8, 0u8];
    let strings: Vec<String> = vec![];
    let mut s = make_state(&bytes, &strings);
    let closure = read_tycon_repr(&mut s).unwrap();
    match resolve_repr(closure, false).unwrap() {
        PickledTyconRepr::AsmRepr(PickledILType::Void) => {}
        other => panic!("unexpected: {other:?}"),
    }
}

#[test]
fn tycon_repr_il_type_with_flag_true_hard_errors() {
    let bytes = vec![1u8, 2u8, 0u8];
    let strings: Vec<String> = vec![];
    let mut s = make_state(&bytes, &strings);
    let closure = read_tycon_repr(&mut s).unwrap();
    match resolve_repr(closure, true) {
        Err(ImportError::UnsupportedSignature { .. }) => {}
        other => panic!("unexpected: {other:?}"),
    }
}

#[test]
fn tycon_repr_outer_unknown_errors() {
    let bytes = vec![9u8];
    let strings: Vec<String> = vec![];
    let mut s = make_state(&bytes, &strings);
    match read_tycon_repr(&mut s) {
        Err(ImportError::UnsupportedPickleTag {
            context: "u_tycon_repr outer tag",
            tag: 9,
        }) => {}
        other => panic!("unexpected: {other:?}"),
    }
}

#[test]
fn tycon_repr_inner_unknown_errors() {
    let bytes = vec![1u8, 9u8];
    let strings: Vec<String> = vec![];
    let mut s = make_state(&bytes, &strings);
    match read_tycon_repr(&mut s) {
        Err(ImportError::UnsupportedPickleTag {
            context: "u_tycon_repr inner tag",
            tag: 9,
        }) => {}
        other => panic!("unexpected: {other:?}"),
    }
}

#[test]
fn exnc_repr_abbrev_branch() {
    let bytes = vec![0u8, 1u8, 2u8];
    let strings: Vec<String> = vec![];
    let mut s = make_state(&bytes, &strings);
    let r = read_exnc_repr(&mut s).unwrap();
    assert_eq!(r, PickledExnRepr::Abbrev(PickledTcRef::NonLocal(2)));
}

#[test]
fn exnc_repr_fresh_empty() {
    let bytes = vec![2u8, 0u8];
    let strings: Vec<String> = vec![];
    let mut s = make_state(&bytes, &strings);
    let r = read_exnc_repr(&mut s).unwrap();
    assert_eq!(r, PickledExnRepr::Fresh(vec![]));
}

#[test]
fn exnc_repr_none_branch() {
    let bytes = vec![3u8];
    let strings: Vec<String> = vec![];
    let mut s = make_state(&bytes, &strings);
    assert_eq!(read_exnc_repr(&mut s).unwrap(), PickledExnRepr::NotException);
}

#[test]
fn exnc_repr_unknown_errors() {
    let bytes = vec![5u8];
    let strings: Vec<String> = vec![];
    let mut s = make_state(&bytes, &strings);
    match read_exnc_repr(&mut s) {
        Err(ImportError::UnsupportedPickleTag {
            context: "u_exnc_repr",
            tag: 5,
        }) => {}
        other => panic!("unexpected: {other:?}"),
    }
}
