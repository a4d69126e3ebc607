//! Types in a pickle.
use borzoi_assembly::error::ImportError;
use borzoi_assembly::fsharp_pickle::model::{
    Measure, Nullness, PickledTcRef, PickledType, PickledUCaseRef, TupleKind,
};
use borzoi_assembly::fsharp_pickle::osgn::PhaseOneState;
use borzoi_assembly::fsharp_pickle::reader::PickleReader;
use borzoi_assembly::fsharp_pickle::types::{read_tcref, read_tpref, read_ty};

fn b(v: u8) -> u8 {
    v
}

fn arr(n: u8, payload: &[u8]) -> Vec<u8> {
    let mut out = vec![n];
    out.extend_from_slice(payload);
    out
}

fn nleref_tcref(nleref_idx: u8) -> Vec<u8> {
    vec![1, nleref_idx]
}

fn empty_state<'a>(bytes: &'a [u8]) -> PhaseOneState<'a> {
    PhaseOneState::with_capacities(PickleReader::new(bytes), 256, 256, 256)
}

fn empty_state_dual<'a>(primary: &'a [u8], b: &'a [u8]) -> PhaseOneState<'a> {
    PhaseOneState::with_capacities(PickleReader::new_dual(primary, Some(b)), 256, 256, 256)
}

fn read_one(bytes: &[u8]) -> Result<PickledType, ImportError> {
    let mut s = empty_state(bytes);
    let t = read_ty(&mut s)?;
    assert!(
        s.reader.is_eof(),
        "decoder should consume the whole fixture; {} bytes left",
        s.reader.remaining()
    );
    Ok(t)
}

fn read_one_dual(primary: &[u8], b: &[u8]) -> Result<PickledType, ImportError> {
    let mut s = empty_state_dual(primary, b);
    let t = read_ty(&mut s)?;
    assert!(
        s.reader.is_eof(),
        "decoder should consume the whole primary; {} bytes left",
        s.reader.remaining()
    );
    Ok(t)
}

#[test]
fn tag_0_tuple_reference_empty() {
    let bytes = [b(0), b(0)];
    let t = read_one(&bytes).unwrap();
    assert_eq!(
        t,
        PickledType::Tuple {
            kind: TupleKind::Reference,
            elems: vec![],
        }
    );
}

#[test]
fn tag_0_tuple_reference_with_elements() {
    let inner = [b(4), b(5)];
    let mut bytes = vec![b(0), b(2)];
    bytes.extend_from_slice(&inner);
    bytes.extend_from_slice(&inner);
    let t = read_one(&bytes).unwrap();
    match t {
        PickledType::Tuple { kind, elems } => {
            assert_eq!(kind, TupleKind::Reference);
            assert_eq!(elems.len(), 2);
            for e in elems {
                assert_eq!(
                    e,
                    PickledType::Var {
                        typar_index: 5,
                        nullness: Nullness::Ambivalent,
                    }
                );
            }
        }
        other => panic!("expected Tuple, got {other:?}"),
    }
}

#[test]
fn tag_1_simpletyp_index_validated_against_table() {
    let primary = [b(1), b(3)];
    let mut s = empty_state(&primary);
    s.simpletys_len = 2;
    match read_ty(&mut s) {
        Err(ImportError::DanglingPickleRef {
            kind: "simpletyp",
            index: 3,
        }) => {}
        other => panic!("expected DanglingPickleRef for simpletyp, got {other:?}"),
    }
}

#[test]
fn nonlocal_tcref_index_validated_against_nlerefs_table() {
    let bytes = nleref_tcref(5);
    let mut s = empty_state(&bytes);
    s.nlerefs_len = 2;
    match read_tcref(&mut s) {
        Err(ImportError::DanglingPickleRef {
            kind: "nleref",
            index: 5,
        }) => {}
        other => panic!("expected DanglingPickleRef for nleref, got {other:?}"),
    }
}

#[test]
fn tag_1_app_simple_b_absent_yields_ambivalent() {
    let primary = [b(1), b(3)];
    let t = read_one(&primary).unwrap();
    assert_eq!(
        t,
        PickledType::AppSimple {
            simpletyp_index: 3,
            nullness: Nullness::Ambivalent,
        }
    );
}

#[test]
fn tag_1_app_simple_b_nullness_values() {
    let primary = [b(1), b(3)];
    let t = read_one_dual(&primary, &[9]).unwrap();
    assert_eq!(
        t,
        PickledType::AppSimple {
            simpletyp_index: 3,
            nullness: Nullness::WithNull,
        }
    );
    let t = read_one_dual(&primary, &[10]).unwrap();
    assert_eq!(
        t,
        PickledType::AppSimple {
            simpletyp_index: 3,
            nullness: Nullness::WithoutNull,
        }
    );
    let t = read_one_dual(&primary, &[11]).unwrap();
    assert_eq!(
        t,
        PickledType::AppSimple {
            simpletyp_index: 3,
            nullness: Nullness::Ambivalent,
        }
    );
}

#[test]
fn tag_1_app_simple_rejects_unknown_b_tag() {
    let primary = [b(1), b(3)];
    match read_one_dual(&primary, &[42]) {
        Err(ImportError::UnsupportedPickleTag {
            context: "u_ty - 1/B",
            tag: 42,
        }) => {}
        other => panic!("unexpected: {other:?}"),
    }
}

#[test]
fn tag_2_app_full_decodes() {
    let inner_var = [b(4), b(2)];
    let mut bytes = vec![b(2)];
    bytes.extend(nleref_tcref(7));
    bytes.extend(arr(1, &inner_var));
    let t = read_one(&bytes).unwrap();
    assert_eq!(
        t,
        PickledType::App {
            tcref: PickledTcRef::NonLocal(7),
            args: vec![PickledType::Var {
                typar_index: 2,
                nullness: Nullness::Ambivalent
            }],
            nullness: Nullness::Ambivalent,
        }
    );

    let t = read_one_dual(&bytes, &[12]).unwrap();
    match t {
        PickledType::App { nullness, .. } => assert_eq!(nullness, Nullness::WithNull),
        other => panic!("expected App, got {other:?}"),
    }
    let t = read_one_dual(&bytes, &[13]).unwrap();
    match t {
        PickledType::App { nullness, .. } => assert_eq!(nullness, Nullness::WithoutNull),
        other => panic!("expected App, got {other:?}"),
    }
    let t = read_one_dual(&bytes, &[14]).unwrap();
    match t {
        PickledType::App { nullness, .. } => assert_eq!(nullness, Nullness::Ambivalent),
        other => panic!("expected App, got {other:?}"),
    }
}

#[test]
fn tag_3_fun_b_tags() {
    let inner_var = [b(4), b(0)];
    let mut primary = vec![b(3)];
    primary.extend_from_slice(&inner_var);
    primary.extend_from_slice(&inner_var);
    let t = read_one(&primary).unwrap();
    assert!(matches!(
        t,
        PickledType::Fun {
            nullness: Nullness::Ambivalent,
            ..
        }
    ));

    for (tag_b, expected) in [
        (15, Nullness::WithNull),
        (16, Nullness::WithoutNull),
        (17, Nullness::Ambivalent),
    ] {
        let t = read_one_dual(&primary, &[tag_b]).unwrap();
        match t {
            PickledType::Fun { nullness, .. } => assert_eq!(nullness, expected),
            other => panic!("expected Fun, got {other:?}"),
        }
    }
}

#[test]
fn tag_4_var_b_tags() {
    let primary = [b(4), b(11)];
    let t = read_one(&primary).unwrap();
    assert_eq!(
        t,
        PickledType::Var {
            typar_index: 11,
            nullness: Nullness::Ambivalent,
        }
    );
    for (tag_b, expected) in [
        (18u8, Nullness::WithNull),
        (19, Nullness::WithoutNull),
        (20, Nullness::Ambivalent),
    ] {
        let t = read_one_dual(&primary, &[tag_b]).unwrap();
        match t {
            PickledType::Var { nullness, .. } => assert_eq!(nullness, expected),
            other => panic!("expected Var, got {other:?}"),
        }
    }
}

#[test]
fn tag_5_forall_decodes_with_typar_osgn() {
    let strings = vec!["T".to_string()];
    let pubpaths: Vec<Vec<u32>> = vec![];

    let mut body = vec![
        b(5),
        b(1),
        b(0),
        b(0),
        b(0),
        b(0),
        b(0),
        b(0),
        b(0),
        b(0),
        b(0),
        b(0),
        b(0),
        b(0),
    ];
    body.extend_from_slice(&[b(4), b(0)]);

    let mut r = PickleReader::new(&body);
    r.attach_tables(&strings, &pubpaths);
    let mut s = PhaseOneState::with_capacities(r, 0, 1, 0);
    let t = read_ty(&mut s).unwrap();
    match t {
        PickledType::Forall { typars, body } => {
            assert_eq!(typars, vec![0]);
            assert_eq!(
                *body,
                PickledType::Var {
                    typar_index: 0,
                    nullness: Nullness::Ambivalent,
                }
            );
        }
        other => panic!("expected Forall, got {other:?}"),
    }
    assert!(s.reader.is_eof());
}

#[test]
fn tag_6_measure_one() {
    let bytes = [b(6), b(4)];
    let t = read_one(&bytes).unwrap();
    assert_eq!(t, PickledType::Measure(Measure::One));
}

#[test]
fn tag_7_ucase_decodes() {
    let bytes = [b(7), 1, b(1), b(4), b(0)];
    let t = read_one(&bytes).unwrap();
    assert_eq!(
        t,
        PickledType::UCase {
            ucref: PickledUCaseRef {
                tcref: PickledTcRef::NonLocal(1),
                case_name_index: 4,
            },
            args: vec![],
        }
    );
}

#[test]
fn tag_8_tuple_struct() {
    let bytes = [b(8), b(0)];
    let t = read_one(&bytes).unwrap();
    assert_eq!(
        t,
        PickledType::Tuple {
            kind: TupleKind::Struct,
            elems: vec![],
        }
    );
}

#[test]
fn tag_9_anon_is_deferred() {
    let bytes = [b(9)];
    let mut s = empty_state(&bytes);
    match read_ty(&mut s) {
        Err(ImportError::UnsupportedPickleTag { context, tag: 9 }) => {
            assert!(
                context.contains("Anon"),
                "context should name Anon: {context}"
            );
        }
        other => panic!("unexpected: {other:?}"),
    }
}

#[test]
fn unknown_top_level_tag_errors() {
    let bytes = [b(42)];
    let mut s = empty_state(&bytes);
    match read_ty(&mut s) {
        Err(ImportError::UnsupportedPickleTag {
            context: "u_ty tag",
            tag: 42,
        }) => {}
        other => panic!("unexpected: {other:?}"),
    }
}

#[test]
fn u_tcref_local_decodes_stamp() {
    let bytes = [b(0), b(7)];
    let mut s = PhaseOneState::with_capacities(PickleReader::new(&bytes), 16, 0, 0);
    assert_eq!(read_tcref(&mut s).unwrap(), PickledTcRef::Local(7));
    assert!(s.reader.is_eof());
}

#[test]
fn u_tcref_local_out_of_range_errors() {
    let bytes = [b(0), b(7)];
    let mut s = PhaseOneState::with_capacities(PickleReader::new(&bytes), 5, 0, 0);
    match read_tcref(&mut s) {
        Err(ImportError::OsgnIndexOutOfRange {
            kind: "tycons",
            index: 7,
            max: 5,
        }) => {}
        other => panic!("expected OsgnIndexOutOfRange for tycons, got {other:?}"),
    }
}

#[test]
fn u_tpref_out_of_range_errors() {
    let bytes = [b(3)];
    let mut s = PhaseOneState::with_capacities(PickleReader::new(&bytes), 0, 2, 0);
    match read_tpref(&mut s) {
        Err(ImportError::OsgnIndexOutOfRange {
            kind: "typars",
            index: 3,
            max: 2,
        }) => {}
        other => panic!("expected OsgnIndexOutOfRange for typars, got {other:?}"),
    }
}

#[test]
fn u_tcref_rejects_unknown_tag() {
    let bytes = [b(7)];
    let mut s = PhaseOneState::with_capacities(PickleReader::new(&bytes), 0, 0, 0);
    match read_tcref(&mut s) {
        Err(ImportError::UnsupportedPickleTag {
            context: "u_tcref tag",
            tag: 7,
        }) => {}
        other => panic!("unexpected: {other:?}"),
    }
}
