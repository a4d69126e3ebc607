//! Type parameters in a pickle.
use borzoi_assembly::error::ImportError;
use borzoi_assembly::fsharp_pickle::leaves::read_ident;
use borzoi_assembly::fsharp_pickle::model::{
    FSharpTyparConstraint, Nullness, PickledPos, PickledRange, PickledType,
};
use borzoi_assembly::fsharp_pickle::osgn::PhaseOneState;
use borzoi_assembly::fsharp_pickle::reader::PickleReader;
use borzoi_assembly::fsharp_pickle::typar::{read_tyar_spec, read_tyar_spec_data, read_tyar_specs};

fn make_state<'a>(bytes: &'a [u8], strings: &'a [String]) -> PhaseOneState<'a> {
    let mut r = PickleReader::new(bytes);
    let pubpaths: &'a [Vec<u32>] = &[];
    r.attach_tables(strings, pubpaths);
    PhaseOneState::with_capacities(r, 0, 0, 0)
}

fn make_state_typars<'a>(
    bytes: &'a [u8],
    strings: &'a [String],
    ntypars: usize,
) -> PhaseOneState<'a> {
    let mut r = PickleReader::new(bytes);
    let pubpaths: &'a [Vec<u32>] = &[];
    r.attach_tables(strings, pubpaths);
    PhaseOneState::with_capacities(r, 0, ntypars, 0)
}

#[test]
fn ident_round_trip() {
    let strings = vec!["T".to_string(), "src.fs".to_string()];
    let bytes = vec![
        0u8,
        1u8,
        1u8,
        0u8,
        1u8,
        1u8,
    ];
    let mut r = PickleReader::new(&bytes);
    let pubpaths: &[Vec<u32>] = &[];
    r.attach_tables(&strings, pubpaths);
    let id = read_ident(&mut r).unwrap();
    assert_eq!(id.name, "T");
    assert_eq!(
        id.range,
        PickledRange {
            file: 1,
            start: PickledPos { line: 1, column: 0 },
            end: PickledPos { line: 1, column: 1 },
        }
    );
    assert!(r.is_eof());
}

#[test]
fn tyar_spec_data_minimal_round_trip() {
    let strings = vec!["T".to_string(), "src.fs".to_string()];
    let bytes = vec![
        0u8,
        1u8,
        1u8, 0u8,
        1u8, 1u8,
        0u8,
        0u8, 0u8,
        0u8,
        0u8,
    ];
    let mut s = make_state(&bytes, &strings);
    let data = read_tyar_spec_data(&mut s).unwrap();
    assert_eq!(data.ident.name, "T");
    assert!(data.attribs.is_empty());
    assert_eq!(data.flags, 0);
    assert!(data.constraints.is_empty());
    assert!(data.xmldoc.lines.is_empty());
    assert!(s.reader.is_eof());
}

#[test]
fn tyar_spec_data_with_constraint() {
    let strings = vec!["T".to_string(), "src.fs".to_string()];
    let bytes = vec![
        0u8, 1u8, 1u8, 0u8, 1u8, 1u8,
        0u8,
        0u8, 0u8,
        1u8,
        0u8,
        1u8,
        0u8,
        0u8,
    ];
    let mut s = make_state(&bytes, &strings);
    let data = read_tyar_spec_data(&mut s).unwrap();
    assert_eq!(data.ident.name, "T");
    assert_eq!(data.constraints.len(), 1);
    match &data.constraints[0] {
        FSharpTyparConstraint::CoercesTo(PickledType::AppSimple {
            simpletyp_index: 0,
            nullness: Nullness::Ambivalent,
        }) => {}
        other => panic!("unexpected: {other:?}"),
    }
    assert!(s.reader.is_eof());
}

#[test]
fn tyar_spec_osgn_decl_round_trip() {
    let strings = vec!["T".to_string(), "src.fs".to_string()];
    let bytes = vec![
        0u8,
        0u8, 1u8, 1u8, 0u8, 1u8, 1u8,
        0u8,
        0u8, 0u8,
        0u8,
        0u8,
    ];
    let mut s = make_state_typars(&bytes, &strings, 1);
    let idx = read_tyar_spec(&mut s).unwrap();
    assert_eq!(idx, 0);
    assert!(s.itypars.get(0).is_ok());
}

#[test]
fn tyar_specs_list_round_trip() {
    let strings = vec!["T".to_string(), "src.fs".to_string()];
    let one_spec_at = |idx: u8| {
        vec![
            idx,
            0u8, 1u8, 1u8, 0u8, 1u8, 1u8,
            0u8,
            0u8, 0u8,
            0u8,
            0u8,
        ]
    };
    let mut bytes = vec![2u8];
    bytes.extend(one_spec_at(0));
    bytes.extend(one_spec_at(1));
    let mut s = make_state_typars(&bytes, &strings, 2);
    let idxs = read_tyar_specs(&mut s).unwrap();
    assert_eq!(idxs, vec![0, 1]);
    assert!(s.reader.is_eof());
}

#[test]
fn tyar_spec_out_of_range_errors() {
    let strings = vec!["T".to_string(), "src.fs".to_string()];
    let bytes = vec![5u8];
    let mut s = make_state_typars(&bytes, &strings, 2);
    match read_tyar_spec(&mut s) {
        Err(ImportError::OsgnIndexOutOfRange {
            kind: "typars",
            index: 5,
            max: 2,
        }) => {}
        other => panic!("unexpected: {other:?}"),
    }
}
