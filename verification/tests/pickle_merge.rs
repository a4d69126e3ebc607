//! The overlays of a pickle on an entity tree.
use borzoi_assembly::error::ImportError;
use borzoi_assembly::fsharp_pickle::model::{
    CcuRef, IsType, Measure, Nullness, PickledAccess, PickledArgReprInfo,
    PickledCPath, PickledCcu, PickledConst, PickledEntity, PickledExnRepr, PickledHeader,
    PickledILScopeRef, PickledIdent, PickledMemberFlags, PickledMemberInfo, PickledMemberKind,
    PickledModulType, PickledNleRef, PickledOsgnTables, PickledParentRef, PickledPos,
    PickledRange, PickledTcAug, PickledTcRef, PickledTyconObjModelData, PickledTyconObjModelKind,
    PickledTyconRepr, PickledTyparReprInfo, PickledTyparSpecData, PickledType, PickledUCaseRef,
    PickledVal, PickledValReprInfo, PickledXmlDoc, TupleKind, TyparKind,
};
use borzoi_assembly::fsharp_pickle_merge::abbreviations::apply_abbreviation_markers;
use borzoi_assembly::fsharp_pickle_merge::entity_overlay::apply_entity_overlay;
use borzoi_assembly::fsharp_pickle_merge::extension_index::apply_extension_member_index;
use borzoi_assembly::fsharp_pickle_merge::lookup::{find_entity_mut, find_entity_unique_mut};
use borzoi_assembly::fsharp_pickle_merge::measure::{apply_measure_overlay, merge_measure_entities};
use borzoi_assembly::fsharp_pickle_merge::member_list::apply_module_member_projection;
use borzoi_assembly::fsharp_pickle_merge::module_vals::{
    ModuleMemberVal, collect_module_member_targets, val_il_arity,
};
use borzoi_assembly::fsharp_pickle_merge::names::{
    ENTITY_FLAGS_IS_MODULE_OR_NAMESPACE, VAL_FLAGS_IS_EXTENSION_MEMBER, entity_source_name,
    is_measure_free,
};
use borzoi_assembly::fsharp_pickle_merge::order::apply_declaration_order;
use borzoi_assembly::fsharp_pickle_merge::targets::{decode_abbreviation_target, local_tycon_fqns};
use borzoi_assembly::fsharp_pickle_merge::union_cases::apply_union_case_names;
use borzoi_assembly::fsharp_pickle_merge::walk::walk;
use borzoi_assembly::model::{
    AbbreviationTarget, Access, AssemblyIdentity, Augmentation, Entity, EntityKind, Field, Member,
    MethodLike, MethodSignature, ModuleValue, Nullability, ParamDefault, Parameter, Primitive,
    TypeRef, Version,
};

fn dummy_assembly() -> AssemblyIdentity {
    AssemblyIdentity {
        name: "Test".to_string(),
        version: Version {
            major: 1,
            minor: 0,
            build: 0,
            revision: 0,
        },
        public_key_token: None,
    }
}

fn dummy_range() -> PickledRange {
    PickledRange {
        file: 0,
        start: PickledPos { line: 0, column: 0 },
        end: PickledPos { line: 0, column: 0 },
    }
}

fn empty_modul_typ() -> PickledModulType {
    PickledModulType {
        is_type: IsType::Namespace,
        vals: Vec::new(),
        entities: Vec::new(),
    }
}

fn module_modul_typ(entities: Vec<u32>) -> PickledModulType {
    PickledModulType {
        is_type: IsType::ModuleOrType,
        vals: Vec::new(),
        entities,
    }
}

fn module_suffix_modul_typ(entities: Vec<u32>) -> PickledModulType {
    PickledModulType {
        is_type: IsType::FSharpModuleWithSuffix,
        vals: Vec::new(),
        entities,
    }
}

fn empty_tcaug() -> PickledTcAug {
    PickledTcAug {
        compare: None,
        compare_withc: None,
        hash_and_equals_withc: None,
        equals: None,
        adhoc: Vec::new(),
        interfaces: Vec::new(),
        super_type: None,
        is_abstract: false,
    }
}

fn make_entity(
    logical_name: &str,
    repr: PickledTyconRepr,
    modul_typ: PickledModulType,
) -> PickledEntity {
    make_entity_kinded(logical_name, repr, modul_typ, TyparKind::Type)
}

fn make_entity_kinded(
    logical_name: &str,
    repr: PickledTyconRepr,
    modul_typ: PickledModulType,
    typar_kind: TyparKind,
) -> PickledEntity {
    PickledEntity {
        typars: Vec::new(),
        logical_name: logical_name.to_string(),
        compiled_name: None,
        range: dummy_range(),
        pub_path: None,
        access: PickledAccess::new(),
        repr_access: PickledAccess::new(),
        attribs: Vec::new(),
        repr,
        type_abbrev: None,
        tcaug: empty_tcaug(),
        typar_kind,
        flags: 0,
        cpath: None,
        module_type: modul_typ,
        exn_repr: PickledExnRepr::NotException,
        xmldoc: None,
    }
}

fn make_ecma_entity(namespace: Vec<&str>, name: &str, kind: EntityKind) -> Entity {
    Entity {
        extension_member_names: Vec::new(),
        union_case_names: None,
        static_extension_member_names: Vec::new(),
        is_extension_container: false,
        assembly: dummy_assembly(),
        namespace: namespace.into_iter().map(String::from).collect(),
        name: name.to_string(),
        kind,
        access: Access::Public,
        generic_parameters: Vec::new(),
        base_type: None,
        interfaces: Vec::new(),
        members: Vec::new(),
        skipped_members: Vec::new(),
        method_def_tokens: Vec::new(),
        is_sealed: false,
        nested_types: Vec::new(),
        is_readonly: false,
        is_byref_like: false,
        is_struct: false,
        is_auto_open: false,
        is_require_qualified_access: false,
        is_no_equality: false,
        is_no_comparison: false,
        is_structural_equality: false,
        is_structural_comparison: false,
        is_allow_null_literal: false,
        obsolete: None,
        experimental: None,
        default_member: None,
        compiler_feature_required: Vec::new(),
        source_name: None,
        custom_attrs: Vec::new(),
        abbreviation_target: None,
        definition_range: None,
    }
}

fn measure_object_model_repr() -> PickledTyconRepr {
    PickledTyconRepr::FSharpObjectModel(PickledTyconObjModelData {
        kind: PickledTyconObjModelKind::Class,
        vslots: Vec::new(),
        rfields: Vec::new(),
    })
}

fn ccu_with_two_measures() -> PickledCcu {
    let m = make_entity_kinded(
        "m",
        measure_object_model_repr(),
        empty_modul_typ(),
        TyparKind::Measure,
    );
    let kg = make_entity_kinded(
        "kg",
        measure_object_model_repr(),
        empty_modul_typ(),
        TyparKind::Measure,
    );
    let _ = Nullness::Ambivalent;
    let _ = PickledType::Var {
        typar_index: 0,
        nullness: Nullness::Ambivalent,
    };
    let mut minilibfs_modul = empty_modul_typ();
    minilibfs_modul.entities = vec![2, 3];
    let minilibfs = make_entity("MiniLibFs", PickledTyconRepr::NoRepr, minilibfs_modul);
    let mut root_modul = empty_modul_typ();
    root_modul.entities = vec![1];
    let root = make_entity("MiniLibFs", PickledTyconRepr::NoRepr, root_modul);

    PickledCcu {
        header: PickledHeader {
            ccu_refs: vec![CcuRef {
                name: "FSharp.Core".to_string(),
            }],
            ntycons: 4,
            ntypars: 0,
            nvals: 0,
            nanoninfos: 0,
            strings: Vec::new(),
            pubpaths: Vec::new(),
            nlerefs: Vec::new(),
            simpletys: Vec::new(),
            phase1_bytes: Vec::new(),
        },
        root_entity: 0,
        compile_time_working_dir: String::new(),
        uses_quotations: false,
        tables: PickledOsgnTables {
            tycons: vec![root, minilibfs, m, kg],
            typars: Vec::new(),
            vals: Vec::new(),
        },
    }
}

fn type_modul_typ() -> PickledModulType {
    PickledModulType {
        is_type: IsType::ModuleOrType,
        vals: Vec::new(),
        entities: Vec::new(),
    }
}

fn abbrev_test_ccu() -> PickledCcu {
    let point = make_entity("Point", PickledTyconRepr::NoRepr, type_modul_typ());
    let mut demo_modul = empty_modul_typ();
    demo_modul.entities = vec![2];
    let demo = make_entity("Demo", PickledTyconRepr::NoRepr, demo_modul);
    let mut root_modul = empty_modul_typ();
    root_modul.entities = vec![1];
    let root = make_entity("Demo", PickledTyconRepr::NoRepr, root_modul);
    PickledCcu {
        header: PickledHeader {
            ccu_refs: vec![CcuRef {
                name: "FSharp.Core".to_string(),
            }],
            ntycons: 3,
            ntypars: 0,
            nvals: 0,
            nanoninfos: 0,
            strings: ["Microsoft", "FSharp", "Core", "int"]
                .iter()
                .map(|s| s.to_string())
                .collect(),
            pubpaths: Vec::new(),
            nlerefs: vec![
                PickledNleRef {
                    ccu: 0,
                    path: vec![0, 1, 2, 3],
                },
                PickledNleRef {
                    ccu: 99,
                    path: vec![0],
                },
                PickledNleRef {
                    ccu: 0,
                    path: vec![99],
                },
            ],
            simpletys: vec![0],
            phase1_bytes: Vec::new(),
        },
        root_entity: 0,
        compile_time_working_dir: String::new(),
        uses_quotations: false,
        tables: PickledOsgnTables {
            tycons: vec![root, demo, point],
            typars: Vec::new(),
            vals: Vec::new(),
        },
    }
}

fn alias_entity() -> PickledEntity {
    make_entity("Alias", PickledTyconRepr::NoRepr, empty_modul_typ())
}

const AMB: Nullness = Nullness::Ambivalent;

fn int_target() -> AbbreviationTarget {
    AbbreviationTarget::Named {
        ccu: Some("FSharp.Core".to_string()),
        path: vec![
            "Microsoft".into(),
            "FSharp".into(),
            "Core".into(),
            "int".into(),
        ],
        args: Vec::new(),
    }
}

#[test]
fn decode_resolves_nonlocal_appsimple_and_local_heads() {
    let ccu = abbrev_test_ccu();
    let local = local_tycon_fqns(&ccu).unwrap();
    let entity = alias_entity();

    let app = PickledType::App {
        tcref: PickledTcRef::NonLocal(0),
        args: Vec::new(),
        nullness: AMB,
    };
    assert_eq!(
        decode_abbreviation_target(&ccu, &entity, &app, &local).unwrap(),
        Some(int_target()),
    );

    let simple = PickledType::AppSimple {
        simpletyp_index: 0,
        nullness: AMB,
    };
    assert_eq!(
        decode_abbreviation_target(&ccu, &entity, &simple, &local).unwrap(),
        Some(int_target()),
    );

    let local_app = PickledType::App {
        tcref: PickledTcRef::Local(2),
        args: Vec::new(),
        nullness: AMB,
    };
    assert_eq!(
        decode_abbreviation_target(&ccu, &entity, &local_app, &local).unwrap(),
        Some(AbbreviationTarget::Named {
            ccu: None,
            path: vec!["Demo".into(), "Point".into()],
            args: Vec::new(),
        }),
    );
}

#[test]
fn decode_resolves_typar_by_position_through_forall() {
    let ccu = abbrev_test_ccu();
    let local = local_tycon_fqns(&ccu).unwrap();
    let mut entity = alias_entity();
    entity.typars = vec![7, 9];

    let var = PickledType::Var {
        typar_index: 9,
        nullness: AMB,
    };
    assert_eq!(
        decode_abbreviation_target(&ccu, &entity, &var, &local).unwrap(),
        Some(AbbreviationTarget::Var(1)),
    );

    let forall = PickledType::Forall {
        typars: vec![7, 9],
        body: Box::new(PickledType::Var {
            typar_index: 7,
            nullness: AMB,
        }),
    };
    assert_eq!(
        decode_abbreviation_target(&ccu, &entity, &forall, &local).unwrap(),
        Some(AbbreviationTarget::Var(0)),
    );

    let oob = PickledType::Var {
        typar_index: 99,
        nullness: AMB,
    };
    assert_eq!(
        decode_abbreviation_target(&ccu, &entity, &oob, &local).unwrap(),
        None,
    );
}

#[test]
fn decode_resolves_structural_and_generic_shapes() {
    let ccu = abbrev_test_ccu();
    let local = local_tycon_fqns(&ccu).unwrap();
    let entity = alias_entity();
    let int = || PickledType::AppSimple {
        simpletyp_index: 0,
        nullness: AMB,
    };

    let generic = PickledType::App {
        tcref: PickledTcRef::NonLocal(0),
        args: vec![int()],
        nullness: AMB,
    };
    assert_eq!(
        decode_abbreviation_target(&ccu, &entity, &generic, &local).unwrap(),
        Some(AbbreviationTarget::Named {
            ccu: Some("FSharp.Core".to_string()),
            path: vec![
                "Microsoft".into(),
                "FSharp".into(),
                "Core".into(),
                "int".into(),
            ],
            args: vec![int_target()],
        }),
    );

    let func = PickledType::Fun {
        domain: Box::new(int()),
        range: Box::new(int()),
        nullness: AMB,
    };
    assert_eq!(
        decode_abbreviation_target(&ccu, &entity, &func, &local).unwrap(),
        Some(AbbreviationTarget::Fun(
            Box::new(int_target()),
            Box::new(int_target()),
        )),
    );

    for (kind, struct_kind) in [(TupleKind::Reference, false), (TupleKind::Struct, true)] {
        let tuple = PickledType::Tuple {
            kind,
            elems: vec![int(), int()],
        };
        assert_eq!(
            decode_abbreviation_target(&ccu, &entity, &tuple, &local).unwrap(),
            Some(AbbreviationTarget::Tuple {
                struct_kind,
                elems: vec![int_target(), int_target()],
            }),
        );
    }
}

#[test]
fn decode_declines_measure_and_union_case_and_partial_args() {
    let ccu = abbrev_test_ccu();
    let local = local_tycon_fqns(&ccu).unwrap();
    let entity = alias_entity();
    let unmodellable = PickledType::Var {
        typar_index: 5,
        nullness: AMB,
    };
    let good = || PickledType::AppSimple {
        simpletyp_index: 0,
        nullness: AMB,
    };

    let declined = [
        PickledType::Measure(Measure::One),
        PickledType::UCase {
            ucref: PickledUCaseRef {
                tcref: PickledTcRef::NonLocal(0),
                case_name_index: 0,
            },
            args: Vec::new(),
        },
        PickledType::App {
            tcref: PickledTcRef::NonLocal(0),
            args: vec![unmodellable.clone()],
            nullness: AMB,
        },
        PickledType::Tuple {
            kind: TupleKind::Reference,
            elems: vec![good(), unmodellable],
        },
        PickledType::Tuple {
            kind: TupleKind::Reference,
            elems: vec![],
        },
        PickledType::Tuple {
            kind: TupleKind::Struct,
            elems: vec![good()],
        },
    ];
    for ty in declined {
        assert_eq!(
            decode_abbreviation_target(&ccu, &entity, &ty, &local).unwrap(),
            None,
            "{ty:?} must decline",
        );
    }
}

#[test]
fn decode_fails_loud_on_dangling_indices() {
    let ccu = abbrev_test_ccu();
    let local = local_tycon_fqns(&ccu).unwrap();
    let entity = alias_entity();

    let danglers = [
        PickledType::App {
            tcref: PickledTcRef::NonLocal(999),
            args: Vec::new(),
            nullness: AMB,
        },
        PickledType::App {
            tcref: PickledTcRef::NonLocal(1),
            args: Vec::new(),
            nullness: AMB,
        },
        PickledType::App {
            tcref: PickledTcRef::NonLocal(2),
            args: Vec::new(),
            nullness: AMB,
        },
        PickledType::AppSimple {
            simpletyp_index: 999,
            nullness: AMB,
        },
        PickledType::App {
            tcref: PickledTcRef::Local(999),
            args: Vec::new(),
            nullness: AMB,
        },
    ];
    for ty in danglers {
        assert!(
            matches!(
                decode_abbreviation_target(&ccu, &entity, &ty, &local),
                Err(ImportError::OsgnIndexOutOfRange { .. })
            ),
            "{ty:?} must fail loud as OsgnIndexOutOfRange",
        );
    }
}

#[test]
fn decode_declines_in_range_local_that_is_not_a_type() {
    let ccu = abbrev_test_ccu();
    let local = local_tycon_fqns(&ccu).unwrap();
    let entity = alias_entity();
    let ns_ref = PickledType::App {
        tcref: PickledTcRef::Local(1),
        args: Vec::new(),
        nullness: AMB,
    };
    assert_eq!(
        decode_abbreviation_target(&ccu, &entity, &ns_ref, &local).unwrap(),
        None,
    );
}

#[test]
fn upgrades_class_to_measure_on_fqn_match() {
    let pickled = ccu_with_two_measures();
    let mut entities = vec![
        make_ecma_entity(vec!["MiniLibFs"], "m", EntityKind::Class),
        make_ecma_entity(vec!["MiniLibFs"], "kg", EntityKind::Class),
        make_ecma_entity(vec!["MiniLibFs"], "Point", EntityKind::Record),
    ];

    merge_measure_entities(&mut entities, &pickled).expect("merge");

    assert_eq!(entities[0].kind, EntityKind::Measure);
    assert_eq!(entities[1].kind, EntityKind::Measure);
    assert_eq!(entities[2].kind, EntityKind::Record);
}

#[test]
fn errors_when_pickled_measure_has_no_ecma_row() {
    let pickled = ccu_with_two_measures();
    let mut entities = vec![make_ecma_entity(vec!["MiniLibFs"], "m", EntityKind::Class)];

    let err = merge_measure_entities(&mut entities, &pickled).unwrap_err();
    match err {
        ImportError::FsharpPickleMergeMismatch { detail } => {
            assert!(detail.contains("MiniLibFs.kg"), "got: {detail}");
            assert!(detail.contains("no matching ECMA"), "got: {detail}");
        }
        other => panic!("expected FsharpPickleMergeMismatch, got {other:?}"),
    }
}

#[test]
fn errors_when_ecma_kind_is_not_class() {
    let pickled = ccu_with_two_measures();
    let mut entities = vec![
        make_ecma_entity(vec!["MiniLibFs"], "m", EntityKind::Struct),
        make_ecma_entity(vec!["MiniLibFs"], "kg", EntityKind::Class),
    ];

    let err = merge_measure_entities(&mut entities, &pickled).unwrap_err();
    match err {
        ImportError::FsharpPickleMergeMismatch { detail } => {
            assert!(detail.contains("MiniLibFs.m"), "got: {detail}");
            assert!(detail.contains("Struct"), "got: {detail}");
        }
        other => panic!("expected FsharpPickleMergeMismatch, got {other:?}"),
    }
}

#[test]
fn idempotent_on_already_merged_tree() {
    let pickled = ccu_with_two_measures();
    let mut entities = vec![
        make_ecma_entity(vec!["MiniLibFs"], "m", EntityKind::Measure),
        make_ecma_entity(vec!["MiniLibFs"], "kg", EntityKind::Measure),
    ];

    merge_measure_entities(&mut entities, &pickled).expect("idempotent merge");
    assert_eq!(entities[0].kind, EntityKind::Measure);
    assert_eq!(entities[1].kind, EntityKind::Measure);
}

#[test]
fn ignores_measure_abbreviation_with_no_ecma_row() {
    let m = make_entity_kinded(
        "m",
        PickledTyconRepr::Measureable(PickledType::Var {
            typar_index: 0,
            nullness: Nullness::Ambivalent,
        }),
        empty_modul_typ(),
        TyparKind::Measure,
    );
    let kg = make_entity_kinded(
        "kg",
        measure_object_model_repr(),
        empty_modul_typ(),
        TyparKind::Measure,
    );
    let mut ns_modul = empty_modul_typ();
    ns_modul.entities = vec![2, 3];
    let ns = make_entity("MiniLibFs", PickledTyconRepr::NoRepr, ns_modul);
    let mut root_modul = empty_modul_typ();
    root_modul.entities = vec![1];
    let root = make_entity("MiniLibFs", PickledTyconRepr::NoRepr, root_modul);
    let pickled = PickledCcu {
        header: PickledHeader {
            ccu_refs: Vec::new(),
            ntycons: 4,
            ntypars: 0,
            nvals: 0,
            nanoninfos: 0,
            strings: Vec::new(),
            pubpaths: Vec::new(),
            nlerefs: Vec::new(),
            simpletys: Vec::new(),
            phase1_bytes: Vec::new(),
        },
        root_entity: 0,
        compile_time_working_dir: String::new(),
        uses_quotations: false,
        tables: PickledOsgnTables {
            tycons: vec![root, ns, m, kg],
            typars: Vec::new(),
            vals: Vec::new(),
        },
    };

    let mut entities = vec![make_ecma_entity(vec!["MiniLibFs"], "kg", EntityKind::Class)];
    merge_measure_entities(&mut entities, &pickled).expect("merge skips abbreviation");
    assert_eq!(entities[0].kind, EntityKind::Measure);
}

#[test]
fn suppresses_named_root_entity_from_fqn_path() {
    let pickled = ccu_with_two_measures();
    assert_eq!(
        pickled.tables.tycons[pickled.root_entity as usize].logical_name,
        "MiniLibFs"
    );
    let mut entities = vec![
        make_ecma_entity(vec!["MiniLibFs"], "m", EntityKind::Class),
        make_ecma_entity(vec!["MiniLibFs"], "kg", EntityKind::Class),
    ];
    merge_measure_entities(&mut entities, &pickled).expect("merge with named root");
    assert_eq!(entities[0].kind, EntityKind::Measure);
    assert_eq!(entities[1].kind, EntityKind::Measure);
}

#[test]
fn upgrades_module_scoped_measure_in_nested_types() {
    let m = make_entity_kinded(
        "m",
        measure_object_model_repr(),
        empty_modul_typ(),
        TyparKind::Measure,
    );
    let units = make_entity("Units", PickledTyconRepr::NoRepr, module_modul_typ(vec![3]));
    let mut myapp_modul = empty_modul_typ();
    myapp_modul.entities = vec![2];
    let myapp = make_entity("MyApp", PickledTyconRepr::NoRepr, myapp_modul);
    let mut root_modul = empty_modul_typ();
    root_modul.entities = vec![1];
    let root = make_entity("Test", PickledTyconRepr::NoRepr, root_modul);
    let pickled = PickledCcu {
        header: PickledHeader {
            ccu_refs: Vec::new(),
            ntycons: 4,
            ntypars: 0,
            nvals: 0,
            nanoninfos: 0,
            strings: Vec::new(),
            pubpaths: Vec::new(),
            nlerefs: Vec::new(),
            simpletys: Vec::new(),
            phase1_bytes: Vec::new(),
        },
        root_entity: 0,
        compile_time_working_dir: String::new(),
        uses_quotations: false,
        tables: PickledOsgnTables {
            tycons: vec![root, myapp, units, m],
            typars: Vec::new(),
            vals: Vec::new(),
        },
    };

    let mut units_ecma = make_ecma_entity(vec!["MyApp"], "Units", EntityKind::Module);
    units_ecma
        .nested_types
        .push(make_ecma_entity(vec![], "m", EntityKind::Class));
    let mut entities = vec![units_ecma];

    merge_measure_entities(&mut entities, &pickled).expect("merge module-scoped measure");
    assert_eq!(entities[0].kind, EntityKind::Module);
    assert_eq!(entities[0].nested_types[0].kind, EntityKind::Measure);
}

#[test]
fn upgrades_module_suffix_scoped_measure_using_clr_name() {
    let m = make_entity_kinded(
        "m",
        measure_object_model_repr(),
        empty_modul_typ(),
        TyparKind::Measure,
    );
    let units = make_entity(
        "UnitsModule",
        PickledTyconRepr::NoRepr,
        module_suffix_modul_typ(vec![3]),
    );
    let mut ns_modul = empty_modul_typ();
    ns_modul.entities = vec![2];
    let ns = make_entity("ModSuffix", PickledTyconRepr::NoRepr, ns_modul);
    let mut root_modul = empty_modul_typ();
    root_modul.entities = vec![1];
    let root = make_entity("ModSuffix", PickledTyconRepr::NoRepr, root_modul);
    let pickled = PickledCcu {
        header: PickledHeader {
            ccu_refs: Vec::new(),
            ntycons: 4,
            ntypars: 0,
            nvals: 0,
            nanoninfos: 0,
            strings: Vec::new(),
            pubpaths: Vec::new(),
            nlerefs: Vec::new(),
            simpletys: Vec::new(),
            phase1_bytes: Vec::new(),
        },
        root_entity: 0,
        compile_time_working_dir: String::new(),
        uses_quotations: false,
        tables: PickledOsgnTables {
            tycons: vec![root, ns, units, m],
            typars: Vec::new(),
            vals: Vec::new(),
        },
    };

    let mut units_ecma = make_ecma_entity(vec!["ModSuffix"], "UnitsModule", EntityKind::Module);
    units_ecma
        .nested_types
        .push(make_ecma_entity(vec![], "m", EntityKind::Class));
    let mut entities = vec![units_ecma];

    merge_measure_entities(&mut entities, &pickled).expect("merge module-suffix measure");
    assert_eq!(entities[0].kind, EntityKind::Module);
    assert_eq!(entities[0].nested_types[0].kind, EntityKind::Measure);
}

#[test]
fn matches_measure_by_compiled_name_not_logical_name() {
    let mut m = make_entity_kinded(
        "m",
        measure_object_model_repr(),
        empty_modul_typ(),
        TyparKind::Measure,
    );
    m.compiled_name = Some("Metre".to_string());
    let mut ns_modul = empty_modul_typ();
    ns_modul.entities = vec![2];
    let ns = make_entity("MiniLibFs", PickledTyconRepr::NoRepr, ns_modul);
    let mut root_modul = empty_modul_typ();
    root_modul.entities = vec![1];
    let root = make_entity("MiniLibFs", PickledTyconRepr::NoRepr, root_modul);
    let pickled = PickledCcu {
        header: PickledHeader {
            ccu_refs: Vec::new(),
            ntycons: 3,
            ntypars: 0,
            nvals: 0,
            nanoninfos: 0,
            strings: Vec::new(),
            pubpaths: Vec::new(),
            nlerefs: Vec::new(),
            simpletys: Vec::new(),
            phase1_bytes: Vec::new(),
        },
        root_entity: 0,
        compile_time_working_dir: String::new(),
        uses_quotations: false,
        tables: PickledOsgnTables {
            tycons: vec![root, ns, m],
            typars: Vec::new(),
            vals: Vec::new(),
        },
    };

    let mut entities = vec![make_ecma_entity(
        vec!["MiniLibFs"],
        "Metre",
        EntityKind::Class,
    )];
    merge_measure_entities(&mut entities, &pickled).expect("merge by compiled name");
    assert_eq!(entities[0].kind, EntityKind::Measure);
}

#[test]
fn overlay_propagates_genuine_mismatch() {
    let pickled = ccu_with_two_measures();
    let mut entities = vec![make_ecma_entity(vec!["MiniLibFs"], "m", EntityKind::Class)];
    let err = apply_measure_overlay(&mut entities, &pickled)
        .expect_err("missing kg must surface as a hard mismatch");
    assert!(matches!(err, ImportError::FsharpPickleMergeMismatch { .. }));
}

#[test]
fn overlay_upgrades_on_valid_decode() {
    let pickled = ccu_with_two_measures();
    let mut entities = vec![
        make_ecma_entity(vec!["MiniLibFs"], "m", EntityKind::Class),
        make_ecma_entity(vec!["MiniLibFs"], "kg", EntityKind::Class),
    ];
    apply_measure_overlay(&mut entities, &pickled).expect("valid decode merges");
    assert_eq!(entities[0].kind, EntityKind::Measure);
    assert_eq!(entities[1].kind, EntityKind::Measure);
}

#[test]
fn ignores_non_measure_typar_kind() {
    let record = make_entity(
        "Point",
        PickledTyconRepr::Record(Vec::new()),
        empty_modul_typ(),
    );
    let mut minilibfs_modul = empty_modul_typ();
    minilibfs_modul.entities = vec![2];
    let minilibfs = make_entity("MiniLibFs", PickledTyconRepr::NoRepr, minilibfs_modul);
    let mut root_modul = empty_modul_typ();
    root_modul.entities = vec![1];
    let root = make_entity("", PickledTyconRepr::NoRepr, root_modul);
    let pickled = PickledCcu {
        header: PickledHeader {
            ccu_refs: Vec::new(),
            ntycons: 3,
            ntypars: 0,
            nvals: 0,
            nanoninfos: 0,
            strings: Vec::new(),
            pubpaths: Vec::new(),
            nlerefs: Vec::new(),
            simpletys: Vec::new(),
            phase1_bytes: Vec::new(),
        },
        root_entity: 0,
        compile_time_working_dir: String::new(),
        uses_quotations: false,
        tables: PickledOsgnTables {
            tycons: vec![root, minilibfs, record],
            typars: Vec::new(),
            vals: Vec::new(),
        },
    };

    let mut entities = vec![make_ecma_entity(
        vec!["MiniLibFs"],
        "Point",
        EntityKind::Record,
    )];
    merge_measure_entities(&mut entities, &pickled).expect("merge");
    assert_eq!(entities[0].kind, EntityKind::Record);
}

fn ext_test_val(
    compiled_name: Option<&str>,
    flags: i64,
    member_instance: Option<bool>,
) -> PickledVal {
    PickledVal {
        logical_name: "v".to_string(),
        compiled_name: compiled_name.map(str::to_string),
        range: None,
        other_range: None,
        ty: PickledType::Tuple {
            kind: TupleKind::Reference,
            elems: Vec::new(),
        },
        flags,
        member_info: member_instance.map(|is_instance| PickledMemberInfo {
            apparent_parent: PickledTcRef::Local(0),
            flags: PickledMemberFlags {
                is_instance,
                is_dispatch_slot: false,
                is_override_or_explicit_impl: false,
                is_final: false,
                kind: PickledMemberKind::Member,
            },
            implemented_slots: Vec::new(),
            is_implemented: true,
        }),
        attribs: Vec::new(),
        repr_info: None,
        xmldoc_sig: String::new(),
        access: PickledAccess::new(),
        parent: PickledParentRef::NoParent,
        literal_value: None,
        xmldoc: None,
    }
}

fn val_repr_info(arg_groups: &[usize]) -> PickledValReprInfo {
    let arg = || PickledArgReprInfo {
        attribs: Vec::new(),
        name: None,
    };
    PickledValReprInfo {
        typar_repr: Vec::new(),
        arg_repr: arg_groups
            .iter()
            .map(|&n| (0..n).map(|_| arg()).collect())
            .collect(),
        return_repr: arg(),
    }
}

fn ext_test_val_arity(
    compiled_name: Option<&str>,
    flags: i64,
    member_instance: Option<bool>,
    arg_groups: &[usize],
) -> PickledVal {
    let mut v = ext_test_val(compiled_name, flags, member_instance);
    v.repr_info = Some(val_repr_info(arg_groups));
    v
}

fn make_ccu(tycons: Vec<PickledEntity>, vals: Vec<PickledVal>, root_entity: u32) -> PickledCcu {
    PickledCcu {
        header: PickledHeader {
            ccu_refs: Vec::new(),
            ntycons: tycons.len() as u32,
            ntypars: 0,
            nvals: vals.len() as u32,
            nanoninfos: 0,
            strings: Vec::new(),
            pubpaths: Vec::new(),
            nlerefs: Vec::new(),
            simpletys: Vec::new(),
            phase1_bytes: Vec::new(),
        },
        root_entity,
        compile_time_working_dir: String::new(),
        uses_quotations: false,
        tables: PickledOsgnTables {
            tycons,
            typars: Vec::new(),
            vals,
        },
    }
}

fn module_with_vals(vals: Vec<u32>) -> PickledModulType {
    PickledModulType {
        is_type: IsType::ModuleOrType,
        vals,
        entities: Vec::new(),
    }
}

fn make_ecma_method_arity(name: &str, arity: usize) -> Member {
    let mut m = make_ecma_method(name);
    if let Member::Method(mm) = &mut m {
        mm.signature.parameters = (0..arity)
            .map(|_| Parameter {
                name: None,
                ty: TypeRef::Primitive(Primitive::I4),
                is_byref: false,
                is_out: false,
                is_readonly_ref: false,
                default: ParamDefault::NoDefault,
                is_param_array: false,
                nullability: Nullability::Oblivious,
            })
            .collect();
    }
    m
}

fn make_ecma_literal_field(name: &str) -> Member {
    Member::Field(Field {
        name: name.to_string(),
        access: Access::Public,
        ty: TypeRef::Primitive(Primitive::I4),
        is_static: true,
        is_init_only: false,
        is_literal: true,
        is_volatile: false,
        is_required: false,
        compiler_feature_required: Vec::new(),
        nullability: Nullability::Oblivious,
        custom_attrs: Vec::new(),
    })
}

fn make_ecma_method(name: &str) -> Member {
    Member::Method(MethodLike {
        definition_range: None,
        name: name.to_string(),
        access: Access::Public,
        signature: MethodSignature {
            parameters: Vec::new(),
            return_type: TypeRef::Primitive(Primitive::Void),
            return_nullability: Nullability::Oblivious,
        },
        arg_group_count: Some(1),
        is_static: true,
        is_virtual: false,
        is_abstract: false,
        is_constructor: false,
        module_value: None,
        is_module_value_binding: false,
        is_extension_method: false,
        augmentation: Augmentation::No,
        is_final: false,
        is_newslot: false,
        is_hide_by_sig: false,
        generic_parameters: Vec::new(),
        obsolete: None,
        experimental: None,
        sets_required_members: false,
        compiler_feature_required: Vec::new(),
        source_name: None,
        custom_attrs: Vec::new(),
        metadata_token: 0,
        implements: Vec::new(),
        unclassified_impls: Vec::new(),
    })
}

fn is_extension(entity: &Entity, method_name: &str) -> bool {
    entity.members.iter().any(
        |m| matches!(m, Member::Method(mm) if mm.name == method_name && mm.is_extension_method),
    )
}

fn run_member_projection(vals: Vec<PickledVal>, members: Vec<Member>) -> Entity {
    let val_indices: Vec<u32> = (0..vals.len() as u32).collect();
    let module = make_entity("M", PickledTyconRepr::NoRepr, module_with_vals(val_indices));
    let mut ns_modul = empty_modul_typ();
    ns_modul.entities = vec![2];
    let ns = make_entity("NS", PickledTyconRepr::NoRepr, ns_modul);
    let mut root_modul = empty_modul_typ();
    root_modul.entities = vec![1];
    let root = make_entity("Test", PickledTyconRepr::NoRepr, root_modul);
    let ccu = make_ccu(vec![root, ns, module], vals, 0);

    let mut entities = vec![{
        let mut e = make_ecma_entity(vec!["NS"], "M", EntityKind::Module);
        e.members = members;
        e
    }];
    apply_module_member_projection(&mut entities, &ccu).expect("member projection");
    entities.into_iter().next().expect("one entity")
}

#[test]
fn member_list_flags_instance_extensions_only() {
    let ext = VAL_FLAGS_IS_EXTENSION_MEMBER;
    let mut generic_ext = ext_test_val_arity(Some("Counter.Doubled"), ext, Some(true), &[1, 1]);
    generic_ext
        .repr_info
        .as_mut()
        .expect("arity helper sets repr_info")
        .typar_repr
        .push(PickledTyparReprInfo {
            ident: PickledIdent {
                name: "T".to_string(),
                range: dummy_range(),
            },
            kind: TyparKind::Type,
        });
    let entity = run_member_projection(
        vec![
            ext_test_val_arity(Some("Counter.Tripled"), ext, Some(true), &[1, 0]),
            ext_test_val(Some("Counter.Make.Static"), ext, Some(false)),
            ext_test_val(Some("A.B"), 0, None),
            generic_ext,
        ],
        vec![
            make_ecma_method_arity("Counter.Tripled", 1),
            make_ecma_method("Counter.Make.Static"),
            make_ecma_method("A.B"),
            make_ecma_method_arity("Counter.Doubled", 2),
        ],
    );
    assert!(is_extension(&entity, "Counter.Tripled"));
    assert!(!is_extension(&entity, "Counter.Make.Static"));
    assert!(!is_extension(&entity, "A.B"));
    assert!(
        is_extension(&entity, "Counter.Doubled"),
        "a generic instance extension val must flag its claimed member"
    );
    assert!(entity.skipped_members.is_empty(), "every val claimed");
}

#[test]
fn val_il_arity_counts_non_erased_unit_groups() {
    let arity =
        |groups: &[usize]| val_il_arity(&ext_test_val_arity(Some("v"), 0, None, groups));
    assert_eq!(arity(&[0]), Some(0));
    assert_eq!(arity(&[1, 1]), Some(2));
    assert_eq!(arity(&[1, 0]), Some(1));
    assert_eq!(arity(&[1, 1, 1]), Some(3));
    assert_eq!(val_il_arity(&ext_test_val(Some("v"), 0, None)), None);
}

#[test]
fn module_member_index_projects_vals_in_order() {
    let ext = VAL_FLAGS_IS_EXTENSION_MEMBER;
    let mut renamed = ext_test_val_arity(Some("Tripled"), 0, None, &[1]);
    renamed.logical_name = "tripled".to_string();
    let mut instance_ext =
        ext_test_val_arity(Some("Counter.Doubled"), ext, Some(true), &[1, 0]);
    instance_ext.logical_name = "Doubled".to_string();
    let mut static_ext = ext_test_val(Some("Counter.Make.Static"), ext, Some(false));
    static_ext.logical_name = "Make".to_string();
    let mut generic_let = ext_test_val_arity(None, 0, None, &[1]);
    generic_let.logical_name = "id".to_string();
    generic_let
        .repr_info
        .as_mut()
        .expect("arity helper sets repr_info")
        .typar_repr
        .push(PickledTyparReprInfo {
            ident: PickledIdent {
                name: "T".to_string(),
                range: dummy_range(),
            },
            kind: TyparKind::Type,
        });
    let mut bare = ext_test_val(None, 0, None);
    bare.logical_name = "helper".to_string();

    let module = make_entity(
        "M",
        PickledTyconRepr::NoRepr,
        module_with_vals(vec![0, 1, 2, 3, 4]),
    );
    let mut ns_modul = empty_modul_typ();
    ns_modul.entities = vec![2];
    let ns = make_entity("NS", PickledTyconRepr::NoRepr, ns_modul);
    let mut root_modul = empty_modul_typ();
    root_modul.entities = vec![1];
    let root = make_entity("", PickledTyconRepr::NoRepr, root_modul);
    let ccu = make_ccu(
        vec![root, ns, module],
        vec![renamed, instance_ext, static_ext, generic_let, bare],
        0,
    );

    let targets = collect_module_member_targets(&ccu).expect("collect");
    assert_eq!(targets.len(), 1);
    let target = &targets[0];
    assert_eq!(target.namespace, ["NS"]);
    assert_eq!(target.type_chain, ["M"]);
    assert_eq!(
        target.vals,
        vec![
            ModuleMemberVal {
                val_index: 0,
                logical_name: "tripled".to_string(),
                compiled_name: Some("Tripled".to_string()),
                il_arity: Some(1),
                arg_group_count: Some(1),
                is_instance: false,
                is_member: false,
                is_extension: false,
                is_generic: false,
                is_literal: false,
                is_public: true,
                definition_range: None,
            },
            ModuleMemberVal {
                val_index: 1,
                logical_name: "Doubled".to_string(),
                compiled_name: Some("Counter.Doubled".to_string()),
                il_arity: Some(1),
                arg_group_count: Some(2),
                is_instance: true,
                is_member: true,
                is_extension: true,
                is_generic: false,
                is_literal: false,
                is_public: true,
                definition_range: None,
            },
            ModuleMemberVal {
                val_index: 2,
                logical_name: "Make".to_string(),
                compiled_name: Some("Counter.Make.Static".to_string()),
                il_arity: None,
                arg_group_count: None,
                is_instance: false,
                is_member: true,
                is_extension: true,
                is_generic: false,
                is_literal: false,
                is_public: true,
                definition_range: None,
            },
            ModuleMemberVal {
                val_index: 3,
                logical_name: "id".to_string(),
                compiled_name: None,
                il_arity: Some(1),
                arg_group_count: Some(1),
                is_instance: false,
                is_member: false,
                is_extension: false,
                is_generic: true,
                is_literal: false,
                is_public: true,
                definition_range: None,
            },
            ModuleMemberVal {
                val_index: 4,
                logical_name: "helper".to_string(),
                compiled_name: None,
                il_arity: None,
                arg_group_count: None,
                is_instance: false,
                is_member: false,
                is_extension: false,
                is_generic: false,
                is_literal: false,
                is_public: true,
                definition_range: None,
            },
        ]
    );
    assert_eq!(target.vals[0].il_name(), "Tripled");
    assert_eq!(target.vals[3].il_name(), "id");
}

#[test]
fn module_member_index_records_nested_and_val_less_entities() {
    let mut v = ext_test_val_arity(None, 0, None, &[1]);
    v.logical_name = "inner".to_string();

    let inner = make_entity(
        "InnerModule",
        PickledTyconRepr::NoRepr,
        PickledModulType {
            is_type: IsType::FSharpModuleWithSuffix,
            vals: vec![0],
            entities: Vec::new(),
        },
    );
    let record = make_entity(
        "Point",
        PickledTyconRepr::Record(Vec::new()),
        module_modul_typ(Vec::new()),
    );
    let outer = make_entity(
        "Outer",
        PickledTyconRepr::NoRepr,
        module_modul_typ(vec![2, 3]),
    );
    let mut root_modul = empty_modul_typ();
    root_modul.entities = vec![1];
    let root = make_entity("", PickledTyconRepr::NoRepr, root_modul);
    let ccu = make_ccu(vec![root, outer, inner, record], vec![v], 0);

    let targets = collect_module_member_targets(&ccu).expect("collect");
    let by_chain: Vec<(&[String], usize)> = targets
        .iter()
        .map(|t| (t.type_chain.as_slice(), t.vals.len()))
        .collect();
    assert_eq!(
        by_chain,
        [
            (&["Outer".to_string()][..], 0),
            (&["Outer".to_string(), "InnerModule".to_string()][..], 1),
            (&["Outer".to_string(), "Point".to_string()][..], 0),
        ]
    );
    assert!(targets.iter().all(|t| t.namespace.is_empty()));
    assert_eq!(targets[1].vals[0].logical_name, "inner");
}

#[test]
fn module_member_index_distinguishes_values_functions_and_erased_measures() {
    let typar = |kind| PickledTyparReprInfo {
        ident: PickledIdent {
            name: "T".to_string(),
            range: dummy_range(),
        },
        kind,
    };
    let mut value = ext_test_val_arity(None, 0, None, &[]);
    value.logical_name = "answer".to_string();
    let mut unit_fn = ext_test_val_arity(None, 0, None, &[0]);
    unit_fn.logical_name = "f".to_string();
    let mut literal = ext_test_val_arity(None, 0, None, &[]);
    literal.logical_name = "RequiresPreview".to_string();
    literal.literal_value = Some(PickledConst::Int32(42));
    let mut measure_only = ext_test_val_arity(None, 0, None, &[1]);
    measure_only.logical_name = "FloatWithMeasure".to_string();
    measure_only
        .repr_info
        .as_mut()
        .expect("arity helper sets repr_info")
        .typar_repr
        .push(typar(TyparKind::Measure));
    let mut mixed = ext_test_val_arity(None, 0, None, &[1]);
    mixed.logical_name = "mixed".to_string();
    let mixed_repr = mixed
        .repr_info
        .as_mut()
        .expect("arity helper sets repr_info");
    mixed_repr.typar_repr.push(typar(TyparKind::Measure));
    mixed_repr.typar_repr.push(typar(TyparKind::Type));

    let module = make_entity(
        "M",
        PickledTyconRepr::NoRepr,
        module_with_vals(vec![0, 1, 2, 3, 4]),
    );
    let mut root_modul = empty_modul_typ();
    root_modul.entities = vec![1];
    let root = make_entity("", PickledTyconRepr::NoRepr, root_modul);
    let ccu = make_ccu(
        vec![root, module],
        vec![value, unit_fn, literal, measure_only, mixed],
        0,
    );

    let targets = collect_module_member_targets(&ccu).expect("collect");
    let vals = &targets[0].vals;

    assert_eq!(vals[0].il_arity, Some(0));
    assert_eq!(vals[0].arg_group_count, Some(0));
    assert!(!vals[0].is_literal);
    assert_eq!(vals[1].il_arity, Some(0));
    assert_eq!(vals[1].arg_group_count, Some(1));

    assert_eq!(vals[2].arg_group_count, Some(0));
    assert!(vals[2].is_literal);

    assert!(!vals[3].is_generic);
    assert!(vals[4].is_generic);
}

#[test]
fn module_member_index_excludes_nested_type_member_vals() {
    let ext = VAL_FLAGS_IS_EXTENSION_MEMBER;
    let mut ctor = ext_test_val_arity(None, 0, Some(false), &[1]);
    ctor.logical_name = ".ctor".to_string();
    let mut getter = ext_test_val_arity(None, 0, Some(true), &[1]);
    getter.logical_name = "get_Value".to_string();
    let mut plain = ext_test_val_arity(None, 0, None, &[1]);
    plain.logical_name = "mkConcatSeq".to_string();
    let mut aug = ext_test_val_arity(Some("Counter.Tripled"), ext, Some(true), &[1, 0]);
    aug.logical_name = "Tripled".to_string();

    let module = make_entity(
        "M",
        PickledTyconRepr::NoRepr,
        module_with_vals(vec![0, 1, 2, 3]),
    );
    let mut root_modul = empty_modul_typ();
    root_modul.entities = vec![1];
    let root = make_entity("", PickledTyconRepr::NoRepr, root_modul);
    let ccu = make_ccu(vec![root, module], vec![ctor, getter, plain, aug], 0);

    let targets = collect_module_member_targets(&ccu).expect("collect");
    assert_eq!(
        targets[0]
            .vals
            .iter()
            .map(|v| (v.val_index, v.logical_name.as_str()))
            .collect::<Vec<_>>(),
        [(2, "mkConcatSeq"), (3, "Tripled")]
    );
}

#[test]
fn module_member_index_rejects_out_of_range_val() {
    let module = make_entity("M", PickledTyconRepr::NoRepr, module_with_vals(vec![7]));
    let mut root_modul = empty_modul_typ();
    root_modul.entities = vec![1];
    let root = make_entity("", PickledTyconRepr::NoRepr, root_modul);
    let ccu = make_ccu(vec![root, module], Vec::new(), 0);

    let err = collect_module_member_targets(&ccu).expect_err("out-of-range val index");
    assert!(
        matches!(
            err,
            ImportError::OsgnIndexOutOfRange {
                kind: "val (module-member index)",
                index: 7,
                max: 0,
            }
        ),
        "unexpected error: {err:?}"
    );
}

#[test]
fn member_list_flags_unanimous_extension_overload_sets() {
    let ext = VAL_FLAGS_IS_EXTENSION_MEMBER;
    let entity = run_member_projection(
        vec![
            ext_test_val_arity(Some("Builder.MergeSources"), ext, Some(true), &[1, 1, 1]),
            ext_test_val_arity(Some("Builder.MergeSources"), ext, Some(true), &[1, 1, 1]),
            ext_test_val_arity(Some("Builder.MergeSources"), 0, None, &[1, 1]),
        ],
        vec![
            make_ecma_method_arity("Builder.MergeSources", 3),
            make_ecma_method_arity("Builder.MergeSources", 3),
            make_ecma_method_arity("Builder.MergeSources", 2),
        ],
    );
    let flags: Vec<(usize, bool)> = entity
        .members
        .iter()
        .map(|m| match m {
            Member::Method(m) => (m.signature.parameters.len(), m.is_extension_method),
            _ => panic!("module members are methods"),
        })
        .collect();
    assert_eq!(
        flags,
        [(3, true), (3, true), (2, false)],
        "the unanimous arity-3 extension group stays flagged; the arity-2 \
         plain let is a different claim group"
    );
    assert!(entity.skipped_members.is_empty());
}

#[test]
fn member_list_scopes_extension_flag_to_declaring_module() {
    let ext = VAL_FLAGS_IS_EXTENSION_MEMBER;
    let module_a = make_entity("A", PickledTyconRepr::NoRepr, module_with_vals(vec![0]));
    let module_b = make_entity("B", PickledTyconRepr::NoRepr, module_with_vals(vec![1]));
    let mut ns_modul = empty_modul_typ();
    ns_modul.entities = vec![2, 3];
    let ns = make_entity("NS", PickledTyconRepr::NoRepr, ns_modul);
    let mut root_modul = empty_modul_typ();
    root_modul.entities = vec![1];
    let root = make_entity("Test", PickledTyconRepr::NoRepr, root_modul);
    let ccu = make_ccu(
        vec![root, ns, module_a, module_b],
        vec![
            ext_test_val(Some("Counter.Tripled"), ext, Some(true)),
            ext_test_val(Some("Counter.Tripled"), 0, None),
        ],
        0,
    );

    let mut entities = vec![
        {
            let mut e = make_ecma_entity(vec!["NS"], "A", EntityKind::Module);
            e.members = vec![make_ecma_method("Counter.Tripled")];
            e
        },
        {
            let mut e = make_ecma_entity(vec!["NS"], "B", EntityKind::Module);
            e.members = vec![make_ecma_method("Counter.Tripled")];
            e
        },
    ];

    apply_module_member_projection(&mut entities, &ccu).expect("member projection");

    assert!(
        is_extension(&entities[0], "Counter.Tripled"),
        "module A's genuine augmentation must be flagged"
    );
    assert!(
        !is_extension(&entities[1], "Counter.Tripled"),
        "module B's plain let with the colliding compiled name must NOT be flagged"
    );
}

fn run_in_module_collision(
    ext_arg_groups: &[usize],
    let_arg_groups: &[usize],
    ecma_arities: [usize; 2],
) -> Vec<Entity> {
    let ext = VAL_FLAGS_IS_EXTENSION_MEMBER;
    let module_ext = make_entity(
        "Extensions",
        PickledTyconRepr::NoRepr,
        module_with_vals(vec![0, 1]),
    );
    let mut ns_modul = empty_modul_typ();
    ns_modul.entities = vec![2];
    let ns = make_entity("NS", PickledTyconRepr::NoRepr, ns_modul);
    let mut root_modul = empty_modul_typ();
    root_modul.entities = vec![1];
    let root = make_entity("Test", PickledTyconRepr::NoRepr, root_modul);
    let ccu = make_ccu(
        vec![root, ns, module_ext],
        vec![
            ext_test_val_arity(Some("Counter.Tripled"), ext, Some(true), ext_arg_groups),
            ext_test_val_arity(Some("Counter.Tripled"), 0, None, let_arg_groups),
        ],
        0,
    );

    let mut entities = vec![{
        let mut e = make_ecma_entity(vec!["NS"], "Extensions", EntityKind::Module);
        e.members = vec![
            make_ecma_method_arity("Counter.Tripled", ecma_arities[0]),
            make_ecma_method_arity("Counter.Tripled", ecma_arities[1]),
        ];
        e
    }];
    apply_module_member_projection(&mut entities, &ccu).expect("member projection");
    entities
}

fn method_is_extension(member: &Member) -> bool {
    matches!(member, Member::Method(mm) if mm.is_extension_method)
}

#[test]
fn member_list_disambiguates_in_module_collision_by_arity() {
    let entities = run_in_module_collision(&[1, 0], &[1, 1], [1, 2]);
    assert!(
        method_is_extension(&entities[0].members[0]),
        "the arity-1 augmentation must be flagged"
    );
    assert!(
        !method_is_extension(&entities[0].members[1]),
        "the arity-2 plain let sharing the compiled name must NOT be flagged"
    );
}

#[test]
fn member_list_underflags_same_arity_in_module_collision() {
    let entities = run_in_module_collision(&[1, 1], &[1, 1], [2, 2]);
    assert!(
        !method_is_extension(&entities[0].members[0]),
        "same-arity collision under-flags: neither method is flagged"
    );
    assert!(
        !method_is_extension(&entities[0].members[1]),
        "same-arity collision under-flags: neither method is flagged"
    );
}

#[test]
fn entity_source_name_cases() {
    let suffixed = make_entity(
        "SuffixedModule",
        measure_object_model_repr(),
        module_suffix_modul_typ(vec![]),
    );
    assert_eq!(entity_source_name(&suffixed).as_deref(), Some("Suffixed"));

    let mut renamed = make_entity("Bar", measure_object_model_repr(), module_modul_typ(vec![]));
    renamed.compiled_name = Some("Foo".to_string());
    assert_eq!(entity_source_name(&renamed).as_deref(), Some("Bar"));

    let mut generic = make_entity(
        "Choice`2",
        measure_object_model_repr(),
        module_modul_typ(vec![]),
    );
    generic.compiled_name = Some("FSharpChoice`2".to_string());
    assert_eq!(entity_source_name(&generic).as_deref(), Some("Choice"));

    let plain = make_entity(
        "Hello",
        measure_object_model_repr(),
        module_modul_typ(vec![]),
    );
    assert_eq!(entity_source_name(&plain), None);

    let ns = make_entity("N", measure_object_model_repr(), empty_modul_typ());
    assert_eq!(entity_source_name(&ns), None);
}

#[test]
fn member_list_assigns_source_names_by_claim_group() {
    let mut sprintf = ext_test_val_arity(Some("PrintFormatToStringThen"), 0, None, &[1]);
    sprintf.logical_name = "sprintf".to_string();
    let mut ksprintf = ext_test_val_arity(Some("PrintFormatToStringThen"), 0, None, &[1, 1]);
    ksprintf.logical_name = "ksprintf".to_string();
    let entity = run_member_projection(
        vec![sprintf, ksprintf],
        vec![
            make_ecma_method_arity("PrintFormatToStringThen", 1),
            make_ecma_method_arity("PrintFormatToStringThen", 2),
        ],
    );
    let names: Vec<(usize, Option<&str>)> = entity
        .members
        .iter()
        .map(|m| match m {
            Member::Method(m) => (m.signature.parameters.len(), m.source_name.as_deref()),
            _ => panic!("module members are methods"),
        })
        .collect();
    assert_eq!(names, [(1, Some("sprintf")), (2, Some("ksprintf"))]);

    let mut a = ext_test_val_arity(Some("Shared"), 0, None, &[1]);
    a.logical_name = "first".to_string();
    let mut b = ext_test_val_arity(Some("Shared"), 0, None, &[1]);
    b.logical_name = "second".to_string();
    let entity = run_member_projection(
        vec![a, b],
        vec![
            make_ecma_method_arity("Shared", 1),
            make_ecma_method_arity("Shared", 1),
        ],
    );
    for m in &entity.members {
        let Member::Method(m) = m else {
            panic!("module members are methods")
        };
        assert_eq!(
            m.source_name, None,
            "conflicted same-arity rename group must under-set"
        );
    }
}

#[test]
fn member_list_stamps_definition_ranges_by_claim_group() {
    let prange = |file: u32, line: u32| PickledRange {
        file,
        start: PickledPos { line, column: 4 },
        end: PickledPos { line, column: 10 },
    };
    let mut value = ext_test_val_arity(None, 0, None, &[]);
    value.logical_name = "answer".to_string();
    value.range = Some(prange(1, 20));
    value.other_range = Some(prange(0, 42));
    let mut a = ext_test_val_arity(Some("Shared"), 0, None, &[1]);
    a.logical_name = "first".to_string();
    a.range = Some(prange(0, 1));
    a.other_range = Some(prange(0, 1));
    let mut b = ext_test_val_arity(Some("Shared"), 0, None, &[1]);
    b.logical_name = "second".to_string();
    b.range = Some(prange(0, 2));
    b.other_range = Some(prange(0, 2));

    let val_indices: Vec<u32> = vec![0, 1, 2];
    let module = make_entity("M", PickledTyconRepr::NoRepr, module_with_vals(val_indices));
    let mut ns_modul = empty_modul_typ();
    ns_modul.entities = vec![2];
    let ns = make_entity("NS", PickledTyconRepr::NoRepr, ns_modul);
    let mut root_modul = empty_modul_typ();
    root_modul.entities = vec![1];
    let root = make_entity("Test", PickledTyconRepr::NoRepr, root_modul);
    let mut ccu = make_ccu(vec![root, ns, module], vec![value, a, b], 0);
    ccu.header.strings = vec!["/src/Impl.fs".to_string(), "/src/Sig.fsi".to_string()];

    let mut entities = vec![{
        let mut e = make_ecma_entity(vec!["NS"], "M", EntityKind::Module);
        e.members = vec![
            make_ecma_module_value("answer"),
            make_ecma_method_arity("Shared", 1),
            make_ecma_method_arity("Shared", 1),
        ];
        e
    }];
    apply_module_member_projection(&mut entities, &ccu).expect("member projection");
    let entity = entities.into_iter().next().expect("one entity");

    let method = |name: &str, params: usize| {
        entity
            .members
            .iter()
            .find_map(|m| match m {
                Member::Method(m)
                    if m.name == name && m.signature.parameters.len() == params =>
                {
                    Some(m)
                }
                _ => None,
            })
            .unwrap_or_else(|| panic!("method {name}/{params}"))
    };
    let range = method("answer", 0)
        .definition_range
        .as_deref()
        .expect("a singleton value group stamps its range");
    assert_eq!(
        (range.file.as_str(), range.start_line, range.start_column),
        ("/src/Impl.fs", 42, 4),
        "the DefinitionRange (implementation) component wins over val_range"
    );
    assert_eq!((range.end_line, range.end_column), (42, 10));
    assert_eq!(
        method("Shared", 1).definition_range,
        None,
        "a conflicted same-shape group must under-set its ranges"
    );
}

fn make_ecma_module_value(name: &str) -> Member {
    let mut m = make_ecma_method(name);
    if let Member::Method(mm) = &mut m {
        mm.module_value = Some(ModuleValue { is_mutable: false });
    }
    m
}

#[test]
fn member_list_matches_values_and_functions_by_shape() {
    let mut value = ext_test_val_arity(Some("Shared"), 0, None, &[]);
    value.logical_name = "answer".to_string();
    let mut unit_fn = ext_test_val_arity(Some("Shared"), 0, None, &[0]);
    unit_fn.logical_name = "f".to_string();
    let entity = run_member_projection(
        vec![value, unit_fn],
        vec![
            make_ecma_method_arity("Shared", 0),
            make_ecma_module_value("Shared"),
        ],
    );
    let shapes: Vec<(bool, Option<&str>)> = entity
        .members
        .iter()
        .map(|m| match m {
            Member::Method(m) => (m.module_value.is_some(), m.source_name.as_deref()),
            _ => panic!("module members are methods"),
        })
        .collect();
    assert_eq!(shapes, [(true, Some("answer")), (false, Some("f"))]);
    assert!(entity.skipped_members.is_empty());
}

#[test]
fn member_list_claims_a_literal_val_to_its_il_field() {
    let mut literal = ext_test_val_arity(None, 0, None, &[]);
    literal.logical_name = "MaxValue".to_string();
    literal.literal_value = Some(PickledConst::Int32(100));
    let entity =
        run_member_projection(vec![literal], vec![make_ecma_literal_field("MaxValue")]);
    assert!(
        entity.skipped_members.is_empty(),
        "the literal is claimable: {:?}",
        entity.skipped_members
    );
    match entity.members.as_slice() {
        [Member::Field(f)] => {
            assert_eq!(f.name, "MaxValue");
            assert!(f.is_literal, "claimed the literal field");
        }
        other => panic!("expected the claimed literal field, got {other:?}"),
    }
}

#[test]
fn member_list_records_unmatched_vals_and_members() {
    let mut missing = ext_test_val_arity(Some("NoSuchMethod"), 0, None, &[1]);
    missing.logical_name = "missing".to_string();
    let mut literal = ext_test_val_arity(None, 0, None, &[]);
    literal.logical_name = "MaxValue".to_string();
    literal.literal_value = Some(PickledConst::Int32(100));
    let entity = run_member_projection(
        vec![missing, literal],
        vec![make_ecma_method_arity("ToSingle$W", 2)],
    );
    assert!(
        entity.members.is_empty(),
        "nothing claimable: {:?}",
        entity.members.len()
    );
    let skips: Vec<(&str, &str)> = entity
        .skipped_members
        .iter()
        .map(|s| (s.name.as_str(), s.reason.as_str()))
        .collect();
    assert_eq!(
        skips.len(),
        3,
        "one per direction, plus the literal whose IL field is absent: {skips:?}"
    );
    assert!(
        skips[0].0 == "NoSuchMethod" && skips[0].1.contains("no matching projected IL member"),
        "{skips:?}"
    );
    assert!(
        skips[1].0 == "MaxValue" && skips[1].1.contains("no claimable IL literal field"),
        "{skips:?}"
    );
    assert!(
        skips[2].0 == "ToSingle$W" && skips[2].1.contains("no pickled module val"),
        "{skips:?}"
    );
}

#[test]
fn member_list_claims_generic_zero_group_vals_as_methods() {
    let mut type_of = ext_test_val_arity(Some("TypeOf"), 0, None, &[]);
    type_of.logical_name = "typeof".to_string();
    type_of
        .repr_info
        .as_mut()
        .expect("arity helper sets repr_info")
        .typar_repr
        .push(PickledTyparReprInfo {
            ident: PickledIdent {
                name: "T".to_string(),
                range: dummy_range(),
            },
            kind: TyparKind::Type,
        });
    let mut plain_value = ext_test_val_arity(None, 0, None, &[]);
    plain_value.logical_name = "answer".to_string();
    let entity = run_member_projection(
        vec![type_of, plain_value],
        vec![
            make_ecma_method_arity("TypeOf", 0),
            make_ecma_module_value("answer"),
        ],
    );
    let shapes: Vec<(&str, bool)> = entity
        .members
        .iter()
        .map(|m| match m {
            Member::Method(m) => (m.name.as_str(), m.module_value.is_some()),
            _ => panic!("module members are methods"),
        })
        .collect();
    assert_eq!(shapes, [("TypeOf", false), ("answer", true)]);
    assert_eq!(
        entity.members.len(),
        2,
        "both zero-group vals claim: {:?}",
        entity.skipped_members
    );
    assert!(entity.skipped_members.is_empty());
}

#[test]
fn member_list_retains_non_public_leftovers() {
    let mut lifted = make_ecma_method_arity("concatArray@29", 1);
    if let Member::Method(m) = &mut lifted {
        m.access = Access::Internal;
    }
    let mut private_helper = make_ecma_method_arity("check@188", 2);
    if let Member::Method(m) = &mut private_helper {
        m.access = Access::Private;
    }
    let mut public_let = ext_test_val_arity(None, 0, None, &[1]);
    public_let.logical_name = "concat".to_string();
    let entity = run_member_projection(
        vec![public_let],
        vec![lifted, make_ecma_method_arity("concat", 1), private_helper],
    );
    let names: Vec<&str> = entity
        .members
        .iter()
        .map(|m| match m {
            Member::Method(m) => m.name.as_str(),
            _ => panic!("module members are methods"),
        })
        .collect();
    assert_eq!(names, ["concat", "concatArray@29", "check@188"]);
    assert!(
        entity.skipped_members.is_empty(),
        "non-public leftovers are expected, not skips: {:?}",
        entity.skipped_members
    );
}

#[test]
fn member_list_prefers_accessibility_matching_members() {
    let mut hidden = make_ecma_method_arity("Shared", 1);
    if let Member::Method(m) = &mut hidden {
        m.access = Access::Internal;
    }
    let mut exported = ext_test_val_arity(Some("Shared"), 0, None, &[1]);
    exported.logical_name = "shared".to_string();
    let entity = run_member_projection(
        vec![exported],
        vec![hidden, make_ecma_method_arity("Shared", 1)],
    );
    let claimed: Vec<(Access, Option<&str>)> = entity
        .members
        .iter()
        .map(|m| match m {
            Member::Method(m) => (m.access, m.source_name.as_deref()),
            _ => panic!("module members are methods"),
        })
        .collect();
    assert_eq!(
        claimed,
        [(Access::Public, Some("shared")), (Access::Internal, None)]
    );
    assert!(entity.skipped_members.is_empty());
}

#[test]
fn member_projection_leaves_non_module_kinds_alone() {
    let class = make_entity("C", PickledTyconRepr::NoRepr, module_modul_typ(Vec::new()));
    let mut root_modul = empty_modul_typ();
    root_modul.entities = vec![1];
    let root = make_entity("Test", PickledTyconRepr::NoRepr, root_modul);
    let ccu = make_ccu(vec![root, class], Vec::new(), 0);

    let mut entities = vec![{
        let mut e = make_ecma_entity(vec![], "C", EntityKind::Class);
        e.members = vec![make_ecma_method("KeepMe")];
        e
    }];
    apply_module_member_projection(&mut entities, &ccu).expect("member projection");
    assert_eq!(entities[0].members.len(), 1, "class members untouched");
    assert!(entities[0].skipped_members.is_empty());
}

#[test]
fn source_name_overlay_matches_generic_renamed_entity() {
    let mut generic = make_entity(
        "Choice`2",
        measure_object_model_repr(),
        module_modul_typ(vec![]),
    );
    generic.compiled_name = Some("FSharpChoice`2".to_string());
    let mut ns_modul = empty_modul_typ();
    ns_modul.entities = vec![2];
    let ns = make_entity("N", PickledTyconRepr::NoRepr, ns_modul);
    let mut root_modul = empty_modul_typ();
    root_modul.entities = vec![1];
    let root = make_entity("Asm", PickledTyconRepr::NoRepr, root_modul);
    let ccu = PickledCcu {
        header: PickledHeader {
            ccu_refs: Vec::new(),
            ntycons: 3,
            ntypars: 0,
            nvals: 0,
            nanoninfos: 0,
            strings: Vec::new(),
            pubpaths: Vec::new(),
            nlerefs: Vec::new(),
            simpletys: Vec::new(),
            phase1_bytes: Vec::new(),
        },
        root_entity: 0,
        compile_time_working_dir: String::new(),
        uses_quotations: false,
        tables: PickledOsgnTables {
            tycons: vec![root, ns, generic],
            typars: Vec::new(),
            vals: Vec::new(),
        },
    };
    let mut owned = vec![make_ecma_entity(
        vec!["N"],
        "FSharpChoice",
        EntityKind::Class,
    )];
    apply_entity_overlay(&mut owned, &ccu).unwrap();
    assert_eq!(owned[0].source_name.as_deref(), Some("Choice"));
}

#[test]
fn measure_overlay_rejects_self_loop() {
    let mut ns_modul = empty_modul_typ();
    ns_modul.entities = vec![1];
    let ns = make_entity("NS", PickledTyconRepr::NoRepr, ns_modul);
    let mut root_modul = empty_modul_typ();
    root_modul.entities = vec![1];
    let root = make_entity("Test", PickledTyconRepr::NoRepr, root_modul);
    let ccu = make_ccu(vec![root, ns], Vec::new(), 0);

    let err = merge_measure_entities(&mut Vec::new(), &ccu).unwrap_err();
    match err {
        ImportError::PickleEntityCycle { stamp } => assert_eq!(stamp, 1),
        other => panic!("expected PickleEntityCycle, got {other:?}"),
    }
}

#[test]
fn member_projection_rejects_two_cycle() {
    let mut a_modul = empty_modul_typ();
    a_modul.entities = vec![2];
    let a = make_entity("A", PickledTyconRepr::NoRepr, a_modul);
    let mut b_modul = empty_modul_typ();
    b_modul.entities = vec![1];
    let b = make_entity("B", PickledTyconRepr::NoRepr, b_modul);
    let mut root_modul = empty_modul_typ();
    root_modul.entities = vec![1];
    let root = make_entity("Test", PickledTyconRepr::NoRepr, root_modul);
    let ccu = make_ccu(vec![root, a, b], Vec::new(), 0);

    let err = apply_module_member_projection(&mut Vec::new(), &ccu).unwrap_err();
    match err {
        ImportError::PickleEntityCycle { stamp } => assert_eq!(stamp, 1),
        other => panic!("expected PickleEntityCycle, got {other:?}"),
    }
}

#[test]
fn source_name_overlay_rejects_back_edge_to_root() {
    let mut ns_modul = empty_modul_typ();
    ns_modul.entities = vec![0];
    let ns = make_entity("NS", PickledTyconRepr::NoRepr, ns_modul);
    let mut root_modul = empty_modul_typ();
    root_modul.entities = vec![1];
    let root = make_entity("Test", PickledTyconRepr::NoRepr, root_modul);
    let ccu = make_ccu(vec![root, ns], Vec::new(), 0);

    let err = apply_entity_overlay(&mut Vec::new(), &ccu).unwrap_err();
    match err {
        ImportError::PickleEntityCycle { stamp } => assert_eq!(stamp, 0),
        other => panic!("expected PickleEntityCycle, got {other:?}"),
    }
}

#[test]
fn shared_child_on_disjoint_paths_is_not_a_cycle() {
    let mut a_modul = empty_modul_typ();
    a_modul.entities = vec![3];
    let a = make_entity("A", PickledTyconRepr::NoRepr, a_modul);
    let mut b_modul = empty_modul_typ();
    b_modul.entities = vec![3];
    let b = make_entity("B", PickledTyconRepr::NoRepr, b_modul);
    let shared = make_entity("Shared", PickledTyconRepr::NoRepr, empty_modul_typ());
    let mut root_modul = empty_modul_typ();
    root_modul.entities = vec![1, 2];
    let root = make_entity("Test", PickledTyconRepr::NoRepr, root_modul);
    let ccu = make_ccu(vec![root, a, b, shared], Vec::new(), 0);

    merge_measure_entities(&mut Vec::new(), &ccu).expect("diamond is acyclic");
}

fn some_abbrev_target() -> Option<PickledType> {
    Some(PickledType::Var {
        typar_index: 0,
        nullness: Nullness::Ambivalent,
    })
}

fn make_abbreviation(logical_name: &str) -> PickledEntity {
    let mut e = make_entity(logical_name, PickledTyconRepr::NoRepr, empty_modul_typ());
    e.type_abbrev = some_abbrev_target();
    e
}

fn ccu_with_abbreviations() -> PickledCcu {
    let int_id = make_abbreviation("IntId");
    let nested = make_abbreviation("Nested");
    let auto = make_entity("Auto", PickledTyconRepr::NoRepr, module_modul_typ(vec![3]));
    let mut hidden = make_abbreviation("Hidden");
    hidden.access = vec![PickledCPath {
        scope: PickledILScopeRef::Local,
        path: vec![("Lib".to_string(), IsType::Namespace)],
    }];
    let mut msq = make_abbreviation("msq");
    msq.typar_kind = TyparKind::Measure;
    let existing = make_abbreviation("Existing");
    let mut lib_modul = empty_modul_typ();
    lib_modul.entities = vec![2, 4, 5, 6, 7];
    let lib = make_entity("Lib", PickledTyconRepr::NoRepr, lib_modul);
    let mut root_modul = empty_modul_typ();
    root_modul.entities = vec![1];
    let root = make_entity("Test", PickledTyconRepr::NoRepr, root_modul);
    make_ccu(
        vec![root, lib, int_id, nested, auto, hidden, msq, existing],
        Vec::new(),
        0,
    )
}

fn abbreviation_ecma_tree() -> Vec<Entity> {
    vec![
        make_ecma_entity(vec!["Lib"], "Auto", EntityKind::Module),
        make_ecma_entity(vec!["Lib"], "Existing", EntityKind::Class),
    ]
}

#[test]
fn synthesises_root_and_nested_abbreviation_markers() {
    let pickled = ccu_with_abbreviations();
    let mut entities = abbreviation_ecma_tree();
    apply_abbreviation_markers(&mut entities, &pickled, &dummy_assembly())
        .expect("marker synthesis");

    let int_id = entities
        .iter()
        .find(|e| e.name == "IntId")
        .expect("namespace-level abbreviation gets a root marker");
    assert_eq!(int_id.namespace, vec!["Lib".to_string()]);
    assert_eq!(int_id.kind, EntityKind::Abbreviation);
    assert_eq!(int_id.access, Access::Public);
    assert!(int_id.members.is_empty() && int_id.nested_types.is_empty());

    let auto = entities.iter().find(|e| e.name == "Auto").expect("module");
    let nested = auto
        .nested_types
        .iter()
        .find(|e| e.name == "Nested")
        .expect("module-scoped abbreviation gets a nested marker");
    assert_eq!(nested.kind, EntityKind::Abbreviation);
    assert!(
        nested.namespace.is_empty(),
        "nested entities carry an empty namespace (path lives on the outermost type)"
    );
}

#[test]
fn skips_private_measure_and_already_present_abbreviations() {
    let pickled = ccu_with_abbreviations();
    let mut entities = abbreviation_ecma_tree();
    apply_abbreviation_markers(&mut entities, &pickled, &dummy_assembly())
        .expect("marker synthesis");

    assert!(
        !entities.iter().any(|e| e.name == "Hidden"),
        "a non-public abbreviation is not nameable cross-assembly — no marker"
    );
    assert!(
        !entities.iter().any(|e| e.name == "msq"),
        "a measure abbreviation is not a type-position name — no marker"
    );
    let existing: Vec<_> = entities.iter().filter(|e| e.name == "Existing").collect();
    assert_eq!(
        existing.len(),
        1,
        "an abbreviation with an ECMA row is not metadata-invisible — no duplicate"
    );
    assert_eq!(
        existing[0].kind,
        EntityKind::Class,
        "the authoritative ECMA row keeps its kind"
    );
}

#[test]
fn fsharp_core_synthesises_no_markers() {
    let pickled = ccu_with_abbreviations();
    let mut entities = abbreviation_ecma_tree();
    let mut core = dummy_assembly();
    core.name = "FSharp.Core".to_string();
    apply_abbreviation_markers(&mut entities, &pickled, &core).expect("marker synthesis");
    assert_eq!(
        entities,
        abbreviation_ecma_tree(),
        "FSharp.Core's abbreviations are the primitive-alias semantics, never markers"
    );
}

#[test]
fn generic_abbreviation_marker_carries_pickled_typar_names() {
    let mut pair = make_abbreviation("Pair");
    pair.typars = vec![0, 1];
    let mut lib_modul = empty_modul_typ();
    lib_modul.entities = vec![2];
    let lib = make_entity("Lib", PickledTyconRepr::NoRepr, lib_modul);
    let mut root_modul = empty_modul_typ();
    root_modul.entities = vec![1];
    let root = make_entity("Test", PickledTyconRepr::NoRepr, root_modul);
    let mut ccu = make_ccu(vec![root, lib, pair], Vec::new(), 0);
    ccu.tables.typars = ["a", "b"]
        .into_iter()
        .map(|name| PickledTyparSpecData {
            ident: PickledIdent {
                name: name.to_string(),
                range: dummy_range(),
            },
            attribs: Vec::new(),
            flags: 0,
            constraints: Vec::new(),
            xmldoc: PickledXmlDoc { lines: Vec::new() },
        })
        .collect();

    let mut entities = Vec::new();
    apply_abbreviation_markers(&mut entities, &ccu, &dummy_assembly())
        .expect("marker synthesis");
    let pair = entities.iter().find(|e| e.name == "Pair").expect("marker");
    let names: Vec<_> = pair
        .generic_parameters
        .iter()
        .map(|p| p.name.as_str())
        .collect();
    assert_eq!(
        names,
        vec!["a", "b"],
        "arity-keyed lookups need the pickled typar list"
    );
}

#[test]
fn arity_overloaded_abbreviation_still_gets_a_marker() {
    let mut generic = make_abbreviation("Foo");
    generic.typars = vec![0];
    let mut lib_modul = empty_modul_typ();
    lib_modul.entities = vec![2];
    let lib = make_entity("Lib", PickledTyconRepr::NoRepr, lib_modul);
    let mut root_modul = empty_modul_typ();
    root_modul.entities = vec![1];
    let root = make_entity("Test", PickledTyconRepr::NoRepr, root_modul);
    let mut ccu = make_ccu(vec![root, lib, generic], Vec::new(), 0);
    ccu.tables.typars = vec![PickledTyparSpecData {
        ident: PickledIdent {
            name: "T".to_string(),
            range: dummy_range(),
        },
        attribs: Vec::new(),
        flags: 0,
        constraints: Vec::new(),
        xmldoc: PickledXmlDoc { lines: Vec::new() },
    }];

    let mut entities = vec![make_ecma_entity(vec!["Lib"], "Foo", EntityKind::Record)];
    apply_abbreviation_markers(&mut entities, &ccu, &dummy_assembly())
        .expect("marker synthesis");
    let markers: Vec<_> = entities
        .iter()
        .filter(|e| e.kind == EntityKind::Abbreviation)
        .collect();
    assert_eq!(
        markers.len(),
        1,
        "the arity-1 abbreviation needs its marker"
    );
    assert_eq!(markers[0].generic_parameters.len(), 1);
    assert_eq!(
        entities
            .iter()
            .filter(|e| e.name == "Foo" && e.generic_parameters.is_empty())
            .count(),
        1,
        "the arity-0 TypeDef is not duplicated"
    );
}

#[test]
fn compiled_name_sharing_abbreviations_each_get_a_marker() {
    let mut a = make_abbreviation("A");
    a.compiled_name = Some("X".to_string());
    let mut b = make_abbreviation("B");
    b.compiled_name = Some("X".to_string());
    let mut lib_modul = empty_modul_typ();
    lib_modul.entities = vec![2, 3];
    let lib = make_entity("Lib", PickledTyconRepr::NoRepr, lib_modul);
    let mut root_modul = empty_modul_typ();
    root_modul.entities = vec![1];
    let root = make_entity("Test", PickledTyconRepr::NoRepr, root_modul);
    let ccu = make_ccu(vec![root, lib, a, b], Vec::new(), 0);

    let mut entities = Vec::new();
    apply_abbreviation_markers(&mut entities, &ccu, &dummy_assembly())
        .expect("marker synthesis");
    let mut source_names: Vec<_> = entities
        .iter()
        .filter(|e| e.kind == EntityKind::Abbreviation)
        .map(|e| {
            e.source_name
                .clone()
                .expect("renamed markers carry source names")
        })
        .collect();
    source_names.sort();
    assert_eq!(
        source_names,
        vec!["A".to_string(), "B".to_string()],
        "both compiled-name-sharing abbreviations keep their own marker"
    );
}

#[test]
fn module_companion_row_does_not_suppress_the_marker() {
    let abbrev = make_abbreviation("Companion");
    let mut lib_modul = empty_modul_typ();
    lib_modul.entities = vec![2];
    let lib = make_entity("Lib", PickledTyconRepr::NoRepr, lib_modul);
    let mut root_modul = empty_modul_typ();
    root_modul.entities = vec![1];
    let root = make_entity("Test", PickledTyconRepr::NoRepr, root_modul);
    let ccu = make_ccu(vec![root, lib, abbrev], Vec::new(), 0);

    let mut companion_module =
        make_ecma_entity(vec!["Lib"], "CompanionModule", EntityKind::Module);
    companion_module.source_name = Some("Companion".to_string());
    let mut entities = vec![companion_module];
    apply_abbreviation_markers(&mut entities, &ccu, &dummy_assembly())
        .expect("marker synthesis");
    assert!(
        entities
            .iter()
            .any(|e| e.kind == EntityKind::Abbreviation && e.name == "Companion"),
        "the module companion must not count as the abbreviation's ECMA row"
    );
}

#[test]
fn declaration_order_overlay_restores_pickle_order() {
    let inner_a = make_entity("InnerA", PickledTyconRepr::NoRepr, module_modul_typ(vec![]));
    let inner_b = make_entity("InnerB", PickledTyconRepr::NoRepr, module_modul_typ(vec![]));
    let first = make_entity(
        "First",
        PickledTyconRepr::NoRepr,
        module_modul_typ(vec![2, 3]),
    );
    let second = make_entity("Second", PickledTyconRepr::NoRepr, module_modul_typ(vec![]));
    let mut lib_modul = empty_modul_typ();
    lib_modul.entities = vec![4, 5];
    let lib = make_entity("Lib", PickledTyconRepr::NoRepr, lib_modul);
    let mut root_modul = empty_modul_typ();
    root_modul.entities = vec![1];
    let root = make_entity("Test", PickledTyconRepr::NoRepr, root_modul);
    let ccu = make_ccu(
        vec![root, lib, inner_a, inner_b, first, second],
        Vec::new(),
        0,
    );

    let mut first_ecma = make_ecma_entity(vec!["Lib"], "First", EntityKind::Module);
    first_ecma
        .nested_types
        .push(make_ecma_entity(vec![], "InnerB", EntityKind::Module));
    first_ecma
        .nested_types
        .push(make_ecma_entity(vec![], "InnerA", EntityKind::Module));
    let mut entities = vec![
        make_ecma_entity(vec!["Lib"], "Second", EntityKind::Module),
        first_ecma,
        make_ecma_entity(vec![], "<StartupCode$Test>", EntityKind::Class),
    ];
    apply_declaration_order(&mut entities, &ccu).expect("declaration order overlay");

    let top: Vec<&str> = entities.iter().map(|e| e.name.as_str()).collect();
    assert_eq!(
        top,
        vec!["First", "Second", "<StartupCode$Test>"],
        "top level takes pickle order; unpickled entities keep the tail"
    );
    let nested: Vec<&str> = entities[0]
        .nested_types
        .iter()
        .map(|e| e.name.as_str())
        .collect();
    assert_eq!(nested, vec!["InnerA", "InnerB"], "nested take pickle order");
}

fn ccu_with_hidden_union() -> PickledCcu {
    let teq = make_entity("Teq", PickledTyconRepr::NoRepr, empty_modul_typ());
    let mut helpers = make_entity(
        "Helpers",
        PickledTyconRepr::NoRepr,
        module_modul_typ(Vec::new()),
    );
    helpers.flags = ENTITY_FLAGS_IS_MODULE_OR_NAMESPACE;
    let mut ns_modul = empty_modul_typ();
    ns_modul.entities = vec![2, 3];
    let mut ns = make_entity("Ns", PickledTyconRepr::NoRepr, ns_modul);
    ns.flags = ENTITY_FLAGS_IS_MODULE_OR_NAMESPACE;
    let mut root_modul = empty_modul_typ();
    root_modul.entities = vec![1];
    let mut root = make_entity("Ns", PickledTyconRepr::NoRepr, root_modul);
    root.flags = ENTITY_FLAGS_IS_MODULE_OR_NAMESPACE;
    PickledCcu {
        header: PickledHeader {
            ccu_refs: vec![CcuRef {
                name: "FSharp.Core".to_string(),
            }],
            ntycons: 4,
            ntypars: 0,
            nvals: 0,
            nanoninfos: 0,
            strings: Vec::new(),
            pubpaths: Vec::new(),
            nlerefs: Vec::new(),
            simpletys: Vec::new(),
            phase1_bytes: Vec::new(),
        },
        root_entity: 0,
        compile_time_working_dir: String::new(),
        uses_quotations: false,
        tables: PickledOsgnTables {
            tycons: vec![root, ns, teq, helpers],
            typars: Vec::new(),
            vals: Vec::new(),
        },
    }
}

#[test]
fn a_signature_hidden_union_has_knowably_zero_accessible_cases() {
    let pickled = ccu_with_hidden_union();
    let mut entities = vec![
        make_ecma_entity(vec!["Ns"], "Teq", EntityKind::Union),
        make_ecma_entity(vec!["Ns"], "Helpers", EntityKind::Module),
    ];
    apply_union_case_names(&mut entities, &pickled).expect("apply union case names");
    assert_eq!(
        entities[0].union_case_names.as_deref(),
        Some(&[][..]),
        "a signature-hidden union has knowably zero accessible cases"
    );
    assert_eq!(
        entities[1].union_case_names, None,
        "a NoRepr module is not a union and must not be sealed"
    );
}

#[test]
fn a_host_namespace_node_never_seals_a_foreign_union_at_its_fqn() {
    let mut ns_u = empty_modul_typ();
    ns_u.is_type = IsType::Namespace;
    let mut u = make_entity("U", PickledTyconRepr::NoRepr, ns_u);
    u.flags = ENTITY_FLAGS_IS_MODULE_OR_NAMESPACE;
    let mut collision = empty_modul_typ();
    collision.entities = vec![2];
    let mut collision = make_entity("Collision", PickledTyconRepr::NoRepr, collision);
    collision.flags = ENTITY_FLAGS_IS_MODULE_OR_NAMESPACE;
    let mut root_modul = empty_modul_typ();
    root_modul.entities = vec![1];
    let root = make_entity("Host", PickledTyconRepr::NoRepr, root_modul);
    let pickled = PickledCcu {
        header: PickledHeader {
            ccu_refs: Vec::new(),
            ntycons: 3,
            ntypars: 0,
            nvals: 0,
            nanoninfos: 0,
            strings: Vec::new(),
            pubpaths: Vec::new(),
            nlerefs: Vec::new(),
            simpletys: Vec::new(),
            phase1_bytes: Vec::new(),
        },
        root_entity: 0,
        compile_time_working_dir: String::new(),
        uses_quotations: false,
        tables: PickledOsgnTables {
            tycons: vec![root, collision, u],
            typars: Vec::new(),
            vals: Vec::new(),
        },
    };
    let mut entities = vec![make_ecma_entity(vec!["Collision"], "U", EntityKind::Union)];
    apply_union_case_names(&mut entities, &pickled).expect("apply union case names");
    assert_eq!(
        entities[0].union_case_names, None,
        "a host namespace node must never seal a foreign union at its FQN"
    );
}

#[test]
fn an_exception_never_seals_a_foreign_union_at_its_fqn() {
    let mut u = make_entity("U", PickledTyconRepr::NoRepr, empty_modul_typ());
    u.exn_repr = PickledExnRepr::Fresh(Vec::new());
    let mut collision = empty_modul_typ();
    collision.entities = vec![2];
    let mut collision = make_entity("Collision", PickledTyconRepr::NoRepr, collision);
    collision.flags = ENTITY_FLAGS_IS_MODULE_OR_NAMESPACE;
    let mut root_modul = empty_modul_typ();
    root_modul.entities = vec![1];
    let root = make_entity("Host", PickledTyconRepr::NoRepr, root_modul);
    let pickled = make_ccu(vec![root, collision, u], Vec::new(), 0);
    let mut entities = vec![make_ecma_entity(vec!["Collision"], "U", EntityKind::Union)];
    apply_union_case_names(&mut entities, &pickled).expect("apply union case names");
    assert_eq!(
        entities[0].union_case_names, None,
        "an exception node must never seal a foreign union at its FQN"
    );
}

const MEASURE_TYPAR_FLAGS: i64 = 0b00000000100000000;

fn make_typar(flags: i64) -> PickledTyparSpecData {
    PickledTyparSpecData {
        ident: PickledIdent {
            name: "t".to_string(),
            range: dummy_range(),
        },
        attribs: Vec::new(),
        flags,
        constraints: Vec::new(),
        xmldoc: PickledXmlDoc { lines: Vec::new() },
    }
}

#[test]
fn is_measure_free_detects_measure_typars() {
    let mut ccu = make_ccu(Vec::new(), Vec::new(), 0);
    ccu.tables.typars = vec![make_typar(0), make_typar(MEASURE_TYPAR_FLAGS)];

    let non_generic = make_entity("A", PickledTyconRepr::NoRepr, empty_modul_typ());
    assert!(
        is_measure_free(&ccu, &non_generic),
        "no typars is measure-free"
    );

    let mut type_param = make_entity("B", PickledTyconRepr::NoRepr, empty_modul_typ());
    type_param.typars = vec![0];
    assert!(
        is_measure_free(&ccu, &type_param),
        "a type typar is measure-free"
    );

    let mut measure = make_entity("C", PickledTyconRepr::NoRepr, empty_modul_typ());
    measure.typars = vec![1];
    assert!(!is_measure_free(&ccu, &measure), "a measure typar is not");

    let mut dangling = make_entity("D", PickledTyconRepr::NoRepr, empty_modul_typ());
    dangling.typars = vec![99];
    assert!(
        !is_measure_free(&ccu, &dangling),
        "an unknown typar declines"
    );
}

#[test]
fn a_measure_parameterised_hidden_union_is_declined() {
    let mut u = make_entity("U", PickledTyconRepr::NoRepr, empty_modul_typ());
    u.typars = vec![0];
    let v = make_entity("V", PickledTyconRepr::NoRepr, empty_modul_typ());
    let mut ns_modul = empty_modul_typ();
    ns_modul.entities = vec![2, 3];
    let mut ns = make_entity("Ns", PickledTyconRepr::NoRepr, ns_modul);
    ns.flags = ENTITY_FLAGS_IS_MODULE_OR_NAMESPACE;
    let mut root_modul = empty_modul_typ();
    root_modul.entities = vec![1];
    let mut root = make_entity("Ns", PickledTyconRepr::NoRepr, root_modul);
    root.flags = ENTITY_FLAGS_IS_MODULE_OR_NAMESPACE;
    let mut pickled = make_ccu(vec![root, ns, u, v], Vec::new(), 0);
    pickled.tables.typars = vec![make_typar(MEASURE_TYPAR_FLAGS)];

    let mut entities = vec![
        make_ecma_entity(vec!["Ns"], "U", EntityKind::Union),
        make_ecma_entity(vec!["Ns"], "V", EntityKind::Union),
    ];
    apply_union_case_names(&mut entities, &pickled).expect("apply union case names");
    assert_eq!(
        entities[0].union_case_names, None,
        "a measure-parameterised hidden union is declined (kept unknowable)"
    );
    assert_eq!(
        entities[1].union_case_names.as_deref(),
        Some(&[][..]),
        "a measure-free hidden union is still sealed"
    );
}

#[test]
fn a_projected_key_collision_declines_the_seal() {
    let opaque = make_entity("U", PickledTyconRepr::NoRepr, empty_modul_typ());
    let mut ns_modul = empty_modul_typ();
    ns_modul.entities = vec![2];
    let mut ns = make_entity("Ns", PickledTyconRepr::NoRepr, ns_modul);
    ns.flags = ENTITY_FLAGS_IS_MODULE_OR_NAMESPACE;
    let mut root_modul = empty_modul_typ();
    root_modul.entities = vec![1];
    let mut root = make_entity("Ns", PickledTyconRepr::NoRepr, root_modul);
    root.flags = ENTITY_FLAGS_IS_MODULE_OR_NAMESPACE;
    let pickled = make_ccu(vec![root, ns, opaque], Vec::new(), 0);
    let mut entities = vec![
        make_ecma_entity(vec!["Ns"], "U", EntityKind::Class),
        make_ecma_entity(vec!["Ns"], "U", EntityKind::Union),
    ];
    apply_union_case_names(&mut entities, &pickled).expect("apply union case names");
    assert_eq!(
        entities[1].union_case_names, None,
        "a projected-key collision must decline, leaving the union's cases intact"
    );
}

fn ccu_with_strings(tycons: Vec<PickledEntity>, strings: Vec<String>) -> PickledCcu {
    let mut ccu = make_ccu(tycons, Vec::new(), 0);
    ccu.header.strings = strings;
    ccu
}

fn root_and_namespace(children: Vec<u32>) -> [PickledEntity; 2] {
    let mut ns_modul = empty_modul_typ();
    ns_modul.entities = children;
    let ns = make_entity("N", PickledTyconRepr::NoRepr, ns_modul);
    let mut root_modul = empty_modul_typ();
    root_modul.entities = vec![1];
    let root = make_entity("Asm", PickledTyconRepr::NoRepr, root_modul);
    [root, ns]
}

fn typed_entity_with_range(
    logical: &str,
    compiled: Option<&str>,
    file: u32,
    line: u32,
    col: u32,
) -> PickledEntity {
    let mut e = make_entity(
        logical,
        measure_object_model_repr(),
        module_modul_typ(vec![]),
    );
    e.compiled_name = compiled.map(str::to_string);
    e.range = PickledRange {
        file,
        start: PickledPos { line, column: col },
        end: PickledPos {
            line,
            column: col + 1,
        },
    };
    e
}

#[test]
fn range_stamps_an_unambiguous_entity() {
    let a = typed_entity_with_range("A", None, 0, 7, 4);
    let [root, ns] = root_and_namespace(vec![2]);
    let ccu = ccu_with_strings(vec![root, ns, a], vec!["Lib.fs".to_string()]);
    let mut owned = vec![make_ecma_entity(vec!["N"], "A", EntityKind::Class)];
    apply_entity_overlay(&mut owned, &ccu).unwrap();
    let range = owned[0]
        .definition_range
        .as_ref()
        .expect("unambiguous entity is stamped");
    assert_eq!(range.file, "Lib.fs");
    assert_eq!((range.start_line, range.start_column), (7, 4));
    assert_eq!((range.end_line, range.end_column), (7, 5));
}

#[test]
fn range_declines_when_two_targets_collapse_onto_one_fqn() {
    let a = typed_entity_with_range("A", None, 0, 1, 0);
    let b = typed_entity_with_range("B", Some("A`1"), 0, 2, 0);
    let [root, ns] = root_and_namespace(vec![2, 3]);
    let ccu = ccu_with_strings(vec![root, ns, a, b], vec!["Lib.fs".to_string()]);
    let mut owned = vec![make_ecma_entity(vec!["N"], "A", EntityKind::Class)];
    apply_entity_overlay(&mut owned, &ccu).unwrap();
    assert_eq!(
        owned[0].definition_range, None,
        "two collected targets on one FQN must decline"
    );
}

#[test]
fn range_declines_when_two_ecma_rows_share_the_name() {
    let a = typed_entity_with_range("A", None, 0, 1, 0);
    let [root, ns] = root_and_namespace(vec![2]);
    let ccu = ccu_with_strings(vec![root, ns, a], vec!["Lib.fs".to_string()]);
    let mut owned = vec![
        make_ecma_entity(vec!["N"], "A", EntityKind::Class),
        make_ecma_entity(vec!["N"], "A", EntityKind::Record),
    ];
    apply_entity_overlay(&mut owned, &ccu).unwrap();
    assert_eq!(owned[0].definition_range, None, "ambiguous ECMA row 0");
    assert_eq!(owned[1].definition_range, None, "ambiguous ECMA row 1");
}

#[test]
fn range_declines_on_the_degenerate_unknown_file() {
    let a = typed_entity_with_range("A", None, 0, 1, 0);
    let [root, ns] = root_and_namespace(vec![2]);
    let ccu = ccu_with_strings(vec![root, ns, a], vec!["unknown".to_string()]);
    let mut owned = vec![make_ecma_entity(vec!["N"], "A", EntityKind::Class)];
    apply_entity_overlay(&mut owned, &ccu).unwrap();
    assert_eq!(
        owned[0].definition_range, None,
        "unknown-file range declines"
    );
}

#[test]
fn range_declines_on_a_bad_file_index() {
    let a = typed_entity_with_range("A", None, 9, 1, 0);
    let [root, ns] = root_and_namespace(vec![2]);
    let ccu = ccu_with_strings(vec![root, ns, a], vec!["Lib.fs".to_string()]);
    let mut owned = vec![make_ecma_entity(vec!["N"], "A", EntityKind::Class)];
    apply_entity_overlay(&mut owned, &ccu).unwrap();
    assert_eq!(owned[0].definition_range, None, "bad file index declines");
}

/// A tree with everything that the overlays of `ccu_with_abbreviations` and of the
/// measures could touch.
fn mixed_tree() -> Vec<Entity> {
    let mut outer = make_ecma_entity(vec!["MiniLibFs"], "Outer", EntityKind::Module);
    outer.members = vec![make_ecma_method("f"), make_ecma_literal_field("c")];
    outer.nested_types = vec![make_ecma_entity(vec![], "m", EntityKind::Class)];
    vec![
        outer,
        make_ecma_entity(vec!["MiniLibFs"], "kg", EntityKind::Class),
        make_ecma_entity(vec!["MiniLibFs"], "m", EntityKind::Class),
    ]
}

#[test]
fn a_measure_merge_changes_kinds_alone() {
    let before = mixed_tree();
    let mut after = mixed_tree();
    merge_measure_entities(&mut after, &ccu_with_two_measures()).expect("merge");
    assert_eq!(after[1].kind, EntityKind::Measure);
    assert_eq!(after[2].kind, EntityKind::Measure);
    let merged = after.clone();
    after[1].kind = EntityKind::Class;
    after[2].kind = EntityKind::Class;
    assert_eq!(after, before);
    let mut again = merged.clone();
    merge_measure_entities(&mut again, &ccu_with_two_measures()).expect("second merge");
    assert_eq!(again, merged);
}

#[test]
fn the_walk_visits_every_child_at_its_position() {
    let (visits, end) = walk(&ccu_with_abbreviations());
    end.expect("walk");
    let seen: Vec<(u32, bool, String)> = visits
        .iter()
        .map(|v| {
            let mut path = v.namespace.clone();
            path.extend(v.type_chain.iter().cloned());
            (v.stamp, v.is_root, path.join("."))
        })
        .collect();
    let at = |stamp: u32, path: &str| (stamp, false, path.to_string());
    assert_eq!(
        seen,
        vec![
            (0, true, String::new()),
            at(1, ""),
            at(2, "Lib"),
            at(4, "Lib"),
            at(3, "Lib.Auto"),
            at(5, "Lib"),
            at(6, "Lib"),
            at(7, "Lib"),
        ]
    );
}

#[test]
fn a_walk_ends_at_a_stamp_outside_of_the_table() {
    let mut ccu = ccu_with_abbreviations();
    ccu.tables.tycons[1].module_type.entities = vec![2, 99];
    let (visits, end) = walk(&ccu);
    assert_eq!(visits.len(), 3);
    assert_eq!(
        end.unwrap_err(),
        ImportError::OsgnIndexOutOfRange { kind: "tycon (entity walk)", index: 99, max: 8 }
    );
}

#[test]
fn markers_only_add_to_the_tree() {
    let pickled = ccu_with_abbreviations();
    let before = abbreviation_ecma_tree();
    let mut after = abbreviation_ecma_tree();
    apply_abbreviation_markers(&mut after, &pickled, &dummy_assembly()).expect("markers");
    assert_eq!(after.len(), 3);
    assert_eq!(after[0].nested_types.len(), 1);
    assert_eq!(after[0].nested_types[0].kind, EntityKind::Abbreviation);
    assert_eq!(after[2].kind, EntityKind::Abbreviation);
    let mut stripped = after.clone();
    stripped.truncate(2);
    stripped[0].nested_types.clear();
    assert_eq!(stripped, before);
    let marked = after.clone();
    apply_abbreviation_markers(&mut after, &pickled, &dummy_assembly()).expect("again");
    assert_eq!(after, marked);
}

#[test]
fn an_exception_abbreviation_gets_a_marker_of_its_kind() {
    let mut failure = make_entity("FailureException", PickledTyconRepr::NoRepr, empty_modul_typ());
    failure.exn_repr = PickledExnRepr::Abbrev(PickledTcRef::NonLocal(0));
    let mut root_modul = empty_modul_typ();
    root_modul.entities = vec![1];
    let root = make_entity("Test", PickledTyconRepr::NoRepr, root_modul);
    let ccu = make_ccu(vec![root, failure], Vec::new(), 0);
    let mut entities = Vec::new();
    apply_abbreviation_markers(&mut entities, &ccu, &dummy_assembly()).expect("markers");
    assert_eq!(entities.len(), 1);
    assert_eq!(entities[0].kind, EntityKind::Exception);
    assert_eq!(entities[0].name, "FailureException");
    assert!(entities[0].namespace.is_empty());
}

#[test]
fn a_dangling_type_parameter_of_an_abbreviation_is_an_error() {
    let mut ccu = ccu_with_abbreviations();
    ccu.tables.tycons[2].typars = vec![5];
    let mut entities = abbreviation_ecma_tree();
    assert_eq!(
        apply_abbreviation_markers(&mut entities, &ccu, &dummy_assembly()).unwrap_err(),
        ImportError::OsgnIndexOutOfRange { kind: "typar (abbreviation marker)", index: 5, max: 0 }
    );
    assert_eq!(entities, abbreviation_ecma_tree());
}

#[test]
fn the_declaration_order_is_a_stable_sort() {
    let pickled = ccu_with_abbreviations();
    let mut entities = vec![
        make_ecma_entity(vec!["Z"], "Existing", EntityKind::Class),
        make_ecma_entity(vec!["Lib"], "Existing", EntityKind::Class),
        make_ecma_entity(vec!["A"], "Other", EntityKind::Class),
        make_ecma_entity(vec!["Lib"], "Existing", EntityKind::Struct),
        make_ecma_entity(vec!["Lib"], "Auto", EntityKind::Module),
        make_ecma_entity(vec!["Lib"], "IntId", EntityKind::Abbreviation),
    ];
    apply_declaration_order(&mut entities, &pickled).expect("order");
    let order: Vec<(String, String, EntityKind)> = entities
        .iter()
        .map(|e| (e.namespace.join("."), e.name.clone(), e.kind))
        .collect();
    let row = |ns: &str, name: &str, kind: EntityKind| (ns.to_string(), name.to_string(), kind);
    assert_eq!(
        order,
        vec![
            row("Lib", "IntId", EntityKind::Abbreviation),
            row("Lib", "Auto", EntityKind::Module),
            row("Lib", "Existing", EntityKind::Class),
            row("Lib", "Existing", EntityKind::Struct),
            row("Z", "Existing", EntityKind::Class),
            row("A", "Other", EntityKind::Class),
        ]
    );
}

/// A pickle of the namespace `N` with these children, the first of which has the
/// stamp 2.
fn ccu_with_children(children: Vec<PickledEntity>) -> PickledCcu {
    let stamps: Vec<u32> = (2..2 + children.len() as u32).collect();
    let [root, ns] = root_and_namespace(stamps);
    let mut tycons = vec![root, ns];
    tycons.extend(children);
    make_ccu(tycons, Vec::new(), 0)
}

#[test]
fn measures_and_exceptions_have_a_place_in_the_declaration_order() {
    let m = make_entity_kinded(
        "m",
        measure_object_model_repr(),
        empty_modul_typ(),
        TyparKind::Measure,
    );
    let first = make_entity("First", PickledTyconRepr::NoRepr, module_modul_typ(vec![]));
    let mut failure = make_entity("Failure", PickledTyconRepr::NoRepr, empty_modul_typ());
    failure.exn_repr = PickledExnRepr::Abbrev(PickledTcRef::NonLocal(0));
    let names = |es: &[Entity]| -> Vec<String> { es.iter().map(|e| e.name.clone()).collect() };

    let ccu = ccu_with_children(vec![m.clone(), first.clone()]);
    let mut entities = vec![
        make_ecma_entity(vec!["N"], "First", EntityKind::Module),
        make_ecma_entity(vec!["N"], "m", EntityKind::Measure),
    ];
    apply_declaration_order(&mut entities, &ccu).expect("order");
    assert_eq!(names(&entities), ["m", "First"]);

    let ccu = ccu_with_children(vec![m, failure, first]);
    let mut entities = vec![
        make_ecma_entity(vec!["N"], "First", EntityKind::Module),
        make_ecma_entity(vec!["N"], "m", EntityKind::Measure),
        make_ecma_entity(vec!["N"], "Failure", EntityKind::Exception),
    ];
    apply_declaration_order(&mut entities, &ccu).expect("order");
    assert_eq!(names(&entities), ["m", "Failure", "First"]);
}

#[test]
fn the_declaration_order_rearranges_each_level_and_is_stable() {
    // N has the modules B and A, and B the types Y and X.
    let b = make_entity("B", PickledTyconRepr::NoRepr, module_modul_typ(vec![4, 5]));
    let a = make_entity("A", PickledTyconRepr::NoRepr, module_modul_typ(vec![]));
    let y = make_entity("Y", PickledTyconRepr::NoRepr, module_modul_typ(vec![]));
    let x = make_entity("X", PickledTyconRepr::NoRepr, module_modul_typ(vec![]));
    let [root, ns] = root_and_namespace(vec![2, 3]);
    let ccu = make_ccu(vec![root, ns, b, a, y, x], Vec::new(), 0);
    let mut host = make_ecma_entity(vec!["N"], "B", EntityKind::Module);
    host.nested_types = vec![
        make_ecma_entity(vec![], "Extra", EntityKind::Class),
        make_ecma_entity(vec![], "X", EntityKind::Class),
        make_ecma_entity(vec![], "Y", EntityKind::Class),
        make_ecma_entity(vec![], "X", EntityKind::Struct),
    ];
    let mut entities = vec![
        make_ecma_entity(vec!["Z"], "One", EntityKind::Class),
        make_ecma_entity(vec!["N"], "A", EntityKind::Module),
        make_ecma_entity(vec!["Z"], "Two", EntityKind::Class),
        host,
    ];
    apply_declaration_order(&mut entities, &ccu).expect("order");
    let rows = |es: &[Entity]| -> Vec<(String, EntityKind)> {
        es.iter().map(|e| (e.name.clone(), e.kind)).collect()
    };
    let row = |name: &str, kind: EntityKind| (name.to_string(), kind);
    assert_eq!(
        rows(&entities),
        [
            row("B", EntityKind::Module),
            row("A", EntityKind::Module),
            row("One", EntityKind::Class),
            row("Two", EntityKind::Class),
        ]
    );
    assert_eq!(
        rows(&entities[0].nested_types),
        [
            row("Y", EntityKind::Class),
            row("X", EntityKind::Class),
            row("X", EntityKind::Struct),
            row("Extra", EntityKind::Class),
        ]
    );
    let once = entities.clone();
    apply_declaration_order(&mut entities, &ccu).expect("again");
    assert_eq!(entities, once);
}

#[test]
fn a_failing_declaration_order_leaves_the_tree() {
    let mut ccu = ccu_with_abbreviations();
    ccu.tables.tycons[1].module_type.entities = vec![2, 99];
    let mut entities = vec![
        make_ecma_entity(vec!["Z"], "Existing", EntityKind::Class),
        make_ecma_entity(vec!["Lib"], "IntId", EntityKind::Abbreviation),
    ];
    let before = entities.clone();
    assert_eq!(
        apply_declaration_order(&mut entities, &ccu).unwrap_err(),
        ImportError::OsgnIndexOutOfRange { kind: "tycon (declaration order)", index: 99, max: 8 }
    );
    assert_eq!(entities, before);
}

#[test]
fn markers_are_public_names_of_the_given_assembly() {
    let mut by = dummy_assembly();
    by.name = "Marking".to_string();
    let mut entities = abbreviation_ecma_tree();
    apply_abbreviation_markers(&mut entities, &ccu_with_abbreviations(), &by).expect("markers");
    for marker in [&entities[2], &entities[0].nested_types[0]] {
        assert_eq!(marker.kind, EntityKind::Abbreviation);
        assert_eq!(marker.access, Access::Public);
        assert_eq!(marker.assembly, by);
        assert_eq!(marker.base_type, None);
        assert_eq!(marker.union_case_names, None);
        assert!(marker.members.is_empty());
        assert!(marker.interfaces.is_empty());
    }
    assert_eq!(entities[0].assembly, dummy_assembly());
}

#[test]
fn a_failing_measure_merge_turns_classes_alone() {
    let mut entities = mixed_tree();
    entities[2].kind = EntityKind::Interface;
    let before: Vec<EntityKind> = entities.iter().map(|e| e.kind).collect();
    assert!(merge_measure_entities(&mut entities, &ccu_with_two_measures()).is_err());
    for (e, kind) in entities.iter().zip(before) {
        assert!(e.kind == kind || (kind == EntityKind::Class && e.kind == EntityKind::Measure));
    }
    assert_eq!(entities[2].kind, EntityKind::Interface);
}

#[test]
fn known_union_cases_stay_known() {
    let mut entities = vec![
        make_ecma_entity(vec!["Ns"], "Teq", EntityKind::Union),
        make_ecma_entity(vec!["Ns"], "Other", EntityKind::Union),
    ];
    for e in &mut entities {
        e.union_case_names = Some(vec!["Known".to_string()]);
    }
    let before = entities.clone();
    apply_union_case_names(&mut entities, &ccu_with_hidden_union()).expect("cases");
    assert_eq!(entities, before);
}

#[test]
fn an_ambiguous_row_keeps_its_range() {
    let a = typed_entity_with_range("A", None, 0, 7, 4);
    let [root, ns] = root_and_namespace(vec![2]);
    let ccu = ccu_with_strings(vec![root, ns, a], vec!["Lib.fs".to_string()]);
    let mut single = vec![make_ecma_entity(vec!["N"], "A", EntityKind::Class)];
    apply_entity_overlay(&mut single, &ccu).unwrap();
    let mut stale = single[0].definition_range.clone().expect("stamped");
    stale.start_line = 99;
    let mut twins = vec![
        make_ecma_entity(vec!["N"], "A", EntityKind::Class),
        make_ecma_entity(vec!["N"], "A", EntityKind::Record),
    ];
    twins[0].definition_range = Some(stale.clone());
    apply_entity_overlay(&mut twins, &ccu).unwrap();
    assert_eq!(twins[0].definition_range, Some(stale.clone()));
    assert_eq!(twins[1].definition_range, None);
    // A row that the pickle does not name keeps its range too.
    let mut other = vec![make_ecma_entity(vec!["N"], "B", EntityKind::Class)];
    other[0].definition_range = Some(stale.clone());
    apply_entity_overlay(&mut other, &ccu).unwrap();
    assert_eq!(other[0].definition_range, Some(stale));
}

#[test]
fn the_member_list_is_the_claims_and_the_hidden_rest() {
    let val = |name: &str| {
        let mut v = ext_test_val_arity(Some(name), 0, None, &[1]);
        v.logical_name = format!("{name}Source");
        v
    };
    let hidden = |name: &str| match make_ecma_method_arity(name, 1) {
        Member::Method(mut m) => {
            m.access = Access::Internal;
            Member::Method(m)
        }
        other => other,
    };
    let mut literal = ext_test_val(None, 0, None);
    literal.logical_name = "c".to_string();
    literal.literal_value = Some(PickledConst::Int32(1));
    let old = vec![
        hidden("h1"),
        make_ecma_method_arity("a", 1),
        make_ecma_literal_field("c"),
        make_ecma_method_arity("public", 1),
        hidden("h2"),
        make_ecma_method_arity("b", 1),
    ];
    let entity =
        run_member_projection(vec![val("b"), literal, val("missing"), val("a")], old.clone());
    let names: Vec<&str> = entity
        .members
        .iter()
        .map(|m| match m {
            Member::Method(m) => m.name.as_str(),
            Member::Field(f) => f.name.as_str(),
            other => panic!("unexpected member {other:?}"),
        })
        .collect();
    assert_eq!(names, ["b", "c", "a", "h1", "h2"]);
    // A claimed method gains F# facts; a field and what is left are as they were.
    match (&entity.members[0], &old[5]) {
        (Member::Method(new), Member::Method(old)) => {
            assert_eq!(new.source_name.as_deref(), Some("bSource"));
            let mut new = new.clone();
            new.source_name = old.source_name.clone();
            new.definition_range = old.definition_range.clone();
            new.is_module_value_binding = old.is_module_value_binding;
            new.is_extension_method = old.is_extension_method;
            new.augmentation = old.augmentation;
            assert_eq!(new, *old);
        }
        other => panic!("unexpected members {other:?}"),
    }
    assert_eq!(entity.members[1], old[2]);
    assert_eq!(entity.members[3], old[0]);
    assert_eq!(entity.members[4], old[4]);
    // Four values: three claims and a record. Six members: three claims, two that are
    // kept and a record.
    let skipped: Vec<&str> = entity.skipped_members.iter().map(|s| s.name.as_str()).collect();
    assert_eq!(skipped, ["missing", "public"]);
}

#[test]
fn the_projection_leaves_the_members_that_no_module_describes() {
    let module = make_entity("M", PickledTyconRepr::NoRepr, module_with_vals(vec![0]));
    let class = make_entity("K", PickledTyconRepr::NoRepr, module_with_vals(vec![0]));
    let mut ccu = ccu_with_children(vec![module, class]);
    ccu.tables.vals = vec![ext_test_val_arity(Some("f"), 0, None, &[1])];
    let row = |name: &str, kind: EntityKind| {
        let mut e = make_ecma_entity(vec!["N"], name, kind);
        e.members = vec![make_ecma_method("left")];
        e
    };
    let before = vec![
        row("M", EntityKind::Module),
        row("K", EntityKind::Class),
        row("Unnamed", EntityKind::Module),
    ];
    let mut after = before.clone();
    apply_module_member_projection(&mut after, &ccu).expect("projection");
    assert!(after[0].members.is_empty());
    assert_eq!(after[0].skipped_members.len(), 2);
    assert_eq!(after[1..], before[1..]);
    // A failure leaves all of them.
    ccu.tables.vals.clear();
    let mut failed = before.clone();
    assert!(apply_module_member_projection(&mut failed, &ccu).is_err());
    assert_eq!(failed, before);
}

#[test]
fn no_member_and_no_value_is_lost() {
    let mut unmatched = ext_test_val_arity(None, 0, None, &[1]);
    unmatched.logical_name = "missing".to_string();
    let mut matched = ext_test_val_arity(None, 0, None, &[1]);
    matched.logical_name = "f".to_string();
    let mut hidden = make_ecma_method("internal");
    if let Member::Method(m) = &mut hidden {
        m.access = Access::Internal;
    }
    let entity = run_member_projection(
        vec![unmatched, matched],
        vec![make_ecma_method("extra"), make_ecma_method_arity("f", 1), hidden],
    );
    assert_eq!(entity.members.len(), 2);
    assert_eq!(entity.skipped_members.len(), 2);
    assert_eq!(entity.skipped_members[0].name, "missing");
    assert_eq!(
        entity.skipped_members[0].reason,
        "pickled module val `missing` (Function(1)) has no matching projected IL member"
    );
    assert_eq!(entity.skipped_members[1].name, "extra");
    assert_eq!(
        entity.skipped_members[1].reason,
        "projected IL member has no pickled module val (pickle-driven member list)"
    );
}

#[test]
fn extension_members_are_listed_sorted_and_once() {
    let mut vals = Vec::new();
    for (name, is_instance) in
        [("Twice", true), ("Half", true), ("Twice", true), ("Zero", false), ("Plain", true)]
    {
        let flags = if name == "Plain" { 0 } else { VAL_FLAGS_IS_EXTENSION_MEMBER };
        let mut v = ext_test_val(None, flags, Some(is_instance));
        v.logical_name = name.to_string();
        vals.push(v);
    }
    let module = make_entity("M", PickledTyconRepr::NoRepr, module_with_vals(vec![0, 1, 2, 3, 4]));
    let mut root_modul = empty_modul_typ();
    root_modul.entities = vec![1];
    let root = make_entity("Test", PickledTyconRepr::NoRepr, root_modul);
    let ccu = make_ccu(vec![root, module], vals, 0);
    let before = vec![
        make_ecma_entity(vec![], "M", EntityKind::Module),
        make_ecma_entity(vec![], "N", EntityKind::Module),
    ];
    let mut after = before.clone();
    apply_extension_member_index(&mut after, &ccu).expect("index");
    assert_eq!(after[0].extension_member_names, ["Half", "Twice"]);
    assert_eq!(after[0].static_extension_member_names, ["Zero"]);
    after[0].extension_member_names.clear();
    after[0].static_extension_member_names.clear();
    assert_eq!(after, before);
}

#[test]
fn an_entity_is_found_by_its_path() {
    let mut tree = mixed_tree();
    let lib = vec!["MiniLibFs".to_string()];
    let chain = vec!["Outer".to_string(), "m".to_string()];
    find_entity_mut(&mut tree, &lib, &chain).expect("found").is_sealed = true;
    assert!(tree[0].nested_types[0].is_sealed);
    assert!(!tree[2].is_sealed);
    assert!(find_entity_mut(&mut tree, &lib, &Vec::new()).is_none());
    assert!(find_entity_mut(&mut tree, &Vec::new(), &chain).is_none());
    assert!(find_entity_unique_mut(&mut tree, &lib, &chain).is_some());
    let twin = tree[0].nested_types[0].clone();
    tree[0].nested_types.push(twin);
    assert!(find_entity_unique_mut(&mut tree, &lib, &chain).is_none());
    assert!(find_entity_mut(&mut tree, &lib, &chain).is_some());
}

/// Types over the shapes that the decoder knows, with indices in and out of range.
fn sample_types() -> Vec<PickledType> {
    let mut types = vec![PickledType::Measure(Measure::One)];
    for index in [0, 1, 2, 3, 1999] {
        types.push(PickledType::Var { typar_index: index, nullness: Nullness::WithNull });
        types.push(PickledType::AppSimple { simpletyp_index: index, nullness: AMB });
        for tcref in [PickledTcRef::Local(index), PickledTcRef::NonLocal(index)] {
            types.push(PickledType::App { tcref, args: Vec::new(), nullness: AMB });
        }
    }
    let leaves = types.clone();
    for (i, leaf) in leaves.iter().enumerate() {
        let other = leaves[(i * 7 + 3) % leaves.len()].clone();
        types.push(PickledType::App {
            tcref: PickledTcRef::NonLocal(0),
            args: vec![leaf.clone(), other.clone()],
            nullness: Nullness::WithoutNull,
        });
        types.push(PickledType::Fun {
            domain: Box::new(leaf.clone()),
            range: Box::new(other.clone()),
            nullness: AMB,
        });
        for n in 0..3 {
            types.push(PickledType::Tuple {
                kind: TupleKind::Reference,
                elems: vec![leaf.clone(); n],
            });
        }
        types.push(PickledType::Forall { typars: vec![0], body: Box::new(other) });
    }
    types
}

#[test]
fn decoding_a_target_fails_only_on_a_dangling_index() {
    let ccu = abbrev_test_ccu();
    let local = local_tycon_fqns(&ccu).unwrap();
    let mut entity = alias_entity();
    entity.typars = vec![0, 1, 2];
    let (mut decoded, mut declined, mut failed) = (0, 0, 0);
    for ty in sample_types() {
        match decode_abbreviation_target(&ccu, &entity, &ty, &local) {
            Ok(Some(_)) => decoded += 1,
            Ok(None) => declined += 1,
            Err(ImportError::OsgnIndexOutOfRange { .. }) => failed += 1,
            Err(other) => panic!("unexpected failure {other:?}"),
        }
    }
    assert!(decoded > 0 && declined > 0 && failed > 0);
}

#[test]
fn local_paths_are_kept_by_stamp() {
    let local = local_tycon_fqns(&ccu_with_abbreviations()).unwrap();
    assert_eq!(local.len(), 1);
    assert_eq!(local.get(&4).unwrap().join("."), "Lib.Auto");
}
