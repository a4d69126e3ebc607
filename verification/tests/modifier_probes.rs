//! Probes of projections that heed custom modifiers, and of some that do not.
use borzoi_assembly::error::ImportError;
use borzoi_assembly::image::{
    CustomMod, GenericParam, Image, MemberRef, Method, MethodSig, ModifiedType, RetType, TypeDef,
    TypeScope, TypeSig, TypedRow,
};
use borzoi_assembly::model::{
    Access, AssemblyIdentity, AssemblyProjectionSkips, Augmentation, Entity, EntityKind, Field,
    Member, MethodLike, MethodSignature, Nullability, Primitive, SkippedMember,
    SkippedProjectionItem, TypeParameter, TypeRef, Variance, Version,
};
use borzoi_assembly::modifier_metamorphic::compare::{
    count_member_skips, count_members, count_types, diff_entities, Finding,
};
use borzoi_assembly::modifier_metamorphic::decorate::{decorate_image, decorate_position, Scope};
use borzoi_assembly::modifier_metamorphic::hostile::{make_hostile, HostileShape};
use borzoi_assembly::modifier_metamorphic::probe::{
    judge, modopt_saturation_is_inert, modopt_saturation_is_inert_on,
    unknown_modreq_on_constraints_refuses, unknown_modreq_on_members_refuses,
    unknown_modreq_saturation_refuses, ProbeOutcome, Projection,
};

fn entity(name: &str) -> Entity {
    Entity {
        assembly: AssemblyIdentity {
            name: "Test".to_string(),
            version: Version { major: 1, minor: 0, build: 0, revision: 0 },
            public_key_token: None,
        },
        namespace: vec!["Demo".to_string()],
        name: name.to_string(),
        kind: EntityKind::Class,
        access: Access::Public,
        is_sealed: false,
        generic_parameters: Vec::new(),
        base_type: None,
        interfaces: Vec::new(),
        members: Vec::new(),
        skipped_members: Vec::new(),
        method_def_tokens: Vec::new(),
        nested_types: Vec::new(),
        is_readonly: false,
        is_byref_like: false,
        is_struct: false,
        is_auto_open: false,
        is_require_qualified_access: false,
        is_no_equality: false,
        is_no_comparison: false,
        is_structural_equality: false,
        is_structural_comparison: false,
        is_allow_null_literal: false,
        obsolete: None,
        experimental: None,
        default_member: None,
        compiler_feature_required: Vec::new(),
        source_name: None,
        extension_member_names: Vec::new(),
        union_case_names: None,
        static_extension_member_names: Vec::new(),
        is_extension_container: false,
        custom_attrs: Vec::new(),
        abbreviation_target: None,
        definition_range: None,
    }
}

fn field(name: &str) -> Member {
    Member::Field(Field {
        name: name.to_string(),
        access: Access::Public,
        ty: TypeRef::Primitive(Primitive::I4),
        is_static: false,
        is_init_only: false,
        is_volatile: false,
        is_literal: false,
        is_required: false,
        compiler_feature_required: Vec::new(),
        nullability: Nullability::Oblivious,
        custom_attrs: Vec::new(),
    })
}

fn method(name: &str, generic_parameters: Vec<TypeParameter>) -> Member {
    Member::Method(MethodLike {
        name: name.to_string(),
        access: Access::Public,
        signature: MethodSignature {
            parameters: Vec::new(),
            return_type: TypeRef::Primitive(Primitive::Void),
            return_nullability: Nullability::Oblivious,
        },
        arg_group_count: None,
        is_static: false,
        is_virtual: false,
        is_abstract: false,
        is_final: false,
        is_newslot: false,
        is_hide_by_sig: false,
        is_constructor: false,
        is_extension_method: false,
        augmentation: Augmentation::No,
        module_value: None,
        is_module_value_binding: false,
        definition_range: None,
        generic_parameters,
        obsolete: None,
        experimental: None,
        sets_required_members: false,
        compiler_feature_required: Vec::new(),
        source_name: None,
        custom_attrs: Vec::new(),
        metadata_token: 0,
        implements: Vec::new(),
        unclassified_impls: Vec::new(),
    })
}

fn type_parameter(constrained: bool) -> TypeParameter {
    TypeParameter {
        name: "T".to_string(),
        variance: Variance::Invariant,
        reference_type_constraint: false,
        value_type_constraint: false,
        default_constructor_constraint: false,
        is_unmanaged: false,
        allows_ref_struct: false,
        nullability: Nullability::Oblivious,
        type_constraints: if constrained {
            vec![TypeRef::Primitive(Primitive::Object)]
        } else {
            Vec::new()
        },
    }
}

fn no_skips() -> AssemblyProjectionSkips {
    AssemblyProjectionSkips {
        dropped_types: Vec::new(),
        skipped_fsharp_overlays: Vec::new(),
        fsharp_abbreviations_unknowable: false,
        fsharp_extension_index_unknowable: false,
        fsharp_signature_non_authoritative: false,
    }
}

fn int_sig() -> ModifiedType {
    ModifiedType::plain(TypeSig::Primitive(Primitive::I4))
}

fn row(name: &str) -> TypedRow {
    TypedRow { name: name.to_string(), signature: Some(int_sig()) }
}

/// One type with a base type, a constrained type parameter, a method with a constrained
/// type parameter, a field, a property and an event.
fn image() -> Image {
    let constrained = || GenericParam { name: "T".to_string(), constraints: vec![Some(int_sig())] };
    Image {
        type_defs: vec![TypeDef {
            name: "Box".to_string(),
            extends: Some(Some(int_sig())),
            implements: vec![Some(int_sig()), None],
            generic_params: vec![constrained()],
            methods: vec![Method {
                name: "Open".to_string(),
                generic_params: vec![constrained()],
                signature: Some(MethodSig {
                    return_type: RetType::Void(Vec::new()),
                    parameters: vec![int_sig()],
                }),
                implements: vec![Some(int_sig())],
                unclassified_impls: vec![int_sig()],
            }],
            fields: vec![row("Size")],
            properties: vec![row("Name")],
            events: vec![row("Changed")],
        }],
        member_refs: vec![MemberRef {
            name: "Equals".to_string(),
            signature: Some(MethodSig {
                return_type: RetType::Type(int_sig()),
                parameters: vec![int_sig()],
            }),
        }],
    }
}

fn requires_something(p: &ModifiedType) -> bool {
    p.mods.iter().any(|m| m.required)
}

fn is_refused(p: &Option<ModifiedType>) -> bool {
    match p {
        Some(p) => requires_something(p) || matches!(p.ty, TypeSig::ByRef(_)),
        None => true,
    }
}

fn constraints_are_refused(ps: &[GenericParam]) -> bool {
    ps.iter().any(|p| p.constraints.iter().any(is_refused))
}

/// A projection that refuses what requires something.
fn careful(image: &Image) -> Result<Projection, ImportError> {
    let mut skips = no_skips();
    let mut entities = Vec::new();
    for t in &image.type_defs {
        let base_refused = match &t.extends {
            Some(p) => is_refused(p),
            None => false,
        };
        if base_refused || constraints_are_refused(&t.generic_params) {
            skips.dropped_types.push(SkippedProjectionItem {
                name: t.name.clone(),
                reason: "a required modifier".to_string(),
            });
            continue;
        }
        let mut e = entity(&t.name);
        e.base_type = Some(TypeRef::Primitive(Primitive::I4));
        e.generic_parameters = vec![type_parameter(true)];
        for m in &t.methods {
            let sig_refused = match &m.signature {
                Some(s) => s.parameters.iter().any(requires_something),
                None => true,
            };
            if sig_refused || constraints_are_refused(&m.generic_params) {
                e.skipped_members.push(SkippedMember {
                    name: m.name.clone(),
                    reason: "refused".to_string(),
                });
            } else {
                e.members.push(method(&m.name, vec![type_parameter(true)]));
            }
        }
        for r in t.fields.iter().chain(&t.properties).chain(&t.events) {
            if is_refused(&r.signature) {
                e.skipped_members.push(SkippedMember {
                    name: r.name.clone(),
                    reason: "refused".to_string(),
                });
            } else {
                e.members.push(field(&r.name));
            }
        }
        entities.push(e);
    }
    Ok(Projection { entities, skips })
}

/// A projection that takes no notice of modifiers.
fn careless(image: &Image) -> Result<Projection, ImportError> {
    let mut plain = Image { type_defs: Vec::new(), member_refs: Vec::new() };
    for t in &image.type_defs {
        let mut copy = t.clone();
        copy.extends = Some(Some(int_sig()));
        copy.generic_params = Vec::new();
        for m in &mut copy.methods {
            m.generic_params = Vec::new();
            m.signature = Some(MethodSig {
                return_type: RetType::Void(Vec::new()),
                parameters: Vec::new(),
            });
        }
        for r in &mut copy.fields {
            r.signature = Some(int_sig());
        }
        for r in &mut copy.properties {
            r.signature = Some(int_sig());
        }
        for r in &mut copy.events {
            r.signature = Some(int_sig());
        }
        plain.type_defs.push(copy);
    }
    careful(&plain)
}

/// A projection that takes every modifier for a required one.
fn timid(image: &Image) -> Result<Projection, ImportError> {
    let mut copy = image.clone();
    for t in &mut copy.type_defs {
        for r in &mut t.fields {
            if let Some(p) = &mut r.signature {
                for m in &mut p.mods {
                    m.required = true;
                }
            }
        }
    }
    careful(&copy)
}

#[test]
fn an_optional_modifier_is_inert_for_a_careful_projection() {
    for shape in HostileShape::all() {
        let outcome = modopt_saturation_is_inert_on(&image(), careful, shape).unwrap();
        assert_eq!(outcome.findings, Vec::new());
        assert_eq!(outcome.baseline_types, 1);
        assert!(!outcome.refused_wholesale);
        let refused = if shape == HostileShape::Plain { 0 } else { 1 };
        assert_eq!(outcome.baseline_refusals, refused);
        assert_eq!(outcome.baseline_members, 4 - refused);
    }
}

#[test]
fn the_shapes_are_four() {
    assert_eq!(
        HostileShape::all(),
        [
            HostileShape::Plain,
            HostileShape::ByRefEventTypes,
            HostileShape::ByRefFieldTypes,
            HostileShape::ByRefPropertyTypes,
        ]
    );
}

#[test]
fn an_optional_modifier_that_moves_the_projection_is_found() {
    let outcome = modopt_saturation_is_inert(&image(), timid).unwrap();
    assert_eq!(
        outcome.findings,
        vec![Finding::MemberCountMoved {
            path: "Demo.Box".to_string(),
            baseline: 4,
            decorated: 3,
            dropped: vec!["Size".to_string()],
        }]
    );
}

#[test]
fn the_probe_without_a_shape_is_the_one_on_the_plain_shape() {
    for project in [careful, careless, timid] {
        assert_eq!(
            modopt_saturation_is_inert(&image(), project),
            modopt_saturation_is_inert_on(&image(), project, HostileShape::Plain)
        );
    }
}

#[test]
fn all_probes_start_from_the_same_projection() {
    for project in [careful, careless, timid] {
        let baseline =
            |o: ProbeOutcome| (o.baseline_types, o.baseline_members, o.baseline_refusals);
        let first = baseline(modopt_saturation_is_inert(&image(), project).unwrap());
        assert_eq!(first, (1, 4, 0));
        assert_eq!(
            baseline(unknown_modreq_saturation_refuses(&image(), project).unwrap()),
            first
        );
        assert_eq!(
            baseline(unknown_modreq_on_members_refuses(&image(), project).unwrap()),
            first
        );
        assert_eq!(
            baseline(unknown_modreq_on_constraints_refuses(&image(), project).unwrap()),
            first
        );
    }
}

#[test]
fn required_modifiers_are_refused_by_a_careful_projection() {
    let all = unknown_modreq_saturation_refuses(&image(), careful).unwrap();
    assert_eq!(all.findings, Vec::new());
    let members = unknown_modreq_on_members_refuses(&image(), careful).unwrap();
    assert_eq!(members.findings, Vec::new());
    let constraints = unknown_modreq_on_constraints_refuses(&image(), careful).unwrap();
    assert_eq!(constraints.findings, Vec::new());
}

#[test]
fn ignored_required_modifiers_are_found() {
    let survived = |name: &str| Finding::MemberSurvived { member: format!("Demo.Box.{name}") };
    let members = unknown_modreq_on_members_refuses(&image(), careless).unwrap();
    assert_eq!(
        members.findings,
        vec![survived("Open"), survived("Size"), survived("Name"), survived("Changed")]
    );
    let all = unknown_modreq_saturation_refuses(&image(), careless).unwrap();
    assert_eq!(all.findings.len(), 5);
    assert_eq!(all.findings[4], Finding::TypeSurvived { name: "Demo.Box".to_string() });
    let constraints = unknown_modreq_on_constraints_refuses(&image(), careless).unwrap();
    assert_eq!(
        constraints.findings,
        vec![
            Finding::ConstrainedTypeSurvived { name: "Demo.Box".to_string() },
            Finding::ConstrainedMethodSurvived { method: "Demo.Box.Open".to_string() },
        ]
    );
}

#[test]
fn a_projection_that_fails_is_refused_wholesale() {
    let baseline = careful(&image()).unwrap();
    let failure = || Err(ImportError::PickleEntityCycle { stamp: 7 });
    let required = judge(&baseline, failure(), true, Scope::Everything);
    assert!(required.refused_wholesale);
    assert_eq!(required.findings, Vec::new());
    let optional = judge(&baseline, failure(), false, Scope::Everything);
    assert!(optional.refused_wholesale);
    assert_eq!(
        optional.findings,
        vec![Finding::ProjectionFailed { error: ImportError::PickleEntityCycle { stamp: 7 } }]
    );
    let broken = |_: &Image| Err(ImportError::PickleEntityCycle { stamp: 7 });
    assert_eq!(
        modopt_saturation_is_inert(&image(), broken).unwrap_err(),
        ImportError::PickleEntityCycle { stamp: 7 }
    );
}

#[test]
fn what_was_left_out_is_compared_too() {
    let baseline = careful(&image()).unwrap();
    let mut other = careful(&image()).unwrap();
    other.skips.fsharp_abbreviations_unknowable = true;
    let want = other.skips.clone();
    let outcome = judge(&baseline, Ok(other), false, Scope::Everything);
    assert_eq!(
        outcome.findings,
        vec![Finding::SkipsMoved { baseline: no_skips(), decorated: want }]
    );
}

#[test]
fn counts_take_in_nested_types() {
    let mut outer = entity("Outer");
    let mut inner = entity("Inner");
    inner.members = vec![field("a"), field("b")];
    inner.skipped_members =
        vec![SkippedMember { name: "c".to_string(), reason: "no".to_string() }];
    outer.members = vec![field("d")];
    outer.nested_types = vec![inner];
    let tree = vec![outer, entity("Other")];
    assert_eq!(count_types(&tree), 3);
    assert_eq!(count_members(&tree), 3);
    assert_eq!(count_member_skips(&tree), 1);
}

#[test]
fn differences_are_told_with_their_place() {
    let mut outer = entity("Outer");
    let mut inner = entity("Inner");
    inner.namespace = Vec::new();
    inner.members = vec![field("a")];
    outer.nested_types = vec![inner];
    let left = vec![outer];
    let mut right = left.clone();
    let mut findings = Vec::new();
    diff_entities(&left, &right, &String::new(), &mut findings);
    assert_eq!(findings, Vec::new());
    right[0].nested_types[0].members[0] = field("b");
    diff_entities(&left, &right, &String::new(), &mut findings);
    assert_eq!(
        findings,
        vec![Finding::MemberMoved {
            path: "Demo.Outer/Inner.a".to_string(),
            baseline: field("a"),
            decorated: field("b"),
        }]
    );
    findings.clear();
    right[0].nested_types[0].members[0] = field("a");
    right[0].nested_types[0].is_sealed = true;
    diff_entities(&left, &right, &String::new(), &mut findings);
    assert_eq!(findings.len(), 1);
    match &findings[0] {
        Finding::TypeMoved { path, baseline, decorated } => {
            assert_eq!(path, "Demo.Outer/Inner");
            assert!(!baseline.is_sealed);
            assert!(decorated.is_sealed);
        }
        other => panic!("unexpected finding {other:?}"),
    }
    findings.clear();
    right[0].nested_types.clear();
    diff_entities(&left, &right, &String::new(), &mut findings);
    assert_eq!(
        findings,
        vec![Finding::TypeCountMoved {
            path: "Demo.Outer/".to_string(),
            baseline: 1,
            decorated: 0,
        }]
    );
}

#[test]
fn an_entity_tells_its_first_divergence_alone() {
    let flipped = |name: &str| match method(name, Vec::new()) {
        Member::Method(mut m) => {
            m.is_static = !m.is_static;
            Member::Method(m)
        }
        other => other,
    };
    let mut outer = entity("Outer");
    outer.members = vec![method("a", Vec::new()), method("b", Vec::new())];
    let mut inner = entity("Inner");
    inner.namespace = Vec::new();
    outer.nested_types = vec![inner];
    let left = vec![outer];
    let mut right = left.clone();
    right[0].members = vec![flipped("a"), flipped("b")];
    right[0].is_sealed = true;
    let skipped = SkippedMember { name: "s".to_string(), reason: "refused".to_string() };
    right[0].skipped_members = vec![skipped.clone()];
    let first = || Finding::MemberMoved {
        path: "Demo.Outer.a".to_string(),
        baseline: method("a", Vec::new()),
        decorated: flipped("a"),
    };
    let mut findings = Vec::new();
    diff_entities(&left, &right, &String::new(), &mut findings);
    assert_eq!(findings, vec![first()]);
    // What is nested is an entity of its own.
    right[0].nested_types[0].skipped_members = vec![skipped.clone()];
    right[0].nested_types[0].is_sealed = true;
    findings.clear();
    diff_entities(&left, &right, &String::new(), &mut findings);
    let second = Finding::SkippedMembersMoved {
        path: "Demo.Outer/Inner".to_string(),
        baseline: Vec::new(),
        decorated: vec![skipped],
    };
    assert_eq!(findings, vec![first(), second]);
}

#[test]
fn hostile_shapes_are_reached_once() {
    let mut once = image();
    make_hostile(&mut once, HostileShape::ByRefFieldTypes);
    let p = once.type_defs[0].fields[0].signature.as_ref().unwrap();
    assert_eq!(p.ty, TypeSig::ByRef(Box::new(int_sig())));
    assert_eq!(once.type_defs[0].events[0], row("Changed"));
    let mut twice = once.clone();
    make_hostile(&mut twice, HostileShape::ByRefFieldTypes);
    assert_eq!(once, twice);
    let mut plain = image();
    make_hostile(&mut plain, HostileShape::Plain);
    assert_eq!(plain, image());
}

const OLD: CustomMod = CustomMod { required: true, modifier: TypeScope::Reference(3) };

const NEW: CustomMod = CustomMod { required: false, modifier: TypeScope::Definition(0) };

#[test]
fn a_modifier_is_put_in_front_of_every_position() {
    let inner = ModifiedType { mods: vec![OLD], ty: TypeSig::TypeVar(1) };
    let mut p = ModifiedType::plain(TypeSig::Generic {
        is_value_type: false,
        scope: TypeScope::Reference(1),
        args: vec![
            inner.clone(),
            ModifiedType::plain(TypeSig::SzArray(Box::new(inner.clone()))),
            ModifiedType::plain(TypeSig::Ptr(Some(Box::new(inner.clone())))),
            ModifiedType::plain(TypeSig::Ptr(None)),
        ],
    });
    decorate_position(&mut p, NEW);
    let deep = ModifiedType { mods: vec![NEW, OLD], ty: TypeSig::TypeVar(1) };
    let want = ModifiedType {
        mods: vec![NEW],
        ty: TypeSig::Generic {
            is_value_type: false,
            scope: TypeScope::Reference(1),
            args: vec![
                deep.clone(),
                ModifiedType { mods: vec![NEW], ty: TypeSig::SzArray(Box::new(deep.clone())) },
                ModifiedType { mods: vec![NEW], ty: TypeSig::Ptr(Some(Box::new(deep))) },
                ModifiedType { mods: vec![NEW], ty: TypeSig::Ptr(None) },
            ],
        },
    };
    assert_eq!(p, want);
}

#[test]
fn the_scope_says_what_is_decorated() {
    let mods = |p: &Option<ModifiedType>| p.as_ref().unwrap().mods.len();
    let mut members = image();
    decorate_image(&mut members, NEW, Scope::Members);
    let t = &members.type_defs[0];
    assert_eq!(mods(&t.fields[0].signature), 1);
    assert_eq!(mods(&t.generic_params[0].constraints[0]), 0);
    assert_eq!(mods(t.extends.as_ref().unwrap()), 0);
    assert_eq!(t.methods[0].signature.as_ref().unwrap().return_type, RetType::Void(vec![NEW]));
    assert_eq!(mods(&t.methods[0].implements[0]), 0);
    assert_eq!(members.member_refs, image().member_refs);
    let mut constraints = image();
    decorate_image(&mut constraints, NEW, Scope::Constraints);
    let t = &constraints.type_defs[0];
    assert_eq!(mods(&t.fields[0].signature), 0);
    assert_eq!(mods(&t.generic_params[0].constraints[0]), 1);
    assert_eq!(mods(&t.methods[0].generic_params[0].constraints[0]), 1);
    let mut everything = image();
    decorate_image(&mut everything, NEW, Scope::Everything);
    let t = &everything.type_defs[0];
    assert_eq!(mods(t.extends.as_ref().unwrap()), 1);
    assert_eq!(mods(&t.implements[0]), 1);
    assert_eq!(t.implements[1], None);
    assert_eq!(t.methods[0].unclassified_impls[0].mods, vec![NEW]);
    assert_eq!(
        everything.member_refs[0].signature.as_ref().unwrap().parameters[0].mods,
        vec![NEW]
    );
}
