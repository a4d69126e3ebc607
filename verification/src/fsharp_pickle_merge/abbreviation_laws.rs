//! What the markers of abbreviations stand for, in terms of what the pickle declares.
use crate::fsharp_pickle::model::{
    PickledAttribute, PickledCcu, PickledEntity, PickledTcRef, PickledType, TyparKind,
};
use crate::fsharp_pickle_merge::abbreviations;
use crate::fsharp_pickle_merge::abbreviations::SiteModel;
use crate::fsharp_pickle_merge::lookup;
use crate::fsharp_pickle_merge::names;
use crate::fsharp_pickle_merge::overlay_laws::{
    is_entity_place, is_stem, law_an_entity_goes_by_its_compiled_name, law_entity_place_is_found,
    lemma_stem,
};
use crate::fsharp_pickle_merge::targets;
use crate::fsharp_pickle_merge::walk;
use crate::fsharp_pickle_merge::walk::VisitModel;
use crate::model::{
    AbbreviationTargetModel, Access, AssemblyIdentityModel, EntityKind, Variance,
};
use vstd::prelude::*;

verus! {

/// The target names the entity that the reference leads to: one of the pickle by its path
/// in the metadata, one of another assembly by that assembly and the strings of its path.
pub open spec fn names_entity(
    ccu: PickledCcu,
    local: Map<u32, Seq<Seq<char>>>,
    r: PickledTcRef,
    assembly: Option<Seq<char>>,
    path: Seq<Seq<char>>,
) -> bool {
    match r {
        PickledTcRef::Local(stamp) => {
            assembly is None && local.dom().contains(stamp) && path == local[stamp]
        },
        PickledTcRef::NonLocal(i) => {
            &&& i < ccu.header.nlerefs@.len()
            &&& names_nonlocal(ccu, i, assembly, path)
        },
    }
}

/// The assembly and the path are those of the non-local reference.
pub open spec fn names_nonlocal(
    ccu: PickledCcu,
    i: u32,
    assembly: Option<Seq<char>>,
    path: Seq<Seq<char>>,
) -> bool {
    let nle = ccu.header.nlerefs@[i as int];
    &&& nle.ccu < ccu.header.ccu_refs@.len()
    &&& assembly == Some(ccu.header.ccu_refs@[nle.ccu as int].name@)
    &&& path.len() == nle.path@.len()
    &&& forall|j: int| 0 <= j < path.len() ==> spells(ccu, nle.path@[j], #[trigger] path[j])
}

/// The target stands for the type, inside the declaration of `e`.
pub open spec fn stands_for(
    ccu: PickledCcu,
    e: PickledEntity,
    local: Map<u32, Seq<Seq<char>>>,
    t: PickledType,
    x: AbbreviationTargetModel,
) -> bool
    decreases t, 0nat,
{
    match t {
        PickledType::Forall { typars, body } => stands_for(ccu, e, local, *body, x),
        PickledType::Var { typar_index, nullness } => match x {
            AbbreviationTargetModel::Var(i) => {
                e.typars@.len() <= 0x1_0000 ==> i < e.typars@.len() && e.typars@[i as int]
                    == typar_index && forall|j: int|
                    0 <= j < i ==> #[trigger] e.typars@[j] != typar_index
            },
            _ => false,
        },
        PickledType::AppSimple { simpletyp_index, nullness } => match x {
            AbbreviationTargetModel::Named { ccu: assembly, path, args } => {
                &&& simpletyp_index < ccu.header.simpletys@.len()
                &&& names_entity(
                    ccu,
                    local,
                    PickledTcRef::NonLocal(ccu.header.simpletys@[simpletyp_index as int]),
                    assembly,
                    path,
                )
                &&& args.len() == 0
            },
            _ => false,
        },
        PickledType::App { tcref, args: parts, nullness } => match x {
            AbbreviationTargetModel::Named { ccu: assembly, path, args } => {
                &&& names_entity(ccu, local, tcref, assembly, path)
                &&& stand_for(ccu, e, local, parts@, args)
            },
            _ => false,
        },
        PickledType::Fun { domain, range, nullness } => match x {
            AbbreviationTargetModel::Fun(a, b) => stands_for(ccu, e, local, *domain, *a)
                && stands_for(ccu, e, local, *range, *b),
            _ => false,
        },
        PickledType::Tuple { kind, elems: parts } => match x {
            AbbreviationTargetModel::Tuple { struct_kind, elems } => {
                &&& parts@.len() >= 2
                &&& struct_kind <==> kind is Struct
                &&& stand_for(ccu, e, local, parts@, elems)
            },
            _ => false,
        },
        _ => false,
    }
}

/// The targets stand for the types, one for each.
pub open spec fn stand_for(
    ccu: PickledCcu,
    e: PickledEntity,
    local: Map<u32, Seq<Seq<char>>>,
    ts: Seq<PickledType>,
    xs: Seq<AbbreviationTargetModel>,
) -> bool
    decreases ts, 0nat,
{
    xs.len() == ts.len() && forall|i: int|
        0 <= i < ts.len() ==> stands_for(ccu, e, local, #[trigger] ts[i], xs[i])
}

/// The text is the string under the index.
pub open spec fn spells(ccu: PickledCcu, i: u32, x: Seq<char>) -> bool {
    i < ccu.header.strings@.len() && x == ccu.header.strings@[i as int]@
}

proof fn lemma_path(ccu: PickledCcu, path: Seq<u32>, i: nat, acc: Seq<Seq<char>>)
    requires
        i <= path.len(),
        acc.len() == i,
        forall|j: int| 0 <= j < acc.len() ==> spells(ccu, path[j], #[trigger] acc[j]),
        targets::path_texts_from(ccu, path, i, acc) is Ok,
    ensures
        ({
            let p = targets::path_texts_from(ccu, path, i, acc)->Ok_0;
            p.len() == path.len() && forall|j: int|
                0 <= j < p.len() ==> spells(ccu, path[j], #[trigger] p[j])
        }),
    decreases path.len() - i,
{
    if i < path.len() {
        let x = ccu.header.strings@[path[i as int] as int]@;
        let next = acc.push(x);
        assert forall|j: int| 0 <= j < next.len() implies spells(
            ccu,
            path[j],
            #[trigger] next[j],
        ) by {
            if j < acc.len() {
                assert(next[j] == acc[j]);
            }
        }
        lemma_path(ccu, path, i + 1, next);
    }
}

/// A non-local reference is named.
proof fn lemma_nonlocal(
    ccu: PickledCcu,
    local: Map<u32, Seq<Seq<char>>>,
    i: u32,
    args: Seq<AbbreviationTargetModel>,
)
    ensures
        match targets::nonlocal_named(ccu, i, args) {
            Ok(AbbreviationTargetModel::Named { ccu: assembly, path, args: xs }) => names_entity(
                ccu,
                local,
                PickledTcRef::NonLocal(i),
                assembly,
                path,
            ) && xs == args,
            Ok(_) => false,
            Err(_) => true,
        },
{
    if targets::nonlocal_named(ccu, i, args) is Ok {
        lemma_path(ccu, ccu.header.nlerefs@[i as int].path@, 0, Seq::empty());
    }
}

/// The target of an abbreviation stands for the type that is abbreviated.
pub proof fn law_target_stands_for_the_type(
    ccu: PickledCcu,
    e: PickledEntity,
    t: PickledType,
    local: Map<u32, Seq<Seq<char>>>,
)
    ensures
        targets::decoded(ccu, e, t, local) matches Ok(Some(x)) ==> stands_for(
            ccu,
            e,
            local,
            t,
            x,
        ),
    decreases t, 0nat,
{
    match t {
        PickledType::Forall { typars, body } => {
            law_target_stands_for_the_type(ccu, e, *body, local);
        },
        PickledType::Var { typar_index, nullness } => {
            let q = |x: u32| x == typar_index;
            lookup::lemma_first_found(e.typars@, 0, q);
            if let Some(n) = lookup::first_from(e.typars@, 0, q) {
                lemma_first(e.typars@, 0, q);
            }
        },
        PickledType::AppSimple { simpletyp_index, nullness } => {
            if simpletyp_index < ccu.header.simpletys@.len() {
                lemma_nonlocal(
                    ccu,
                    local,
                    ccu.header.simpletys@[simpletyp_index as int],
                    Seq::empty(),
                );
            }
        },
        PickledType::App { tcref, args, nullness } => {
            lemma_list(ccu, e, args@, 0, Seq::empty(), local);
            if let Ok(Some(xs)) = targets::decoded_list_from(
                ccu,
                e,
                args@,
                0,
                Seq::empty(),
                local,
            ) {
                if let PickledTcRef::NonLocal(i) = tcref {
                    lemma_nonlocal(ccu, local, i, xs);
                }
            }
        },
        PickledType::Fun { domain, range, nullness } => {
            law_target_stands_for_the_type(ccu, e, *domain, local);
            law_target_stands_for_the_type(ccu, e, *range, local);
        },
        PickledType::Tuple { kind, elems } => {
            lemma_list(ccu, e, elems@, 0, Seq::empty(), local);
        },
        _ => {},
    }
}

/// No element before the first one satisfies the condition.
proof fn lemma_first<T>(s: Seq<T>, i: int, q: spec_fn(T) -> bool)
    requires
        0 <= i,
    ensures
        lookup::first_from(s, i, q) matches Some(n) ==> forall|j: int|
            i <= j < n ==> !q(#[trigger] s[j]),
    decreases s.len() - i,
{
    if i < s.len() && !q(s[i]) {
        lemma_first(s, i + 1, q);
    }
}

proof fn lemma_list(
    ccu: PickledCcu,
    e: PickledEntity,
    ts: Seq<PickledType>,
    i: nat,
    acc: Seq<AbbreviationTargetModel>,
    local: Map<u32, Seq<Seq<char>>>,
)
    requires
        i <= ts.len(),
        acc.len() == i,
        forall|j: int| 0 <= j < i ==> stands_for(ccu, e, local, #[trigger] ts[j], acc[j]),
    ensures
        targets::decoded_list_from(ccu, e, ts, i, acc, local) matches Ok(Some(xs)) ==> stand_for(
            ccu,
            e,
            local,
            ts,
            xs,
        ),
    decreases ts, ts.len() - i,
{
    if i < ts.len() {
        law_target_stands_for_the_type(ccu, e, ts[i as int], local);
        if let Ok(Some(x)) = targets::decoded(ccu, e, ts[i as int], local) {
            lemma_list(ccu, e, ts, i + 1, acc.push(x), local);
        }
    }
}

/// The strings of the path, as far as they are in the table.
pub open spec fn is_auto_open_attribute(ccu: PickledCcu, a: PickledAttribute) -> bool {
    match a.tcref {
        PickledTcRef::NonLocal(i) => {
            let path = ccu.header.nlerefs@[i as int].path@;
            &&& i < ccu.header.nlerefs@.len()
            &&& path.len() == 4
            &&& forall|j: int|
                0 <= j < 4 ==> (#[trigger] path[j]) < ccu.header.strings@.len()
            &&& ccu.header.strings@[path[0] as int]@ == "Microsoft"@
            &&& ccu.header.strings@[path[1] as int]@ == "FSharp"@
            &&& ccu.header.strings@[path[2] as int]@ == "Core"@
            &&& ccu.header.strings@[path[3] as int]@ == "AutoOpenAttribute"@
        },
        PickledTcRef::Local(_) => false,
    }
}

/// An attribute of the well-known path is recognised.
pub proof fn law_auto_open_is_recognised(ccu: PickledCcu, a: PickledAttribute)
    requires
        is_auto_open_attribute(ccu, a),
    ensures
        names::is_auto_open(ccu, a),
{
    if let PickledTcRef::NonLocal(i) = a.tcref {
        let path = ccu.header.nlerefs@[i as int].path@;
        assert(path[0] < ccu.header.strings@.len() && path[1] < ccu.header.strings@.len()
            && path[2] < ccu.header.strings@.len() && path[3] < ccu.header.strings@.len());
        reveal_with_fuel(names::nle_path_from, 5);
        assert(names::nle_path_from(ccu, path, 0) =~= names::auto_open_path());
    }
}

/// The site is that of the visited entity: its level, its name, its type parameters, and
/// whether it is an exception or stands for a type.
pub open spec fn is_site_of(
    ccu: PickledCcu,
    v: VisitModel,
    local: Map<u32, Seq<Seq<char>>>,
    s: SiteModel,
) -> bool {
    let e = walk::tycon(ccu, v.stamp);
    &&& !v.is_root && e.access@.len() == 0
    &&& s.namespace == v.namespace && s.type_chain == v.type_chain
    &&& is_stem(
        s.name,
        match e.compiled_name {
            Some(c) => c@,
            None => e.logical_name@,
        },
    )
    &&& is_entity_place(ccu, e, s.definition_range)
    &&& s.is_exception <==> e.exn_repr is Abbrev || e.exn_repr is Asm
    &&& s.is_exception ==> s.source_name is None && s.typar_names.len() == 0 && !s.is_auto_open
        && s.abbreviation_target is None
    &&& !s.is_exception ==> {
        &&& e.type_abbrev is Some
        &&& e.typar_kind == TyparKind::Type
        &&& s.typar_names.len() == e.typars@.len()
        &&& forall|i: int|
            0 <= i < e.typars@.len() ==> names_typar(
                ccu,
                e.typars@[i],
                #[trigger] s.typar_names[i],
            )
        &&& match s.source_name {
            Some(n) => e.compiled_name is Some && e.compiled_name->0@ != e.logical_name@
                && is_stem(n, e.logical_name@),
            None => e.compiled_name is Some ==> e.compiled_name->0@ == e.logical_name@,
        }
        &&& s.abbreviation_target is Some ==> stands_for(
            ccu,
            e,
            local,
            e.type_abbrev->0,
            s.abbreviation_target->0,
        )
        &&& (exists|i: int|
            0 <= i < e.attribs@.len() && is_auto_open_attribute(ccu, #[trigger] e.attribs@[i]))
            ==> s.is_auto_open
    }
}

/// The text is the name of the type parameter under the stamp.
pub open spec fn names_typar(ccu: PickledCcu, i: u32, x: Seq<char>) -> bool {
    i < ccu.tables.typars@.len() && x == ccu.tables.typars@[i as int].ident.name@
}

proof fn lemma_typar_names(ccu: PickledCcu, typars: Seq<u32>, i: nat, acc: Seq<Seq<char>>)
    requires
        i <= typars.len(),
        acc.len() == i,
        forall|j: int| 0 <= j < acc.len() ==> names_typar(ccu, typars[j], #[trigger] acc[j]),
        abbreviations::typar_names_from(ccu, typars, i, acc) is Ok,
    ensures
        ({
            let p = abbreviations::typar_names_from(ccu, typars, i, acc)->Ok_0;
            p.len() == typars.len() && forall|j: int|
                0 <= j < p.len() ==> names_typar(ccu, typars[j], #[trigger] p[j])
        }),
    decreases typars.len() - i,
{
    if i < typars.len() {
        let x = ccu.tables.typars@[typars[i as int] as int].ident.name@;
        let next = acc.push(x);
        assert forall|j: int| 0 <= j < next.len() implies names_typar(
            ccu,
            typars[j],
            #[trigger] next[j],
        ) by {
            if j < acc.len() {
                assert(next[j] == acc[j]);
            }
        }
        lemma_typar_names(ccu, typars, i + 1, next);
    }
}

/// A site is that of the visited entity, and an accessible entity other than the root has
/// none only where it is neither an exception that stands for another nor a type that
/// stands for another.
pub proof fn law_sites_are_those_of_the_pickle(
    ccu: PickledCcu,
    v: VisitModel,
    local: Map<u32, Seq<Seq<char>>>,
)
    ensures
        match abbreviations::site_at(ccu, v, local) {
            Ok(Some(s)) => is_site_of(ccu, v, local, s),
            Ok(None) => {
                let e = walk::tycon(ccu, v.stamp);
                v.is_root || e.access@.len() > 0 || (!(e.exn_repr is Abbrev) && !(
                e.exn_repr is Asm) && (e.type_abbrev is None || e.typar_kind
                    == TyparKind::Measure))
            },
            Err(_) => true,
        },
{
    let e = walk::tycon(ccu, v.stamp);
    law_an_entity_goes_by_its_compiled_name(e);
    lemma_stem(e.logical_name@);
    law_entity_place_is_found(ccu, e);
    if abbreviations::typar_names_from(ccu, e.typars@, 0, Seq::empty()) is Ok {
        lemma_typar_names(ccu, e.typars@, 0, Seq::empty());
    }
    if e.type_abbrev is Some {
        law_target_stands_for_the_type(ccu, e, e.type_abbrev->0, local);
    }
    if exists|i: int|
        0 <= i < e.attribs@.len() && is_auto_open_attribute(ccu, #[trigger] e.attribs@[i]) {
        let i = choose|i: int|
            0 <= i < e.attribs@.len() && is_auto_open_attribute(ccu, #[trigger] e.attribs@[i]);
        law_auto_open_is_recognised(ccu, e.attribs@[i]);
        assert(names::is_auto_open(ccu, e.attribs@[i]));
    }
}

/// A marker is a public entity with the name of its site and its type parameters, which
/// are free of constraints, and without members.
pub proof fn law_a_marker_shows_its_site(
    assembly: AssemblyIdentityModel,
    namespace: Seq<Seq<char>>,
    s: SiteModel,
)
    ensures
        ({
            let m = abbreviations::marker(assembly, namespace, s);
            &&& m.assembly == assembly && m.namespace == namespace && m.name == s.name
            &&& s.is_exception ==> m.kind == EntityKind::Exception
            &&& !s.is_exception ==> m.kind == EntityKind::Abbreviation
            &&& m.access == Access::Public
            &&& m.source_name == s.source_name
            &&& m.is_auto_open <==> s.is_auto_open
            &&& m.abbreviation_target == s.abbreviation_target
            &&& m.definition_range == s.definition_range
            &&& m.generic_parameters.len() == s.typar_names.len()
            &&& forall|i: int|
                0 <= i < s.typar_names.len() ==> {
                    let p = #[trigger] m.generic_parameters[i];
                    &&& p.name == s.typar_names[i]
                    &&& p.variance == Variance::Invariant
                    &&& p.type_constraints.len() == 0
                    &&& !p.reference_type_constraint && !p.value_type_constraint
                    &&& !p.default_constructor_constraint && !p.is_unmanaged
                    &&& !p.allows_ref_struct
                }
            &&& m.members.len() == 0 && m.nested_types.len() == 0 && m.skipped_members.len() == 0
            &&& m.base_type is None && m.interfaces.len() == 0
            &&& !m.is_sealed && !m.is_struct && !m.is_readonly && !m.is_byref_like
            &&& !m.is_require_qualified_access && !m.is_no_equality && !m.is_no_comparison
            &&& !m.is_structural_equality && !m.is_structural_comparison
            &&& !m.is_allow_null_literal && !m.is_extension_container
            &&& m.obsolete is None && m.experimental is None && m.default_member is None
            &&& m.union_case_names is None
            &&& m.extension_member_names.len() == 0 && m.static_extension_member_names.len() == 0
        }),
{
}

} // verus!
