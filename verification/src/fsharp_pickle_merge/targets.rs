//! What an abbreviation stands for.
//!
//! A shape that is not modelled is declined; only an index that dangles, which no
//! compiler writes, is an error. A list is declined as soon as one of its elements
//! is.
use crate::error::{Fault, ImportError};
use crate::fsharp_pickle::model::{
    IsType, PickledCcu, PickledEntity, PickledTcRef, PickledType, TupleKind,
};
use crate::fsharp_pickle_merge::lookup;
use crate::fsharp_pickle_merge::names;
use crate::fsharp_pickle_merge::names::clr_name;
use crate::fsharp_pickle_merge::walk;
use crate::fsharp_pickle_merge::walk::{Visit, VisitModel};
use crate::model::{AbbreviationTarget, AbbreviationTargetModel};
use crate::same::Duplicate;
use std::collections::HashMap;
use vstd::prelude::*;

verus! {

broadcast use vstd::std_specs::hash::group_hash_axioms;

/// The paths of the modules and types of an assembly, by stamp.
pub open spec fn paths_of(m: Map<u32, Vec<String>>) -> Map<u32, Seq<Seq<char>>> {
    Map::new(|k: u32| m.dom().contains(k), |k: u32| m[k].deep_view())
}

/// The paths of the visits from the `i`-th on, added to those in `acc`. Of a stamp
/// that is visited twice the later path counts.
pub open spec fn local_paths_from(
    ccu: PickledCcu,
    visits: Seq<VisitModel>,
    i: nat,
    acc: Map<u32, Seq<Seq<char>>>,
) -> Map<u32, Seq<Seq<char>>>
    decreases visits.len() - i,
{
    if i >= visits.len() {
        acc
    } else {
        let v = visits[i as int];
        let e = walk::tycon(ccu, v.stamp);
        local_paths_from(
            ccu,
            visits,
            i + 1,
            if !v.is_root && names::is_module_or_type(e) {
                acc.insert(v.stamp, (v.namespace + v.type_chain).push(names::clr_name_of(e)))
            } else {
                acc
            },
        )
    }
}

/// The failure of an index that dangles.
pub open spec fn dangling(kind: &'static str, index: u32, len: nat) -> Fault {
    Fault::OsgnIndexOutOfRange { kind, index, max: len as usize }
}

/// The texts of `path` from the `i`-th on, after those in `acc`, or the failure of
/// the first that dangles.
pub open spec fn path_texts_from(
    ccu: PickledCcu,
    path: Seq<u32>,
    i: nat,
    acc: Seq<Seq<char>>,
) -> Result<Seq<Seq<char>>, Fault>
    decreases path.len() - i,
{
    if i >= path.len() {
        Ok(acc)
    } else if path[i as int] >= ccu.header.strings@.len() {
        Err(
            dangling(
                "string (abbreviation target path)",
                path[i as int],
                ccu.header.strings@.len(),
            ),
        )
    } else {
        path_texts_from(
            ccu,
            path,
            i + 1,
            acc.push(ccu.header.strings@[path[i as int] as int]@),
        )
    }
}

/// The named target of a non-local reference, with the assembly's logical name and
/// the dotted path.
pub open spec fn nonlocal_named(
    ccu: PickledCcu,
    nle_idx: u32,
    args: Seq<AbbreviationTargetModel>,
) -> Result<AbbreviationTargetModel, Fault> {
    if nle_idx >= ccu.header.nlerefs@.len() {
        Err(dangling("nleref (abbreviation target)", nle_idx, ccu.header.nlerefs@.len()))
    } else {
        let nle = ccu.header.nlerefs@[nle_idx as int];
        if nle.ccu >= ccu.header.ccu_refs@.len() {
            Err(dangling("ccu ref (abbreviation target)", nle.ccu, ccu.header.ccu_refs@.len()))
        } else {
            match path_texts_from(ccu, nle.path@, 0, Seq::empty()) {
                Err(e) => Err(e),
                Ok(path) => Ok(
                    AbbreviationTargetModel::Named {
                        ccu: Some(ccu.header.ccu_refs@[nle.ccu as int].name@),
                        path,
                        args,
                    },
                ),
            }
        }
    }
}

/// The named target of a reference. A stamp of this assembly that is no module or
/// type is declined.
pub open spec fn named(
    ccu: PickledCcu,
    tcref: PickledTcRef,
    local: Map<u32, Seq<Seq<char>>>,
    args: Seq<AbbreviationTargetModel>,
) -> Result<Option<AbbreviationTargetModel>, Fault> {
    match tcref {
        PickledTcRef::NonLocal(idx) => match nonlocal_named(ccu, idx, args) {
            Err(e) => Err(e),
            Ok(t) => Ok(Some(t)),
        },
        PickledTcRef::Local(stamp) => if local.dom().contains(stamp) {
            Ok(Some(AbbreviationTargetModel::Named { ccu: None, path: local[stamp], args }))
        } else if stamp < ccu.tables.tycons@.len() {
            Ok(None)
        } else {
            Err(dangling("local tycon (abbreviation target)", stamp, ccu.tables.tycons@.len()))
        },
    }
}

/// What the type `t` of an abbreviation stands for.
pub open spec fn decoded(
    ccu: PickledCcu,
    e: PickledEntity,
    t: PickledType,
    local: Map<u32, Seq<Seq<char>>>,
) -> Result<Option<AbbreviationTargetModel>, Fault>
    decreases t, 0nat,
{
    match t {
        PickledType::Forall { typars, body } => decoded(ccu, e, *body, local),
        PickledType::Var { typar_index, nullness } => Ok(
            match lookup::first_from(e.typars@, 0, |x: u32| x == typar_index) {
                Some(pos) => Some(AbbreviationTargetModel::Var((pos as usize) as u16)),
                None => None,
            },
        ),
        PickledType::AppSimple { simpletyp_index, nullness } => if simpletyp_index
            >= ccu.header.simpletys@.len() {
            Err(
                dangling(
                    "simplety (abbreviation target)",
                    simpletyp_index,
                    ccu.header.simpletys@.len(),
                ),
            )
        } else {
            match nonlocal_named(
                ccu,
                ccu.header.simpletys@[simpletyp_index as int],
                Seq::empty(),
            ) {
                Err(e) => Err(e),
                Ok(t) => Ok(Some(t)),
            }
        },
        PickledType::App { tcref, args, nullness } => match decoded_list_from(
            ccu,
            e,
            args@,
            0,
            Seq::empty(),
            local,
        ) {
            Err(e) => Err(e),
            Ok(None) => Ok(None),
            Ok(Some(args)) => named(ccu, tcref, local, args),
        },
        PickledType::Fun { domain, range, nullness } => match decoded(ccu, e, *domain, local) {
            Err(e) => Err(e),
            Ok(None) => Ok(None),
            Ok(Some(d)) => match decoded(ccu, e, *range, local) {
                Err(e) => Err(e),
                Ok(None) => Ok(None),
                Ok(Some(r)) => Ok(
                    Some(AbbreviationTargetModel::Fun(Box::new(d), Box::new(r))),
                ),
            },
        },
        PickledType::Tuple { kind, elems } => if elems@.len() >= 2 {
            match decoded_list_from(ccu, e, elems@, 0, Seq::empty(), local) {
                Err(e) => Err(e),
                Ok(None) => Ok(None),
                Ok(Some(elems)) => Ok(
                    Some(
                        AbbreviationTargetModel::Tuple {
                            struct_kind: kind == TupleKind::Struct,
                            elems,
                        },
                    ),
                ),
            }
        } else {
            Ok(None)
        },
        PickledType::Measure(m) => Ok(None),
        PickledType::UCase { ucref, args } => Ok(None),
    }
}

/// What the types from the `i`-th on stand for, after those in `acc`.
pub open spec fn decoded_list_from(
    ccu: PickledCcu,
    e: PickledEntity,
    ts: Seq<PickledType>,
    i: nat,
    acc: Seq<AbbreviationTargetModel>,
    local: Map<u32, Seq<Seq<char>>>,
) -> Result<Option<Seq<AbbreviationTargetModel>>, Fault>
    decreases ts, ts.len() - i,
{
    if i >= ts.len() {
        Ok(Some(acc))
    } else {
        match decoded(ccu, e, ts[i as int], local) {
            Err(e) => Err(e),
            Ok(None) => Ok(None),
            Ok(Some(t)) => decoded_list_from(ccu, e, ts, i + 1, acc.push(t), local),
        }
    }
}

/// The only failure of a path is a text that dangles.
proof fn lemma_path_texts_fail(ccu: PickledCcu, path: Seq<u32>, i: nat, acc: Seq<Seq<char>>)
    ensures
        path_texts_from(ccu, path, i, acc) matches Err(f) ==> f is OsgnIndexOutOfRange,
    decreases path.len() - i,
{
    if i < path.len() && path[i as int] < ccu.header.strings@.len() {
        lemma_path_texts_fail(
            ccu,
            path,
            i + 1,
            acc.push(ccu.header.strings@[path[i as int] as int]@),
        );
    }
}

/// The only failure of a reference is an index that dangles.
proof fn lemma_named_fails(
    ccu: PickledCcu,
    tcref: PickledTcRef,
    local: Map<u32, Seq<Seq<char>>>,
    args: Seq<AbbreviationTargetModel>,
)
    ensures
        named(ccu, tcref, local, args) matches Err(f) ==> f is OsgnIndexOutOfRange,
{
    if let PickledTcRef::NonLocal(idx) = tcref {
        lemma_path_texts_fail(ccu, ccu.header.nlerefs@[idx as int].path@, 0, Seq::empty());
    }
}

/// The only failure of a list is an index that dangles.
proof fn lemma_decode_list_fails(
    ccu: PickledCcu,
    e: PickledEntity,
    ts: Seq<PickledType>,
    i: nat,
    acc: Seq<AbbreviationTargetModel>,
    local: Map<u32, Seq<Seq<char>>>,
)
    ensures
        decoded_list_from(ccu, e, ts, i, acc, local) matches Err(f) ==> f is OsgnIndexOutOfRange,
    decreases ts, ts.len() - i,
{
    if i < ts.len() {
        law_decode_fails_only_on_a_dangling_index(ccu, e, ts[i as int], local);
        if let Ok(Some(t)) = decoded(ccu, e, ts[i as int], local) {
            lemma_decode_list_fails(ccu, e, ts, i + 1, acc.push(t), local);
        }
    }
}

/// The only failure of decoding what an abbreviation stands for is an index that
/// dangles: a shape that is not modelled is declined.
pub proof fn law_decode_fails_only_on_a_dangling_index(
    ccu: PickledCcu,
    e: PickledEntity,
    t: PickledType,
    local: Map<u32, Seq<Seq<char>>>,
)
    ensures
        decoded(ccu, e, t, local) matches Err(f) ==> f is OsgnIndexOutOfRange,
    decreases t, 0nat,
{
    match t {
        PickledType::Forall { typars, body } => {
            law_decode_fails_only_on_a_dangling_index(ccu, e, *body, local);
        },
        PickledType::AppSimple { simpletyp_index, nullness } => {
            if simpletyp_index < ccu.header.simpletys@.len() {
                let idx = ccu.header.simpletys@[simpletyp_index as int];
                lemma_path_texts_fail(ccu, ccu.header.nlerefs@[idx as int].path@, 0, Seq::empty());
            }
        },
        PickledType::App { tcref, args, nullness } => {
            lemma_decode_list_fails(ccu, e, args@, 0, Seq::empty(), local);
            if let Ok(Some(args)) = decoded_list_from(ccu, e, args@, 0, Seq::empty(), local) {
                lemma_named_fails(ccu, tcref, local, args);
            }
        },
        PickledType::Fun { domain, range, nullness } => {
            law_decode_fails_only_on_a_dangling_index(ccu, e, *domain, local);
            law_decode_fails_only_on_a_dangling_index(ccu, e, *range, local);
        },
        PickledType::Tuple { kind, elems } => {
            lemma_decode_list_fails(ccu, e, elems@, 0, Seq::empty(), local);
        },
        _ => {},
    }
}

/// The paths of the modules and types of an assembly, by stamp, of these visits.
fn local_paths(pickled: &PickledCcu, visits: &Vec<Visit>) -> (r: HashMap<u32, Vec<String>>)
    requires
        walk::in_table(*pickled, visits.deep_view()),
    ensures
        paths_of(r@) == local_paths_from(*pickled, visits.deep_view(), 0, Map::empty()),
{
    let mut map: HashMap<u32, Vec<String>> = HashMap::new();
    assert(paths_of(map@) =~= Map::empty());
    let mut i: usize = 0;
    while i < visits.len()
        invariant
            i <= visits.len(),
            walk::in_table(*pickled, visits.deep_view()),
            local_paths_from(*pickled, visits.deep_view(), 0, Map::empty()) == local_paths_from(
                *pickled,
                visits.deep_view(),
                i as nat,
                paths_of(map@),
            ),
        decreases visits.len() - i,
    {
        let visit = &visits[i];
        assert(visits.deep_view()[i as int] == visit.deep_view());
        let entity = &pickled.tables.tycons[visit.stamp as usize];
        let is_module_or_type: bool = match entity.module_type.is_type {
            IsType::ModuleOrType | IsType::FSharpModuleWithSuffix => true,
            IsType::Namespace => false,
        };
        if !visit.is_root && is_module_or_type {
            let mut segments: Vec<String> = visit.namespace.dup();
            let mut chain: Vec<String> = visit.type_chain.dup();
            let ghost a = segments.deep_view();
            let ghost b = chain.deep_view();
            segments.append(&mut chain);
            assert(segments.deep_view() =~= a + b);
            let name = clr_name(entity);
            segments.push(name);
            assert(segments.deep_view() =~= (a + b).push(name@));
            let ghost before = map@;
            map.insert(visit.stamp, segments);
            assert(paths_of(map@) =~= paths_of(before).insert(
                visit.stamp,
                segments.deep_view(),
            ));
        }
        i = i + 1;
    }
    map
}

/// The paths of the modules and types of an assembly, by stamp.
pub fn local_tycon_fqns(pickled: &PickledCcu) -> (r: Result<HashMap<u32, Vec<String>>, ImportError>)
    ensures
        match walk::steps_of(*pickled).end {
            None => r is Ok && paths_of(r->Ok_0@) == local_paths_from(
                *pickled,
                walk::steps_of(*pickled).visits,
                0,
                Map::empty(),
            ),
            Some(e) => r is Err && r->Err_0.deep_view() == e,
        },
{
    let (visits, end) = walk::walk(pickled);
    end?;
    Ok(local_paths(pickled, &visits))
}

/// The texts of a path, or the failure of the first index that dangles.
fn path_texts(pickled: &PickledCcu, path: &Vec<u32>) -> (r: Result<Vec<String>, ImportError>)
    ensures
        match path_texts_from(*pickled, path@, 0, Seq::empty()) {
            Ok(ts) => r is Ok && r->Ok_0.deep_view() == ts,
            Err(e) => r is Err && r->Err_0.deep_view() == e,
        },
{
    let mut out: Vec<String> = Vec::new();
    assert(out.deep_view() =~= Seq::empty());
    let mut i: usize = 0;
    while i < path.len()
        invariant
            i <= path.len(),
            path_texts_from(*pickled, path@, 0, Seq::empty()) == path_texts_from(
                *pickled,
                path@,
                i as nat,
                out.deep_view(),
            ),
        decreases path.len() - i,
    {
        let idx: u32 = path[i];
        if idx as usize >= pickled.header.strings.len() {
            return Err(
                ImportError::OsgnIndexOutOfRange {
                    kind: "string (abbreviation target path)",
                    index: idx,
                    max: pickled.header.strings.len(),
                },
            );
        }
        let ghost before = out.deep_view();
        let segment = pickled.header.strings[idx as usize].clone();
        out.push(segment);
        assert(out.deep_view() =~= before.push(segment@));
        i = i + 1;
    }
    Ok(out)
}

/// The named target of a non-local reference.
fn decode_nonlocal_named(
    pickled: &PickledCcu,
    nle_idx: u32,
    args: Vec<AbbreviationTarget>,
) -> (r: Result<AbbreviationTarget, ImportError>)
    ensures
        match nonlocal_named(*pickled, nle_idx, args.deep_view()) {
            Ok(t) => r is Ok && r->Ok_0.deep_view() == t,
            Err(e) => r is Err && r->Err_0.deep_view() == e,
        },
{
    broadcast use crate::model::lemma_target_model_lists;

    if nle_idx as usize >= pickled.header.nlerefs.len() {
        return Err(
            ImportError::OsgnIndexOutOfRange {
                kind: "nleref (abbreviation target)",
                index: nle_idx,
                max: pickled.header.nlerefs.len(),
            },
        );
    }
    let nle = &pickled.header.nlerefs[nle_idx as usize];
    if nle.ccu as usize >= pickled.header.ccu_refs.len() {
        return Err(
            ImportError::OsgnIndexOutOfRange {
                kind: "ccu ref (abbreviation target)",
                index: nle.ccu,
                max: pickled.header.ccu_refs.len(),
            },
        );
    }
    let ccu = pickled.header.ccu_refs[nle.ccu as usize].name.clone();
    let path = path_texts(pickled, &nle.path)?;
    Ok(AbbreviationTarget::Named { ccu: Some(ccu), path, args })
}

/// The named target of a reference.
fn decode_named_tcref(
    pickled: &PickledCcu,
    tcref: &PickledTcRef,
    local_fqns: &HashMap<u32, Vec<String>>,
    args: Vec<AbbreviationTarget>,
) -> (r: Result<Option<AbbreviationTarget>, ImportError>)
    ensures
        match named(*pickled, *tcref, paths_of(local_fqns@), args.deep_view()) {
            Ok(t) => r is Ok && r->Ok_0.deep_view() == t,
            Err(e) => r is Err && r->Err_0.deep_view() == e,
        },
{
    broadcast use crate::model::lemma_target_model_lists;

    match tcref {
        PickledTcRef::NonLocal(idx) => {
            let t = decode_nonlocal_named(pickled, *idx, args)?;
            Ok(Some(t))
        },
        PickledTcRef::Local(stamp) => match local_fqns.get(stamp) {
            Some(path) => Ok(
                Some(AbbreviationTarget::Named { ccu: None, path: path.dup(), args }),
            ),
            None => if (*stamp as usize) < pickled.tables.tycons.len() {
                Ok(None)
            } else {
                Err(
                    ImportError::OsgnIndexOutOfRange {
                        kind: "local tycon (abbreviation target)",
                        index: *stamp,
                        max: pickled.tables.tycons.len(),
                    },
                )
            },
        },
    }
}

/// The place of a type parameter among those of the entity.
fn typar_position(typars: &Vec<u32>, typar: u32) -> (r: Option<usize>)
    ensures
        match lookup::first_from(typars@, 0, |x: u32| x == typar) {
            Some(i) => r is Some && r->0 == i,
            None => r is None,
        },
{
    let ghost p = |x: u32| x == typar;
    let mut i: usize = 0;
    while i < typars.len()
        invariant
            i <= typars.len(),
            p == (|x: u32| x == typar),
            forall|j: int| 0 <= j < i ==> !p(#[trigger] typars@[j]),
        decreases typars.len() - i,
    {
        if typars[i] == typar {
            proof {
                lookup::lemma_first_is(typars@, 0, i as int, p);
            }
            return Some(i);
        }
        i = i + 1;
    }
    proof {
        lookup::lemma_first_is(typars@, 0, i as int, p);
    }
    None
}

/// What the type of an abbreviation stands for, or nothing where its shape is not
/// modelled.
pub fn decode_abbreviation_target(
    pickled: &PickledCcu,
    entity: &PickledEntity,
    ty: &PickledType,
    local_fqns: &HashMap<u32, Vec<String>>,
) -> (r: Result<Option<AbbreviationTarget>, ImportError>)
    ensures
        match decoded(*pickled, *entity, *ty, paths_of(local_fqns@)) {
            Ok(t) => r is Ok && r->Ok_0.deep_view() == t,
            Err(e) => r is Err && r->Err_0.deep_view() == e,
        },
    decreases *ty, 0nat,
{
    broadcast use crate::model::lemma_target_model_lists;

    match ty {
        PickledType::Forall { typars: _, body } => decode_abbreviation_target(
            pickled,
            entity,
            body,
            local_fqns,
        ),
        PickledType::Var { typar_index, nullness: _ } => match typar_position(
            &entity.typars,
            *typar_index,
        ) {
            Some(pos) => Ok(Some(AbbreviationTarget::Var(pos as u16))),
            None => Ok(None),
        },
        PickledType::AppSimple { simpletyp_index, nullness: _ } => {
            if *simpletyp_index as usize >= pickled.header.simpletys.len() {
                return Err(
                    ImportError::OsgnIndexOutOfRange {
                        kind: "simplety (abbreviation target)",
                        index: *simpletyp_index,
                        max: pickled.header.simpletys.len(),
                    },
                );
            }
            let nle_idx: u32 = pickled.header.simpletys[*simpletyp_index as usize];
            let none: Vec<AbbreviationTarget> = Vec::new();
            assert(none.deep_view() =~= Seq::empty());
            let t = decode_nonlocal_named(pickled, nle_idx, none)?;
            Ok(Some(t))
        },
        PickledType::App { tcref, args, nullness: _ } => {
            match decode_targets(pickled, entity, args, local_fqns)? {
                Some(decoded) => decode_named_tcref(pickled, tcref, local_fqns, decoded),
                None => Ok(None),
            }
        },
        PickledType::Fun { domain, range, nullness: _ } => {
            let d = match decode_abbreviation_target(pickled, entity, domain, local_fqns)? {
                Some(d) => d,
                None => {
                    return Ok(None);
                },
            };
            let r = match decode_abbreviation_target(pickled, entity, range, local_fqns)? {
                Some(r) => r,
                None => {
                    return Ok(None);
                },
            };
            Ok(Some(AbbreviationTarget::Fun(Box::new(d), Box::new(r))))
        },
        PickledType::Tuple { kind, elems } => {
            if elems.len() < 2 {
                return Ok(None);
            }
            match decode_targets(pickled, entity, elems, local_fqns)? {
                Some(elems) => Ok(
                    Some(
                        AbbreviationTarget::Tuple {
                            struct_kind: *kind == TupleKind::Struct,
                            elems,
                        },
                    ),
                ),
                None => Ok(None),
            }
        },
        PickledType::Measure(_) => Ok(None),
        PickledType::UCase { ucref: _, args: _ } => Ok(None),
    }
}

/// What each of the types stands for, or nothing where one of them is declined.
fn decode_targets(
    pickled: &PickledCcu,
    entity: &PickledEntity,
    tys: &Vec<PickledType>,
    local_fqns: &HashMap<u32, Vec<String>>,
) -> (r: Result<Option<Vec<AbbreviationTarget>>, ImportError>)
    ensures
        match decoded_list_from(
            *pickled,
            *entity,
            tys@,
            0,
            Seq::empty(),
            paths_of(local_fqns@),
        ) {
            Ok(ts) => r is Ok && r->Ok_0.deep_view() == ts,
            Err(e) => r is Err && r->Err_0.deep_view() == e,
        },
    decreases tys@, 0nat,
{
    let mut out: Vec<AbbreviationTarget> = Vec::new();
    assert(out.deep_view() =~= Seq::empty());
    let mut i: usize = 0;
    while i < tys.len()
        invariant
            i <= tys.len(),
            decoded_list_from(
                *pickled,
                *entity,
                tys@,
                0,
                Seq::empty(),
                paths_of(local_fqns@),
            ) == decoded_list_from(
                *pickled,
                *entity,
                tys@,
                i as nat,
                out.deep_view(),
                paths_of(local_fqns@),
            ),
        decreases tys.len() - i,
    {
        match decode_abbreviation_target(pickled, entity, &tys[i], local_fqns)? {
            Some(target) => {
                let ghost before = out.deep_view();
                out.push(target);
                assert(out.deep_view() =~= before.push(target.deep_view()));
            },
            None => {
                return Ok(None);
            },
        }
        i = i + 1;
    }
    Ok(Some(out))
}

} // verus!
