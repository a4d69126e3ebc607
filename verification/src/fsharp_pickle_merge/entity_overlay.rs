//! The entity overlay: the F# name and the declaration range of each entity.
//!
//! Both facts are carried from the pickle, but not in the same way. The name is
//! carried for modules and types, by the first entity that answers to the path. It
//! is set even where it is absent, which clears a stale one. The range is carried
//! for measures too, and only where the path is unambiguous on both sides: two
//! types that differ in arity alone have one name in the metadata, and the range
//! of the wrong one would be worse than none.
use crate::error::ImportError;
use crate::fsharp_pickle::model::{IsType, PickledCcu, PickledTyconRepr, TyparKind};
use crate::fsharp_pickle_merge::frame;
use crate::fsharp_pickle_merge::lookup;
use crate::fsharp_pickle_merge::lookup::{find_entity_mut, find_entity_unique_mut};
use crate::fsharp_pickle_merge::measure;
use crate::fsharp_pickle_merge::names;
use crate::fsharp_pickle_merge::names::{clr_name, entity_source_name, resolve_entity_range};
use crate::fsharp_pickle_merge::steps;
use crate::fsharp_pickle_merge::walk;
use crate::fsharp_pickle_merge::walk::{Visit, VisitModel};
use crate::model::{Entity, EntityModel, FsharpSourceRange, FsharpSourceRangeModel};
use crate::same::{Duplicate, Same};
use vstd::prelude::*;

verus! {

/// Where a pickled entity lies in the entity tree, and what is carried onto it.
struct EntityOverlayTarget {
    namespace: Vec<String>,
    type_chain: Vec<String>,
    entity_source_name: Option<String>,
    is_module_or_type: bool,
    definition_range: Option<FsharpSourceRange>,
}

/// The model of an entity overlay target.
pub struct OverlayTargetModel {
    pub namespace: Seq<Seq<char>>,
    pub type_chain: Seq<Seq<char>>,
    pub entity_source_name: Option<Seq<char>>,
    pub is_module_or_type: bool,
    pub definition_range: Option<FsharpSourceRangeModel>,
}

impl DeepView for EntityOverlayTarget {
    type V = OverlayTargetModel;

    closed spec fn deep_view(&self) -> OverlayTargetModel {
        OverlayTargetModel {
            namespace: self.namespace.deep_view(),
            type_chain: self.type_chain.deep_view(),
            entity_source_name: self.entity_source_name.deep_view(),
            is_module_or_type: self.is_module_or_type,
            definition_range: self.definition_range.deep_view(),
        }
    }
}

/// The target that a visit contributes: one for each module, type and measure but
/// the root.
pub open spec fn target_at(ccu: PickledCcu, v: VisitModel) -> Option<OverlayTargetModel> {
    let e = walk::tycon(ccu, v.stamp);
    if !v.is_root && (names::is_module_or_type(e) || measure::is_measure_leaf(e)) {
        Some(
            OverlayTargetModel {
                namespace: v.namespace,
                type_chain: v.type_chain.push(names::clr_name_of(e)),
                entity_source_name: if names::is_module_or_type(e) {
                    names::source_name_of(e)
                } else {
                    None
                },
                is_module_or_type: names::is_module_or_type(e),
                definition_range: names::entity_range_of(ccu, e),
            },
        )
    } else {
        None
    }
}

/// The targets of the visits from the `i`-th on, after those in `acc`.
pub open spec fn targets_from(
    ccu: PickledCcu,
    visits: Seq<VisitModel>,
    i: nat,
    acc: Seq<OverlayTargetModel>,
) -> Seq<OverlayTargetModel>
    decreases visits.len() - i,
{
    if i >= visits.len() {
        acc
    } else {
        targets_from(
            ccu,
            visits,
            i + 1,
            match target_at(ccu, visits[i as int]) {
                Some(t) => acc.push(t),
                None => acc,
            },
        )
    }
}

/// The tree with the name of `t`, if it is that of a module or type, on the entity
/// that its path leads to.
pub open spec fn with_name(es: Seq<EntityModel>, t: OverlayTargetModel) -> Seq<EntityModel> {
    if t.is_module_or_type {
        match lookup::get(es, t.namespace, t.type_chain) {
            None => es,
            Some(e) => lookup::put(
                es,
                t.namespace,
                t.type_chain,
                EntityModel { source_name: t.entity_source_name, ..e },
            ),
        }
    } else {
        es
    }
}

/// The tree with the names of the targets from the `i`-th on.
pub open spec fn named_from(
    es: Seq<EntityModel>,
    targets: Seq<OverlayTargetModel>,
    i: nat,
) -> Seq<EntityModel>
    decreases targets.len() - i,
{
    if i >= targets.len() {
        es
    } else {
        named_from(with_name(es, targets[i as int]), targets, i + 1)
    }
}

/// The target lies at the path `namespace`, `chain`.
pub open spec fn at_path(namespace: Seq<Seq<char>>, chain: Seq<Seq<char>>) -> spec_fn(
    OverlayTargetModel,
) -> bool {
    |t: OverlayTargetModel| t.namespace == namespace && t.type_chain == chain
}

/// The range of `t` is carried: no other target has its path, and one entity
/// answers to it.
pub open spec fn carries_range(
    es: Seq<EntityModel>,
    targets: Seq<OverlayTargetModel>,
    t: OverlayTargetModel,
) -> bool {
    &&& t.definition_range is Some
    &&& lookup::count_from(targets, 0, at_path(t.namespace, t.type_chain)) == 1
    &&& lookup::unique(es, t.namespace, t.type_chain)
}

/// The tree with the range of `t`, if it is carried.
pub open spec fn with_range(
    es: Seq<EntityModel>,
    targets: Seq<OverlayTargetModel>,
    t: OverlayTargetModel,
) -> Seq<EntityModel> {
    if carries_range(es, targets, t) {
        lookup::put(
            es,
            t.namespace,
            t.type_chain,
            EntityModel {
                definition_range: t.definition_range,
                ..lookup::get(es, t.namespace, t.type_chain)->0
            },
        )
    } else {
        es
    }
}

/// The tree with the ranges of the targets from the `i`-th on.
pub open spec fn ranged_from(
    es: Seq<EntityModel>,
    targets: Seq<OverlayTargetModel>,
    i: nat,
) -> Seq<EntityModel>
    decreases targets.len() - i,
{
    if i >= targets.len() {
        es
    } else {
        ranged_from(with_range(es, targets, targets[i as int]), targets, i + 1)
    }
}

/// The tree after the entity overlay of a walk with these visits.
pub open spec fn overlaid(
    es: Seq<EntityModel>,
    ccu: PickledCcu,
    visits: Seq<VisitModel>,
) -> Seq<EntityModel> {
    let targets = targets_from(ccu, visits, 0, Seq::empty());
    ranged_from(named_from(es, targets, 0), targets, 0)
}

/// The entity but for its F# name and its place of declaration.
pub open spec fn but_name_and_range() -> spec_fn(EntityModel) -> EntityModel {
    |e: EntityModel| EntityModel { source_name: None, definition_range: None, ..e }
}

/// Carrying names is seen in the names only.
proof fn lemma_named_from_keeps(es: Seq<EntityModel>, targets: Seq<OverlayTargetModel>, i: nat)
    ensures
        frame::seen_all(named_from(es, targets, i), but_name_and_range()) == frame::seen_all(
            es,
            but_name_and_range(),
        ),
    decreases targets.len() - i,
{
    if i < targets.len() {
        let t = targets[i as int];
        if let Some(e) = lookup::get(es, t.namespace, t.type_chain) {
            let v = EntityModel { source_name: t.entity_source_name, ..e };
            frame::lemma_seen_same(v, e, but_name_and_range());
            frame::law_put_is_local(es, t.namespace, t.type_chain, v, but_name_and_range());
        }
        lemma_named_from_keeps(with_name(es, t), targets, i + 1);
    }
}

/// Carrying ranges is seen in the ranges only.
proof fn lemma_ranged_from_keeps(es: Seq<EntityModel>, targets: Seq<OverlayTargetModel>, i: nat)
    ensures
        frame::seen_all(ranged_from(es, targets, i), but_name_and_range()) == frame::seen_all(
            es,
            but_name_and_range(),
        ),
    decreases targets.len() - i,
{
    if i < targets.len() {
        let t = targets[i as int];
        if carries_range(es, targets, t) {
            lookup::lemma_unique_is_found(es, t.namespace, t.type_chain);
            let e = lookup::get(es, t.namespace, t.type_chain)->0;
            let v = EntityModel { definition_range: t.definition_range, ..e };
            frame::lemma_seen_same(v, e, but_name_and_range());
            frame::law_put_is_local(es, t.namespace, t.type_chain, v, but_name_and_range());
        }
        lemma_ranged_from_keeps(with_range(es, targets, t), targets, i + 1);
    }
}

/// The entity overlay changes nothing but F# names and places of declaration: the
/// tree keeps its shape, and every entity each of its other facts.
pub proof fn law_overlay_changes_names_and_ranges_alone(
    es: Seq<EntityModel>,
    ccu: PickledCcu,
    visits: Seq<VisitModel>,
)
    ensures
        frame::seen_all(overlaid(es, ccu, visits), but_name_and_range()) == frame::seen_all(
            es,
            but_name_and_range(),
        ),
{
    let targets = targets_from(ccu, visits, 0, Seq::empty());
    lemma_named_from_keeps(es, targets, 0);
    lemma_ranged_from_keeps(named_from(es, targets, 0), targets, 0);
}

/// A place of declaration is not forgotten, and stays where the path is ambiguous: where
/// not one target alone has it, or not one entity alone answers to it in `es`.
pub open spec fn range_step(
    es: Seq<EntityModel>,
    targets: Seq<OverlayTargetModel>,
) -> steps::Step {
    |n: Seq<Seq<char>>, c: Seq<Seq<char>>, a: EntityModel, b: EntityModel|
        {
            &&& a.name == b.name && a.namespace == b.namespace
            &&& a.definition_range is Some ==> b.definition_range is Some
            &&& lookup::count_from(targets, 0, at_path(n, c)) != 1 || !lookup::unique(es, n, c)
                ==> a.definition_range == b.definition_range
        }
}

/// Carrying names leaves each place of declaration.
proof fn lemma_named_from_steps(
    first: Seq<EntityModel>,
    es: Seq<EntityModel>,
    targets: Seq<OverlayTargetModel>,
    i: nat,
)
    requires
        steps::is_step(range_step(first, targets)),
    ensures
        steps::stepped_all(es, named_from(es, targets, i), range_step(first, targets)),
    decreases targets.len() - i,
{
    let p = range_step(first, targets);
    steps::lemma_stepped_all_refl(es, p);
    if i < targets.len() {
        let t = targets[i as int];
        let next = with_name(es, t);
        if let Some(e) = lookup::get(es, t.namespace, t.type_chain) {
            let v = EntityModel { source_name: t.entity_source_name, ..e };
            steps::lemma_alone(e, v, t.namespace, t.type_chain, p);
            steps::law_put_is_a_step(es, t.namespace, t.type_chain, v, p);
        }
        lemma_named_from_steps(first, next, targets, i + 1);
        steps::lemma_stepped_all_trans(es, next, named_from(next, targets, i + 1), p);
    }
}

/// Carrying ranges forgets none, and leaves those of the ambiguous paths.
proof fn lemma_ranged_from_steps(
    first: Seq<EntityModel>,
    es: Seq<EntityModel>,
    targets: Seq<OverlayTargetModel>,
    i: nat,
)
    requires
        steps::is_step(range_step(first, targets)),
        steps::stepped_all(first, es, range_step(first, targets)),
    ensures
        steps::stepped_all(first, ranged_from(es, targets, i), range_step(first, targets)),
    decreases targets.len() - i,
{
    let p = range_step(first, targets);
    if i < targets.len() {
        let t = targets[i as int];
        let next = with_range(es, targets, t);
        steps::lemma_stepped_all_refl(es, p);
        if carries_range(es, targets, t) {
            steps::lemma_unique_stays(first, es, t.namespace, t.type_chain, p);
            lookup::lemma_unique_is_found(es, t.namespace, t.type_chain);
            let e = lookup::get(es, t.namespace, t.type_chain)->0;
            let v = EntityModel { definition_range: t.definition_range, ..e };
            steps::lemma_alone(e, v, t.namespace, t.type_chain, p);
            steps::law_put_is_a_step(es, t.namespace, t.type_chain, v, p);
        }
        steps::lemma_stepped_all_trans(first, es, next, p);
        lemma_ranged_from_steps(first, next, targets, i + 1);
    }
}

/// The entity overlay never takes a place of declaration away, and an entity whose path
/// is ambiguous, in the pickle or in the tree, keeps the one that it had.
pub proof fn law_ambiguous_ranges_stay(
    es: Seq<EntityModel>,
    ccu: PickledCcu,
    visits: Seq<VisitModel>,
)
    ensures
        steps::stepped_all(
            es,
            overlaid(es, ccu, visits),
            range_step(es, targets_from(ccu, visits, 0, Seq::empty())),
        ),
{
    let targets = targets_from(ccu, visits, 0, Seq::empty());
    assert(steps::is_step(range_step(es, targets))) by {
        reveal(steps::is_step);
    }
    lemma_named_from_steps(es, es, targets, 0);
    lemma_ranged_from_steps(es, named_from(es, targets, 0), targets, 0);
}

/// The modules, types and measures of a pickle, in the order of the walk.
fn collect_overlay_targets(pickled: &PickledCcu, visits: &Vec<Visit>) -> (r: Vec<
    EntityOverlayTarget,
>)
    requires
        walk::in_table(*pickled, visits.deep_view()),
    ensures
        r.deep_view() == targets_from(*pickled, visits.deep_view(), 0, Seq::empty()),
{
    let mut out: Vec<EntityOverlayTarget> = Vec::new();
    assert(out.deep_view() =~= Seq::empty());
    let mut i: usize = 0;
    while i < visits.len()
        invariant
            i <= visits.len(),
            walk::in_table(*pickled, visits.deep_view()),
            targets_from(*pickled, visits.deep_view(), 0, Seq::empty()) == targets_from(
                *pickled,
                visits.deep_view(),
                i as nat,
                out.deep_view(),
            ),
        decreases visits.len() - i,
    {
        let visit = &visits[i];
        assert(visits.deep_view()[i as int] == visit.deep_view());
        let entity = &pickled.tables.tycons[visit.stamp as usize];
        let is_module_or_type: bool = match entity.module_type.is_type {
            IsType::ModuleOrType | IsType::FSharpModuleWithSuffix => true,
            IsType::Namespace => false,
        };
        let has_type_def: bool = match &entity.repr {
            PickledTyconRepr::FSharpObjectModel(_) => true,
            _ => false,
        };
        let is_measure_leaf: bool = entity.typar_kind == TyparKind::Measure && has_type_def;
        if !visit.is_root && (is_module_or_type || is_measure_leaf) {
            let ghost before = out.deep_view();
            let mut type_chain: Vec<String> = visit.type_chain.dup();
            let ghost container = type_chain.deep_view();
            type_chain.push(clr_name(entity));
            assert(type_chain.deep_view() =~= container.push(names::clr_name_of(*entity)));
            let target = EntityOverlayTarget {
                namespace: visit.namespace.dup(),
                type_chain,
                entity_source_name: if is_module_or_type {
                    entity_source_name(entity)
                } else {
                    None
                },
                is_module_or_type,
                definition_range: resolve_entity_range(pickled, entity),
            };
            out.push(target);
            assert(out.deep_view() =~= before.push(target.deep_view()));
        }
        i = i + 1;
    }
    out
}

/// How many targets have the path of the `k`-th.
fn count_same_path(targets: &Vec<EntityOverlayTarget>, k: usize) -> (r: usize)
    requires
        k < targets@.len(),
    ensures
        r == lookup::count_from(
            targets.deep_view(),
            0,
            at_path(
                targets.deep_view()[k as int].namespace,
                targets.deep_view()[k as int].type_chain,
            ),
        ),
{
    let ghost p = at_path(
        targets.deep_view()[k as int].namespace,
        targets.deep_view()[k as int].type_chain,
    );
    let mut n: usize = 0;
    let mut i: usize = targets.len();
    while i > 0
        invariant
            i <= targets.len(),
            k < targets.len(),
            p == at_path(
                targets.deep_view()[k as int].namespace,
                targets.deep_view()[k as int].type_chain,
            ),
            n == lookup::count_from(targets.deep_view(), i as int, p),
            n <= targets.len() - i,
        decreases i,
    {
        i = i - 1;
        assert(targets.deep_view()[i as int] == targets@[i as int].deep_view());
        assert(targets.deep_view()[k as int] == targets@[k as int].deep_view());
        if targets[i].namespace.same(&targets[k].namespace) && targets[i].type_chain.same(
            &targets[k].type_chain,
        ) {
            n = n + 1;
        }
    }
    n
}

/// Set the F# name of each module and type.
fn stamp_names(entities: &mut Vec<Entity>, targets: &Vec<EntityOverlayTarget>)
    ensures
        final(entities).deep_view() == named_from(
            old(entities).deep_view(),
            targets.deep_view(),
            0,
        ),
{
    let mut i: usize = 0;
    while i < targets.len()
        invariant
            i <= targets.len(),
            named_from(old(entities).deep_view(), targets.deep_view(), 0) == named_from(
                entities.deep_view(),
                targets.deep_view(),
                i as nat,
            ),
        decreases targets.len() - i,
    {
        let target = &targets[i];
        assert(targets.deep_view()[i as int] == target.deep_view());
        if target.is_module_or_type {
            match find_entity_mut(entities, &target.namespace, &target.type_chain) {
                None => {},
                Some(ecma) => {
                    ecma.source_name = target.entity_source_name.dup();
                },
            }
        }
        i = i + 1;
    }
}

/// Set the declaration range of each entity whose path is unambiguous.
fn stamp_ranges(entities: &mut Vec<Entity>, targets: &Vec<EntityOverlayTarget>)
    ensures
        final(entities).deep_view() == ranged_from(
            old(entities).deep_view(),
            targets.deep_view(),
            0,
        ),
{
    let mut i: usize = 0;
    while i < targets.len()
        invariant
            i <= targets.len(),
            ranged_from(old(entities).deep_view(), targets.deep_view(), 0) == ranged_from(
                entities.deep_view(),
                targets.deep_view(),
                i as nat,
            ),
        decreases targets.len() - i,
    {
        let target = &targets[i];
        assert(targets.deep_view()[i as int] == target.deep_view());
        match &target.definition_range {
            None => {},
            Some(range) => {
                if count_same_path(targets, i) == 1 {
                    match find_entity_unique_mut(entities, &target.namespace, &target.type_chain) {
                        None => {},
                        Some(ecma) => {
                            ecma.definition_range = Some(range.dup());
                        },
                    }
                }
            },
        }
        i = i + 1;
    }
}

/// Carry the F# name and the declaration range of each pickled entity onto the
/// entity tree. A walk that fails leaves the tree alone.
pub fn apply_entity_overlay(entities: &mut Vec<Entity>, pickled: &PickledCcu) -> (r: Result<
    (),
    ImportError,
>)
    ensures
        match walk::steps_of(*pickled).end {
            None => r is Ok && final(entities).deep_view() == overlaid(
                old(entities).deep_view(),
                *pickled,
                walk::steps_of(*pickled).visits,
            ),
            Some(e) => r is Err && r->Err_0.deep_view() == e
                && final(entities).deep_view() == old(entities).deep_view(),
        },
{
    let (visits, end) = walk::walk(pickled);
    end?;
    let targets = collect_overlay_targets(pickled, &visits);
    stamp_names(entities, &targets);
    stamp_ranges(entities, &targets);
    Ok(())
}

} // verus!
