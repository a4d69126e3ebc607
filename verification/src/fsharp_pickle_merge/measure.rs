//! The measure overlay: a class that the pickle knows as a unit of measure becomes
//! one.
use crate::error::{Fault, ImportError};
use crate::fsharp_pickle::model::{PickledCcu, PickledEntity, PickledTyconRepr, TyparKind};
use crate::fsharp_pickle_merge::frame;
use crate::fsharp_pickle_merge::lookup;
use crate::fsharp_pickle_merge::lookup::find_entity_mut;
use crate::fsharp_pickle_merge::names;
use crate::fsharp_pickle_merge::names::clr_name;
use crate::fsharp_pickle_merge::steps;
use crate::fsharp_pickle_merge::walk;
use crate::fsharp_pickle_merge::walk::{Visit, VisitModel};
use crate::model::{Entity, EntityKind, EntityModel};
use crate::same::Duplicate;
use crate::text;
use crate::text::join_text;
use vstd::prelude::*;
use vstd::string::*;

verus! {

/// Where a pickled measure lies in the entity tree. The chain is never empty: its
/// last name is that of the measure.
pub struct MeasureTarget {
    pub namespace: Vec<String>,
    pub type_chain: Vec<String>,
}

/// The model of a [`MeasureTarget`].
pub struct MeasureTargetModel {
    pub namespace: Seq<Seq<char>>,
    pub type_chain: Seq<Seq<char>>,
}

impl DeepView for MeasureTarget {
    type V = MeasureTargetModel;

    open spec fn deep_view(&self) -> MeasureTargetModel {
        MeasureTargetModel {
            namespace: self.namespace.deep_view(),
            type_chain: self.type_chain.deep_view(),
        }
    }
}

/// The entity is a measure with a type definition of its own. A measure
/// abbreviation is a measure without one.
pub open spec fn is_measure_leaf(e: PickledEntity) -> bool {
    e.typar_kind == TyparKind::Measure && e.repr is FSharpObjectModel
}

/// The target that a visit contributes.
pub open spec fn target_at(ccu: PickledCcu, v: VisitModel) -> Option<MeasureTargetModel> {
    let e = walk::tycon(ccu, v.stamp);
    if is_measure_leaf(e) {
        Some(
            MeasureTargetModel {
                namespace: v.namespace,
                type_chain: v.type_chain.push(names::clr_name_of(e)),
            },
        )
    } else {
        None
    }
}

/// The targets of the visits from the `i`-th on, after those in `acc`.
pub open spec fn targets_from(
    ccu: PickledCcu,
    visits: Seq<VisitModel>,
    i: nat,
    acc: Seq<MeasureTargetModel>,
) -> Seq<MeasureTargetModel>
    decreases visits.len() - i,
{
    if i >= visits.len() {
        acc
    } else {
        targets_from(
            ccu,
            visits,
            i + 1,
            match target_at(ccu, visits[i as int]) {
                Some(t) => acc.push(t),
                None => acc,
            },
        )
    }
}

/// The dotted path of a target.
pub open spec fn fqn_of(t: MeasureTargetModel) -> Seq<char> {
    text::join(t.namespace + t.type_chain, "."@)
}

/// The name of an entity kind.
pub open spec fn kind_text(k: EntityKind) -> Seq<char> {
    match k {
        EntityKind::Class => "Class"@,
        EntityKind::Struct => "Struct"@,
        EntityKind::Interface => "Interface"@,
        EntityKind::Enum => "Enum"@,
        EntityKind::Delegate => "Delegate"@,
        EntityKind::Module => "Module"@,
        EntityKind::Union => "Union"@,
        EntityKind::Record => "Record"@,
        EntityKind::Abbreviation => "Abbreviation"@,
        EntityKind::Exception => "Exception"@,
        EntityKind::Measure => "Measure"@,
    }
}

/// The failure of a measure without an entity.
pub open spec fn missing(t: MeasureTargetModel) -> Fault {
    Fault::FsharpPickleMergeMismatch {
        detail: "pickled measure entity "@ + fqn_of(t) + " has no matching ECMA TypeDef"@,
    }
}

/// The failure of a measure whose entity is neither a class nor a measure.
pub open spec fn wrong_kind(t: MeasureTargetModel, k: EntityKind) -> Fault {
    Fault::FsharpPickleMergeMismatch {
        detail: "pickled measure entity "@ + fqn_of(t) + " has ECMA kind "@ + kind_text(k)
            + ", expected Class"@,
    }
}

/// The entity tree and the failure, if any, after the targets from the `i`-th on.
pub open spec fn merged_from(
    es: Seq<EntityModel>,
    targets: Seq<MeasureTargetModel>,
    i: nat,
) -> (Seq<EntityModel>, Option<Fault>)
    decreases targets.len() - i,
{
    if i >= targets.len() {
        (es, None)
    } else {
        let t = targets[i as int];
        match lookup::get(es, t.namespace, t.type_chain) {
            None => (es, Some(missing(t))),
            Some(e) => if e.kind == EntityKind::Class {
                merged_from(
                    lookup::put(
                        es,
                        t.namespace,
                        t.type_chain,
                        EntityModel { kind: EntityKind::Measure, ..e },
                    ),
                    targets,
                    i + 1,
                )
            } else if e.kind == EntityKind::Measure {
                merged_from(es, targets, i + 1)
            } else {
                (es, Some(wrong_kind(t, e.kind)))
            },
        }
    }
}

/// The entity tree and the failure, if any, after the measure overlay. A walk that
/// fails leaves the tree alone.
pub open spec fn merged(es: Seq<EntityModel>, ccu: PickledCcu) -> (
    Seq<EntityModel>,
    Option<Fault>,
) {
    let steps = walk::steps_of(ccu);
    if steps.end is Some {
        (es, steps.end)
    } else {
        merged_from(es, targets_from(ccu, steps.visits, 0, Seq::empty()), 0)
    }
}

/// The entity but for its kind.
pub open spec fn but_kind() -> spec_fn(EntityModel) -> EntityModel {
    |e: EntityModel| EntityModel { kind: EntityKind::Class, ..e }
}

/// The path of the target leads to a measure.
pub open spec fn is_measure(es: Seq<EntityModel>, t: MeasureTargetModel) -> bool {
    match lookup::get(es, t.namespace, t.type_chain) {
        Some(e) => e.kind == EntityKind::Measure,
        None => false,
    }
}

/// Turning targets into measures is seen in the kinds only.
proof fn lemma_merged_from_keeps(es: Seq<EntityModel>, targets: Seq<MeasureTargetModel>, i: nat)
    ensures
        frame::seen_all(merged_from(es, targets, i).0, but_kind()) == frame::seen_all(
            es,
            but_kind(),
        ),
    decreases targets.len() - i,
{
    if i < targets.len() {
        let t = targets[i as int];
        if let Some(e) = lookup::get(es, t.namespace, t.type_chain) {
            let v = EntityModel { kind: EntityKind::Measure, ..e };
            frame::lemma_seen_same(v, e, but_kind());
            frame::law_put_is_local(es, t.namespace, t.type_chain, v, but_kind());
            lemma_merged_from_keeps(
                lookup::put(es, t.namespace, t.type_chain, v),
                targets,
                i + 1,
            );
            lemma_merged_from_keeps(es, targets, i + 1);
        }
    }
}

/// The measure overlay changes nothing but kinds: the tree keeps its shape, and
/// every entity each of its other facts. This holds of a merge that fails too.
pub proof fn law_merge_changes_kinds_alone(es: Seq<EntityModel>, ccu: PickledCcu)
    ensures
        frame::seen_all(merged(es, ccu).0, but_kind()) == frame::seen_all(es, but_kind()),
{
    lemma_merged_from_keeps(
        es,
        targets_from(ccu, walk::steps_of(ccu).visits, 0, Seq::empty()),
        0,
    );
}

/// A kind stays, or goes from that of a class to that of a measure.
pub open spec fn kind_step() -> steps::Step {
    |_n: Seq<Seq<char>>, _c: Seq<Seq<char>>, a: EntityModel, b: EntityModel|
        {
            &&& a.name == b.name && a.namespace == b.namespace
            &&& a.kind == b.kind || (a.kind == EntityKind::Class && b.kind == EntityKind::Measure)
        }
}

/// Turning targets into measures turns classes into measures alone.
proof fn lemma_merged_from_steps(es: Seq<EntityModel>, targets: Seq<MeasureTargetModel>, i: nat)
    ensures
        steps::stepped_all(es, merged_from(es, targets, i).0, kind_step()),
    decreases targets.len() - i,
{
    let p = kind_step();
    assert(steps::is_step(p)) by {
        reveal(steps::is_step);
    }
    steps::lemma_stepped_all_refl(es, p);
    if i < targets.len() {
        let t = targets[i as int];
        if let Some(e) = lookup::get(es, t.namespace, t.type_chain) {
            if e.kind == EntityKind::Class {
                let v = EntityModel { kind: EntityKind::Measure, ..e };
                let next = lookup::put(es, t.namespace, t.type_chain, v);
                steps::lemma_alone(e, v, t.namespace, t.type_chain, p);
                steps::law_put_is_a_step(es, t.namespace, t.type_chain, v, p);
                lemma_merged_from_steps(next, targets, i + 1);
                steps::lemma_stepped_all_trans(
                    es,
                    next,
                    merged_from(next, targets, i + 1).0,
                    p,
                );
            } else if e.kind == EntityKind::Measure {
                lemma_merged_from_steps(es, targets, i + 1);
            }
        }
    }
}

/// Each kind that the measure overlay changes goes from that of a class to that of a
/// measure. This holds of a merge that fails too.
pub proof fn law_only_classes_become_measures(es: Seq<EntityModel>, ccu: PickledCcu)
    ensures
        steps::stepped_all(es, merged(es, ccu).0, kind_step()),
{
    assert(steps::is_step(kind_step())) by {
        reveal(steps::is_step);
    }
    steps::lemma_stepped_all_refl(es, kind_step());
    lemma_merged_from_steps(
        es,
        targets_from(ccu, walk::steps_of(ccu).visits, 0, Seq::empty()),
        0,
    );
}

/// Turning the entity below `e` at `chain` into a measure leaves what `other` leads
/// to, but for its kind, which can become that of a measure.
proof fn lemma_nested_turned(e: EntityModel, chain: Seq<Seq<char>>, other: Seq<Seq<char>>)
    requires
        lookup::nested_get(e, chain) is Some,
        lookup::nested_get(e, other) is Some,
    ensures
        ({
            let v = EntityModel { kind: EntityKind::Measure, ..lookup::nested_get(e, chain)->0 };
            let after = lookup::nested_put(e, chain, v);
            &&& after.name == e.name
            &&& after.namespace == e.namespace
            &&& lookup::nested_get(after, other) is Some
            &&& {
                ||| lookup::nested_get(after, other)->0.kind == lookup::nested_get(e, other)->0.kind
                ||| lookup::nested_get(after, other)->0.kind == EntityKind::Measure
            }
        }),
    decreases chain.len(),
{
    if chain.len() > 0 {
        let v = EntityModel { kind: EntityKind::Measure, ..lookup::nested_get(e, chain)->0 };
        lookup::lemma_first_found(e.nested_types, 0, lookup::called(chain[0]));
        let i = lookup::first_from(e.nested_types, 0, lookup::called(chain[0]))->0;
        let child = e.nested_types[i];
        lemma_nested_turned(child, chain.drop_first(), Seq::empty());
        let after = lookup::nested_put(e, chain, v);
        if other.len() > 0 {
            let p = lookup::called(other[0]);
            lookup::lemma_first_found(e.nested_types, 0, p);
            lookup::lemma_first_agrees(e.nested_types, after.nested_types, 0, p);
            if lookup::first_from(e.nested_types, 0, p) == Some(i) {
                lemma_nested_turned(child, chain.drop_first(), other.drop_first());
            }
        }
    }
}

/// Turning one entity into a measure leaves every path with an entity, and every
/// measure a measure.
proof fn lemma_turned(
    es: Seq<EntityModel>,
    t: MeasureTargetModel,
    other: MeasureTargetModel,
)
    requires
        lookup::get(es, t.namespace, t.type_chain) is Some,
        is_measure(es, other),
    ensures
        ({
            let v = EntityModel {
                kind: EntityKind::Measure,
                ..lookup::get(es, t.namespace, t.type_chain)->0
            };
            is_measure(lookup::put(es, t.namespace, t.type_chain, v), other)
        }),
{
    let v = EntityModel {
        kind: EntityKind::Measure,
        ..lookup::get(es, t.namespace, t.type_chain)->0
    };
    let p = lookup::at_top(t.namespace, t.type_chain[0]);
    lookup::lemma_first_found(es, 0, p);
    let i = lookup::first_from(es, 0, p)->0;
    let rest = t.type_chain.drop_first();
    lemma_nested_turned(es[i], rest, Seq::empty());
    let after = lookup::put(es, t.namespace, t.type_chain, v);
    let q = lookup::at_top(other.namespace, other.type_chain[0]);
    lookup::lemma_first_found(es, 0, q);
    lookup::lemma_first_agrees(es, after, 0, q);
    if lookup::first_from(es, 0, q) == Some(i) {
        lemma_nested_turned(es[i], rest, other.type_chain.drop_first());
    }
}

/// What is a measure stays one.
proof fn lemma_stays_measure(
    es: Seq<EntityModel>,
    targets: Seq<MeasureTargetModel>,
    i: nat,
    t: MeasureTargetModel,
)
    requires
        is_measure(es, t),
    ensures
        is_measure(merged_from(es, targets, i).0, t),
    decreases targets.len() - i,
{
    if i < targets.len() {
        let s = targets[i as int];
        if let Some(e) = lookup::get(es, s.namespace, s.type_chain) {
            if e.kind == EntityKind::Class {
                lemma_turned(es, s, t);
                lemma_stays_measure(
                    lookup::put(
                        es,
                        s.namespace,
                        s.type_chain,
                        EntityModel { kind: EntityKind::Measure, ..e },
                    ),
                    targets,
                    i + 1,
                    t,
                );
            } else if e.kind == EntityKind::Measure {
                lemma_stays_measure(es, targets, i + 1, t);
            }
        }
    }
}

/// After a merge that does not fail, each target is a measure.
proof fn lemma_targets_are_measures(
    es: Seq<EntityModel>,
    targets: Seq<MeasureTargetModel>,
    i: nat,
    j: int,
)
    requires
        merged_from(es, targets, i).1 is None,
        i <= j < targets.len(),
    ensures
        is_measure(merged_from(es, targets, i).0, targets[j]),
    decreases targets.len() - i,
{
    let t = targets[i as int];
    let e = lookup::get(es, t.namespace, t.type_chain)->0;
    let next = if e.kind == EntityKind::Class {
        lookup::put(
            es,
            t.namespace,
            t.type_chain,
            EntityModel { kind: EntityKind::Measure, ..e },
        )
    } else {
        es
    };
    if i < j {
        lemma_targets_are_measures(next, targets, i + 1, j);
    } else {
        if e.kind == EntityKind::Class {
            lemma_turned_is_measure(es, t);
        }
        lemma_stays_measure(next, targets, i + 1, t);
    }
}

/// What is turned into a measure is one.
proof fn lemma_turned_is_measure(es: Seq<EntityModel>, t: MeasureTargetModel)
    requires
        lookup::get(es, t.namespace, t.type_chain) is Some,
    ensures
        is_measure(
            lookup::put(
                es,
                t.namespace,
                t.type_chain,
                EntityModel {
                    kind: EntityKind::Measure,
                    ..lookup::get(es, t.namespace, t.type_chain)->0
                },
            ),
            t,
        ),
{
    let e = lookup::get(es, t.namespace, t.type_chain)->0;
    lookup::lemma_get_is_called(es, t.namespace, t.type_chain);
    lookup::law_get_put(
        es,
        t.namespace,
        t.type_chain,
        EntityModel { kind: EntityKind::Measure, ..e },
    );
}

/// Where each target from the `i`-th on is a measure, nothing is left to do.
proof fn lemma_nothing_to_merge(es: Seq<EntityModel>, targets: Seq<MeasureTargetModel>, i: nat)
    requires
        forall|j: int| i <= j < targets.len() ==> is_measure(es, #[trigger] targets[j]),
    ensures
        merged_from(es, targets, i) == (es, None::<Fault>),
    decreases targets.len() - i,
{
    if i < targets.len() {
        assert(is_measure(es, targets[i as int]));
        lemma_nothing_to_merge(es, targets, i + 1);
    }
}

/// After a merge that does not fail, each measure of the pickle is a measure of the
/// tree, and merging once more changes nothing and does not fail.
pub proof fn law_merge_is_complete_and_idempotent(es: Seq<EntityModel>, ccu: PickledCcu)
    requires
        merged(es, ccu).1 is None,
    ensures
        ({
            let targets = targets_from(ccu, walk::steps_of(ccu).visits, 0, Seq::empty());
            forall|j: int|
                0 <= j < targets.len() ==> is_measure(merged(es, ccu).0, #[trigger] targets[j])
        }),
        merged(merged(es, ccu).0, ccu) == (merged(es, ccu).0, None::<Fault>),
{
    let targets = targets_from(ccu, walk::steps_of(ccu).visits, 0, Seq::empty());
    assert forall|j: int| 0 <= j < targets.len() implies is_measure(
        merged(es, ccu).0,
        #[trigger] targets[j],
    ) by {
        lemma_targets_are_measures(es, targets, 0, j);
    }
    lemma_nothing_to_merge(merged(es, ccu).0, targets, 0);
}

/// The dotted path of a target.
fn fqn_display(target: &MeasureTarget) -> (r: String)
    ensures
        r@ == fqn_of(target.deep_view()),
{
    let mut segments: Vec<String> = target.namespace.dup();
    let mut rest: Vec<String> = target.type_chain.dup();
    let ghost a = segments.deep_view();
    let ghost b = rest.deep_view();
    segments.append(&mut rest);
    assert(segments.deep_view() =~= a + b);
    join_text(&segments, ".")
}

/// The name of an entity kind.
fn kind_name(k: EntityKind) -> (r: &'static str)
    ensures
        r@ == kind_text(k),
{
    match k {
        EntityKind::Class => "Class",
        EntityKind::Struct => "Struct",
        EntityKind::Interface => "Interface",
        EntityKind::Enum => "Enum",
        EntityKind::Delegate => "Delegate",
        EntityKind::Module => "Module",
        EntityKind::Union => "Union",
        EntityKind::Record => "Record",
        EntityKind::Abbreviation => "Abbreviation",
        EntityKind::Exception => "Exception",
        EntityKind::Measure => "Measure",
    }
}

/// The failure of a measure without an entity.
fn no_entity(target: &MeasureTarget) -> (r: ImportError)
    ensures
        r.deep_view() == missing(target.deep_view()),
{
    let mut detail = "pickled measure entity ".to_owned();
    detail.append(fqn_display(target).as_str());
    detail.append(" has no matching ECMA TypeDef");
    ImportError::FsharpPickleMergeMismatch { detail }
}

/// The failure of a measure whose entity is neither a class nor a measure.
fn other_kind(target: &MeasureTarget, k: EntityKind) -> (r: ImportError)
    ensures
        r.deep_view() == wrong_kind(target.deep_view(), k),
{
    let mut detail = "pickled measure entity ".to_owned();
    detail.append(fqn_display(target).as_str());
    detail.append(" has ECMA kind ");
    detail.append(kind_name(k));
    detail.append(", expected Class");
    ImportError::FsharpPickleMergeMismatch { detail }
}

/// The measures of a pickle, in the order of the walk.
fn collect_measure_targets(pickled: &PickledCcu, visits: &Vec<Visit>) -> (r: Vec<MeasureTarget>)
    requires
        walk::in_table(*pickled, visits.deep_view()),
    ensures
        r.deep_view() == targets_from(*pickled, visits.deep_view(), 0, Seq::empty()),
{
    let mut out: Vec<MeasureTarget> = Vec::new();
    assert(out.deep_view() =~= Seq::empty());
    let mut i: usize = 0;
    while i < visits.len()
        invariant
            i <= visits.len(),
            walk::in_table(*pickled, visits.deep_view()),
            targets_from(*pickled, visits.deep_view(), 0, Seq::empty()) == targets_from(
                *pickled,
                visits.deep_view(),
                i as nat,
                out.deep_view(),
            ),
        decreases visits.len() - i,
    {
        let visit = &visits[i];
        assert(visits.deep_view()[i as int] == visit.deep_view());
        let entity = &pickled.tables.tycons[visit.stamp as usize];
        let has_type_def: bool = match &entity.repr {
            PickledTyconRepr::FSharpObjectModel(_) => true,
            _ => false,
        };
        if entity.typar_kind == TyparKind::Measure && has_type_def {
            let ghost before = out.deep_view();
            let mut type_chain: Vec<String> = visit.type_chain.dup();
            let ghost container = type_chain.deep_view();
            type_chain.push(clr_name(entity));
            assert(type_chain.deep_view() =~= container.push(names::clr_name_of(*entity)));
            let target = MeasureTarget { namespace: visit.namespace.dup(), type_chain };
            out.push(target);
            assert(out.deep_view() =~= before.push(target.deep_view()));
        }
        i = i + 1;
    }
    out
}

/// Turn each class that the pickle knows as a measure into a measure. A measure
/// without an entity, or whose entity is of another kind, is a disagreement
/// between the two sources and ends the merge.
pub fn merge_measure_entities(entities: &mut Vec<Entity>, pickled: &PickledCcu) -> (r: Result<
    (),
    ImportError,
>)
    ensures
        final(entities).deep_view() == merged(old(entities).deep_view(), *pickled).0,
        match merged(old(entities).deep_view(), *pickled).1 {
            None => r is Ok,
            Some(e) => r is Err && r->Err_0.deep_view() == e,
        },
{
    let (visits, end) = walk::walk(pickled);
    end?;
    let targets = collect_measure_targets(pickled, &visits);
    let mut i: usize = 0;
    while i < targets.len()
        invariant
            i <= targets.len(),
            merged(old(entities).deep_view(), *pickled) == merged_from(
                entities.deep_view(),
                targets.deep_view(),
                i as nat,
            ),
        decreases targets.len() - i,
    {
        let target = &targets[i];
        assert(targets.deep_view()[i as int] == target.deep_view());
        proof {
            let t = target.deep_view();
            if lookup::get(entities.deep_view(), t.namespace, t.type_chain) is Some {
                lookup::law_put_get(entities.deep_view(), t.namespace, t.type_chain);
            }
        }
        match find_entity_mut(entities, &target.namespace, &target.type_chain) {
            None => {
                return Err(no_entity(target));
            },
            Some(ecma) => {
                match ecma.kind {
                    EntityKind::Class => {
                        ecma.kind = EntityKind::Measure;
                    },
                    EntityKind::Measure => {},
                    other => {
                        return Err(other_kind(target, other));
                    },
                }
            },
        }
        i = i + 1;
    }
    Ok(())
}

/// Apply the measure overlay of a decoded pickle.
pub fn apply_measure_overlay(entities: &mut Vec<Entity>, pickled: &PickledCcu) -> (r: Result<
    (),
    ImportError,
>)
    ensures
        final(entities).deep_view() == merged(old(entities).deep_view(), *pickled).0,
        match merged(old(entities).deep_view(), *pickled).1 {
            None => r is Ok,
            Some(e) => r is Err && r->Err_0.deep_view() == e,
        },
{
    merge_measure_entities(entities, pickled)
}

} // verus!
