//! What the overlays of names, places and measures write into the tree, in terms of what
//! the pickle declares.
use crate::fsharp_pickle::model::{
    IsType, PickledCcu, PickledEntity, PickledTyconRepr, TyparKind,
};
use crate::fsharp_pickle_merge::changes;
use crate::fsharp_pickle_merge::changes::Change;
use crate::fsharp_pickle_merge::entity_overlay;
use crate::fsharp_pickle_merge::entity_overlay::OverlayTargetModel;
use crate::fsharp_pickle_merge::frame;
use crate::fsharp_pickle_merge::lookup;
use crate::fsharp_pickle_merge::measure;
use crate::fsharp_pickle_merge::measure::MeasureTargetModel;
use crate::fsharp_pickle_merge::names;
use crate::fsharp_pickle_merge::steps;
use crate::fsharp_pickle_merge::value_laws::{is_module_at, is_place_of};
use crate::fsharp_pickle_merge::walk;
use crate::fsharp_pickle_merge::walk::VisitModel;
use crate::model::{EntityKind, EntityModel, FsharpSourceRangeModel};
use crate::selection;
use crate::text;
use vstd::prelude::*;

verus! {

/// `x` is the name up to the grave accent in front of its number of type parameters.
pub open spec fn is_stem(x: Seq<char>, name: Seq<char>) -> bool {
    &&& x.len() <= name.len()
    &&& name.take(x.len() as int) == x
    &&& forall|i: int| 0 <= i < x.len() ==> (#[trigger] x[i]) != '`'
    &&& x.len() < name.len() ==> name[x.len() as int] == '`'
}

pub proof fn lemma_stem(name: Seq<char>)
    ensures
        is_stem(text::before(name, '`'), name),
    decreases name.len(),
{
    let x = text::before(name, '`');
    if name.len() > 0 && name[0] != '`' {
        let tail = name.drop_first();
        lemma_stem(tail);
        let y = text::before(tail, '`');
        assert(x =~= seq![name[0]] + y);
        assert(name.take(x.len() as int) =~= seq![name[0]] + tail.take(y.len() as int));
        assert forall|i: int| 0 <= i < x.len() implies (#[trigger] x[i]) != '`' by {
            if i > 0 {
                assert(x[i] == y[i - 1]);
            }
        }
        if x.len() < name.len() {
            assert(tail[y.len() as int] == name[x.len() as int]);
        }
    } else {
        assert(name.take(0) =~= Seq::empty());
    }
}

/// An entity goes by its compiled name, or by its logical name where it has none, without
/// the number of type parameters.
pub proof fn law_an_entity_goes_by_its_compiled_name(e: PickledEntity)
    ensures
        is_stem(
            names::clr_name_of(e),
            match e.compiled_name {
                Some(c) => c@,
                None => e.logical_name@,
            },
        ),
{
    match e.compiled_name {
        Some(c) => lemma_stem(c@),
        None => lemma_stem(e.logical_name@),
    }
}

/// The F# name of the entity, where it is another than that of the metadata: a module with
/// the suffix has it without, and a type or module with another compiled name has its
/// logical name.
pub open spec fn is_source_name(e: PickledEntity, x: Option<Seq<char>>) -> bool {
    match e.module_type.is_type {
        IsType::FSharpModuleWithSuffix => match x {
            Some(s) => s.len() > 0 && e.logical_name@ == s + "Module"@,
            None => forall|s: Seq<char>|
                s.len() > 0 ==> e.logical_name@ != #[trigger] (s + "Module"@),
        },
        IsType::ModuleOrType => match x {
            Some(s) => e.compiled_name is Some && e.compiled_name->0@ != e.logical_name@
                && is_stem(s, e.logical_name@),
            None => e.compiled_name is Some ==> e.compiled_name->0@ == e.logical_name@,
        },
        IsType::Namespace => x is None,
    }
}

/// The F# name that is found is the F# name.
pub proof fn law_source_name_is_found(e: PickledEntity)
    ensures
        is_source_name(e, names::source_name_of(e)),
{
    let name = e.logical_name@;
    lemma_stem(name);
    let suffix = "Module"@;
    if e.module_type.is_type is FSharpModuleWithSuffix {
        let n = name.len() - suffix.len();
        match names::source_name_of(e) {
            Some(s) => {
                assert(name =~= s + suffix);
            },
            None => {
                assert forall|s: Seq<char>| s.len() > 0 implies name != #[trigger] (s
                    + suffix) by {
                    if name == s + suffix {
                        assert(name.subrange(n, name.len() as int) =~= suffix);
                    }
                }
            },
        }
    }
}

/// The place of an entity: that of its range, unless the file is unknown.
pub open spec fn is_entity_place(
    ccu: PickledCcu,
    e: PickledEntity,
    x: Option<FsharpSourceRangeModel>,
) -> bool {
    match x {
        Some(p) => is_place_of(ccu, x, e.range) && p.file != "unknown"@,
        None => {
            let file = e.range.file;
            file < ccu.header.strings@.len() ==> ccu.header.strings@[file as int]@ == "unknown"@
        },
    }
}

/// The place that is found is the place.
pub proof fn law_entity_place_is_found(ccu: PickledCcu, e: PickledEntity)
    ensures
        is_entity_place(ccu, e, names::entity_range_of(ccu, e)),
{
}

/// The visit is of a unit of measure with a type of its own that lies at this path.
pub open spec fn is_measure_at(
    ccu: PickledCcu,
    v: VisitModel,
    namespace: Seq<Seq<char>>,
    chain: Seq<Seq<char>>,
) -> bool {
    let e = walk::tycon(ccu, v.stamp);
    &&& e.typar_kind == TyparKind::Measure
    &&& e.repr matches PickledTyconRepr::FSharpObjectModel(_)
    &&& v.namespace == namespace
    &&& v.type_chain.push(names::clr_name_of(e)) == chain
}

/// The visit is of something with a place that lies at this path.
pub open spec fn is_placed_at(
    ccu: PickledCcu,
    v: VisitModel,
    namespace: Seq<Seq<char>>,
    chain: Seq<Seq<char>>,
) -> bool {
    is_module_at(ccu, v, namespace, chain) || (!v.is_root && is_measure_at(
        ccu,
        v,
        namespace,
        chain,
    ))
}

/// The entity at a path has the F# name and the place that it had, or those of what is
/// visited and lies there.
pub open spec fn overlaid(ccu: PickledCcu, visits: Seq<VisitModel>) -> steps::Step {
    |n: Seq<Seq<char>>, c: Seq<Seq<char>>, a: EntityModel, b: EntityModel|
        {
            &&& a.name == b.name && a.namespace == b.namespace
            &&& b.source_name == a.source_name || exists|i: int|
                0 <= i < visits.len() && is_module_at(ccu, #[trigger] visits[i], n, c)
                    && is_source_name(walk::tycon(ccu, visits[i].stamp), b.source_name)
            &&& b.definition_range == a.definition_range || (b.definition_range is Some
                && exists|i: int|
                0 <= i < visits.len() && is_placed_at(ccu, #[trigger] visits[i], n, c)
                    && is_entity_place(
                    ccu,
                    walk::tycon(ccu, visits[i].stamp),
                    b.definition_range,
                ))
        }
}

/// Setting the F# names of the targets.
spec fn naming(ts: Seq<OverlayTargetModel>) -> Seq<Change> {
    Seq::new(
        ts.len(),
        |j: int|
            Change {
                made: ts[j].is_module_or_type,
                namespace: ts[j].namespace,
                chain: ts[j].type_chain,
                change: |e: EntityModel|
                    EntityModel { source_name: ts[j].entity_source_name, ..e },
            },
    )
}

proof fn lemma_naming(es: Seq<EntityModel>, ts: Seq<OverlayTargetModel>, i: nat)
    ensures
        entity_overlay::named_from(es, ts, i) == changes::applied_from(es, naming(ts), i),
    decreases ts.len() - i,
{
    if i < ts.len() {
        let o = naming(ts)[i as int];
        assert(o.applied(es) == entity_overlay::with_name(es, ts[i as int]));
        lemma_naming(o.applied(es), ts, i + 1);
    }
}

/// The visit has a target.
spec fn has_target(ccu: PickledCcu, visits: Seq<VisitModel>) -> spec_fn(int) -> bool {
    |i: int| entity_overlay::target_at(ccu, visits[i]) is Some
}

/// The target of the visit.
spec fn target_of(ccu: PickledCcu, visits: Seq<VisitModel>) -> spec_fn(int) -> OverlayTargetModel {
    |i: int| entity_overlay::target_at(ccu, visits[i])->0
}

proof fn lemma_targets(ccu: PickledCcu, visits: Seq<VisitModel>, n: nat)
    requires
        n <= visits.len(),
    ensures
        entity_overlay::targets_from(
            ccu,
            visits,
            n,
            selection::made(
                selection::picked(n, has_target(ccu, visits)),
                target_of(ccu, visits),
            ),
        ) == selection::made(
            selection::picked(visits.len(), has_target(ccu, visits)),
            target_of(ccu, visits),
        ),
    decreases visits.len() - n,
{
    if n < visits.len() {
        selection::lemma_made_next(n, has_target(ccu, visits), target_of(ccu, visits));
        lemma_targets(ccu, visits, n + 1);
    }
}

/// The targets of the visits, with their positions.
proof fn lemma_all_targets(ccu: PickledCcu, visits: Seq<VisitModel>)
    ensures
        selection::picks(
            selection::picked(visits.len(), has_target(ccu, visits)),
            visits.len() as int,
            has_target(ccu, visits),
        ),
        entity_overlay::targets_from(ccu, visits, 0, Seq::empty()) == selection::made(
            selection::picked(visits.len(), has_target(ccu, visits)),
            target_of(ccu, visits),
        ),
{
    let p = has_target(ccu, visits);
    assert(selection::made(selection::picked(0, p), target_of(ccu, visits)) =~= Seq::empty());
    lemma_targets(ccu, visits, 0);
    selection::lemma_picked(visits.len(), p);
}

/// A target has the facts of what is visited.
proof fn lemma_target(ccu: PickledCcu, v: VisitModel)
    ensures
        match entity_overlay::target_at(ccu, v) {
            Some(t) => {
                &&& is_placed_at(ccu, v, t.namespace, t.type_chain)
                &&& t.is_module_or_type ==> is_module_at(ccu, v, t.namespace, t.type_chain)
                    && is_source_name(walk::tycon(ccu, v.stamp), t.entity_source_name)
                &&& !t.is_module_or_type ==> !is_module_at(
                    ccu,
                    v,
                    t.namespace,
                    t.type_chain,
                )
                &&& is_entity_place(ccu, walk::tycon(ccu, v.stamp), t.definition_range)
            },
            None => forall|n: Seq<Seq<char>>, c: Seq<Seq<char>>|
                !#[trigger] is_placed_at(ccu, v, n, c),
        },
{
    law_source_name_is_found(walk::tycon(ccu, v.stamp));
    law_entity_place_is_found(ccu, walk::tycon(ccu, v.stamp));
}

/// Each target is that of something that is visited.
proof fn lemma_visited(ccu: PickledCcu, visits: Seq<VisitModel>, i: int) -> (k: int)
    requires
        0 <= i < entity_overlay::targets_from(ccu, visits, 0, Seq::empty()).len(),
    ensures
        0 <= k < visits.len(),
        ({
            let t = entity_overlay::targets_from(ccu, visits, 0, Seq::empty())[i];
            &&& is_placed_at(ccu, visits[k], t.namespace, t.type_chain)
            &&& is_entity_place(ccu, walk::tycon(ccu, visits[k].stamp), t.definition_range)
        }),
{
    lemma_all_targets(ccu, visits);
    let order = selection::picked(visits.len(), has_target(ccu, visits));
    assert(has_target(ccu, visits)(order[i]));
    lemma_target(ccu, visits[order[i]]);
    order[i]
}

/// Setting one place is a permitted change.
proof fn lemma_one_range(
    es: Seq<EntityModel>,
    ccu: PickledCcu,
    visits: Seq<VisitModel>,
    targets: Seq<OverlayTargetModel>,
    t: OverlayTargetModel,
    k: int,
)
    requires
        steps::is_step(overlaid(ccu, visits)),
        0 <= k < visits.len(),
        is_placed_at(ccu, visits[k], t.namespace, t.type_chain),
        is_entity_place(ccu, walk::tycon(ccu, visits[k].stamp), t.definition_range),
    ensures
        steps::stepped_all(
            es,
            entity_overlay::with_range(es, targets, t),
            overlaid(ccu, visits),
        ),
{
    let p = overlaid(ccu, visits);
    steps::lemma_stepped_all_refl(es, p);
    if entity_overlay::carries_range(es, targets, t) {
        lookup::lemma_unique_is_found(es, t.namespace, t.type_chain);
        let e = lookup::get(es, t.namespace, t.type_chain)->0;
        let x = EntityModel { definition_range: t.definition_range, ..e };
        assert(p(t.namespace, t.type_chain, frame::bare(e), frame::bare(x)));
        steps::lemma_alone(e, x, t.namespace, t.type_chain, p);
        steps::law_put_is_a_step(es, t.namespace, t.type_chain, x, p);
    }
}

/// Setting places is a permitted change.
proof fn lemma_ranged(
    es: Seq<EntityModel>,
    ccu: PickledCcu,
    visits: Seq<VisitModel>,
    targets: Seq<OverlayTargetModel>,
    i: nat,
)
    requires
        targets == entity_overlay::targets_from(ccu, visits, 0, Seq::empty()),
        steps::is_step(overlaid(ccu, visits)),
    ensures
        steps::stepped_all(
            es,
            entity_overlay::ranged_from(es, targets, i),
            overlaid(ccu, visits),
        ),
    decreases targets.len() - i,
{
    let p = overlaid(ccu, visits);
    if i < targets.len() {
        let t = targets[i as int];
        let next = entity_overlay::with_range(es, targets, t);
        let k = lemma_visited(ccu, visits, i as int);
        lemma_one_range(es, ccu, visits, targets, t, k);
        lemma_ranged(next, ccu, visits, targets, i + 1);
        steps::lemma_stepped_all_trans(
            es,
            next,
            entity_overlay::ranged_from(next, targets, i + 1),
            p,
        );
    } else {
        steps::lemma_stepped_all_refl(es, p);
    }
}

/// Every F# name that the overlay writes is that of a module or type of the pickle that
/// lies at the path of the entity, and every place is that of one that lies there.
pub proof fn law_written_names_and_places_are_those_of_the_pickle(
    es: Seq<EntityModel>,
    ccu: PickledCcu,
    visits: Seq<VisitModel>,
)
    ensures
        steps::stepped_all(
            es,
            entity_overlay::overlaid(es, ccu, visits),
            overlaid(ccu, visits),
        ),
{
    let p = overlaid(ccu, visits);
    assert(steps::is_step(p)) by {
        reveal(steps::is_step);
    }
    let ts = entity_overlay::targets_from(ccu, visits, 0, Seq::empty());
    lemma_all_targets(ccu, visits);
    lemma_naming(es, ts, 0);
    let order = selection::picked(visits.len(), has_target(ccu, visits));
    let cs = naming(ts);
    assert forall|j: int, e: EntityModel|
        #![trigger (cs[j].change)(e)]
        0 <= j < cs.len() && cs[j].made implies p(
        cs[j].namespace,
        cs[j].chain,
        frame::bare(e),
        frame::bare((cs[j].change)(e)),
    ) by {
        assert(has_target(ccu, visits)(order[j]));
        lemma_target(ccu, visits[order[j]]);
        assert(is_module_at(ccu, visits[order[j]], cs[j].namespace, cs[j].chain));
    }
    changes::lemma_steps(es, cs, 0, p);
    let middle = entity_overlay::named_from(es, ts, 0);
    lemma_ranged(middle, ccu, visits, ts, 0);
    steps::lemma_stepped_all_trans(es, middle, entity_overlay::overlaid(es, ccu, visits), p);
}

/// Setting places leaves F# names.
spec fn name_stays() -> steps::Step {
    |n: Seq<Seq<char>>, c: Seq<Seq<char>>, a: EntityModel, b: EntityModel|
        a.name == b.name && a.namespace == b.namespace && a.source_name == b.source_name
}

proof fn lemma_ranged_names(es: Seq<EntityModel>, targets: Seq<OverlayTargetModel>, i: nat)
    requires
        steps::is_step(name_stays()),
    ensures
        steps::stepped_all(es, entity_overlay::ranged_from(es, targets, i), name_stays()),
    decreases targets.len() - i,
{
    let p = name_stays();
    steps::lemma_stepped_all_refl(es, p);
    if i < targets.len() {
        let t = targets[i as int];
        let next = entity_overlay::with_range(es, targets, t);
        if entity_overlay::carries_range(es, targets, t) {
            lookup::lemma_unique_is_found(es, t.namespace, t.type_chain);
            let e = lookup::get(es, t.namespace, t.type_chain)->0;
            let x = EntityModel { definition_range: t.definition_range, ..e };
            steps::lemma_alone(e, x, t.namespace, t.type_chain, p);
            steps::law_put_is_a_step(es, t.namespace, t.type_chain, x, p);
        }
        lemma_ranged_names(next, targets, i + 1);
        steps::lemma_stepped_all_trans(
            es,
            next,
            entity_overlay::ranged_from(next, targets, i + 1),
            p,
        );
    }
}

/// The F# name of a module or type reaches the tree: where an entity lies at its path, and
/// no module or type later in the walk lies there, the entity has it after the overlay.
#[verifier::spinoff_prover]
#[verifier::rlimit(60)]
pub proof fn law_the_name_of_a_module_is_written(
    es: Seq<EntityModel>,
    ccu: PickledCcu,
    visits: Seq<VisitModel>,
    k: int,
    path: (Seq<Seq<char>>, Seq<Seq<char>>),
)
    requires
        0 <= k < visits.len(),
        is_module_at(ccu, visits[k], path.0, path.1),
        forall|j: int|
            k < j < visits.len() ==> !is_module_at(ccu, #[trigger] visits[j], path.0, path.1),
        lookup::get(es, path.0, path.1) is Some,
    ensures
        ({
            let b = lookup::get(entity_overlay::overlaid(es, ccu, visits), path.0, path.1);
            b is Some && is_source_name(walk::tycon(ccu, visits[k].stamp), b->0.source_name)
        }),
{
    let ts = entity_overlay::targets_from(ccu, visits, 0, Seq::empty());
    lemma_all_targets(ccu, visits);
    lemma_naming(es, ts, 0);
    let p = has_target(ccu, visits);
    let order = selection::picked(visits.len(), p);
    let cs = naming(ts);
    let e = walk::tycon(ccu, visits[k].stamp);
    lemma_target(ccu, visits[k]);
    assert(is_placed_at(ccu, visits[k], path.0, path.1));
    assert(p(k));
    let m = choose|m: int| 0 <= m < order.len() && order[m] == k;
    let holds = |b: EntityModel| is_source_name(e, b.source_name);
    assert forall|j: int| m < j < cs.len() implies !(#[trigger] cs[j]).is_at(
        cs[m].namespace,
        cs[m].chain,
    ) by {
        assert(order[m] < order[j]);
        assert(p(order[j]));
        lemma_target(ccu, visits[order[j]]);
        assert(!is_module_at(ccu, visits[order[j]], path.0, path.1));
    }
    changes::lemma_last(es, cs, 0, m, holds);
    let middle = entity_overlay::named_from(es, ts, 0);
    let q = name_stays();
    assert(steps::is_step(q)) by {
        reveal(steps::is_step);
    }
    lemma_ranged_names(middle, ts, 0);
    let t = entity_overlay::overlaid(es, ccu, visits);
    steps::lemma_get_stepped(middle, t, path.0, path.1, q);
    let a = lookup::get(middle, path.0, path.1)->0;
    let b = lookup::get(t, path.0, path.1)->0;
    steps::lemma_stepped(a, b, path.0, path.1, q);
    assert(frame::bare(a).source_name == frame::bare(b).source_name);
}

/// One element alone that satisfies a condition is counted once.
proof fn lemma_count_one<T>(s: Seq<T>, i: int, m: int, q: spec_fn(T) -> bool)
    requires
        0 <= i,
        m < s.len(),
        0 <= m ==> q(s[m]),
        forall|j: int| 0 <= j < s.len() && j != m ==> !q(#[trigger] s[j]),
    ensures
        lookup::count_from(s, i, q) == (if i <= m {
            1nat
        } else {
            0nat
        }),
    decreases s.len() - i,
{
    if i < s.len() {
        lemma_count_one(s, i + 1, m, q);
    }
}

/// The place that is carried to one path stays there and is written by its target.
proof fn lemma_place(
    es: Seq<EntityModel>,
    targets: Seq<OverlayTargetModel>,
    i: nat,
    m: int,
)
    requires
        0 <= m < targets.len(),
        targets[m].definition_range is Some,
        forall|j: int|
            0 <= j < targets.len() && j != m ==> (#[trigger] targets[j]).namespace
                != targets[m].namespace || targets[j].type_chain != targets[m].type_chain,
        lookup::unique(es, targets[m].namespace, targets[m].type_chain),
        i > m ==> lookup::get(
            es,
            targets[m].namespace,
            targets[m].type_chain,
        )->0.definition_range == targets[m].definition_range,
    ensures
        ({
            let t = targets[m];
            let b = lookup::get(
                entity_overlay::ranged_from(es, targets, i),
                t.namespace,
                t.type_chain,
            );
            b is Some && b->0.definition_range == t.definition_range
        }),
    decreases targets.len() - i,
{
    let t = targets[m];
    let (n, c) = (t.namespace, t.type_chain);
    lookup::lemma_unique_is_found(es, n, c);
    if i < targets.len() {
        let u = targets[i as int];
        let next = entity_overlay::with_range(es, targets, u);
        let p = |pn: Seq<Seq<char>>, pc: Seq<Seq<char>>, a: EntityModel, b: EntityModel|
            {
                &&& a.name == b.name && a.namespace == b.namespace
                &&& pn == n && pc == c && i != m ==> a.definition_range == b.definition_range
            };
        assert(steps::is_step(p)) by {
            reveal(steps::is_step);
        }
        steps::lemma_stepped_all_refl(es, p);
        if entity_overlay::carries_range(es, targets, u) {
            lookup::lemma_unique_is_found(es, u.namespace, u.type_chain);
            let e = lookup::get(es, u.namespace, u.type_chain)->0;
            let x = EntityModel { definition_range: u.definition_range, ..e };
            steps::lemma_alone(e, x, u.namespace, u.type_chain, p);
            steps::law_put_is_a_step(es, u.namespace, u.type_chain, x, p);
        }
        steps::lemma_unique_stays(es, next, n, c, p);
        steps::lemma_get_stepped(es, next, n, c, p);
        let a = lookup::get(es, n, c)->0;
        let b = lookup::get(next, n, c)->0;
        steps::lemma_stepped(a, b, n, c, p);
        assert(frame::bare(a).definition_range == a.definition_range);
        assert(frame::bare(b).definition_range == b.definition_range);
        if i == m {
            lemma_count_one(targets, 0, m, entity_overlay::at_path(n, c));
            assert(entity_overlay::carries_range(es, targets, u));
            lookup::lemma_get_is_called(es, n, c);
            lookup::law_get_put(
                es,
                n,
                c,
                EntityModel { definition_range: t.definition_range, ..a },
            );
        }
        lemma_place(next, targets, i + 1, m);
    }
}

/// The place of what the pickle declares reaches the tree: where one entity alone lies at
/// its path, nothing else with a place lies there and its file is known, the entity has
/// its place after the overlay.
#[verifier::spinoff_prover]
#[verifier::rlimit(60)]
pub proof fn law_the_place_of_a_declaration_is_written(
    es: Seq<EntityModel>,
    ccu: PickledCcu,
    visits: Seq<VisitModel>,
    k: int,
    path: (Seq<Seq<char>>, Seq<Seq<char>>),
)
    requires
        0 <= k < visits.len(),
        is_placed_at(ccu, visits[k], path.0, path.1),
        forall|j: int|
            0 <= j < visits.len() && j != k ==> !is_placed_at(
                ccu,
                #[trigger] visits[j],
                path.0,
                path.1,
            ),
        walk::tycon(ccu, visits[k].stamp).range.file < ccu.header.strings@.len(),
        ccu.header.strings@[walk::tycon(ccu, visits[k].stamp).range.file as int]@ != "unknown"@,
        lookup::unique(es, path.0, path.1),
    ensures
        ({
            let b = lookup::get(entity_overlay::overlaid(es, ccu, visits), path.0, path.1);
            b is Some && b->0.definition_range is Some && is_place_of(
                ccu,
                b->0.definition_range,
                walk::tycon(ccu, visits[k].stamp).range,
            )
        }),
{
    let ts = entity_overlay::targets_from(ccu, visits, 0, Seq::empty());
    lemma_all_targets(ccu, visits);
    lemma_naming(es, ts, 0);
    let p = has_target(ccu, visits);
    let order = selection::picked(visits.len(), p);
    let cs = naming(ts);
    lemma_target(ccu, visits[k]);
    assert(p(k));
    let m = choose|m: int| 0 <= m < order.len() && order[m] == k;
    assert forall|j: int| 0 <= j < ts.len() && j != m implies (#[trigger] ts[j]).namespace
        != ts[m].namespace || ts[j].type_chain != ts[m].type_chain by {
        assert(order[j] != order[m]);
        assert(p(order[j]));
        lemma_target(ccu, visits[order[j]]);
        assert(!is_placed_at(ccu, visits[order[j]], path.0, path.1));
    }
    let middle = entity_overlay::named_from(es, ts, 0);
    let q = |n: Seq<Seq<char>>, c: Seq<Seq<char>>, a: EntityModel, b: EntityModel|
        a.name == b.name && a.namespace == b.namespace;
    assert(steps::is_step(q)) by {
        reveal(steps::is_step);
    }
    changes::lemma_steps(es, cs, 0, q);
    steps::lemma_unique_stays(es, middle, path.0, path.1, q);
    lemma_place(middle, ts, 0, m);
}

/// A kind stays, or goes from that of a class to that of a measure where a unit of measure
/// of the pickle lies.
pub open spec fn turned(ccu: PickledCcu, visits: Seq<VisitModel>) -> steps::Step {
    |n: Seq<Seq<char>>, c: Seq<Seq<char>>, a: EntityModel, b: EntityModel|
        {
            &&& a.name == b.name && a.namespace == b.namespace
            &&& {
                ||| b.kind == a.kind
                ||| a.kind == EntityKind::Class && b.kind == EntityKind::Measure && exists|i: int|
                    0 <= i < visits.len() && is_measure_at(ccu, #[trigger] visits[i], n, c)
            }
        }
}

/// The visit is of a unit of measure.
spec fn has_measure(ccu: PickledCcu, visits: Seq<VisitModel>) -> spec_fn(int) -> bool {
    |i: int| measure::target_at(ccu, visits[i]) is Some
}

/// The target of the unit of measure.
spec fn measure_of(ccu: PickledCcu, visits: Seq<VisitModel>) -> spec_fn(int) -> MeasureTargetModel {
    |i: int| measure::target_at(ccu, visits[i])->0
}

proof fn lemma_measures(ccu: PickledCcu, visits: Seq<VisitModel>, n: nat)
    requires
        n <= visits.len(),
    ensures
        measure::targets_from(
            ccu,
            visits,
            n,
            selection::made(
                selection::picked(n, has_measure(ccu, visits)),
                measure_of(ccu, visits),
            ),
        ) == selection::made(
            selection::picked(visits.len(), has_measure(ccu, visits)),
            measure_of(ccu, visits),
        ),
    decreases visits.len() - n,
{
    if n < visits.len() {
        selection::lemma_made_next(n, has_measure(ccu, visits), measure_of(ccu, visits));
        lemma_measures(ccu, visits, n + 1);
    }
}

/// The targets of the units of measure, with their positions.
proof fn lemma_all_measures(ccu: PickledCcu, visits: Seq<VisitModel>)
    ensures
        selection::picks(
            selection::picked(visits.len(), has_measure(ccu, visits)),
            visits.len() as int,
            has_measure(ccu, visits),
        ),
        measure::targets_from(ccu, visits, 0, Seq::empty()) == selection::made(
            selection::picked(visits.len(), has_measure(ccu, visits)),
            measure_of(ccu, visits),
        ),
{
    let p = has_measure(ccu, visits);
    assert(selection::made(selection::picked(0, p), measure_of(ccu, visits)) =~= Seq::empty());
    lemma_measures(ccu, visits, 0);
    selection::lemma_picked(visits.len(), p);
}

proof fn lemma_turned(
    es: Seq<EntityModel>,
    ccu: PickledCcu,
    visits: Seq<VisitModel>,
    targets: Seq<MeasureTargetModel>,
    i: nat,
)
    requires
        targets == measure::targets_from(ccu, visits, 0, Seq::empty()),
        steps::is_step(turned(ccu, visits)),
    ensures
        steps::stepped_all(
            es,
            measure::merged_from(es, targets, i).0,
            turned(ccu, visits),
        ),
    decreases targets.len() - i,
{
    let p = turned(ccu, visits);
    steps::lemma_stepped_all_refl(es, p);
    if i < targets.len() {
        let t = targets[i as int];
        lemma_all_measures(ccu, visits);
        let order = selection::picked(visits.len(), has_measure(ccu, visits));
        assert(has_measure(ccu, visits)(order[i as int]));
        assert(is_measure_at(ccu, visits[order[i as int]], t.namespace, t.type_chain));
        if let Some(e) = lookup::get(es, t.namespace, t.type_chain) {
            if e.kind == EntityKind::Class {
                let v = EntityModel { kind: EntityKind::Measure, ..e };
                let next = lookup::put(es, t.namespace, t.type_chain, v);
                steps::lemma_alone(e, v, t.namespace, t.type_chain, p);
                steps::law_put_is_a_step(es, t.namespace, t.type_chain, v, p);
                lemma_turned(next, ccu, visits, targets, i + 1);
                steps::lemma_stepped_all_trans(
                    es,
                    next,
                    measure::merged_from(next, targets, i + 1).0,
                    p,
                );
            } else if e.kind == EntityKind::Measure {
                lemma_turned(es, ccu, visits, targets, i + 1);
            }
        }
    }
}

/// A class becomes a measure only where a unit of measure of the pickle lies, and after a
/// merge that does not fail each unit of measure of the pickle is a measure of the tree.
pub proof fn law_measures_are_those_of_the_pickle(es: Seq<EntityModel>, ccu: PickledCcu)
    ensures
        steps::stepped_all(
            es,
            measure::merged(es, ccu).0,
            turned(ccu, walk::steps_of(ccu).visits),
        ),
        measure::merged(es, ccu).1 is None ==> forall|
            i: int,
            n: Seq<Seq<char>>,
            c: Seq<Seq<char>>,
        |
            0 <= i < walk::steps_of(ccu).visits.len() && #[trigger] is_measure_at(
                ccu,
                walk::steps_of(ccu).visits[i],
                n,
                c,
            ) ==> lookup::get(measure::merged(es, ccu).0, n, c) is Some && lookup::get(
                measure::merged(es, ccu).0,
                n,
                c,
            )->0.kind == EntityKind::Measure,
{
    let visits = walk::steps_of(ccu).visits;
    let p = turned(ccu, visits);
    assert(steps::is_step(p)) by {
        reveal(steps::is_step);
    }
    let targets = measure::targets_from(ccu, visits, 0, Seq::empty());
    steps::lemma_stepped_all_refl(es, p);
    lemma_turned(es, ccu, visits, targets, 0);
    if measure::merged(es, ccu).1 is None {
        measure::law_merge_is_complete_and_idempotent(es, ccu);
        lemma_all_measures(ccu, visits);
        let q = has_measure(ccu, visits);
        let order = selection::picked(visits.len(), q);
        assert forall|i: int, n: Seq<Seq<char>>, c: Seq<Seq<char>>|
            0 <= i < visits.len() && #[trigger] is_measure_at(
                ccu,
                visits[i],
                n,
                c,
            ) implies lookup::get(measure::merged(es, ccu).0, n, c) is Some && lookup::get(
            measure::merged(es, ccu).0,
            n,
            c,
        )->0.kind == EntityKind::Measure by {
            assert(q(i));
            let m = choose|m: int| 0 <= m < order.len() && order[m] == i;
            assert(measure::is_measure(measure::merged(es, ccu).0, targets[m]));
        }
    }
}

} // verus!
