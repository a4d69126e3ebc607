//! The union-case overlay: the names of the accessible cases of each union.
//!
//! The metadata does not name the cases, so they come from the pickle. A union
//! whose representation a signature hides has no cases in the pickle, and none
//! that another assembly could name; its list is empty, which is not the same as
//! unknown.
//!
//! Types are matched by name and generic arity. For a hidden union that key must
//! name one entity alone, since different types of the metadata can share it.
use crate::error::ImportError;
use crate::fsharp_pickle::model::{
    PickledCcu, PickledEntity, PickledExnRepr, PickledTyconRepr, PickledUnionCase,
};
use crate::fsharp_pickle_merge::frame;
use crate::fsharp_pickle_merge::lookup;
use crate::fsharp_pickle_merge::lookup::find_entity_mut;
use crate::fsharp_pickle_merge::names;
use crate::fsharp_pickle_merge::names::{
    clr_name, is_measure_free, ENTITY_FLAGS_IS_MODULE_OR_NAMESPACE,
};
use crate::fsharp_pickle_merge::steps;
use crate::fsharp_pickle_merge::walk;
use crate::fsharp_pickle_merge::walk::{Visit, VisitModel};
use crate::model::{Entity, EntityKind, EntityModel};
use crate::same::{Duplicate, Same};
use vstd::prelude::*;

verus! {

/// Where a union lies in the entity tree: its container, its name and its arity,
/// and the names of its accessible cases, none for a hidden union.
struct UnionTarget {
    namespace: Vec<String>,
    containers: Vec<String>,
    name: String,
    arity: usize,
    cases: Vec<String>,
}

/// The model of a union target.
pub struct UnionTargetModel {
    pub namespace: Seq<Seq<char>>,
    pub containers: Seq<Seq<char>>,
    pub name: Seq<char>,
    pub arity: nat,
    pub cases: Seq<Seq<char>>,
}

impl DeepView for UnionTarget {
    type V = UnionTargetModel;

    closed spec fn deep_view(&self) -> UnionTargetModel {
        UnionTargetModel {
            namespace: self.namespace.deep_view(),
            containers: self.containers.deep_view(),
            name: self.name@,
            arity: self.arity as nat,
            cases: self.cases.deep_view(),
        }
    }
}

/// The cases of a union.
pub open spec fn cases_of(e: PickledEntity) -> Option<Seq<PickledUnionCase>> {
    match e.repr {
        PickledTyconRepr::Union(cases) => Some(cases@),
        PickledTyconRepr::UnionWithStaticFields { cases, .. } => Some(cases@),
        _ => None,
    }
}

/// The names of the public cases from the `i`-th on, after those in `acc`.
pub open spec fn case_names_from(
    cases: Seq<PickledUnionCase>,
    i: nat,
    acc: Seq<Seq<char>>,
) -> Seq<Seq<char>>
    decreases cases.len() - i,
{
    if i >= cases.len() {
        acc
    } else {
        case_names_from(
            cases,
            i + 1,
            if cases[i as int].access@.len() == 0 {
                acc.push(cases[i as int].ident.name@)
            } else {
                acc
            },
        )
    }
}

/// The entity is a type whose representation a signature hides, and whose arity in
/// the metadata is that of the pickle: not a module or namespace, not an
/// abbreviation, not an exception, and without measure parameters.
pub open spec fn is_hidden_type(ccu: PickledCcu, e: PickledEntity) -> bool {
    &&& e.flags & ENTITY_FLAGS_IS_MODULE_OR_NAMESPACE == 0
    &&& e.type_abbrev is None
    &&& e.exn_repr is NotException
    &&& e.repr is NoRepr
    &&& names::measure_free(ccu, e)
}

/// The target of the visited entity with these cases.
pub open spec fn target_with(
    ccu: PickledCcu,
    v: VisitModel,
    cases: Seq<Seq<char>>,
) -> UnionTargetModel {
    let e = walk::tycon(ccu, v.stamp);
    UnionTargetModel {
        namespace: v.namespace,
        containers: v.type_chain,
        name: names::clr_name_of(e),
        arity: e.typars@.len(),
        cases,
    }
}

/// The unions with known cases among the visits from the `i`-th on, after those in
/// `acc`.
pub open spec fn unions_from(
    ccu: PickledCcu,
    visits: Seq<VisitModel>,
    i: nat,
    acc: Seq<UnionTargetModel>,
) -> Seq<UnionTargetModel>
    decreases visits.len() - i,
{
    if i >= visits.len() {
        acc
    } else {
        let v = visits[i as int];
        unions_from(
            ccu,
            visits,
            i + 1,
            if v.is_root {
                acc
            } else {
                match cases_of(walk::tycon(ccu, v.stamp)) {
                    Some(cases) => acc.push(
                        target_with(ccu, v, case_names_from(cases, 0, Seq::empty())),
                    ),
                    None => acc,
                }
            },
        )
    }
}

/// The hidden types among the visits from the `i`-th on, after those in `acc`.
pub open spec fn hidden_from(
    ccu: PickledCcu,
    visits: Seq<VisitModel>,
    i: nat,
    acc: Seq<UnionTargetModel>,
) -> Seq<UnionTargetModel>
    decreases visits.len() - i,
{
    if i >= visits.len() {
        acc
    } else {
        let v = visits[i as int];
        let e = walk::tycon(ccu, v.stamp);
        hidden_from(
            ccu,
            visits,
            i + 1,
            if !v.is_root && cases_of(e) is None && is_hidden_type(ccu, e) {
                acc.push(target_with(ccu, v, Seq::empty()))
            } else {
                acc
            },
        )
    }
}

/// The entity has this name and arity.
pub open spec fn has_key(name: Seq<char>, arity: nat) -> spec_fn(EntityModel) -> bool {
    |e: EntityModel| e.name == name && e.generic_parameters.len() == arity
}

/// The entity has this name and arity and lies in `namespace`.
pub open spec fn has_top_key(
    namespace: Seq<Seq<char>>,
    name: Seq<char>,
    arity: nat,
) -> spec_fn(EntityModel) -> bool {
    |e: EntityModel| e.namespace == namespace && e.name == name && e.generic_parameters.len()
        == arity
}

/// The entity is a union without known cases.
pub open spec fn is_open_union(e: EntityModel) -> bool {
    e.kind == EntityKind::Union && e.union_case_names is None
}

/// The entities with the cases of the first that satisfies `p` set to `cases`.
pub open spec fn with_cases(
    es: Seq<EntityModel>,
    p: spec_fn(EntityModel) -> bool,
    cases: Seq<Seq<char>>,
) -> Seq<EntityModel> {
    match lookup::first_from(es, 0, p) {
        None => es,
        Some(i) => es.update(i, EntityModel { union_case_names: Some(cases), ..es[i] }),
    }
}

/// The tree with the cases of `t` on its union.
pub open spec fn with_union(es: Seq<EntityModel>, t: UnionTargetModel) -> Seq<EntityModel> {
    if t.containers.len() == 0 {
        with_cases(es, has_top_key(t.namespace, t.name, t.arity), t.cases)
    } else {
        match lookup::get(es, t.namespace, t.containers) {
            None => es,
            Some(c) => lookup::put(
                es,
                t.namespace,
                t.containers,
                EntityModel {
                    nested_types: with_cases(c.nested_types, has_key(t.name, t.arity), t.cases),
                    ..c
                },
            ),
        }
    }
}

/// The entities with an empty case list on the first that satisfies `p` and is a
/// union without known cases, if `p` is satisfied by one entity alone.
pub open spec fn sealed_by(es: Seq<EntityModel>, p: spec_fn(EntityModel) -> bool) -> Seq<
    EntityModel,
> {
    if lookup::count_from(es, 0, p) == 1 {
        with_cases(es, |e: EntityModel| p(e) && is_open_union(e), Seq::empty())
    } else {
        es
    }
}

/// The tree with an empty case list on the union that `t` hides.
pub open spec fn with_hidden(es: Seq<EntityModel>, t: UnionTargetModel) -> Seq<EntityModel> {
    if t.containers.len() == 0 {
        sealed_by(es, has_top_key(t.namespace, t.name, t.arity))
    } else {
        match lookup::get(es, t.namespace, t.containers) {
            None => es,
            Some(c) => lookup::put(
                es,
                t.namespace,
                t.containers,
                EntityModel {
                    nested_types: sealed_by(c.nested_types, has_key(t.name, t.arity)),
                    ..c
                },
            ),
        }
    }
}

/// The tree with the cases of the targets from the `i`-th on.
pub open spec fn with_unions_from(
    es: Seq<EntityModel>,
    targets: Seq<UnionTargetModel>,
    i: nat,
) -> Seq<EntityModel>
    decreases targets.len() - i,
{
    if i >= targets.len() {
        es
    } else {
        with_unions_from(with_union(es, targets[i as int]), targets, i + 1)
    }
}

/// The tree with the hidden unions of the targets from the `i`-th on sealed.
pub open spec fn with_hidden_from(
    es: Seq<EntityModel>,
    targets: Seq<UnionTargetModel>,
    i: nat,
) -> Seq<EntityModel>
    decreases targets.len() - i,
{
    if i >= targets.len() {
        es
    } else {
        with_hidden_from(with_hidden(es, targets[i as int]), targets, i + 1)
    }
}

/// The tree after the union-case overlay of a walk with these visits.
pub open spec fn overlaid(
    es: Seq<EntityModel>,
    ccu: PickledCcu,
    visits: Seq<VisitModel>,
) -> Seq<EntityModel> {
    with_hidden_from(
        with_unions_from(es, unions_from(ccu, visits, 0, Seq::empty()), 0),
        hidden_from(ccu, visits, 0, Seq::empty()),
        0,
    )
}

/// The entity but for its union cases.
pub open spec fn but_cases() -> spec_fn(EntityModel) -> EntityModel {
    |e: EntityModel| EntityModel { union_case_names: None, ..e }
}

/// Seen without its cases, an entity is the same with others.
proof fn lemma_cases_unseen(e: EntityModel, cases: Seq<Seq<char>>)
    ensures
        frame::seen(EntityModel { union_case_names: Some(cases), ..e }, but_cases())
            == frame::seen(e, but_cases()),
{
    frame::lemma_seen_same(
        EntityModel { union_case_names: Some(cases), ..e },
        e,
        but_cases(),
    );
}

/// Setting the cases of an entity is seen in the cases only.
proof fn lemma_with_cases_keeps(
    es: Seq<EntityModel>,
    p: spec_fn(EntityModel) -> bool,
    cases: Seq<Seq<char>>,
)
    ensures
        frame::seen_all(with_cases(es, p, cases), but_cases()) == frame::seen_all(es, but_cases()),
{
    lookup::lemma_first_found(es, 0, p);
    if let Some(i) = lookup::first_from(es, 0, p) {
        let e = es[i];
        let v = EntityModel { union_case_names: Some(cases), ..e };
        lemma_cases_unseen(e, cases);
        frame::lemma_seen_update(es, i, v, but_cases());
    }
}

/// Replacing the types nested in the container of a target by types that differ in
/// their cases is seen in the cases only.
proof fn lemma_container_keeps(
    es: Seq<EntityModel>,
    t: UnionTargetModel,
    nested_types: Seq<EntityModel>,
)
    requires
        lookup::get(es, t.namespace, t.containers) is Some,
        frame::seen_all(nested_types, but_cases()) == frame::seen_all(
            lookup::get(es, t.namespace, t.containers)->0.nested_types,
            but_cases(),
        ),
    ensures
        frame::seen_all(
            lookup::put(
                es,
                t.namespace,
                t.containers,
                EntityModel { nested_types, ..lookup::get(es, t.namespace, t.containers)->0 },
            ),
            but_cases(),
        ) == frame::seen_all(es, but_cases()),
{
    let c = lookup::get(es, t.namespace, t.containers)->0;
    let v = EntityModel { nested_types, ..c };
    assert(frame::bare(v) == frame::bare(c));
    frame::lemma_seen_same(v, c, but_cases());
    frame::law_put_is_local(es, t.namespace, t.containers, v, but_cases());
}

/// Carrying the known cases is seen in the cases only.
proof fn lemma_with_unions_keeps(es: Seq<EntityModel>, targets: Seq<UnionTargetModel>, i: nat)
    ensures
        frame::seen_all(with_unions_from(es, targets, i), but_cases()) == frame::seen_all(
            es,
            but_cases(),
        ),
    decreases targets.len() - i,
{
    if i < targets.len() {
        let t = targets[i as int];
        if t.containers.len() == 0 {
            lemma_with_cases_keeps(es, has_top_key(t.namespace, t.name, t.arity), t.cases);
        } else if let Some(c) = lookup::get(es, t.namespace, t.containers) {
            let p = has_key(t.name, t.arity);
            lemma_with_cases_keeps(c.nested_types, p, t.cases);
            lemma_container_keeps(es, t, with_cases(c.nested_types, p, t.cases));
        }
        lemma_with_unions_keeps(with_union(es, t), targets, i + 1);
    }
}

/// Sealing the hidden unions is seen in the cases only.
proof fn lemma_with_hidden_keeps(es: Seq<EntityModel>, targets: Seq<UnionTargetModel>, i: nat)
    ensures
        frame::seen_all(with_hidden_from(es, targets, i), but_cases()) == frame::seen_all(
            es,
            but_cases(),
        ),
    decreases targets.len() - i,
{
    if i < targets.len() {
        let t = targets[i as int];
        if t.containers.len() == 0 {
            let p = has_top_key(t.namespace, t.name, t.arity);
            lemma_with_cases_keeps(es, |e: EntityModel| p(e) && is_open_union(e), Seq::empty());
        } else if let Some(c) = lookup::get(es, t.namespace, t.containers) {
            let p = has_key(t.name, t.arity);
            lemma_with_cases_keeps(
                c.nested_types,
                |e: EntityModel| p(e) && is_open_union(e),
                Seq::empty(),
            );
            lemma_container_keeps(es, t, sealed_by(c.nested_types, p));
        }
        lemma_with_hidden_keeps(with_hidden(es, t), targets, i + 1);
    }
}

/// The union-case overlay changes nothing but case names: the tree keeps its shape,
/// and every entity each of its other facts.
pub proof fn law_overlay_changes_cases_alone(
    es: Seq<EntityModel>,
    ccu: PickledCcu,
    visits: Seq<VisitModel>,
)
    ensures
        frame::seen_all(overlaid(es, ccu, visits), but_cases()) == frame::seen_all(es, but_cases()),
{
    let unions = unions_from(ccu, visits, 0, Seq::empty());
    lemma_with_unions_keeps(es, unions, 0);
    lemma_with_hidden_keeps(
        with_unions_from(es, unions, 0),
        hidden_from(ccu, visits, 0, Seq::empty()),
        0,
    );
}

/// Known cases are not forgotten.
pub open spec fn cases_step() -> steps::Step {
    |_n: Seq<Seq<char>>, _c: Seq<Seq<char>>, a: EntityModel, b: EntityModel|
        {
            &&& a.name == b.name && a.namespace == b.namespace
            &&& a.union_case_names is Some ==> b.union_case_names is Some
        }
}

/// Setting the cases of a nested type forgets none.
proof fn lemma_nested_cases_step(
    c: EntityModel,
    q: spec_fn(EntityModel) -> bool,
    cases: Seq<Seq<char>>,
    namespace: Seq<Seq<char>>,
    chain: Seq<Seq<char>>,
)
    requires
        steps::is_step(cases_step()),
    ensures
        steps::stepped(
            c,
            EntityModel { nested_types: with_cases(c.nested_types, q, cases), ..c },
            namespace,
            chain,
            cases_step(),
        ),
{
    let p = cases_step();
    lookup::lemma_first_found(c.nested_types, 0, q);
    match lookup::first_from(c.nested_types, 0, q) {
        Some(i) => {
            let a = c.nested_types[i];
            let v = EntityModel { union_case_names: Some(cases), ..a };
            steps::lemma_alone(a, v, namespace, chain.push(a.name), p);
            steps::lemma_nested_update(c, i, v, namespace, chain, p);
        },
        None => {
            steps::lemma_stepped_refl(c, namespace, chain, p);
        },
    }
}

/// Setting the cases of a top-level type forgets none.
proof fn lemma_top_cases_step(
    es: Seq<EntityModel>,
    q: spec_fn(EntityModel) -> bool,
    cases: Seq<Seq<char>>,
)
    requires
        steps::is_step(cases_step()),
    ensures
        steps::stepped_all(es, with_cases(es, q, cases), cases_step()),
{
    let p = cases_step();
    steps::lemma_stepped_all_refl(es, p);
    lookup::lemma_first_found(es, 0, q);
    if let Some(i) = lookup::first_from(es, 0, q) {
        let v = EntityModel { union_case_names: Some(cases), ..es[i] };
        steps::lemma_alone(es[i], v, es[i].namespace, seq![es[i].name], p);
        steps::lemma_top_update(es, i, v, p);
    }
}

/// Carrying the cases of one union forgets none.
proof fn lemma_union_step(es: Seq<EntityModel>, t: UnionTargetModel)
    requires
        steps::is_step(cases_step()),
    ensures
        steps::stepped_all(es, with_union(es, t), cases_step()),
{
    let p = cases_step();
    steps::lemma_stepped_all_refl(es, p);
    if t.containers.len() == 0 {
        lemma_top_cases_step(es, has_top_key(t.namespace, t.name, t.arity), t.cases);
    } else if let Some(c) = lookup::get(es, t.namespace, t.containers) {
        let q = has_key(t.name, t.arity);
        lemma_nested_cases_step(c, q, t.cases, t.namespace, t.containers);
        let v = EntityModel { nested_types: with_cases(c.nested_types, q, t.cases), ..c };
        steps::law_put_is_a_step(es, t.namespace, t.containers, v, p);
    }
}

/// Carrying the known cases forgets none.
proof fn lemma_with_unions_step(es: Seq<EntityModel>, targets: Seq<UnionTargetModel>, i: nat)
    requires
        steps::is_step(cases_step()),
    ensures
        steps::stepped_all(es, with_unions_from(es, targets, i), cases_step()),
    decreases targets.len() - i,
{
    let p = cases_step();
    steps::lemma_stepped_all_refl(es, p);
    if i < targets.len() {
        let t = targets[i as int];
        let next = with_union(es, t);
        lemma_union_step(es, t);
        lemma_with_unions_step(next, targets, i + 1);
        steps::lemma_stepped_all_trans(es, next, with_unions_from(next, targets, i + 1), p);
    }
}

/// Sealing one hidden union forgets no known cases.
proof fn lemma_hidden_step(es: Seq<EntityModel>, t: UnionTargetModel)
    requires
        steps::is_step(cases_step()),
    ensures
        steps::stepped_all(es, with_hidden(es, t), cases_step()),
{
    let p = cases_step();
    steps::lemma_stepped_all_refl(es, p);
    if t.containers.len() == 0 {
        let q = has_top_key(t.namespace, t.name, t.arity);
        lemma_top_cases_step(es, |e: EntityModel| q(e) && is_open_union(e), Seq::empty());
    } else if let Some(c) = lookup::get(es, t.namespace, t.containers) {
        let q = has_key(t.name, t.arity);
        let v = EntityModel { nested_types: sealed_by(c.nested_types, q), ..c };
        if lookup::count_from(c.nested_types, 0, q) == 1 {
            lemma_nested_cases_step(
                c,
                |e: EntityModel| q(e) && is_open_union(e),
                Seq::empty(),
                t.namespace,
                t.containers,
            );
        } else {
            assert(v == c);
            steps::lemma_stepped_refl(c, t.namespace, t.containers, p);
        }
        steps::law_put_is_a_step(es, t.namespace, t.containers, v, p);
    }
}

/// Sealing the hidden unions forgets no known cases.
proof fn lemma_with_hidden_step(es: Seq<EntityModel>, targets: Seq<UnionTargetModel>, i: nat)
    requires
        steps::is_step(cases_step()),
    ensures
        steps::stepped_all(es, with_hidden_from(es, targets, i), cases_step()),
    decreases targets.len() - i,
{
    let p = cases_step();
    steps::lemma_stepped_all_refl(es, p);
    if i < targets.len() {
        let t = targets[i as int];
        let next = with_hidden(es, t);
        lemma_hidden_step(es, t);
        lemma_with_hidden_step(next, targets, i + 1);
        steps::lemma_stepped_all_trans(es, next, with_hidden_from(next, targets, i + 1), p);
    }
}

/// The union-case overlay never makes known cases unknown.
pub proof fn law_known_cases_stay_known(
    es: Seq<EntityModel>,
    ccu: PickledCcu,
    visits: Seq<VisitModel>,
)
    ensures
        steps::stepped_all(es, overlaid(es, ccu, visits), cases_step()),
{
    assert(steps::is_step(cases_step())) by {
        reveal(steps::is_step);
    }
    let unions = unions_from(ccu, visits, 0, Seq::empty());
    let middle = with_unions_from(es, unions, 0);
    lemma_with_unions_step(es, unions, 0);
    lemma_with_hidden_step(middle, hidden_from(ccu, visits, 0, Seq::empty()), 0);
    steps::lemma_stepped_all_trans(es, middle, overlaid(es, ccu, visits), cases_step());
}

/// The names of the public cases.
fn public_case_names(cases: &Vec<PickledUnionCase>) -> (r: Vec<String>)
    ensures
        r.deep_view() == case_names_from(cases@, 0, Seq::empty()),
{
    let mut out: Vec<String> = Vec::new();
    assert(out.deep_view() =~= Seq::empty());
    let mut i: usize = 0;
    while i < cases.len()
        invariant
            i <= cases.len(),
            case_names_from(cases@, 0, Seq::empty()) == case_names_from(
                cases@,
                i as nat,
                out.deep_view(),
            ),
        decreases cases.len() - i,
    {
        if cases[i].access.len() == 0 {
            let ghost before = out.deep_view();
            out.push(cases[i].ident.name.clone());
            assert(out.deep_view() =~= before.push(cases@[i as int].ident.name@));
        }
        i = i + 1;
    }
    out
}

/// The target of the visited entity with these cases.
fn target_of(visit: &Visit, entity: &PickledEntity, cases: Vec<String>) -> (r: UnionTarget)
    ensures
        r.deep_view() == (UnionTargetModel {
            namespace: visit.namespace.deep_view(),
            containers: visit.type_chain.deep_view(),
            name: names::clr_name_of(*entity),
            arity: entity.typars@.len(),
            cases: cases.deep_view(),
        }),
{
    UnionTarget {
        namespace: visit.namespace.dup(),
        containers: visit.type_chain.dup(),
        name: clr_name(entity),
        arity: entity.typars.len(),
        cases,
    }
}

/// Whether a signature hides the representation of the type.
fn hides_representation(pickled: &PickledCcu, entity: &PickledEntity) -> (r: bool)
    ensures
        r == is_hidden_type(*pickled, *entity),
{
    let no_exception: bool = match &entity.exn_repr {
        PickledExnRepr::NotException => true,
        _ => false,
    };
    let no_repr: bool = match &entity.repr {
        PickledTyconRepr::NoRepr => true,
        _ => false,
    };
    entity.flags & ENTITY_FLAGS_IS_MODULE_OR_NAMESPACE == 0 && entity.type_abbrev.is_none()
        && no_exception && no_repr && is_measure_free(pickled, entity)
}

/// The unions with known cases, and the hidden types, in the order of the walk.
fn collect_union_targets(pickled: &PickledCcu, visits: &Vec<Visit>) -> (r: (
    Vec<UnionTarget>,
    Vec<UnionTarget>,
))
    requires
        walk::in_table(*pickled, visits.deep_view()),
    ensures
        r.0.deep_view() == unions_from(*pickled, visits.deep_view(), 0, Seq::empty()),
        r.1.deep_view() == hidden_from(*pickled, visits.deep_view(), 0, Seq::empty()),
{
    let mut unions: Vec<UnionTarget> = Vec::new();
    let mut hidden: Vec<UnionTarget> = Vec::new();
    assert(unions.deep_view() =~= Seq::empty());
    assert(hidden.deep_view() =~= Seq::empty());
    let mut i: usize = 0;
    while i < visits.len()
        invariant
            i <= visits.len(),
            walk::in_table(*pickled, visits.deep_view()),
            unions_from(*pickled, visits.deep_view(), 0, Seq::empty()) == unions_from(
                *pickled,
                visits.deep_view(),
                i as nat,
                unions.deep_view(),
            ),
            hidden_from(*pickled, visits.deep_view(), 0, Seq::empty()) == hidden_from(
                *pickled,
                visits.deep_view(),
                i as nat,
                hidden.deep_view(),
            ),
        decreases visits.len() - i,
    {
        let visit = &visits[i];
        assert(visits.deep_view()[i as int] == visit.deep_view());
        let entity = &pickled.tables.tycons[visit.stamp as usize];
        if !visit.is_root {
            let cases: Option<&Vec<PickledUnionCase>> = match &entity.repr {
                PickledTyconRepr::Union(cases) => Some(cases),
                PickledTyconRepr::UnionWithStaticFields { cases, .. } => Some(cases),
                _ => None,
            };
            match cases {
                Some(cases) => {
                    let ghost before = unions.deep_view();
                    let target = target_of(visit, entity, public_case_names(cases));
                    unions.push(target);
                    assert(unions.deep_view() =~= before.push(target.deep_view()));
                },
                None => {
                    if hides_representation(pickled, entity) {
                        let ghost before = hidden.deep_view();
                        let none: Vec<String> = Vec::new();
                        assert(none.deep_view() =~= Seq::empty());
                        let target = target_of(visit, entity, none);
                        hidden.push(target);
                        assert(hidden.deep_view() =~= before.push(target.deep_view()));
                    }
                },
            }
        }
        i = i + 1;
    }
    (unions, hidden)
}

/// Whether an entity has the key of a target; at the top, also its namespace.
fn matches_key(e: &Entity, t: &UnionTarget, top: bool) -> (r: bool)
    ensures
        r == (if top {
            has_top_key(t.deep_view().namespace, t.deep_view().name, t.deep_view().arity)(
                e.deep_view(),
            )
        } else {
            has_key(t.deep_view().name, t.deep_view().arity)(e.deep_view())
        }),
{
    assert(e.deep_view().generic_parameters.len() == e.generic_parameters@.len());
    e.name == t.name && e.generic_parameters.len() == t.arity && (!top || e.namespace.same(
        &t.namespace,
    ))
}

/// The key of a target as a property of entities.
spec fn key_of(t: UnionTargetModel, top: bool) -> spec_fn(EntityModel) -> bool {
    if top {
        has_top_key(t.namespace, t.name, t.arity)
    } else {
        has_key(t.name, t.arity)
    }
}

/// Set the cases of the first entity with the key of the target.
fn set_cases(es: &mut Vec<Entity>, t: &UnionTarget, top: bool)
    ensures
        final(es).deep_view() == with_cases(
            old(es).deep_view(),
            key_of(t.deep_view(), top),
            t.deep_view().cases,
        ),
{
    let ghost p = key_of(t.deep_view(), top);
    let ghost before = es.deep_view();
    let mut i: usize = 0;
    while i < es.len()
        invariant
            i <= es.len(),
            p == key_of(t.deep_view(), top),
            before == old(es).deep_view(),
            es.deep_view() == before,
            forall|j: int| 0 <= j < i ==> !p(#[trigger] before[j]),
        decreases es.len() - i,
    {
        assert(before[i as int] == es@[i as int].deep_view());
        if matches_key(&es[i], t, top) {
            proof {
                lookup::lemma_first_is(before, 0, i as int, p);
                lookup::lemma_update_deep_view(*es, i as int);
            }
            es[i].union_case_names = Some(t.cases.dup());
            return;
        }
        i = i + 1;
    }
    proof {
        lookup::lemma_first_is(before, 0, i as int, p);
    }
}

/// Give an empty case list to the union with the key of the target, if one entity
/// alone has that key.
fn seal_union(es: &mut Vec<Entity>, t: &UnionTarget, top: bool)
    ensures
        final(es).deep_view() == sealed_by(old(es).deep_view(), key_of(t.deep_view(), top)),
{
    let ghost p = key_of(t.deep_view(), top);
    let ghost before = es.deep_view();
    let mut n: usize = 0;
    let mut i: usize = es.len();
    while i > 0
        invariant
            i <= es.len(),
            p == key_of(t.deep_view(), top),
            es.deep_view() == before,
            n == lookup::count_from(before, i as int, p),
            n <= es.len() - i,
        decreases i,
    {
        i = i - 1;
        assert(before[i as int] == es@[i as int].deep_view());
        if matches_key(&es[i], t, top) {
            n = n + 1;
        }
    }
    if n != 1 {
        return;
    }
    let ghost q = |e: EntityModel| p(e) && is_open_union(e);
    let mut k: usize = 0;
    while k < es.len()
        invariant
            k <= es.len(),
            p == key_of(t.deep_view(), top),
            q == (|e: EntityModel| p(e) && is_open_union(e)),
            before == old(es).deep_view(),
            es.deep_view() == before,
            lookup::count_from(before, 0, p) == 1,
            forall|j: int| 0 <= j < k ==> !q(#[trigger] before[j]),
        decreases es.len() - k,
    {
        assert(before[k as int] == es@[k as int].deep_view());
        if matches_key(&es[k], t, top) && es[k].kind == EntityKind::Union
            && es[k].union_case_names.is_none() {
            proof {
                lookup::lemma_first_is(before, 0, k as int, q);
                lookup::lemma_update_deep_view(*es, k as int);
            }
            let none: Vec<String> = Vec::new();
            assert(none.deep_view() =~= Seq::empty());
            es[k].union_case_names = Some(none);
            return;
        }
        k = k + 1;
    }
    proof {
        lookup::lemma_first_is(before, 0, k as int, q);
    }
}

/// Set the cases of the union of a target.
fn apply_union(entities: &mut Vec<Entity>, t: &UnionTarget)
    ensures
        final(entities).deep_view() == with_union(old(entities).deep_view(), t.deep_view()),
{
    broadcast use crate::model::lemma_entity_model_nested;

    assert(t.containers.deep_view().len() == t.containers@.len());
    if t.containers.len() == 0 {
        set_cases(entities, t, true);
    } else {
        match find_entity_mut(entities, &t.namespace, &t.containers) {
            None => {},
            Some(container) => {
                set_cases(&mut container.nested_types, t, false);
            },
        }
    }
}

/// Seal the union of a target whose representation is hidden.
fn apply_hidden(entities: &mut Vec<Entity>, t: &UnionTarget)
    ensures
        final(entities).deep_view() == with_hidden(old(entities).deep_view(), t.deep_view()),
{
    broadcast use crate::model::lemma_entity_model_nested;

    assert(t.containers.deep_view().len() == t.containers@.len());
    if t.containers.len() == 0 {
        seal_union(entities, t, true);
    } else {
        match find_entity_mut(entities, &t.namespace, &t.containers) {
            None => {},
            Some(container) => {
                seal_union(&mut container.nested_types, t, false);
            },
        }
    }
}

/// Set the names of the accessible cases of each union of the pickle.
pub fn apply_union_case_names(entities: &mut Vec<Entity>, pickled: &PickledCcu) -> (r: Result<
    (),
    ImportError,
>)
    ensures
        match walk::steps_of(*pickled).end {
            None => r is Ok && final(entities).deep_view() == overlaid(
                old(entities).deep_view(),
                *pickled,
                walk::steps_of(*pickled).visits,
            ),
            Some(e) => r is Err && r->Err_0.deep_view() == e
                && final(entities).deep_view() == old(entities).deep_view(),
        },
{
    let (visits, end) = walk::walk(pickled);
    end?;
    let (unions, hidden) = collect_union_targets(pickled, &visits);
    let mut i: usize = 0;
    while i < unions.len()
        invariant
            i <= unions.len(),
            with_unions_from(old(entities).deep_view(), unions.deep_view(), 0) == with_unions_from(
                entities.deep_view(),
                unions.deep_view(),
                i as nat,
            ),
        decreases unions.len() - i,
    {
        assert(unions.deep_view()[i as int] == unions@[i as int].deep_view());
        apply_union(entities, &unions[i]);
        i = i + 1;
    }
    let ghost middle = entities.deep_view();
    let mut k: usize = 0;
    while k < hidden.len()
        invariant
            k <= hidden.len(),
            with_hidden_from(middle, hidden.deep_view(), 0) == with_hidden_from(
                entities.deep_view(),
                hidden.deep_view(),
                k as nat,
            ),
        decreases hidden.len() - k,
    {
        assert(hidden.deep_view()[k as int] == hidden@[k as int].deep_view());
        apply_hidden(entities, &hidden[k]);
        k = k + 1;
    }
    Ok(())
}

} // verus!
