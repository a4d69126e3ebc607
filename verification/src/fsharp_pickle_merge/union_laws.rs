//! What the union-case overlay writes into the tree.
//!
//! The laws speak of the cases that the pickle declares and of the tree before and
//! after.
use crate::fsharp_pickle::model::{
    PickledCcu, PickledEntity, PickledTyconRepr, PickledUnionCase,
};
use crate::fsharp_pickle_merge::frame;
use crate::fsharp_pickle_merge::lookup;
use crate::fsharp_pickle_merge::names;
use crate::fsharp_pickle_merge::steps;
use crate::fsharp_pickle_merge::union_cases;
use crate::fsharp_pickle_merge::union_cases::UnionTargetModel;
use crate::fsharp_pickle_merge::walk;
use crate::fsharp_pickle_merge::walk::VisitModel;
use crate::model::{EntityKind, EntityModel};
use crate::selection;
use vstd::prelude::*;

verus! {

/// The case is accessible everywhere: its accessibility restricts it to no path.
pub open spec fn is_accessible(cases: Seq<PickledUnionCase>) -> spec_fn(int) -> bool {
    |i: int| cases[i].access@.len() == 0
}

/// The name of a case.
pub open spec fn case_name(cases: Seq<PickledUnionCase>) -> spec_fn(int) -> Seq<char> {
    |i: int| cases[i].ident.name@
}

/// `names` are the names of the accessible cases, in the order of their declaration.
pub open spec fn lists_accessible(names: Seq<Seq<char>>, cases: Seq<PickledUnionCase>) -> bool {
    selection::is_selection(names, cases.len() as int, is_accessible(cases), case_name(cases))
}

/// A name is on such a list if and only if an accessible case has it.
pub proof fn law_listed_iff_accessible(
    names: Seq<Seq<char>>,
    cases: Seq<PickledUnionCase>,
    name: Seq<char>,
)
    requires
        lists_accessible(names, cases),
    ensures
        names.contains(name) <==> exists|i: int|
            0 <= i < cases.len() && (#[trigger] cases[i]).access@.len() == 0
                && cases[i].ident.name@ == name,
{
    let p = is_accessible(cases);
    let make = case_name(cases);
    selection::law_selected_iff_made(names, cases.len() as int, p, make, name);
    if exists|i: int| 0 <= i < cases.len() && #[trigger] p(i) && make(i) == name {
        let i = choose|i: int| 0 <= i < cases.len() && #[trigger] p(i) && make(i) == name;
        assert(cases[i].access@.len() == 0 && cases[i].ident.name@ == name);
    }
    if exists|i: int|
        0 <= i < cases.len() && (#[trigger] cases[i]).access@.len() == 0 && cases[i].ident.name@
            == name {
        let i = choose|i: int|
            0 <= i < cases.len() && (#[trigger] cases[i]).access@.len() == 0
                && cases[i].ident.name@ == name;
        assert(p(i) && make(i) == name);
    }
}

/// The collected names are those of the accessible cases, in the order of their
/// declaration.
pub proof fn law_collected_names_are_those_of_the_accessible_cases(cases: Seq<PickledUnionCase>)
    ensures
        lists_accessible(union_cases::case_names_from(cases, 0, Seq::empty()), cases),
{
    let p = is_accessible(cases);
    let make = case_name(cases);
    lemma_case_names(cases, cases.len());
    selection::lemma_is_selection(cases.len(), p, make);
}

/// The names that are collected start with those of the first `n` cases.
proof fn lemma_case_names(cases: Seq<PickledUnionCase>, n: nat)
    requires
        n <= cases.len(),
    ensures
        union_cases::case_names_from(cases, 0, Seq::empty()) == union_cases::case_names_from(
            cases,
            n,
            selection::made(
                selection::picked(n, is_accessible(cases)),
                case_name(cases),
            ),
        ),
    decreases n,
{
    let p = is_accessible(cases);
    let make = case_name(cases);
    if n == 0 {
        assert(selection::made(selection::picked(0, p), make) =~= Seq::empty());
    } else {
        lemma_case_names(cases, (n - 1) as nat);
        selection::lemma_made_next((n - 1) as nat, p, make);
    }
}

/// The cases of a union.
pub open spec fn declared_cases(e: PickledEntity) -> Option<Seq<PickledUnionCase>> {
    match e.repr {
        PickledTyconRepr::Union(cases) => Some(cases@),
        PickledTyconRepr::UnionWithStaticFields { cases, .. } => Some(cases@),
        _ => None,
    }
}

/// The entity is a type of which the pickle does not tell what it is: no module or
/// namespace, abbreviation or exception, without a representation and without measure
/// parameters.
pub open spec fn hides_its_representation(ccu: PickledCcu, e: PickledEntity) -> bool {
    &&& e.flags & 1 == 0
    &&& e.type_abbrev is None
    &&& e.exn_repr is NotException
    &&& e.repr is NoRepr
    &&& forall|i: int|
        0 <= i < e.typars@.len() ==> (#[trigger] e.typars@[i]) < ccu.tables.typars@.len()
            && ccu.tables.typars@[e.typars@[i] as int].flags & 0x1100 != 0x100
}

/// The visit is of an entity other than the root that lies at this path in the metadata,
/// with so many type parameters.
pub open spec fn lies_at(
    ccu: PickledCcu,
    v: VisitModel,
    namespace: Seq<Seq<char>>,
    chain: Seq<Seq<char>>,
    arity: nat,
) -> bool {
    &&& !v.is_root
    &&& v.namespace == namespace
    &&& v.type_chain.push(names::clr_name_of(walk::tycon(ccu, v.stamp))) == chain
    &&& walk::tycon(ccu, v.stamp).typars@.len() == arity
}

/// The entity at a path has the cases that it had; or those of a union that is visited
/// and lies there; or none, if it was a union with unknown cases and a type that hides its
/// representation lies there.
pub open spec fn carried(ccu: PickledCcu, visits: Seq<VisitModel>) -> steps::Step {
    |n: Seq<Seq<char>>, c: Seq<Seq<char>>, a: EntityModel, b: EntityModel|
        {
            &&& a.name == b.name && a.namespace == b.namespace && a.kind == b.kind
            &&& a.generic_parameters == b.generic_parameters
            &&& {
                ||| b.union_case_names == a.union_case_names
                ||| b.union_case_names is Some && exists|i: int|
                    0 <= i < visits.len() && lies_at(
                        ccu,
                        #[trigger] visits[i],
                        n,
                        c,
                        a.generic_parameters.len(),
                    ) && declared_cases(walk::tycon(ccu, visits[i].stamp)) is Some
                        && lists_accessible(
                        b.union_case_names->0,
                        declared_cases(walk::tycon(ccu, visits[i].stamp))->0,
                    )
                ||| a.kind == EntityKind::Union && a.union_case_names is None
                    && b.union_case_names == Some(Seq::<Seq<char>>::empty()) && exists|i: int|
                    0 <= i < visits.len() && lies_at(
                        ccu,
                        #[trigger] visits[i],
                        n,
                        c,
                        a.generic_parameters.len(),
                    ) && hides_its_representation(ccu, walk::tycon(ccu, visits[i].stamp))
            }
        }
}

/// Setting the cases of one nested type is a permitted change, if it is one of that type.
proof fn lemma_nested_cases(
    c: EntityModel,
    q: spec_fn(EntityModel) -> bool,
    cases: Seq<Seq<char>>,
    namespace: Seq<Seq<char>>,
    chain: Seq<Seq<char>>,
    p: steps::Step,
)
    requires
        steps::is_step(p),
        forall|a: EntityModel|
            #[trigger] q(a) ==> p(
                namespace,
                chain.push(a.name),
                frame::bare(a),
                frame::bare(EntityModel { union_case_names: Some(cases), ..a }),
            ),
    ensures
        steps::stepped(
            c,
            EntityModel { nested_types: union_cases::with_cases(c.nested_types, q, cases), ..c },
            namespace,
            chain,
            p,
        ),
{
    lookup::lemma_first_found(c.nested_types, 0, q);
    match lookup::first_from(c.nested_types, 0, q) {
        Some(i) => {
            let a = c.nested_types[i];
            let v = EntityModel { union_case_names: Some(cases), ..a };
            assert(q(a));
            steps::lemma_alone(a, v, namespace, chain.push(a.name), p);
            steps::lemma_nested_update(c, i, v, namespace, chain, p);
        },
        None => {
            steps::lemma_stepped_refl(c, namespace, chain, p);
        },
    }
}

/// Setting the cases of one top-level type is a permitted change, if it is one of that
/// type.
proof fn lemma_top_cases(
    es: Seq<EntityModel>,
    q: spec_fn(EntityModel) -> bool,
    cases: Seq<Seq<char>>,
    p: steps::Step,
)
    requires
        steps::is_step(p),
        forall|a: EntityModel|
            #[trigger] q(a) ==> p(
                a.namespace,
                seq![a.name],
                frame::bare(a),
                frame::bare(EntityModel { union_case_names: Some(cases), ..a }),
            ),
    ensures
        steps::stepped_all(es, union_cases::with_cases(es, q, cases), p),
{
    steps::lemma_stepped_all_refl(es, p);
    lookup::lemma_first_found(es, 0, q);
    if let Some(i) = lookup::first_from(es, 0, q) {
        let a = es[i];
        let v = EntityModel { union_case_names: Some(cases), ..a };
        assert(q(a));
        steps::lemma_alone(a, v, a.namespace, seq![a.name], p);
        steps::lemma_top_update(es, i, v, p);
    }
}

/// The entity answers to the key of a target.
spec fn answers(t: UnionTargetModel, a: EntityModel, open: bool) -> bool {
    &&& a.name == t.name
    &&& a.generic_parameters.len() == t.arity
    &&& t.containers.len() == 0 ==> a.namespace == t.namespace
    &&& open ==> union_cases::is_open_union(a)
}

/// Setting the cases at the key of a target is permitted.
spec fn may_set(t: UnionTargetModel, cases: Seq<Seq<char>>, open: bool, p: steps::Step) -> bool {
    forall|a: EntityModel| #[trigger]
        answers(t, a, open) ==> p(
            t.namespace,
            t.containers.push(t.name),
            frame::bare(a),
            frame::bare(EntityModel { union_case_names: Some(cases), ..a }),
        )
}

/// Setting the cases of one nested type by its key.
proof fn lemma_nested_key(
    c: EntityModel,
    t: UnionTargetModel,
    cases: Seq<Seq<char>>,
    open: bool,
    p: steps::Step,
)
    requires
        steps::is_step(p),
        t.containers.len() > 0,
        may_set(t, cases, open, p),
    ensures
        ({
            let key = union_cases::has_key(t.name, t.arity);
            let q = if open {
                |e: EntityModel| key(e) && union_cases::is_open_union(e)
            } else {
                key
            };
            steps::stepped(
                c,
                EntityModel {
                    nested_types: union_cases::with_cases(c.nested_types, q, cases),
                    ..c
                },
                t.namespace,
                t.containers,
                p,
            )
        }),
{
    let key = union_cases::has_key(t.name, t.arity);
    let q = if open {
        |e: EntityModel| key(e) && union_cases::is_open_union(e)
    } else {
        key
    };
    assert forall|a: EntityModel| #[trigger] q(a) implies p(
        t.namespace,
        t.containers.push(a.name),
        frame::bare(a),
        frame::bare(EntityModel { union_case_names: Some(cases), ..a }),
    ) by {
        assert(answers(t, a, open));
    }
    lemma_nested_cases(c, q, cases, t.namespace, t.containers, p);
}

/// Setting the cases of one top-level type by its key.
proof fn lemma_top_key(
    es: Seq<EntityModel>,
    t: UnionTargetModel,
    cases: Seq<Seq<char>>,
    open: bool,
    p: steps::Step,
)
    requires
        steps::is_step(p),
        t.containers.len() == 0,
        may_set(t, cases, open, p),
    ensures
        ({
            let key = union_cases::has_top_key(t.namespace, t.name, t.arity);
            let q = if open {
                |e: EntityModel| key(e) && union_cases::is_open_union(e)
            } else {
                key
            };
            steps::stepped_all(es, union_cases::with_cases(es, q, cases), p)
        }),
{
    let key = union_cases::has_top_key(t.namespace, t.name, t.arity);
    let q = if open {
        |e: EntityModel| key(e) && union_cases::is_open_union(e)
    } else {
        key
    };
    assert(t.containers.push(t.name) =~= seq![t.name]);
    assert forall|a: EntityModel| #[trigger] q(a) implies p(
        a.namespace,
        seq![a.name],
        frame::bare(a),
        frame::bare(EntityModel { union_case_names: Some(cases), ..a }),
    ) by {
        assert(answers(t, a, open));
    }
    lemma_top_cases(es, q, cases, p);
}

/// Carrying the cases of a target is a permitted change where setting them is.
proof fn lemma_union(es: Seq<EntityModel>, t: UnionTargetModel, p: steps::Step)
    requires
        steps::is_step(p),
        may_set(t, t.cases, false, p),
    ensures
        steps::stepped_all(es, union_cases::with_union(es, t), p),
{
    if t.containers.len() == 0 {
        lemma_top_key(es, t, t.cases, false, p);
    } else {
        steps::lemma_stepped_all_refl(es, p);
        if let Some(c) = lookup::get(es, t.namespace, t.containers) {
            lemma_nested_key(c, t, t.cases, false, p);
            let q = union_cases::has_key(t.name, t.arity);
            let v = EntityModel {
                nested_types: union_cases::with_cases(c.nested_types, q, t.cases),
                ..c
            };
            steps::law_put_is_a_step(es, t.namespace, t.containers, v, p);
        }
    }
}

/// Sealing a hidden union is a permitted change where setting no cases is.
proof fn lemma_hidden(es: Seq<EntityModel>, t: UnionTargetModel, p: steps::Step)
    requires
        steps::is_step(p),
        may_set(t, Seq::empty(), true, p),
    ensures
        steps::stepped_all(es, union_cases::with_hidden(es, t), p),
{
    steps::lemma_stepped_all_refl(es, p);
    if t.containers.len() == 0 {
        lemma_top_key(es, t, Seq::empty(), true, p);
    } else if let Some(c) = lookup::get(es, t.namespace, t.containers) {
        let q = union_cases::has_key(t.name, t.arity);
        let v = EntityModel { nested_types: union_cases::sealed_by(c.nested_types, q), ..c };
        if lookup::count_from(c.nested_types, 0, q) == 1 {
            lemma_nested_key(c, t, Seq::empty(), true, p);
        } else {
            assert(v == c);
            steps::lemma_stepped_refl(c, t.namespace, t.containers, p);
        }
        steps::law_put_is_a_step(es, t.namespace, t.containers, v, p);
    }
}

/// Carrying the cases of all targets is a permitted change where setting each is.
proof fn lemma_unions(
    es: Seq<EntityModel>,
    targets: Seq<UnionTargetModel>,
    i: nat,
    p: steps::Step,
)
    requires
        steps::is_step(p),
        forall|j: int|
            i <= j < targets.len() ==> may_set(
                #[trigger] targets[j],
                targets[j].cases,
                false,
                p,
            ),
    ensures
        steps::stepped_all(es, union_cases::with_unions_from(es, targets, i), p),
    decreases targets.len() - i,
{
    steps::lemma_stepped_all_refl(es, p);
    if i < targets.len() {
        let next = union_cases::with_union(es, targets[i as int]);
        lemma_union(es, targets[i as int], p);
        lemma_unions(next, targets, i + 1, p);
        steps::lemma_stepped_all_trans(
            es,
            next,
            union_cases::with_unions_from(next, targets, i + 1),
            p,
        );
    }
}

/// Sealing all hidden unions is a permitted change where setting no cases is.
proof fn lemma_all_hidden(
    es: Seq<EntityModel>,
    targets: Seq<UnionTargetModel>,
    i: nat,
    p: steps::Step,
)
    requires
        steps::is_step(p),
        forall|j: int|
            i <= j < targets.len() ==> may_set(#[trigger] targets[j], Seq::empty(), true, p),
    ensures
        steps::stepped_all(es, union_cases::with_hidden_from(es, targets, i), p),
    decreases targets.len() - i,
{
    steps::lemma_stepped_all_refl(es, p);
    if i < targets.len() {
        let next = union_cases::with_hidden(es, targets[i as int]);
        lemma_hidden(es, targets[i as int], p);
        lemma_all_hidden(next, targets, i + 1, p);
        steps::lemma_stepped_all_trans(
            es,
            next,
            union_cases::with_hidden_from(next, targets, i + 1),
            p,
        );
    }
}

/// The target is that of a visited union.
spec fn of_union(ccu: PickledCcu, v: VisitModel, t: UnionTargetModel) -> bool {
    &&& lies_at(ccu, v, t.namespace, t.containers.push(t.name), t.arity)
    &&& declared_cases(walk::tycon(ccu, v.stamp)) is Some
    &&& lists_accessible(t.cases, declared_cases(walk::tycon(ccu, v.stamp))->0)
}

/// The target is that of a visited type that hides its representation.
spec fn of_hidden(ccu: PickledCcu, v: VisitModel, t: UnionTargetModel) -> bool {
    &&& lies_at(ccu, v, t.namespace, t.containers.push(t.name), t.arity)
    &&& hides_its_representation(ccu, walk::tycon(ccu, v.stamp))
}

/// Each target of a hidden type is that of a visited one.
proof fn lemma_hidden_from(
    ccu: PickledCcu,
    visits: Seq<VisitModel>,
    i: nat,
    acc: Seq<UnionTargetModel>,
    order: Seq<int>,
) -> (r: Seq<int>)
    requires
        i <= visits.len(),
        of_hidden_all(ccu, visits, acc, order, i),
    ensures
        of_hidden_all(
            ccu,
            visits,
            union_cases::hidden_from(ccu, visits, i, acc),
            r,
            visits.len(),
        ),
    decreases visits.len() - i,
{
    if i < visits.len() {
        let v = visits[i as int];
        let e = walk::tycon(ccu, v.stamp);
        if !v.is_root && union_cases::cases_of(e) is None && union_cases::is_hidden_type(ccu, e) {
            assert forall|i: int| 0 <= i < e.typars@.len() implies (#[trigger] e.typars@[i])
                < ccu.tables.typars@.len() && ccu.tables.typars@[e.typars@[i] as int].flags & 0x1100
                != 0x100 by {
                assert(names::is_type_typar(ccu, e.typars@[i]));
            }
            assert(hides_its_representation(ccu, e));
            let t = union_cases::target_with(ccu, v, Seq::empty());
            assert(of_hidden(ccu, v, t));
            lemma_hidden_from(ccu, visits, i + 1, acc.push(t), order.push(i as int))
        } else {
            lemma_hidden_from(ccu, visits, i + 1, acc, order)
        }
    } else {
        order
    }
}

/// The targets are those of the hidden types at the positions `order`.
spec fn of_hidden_all(
    ccu: PickledCcu,
    visits: Seq<VisitModel>,
    targets: Seq<UnionTargetModel>,
    order: Seq<int>,
    n: nat,
) -> bool {
    &&& order.len() == targets.len()
    &&& forall|k: int|
        0 <= k < order.len() ==> 0 <= (#[trigger] order[k]) < n && of_hidden(
            ccu,
            visits[order[k]],
            targets[k],
        )
}

/// Every case list that the overlay writes is that of a union of the pickle that lies at
/// the path of the entity and has as many type parameters: the names of its accessible
/// cases in the order of their declaration. Only a union with unknown cases gets an empty
/// list without that, and only where a type that hides its representation lies.
pub proof fn law_written_cases_are_the_accessible_ones(
    es: Seq<EntityModel>,
    ccu: PickledCcu,
    visits: Seq<VisitModel>,
)
    ensures
        steps::stepped_all(es, union_cases::overlaid(es, ccu, visits), carried(ccu, visits)),
{
    let p = carried(ccu, visits);
    assert(steps::is_step(p)) by {
        reveal(steps::is_step);
    }
    let unions = union_cases::unions_from(ccu, visits, 0, Seq::empty());
    let hidden = union_cases::hidden_from(ccu, visits, 0, Seq::empty());
    let order = lemma_positions(ccu, visits, 0, Seq::empty(), Seq::empty());
    let places = lemma_hidden_from(ccu, visits, 0, Seq::empty(), Seq::empty());
    assert forall|k: int| 0 <= k < unions.len() implies may_set(
        #[trigger] unions[k],
        unions[k].cases,
        false,
        p,
    ) by {
        let j = order[k];
        law_collected_names_are_those_of_the_accessible_cases(
            declared_cases(walk::tycon(ccu, visits[j].stamp))->0,
        );
        assert(of_union(ccu, visits[j], unions[k]));
        assert(lies_at(
            ccu,
            visits[j],
            unions[k].namespace,
            unions[k].containers.push(unions[k].name),
            unions[k].arity,
        ));
    }
    assert forall|k: int| 0 <= k < hidden.len() implies may_set(
        #[trigger] hidden[k],
        Seq::empty(),
        true,
        p,
    ) by {
        let j = places[k];
        assert(of_hidden(ccu, visits[j], hidden[k]));
        assert(lies_at(
            ccu,
            visits[j],
            hidden[k].namespace,
            hidden[k].containers.push(hidden[k].name),
            hidden[k].arity,
        ));
    }
    let middle = union_cases::with_unions_from(es, unions, 0);
    lemma_unions(es, unions, 0, p);
    lemma_all_hidden(middle, hidden, 0, p);
    steps::lemma_stepped_all_trans(es, middle, union_cases::overlaid(es, ccu, visits), p);
}

/// The entity that a key names: the first of its name and number of type parameters in
/// the namespace, or in the container.
pub open spec fn found(
    es: Seq<EntityModel>,
    namespace: Seq<Seq<char>>,
    containers: Seq<Seq<char>>,
    name: Seq<char>,
    arity: nat,
) -> Option<EntityModel> {
    if containers.len() == 0 {
        match lookup::first_from(
            es,
            0,
            |e: EntityModel|
                e.namespace == namespace && e.name == name && e.generic_parameters.len() == arity,
        ) {
            Some(i) => Some(es[i]),
            None => None,
        }
    } else {
        match lookup::get(es, namespace, containers) {
            Some(c) => match lookup::first_from(
                c.nested_types,
                0,
                |e: EntityModel| e.name == name && e.generic_parameters.len() == arity,
            ) {
                Some(i) => Some(c.nested_types[i]),
                None => None,
            },
            None => None,
        }
    }
}

/// The key of a target is this one.
spec fn has_key(
    t: UnionTargetModel,
    namespace: Seq<Seq<char>>,
    containers: Seq<Seq<char>>,
    name: Seq<char>,
    arity: nat,
) -> bool {
    t.namespace == namespace && t.containers == containers && t.name == name && t.arity == arity
}

/// The cases at one key stay, and all keys stay.
spec fn stays(
    namespace: Seq<Seq<char>>,
    chain: Seq<Seq<char>>,
    arity: nat,
) -> steps::Step {
    |n: Seq<Seq<char>>, c: Seq<Seq<char>>, a: EntityModel, b: EntityModel|
        {
            &&& a.name == b.name && a.namespace == b.namespace
            &&& a.generic_parameters == b.generic_parameters
            &&& n == namespace && c == chain && a.generic_parameters.len() == arity
                ==> a.union_case_names == b.union_case_names
        }
}

/// Known cases stay as they are, and all keys stay.
spec fn known_stay() -> steps::Step {
    |n: Seq<Seq<char>>, c: Seq<Seq<char>>, a: EntityModel, b: EntityModel|
        {
            &&& a.name == b.name && a.namespace == b.namespace
            &&& a.generic_parameters == b.generic_parameters
            &&& a.union_case_names is Some ==> a.union_case_names == b.union_case_names
        }
}

/// What a key names is named after a change that keeps all keys.
proof fn lemma_found(
    s: Seq<EntityModel>,
    t: Seq<EntityModel>,
    namespace: Seq<Seq<char>>,
    containers: Seq<Seq<char>>,
    name: Seq<char>,
    arity: nat,
    p: steps::Step,
)
    requires
        steps::is_step(p),
        steps::stepped_all(s, t, p),
        forall|n: Seq<Seq<char>>, c: Seq<Seq<char>>, a: EntityModel, b: EntityModel|
            #[trigger] p(n, c, a, b) ==> a.generic_parameters == b.generic_parameters,
    ensures
        match found(s, namespace, containers, name, arity) {
            Some(a) => {
                let b = found(t, namespace, containers, name, arity);
                b is Some && p(
                    namespace,
                    containers.push(name),
                    frame::bare(a),
                    frame::bare(b->0),
                ) && a.generic_parameters.len() == arity
            },
            None => found(t, namespace, containers, name, arity) is None,
        },
{
    if containers.len() == 0 {
        let q = |e: EntityModel|
            e.namespace == namespace && e.name == name && e.generic_parameters.len() == arity;
        assert forall|j: int| 0 <= j < s.len() implies q(#[trigger] s[j]) == q(t[j]) by {
            steps::lemma_keeps_name(s[j], t[j], s[j].namespace, seq![s[j].name], p);
            steps::lemma_stepped(s[j], t[j], s[j].namespace, seq![s[j].name], p);
            assert(frame::bare(s[j]).generic_parameters == frame::bare(t[j]).generic_parameters);
        }
        lookup::lemma_first_agrees(s, t, 0, q);
        lookup::lemma_first_found(s, 0, q);
        if let Some(i) = lookup::first_from(s, 0, q) {
            assert(containers.push(name) =~= seq![name]);
            assert(steps::stepped(s[i], t[i], s[i].namespace, seq![s[i].name], p));
            steps::lemma_stepped(s[i], t[i], s[i].namespace, seq![s[i].name], p);
        }
    } else {
        steps::lemma_get_stepped(s, t, namespace, containers, p);
        if let Some(c) = lookup::get(s, namespace, containers) {
            let d = lookup::get(t, namespace, containers)->0;
            steps::lemma_stepped(c, d, namespace, containers, p);
            let q = |e: EntityModel| e.name == name && e.generic_parameters.len() == arity;
            let (x, y) = (c.nested_types, d.nested_types);
            assert forall|j: int| 0 <= j < x.len() implies q(#[trigger] x[j]) == q(y[j]) by {
                steps::lemma_keeps_name(x[j], y[j], namespace, containers.push(x[j].name), p);
                steps::lemma_stepped(x[j], y[j], namespace, containers.push(x[j].name), p);
                assert(frame::bare(x[j]).generic_parameters
                    == frame::bare(y[j]).generic_parameters);
            }
            lookup::lemma_first_agrees(x, y, 0, q);
            lookup::lemma_first_found(x, 0, q);
            if let Some(i) = lookup::first_from(x, 0, q) {
                assert(steps::stepped(x[i], y[i], namespace, containers.push(x[i].name), p));
                steps::lemma_stepped(x[i], y[i], namespace, containers.push(x[i].name), p);
            }
        }
    }
}

/// The cases that a target carries are on the entity that its key names.
proof fn lemma_carried(es: Seq<EntityModel>, t: UnionTargetModel)
    requires
        found(es, t.namespace, t.containers, t.name, t.arity) is Some,
    ensures
        ({
            let b = found(
                union_cases::with_union(es, t),
                t.namespace,
                t.containers,
                t.name,
                t.arity,
            );
            b is Some && b->0.union_case_names == Some(t.cases)
        }),
{
    if t.containers.len() == 0 {
        let q = |e: EntityModel|
            e.namespace == t.namespace && e.name == t.name && e.generic_parameters.len()
                == t.arity;
        let key = union_cases::has_top_key(t.namespace, t.name, t.arity);
        assert(key =~= q);
        lemma_set_first(es, q, t.cases);
    } else {
        let c = lookup::get(es, t.namespace, t.containers)->0;
        let q = |e: EntityModel| e.name == t.name && e.generic_parameters.len() == t.arity;
        let key = union_cases::has_key(t.name, t.arity);
        assert(key =~= q);
        lemma_set_first(c.nested_types, q, t.cases);
        let v = EntityModel {
            nested_types: union_cases::with_cases(c.nested_types, key, t.cases),
            ..c
        };
        lookup::lemma_get_is_called(es, t.namespace, t.containers);
        lookup::law_get_put(es, t.namespace, t.containers, v);
    }
}

/// The first element that satisfies a condition on the key is the one whose cases are set,
/// and stays the first.
proof fn lemma_set_first(
    es: Seq<EntityModel>,
    q: spec_fn(EntityModel) -> bool,
    cases: Seq<Seq<char>>,
)
    requires
        lookup::first_from(es, 0, q) is Some,
        forall|a: EntityModel|
            q(a) == #[trigger] q(EntityModel { union_case_names: Some(cases), ..a }),
    ensures
        ({
            let after = union_cases::with_cases(es, q, cases);
            let k = lookup::first_from(after, 0, q);
            k is Some && 0 <= k->0 < after.len() && after[k->0].union_case_names == Some(cases)
        }),
{
    lookup::lemma_first_found(es, 0, q);
    let i = lookup::first_from(es, 0, q)->0;
    let after = union_cases::with_cases(es, q, cases);
    assert(q(EntityModel { union_case_names: Some(cases), ..es[i] }));
    assert forall|j: int| 0 <= j < es.len() implies q(#[trigger] es[j]) == q(after[j]) by {}
    lookup::lemma_first_agrees(es, after, 0, q);
}

/// Targets with other keys leave the cases at a key.
proof fn lemma_others(
    es: Seq<EntityModel>,
    targets: Seq<UnionTargetModel>,
    i: nat,
    namespace: Seq<Seq<char>>,
    containers: Seq<Seq<char>>,
    name: Seq<char>,
    arity: nat,
)
    requires
        forall|j: int|
            i <= j < targets.len() ==> !has_key(
                #[trigger] targets[j],
                namespace,
                containers,
                name,
                arity,
            ),
        found(es, namespace, containers, name, arity) is Some,
    ensures
        ({
            let b = found(
                union_cases::with_unions_from(es, targets, i),
                namespace,
                containers,
                name,
                arity,
            );
            b is Some && b->0.union_case_names == found(
                es,
                namespace,
                containers,
                name,
                arity,
            )->0.union_case_names
        }),
{
    let chain = containers.push(name);
    let p = stays(namespace, chain, arity);
    assert(steps::is_step(p)) by {
        reveal(steps::is_step);
    }
    assert forall|j: int| i <= j < targets.len() implies may_set(
        #[trigger] targets[j],
        targets[j].cases,
        false,
        p,
    ) by {
        let t = targets[j];
        if t.namespace == namespace && t.containers.push(t.name) == chain && t.arity == arity {
            assert(t.containers.push(t.name).drop_last() =~= t.containers);
            assert(chain.drop_last() =~= containers);
            assert(t.containers.push(t.name).last() == t.name);
            assert(chain.last() == name);
        }
    }
    lemma_unions(es, targets, i, p);
    let t = union_cases::with_unions_from(es, targets, i);
    lemma_found(es, t, namespace, containers, name, arity, p);
    let a = found(es, namespace, containers, name, arity)->0;
    let b = found(t, namespace, containers, name, arity)->0;
    assert(frame::bare(a).union_case_names == frame::bare(b).union_case_names);
}

/// The targets from `i` on carry the cases of the `k`-th, where no other has its key.
proof fn lemma_carried_among(
    es: Seq<EntityModel>,
    targets: Seq<UnionTargetModel>,
    i: nat,
    k: int,
)
    requires
        i <= k < targets.len(),
        found(
            es,
            targets[k].namespace,
            targets[k].containers,
            targets[k].name,
            targets[k].arity,
        ) is Some,
        forall|j: int|
            i <= j < targets.len() && j != k ==> !has_key(
                #[trigger] targets[j],
                targets[k].namespace,
                targets[k].containers,
                targets[k].name,
                targets[k].arity,
            ),
    ensures
        ({
            let t = targets[k];
            let b = found(
                union_cases::with_unions_from(es, targets, i),
                t.namespace,
                t.containers,
                t.name,
                t.arity,
            );
            b is Some && b->0.union_case_names == Some(t.cases)
        }),
    decreases targets.len() - i,
{
    let t = targets[k];
    let next = union_cases::with_union(es, targets[i as int]);
    if i == k {
        lemma_carried(es, t);
        lemma_others(next, targets, i + 1, t.namespace, t.containers, t.name, t.arity);
    } else {
        let one = targets.subrange(i as int, i as int + 1);
        assert(!has_key(targets[i as int], t.namespace, t.containers, t.name, t.arity));
        lemma_others(es, one, 0, t.namespace, t.containers, t.name, t.arity);
        assert(union_cases::with_unions_from(es, one, 0) == next) by {
            reveal_with_fuel(union_cases::with_unions_from, 2);
        }
        lemma_carried_among(next, targets, i + 1, k);
    }
}

/// The cases of a union reach the tree: where one entity answers to the key of a union of
/// the pickle and no other union has that key, its list is, after the overlay, that of
/// the accessible cases in the order of their declaration.
pub proof fn law_the_cases_of_a_union_are_carried(
    es: Seq<EntityModel>,
    ccu: PickledCcu,
    visits: Seq<VisitModel>,
    k: int,
)
    requires
        0 <= k < visits.len(),
        !visits[k].is_root,
        declared_cases(walk::tycon(ccu, visits[k].stamp)) is Some,
        found(
            es,
            visits[k].namespace,
            visits[k].type_chain,
            names::clr_name_of(walk::tycon(ccu, visits[k].stamp)),
            walk::tycon(ccu, visits[k].stamp).typars@.len(),
        ) is Some,
        forall|j: int|
            0 <= j < visits.len() && j != k && declared_cases(
                walk::tycon(ccu, (#[trigger] visits[j]).stamp),
            ) is Some ==> !lies_at(
                ccu,
                visits[j],
                visits[k].namespace,
                visits[k].type_chain.push(names::clr_name_of(walk::tycon(ccu, visits[k].stamp))),
                walk::tycon(ccu, visits[k].stamp).typars@.len(),
            ),
    ensures
        ({
            let e = walk::tycon(ccu, visits[k].stamp);
            let b = found(
                union_cases::overlaid(es, ccu, visits),
                visits[k].namespace,
                visits[k].type_chain,
                names::clr_name_of(e),
                e.typars@.len(),
            );
            &&& b is Some
            &&& b->0.union_case_names is Some
            &&& lists_accessible(b->0.union_case_names->0, declared_cases(e)->0)
        }),
{
    let v = visits[k];
    let e = walk::tycon(ccu, v.stamp);
    let name = names::clr_name_of(e);
    let arity = e.typars@.len();
    let unions = union_cases::unions_from(ccu, visits, 0, Seq::empty());
    let hidden = union_cases::hidden_from(ccu, visits, 0, Seq::empty());
    let order = lemma_positions(ccu, visits, 0, Seq::empty(), Seq::empty());
    let at = choose|i: int| 0 <= i < order.len() && order[i] == k;
    assert forall|j: int| 0 <= j < unions.len() && j != at implies !has_key(
        #[trigger] unions[j],
        v.namespace,
        v.type_chain,
        name,
        arity,
    ) by {
        let w = visits[order[j]];
        assert(order[j] != k);
        assert(declared_cases(walk::tycon(ccu, w.stamp)) is Some);
    }
    law_collected_names_are_those_of_the_accessible_cases(declared_cases(e)->0);
    lemma_carried_among(es, unions, 0, at);
    let middle = union_cases::with_unions_from(es, unions, 0);
    let p = known_stay();
    assert(steps::is_step(p)) by {
        reveal(steps::is_step);
    }
    lemma_all_hidden(middle, hidden, 0, p);
    let t = union_cases::overlaid(es, ccu, visits);
    lemma_found(middle, t, v.namespace, v.type_chain, name, arity, p);
    let a = found(middle, v.namespace, v.type_chain, name, arity)->0;
    let b = found(t, v.namespace, v.type_chain, name, arity)->0;
    assert(frame::bare(a).union_case_names == frame::bare(b).union_case_names);
}

/// The targets are those of the visits at the positions `order`.
spec fn at_positions(
    ccu: PickledCcu,
    visits: Seq<VisitModel>,
    targets: Seq<UnionTargetModel>,
    order: Seq<int>,
    n: nat,
) -> bool {
    &&& order.len() == targets.len()
    &&& order.no_duplicates()
    &&& forall|i: int|
        0 <= i < order.len() ==> 0 <= (#[trigger] order[i]) < n && !visits[order[i]].is_root
            && declared_cases(walk::tycon(ccu, visits[order[i]].stamp)) is Some && targets[i]
            == union_cases::target_with(
            ccu,
            visits[order[i]],
            union_cases::case_names_from(
                declared_cases(walk::tycon(ccu, visits[order[i]].stamp))->0,
                0,
                Seq::empty(),
            ),
        )
    &&& forall|k: int|
        0 <= k < n && !(#[trigger] visits[k]).is_root && declared_cases(
            walk::tycon(ccu, visits[k].stamp),
        ) is Some ==> order.contains(k)
}

/// The targets of the unions stand at some positions.
proof fn lemma_positions(
    ccu: PickledCcu,
    visits: Seq<VisitModel>,
    i: nat,
    acc: Seq<UnionTargetModel>,
    order: Seq<int>,
) -> (r: Seq<int>)
    requires
        i <= visits.len(),
        at_positions(ccu, visits, acc, order, i),
    ensures
        at_positions(
            ccu,
            visits,
            union_cases::unions_from(ccu, visits, i, acc),
            r,
            visits.len(),
        ),
    decreases visits.len() - i,
{
    if i < visits.len() {
        let v = visits[i as int];
        let e = walk::tycon(ccu, v.stamp);
        assert(union_cases::cases_of(e) == declared_cases(e));
        if !v.is_root && declared_cases(e) is Some {
            let t = union_cases::target_with(
                ccu,
                v,
                union_cases::case_names_from(declared_cases(e)->0, 0, Seq::empty()),
            );
            let next = order.push(i as int);
            assert forall|k: int|
                0 <= k < i + 1 && !(#[trigger] visits[k]).is_root && declared_cases(
                    walk::tycon(ccu, visits[k].stamp),
                ) is Some implies next.contains(k) by {
                if k < i {
                    assert(order.contains(k));
                    let j = choose|j: int| 0 <= j < order.len() && order[j] == k;
                    assert(next[j] == k);
                } else {
                    assert(next[order.len() as int] == k);
                }
            }
            lemma_positions(ccu, visits, i + 1, acc.push(t), next)
        } else {
            lemma_positions(ccu, visits, i + 1, acc, order)
        }
    } else {
        order
    }
}

} // verus!
