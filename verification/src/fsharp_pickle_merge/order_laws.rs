//! What the declaration order keeps.
//!
//! Putting the tree in declaration order moves entities within their level and does
//! nothing else, and doing it twice is doing it once.
use crate::fsharp_pickle::model::PickledCcu;
use crate::fsharp_pickle_merge::frame;
use crate::fsharp_pickle_merge::lookup;
use crate::fsharp_pickle_merge::names;
use crate::fsharp_pickle_merge::order;
use crate::fsharp_pickle_merge::order::{ChildOrderModel, Declared, TopKeyModel};
use crate::fsharp_pickle_merge::sorting;
use crate::fsharp_pickle_merge::walk;
use crate::fsharp_pickle_merge::walk::VisitModel;
use crate::model::EntityModel;
use vstd::prelude::*;

verus! {

/// `b` is `a` with the types nested in it in another order, at any depth.
#[verifier::opaque]
pub open spec fn shuffled(a: EntityModel, b: EntityModel) -> bool
    decreases a,
{
    &&& frame::bare(a) == frame::bare(b)
    &&& exists|o: Seq<int>|
        {
            &&& #[trigger] sorting::is_permutation(o, a.nested_types.len())
            &&& b.nested_types.len() == o.len()
            &&& forall|i: int|
                0 <= i < o.len() ==> 0 <= o[i] < a.nested_types.len() && shuffled(
                    a.nested_types[o[i]],
                    #[trigger] b.nested_types[i],
                )
        }
}

/// The tree `t` has the entities of `s` in the order `o`, each with the types nested in
/// it in another order.
pub open spec fn shuffled_by(o: Seq<int>, s: Seq<EntityModel>, t: Seq<EntityModel>) -> bool {
    &&& sorting::is_permutation(o, s.len())
    &&& t.len() == o.len()
    &&& forall|i: int| 0 <= i < o.len() ==> shuffled(s[o[i]], #[trigger] t[i])
}

/// The tree `t` is `s` with the entities of each level in another order.
pub open spec fn shuffled_all(s: Seq<EntityModel>, t: Seq<EntityModel>) -> bool {
    exists|o: Seq<int>| #[trigger] shuffled_by(o, s, t)
}

/// An entity is shuffled when its own facts stay and its nested types are shuffled.
proof fn lemma_shuffled(a: EntityModel, b: EntityModel)
    ensures
        shuffled(a, b) <==> frame::bare(a) == frame::bare(b) && shuffled_all(
            a.nested_types,
            b.nested_types,
        ),
{
    reveal(shuffled);
    let (s, t) = (a.nested_types, b.nested_types);
    if shuffled(a, b) {
        let o = choose|o: Seq<int>|
            {
                &&& #[trigger] sorting::is_permutation(o, s.len())
                &&& t.len() == o.len()
                &&& forall|i: int|
                    0 <= i < o.len() ==> 0 <= o[i] < s.len() && shuffled(s[o[i]], #[trigger] t[i])
            };
        assert(shuffled_by(o, s, t));
    }
    if frame::bare(a) == frame::bare(b) && shuffled_all(s, t) {
        let o = choose|o: Seq<int>| #[trigger] shuffled_by(o, s, t);
        assert(sorting::is_permutation(o, s.len()));
        assert forall|i: int| 0 <= i < o.len() implies 0 <= o[i] < s.len() && shuffled(
            s[o[i]],
            #[trigger] t[i],
        ) by {}
    }
}

/// The order that leaves each of `n` entities in its place.
spec fn same_places(n: nat) -> Seq<int> {
    Seq::new(n, |i: int| i)
}

/// An entity is itself, shuffled by nothing.
proof fn lemma_shuffled_refl(e: EntityModel)
    ensures
        shuffled(e, e),
    decreases e,
{
    let s = e.nested_types;
    let o = same_places(s.len());
    assert(sorting::is_permutation(o, s.len()));
    assert forall|i: int| 0 <= i < o.len() implies shuffled(s[o[i]], #[trigger] s[i]) by {
        lemma_shuffled_refl(s[i]);
    }
    assert(shuffled_by(o, s, s));
    lemma_shuffled(e, e);
}

/// Shuffling an entity twice is shuffling it.
proof fn lemma_shuffled_trans(a: EntityModel, b: EntityModel, c: EntityModel)
    requires
        shuffled(a, b),
        shuffled(b, c),
    ensures
        shuffled(a, c),
    decreases a,
{
    lemma_shuffled(a, b);
    lemma_shuffled(b, c);
    lemma_shuffled(a, c);
    let (s, t, u) = (a.nested_types, b.nested_types, c.nested_types);
    let o = choose|o: Seq<int>| #[trigger] shuffled_by(o, s, t);
    let p = choose|p: Seq<int>| #[trigger] shuffled_by(p, t, u);
    let q = sorting::permuted(o, p);
    lemma_composed(o, p, s.len());
    assert forall|i: int| 0 <= i < q.len() implies shuffled(s[q[i]], #[trigger] u[i]) by {
        assert(0 <= p[i] < t.len());
        assert(shuffled(s[o[p[i]]], t[p[i]]));
        assert(shuffled(t[p[i]], u[i]));
        lemma_shuffled_trans(s[o[p[i]]], t[p[i]], u[i]);
    }
    assert(shuffled_by(q, s, u));
}

/// Two permutations make one.
proof fn lemma_composed(o: Seq<int>, p: Seq<int>, n: nat)
    requires
        sorting::is_permutation(o, n),
        sorting::is_permutation(p, n),
    ensures
        sorting::is_permutation(sorting::permuted(o, p), n),
{
    let q = sorting::permuted(o, p);
    assert forall|j: int, k: int| 0 <= j < q.len() && 0 <= k < q.len() && j != k implies q[j]
        != q[k] by {
        assert(p[j] != p[k]);
        assert(0 <= p[j] < n && 0 <= p[k] < n);
    }
    assert forall|j: int| 0 <= j < q.len() implies 0 <= (#[trigger] q[j]) < n by {
        assert(0 <= p[j] < n);
    }
}

/// Shuffling one entity and leaving the places of all shuffles the level.
proof fn lemma_update_shuffles(s: Seq<EntityModel>, i: int, v: EntityModel)
    requires
        0 <= i < s.len(),
        shuffled(s[i], v),
    ensures
        shuffled_by(same_places(s.len()), s, s.update(i, v)),
        shuffled_all(s, s.update(i, v)),
{
    let o = same_places(s.len());
    let t = s.update(i, v);
    assert forall|j: int| 0 <= j < o.len() implies shuffled(s[o[j]], #[trigger] t[j]) by {
        lemma_shuffled_refl(s[j]);
    }
    assert(shuffled_by(o, s, t));
}

/// Sorting a level shuffles it.
proof fn lemma_sorted_shuffles(
    s: Seq<EntityModel>,
    rank: spec_fn(EntityModel) -> nat,
    n: nat,
)
    requires
        forall|e: EntityModel| #[trigger] rank(e) <= n,
    ensures
        shuffled_by(sorting::by_rank(s.map_values(rank), 0, n), s, sorting::sorted(s, rank, n)),
{
    sorting::law_sorted_is_a_stable_sort(s, rank, n);
    let o = sorting::by_rank(s.map_values(rank), 0, n);
    let t = sorting::sorted(s, rank, n);
    assert forall|i: int| 0 <= i < o.len() implies shuffled(s[o[i]], #[trigger] t[i]) by {
        lemma_shuffled_refl(s[o[i]]);
    }
}

/// Shuffling what is found below an entity shuffles the entity.
proof fn lemma_nested_put_shuffles(e: EntityModel, chain: Seq<Seq<char>>, v: EntityModel)
    requires
        lookup::nested_get(e, chain) is Some,
        shuffled(lookup::nested_get(e, chain)->0, v),
    ensures
        shuffled(e, lookup::nested_put(e, chain, v)),
    decreases chain.len(),
{
    if chain.len() > 0 {
        let q = lookup::called(chain[0]);
        lookup::lemma_first_found(e.nested_types, 0, q);
        let i = lookup::first_from(e.nested_types, 0, q)->0;
        lemma_nested_put_shuffles(e.nested_types[i], chain.drop_first(), v);
        let child = lookup::nested_put(e.nested_types[i], chain.drop_first(), v);
        lemma_update_shuffles(e.nested_types, i, child);
        let put = lookup::nested_put(e, chain, v);
        assert(frame::bare(put) == frame::bare(e));
        lemma_shuffled(e, put);
    }
}

/// The container of `c` with its children in declaration order.
spec fn arranged(e: EntityModel, names: Seq<Seq<char>>) -> EntityModel {
    EntityModel { nested_types: order::nested_ordered(e.nested_types, names), ..e }
}

/// Putting the children of a container in order shuffles it.
proof fn lemma_arranged_shuffles(e: EntityModel, names: Seq<Seq<char>>)
    ensures
        shuffled(e, arranged(e, names)),
{
    order::lemma_ranks(Seq::empty(), names);
    lemma_sorted_shuffles(e.nested_types, order::by_name(names), names.len());
    assert(frame::bare(e) == frame::bare(arranged(e, names)));
    lemma_shuffled(e, arranged(e, names));
}

/// Putting the children of one container in order leaves the places at the top.
proof fn lemma_container_shuffles(es: Seq<EntityModel>, c: ChildOrderModel)
    ensures
        shuffled_by(same_places(es.len()), es, order::container_ordered(es, c)),
{
    let o = same_places(es.len());
    match lookup::get(es, c.namespace, c.chain) {
        Some(e) => {
            let q = lookup::at_top(c.namespace, c.chain[0]);
            lookup::lemma_first_found(es, 0, q);
            let i = lookup::first_from(es, 0, q)->0;
            let rest = c.chain.drop_first();
            let v = arranged(e, c.names);
            lemma_arranged_shuffles(e, c.names);
            lemma_nested_put_shuffles(es[i], rest, v);
            lemma_update_shuffles(es, i, lookup::nested_put(es[i], rest, v));
        },
        None => {
            assert forall|i: int| 0 <= i < o.len() implies shuffled(es[o[i]], #[trigger] es[i]) by {
                lemma_shuffled_refl(es[i]);
            }
        },
    }
}

/// Putting the children of the containers in order leaves the places at the top.
proof fn lemma_children_shuffle(es: Seq<EntityModel>, children: Seq<ChildOrderModel>, i: nat)
    ensures
        shuffled_by(
            same_places(es.len()),
            es,
            order::children_ordered_from(es, children, i),
        ),
    decreases children.len() - i,
{
    let o = same_places(es.len());
    let u = order::children_ordered_from(es, children, i);
    if i < children.len() {
        let t = order::container_ordered(es, children[i as int]);
        lemma_container_shuffles(es, children[i as int]);
        lemma_children_shuffle(t, children, i + 1);
        assert forall|j: int| 0 <= j < o.len() implies shuffled(es[o[j]], #[trigger] u[j]) by {
            assert(shuffled(es[o[j]], t[j]));
            assert(shuffled(t[same_places(t.len())[j]], u[j]));
            lemma_shuffled_trans(es[j], t[j], u[j]);
        }
    } else {
        assert forall|j: int| 0 <= j < o.len() implies shuffled(es[o[j]], #[trigger] u[j]) by {
            lemma_shuffled_refl(es[j]);
        }
    }
}

/// The pickle declares the top-level entity.
pub open spec fn is_declared(top: Seq<TopKeyModel>, e: EntityModel) -> bool {
    lookup::first_from(top, 0, order::is_top_key(e.namespace, e.name)) is Some
}

/// In the order `o` the declared entities of `s` come first, in the order of their keys;
/// the others keep their order, and so do entities of one namespace and name.
pub open spec fn declared_first(
    o: Seq<int>,
    s: Seq<EntityModel>,
    top: Seq<TopKeyModel>,
) -> bool {
    forall|j: int, k: int|
        0 <= j < k < o.len() ==> {
            let (a, b) = (s[#[trigger] o[j]], s[#[trigger] o[k]]);
            &&& order::top_rank(top, a) <= order::top_rank(top, b)
            &&& !is_declared(top, a) ==> !is_declared(top, b) && o[j] < o[k]
            &&& a.namespace == b.namespace && a.name == b.name ==> o[j] < o[k]
        }
}

/// The declaration order is a rearrangement of each level of the tree: no entity, at any
/// depth, is lost, doubled, changed or moved to another level. At the top the declared
/// entities come first, in the order of their declaration; the others keep their order
/// behind them, and so do entities of one namespace and name.
pub proof fn law_order_only_rearranges(es: Seq<EntityModel>, d: Declared)
    ensures
        exists|o: Seq<int>|
            #[trigger] shuffled_by(o, es, order::ordered(es, d)) && declared_first(o, es, d.top),
        shuffled_all(es, order::ordered(es, d)),
{
    order::lemma_ranks(d.top, Seq::empty());
    let rank = order::by_key(d.top);
    let o = sorting::by_rank(es.map_values(rank), 0, d.top.len());
    let t = order::top_ordered(es, d.top);
    let u = order::ordered(es, d);
    lemma_sorted_shuffles(es, rank, d.top.len());
    sorting::law_sorted_is_a_stable_sort(es, rank, d.top.len());
    lemma_children_shuffle(t, d.children, 0);
    assert forall|i: int| 0 <= i < o.len() implies shuffled(es[o[i]], #[trigger] u[i]) by {
        assert(shuffled(es[o[i]], t[i]));
        assert(shuffled(t[same_places(t.len())[i]], u[i]));
        lemma_shuffled_trans(es[o[i]], t[i], u[i]);
    }
    assert(shuffled_by(o, es, u));
    assert forall|j: int, k: int| 0 <= j < k < o.len() implies {
        let (a, b) = (es[#[trigger] o[j]], es[#[trigger] o[k]]);
        &&& order::top_rank(d.top, a) <= order::top_rank(d.top, b)
        &&& !is_declared(d.top, a) ==> !is_declared(d.top, b) && o[j] < o[k]
        &&& a.namespace == b.namespace && a.name == b.name ==> o[j] < o[k]
    } by {
        let (a, b) = (es[o[j]], es[o[k]]);
        lookup::lemma_first_found(d.top, 0, order::is_top_key(a.namespace, a.name));
        lookup::lemma_first_found(d.top, 0, order::is_top_key(b.namespace, b.name));
        assert(rank(a) < rank(b) || (rank(a) == rank(b) && o[j] < o[k]));
    }
    assert(declared_first(o, es, d.top));
}

/// No two containers have the same path.
pub open spec fn distinct(children: Seq<ChildOrderModel>) -> bool {
    forall|j: int, k: int|
        0 <= j < k < children.len() ==> !((#[trigger] children[j]).namespace == (
        #[trigger] children[k]).namespace && children[j].chain == children[k].chain)
}

/// Declaring a child keeps the containers distinct.
proof fn lemma_with_child_distinct(
    d: Declared,
    namespace: Seq<Seq<char>>,
    chain: Seq<Seq<char>>,
    name: Seq<char>,
)
    requires
        distinct(d.children),
    ensures
        distinct(order::with_child(d, namespace, chain, name).children),
{
    let p = order::is_container(namespace, chain);
    lookup::lemma_first_found(d.children, 0, p);
    let after = order::with_child(d, namespace, chain, name).children;
    assert forall|j: int, k: int| 0 <= j < k < after.len() implies !((
    #[trigger] after[j]).namespace == (#[trigger] after[k]).namespace && after[j].chain
        == after[k].chain) by {
        if k < d.children.len() {
            assert(!(d.children[j].namespace == d.children[k].namespace && d.children[j].chain
                == d.children[k].chain));
        } else {
            assert(!p(d.children[j]));
        }
    }
}

/// Declaring the children of an entity keeps the containers distinct.
proof fn lemma_with_children_distinct(
    ccu: PickledCcu,
    d: Declared,
    namespace: Seq<Seq<char>>,
    chain: Seq<Seq<char>>,
    stamps: Seq<u32>,
    i: nat,
)
    requires
        distinct(d.children),
    ensures
        order::with_children_from(ccu, d, namespace, chain, stamps, i) matches Ok(r) ==> distinct(
            r.children,
        ),
    decreases stamps.len() - i,
{
    if i < stamps.len() && stamps[i as int] < ccu.tables.tycons@.len() {
        let child = walk::tycon(ccu, stamps[i as int]);
        let name = names::clr_name_of(child);
        lemma_with_child_distinct(d, namespace, chain, name);
        let next = if !order::has_row(child) {
            d
        } else if chain.len() == 0 {
            order::with_top(d, namespace, name)
        } else {
            order::with_child(d, namespace, chain, name)
        };
        lemma_with_children_distinct(ccu, next, namespace, chain, stamps, i + 1);
    }
}

/// The containers of the visits are distinct.
proof fn lemma_declared_distinct(
    ccu: PickledCcu,
    visits: Seq<VisitModel>,
    i: nat,
    d: Declared,
)
    requires
        distinct(d.children),
    ensures
        order::declared_from(ccu, visits, i, d) matches Ok(r) ==> distinct(r.children),
    decreases visits.len() - i,
{
    if i < visits.len() {
        let v = visits[i as int];
        let e = walk::tycon(ccu, v.stamp);
        let namespace = walk::child_namespace(e, v.is_root, v.namespace);
        let chain = walk::child_chain(e, v.is_root, v.type_chain);
        let stamps = e.module_type.entities@;
        lemma_with_children_distinct(ccu, d, namespace, chain, stamps, 0);
        if let Ok(next) = order::with_children_from(ccu, d, namespace, chain, stamps, 0) {
            lemma_declared_distinct(ccu, visits, i + 1, next);
        }
    }
}

/// The first entity with a name is the same after a sort by name.
proof fn lemma_first_stays(s: Seq<EntityModel>, names: Seq<Seq<char>>, name: Seq<char>)
    ensures
        ({
            let t = order::nested_ordered(s, names);
            let q = lookup::called(name);
            match lookup::first_from(s, 0, q) {
                Some(i) => {
                    let k = lookup::first_from(t, 0, q);
                    k is Some && 0 <= k->0 < t.len() && 0 <= i < s.len() && t[k->0] == s[i]
                },
                None => lookup::first_from(t, 0, q) is None,
            }
        }),
{
    order::lemma_ranks(Seq::empty(), names);
    let rank = order::by_name(names);
    let n = names.len();
    let o = sorting::by_rank(s.map_values(rank), 0, n);
    let t = order::nested_ordered(s, names);
    let q = lookup::called(name);
    sorting::law_sorted_is_a_stable_sort(s, rank, n);
    sorting::law_by_rank_is_a_stable_sort(s.map_values(rank), n);
    lookup::lemma_first_found(s, 0, q);
    match lookup::first_from(s, 0, q) {
        Some(i) => {
            assert(o.contains(i));
            let k = choose|k: int| 0 <= k < o.len() && o[k] == i;
            assert forall|j: int| 0 <= j < k implies !q(#[trigger] t[j]) by {
                let a = s[o[j]];
                assert(t[j] == a);
                if a.name == name {
                    assert(order::nested_rank(names, a) == order::nested_rank(names, s[i]));
                    assert(rank(s[o[j]]) == rank(s[o[k]]));
                    assert(o[j] < i);
                    lookup::lemma_not_before(s, 0, q, o[j]);
                }
            }
            lookup::lemma_first_is(t, 0, k, q);
        },
        None => {
            assert forall|j: int| 0 <= j < t.len() implies !q(#[trigger] t[j]) by {
                assert(t[j] == s[o[j]]);
            }
            lookup::lemma_first_is(t, 0, t.len() as int, q);
        },
    }
}

/// The children of what `chain` leads to below `e`, if anything, stand in the order of
/// `names`.
spec fn nested_in_order(e: EntityModel, chain: Seq<Seq<char>>, names: Seq<Seq<char>>) -> bool {
    match lookup::nested_get(e, chain) {
        Some(x) => sorting::in_order(x.nested_types, order::by_name(names)),
        None => true,
    }
}

/// Levels with the same names are both in order or neither is.
proof fn lemma_in_order_by_names(
    s: Seq<EntityModel>,
    t: Seq<EntityModel>,
    names: Seq<Seq<char>>,
)
    requires
        s.len() == t.len(),
        forall|i: int| 0 <= i < s.len() ==> (#[trigger] s[i]).name == t[i].name,
        sorting::in_order(s, order::by_name(names)),
    ensures
        sorting::in_order(t, order::by_name(names)),
{
    let rank = order::by_name(names);
    assert forall|j: int, k: int| 0 <= j < k < t.len() implies rank(#[trigger] t[j]) <= rank(
        #[trigger] t[k],
    ) by {
        assert(rank(s[j]) <= rank(s[k]));
        assert(order::nested_rank(names, s[j]) == order::nested_rank(names, t[j]));
        assert(order::nested_rank(names, s[k]) == order::nested_rank(names, t[k]));
    }
}

/// Putting the children of one container in order leaves those of another in order.
proof fn lemma_nested_stays_in_order(
    e: EntityModel,
    at: Seq<Seq<char>>,
    names: Seq<Seq<char>>,
    chain: Seq<Seq<char>>,
    others: Seq<Seq<char>>,
)
    requires
        lookup::nested_get(e, at) is Some,
        at != chain,
        nested_in_order(e, chain, others),
    ensures
        ({
            let after = lookup::nested_put(
                e,
                at,
                arranged(lookup::nested_get(e, at)->0, names),
            );
            &&& nested_in_order(after, chain, others)
            &&& after.name == e.name
            &&& after.namespace == e.namespace
        }),
    decreases at.len(),
{
    let v = arranged(lookup::nested_get(e, at)->0, names);
    let after = lookup::nested_put(e, at, v);
    if at.len() == 0 {
        assert(chain.len() > 0) by {
            if chain.len() == 0 {
                assert(at =~= chain);
            }
        }
        lemma_first_stays(e.nested_types, names, chain[0]);
    } else {
        let q = lookup::called(at[0]);
        lookup::lemma_first_found(e.nested_types, 0, q);
        let i = lookup::first_from(e.nested_types, 0, q)->0;
        let child = e.nested_types[i];
        let put = lookup::nested_put(child, at.drop_first(), v);
        assert(put.name == child.name) by {
            lemma_keeps_name(child, at.drop_first(), names);
        }
        let (s, t) = (e.nested_types, after.nested_types);
        assert forall|j: int| 0 <= j < s.len() implies (#[trigger] s[j]).name == t[j].name by {}
        if chain.len() == 0 {
            lemma_in_order_by_names(s, t, others);
        } else {
            let p = lookup::called(chain[0]);
            lookup::lemma_first_found(s, 0, p);
            lookup::lemma_first_agrees(s, t, 0, p);
            if lookup::first_from(s, 0, p) == Some(i) {
                assert(at.drop_first() != chain.drop_first()) by {
                    if at.drop_first() == chain.drop_first() {
                        assert(at =~= seq![at[0]] + at.drop_first());
                        assert(chain =~= seq![chain[0]] + chain.drop_first());
                    }
                }
                lemma_nested_stays_in_order(
                    child,
                    at.drop_first(),
                    names,
                    chain.drop_first(),
                    others,
                );
            }
        }
    }
}

/// Putting the children of a container in order keeps the name and the namespace of
/// what it lies in.
proof fn lemma_keeps_name(e: EntityModel, at: Seq<Seq<char>>, names: Seq<Seq<char>>)
    requires
        lookup::nested_get(e, at) is Some,
    ensures
        ({
            let after = lookup::nested_put(
                e,
                at,
                arranged(lookup::nested_get(e, at)->0, names),
            );
            after.name == e.name && after.namespace == e.namespace
        }),
{
}

/// The children of what the container `c` is, if anything, stand in order.
spec fn settled(es: Seq<EntityModel>, c: ChildOrderModel) -> bool {
    match lookup::get(es, c.namespace, c.chain) {
        Some(e) => sorting::in_order(e.nested_types, order::by_name(c.names)),
        None => true,
    }
}

/// Putting the children of one container in order leaves the names at the top, and the
/// children of another container in order.
proof fn lemma_stays_settled(es: Seq<EntityModel>, c: ChildOrderModel, other: ChildOrderModel)
    requires
        !(c.namespace == other.namespace && c.chain == other.chain),
        settled(es, other),
    ensures
        settled(order::container_ordered(es, c), other),
{
    if let Some(e) = lookup::get(es, c.namespace, c.chain) {
        let q = lookup::at_top(c.namespace, c.chain[0]);
        lookup::lemma_first_found(es, 0, q);
        let i = lookup::first_from(es, 0, q)->0;
        let rest = c.chain.drop_first();
        lemma_keeps_name(es[i], rest, c.names);
        let after = order::container_ordered(es, c);
        if other.chain.len() > 0 {
            let p = lookup::at_top(other.namespace, other.chain[0]);
            lookup::lemma_first_found(es, 0, p);
            lookup::lemma_first_agrees(es, after, 0, p);
            if lookup::first_from(es, 0, p) == Some(i) {
                assert(rest != other.chain.drop_first()) by {
                    if rest == other.chain.drop_first() {
                        assert(c.chain =~= seq![c.chain[0]] + rest);
                        assert(other.chain =~= seq![other.chain[0]] + rest);
                    }
                }
                lemma_nested_stays_in_order(
                    es[i],
                    rest,
                    c.names,
                    other.chain.drop_first(),
                    other.names,
                );
            }
        }
    }
}

/// Putting the children of a container in order puts them in order.
proof fn lemma_becomes_settled(es: Seq<EntityModel>, c: ChildOrderModel)
    ensures
        settled(order::container_ordered(es, c), c),
{
    if let Some(e) = lookup::get(es, c.namespace, c.chain) {
        order::lemma_ranks(Seq::empty(), c.names);
        sorting::law_sorted_is_a_stable_sort(
            e.nested_types,
            order::by_name(c.names),
            c.names.len(),
        );
        lookup::lemma_get_is_called(es, c.namespace, c.chain);
        lookup::law_get_put(es, c.namespace, c.chain, arranged(e, c.names));
    }
}

/// After the containers from the `i`-th on, all are in order if those before were.
proof fn lemma_all_settled(es: Seq<EntityModel>, children: Seq<ChildOrderModel>, i: nat)
    requires
        distinct(children),
        i <= children.len(),
        forall|j: int| 0 <= j < i ==> settled(es, #[trigger] children[j]),
    ensures
        forall|j: int|
            0 <= j < children.len() ==> settled(
                order::children_ordered_from(es, children, i),
                #[trigger] children[j],
            ),
    decreases children.len() - i,
{
    if i < children.len() {
        let c = children[i as int];
        let next = order::container_ordered(es, c);
        lemma_becomes_settled(es, c);
        assert forall|j: int| 0 <= j < i + 1 implies settled(next, #[trigger] children[j]) by {
            if j < i {
                lemma_stays_settled(es, c, children[j]);
            }
        }
        lemma_all_settled(next, children, i + 1);
    }
}

/// Where the children of all containers are in order, putting them in order changes
/// nothing.
proof fn lemma_settled_stays(es: Seq<EntityModel>, children: Seq<ChildOrderModel>, i: nat)
    requires
        forall|j: int| 0 <= j < children.len() ==> settled(es, #[trigger] children[j]),
    ensures
        order::children_ordered_from(es, children, i) == es,
    decreases children.len() - i,
{
    if i < children.len() {
        let c = children[i as int];
        assert(settled(es, c));
        if let Some(e) = lookup::get(es, c.namespace, c.chain) {
            order::lemma_ranks(Seq::empty(), c.names);
            sorting::law_sorting_again_changes_nothing(
                e.nested_types,
                order::by_name(c.names),
                c.names.len(),
            );
            assert(arranged(e, c.names) == e);
            lookup::law_put_get(es, c.namespace, c.chain);
        }
        lemma_settled_stays(es, children, i + 1);
    }
}

/// Putting a tree that is in declaration order in declaration order changes nothing.
pub proof fn law_ordering_again_changes_nothing(es: Seq<EntityModel>, ccu: PickledCcu)
    requires
        order::declared_of(ccu) is Ok,
    ensures
        ({
            let d = order::declared_of(ccu)->Ok_0;
            order::ordered(order::ordered(es, d), d) == order::ordered(es, d)
        }),
{
    let start = Declared { top: Seq::empty(), children: Seq::empty() };
    lemma_declared_distinct(ccu, walk::steps_of(ccu).visits, 0, start);
    let d = order::declared_of(ccu)->Ok_0;
    let rank = order::by_key(d.top);
    let t = order::top_ordered(es, d.top);
    let u = order::ordered(es, d);
    order::lemma_ranks(d.top, Seq::empty());
    sorting::law_sorted_is_a_stable_sort(es, rank, d.top.len());
    lemma_children_shuffle(t, d.children, 0);
    assert forall|j: int, k: int| 0 <= j < k < u.len() implies rank(#[trigger] u[j]) <= rank(
        #[trigger] u[k],
    ) by {
        assert(rank(t[j]) <= rank(t[k]));
        lemma_same_rank(t, u, d.top, j);
        lemma_same_rank(t, u, d.top, k);
    }
    sorting::law_sorting_again_changes_nothing(u, rank, d.top.len());
    lemma_all_settled(t, d.children, 0);
    lemma_settled_stays(u, d.children, 0);
}

/// Shuffling what is nested in an entity leaves its rank.
proof fn lemma_same_rank(
    t: Seq<EntityModel>,
    u: Seq<EntityModel>,
    top: Seq<TopKeyModel>,
    j: int,
)
    requires
        shuffled_by(same_places(t.len()), t, u),
        0 <= j < t.len(),
    ensures
        order::by_key(top)(t[j]) == order::by_key(top)(u[j]),
{
    assert(shuffled(t[same_places(t.len())[j]], u[j]));
    lemma_shuffled(t[j], u[j]);
    let (a, b) = (frame::bare(t[j]), frame::bare(u[j]));
    assert(a.name == b.name && a.namespace == b.namespace);
}

} // verus!
