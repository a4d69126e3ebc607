//! The declaration-order overlay.
//!
//! The metadata does not keep the order in which types are declared; the pickle
//! does. Entities take the order of the pickle, at the top and below each
//! container; those that the pickle does not name come last and keep their order
//! among themselves.
use crate::error::{Fault, ImportError};
use crate::fsharp_pickle::model::{
    IsType, PickledCcu, PickledEntity, PickledExnRepr, PickledTyconRepr, TyparKind,
};
use crate::fsharp_pickle_merge::lookup;
use crate::fsharp_pickle_merge::lookup::find_entity_mut;
use crate::fsharp_pickle_merge::measure;
use crate::fsharp_pickle_merge::names;
use crate::fsharp_pickle_merge::names::clr_name;
use crate::fsharp_pickle_merge::sorting;
use crate::fsharp_pickle_merge::walk;
use crate::fsharp_pickle_merge::walk::{Visit, VisitModel};
use crate::model::{Entity, EntityModel};
use crate::same::{Duplicate, Same};
use vstd::prelude::*;

verus! {

/// The place of a top-level entity in the declaration order: its namespace and its
/// name.
pub struct TopKey {
    pub namespace: Vec<String>,
    pub name: String,
}

/// The declared children of a container, in order.
pub struct ChildOrder {
    pub namespace: Vec<String>,
    pub chain: Vec<String>,
    pub names: Vec<String>,
}

/// The model of a [`TopKey`].
pub struct TopKeyModel {
    pub namespace: Seq<Seq<char>>,
    pub name: Seq<char>,
}

/// The model of a [`ChildOrder`].
pub struct ChildOrderModel {
    pub namespace: Seq<Seq<char>>,
    pub chain: Seq<Seq<char>>,
    pub names: Seq<Seq<char>>,
}

impl DeepView for TopKey {
    type V = TopKeyModel;

    open spec fn deep_view(&self) -> TopKeyModel {
        TopKeyModel { namespace: self.namespace.deep_view(), name: self.name@ }
    }
}

impl DeepView for ChildOrder {
    type V = ChildOrderModel;

    open spec fn deep_view(&self) -> ChildOrderModel {
        ChildOrderModel {
            namespace: self.namespace.deep_view(),
            chain: self.chain.deep_view(),
            names: self.names.deep_view(),
        }
    }
}

/// The declaration order of a pickle: the top-level keys without repetition, and
/// the children of each container.
pub struct Declared {
    pub top: Seq<TopKeyModel>,
    pub children: Seq<ChildOrderModel>,
}

/// The key is that of `name` in `namespace`.
pub open spec fn is_top_key(namespace: Seq<Seq<char>>, name: Seq<char>) -> spec_fn(
    TopKeyModel,
) -> bool {
    |k: TopKeyModel| k.namespace == namespace && k.name == name
}

/// The container is the one at `namespace`, `chain`.
pub open spec fn is_container(namespace: Seq<Seq<char>>, chain: Seq<Seq<char>>) -> spec_fn(
    ChildOrderModel,
) -> bool {
    |c: ChildOrderModel| c.namespace == namespace && c.chain == chain
}

/// The order with `name` declared in `namespace` at the top.
pub open spec fn with_top(d: Declared, namespace: Seq<Seq<char>>, name: Seq<char>) -> Declared {
    match lookup::first_from(d.top, 0, is_top_key(namespace, name)) {
        Some(_) => d,
        None => Declared { top: d.top.push(TopKeyModel { namespace, name }), ..d },
    }
}

/// The order with `name` declared in the container at `namespace`, `chain`.
pub open spec fn with_child(
    d: Declared,
    namespace: Seq<Seq<char>>,
    chain: Seq<Seq<char>>,
    name: Seq<char>,
) -> Declared {
    match lookup::first_from(d.children, 0, is_container(namespace, chain)) {
        Some(i) => Declared {
            children: d.children.update(
                i,
                ChildOrderModel { names: d.children[i].names.push(name), ..d.children[i] },
            ),
            ..d
        },
        None => Declared {
            children: d.children.push(ChildOrderModel { namespace, chain, names: seq![name] }),
            ..d
        },
    }
}

/// The entity has a row of its own, or will have a marker: it is a module, a type, a
/// measure with a type definition, an abbreviation or an exception. What is left are
/// the namespaces.
pub open spec fn has_row(e: PickledEntity) -> bool {
    ||| names::is_module_or_type(e)
    ||| measure::is_measure_leaf(e)
    ||| e.type_abbrev is Some
    ||| !(e.exn_repr is NotException)
}

/// Whether the entity has a row of its own, or will have a marker.
fn takes_row(e: &PickledEntity) -> (r: bool)
    ensures
        r == has_row(*e),
{
    let is_module_or_type: bool = match e.module_type.is_type {
        IsType::ModuleOrType | IsType::FSharpModuleWithSuffix => true,
        IsType::Namespace => false,
    };
    let has_type_def: bool = match &e.repr {
        PickledTyconRepr::FSharpObjectModel(_) => true,
        _ => false,
    };
    let is_exception: bool = match &e.exn_repr {
        PickledExnRepr::NotException => false,
        _ => true,
    };
    is_module_or_type || (e.typar_kind == TyparKind::Measure && has_type_def)
        || e.type_abbrev.is_some() || is_exception
}

/// The order with the children `stamps` from the `i`-th on of the entity at
/// `namespace`, `chain`, or the failure of the first that does not exist.
pub open spec fn with_children_from(
    ccu: PickledCcu,
    d: Declared,
    namespace: Seq<Seq<char>>,
    chain: Seq<Seq<char>>,
    stamps: Seq<u32>,
    i: nat,
) -> Result<Declared, Fault>
    decreases stamps.len() - i,
{
    if i >= stamps.len() {
        Ok(d)
    } else if stamps[i as int] >= ccu.tables.tycons@.len() {
        Err(
            Fault::OsgnIndexOutOfRange {
                kind: "tycon (declaration order)",
                index: stamps[i as int],
                max: ccu.tables.tycons@.len() as usize,
            },
        )
    } else {
        let child = walk::tycon(ccu, stamps[i as int]);
        let name = names::clr_name_of(child);
        with_children_from(
            ccu,
            if !has_row(child) {
                d
            } else if chain.len() == 0 {
                with_top(d, namespace, name)
            } else {
                with_child(d, namespace, chain, name)
            },
            namespace,
            chain,
            stamps,
            i + 1,
        )
    }
}

/// The order with the children of the visits from the `i`-th on, or the first
/// failure.
pub open spec fn declared_from(
    ccu: PickledCcu,
    visits: Seq<VisitModel>,
    i: nat,
    d: Declared,
) -> Result<Declared, Fault>
    decreases visits.len() - i,
{
    if i >= visits.len() {
        Ok(d)
    } else {
        let v = visits[i as int];
        let e = walk::tycon(ccu, v.stamp);
        match with_children_from(
            ccu,
            d,
            walk::child_namespace(e, v.is_root, v.namespace),
            walk::child_chain(e, v.is_root, v.type_chain),
            e.module_type.entities@,
            0,
        ) {
            Err(e) => Err(e),
            Ok(d) => declared_from(ccu, visits, i + 1, d),
        }
    }
}

/// The declaration order of a pickle. A failure of an entity that is visited comes
/// before a failure of the walk.
pub open spec fn declared_of(ccu: PickledCcu) -> Result<Declared, Fault> {
    let steps = walk::steps_of(ccu);
    match declared_from(
        ccu,
        steps.visits,
        0,
        Declared { top: Seq::empty(), children: Seq::empty() },
    ) {
        Err(e) => Err(e),
        Ok(d) => match steps.end {
            Some(e) => Err(e),
            None => Ok(d),
        },
    }
}

/// The rank of a top-level entity: the place of its key, or the number of keys.
pub open spec fn top_rank(top: Seq<TopKeyModel>, e: EntityModel) -> nat {
    match lookup::first_from(top, 0, is_top_key(e.namespace, e.name)) {
        Some(i) => i as nat,
        None => top.len(),
    }
}

/// The rank of a nested entity: the place of its name, or the number of names.
pub open spec fn nested_rank(names: Seq<Seq<char>>, e: EntityModel) -> nat {
    match lookup::first_from(names, 0, |n: Seq<char>| n == e.name) {
        Some(i) => i as nat,
        None => names.len(),
    }
}

/// The top-level entities in declaration order.
pub open spec fn top_ordered(es: Seq<EntityModel>, top: Seq<TopKeyModel>) -> Seq<EntityModel> {
    sorting::sorted(es, by_key(top), top.len())
}

/// The nested entities in declaration order.
pub open spec fn nested_ordered(es: Seq<EntityModel>, names: Seq<Seq<char>>) -> Seq<EntityModel> {
    sorting::sorted(es, by_name(names), names.len())
}

/// The tree with the children of the container in declaration order.
pub open spec fn container_ordered(es: Seq<EntityModel>, c: ChildOrderModel) -> Seq<EntityModel> {
    match lookup::get(es, c.namespace, c.chain) {
        None => es,
        Some(e) => lookup::put(
            es,
            c.namespace,
            c.chain,
            EntityModel { nested_types: nested_ordered(e.nested_types, c.names), ..e },
        ),
    }
}

/// The tree with the children of the containers from the `i`-th on in declaration
/// order.
pub open spec fn children_ordered_from(
    es: Seq<EntityModel>,
    children: Seq<ChildOrderModel>,
    i: nat,
) -> Seq<EntityModel>
    decreases children.len() - i,
{
    if i >= children.len() {
        es
    } else {
        children_ordered_from(container_ordered(es, children[i as int]), children, i + 1)
    }
}

/// The tree in declaration order.
pub open spec fn ordered(es: Seq<EntityModel>, d: Declared) -> Seq<EntityModel> {
    children_ordered_from(top_ordered(es, d.top), d.children, 0)
}

/// The rank of a top-level entity by the keys `top`.
pub open spec fn by_key(top: Seq<TopKeyModel>) -> spec_fn(EntityModel) -> nat {
    |e: EntityModel| top_rank(top, e)
}

/// The rank of a nested entity by the names `names`.
pub open spec fn by_name(names: Seq<Seq<char>>) -> spec_fn(EntityModel) -> nat {
    |e: EntityModel| nested_rank(names, e)
}

/// The ranks are no higher than the number of keys, and of names.
pub proof fn lemma_ranks(top: Seq<TopKeyModel>, names: Seq<Seq<char>>)
    ensures
        forall|e: EntityModel| #[trigger] by_key(top)(e) <= top.len(),
        forall|e: EntityModel| #[trigger] by_name(names)(e) <= names.len(),
{
    assert forall|e: EntityModel| #[trigger] by_key(top)(e) <= top.len() by {
        lookup::lemma_first_found(top, 0, is_top_key(e.namespace, e.name));
    }
    assert forall|e: EntityModel| #[trigger] by_name(names)(e) <= names.len() by {
        lookup::lemma_first_found(names, 0, |n: Seq<char>| n == e.name);
    }
}

/// The declaration order is a stable sort of each level: no entity is lost, doubled
/// or changed, those that the pickle declares stand in its order, and the others
/// stand behind them in the order that they had.
pub proof fn law_each_level_is_sorted_by_declaration(
    es: Seq<EntityModel>,
    top: Seq<TopKeyModel>,
    names: Seq<Seq<char>>,
)
    ensures
        sorting::stably_sorted(top_ordered(es, top), es, by_key(top)),
        sorting::stably_sorted(nested_ordered(es, names), es, by_name(names)),
{
    lemma_ranks(top, names);
    sorting::law_sorted_is_a_stable_sort(es, by_key(top), top.len());
    sorting::law_sorted_is_a_stable_sort(es, by_name(names), names.len());
}

/// The indices as numbers.
spec fn ints(s: Seq<usize>) -> Seq<int> {
    s.map_values(|x: usize| x as int)
}

/// The ranks as numbers.
spec fn nats(s: Seq<usize>) -> Seq<nat> {
    s.map_values(|x: usize| x as nat)
}

/// Append the indices of rank `r`.
fn push_rank(order: &mut Vec<usize>, ranks: &Vec<usize>, r: usize)
    requires
        forall|j: int| 0 <= j < old(order)@.len() ==> (#[trigger] old(order)@[j]) < ranks@.len(),
    ensures
        ints(final(order)@) == ints(old(order)@) + sorting::of_rank(nats(ranks@), r as nat, 0),
        forall|j: int| 0 <= j < final(order)@.len() ==> (#[trigger] final(order)@[j])
            < ranks@.len(),
{
    let ghost row = sorting::of_rank(nats(ranks@), r as nat, 0);
    let mut i: usize = 0;
    while i < ranks.len()
        invariant
            i <= ranks.len(),
            ints(old(order)@) + row == ints(order@) + sorting::of_rank(
                nats(ranks@),
                r as nat,
                i as nat,
            ),
            forall|j: int| 0 <= j < order@.len() ==> (#[trigger] order@[j]) < ranks@.len(),
        decreases ranks.len() - i,
    {
        if ranks[i] == r {
            let ghost before = ints(order@);
            let ghost tail = sorting::of_rank(nats(ranks@), r as nat, (i + 1) as nat);
            order.push(i);
            assert(ints(order@) =~= before.push(i as int));
            assert(before + (seq![i as int] + tail) =~= before.push(i as int) + tail);
        }
        i = i + 1;
    }
    assert(ints(order@) + Seq::<int>::empty() =~= ints(order@));
}

/// The indices sorted by rank, those of one rank in order. No rank is above `n`.
fn sort_by_rank(ranks: &Vec<usize>, n: usize) -> (r: Vec<usize>)
    ensures
        ints(r@) == sorting::by_rank(nats(ranks@), 0, n as nat),
        forall|j: int| 0 <= j < r@.len() ==> (#[trigger] r@[j]) < ranks@.len(),
{
    let mut order: Vec<usize> = Vec::new();
    let mut r: usize = 0;
    let ghost all = sorting::by_rank(nats(ranks@), 0, n as nat);
    assert(ints(order@) + all =~= all);
    while r < n
        invariant
            r <= n,
            all == ints(order@) + sorting::by_rank(nats(ranks@), r as nat, n as nat),
            forall|j: int| 0 <= j < order@.len() ==> (#[trigger] order@[j]) < ranks@.len(),
        decreases n - r,
    {
        let ghost before = ints(order@);
        let ghost row = sorting::of_rank(nats(ranks@), r as nat, 0);
        let ghost rest = sorting::by_rank(nats(ranks@), (r + 1) as nat, n as nat);
        push_rank(&mut order, ranks, r);
        assert(before + (row + rest) =~= (before + row) + rest);
        r = r + 1;
    }
    proof {
        let row = sorting::of_rank(nats(ranks@), n as nat, 0);
        assert(sorting::by_rank(nats(ranks@), (n + 1) as nat, n as nat) =~= Seq::<int>::empty());
        assert(row + Seq::<int>::empty() =~= row);
    }
    push_rank(&mut order, ranks, n);
    order
}

/// Put the items in the order of `order`: the item at each place is the one that
/// was at the index that `order` holds there.
fn apply_permutation(items: &mut Vec<Entity>, order: &Vec<usize>)
    requires
        forall|j: int| 0 <= j < order@.len() ==> (#[trigger] order@[j]) < old(items)@.len(),
    ensures
        final(items).deep_view() == sorting::permuted(old(items).deep_view(), ints(order@)),
{
    let mut scratch: Vec<Entity> = Vec::new();
    let mut i: usize = 0;
    while i < order.len()
        invariant
            i <= order.len(),
            scratch.len() == i,
            items@ == old(items)@,
            forall|j: int| 0 <= j < order@.len() ==> (#[trigger] order@[j]) < items@.len(),
            forall|j: int|
                0 <= j < i ==> (#[trigger] scratch@[j]).deep_view()
                    == items@[order@[j] as int].deep_view(),
        decreases order.len() - i,
    {
        assert(order@[i as int] < items@.len());
        scratch.push(items[order[i]].dup());
        i = i + 1;
    }
    assert(scratch.deep_view() =~= sorting::permuted(items.deep_view(), ints(order@)));
    *items = scratch;
}

/// The place of a key in the declaration order, or the number of keys.
fn rank_at_top(top: &Vec<TopKey>, e: &Entity) -> (r: usize)
    ensures
        r == top_rank(top.deep_view(), e.deep_view()),
{
    let ghost p = is_top_key(e.deep_view().namespace, e.deep_view().name);
    let mut i: usize = 0;
    while i < top.len()
        invariant
            i <= top.len(),
            p == is_top_key(e.deep_view().namespace, e.deep_view().name),
            forall|j: int| 0 <= j < i ==> !p(#[trigger] top.deep_view()[j]),
        decreases top.len() - i,
    {
        assert(top.deep_view()[i as int] == top@[i as int].deep_view());
        if top[i].name == e.name && top[i].namespace.same(&e.namespace) {
            proof {
                lookup::lemma_first_is(top.deep_view(), 0, i as int, p);
            }
            return i;
        }
        i = i + 1;
    }
    proof {
        lookup::lemma_first_is(top.deep_view(), 0, i as int, p);
    }
    i
}

/// The place of a name in the declaration order, or the number of names.
fn rank_nested(names: &Vec<String>, e: &Entity) -> (r: usize)
    ensures
        r == nested_rank(names.deep_view(), e.deep_view()),
{
    let ghost model = e.deep_view();
    let ghost p = |n: Seq<char>| n == model.name;
    let mut i: usize = 0;
    while i < names.len()
        invariant
            i <= names.len(),
            model == e.deep_view(),
            p == (|n: Seq<char>| n == model.name),
            forall|j: int| 0 <= j < i ==> !p(#[trigger] names.deep_view()[j]),
        decreases names.len() - i,
    {
        assert(names.deep_view()[i as int] == names@[i as int]@);
        if names[i] == e.name {
            proof {
                lookup::lemma_first_is(names.deep_view(), 0, i as int, p);
            }
            return i;
        }
        i = i + 1;
    }
    proof {
        lookup::lemma_first_is(names.deep_view(), 0, i as int, p);
    }
    i
}

/// Put the top-level entities in declaration order.
fn order_top(entities: &mut Vec<Entity>, top: &Vec<TopKey>)
    ensures
        final(entities).deep_view() == top_ordered(old(entities).deep_view(), top.deep_view()),
{
    let mut ranks: Vec<usize> = Vec::new();
    let mut i: usize = 0;
    while i < entities.len()
        invariant
            i <= entities.len(),
            ranks.len() == i,
            forall|j: int|
                0 <= j < i ==> (#[trigger] ranks@[j]) == top_rank(
                    top.deep_view(),
                    entities@[j].deep_view(),
                ),
        decreases entities.len() - i,
    {
        ranks.push(rank_at_top(top, &entities[i]));
        i = i + 1;
    }
    assert(nats(ranks@) =~= entities.deep_view().map_values(by_key(top.deep_view())));
    let order = sort_by_rank(&ranks, top.len());
    apply_permutation(entities, &order);
}

/// Put nested entities in declaration order.
fn order_nested(entities: &mut Vec<Entity>, names: &Vec<String>)
    ensures
        final(entities).deep_view() == nested_ordered(old(entities).deep_view(), names.deep_view()),
{
    let mut ranks: Vec<usize> = Vec::new();
    let mut i: usize = 0;
    while i < entities.len()
        invariant
            i <= entities.len(),
            ranks.len() == i,
            forall|j: int|
                0 <= j < i ==> (#[trigger] ranks@[j]) == nested_rank(
                    names.deep_view(),
                    entities@[j].deep_view(),
                ),
        decreases entities.len() - i,
    {
        ranks.push(rank_nested(names, &entities[i]));
        i = i + 1;
    }
    assert(nats(ranks@) =~= entities.deep_view().map_values(by_name(names.deep_view())));
    let order = sort_by_rank(&ranks, names.len());
    apply_permutation(entities, &order);
}

/// The declaration order while it is collected.
struct DeclaredOrder {
    top: Vec<TopKey>,
    children: Vec<ChildOrder>,
}

impl DeepView for DeclaredOrder {
    type V = Declared;

    closed spec fn deep_view(&self) -> Declared {
        Declared { top: self.top.deep_view(), children: self.children.deep_view() }
    }
}

/// Declare a top-level entity, unless its key is declared already.
fn declare_top(d: &mut DeclaredOrder, namespace: &Vec<String>, name: String)
    ensures
        final(d).deep_view() == with_top(old(d).deep_view(), namespace.deep_view(), name@),
{
    let ghost p = is_top_key(namespace.deep_view(), name@);
    let ghost before = d.top.deep_view();
    let mut i: usize = 0;
    while i < d.top.len()
        invariant
            i <= d.top.len(),
            p == is_top_key(namespace.deep_view(), name@),
            before == d.top.deep_view(),
            *d == *old(d),
            forall|j: int| 0 <= j < i ==> !p(#[trigger] before[j]),
        decreases d.top.len() - i,
    {
        assert(before[i as int] == d.top@[i as int].deep_view());
        if d.top[i].name == name && d.top[i].namespace.same(namespace) {
            proof {
                lookup::lemma_first_is(before, 0, i as int, p);
            }
            return;
        }
        i = i + 1;
    }
    proof {
        lookup::lemma_first_is(before, 0, i as int, p);
    }
    let ghost key = TopKeyModel { namespace: namespace.deep_view(), name: name@ };
    d.top.push(TopKey { namespace: namespace.dup(), name });
    assert(d.top.deep_view() =~= before.push(key));
}

/// Declare a nested entity as the next child of its container.
fn declare_child(d: &mut DeclaredOrder, namespace: &Vec<String>, chain: &Vec<String>, name: String)
    ensures
        final(d).deep_view() == with_child(
            old(d).deep_view(),
            namespace.deep_view(),
            chain.deep_view(),
            name@,
        ),
{
    let ghost p = is_container(namespace.deep_view(), chain.deep_view());
    let ghost before = d.children.deep_view();
    let mut i: usize = 0;
    while i < d.children.len()
        invariant
            i <= d.children.len(),
            p == is_container(namespace.deep_view(), chain.deep_view()),
            before == d.children.deep_view(),
            *d == *old(d),
            forall|j: int| 0 <= j < i ==> !p(#[trigger] before[j]),
        decreases d.children.len() - i,
    {
        assert(before[i as int] == d.children@[i as int].deep_view());
        if d.children[i].chain.same(chain) && d.children[i].namespace.same(namespace) {
            let ghost child = name@;
            proof {
                lookup::lemma_first_is(before, 0, i as int, p);
                lookup::lemma_update_deep_view(d.children, i as int);
            }
            let ghost names = d.children@[i as int].names.deep_view();
            d.children[i].names.push(name);
            assert(d.children@[i as int].names.deep_view() =~= names.push(child));
            return;
        }
        i = i + 1;
    }
    proof {
        lookup::lemma_first_is(before, 0, i as int, p);
    }
    let ghost child = name@;
    let mut names: Vec<String> = Vec::new();
    names.push(name);
    assert(names.deep_view() =~= seq![child]);
    let entry = ChildOrder { namespace: namespace.dup(), chain: chain.dup(), names };
    d.children.push(entry);
    assert(d.children.deep_view() =~= before.push(entry.deep_view()));
}

/// Declare the children of the entity at `namespace`, `chain`.
fn declare_children(
    pickled: &PickledCcu,
    d: &mut DeclaredOrder,
    namespace: &Vec<String>,
    chain: &Vec<String>,
    stamps: &Vec<u32>,
) -> (r: Result<(), ImportError>)
    ensures
        match with_children_from(
            *pickled,
            old(d).deep_view(),
            namespace.deep_view(),
            chain.deep_view(),
            stamps@,
            0,
        ) {
            Ok(order) => r is Ok && final(d).deep_view() == order,
            Err(e) => r is Err && r->Err_0.deep_view() == e,
        },
{
    assert(chain.deep_view().len() == chain@.len());
    let mut i: usize = 0;
    while i < stamps.len()
        invariant
            i <= stamps.len(),
            chain.deep_view().len() == chain@.len(),
            with_children_from(
                *pickled,
                old(d).deep_view(),
                namespace.deep_view(),
                chain.deep_view(),
                stamps@,
                0,
            ) == with_children_from(
                *pickled,
                d.deep_view(),
                namespace.deep_view(),
                chain.deep_view(),
                stamps@,
                i as nat,
            ),
        decreases stamps.len() - i,
    {
        let stamp: u32 = stamps[i];
        if stamp as usize >= pickled.tables.tycons.len() {
            return Err(
                ImportError::OsgnIndexOutOfRange {
                    kind: "tycon (declaration order)",
                    index: stamp,
                    max: pickled.tables.tycons.len(),
                },
            );
        }
        let child = &pickled.tables.tycons[stamp as usize];
        if takes_row(child) {
            let name = clr_name(child);
            if chain.len() == 0 {
                declare_top(d, namespace, name);
            } else {
                declare_child(d, namespace, chain, name);
            }
        }
        i = i + 1;
    }
    Ok(())
}

/// The declaration order of the visited entities.
fn collect_declared(pickled: &PickledCcu, visits: &Vec<Visit>) -> (r: Result<
    DeclaredOrder,
    ImportError,
>)
    requires
        walk::in_table(*pickled, visits.deep_view()),
    ensures
        match declared_from(
            *pickled,
            visits.deep_view(),
            0,
            Declared { top: Seq::empty(), children: Seq::empty() },
        ) {
            Ok(order) => r is Ok && r->Ok_0.deep_view() == order,
            Err(e) => r is Err && r->Err_0.deep_view() == e,
        },
{
    let mut d = DeclaredOrder { top: Vec::new(), children: Vec::new() };
    assert(d.top.deep_view() =~= Seq::empty());
    assert(d.children.deep_view() =~= Seq::empty());
    let ghost start = d.deep_view();
    let mut i: usize = 0;
    while i < visits.len()
        invariant
            i <= visits.len(),
            walk::in_table(*pickled, visits.deep_view()),
            start == (Declared { top: Seq::empty(), children: Seq::empty() }),
            declared_from(*pickled, visits.deep_view(), 0, start) == declared_from(
                *pickled,
                visits.deep_view(),
                i as nat,
                d.deep_view(),
            ),
        decreases visits.len() - i,
    {
        let visit = &visits[i];
        assert(visits.deep_view()[i as int] == visit.deep_view());
        let entity = &pickled.tables.tycons[visit.stamp as usize];
        let mut own_namespace: Vec<String> = visit.namespace.dup();
        let mut own_chain: Vec<String> = visit.type_chain.dup();
        if !visit.is_root {
            match entity.module_type.is_type {
                IsType::Namespace => {
                    let ghost before = own_namespace.deep_view();
                    own_namespace.push(entity.logical_name.clone());
                    assert(own_namespace.deep_view() =~= before.push(entity.logical_name@));
                },
                IsType::ModuleOrType | IsType::FSharpModuleWithSuffix => {
                    let ghost before = own_chain.deep_view();
                    own_chain.push(clr_name(entity));
                    assert(own_chain.deep_view() =~= before.push(names::clr_name_of(*entity)));
                },
            }
        }
        declare_children(
            pickled,
            &mut d,
            &own_namespace,
            &own_chain,
            &entity.module_type.entities,
        )?;
        i = i + 1;
    }
    Ok(d)
}

/// Put the entity tree in the declaration order of the pickle.
pub fn apply_declaration_order(entities: &mut Vec<Entity>, pickled: &PickledCcu) -> (r: Result<
    (),
    ImportError,
>)
    ensures
        match declared_of(*pickled) {
            Ok(d) => r is Ok && final(entities).deep_view() == ordered(
                old(entities).deep_view(),
                d,
            ),
            Err(e) => r is Err && r->Err_0.deep_view() == e
                && final(entities).deep_view() == old(entities).deep_view(),
        },
{
    broadcast use crate::model::lemma_entity_model_nested;

    let (visits, end) = walk::walk(pickled);
    let d = collect_declared(pickled, &visits)?;
    end?;
    order_top(entities, &d.top);
    let ghost middle = entities.deep_view();
    let mut i: usize = 0;
    while i < d.children.len()
        invariant
            i <= d.children.len(),
            children_ordered_from(middle, d.children.deep_view(), 0) == children_ordered_from(
                entities.deep_view(),
                d.children.deep_view(),
                i as nat,
            ),
        decreases d.children.len() - i,
    {
        broadcast use crate::model::lemma_entity_model_nested;

        let c = &d.children[i];
        assert(d.children.deep_view()[i as int] == c.deep_view());
        match find_entity_mut(entities, &c.namespace, &c.chain) {
            None => {},
            Some(container) => {
                order_nested(&mut container.nested_types, &c.names);
            },
        }
        i = i + 1;
    }
    Ok(())
}

} // verus!
