//! Lookup of an entity by namespace and chain of type names.
//!
//! The head of the chain names a top-level entity of the namespace; each further
//! name descends into the nested types. A lookup is described by what it finds
//! (`get`) and by the tree with something else in that place (`put`).
use crate::model::{Entity, EntityModel};
use crate::same::Same;
use vstd::prelude::*;

verus! {

/// The first position from `i` on whose element satisfies `p`.
pub open spec fn first_from<T>(s: Seq<T>, i: int, p: spec_fn(T) -> bool) -> Option<int>
    decreases s.len() - i,
{
    if i < 0 || i >= s.len() {
        None
    } else if p(s[i]) {
        Some(i)
    } else {
        first_from(s, i + 1, p)
    }
}

/// How many elements from `i` on satisfy `p`.
pub open spec fn count_from<T>(s: Seq<T>, i: int, p: spec_fn(T) -> bool) -> nat
    decreases s.len() - i,
{
    if i < 0 || i >= s.len() {
        0
    } else if p(s[i]) {
        1 + count_from(s, i + 1, p)
    } else {
        count_from(s, i + 1, p)
    }
}

/// The entity is the one called `name` in `namespace`.
pub open spec fn at_top(namespace: Seq<Seq<char>>, name: Seq<char>) -> spec_fn(
    EntityModel,
) -> bool {
    |e: EntityModel| e.namespace == namespace && e.name == name
}

/// The entity is called `name`.
pub open spec fn called(name: Seq<char>) -> spec_fn(EntityModel) -> bool {
    |e: EntityModel| e.name == name
}

/// The entity below `e` that `chain` leads to.
pub open spec fn nested_get(e: EntityModel, chain: Seq<Seq<char>>) -> Option<EntityModel>
    decreases chain.len(),
{
    if chain.len() == 0 {
        Some(e)
    } else {
        match first_from(e.nested_types, 0, called(chain[0])) {
            None => None,
            Some(i) => nested_get(e.nested_types[i], chain.drop_first()),
        }
    }
}

/// `e` with `v` in the place below it that `chain` leads to.
pub open spec fn nested_put(e: EntityModel, chain: Seq<Seq<char>>, v: EntityModel) -> EntityModel
    decreases chain.len(),
{
    if chain.len() == 0 {
        v
    } else {
        match first_from(e.nested_types, 0, called(chain[0])) {
            None => e,
            Some(i) => EntityModel {
                nested_types: e.nested_types.update(
                    i,
                    nested_put(e.nested_types[i], chain.drop_first(), v),
                ),
                ..e
            },
        }
    }
}

/// The entity that `namespace` and `chain` lead to.
pub open spec fn get(
    es: Seq<EntityModel>,
    namespace: Seq<Seq<char>>,
    chain: Seq<Seq<char>>,
) -> Option<EntityModel> {
    if chain.len() == 0 {
        None
    } else {
        match first_from(es, 0, at_top(namespace, chain[0])) {
            None => None,
            Some(i) => nested_get(es[i], chain.drop_first()),
        }
    }
}

/// The tree with `v` in the place that `namespace` and `chain` lead to.
pub open spec fn put(
    es: Seq<EntityModel>,
    namespace: Seq<Seq<char>>,
    chain: Seq<Seq<char>>,
    v: EntityModel,
) -> Seq<EntityModel> {
    if chain.len() == 0 {
        es
    } else {
        match first_from(es, 0, at_top(namespace, chain[0])) {
            None => es,
            Some(i) => es.update(i, nested_put(es[i], chain.drop_first(), v)),
        }
    }
}

/// Each name of `chain` is that of exactly one nested type on the way down from
/// `e`.
pub open spec fn nested_unique(e: EntityModel, chain: Seq<Seq<char>>) -> bool
    decreases chain.len(),
{
    chain.len() > 0 ==> count_from(e.nested_types, 0, called(chain[0])) == 1 && match first_from(
        e.nested_types,
        0,
        called(chain[0]),
    ) {
        None => false,
        Some(i) => nested_unique(e.nested_types[i], chain.drop_first()),
    }
}

/// Exactly one entity answers to each step of `namespace` and `chain`.
pub open spec fn unique(
    es: Seq<EntityModel>,
    namespace: Seq<Seq<char>>,
    chain: Seq<Seq<char>>,
) -> bool {
    chain.len() > 0 && count_from(es, 0, at_top(namespace, chain[0])) == 1 && match first_from(
        es,
        0,
        at_top(namespace, chain[0]),
    ) {
        None => false,
        Some(i) => nested_unique(es[i], chain.drop_first()),
    }
}

/// A position that satisfies `p` with none before it is the first one.
pub proof fn lemma_first_is<T>(s: Seq<T>, i: int, n: int, p: spec_fn(T) -> bool)
    requires
        0 <= i <= n <= s.len(),
        forall|j: int| i <= j < n ==> !p(#[trigger] s[j]),
        n < s.len() ==> p(s[n]),
    ensures
        first_from(s, i, p) == (if n < s.len() {
            Some(n)
        } else {
            None
        }),
    decreases n - i,
{
    if i < n {
        assert(!p(s[i]));
        lemma_first_is(s, i + 1, n, p);
    }
}

/// The first position is in range and satisfies `p`.
pub proof fn lemma_first_found<T>(s: Seq<T>, i: int, p: spec_fn(T) -> bool)
    requires
        0 <= i,
    ensures
        match first_from(s, i, p) {
            Some(n) => i <= n < s.len() && p(s[n]),
            None => forall|j: int| i <= j < s.len() ==> !p(#[trigger] s[j]),
        },
    decreases s.len() - i,
{
    if i < s.len() && !p(s[i]) {
        lemma_first_found(s, i + 1, p);
    }
}

/// Sequences that agree on `p` everywhere have the same first position.
pub proof fn lemma_first_agrees<T>(s: Seq<T>, t: Seq<T>, i: int, p: spec_fn(T) -> bool)
    requires
        0 <= i,
        s.len() == t.len(),
        forall|j: int| 0 <= j < s.len() ==> p(#[trigger] s[j]) == p(t[j]),
    ensures
        first_from(s, i, p) == first_from(t, i, p),
    decreases s.len() - i,
{
    if i < s.len() && !p(s[i]) {
        lemma_first_agrees(s, t, i + 1, p);
    }
}

/// What is put is what is got.
pub proof fn lemma_nested_get_put(e: EntityModel, chain: Seq<Seq<char>>, v: EntityModel)
    requires
        nested_get(e, chain) is Some,
        chain.len() > 0 ==> v.name == chain.last(),
    ensures
        nested_get(nested_put(e, chain, v), chain) == Some(v),
        chain.len() > 0 ==> nested_put(e, chain, v).name == e.name && nested_put(
            e,
            chain,
            v,
        ).namespace == e.namespace,
    decreases chain.len(),
{
    if chain.len() > 0 {
        lemma_first_found(e.nested_types, 0, called(chain[0]));
        let i = first_from(e.nested_types, 0, called(chain[0]))->0;
        let rest = chain.drop_first();
        let child = nested_put(e.nested_types[i], rest, v);
        lemma_nested_get_put(e.nested_types[i], rest, v);
        assert(child.name == chain[0]) by {
            if rest.len() == 0 {
                assert(chain.last() == chain[0]);
            }
        }
        let put = nested_put(e, chain, v);
        assert forall|j: int| 0 <= j < i implies !called(chain[0])(
            #[trigger] put.nested_types[j],
        ) by {
            lemma_not_before(e.nested_types, 0, called(chain[0]), j);
        }
        lemma_first_is(put.nested_types, 0, i, called(chain[0]));
        assert(put.nested_types[i] == child);
    }
}

/// No position before the first one satisfies `p`.
pub proof fn lemma_not_before<T>(s: Seq<T>, i: int, p: spec_fn(T) -> bool, j: int)
    requires
        0 <= i <= j,
        first_from(s, i, p) is Some,
        j < first_from(s, i, p)->0,
    ensures
        !p(s[j]),
    decreases j - i,
{
    if i < j {
        lemma_not_before(s, i + 1, p, j);
    }
}

/// Putting back below `e` what was found there changes nothing.
pub proof fn lemma_nested_put_get(e: EntityModel, chain: Seq<Seq<char>>)
    requires
        nested_get(e, chain) is Some,
    ensures
        nested_put(e, chain, nested_get(e, chain)->0) == e,
    decreases chain.len(),
{
    if chain.len() > 0 {
        lemma_first_found(e.nested_types, 0, called(chain[0]));
        let i = first_from(e.nested_types, 0, called(chain[0]))->0;
        lemma_nested_put_get(e.nested_types[i], chain.drop_first());
        assert(e.nested_types.update(i, e.nested_types[i]) =~= e.nested_types);
    }
}

/// Putting back what was found changes nothing.
pub proof fn law_put_get(
    es: Seq<EntityModel>,
    namespace: Seq<Seq<char>>,
    chain: Seq<Seq<char>>,
)
    requires
        get(es, namespace, chain) is Some,
    ensures
        put(es, namespace, chain, get(es, namespace, chain)->0) == es,
{
    lemma_first_found(es, 0, at_top(namespace, chain[0]));
    let i = first_from(es, 0, at_top(namespace, chain[0]))->0;
    lemma_nested_put_get(es[i], chain.drop_first());
    assert(es.update(i, es[i]) =~= es);
}

/// Replacing an entity by one of the same name and namespace is seen by the next
/// lookup of it.
pub proof fn law_get_put(
    es: Seq<EntityModel>,
    namespace: Seq<Seq<char>>,
    chain: Seq<Seq<char>>,
    v: EntityModel,
)
    requires
        get(es, namespace, chain) is Some,
        v.name == chain.last(),
        chain.len() == 1 ==> v.namespace == namespace,
    ensures
        get(put(es, namespace, chain, v), namespace, chain) == Some(v),
{
    let p = at_top(namespace, chain[0]);
    lemma_first_found(es, 0, p);
    let i = first_from(es, 0, p)->0;
    let rest = chain.drop_first();
    if rest.len() > 0 {
        assert(rest.last() == chain.last());
    }
    lemma_nested_get_put(es[i], rest, v);
    let new = put(es, namespace, chain, v);
    assert(p(new[i])) by {
        if rest.len() == 0 {
            assert(chain.last() == chain[0]);
        }
    }
    assert forall|j: int| 0 <= j < i implies !p(#[trigger] new[j]) by {
        lemma_not_before(es, 0, p, j);
    }
    lemma_first_is(new, 0, i, p);
}

/// What is found below `e` has the last name of the chain.
proof fn lemma_nested_get_is_called(e: EntityModel, chain: Seq<Seq<char>>)
    requires
        nested_get(e, chain) is Some,
        chain.len() > 0,
    ensures
        nested_get(e, chain)->0.name == chain.last(),
    decreases chain.len(),
{
    lemma_first_found(e.nested_types, 0, called(chain[0]));
    let i = first_from(e.nested_types, 0, called(chain[0]))->0;
    if chain.len() > 1 {
        lemma_nested_get_is_called(e.nested_types[i], chain.drop_first());
        assert(chain.drop_first().last() == chain.last());
    }
}

/// What is found has the last name of the chain, and lies in the namespace if the
/// chain has no other name.
pub proof fn lemma_get_is_called(
    es: Seq<EntityModel>,
    namespace: Seq<Seq<char>>,
    chain: Seq<Seq<char>>,
)
    requires
        get(es, namespace, chain) is Some,
    ensures
        get(es, namespace, chain)->0.name == chain.last(),
        chain.len() == 1 ==> get(es, namespace, chain)->0.namespace == namespace,
{
    lemma_first_found(es, 0, at_top(namespace, chain[0]));
    let i = first_from(es, 0, at_top(namespace, chain[0]))->0;
    if chain.len() > 1 {
        lemma_nested_get_is_called(es[i], chain.drop_first());
        assert(chain.drop_first().last() == chain.last());
    }
}

/// The first of `es` in `namespace` called `name`.
pub fn index_at_top(es: &Vec<Entity>, namespace: &Vec<String>, name: &String) -> (r: Option<usize>)
    ensures
        match first_from(es.deep_view(), 0, at_top(namespace.deep_view(), name@)) {
            Some(i) => r is Some && r->0 == i && i < es@.len(),
            None => r is None,
        },
{
    let ghost p = at_top(namespace.deep_view(), name@);
    let mut i: usize = 0;
    while i < es.len()
        invariant
            i <= es.len(),
            p == at_top(namespace.deep_view(), name@),
            forall|j: int| 0 <= j < i ==> !p(#[trigger] es.deep_view()[j]),
        decreases es.len() - i,
    {
        assert(es.deep_view()[i as int] == es@[i as int].deep_view());
        if es[i].name == *name && es[i].namespace.same(namespace) {
            proof {
                lemma_first_is(es.deep_view(), 0, i as int, p);
            }
            return Some(i);
        }
        i = i + 1;
    }
    proof {
        lemma_first_is(es.deep_view(), 0, i as int, p);
    }
    None
}

/// The first of `es` called `name`.
pub fn index_called(es: &Vec<Entity>, name: &String) -> (r: Option<usize>)
    ensures
        match first_from(es.deep_view(), 0, called(name@)) {
            Some(i) => r is Some && r->0 == i && i < es@.len(),
            None => r is None,
        },
{
    let ghost p = called(name@);
    let mut i: usize = 0;
    while i < es.len()
        invariant
            i <= es.len(),
            p == called(name@),
            forall|j: int| 0 <= j < i ==> !p(#[trigger] es.deep_view()[j]),
        decreases es.len() - i,
    {
        assert(es.deep_view()[i as int] == es@[i as int].deep_view());
        if es[i].name == *name {
            proof {
                lemma_first_is(es.deep_view(), 0, i as int, p);
            }
            return Some(i);
        }
        i = i + 1;
    }
    proof {
        lemma_first_is(es.deep_view(), 0, i as int, p);
    }
    None
}

/// Replacing one element replaces its model.
pub proof fn lemma_update_deep_view<T: DeepView>(v: Vec<T>, i: int)
    requires
        0 <= i < v@.len(),
    ensures
        forall|w: Vec<T>, x: T|
            #![trigger w.deep_view(), v@.update(i, x)]
            w@ == v@.update(i, x) ==> w.deep_view() == v.deep_view().update(i, x.deep_view()) && (
            x.deep_view() == v@[i].deep_view() ==> w.deep_view() == v.deep_view()),
{
    assert forall|w: Vec<T>, x: T|
        #![trigger w.deep_view(), v@.update(i, x)]
        w@ == v@.update(i, x) implies w.deep_view() == v.deep_view().update(i, x.deep_view()) && (
    x.deep_view() == v@[i].deep_view() ==> w.deep_view() == v.deep_view()) by {
        assert(w.deep_view() =~= v.deep_view().update(i, x.deep_view()));
        if x.deep_view() == v@[i].deep_view() {
            assert(w.deep_view() =~= v.deep_view());
        }
    }
}

/// Descend from `e` along `chain` from its `k`-th name on.
fn descend_mut<'a>(e: &'a mut Entity, chain: &Vec<String>, k: usize) -> (r: Option<&'a mut Entity>)
    requires
        k <= chain@.len(),
    ensures
        ({
            let rest = chain.deep_view().skip(k as int);
            match nested_get(old(e).deep_view(), rest) {
                None => r is None && final(e).deep_view() == old(e).deep_view(),
                Some(found) => r is Some && (*r->0).deep_view() == found && final(e).deep_view()
                    == nested_put(old(e).deep_view(), rest, final(r->0).deep_view()),
            }
        }),
    decreases chain@.len() - k,
{
    broadcast use crate::model::lemma_entity_model_nested;

    let ghost rest = chain.deep_view().skip(k as int);
    if k == chain.len() {
        return Some(e);
    }
    assert(rest[0] == chain@[k as int]@);
    assert(rest.drop_first() =~= chain.deep_view().skip(k + 1));
    match index_called(&e.nested_types, &chain[k]) {
        None => None,
        Some(i) => {
            proof {
                lemma_update_deep_view(e.nested_types, i as int);
            }
            descend_mut(&mut e.nested_types[i], chain, k + 1)
        },
    }
}

/// The entity that `namespace` and `type_chain` lead to.
pub fn find_entity_mut<'a>(
    entities: &'a mut Vec<Entity>,
    namespace: &Vec<String>,
    type_chain: &Vec<String>,
) -> (r: Option<&'a mut Entity>)
    ensures
        match get(old(entities).deep_view(), namespace.deep_view(), type_chain.deep_view()) {
            None => r is None && final(entities).deep_view() == old(entities).deep_view(),
            Some(found) => r is Some && (*r->0).deep_view() == found
                && final(entities).deep_view() == put(
                old(entities).deep_view(),
                namespace.deep_view(),
                type_chain.deep_view(),
                final(r->0).deep_view(),
            ),
        },
{
    if type_chain.len() == 0 {
        return None;
    }
    assert(type_chain.deep_view()[0] == type_chain@[0]@);
    assert(type_chain.deep_view().drop_first() =~= type_chain.deep_view().skip(1));
    match index_at_top(entities, namespace, &type_chain[0]) {
        None => None,
        Some(i) => descend_mut(&mut entities[i], type_chain, 1),
    }
}

/// How many of `es` lie in `namespace` and are called `name`.
fn count_at_top(es: &Vec<Entity>, namespace: &Vec<String>, name: &String) -> (r: usize)
    ensures
        r == count_from(es.deep_view(), 0, at_top(namespace.deep_view(), name@)),
{
    let ghost p = at_top(namespace.deep_view(), name@);
    let mut n: usize = 0;
    let mut i: usize = es.len();
    while i > 0
        invariant
            i <= es.len(),
            p == at_top(namespace.deep_view(), name@),
            n == count_from(es.deep_view(), i as int, p),
            n <= es.len() - i,
        decreases i,
    {
        i = i - 1;
        assert(es.deep_view()[i as int] == es@[i as int].deep_view());
        if es[i].name == *name && es[i].namespace.same(namespace) {
            n = n + 1;
        }
    }
    n
}

/// How many of `es` are called `name`.
fn count_called(es: &Vec<Entity>, name: &String) -> (r: usize)
    ensures
        r == count_from(es.deep_view(), 0, called(name@)),
{
    let ghost p = called(name@);
    let mut n: usize = 0;
    let mut i: usize = es.len();
    while i > 0
        invariant
            i <= es.len(),
            p == called(name@),
            n == count_from(es.deep_view(), i as int, p),
            n <= es.len() - i,
        decreases i,
    {
        i = i - 1;
        assert(es.deep_view()[i as int] == es@[i as int].deep_view());
        if es[i].name == *name {
            n = n + 1;
        }
    }
    n
}

/// Whether each name of `chain` from the `k`-th on is that of exactly one nested
/// type on the way down from `e`.
fn descends_uniquely(e: &Entity, chain: &Vec<String>, k: usize) -> (r: bool)
    requires
        k <= chain@.len(),
    ensures
        r == nested_unique(e.deep_view(), chain.deep_view().skip(k as int)),
    decreases chain@.len() - k,
{
    broadcast use crate::model::lemma_entity_model_nested;

    let ghost rest = chain.deep_view().skip(k as int);
    if k == chain.len() {
        return true;
    }
    assert(rest[0] == chain@[k as int]@);
    assert(rest.drop_first() =~= chain.deep_view().skip(k + 1));
    if count_called(&e.nested_types, &chain[k]) != 1 {
        return false;
    }
    match index_called(&e.nested_types, &chain[k]) {
        None => false,
        Some(i) => {
            assert(e.nested_types.deep_view()[i as int] == e.nested_types@[i as int].deep_view());
            descends_uniquely(&e.nested_types[i], chain, k + 1)
        },
    }
}

/// Whether exactly one entity answers to each step of `namespace` and
/// `type_chain`.
fn is_unique(entities: &Vec<Entity>, namespace: &Vec<String>, type_chain: &Vec<String>) -> (r: bool)
    ensures
        r == unique(entities.deep_view(), namespace.deep_view(), type_chain.deep_view()),
{
    if type_chain.len() == 0 {
        return false;
    }
    assert(type_chain.deep_view()[0] == type_chain@[0]@);
    assert(type_chain.deep_view().drop_first() =~= type_chain.deep_view().skip(1));
    if count_at_top(entities, namespace, &type_chain[0]) != 1 {
        return false;
    }
    match index_at_top(entities, namespace, &type_chain[0]) {
        None => false,
        Some(i) => {
            assert(entities.deep_view()[i as int] == entities@[i as int].deep_view());
            descends_uniquely(&entities[i], type_chain, 1)
        },
    }
}

/// A unique way down leads somewhere.
proof fn lemma_nested_unique_is_found(e: EntityModel, chain: Seq<Seq<char>>)
    requires
        nested_unique(e, chain),
    ensures
        nested_get(e, chain) is Some,
    decreases chain.len(),
{
    if chain.len() > 0 {
        let i = first_from(e.nested_types, 0, called(chain[0]))->0;
        lemma_nested_unique_is_found(e.nested_types[i], chain.drop_first());
    }
}

/// A unique path leads somewhere.
pub proof fn lemma_unique_is_found(
    es: Seq<EntityModel>,
    namespace: Seq<Seq<char>>,
    chain: Seq<Seq<char>>,
)
    requires
        unique(es, namespace, chain),
    ensures
        get(es, namespace, chain) is Some,
{
    let i = first_from(es, 0, at_top(namespace, chain[0]))->0;
    lemma_nested_unique_is_found(es[i], chain.drop_first());
}

/// The entity that `namespace` and `type_chain` lead to, unless another entity
/// answers to one of the steps too.
pub fn find_entity_unique_mut<'a>(
    entities: &'a mut Vec<Entity>,
    namespace: &Vec<String>,
    type_chain: &Vec<String>,
) -> (r: Option<&'a mut Entity>)
    ensures
        if unique(old(entities).deep_view(), namespace.deep_view(), type_chain.deep_view()) {
            get(old(entities).deep_view(), namespace.deep_view(), type_chain.deep_view()) is Some
                && r is Some && (*r->0).deep_view() == get(
                old(entities).deep_view(),
                namespace.deep_view(),
                type_chain.deep_view(),
            )->0 && final(entities).deep_view() == put(
                old(entities).deep_view(),
                namespace.deep_view(),
                type_chain.deep_view(),
                final(r->0).deep_view(),
            )
        } else {
            r is None && final(entities).deep_view() == old(entities).deep_view()
        },
{
    if is_unique(entities, namespace, type_chain) {
        proof {
            lemma_unique_is_found(
                entities.deep_view(),
                namespace.deep_view(),
                type_chain.deep_view(),
            );
        }
        find_entity_mut(entities, namespace, type_chain)
    } else {
        None
    }
}

} // verus!
