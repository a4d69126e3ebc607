//! How an overlay changes each entity.
//!
//! An overlay that puts entities in the place of others, with the same names, leaves
//! the tree its shape. Whether each entity, at its place, changed in a permitted way
//! is said by a relation between the entity before and after, both without what is
//! nested in them.
use crate::fsharp_pickle_merge::frame;
use crate::fsharp_pickle_merge::lookup;
use crate::model::EntityModel;
use vstd::prelude::*;

verus! {

/// A permitted change of the entity that a namespace and a chain of names lead to.
pub type Step = spec_fn(Seq<Seq<char>>, Seq<Seq<char>>, EntityModel, EntityModel) -> bool;

/// To change nothing is permitted, two permitted changes make one, and none changes
/// a name.
#[verifier::opaque]
pub open spec fn is_step(p: Step) -> bool {
    &&& forall|n: Seq<Seq<char>>, c: Seq<Seq<char>>, x: EntityModel| #[trigger] p(n, c, x, x)
    &&& forall|n: Seq<Seq<char>>, c: Seq<Seq<char>>, x: EntityModel, y: EntityModel|
        #[trigger] p(n, c, x, y) ==> x.name == y.name && x.namespace == y.namespace
    &&& forall|
        n: Seq<Seq<char>>,
        c: Seq<Seq<char>>,
        x: EntityModel,
        y: EntityModel,
        z: EntityModel,
    |
        #[trigger] p(n, c, x, y) && #[trigger] p(n, c, y, z) ==> p(n, c, x, z)
}

/// `b` has the shape of `a`, which lies at `namespace` and `chain`, and each entity in
/// it changed in a permitted way.
#[verifier::opaque]
pub open spec fn stepped(
    a: EntityModel,
    b: EntityModel,
    namespace: Seq<Seq<char>>,
    chain: Seq<Seq<char>>,
    p: Step,
) -> bool
    decreases a,
{
    &&& p(namespace, chain, frame::bare(a), frame::bare(b))
    &&& a.nested_types.len() == b.nested_types.len()
    &&& forall|i: int|
        0 <= i < a.nested_types.len() ==> stepped(
            #[trigger] a.nested_types[i],
            b.nested_types[i],
            namespace,
            chain.push(a.nested_types[i].name),
            p,
        )
}

/// The tree `t` has the shape of `s`, and each entity in it changed in a permitted
/// way.
pub open spec fn stepped_all(s: Seq<EntityModel>, t: Seq<EntityModel>, p: Step) -> bool {
    &&& s.len() == t.len()
    &&& forall|i: int|
        0 <= i < s.len() ==> stepped(
            #[trigger] s[i],
            t[i],
            s[i].namespace,
            seq![s[i].name],
            p,
        )
}

/// An entity changes in a permitted way when it does by itself and its nested types
/// do.
pub proof fn lemma_stepped(
    a: EntityModel,
    b: EntityModel,
    namespace: Seq<Seq<char>>,
    chain: Seq<Seq<char>>,
    p: Step,
)
    ensures
        stepped(a, b, namespace, chain, p) <==> {
            &&& p(namespace, chain, frame::bare(a), frame::bare(b))
            &&& a.nested_types.len() == b.nested_types.len()
            &&& forall|i: int|
                0 <= i < a.nested_types.len() ==> stepped(
                    #[trigger] a.nested_types[i],
                    b.nested_types[i],
                    namespace,
                    chain.push(a.nested_types[i].name),
                    p,
                )
        },
{
    reveal(stepped);
}

/// A change keeps the name and the namespace.
pub proof fn lemma_keeps_name(
    a: EntityModel,
    b: EntityModel,
    namespace: Seq<Seq<char>>,
    chain: Seq<Seq<char>>,
    p: Step,
)
    requires
        is_step(p),
        stepped(a, b, namespace, chain, p),
    ensures
        a.name == b.name,
        a.namespace == b.namespace,
{
    reveal(is_step);
    lemma_stepped(a, b, namespace, chain, p);
    assert(frame::bare(a).name == frame::bare(b).name);
    assert(frame::bare(a).namespace == frame::bare(b).namespace);
}

/// What stays as it is changed in a permitted way.
pub proof fn lemma_stepped_refl(
    e: EntityModel,
    namespace: Seq<Seq<char>>,
    chain: Seq<Seq<char>>,
    p: Step,
)
    requires
        is_step(p),
    ensures
        stepped(e, e, namespace, chain, p),
    decreases e,
{
    lemma_stepped(e, e, namespace, chain, p);
    assert(p(namespace, chain, frame::bare(e), frame::bare(e))) by {
        reveal(is_step);
    }
    assert forall|i: int| 0 <= i < e.nested_types.len() implies stepped(
        #[trigger] e.nested_types[i],
        e.nested_types[i],
        namespace,
        chain.push(e.nested_types[i].name),
        p,
    ) by {
        lemma_stepped_refl(
            e.nested_types[i],
            namespace,
            chain.push(e.nested_types[i].name),
            p,
        );
    }
}

/// A tree that stays as it is changed in a permitted way.
pub proof fn lemma_stepped_all_refl(s: Seq<EntityModel>, p: Step)
    requires
        is_step(p),
    ensures
        stepped_all(s, s, p),
{
    assert forall|i: int| 0 <= i < s.len() implies stepped(
        #[trigger] s[i],
        s[i],
        s[i].namespace,
        seq![s[i].name],
        p,
    ) by {
        lemma_stepped_refl(s[i], s[i].namespace, seq![s[i].name], p);
    }
}

/// Two permitted changes of an entity make one.
proof fn lemma_stepped_trans(
    a: EntityModel,
    b: EntityModel,
    c: EntityModel,
    namespace: Seq<Seq<char>>,
    chain: Seq<Seq<char>>,
    p: Step,
)
    requires
        is_step(p),
        stepped(a, b, namespace, chain, p),
        stepped(b, c, namespace, chain, p),
    ensures
        stepped(a, c, namespace, chain, p),
    decreases a,
{
    lemma_stepped(a, b, namespace, chain, p);
    lemma_stepped(b, c, namespace, chain, p);
    lemma_stepped(a, c, namespace, chain, p);
    assert(p(namespace, chain, frame::bare(a), frame::bare(c))) by {
        reveal(is_step);
    }
    let (s, t, u) = (a.nested_types, b.nested_types, c.nested_types);
    assert forall|i: int| 0 <= i < s.len() implies stepped(
        #[trigger] s[i],
        u[i],
        namespace,
        chain.push(s[i].name),
        p,
    ) by {
        lemma_keeps_name(s[i], t[i], namespace, chain.push(s[i].name), p);
        assert(stepped(t[i], u[i], namespace, chain.push(t[i].name), p));
        lemma_stepped_trans(s[i], t[i], u[i], namespace, chain.push(s[i].name), p);
    }
}

/// Two permitted changes of a tree make one.
pub proof fn lemma_stepped_all_trans(
    s: Seq<EntityModel>,
    t: Seq<EntityModel>,
    u: Seq<EntityModel>,
    p: Step,
)
    requires
        is_step(p),
        stepped_all(s, t, p),
        stepped_all(t, u, p),
    ensures
        stepped_all(s, u, p),
{
    assert forall|i: int| 0 <= i < s.len() implies stepped(
        #[trigger] s[i],
        u[i],
        s[i].namespace,
        seq![s[i].name],
        p,
    ) by {
        let (n, c) = (s[i].namespace, seq![s[i].name]);
        lemma_keeps_name(s[i], t[i], n, c, p);
        assert(stepped(t[i], u[i], t[i].namespace, seq![t[i].name], p));
        lemma_stepped_trans(s[i], t[i], u[i], n, c, p);
    }
}

/// A permitted change of an entity by itself is one.
pub proof fn lemma_alone(
    a: EntityModel,
    b: EntityModel,
    namespace: Seq<Seq<char>>,
    chain: Seq<Seq<char>>,
    p: Step,
)
    requires
        is_step(p),
        p(namespace, chain, frame::bare(a), frame::bare(b)),
        a.nested_types == b.nested_types,
    ensures
        stepped(a, b, namespace, chain, p),
{
    lemma_stepped_refl(a, namespace, chain, p);
    lemma_stepped(a, a, namespace, chain, p);
    lemma_stepped(a, b, namespace, chain, p);
}

/// A permitted change of one nested type is one of the entity.
pub proof fn lemma_nested_update(
    a: EntityModel,
    i: int,
    v: EntityModel,
    namespace: Seq<Seq<char>>,
    chain: Seq<Seq<char>>,
    p: Step,
)
    requires
        is_step(p),
        0 <= i < a.nested_types.len(),
        stepped(a.nested_types[i], v, namespace, chain.push(a.nested_types[i].name), p),
    ensures
        stepped(
            a,
            EntityModel { nested_types: a.nested_types.update(i, v), ..a },
            namespace,
            chain,
            p,
        ),
{
    let b = EntityModel { nested_types: a.nested_types.update(i, v), ..a };
    assert(frame::bare(a) == frame::bare(b));
    lemma_stepped_refl(a, namespace, chain, p);
    lemma_stepped(a, a, namespace, chain, p);
    lemma_stepped(a, b, namespace, chain, p);
    assert forall|j: int| 0 <= j < a.nested_types.len() implies stepped(
        #[trigger] a.nested_types[j],
        b.nested_types[j],
        namespace,
        chain.push(a.nested_types[j].name),
        p,
    ) by {
        if j != i {
            assert(b.nested_types[j] == a.nested_types[j]);
        }
    }
}

/// A permitted change of one top-level entity is one of the tree.
pub proof fn lemma_top_update(es: Seq<EntityModel>, i: int, v: EntityModel, p: Step)
    requires
        is_step(p),
        0 <= i < es.len(),
        stepped(es[i], v, es[i].namespace, seq![es[i].name], p),
    ensures
        stepped_all(es, es.update(i, v), p),
{
    let t = es.update(i, v);
    assert forall|j: int| 0 <= j < es.len() implies stepped(
        #[trigger] es[j],
        t[j],
        es[j].namespace,
        seq![es[j].name],
        p,
    ) by {
        if j != i {
            lemma_stepped_refl(es[j], es[j].namespace, seq![es[j].name], p);
        }
    }
}

/// A permitted change of what `rest` leads to below an entity is one of the entity.
proof fn lemma_nested_put(
    e: EntityModel,
    namespace: Seq<Seq<char>>,
    chain: Seq<Seq<char>>,
    rest: Seq<Seq<char>>,
    v: EntityModel,
    p: Step,
)
    requires
        is_step(p),
        lookup::nested_get(e, rest) is Some,
        stepped(lookup::nested_get(e, rest)->0, v, namespace, chain + rest, p),
    ensures
        stepped(e, lookup::nested_put(e, rest, v), namespace, chain, p),
    decreases rest.len(),
{
    if rest.len() == 0 {
        assert(chain + rest =~= chain);
    } else {
        lookup::lemma_first_found(e.nested_types, 0, lookup::called(rest[0]));
        let i = lookup::first_from(e.nested_types, 0, lookup::called(rest[0]))->0;
        let child = e.nested_types[i];
        assert(chain.push(child.name) + rest.drop_first() =~= chain + rest);
        lemma_nested_put(
            child,
            namespace,
            chain.push(child.name),
            rest.drop_first(),
            v,
            p,
        );
        let put = lookup::nested_put(child, rest.drop_first(), v);
        lemma_nested_update(e, i, put, namespace, chain, p);
    }
}

/// A permitted change of the entity that a path leads to is one of the tree: no other
/// entity changes.
pub proof fn law_put_is_a_step(
    es: Seq<EntityModel>,
    namespace: Seq<Seq<char>>,
    chain: Seq<Seq<char>>,
    v: EntityModel,
    p: Step,
)
    requires
        is_step(p),
        lookup::get(es, namespace, chain) is Some,
        stepped(lookup::get(es, namespace, chain)->0, v, namespace, chain, p),
    ensures
        stepped_all(es, lookup::put(es, namespace, chain, v), p),
{
    let q = lookup::at_top(namespace, chain[0]);
    lookup::lemma_first_found(es, 0, q);
    let i = lookup::first_from(es, 0, q)->0;
    let rest = chain.drop_first();
    assert(seq![es[i].name] + rest =~= chain);
    lemma_nested_put(es[i], namespace, seq![es[i].name], rest, v, p);
    lemma_top_update(es, i, lookup::nested_put(es[i], rest, v), p);
}

/// Sequences that agree on `q` everywhere have as many elements that satisfy it.
proof fn lemma_count_agrees<T>(s: Seq<T>, t: Seq<T>, i: int, q: spec_fn(T) -> bool)
    requires
        0 <= i,
        s.len() == t.len(),
        forall|j: int| 0 <= j < s.len() ==> q(#[trigger] s[j]) == q(t[j]),
    ensures
        lookup::count_from(s, i, q) == lookup::count_from(t, i, q),
    decreases s.len() - i,
{
    if i < s.len() {
        assert(q(s[i]) == q(t[i]));
        lemma_count_agrees(s, t, i + 1, q);
    }
}

/// Below an entity, a path is as unique as it was.
proof fn lemma_nested_unique_stays(
    a: EntityModel,
    b: EntityModel,
    namespace: Seq<Seq<char>>,
    chain: Seq<Seq<char>>,
    rest: Seq<Seq<char>>,
    p: Step,
)
    requires
        is_step(p),
        stepped(a, b, namespace, chain, p),
    ensures
        lookup::nested_unique(a, rest) == lookup::nested_unique(b, rest),
    decreases rest.len(),
{
    if rest.len() > 0 {
        lemma_stepped(a, b, namespace, chain, p);
        let q = lookup::called(rest[0]);
        let (s, t) = (a.nested_types, b.nested_types);
        assert forall|j: int| 0 <= j < s.len() implies q(#[trigger] s[j]) == q(t[j]) by {
            lemma_keeps_name(s[j], t[j], namespace, chain.push(s[j].name), p);
        }
        lemma_count_agrees(s, t, 0, q);
        lookup::lemma_first_agrees(s, t, 0, q);
        lookup::lemma_first_found(s, 0, q);
        if let Some(i) = lookup::first_from(s, 0, q) {
            lemma_nested_unique_stays(
                s[i],
                t[i],
                namespace,
                chain.push(s[i].name),
                rest.drop_first(),
                p,
            );
        }
    }
}

/// Permitted changes leave each path as unique as it was.
pub proof fn lemma_unique_stays(
    s: Seq<EntityModel>,
    t: Seq<EntityModel>,
    namespace: Seq<Seq<char>>,
    chain: Seq<Seq<char>>,
    p: Step,
)
    requires
        is_step(p),
        stepped_all(s, t, p),
    ensures
        lookup::unique(s, namespace, chain) == lookup::unique(t, namespace, chain),
{
    if chain.len() > 0 {
        let q = lookup::at_top(namespace, chain[0]);
        assert forall|j: int| 0 <= j < s.len() implies q(#[trigger] s[j]) == q(t[j]) by {
            lemma_keeps_name(s[j], t[j], s[j].namespace, seq![s[j].name], p);
        }
        lemma_count_agrees(s, t, 0, q);
        lookup::lemma_first_agrees(s, t, 0, q);
        lookup::lemma_first_found(s, 0, q);
        if let Some(i) = lookup::first_from(s, 0, q) {
            lemma_nested_unique_stays(
                s[i],
                t[i],
                s[i].namespace,
                seq![s[i].name],
                chain.drop_first(),
                p,
            );
        }
    }
}

/// What a path leads to below an entity is led to after the change, and changed in a
/// permitted way.
proof fn lemma_nested_get_stepped(
    a: EntityModel,
    b: EntityModel,
    namespace: Seq<Seq<char>>,
    chain: Seq<Seq<char>>,
    rest: Seq<Seq<char>>,
    p: Step,
)
    requires
        is_step(p),
        stepped(a, b, namespace, chain, p),
    ensures
        lookup::nested_get(a, rest) is Some <==> lookup::nested_get(b, rest) is Some,
        lookup::nested_get(a, rest) is Some ==> stepped(
            lookup::nested_get(a, rest)->0,
            lookup::nested_get(b, rest)->0,
            namespace,
            chain + rest,
            p,
        ),
    decreases rest.len(),
{
    if rest.len() == 0 {
        assert(chain + rest =~= chain);
    } else {
        lemma_stepped(a, b, namespace, chain, p);
        let q = lookup::called(rest[0]);
        let (s, t) = (a.nested_types, b.nested_types);
        assert forall|j: int| 0 <= j < s.len() implies q(#[trigger] s[j]) == q(t[j]) by {
            lemma_keeps_name(s[j], t[j], namespace, chain.push(s[j].name), p);
        }
        lookup::lemma_first_agrees(s, t, 0, q);
        lookup::lemma_first_found(s, 0, q);
        if let Some(i) = lookup::first_from(s, 0, q) {
            assert(chain.push(s[i].name) + rest.drop_first() =~= chain + rest);
            lemma_nested_get_stepped(
                s[i],
                t[i],
                namespace,
                chain.push(s[i].name),
                rest.drop_first(),
                p,
            );
        }
    }
}

/// What a path leads to is led to after the change, and changed in a permitted way.
pub proof fn lemma_get_stepped(
    s: Seq<EntityModel>,
    t: Seq<EntityModel>,
    namespace: Seq<Seq<char>>,
    chain: Seq<Seq<char>>,
    p: Step,
)
    requires
        is_step(p),
        stepped_all(s, t, p),
    ensures
        lookup::get(s, namespace, chain) is Some <==> lookup::get(t, namespace, chain) is Some,
        lookup::get(s, namespace, chain) is Some ==> stepped(
            lookup::get(s, namespace, chain)->0,
            lookup::get(t, namespace, chain)->0,
            namespace,
            chain,
            p,
        ),
{
    if chain.len() > 0 {
        let q = lookup::at_top(namespace, chain[0]);
        assert forall|j: int| 0 <= j < s.len() implies q(#[trigger] s[j]) == q(t[j]) by {
            lemma_keeps_name(s[j], t[j], s[j].namespace, seq![s[j].name], p);
        }
        lookup::lemma_first_agrees(s, t, 0, q);
        lookup::lemma_first_found(s, 0, q);
        if let Some(i) = lookup::first_from(s, 0, q) {
            assert(seq![s[i].name] + chain.drop_first() =~= chain);
            lemma_nested_get_stepped(
                s[i],
                t[i],
                s[i].namespace,
                seq![s[i].name],
                chain.drop_first(),
                p,
            );
        }
    }
}

/// The entity at the path stays as it is, and all names stay.
pub open spec fn stays_at(namespace: Seq<Seq<char>>, chain: Seq<Seq<char>>) -> Step {
    |n: Seq<Seq<char>>, c: Seq<Seq<char>>, a: EntityModel, b: EntityModel|
        {
            &&& a.name == b.name && a.namespace == b.namespace
            &&& n == namespace && c == chain ==> a == b
        }
}

/// Putting at one path an entity of the same name with the same nested types leaves what
/// another path leads to, but for what is nested in it.
pub proof fn law_put_elsewhere(
    es: Seq<EntityModel>,
    namespace: Seq<Seq<char>>,
    chain: Seq<Seq<char>>,
    v: EntityModel,
    other_namespace: Seq<Seq<char>>,
    other: Seq<Seq<char>>,
)
    requires
        lookup::get(es, namespace, chain) is Some,
        v.name == lookup::get(es, namespace, chain)->0.name,
        v.namespace == lookup::get(es, namespace, chain)->0.namespace,
        v.nested_types == lookup::get(es, namespace, chain)->0.nested_types,
        namespace != other_namespace || chain != other,
    ensures
        ({
            let after = lookup::get(
                lookup::put(es, namespace, chain, v),
                other_namespace,
                other,
            );
            match lookup::get(es, other_namespace, other) {
                Some(a) => after is Some && frame::bare(after->0) == frame::bare(a),
                None => after is None,
            }
        }),
{
    let p = stays_at(other_namespace, other);
    assert(is_step(p)) by {
        reveal(is_step);
    }
    let e = lookup::get(es, namespace, chain)->0;
    lemma_alone(e, v, namespace, chain, p);
    law_put_is_a_step(es, namespace, chain, v, p);
    let t = lookup::put(es, namespace, chain, v);
    lemma_get_stepped(es, t, other_namespace, other, p);
    if let Some(a) = lookup::get(es, other_namespace, other) {
        let b = lookup::get(t, other_namespace, other)->0;
        lemma_stepped(a, b, other_namespace, other, p);
    }
}

} // verus!
