//! Trees that grow.
//!
//! An overlay that only adds entities leaves each entity of the tree in its place,
//! with all its facts; what it adds to a level stands behind what was there.
use crate::fsharp_pickle_merge::frame;
use crate::fsharp_pickle_merge::lookup;
use crate::model::{Access, AssemblyIdentityModel, EntityKind, EntityModel};
use vstd::prelude::*;

verus! {

/// The entity is a marker of the assembly `by`: a public name that no type definition
/// stands behind, with nothing nested in it but such markers.
pub open spec fn is_marker(by: AssemblyIdentityModel, e: EntityModel) -> bool
    decreases e,
{
    &&& e.kind == EntityKind::Abbreviation || e.kind == EntityKind::Exception
    &&& e.access == Access::Public
    &&& e.assembly == by
    &&& e.base_type is None
    &&& e.interfaces.len() == 0
    &&& e.members.len() == 0
    &&& e.union_case_names is None
    &&& forall|i: int|
        0 <= i < e.nested_types.len() ==> is_marker(by, #[trigger] e.nested_types[i])
}

/// `b` is `a`, but for markers that were added behind the types nested in it, at any
/// depth.
#[verifier::opaque]
pub open spec fn grown(by: AssemblyIdentityModel, a: EntityModel, b: EntityModel) -> bool
    decreases a,
{
    &&& frame::bare(a) == frame::bare(b)
    &&& a.nested_types.len() <= b.nested_types.len()
    &&& forall|i: int|
        0 <= i < a.nested_types.len() ==> grown(by, #[trigger] a.nested_types[i], b.nested_types[i])
    &&& forall|i: int|
        a.nested_types.len() <= i < b.nested_types.len() ==> is_marker(
            by,
            #[trigger] b.nested_types[i],
        )
}

/// The tree `t` is `s`, but for markers that were added behind the entities of each
/// level.
pub open spec fn grown_all(
    by: AssemblyIdentityModel,
    s: Seq<EntityModel>,
    t: Seq<EntityModel>,
) -> bool {
    &&& s.len() <= t.len()
    &&& forall|i: int| 0 <= i < s.len() ==> grown(by, #[trigger] s[i], t[i])
    &&& forall|i: int| s.len() <= i < t.len() ==> is_marker(by, #[trigger] t[i])
}

/// An entity that grows keeps its facts, and its nested types grow; and the other
/// way round.
pub proof fn lemma_grown(by: AssemblyIdentityModel, a: EntityModel, b: EntityModel)
    ensures
        grown(by, a, b) <==> frame::bare(a) == frame::bare(b) && grown_all(
            by,
            a.nested_types,
            b.nested_types,
        ),
{
    reveal(grown);
}

/// An entity that nothing is added to has grown by nothing.
pub proof fn lemma_grown_refl(by: AssemblyIdentityModel, e: EntityModel)
    ensures
        grown(by, e, e),
    decreases e,
{
    lemma_grown(by, e, e);
    assert forall|i: int| 0 <= i < e.nested_types.len() implies grown(
        by,
        #[trigger] e.nested_types[i],
        e.nested_types[i],
    ) by {
        lemma_grown_refl(by, e.nested_types[i]);
    }
}

/// A tree that nothing is added to has grown by nothing.
pub proof fn lemma_grown_all_refl(by: AssemblyIdentityModel, s: Seq<EntityModel>)
    ensures
        grown_all(by, s, s),
{
    assert forall|i: int| 0 <= i < s.len() implies grown(by, #[trigger] s[i], s[i]) by {
        lemma_grown_refl(by, s[i]);
    }
}

/// Growing twice is growing.
pub proof fn lemma_grown_trans(
    by: AssemblyIdentityModel,
    a: EntityModel,
    b: EntityModel,
    c: EntityModel,
)
    requires
        grown(by, a, b),
        grown(by, b, c),
    ensures
        grown(by, a, c),
    decreases a,
{
    lemma_grown(by, a, b);
    lemma_grown(by, b, c);
    lemma_grown(by, a, c);
    let (s, t, u) = (a.nested_types, b.nested_types, c.nested_types);
    assert forall|i: int| 0 <= i < s.len() implies grown(by, #[trigger] s[i], u[i]) by {
        assert(grown(by, t[i], u[i]));
        lemma_grown_trans(by, s[i], t[i], u[i]);
    }
    assert forall|i: int| s.len() <= i < u.len() implies is_marker(by, #[trigger] u[i]) by {
        if i < t.len() {
            assert(grown(by, t[i], u[i]));
            lemma_marker_grows(by, t[i], u[i]);
        }
    }
}

/// A marker that grows is a marker.
proof fn lemma_marker_grows(by: AssemblyIdentityModel, a: EntityModel, b: EntityModel)
    requires
        grown(by, a, b),
        is_marker(by, a),
    ensures
        is_marker(by, b),
    decreases a,
{
    lemma_grown(by, a, b);
    let (x, y) = (frame::bare(a), frame::bare(b));
    assert(x.kind == y.kind && x.access == y.access && x.assembly == y.assembly);
    assert(x.base_type == y.base_type && x.interfaces == y.interfaces);
    assert(x.members == y.members && x.union_case_names == y.union_case_names);
    let (s, t) = (a.nested_types, b.nested_types);
    assert forall|i: int| 0 <= i < t.len() implies is_marker(by, #[trigger] t[i]) by {
        if i < s.len() {
            assert(grown(by, s[i], t[i]));
            lemma_marker_grows(by, s[i], t[i]);
        }
    }
}

/// Growing twice is growing.
pub proof fn lemma_grown_all_trans(
    by: AssemblyIdentityModel,
    s: Seq<EntityModel>,
    t: Seq<EntityModel>,
    u: Seq<EntityModel>,
)
    requires
        grown_all(by, s, t),
        grown_all(by, t, u),
    ensures
        grown_all(by, s, u),
{
    assert forall|i: int| 0 <= i < s.len() implies grown(by, #[trigger] s[i], u[i]) by {
        assert(grown(by, t[i], u[i]));
        lemma_grown_trans(by, s[i], t[i], u[i]);
    }
    assert forall|i: int| s.len() <= i < u.len() implies is_marker(by, #[trigger] u[i]) by {
        if i < t.len() {
            assert(grown(by, t[i], u[i]));
            lemma_marker_grows(by, t[i], u[i]);
        }
    }
}

/// Adding a marker behind the others makes a level grow.
pub proof fn lemma_push_grows(by: AssemblyIdentityModel, s: Seq<EntityModel>, e: EntityModel)
    requires
        is_marker(by, e),
    ensures
        grown_all(by, s, s.push(e)),
{
    lemma_grown_all_refl(by, s);
    assert forall|i: int| 0 <= i < s.len() implies grown(by, #[trigger] s[i], s.push(e)[i]) by {
        assert(grown(by, s[i], s[i]));
    }
}

/// Putting in the place of one entity what it grew to makes the level grow.
proof fn lemma_update_grows(by: AssemblyIdentityModel, s: Seq<EntityModel>, i: int, e: EntityModel)
    requires
        0 <= i < s.len(),
        grown(by, s[i], e),
    ensures
        grown_all(by, s, s.update(i, e)),
{
    assert forall|j: int| 0 <= j < s.len() implies grown(
        by,
        #[trigger] s[j],
        s.update(i, e)[j],
    ) by {
        lemma_grown_refl(by, s[j]);
    }
}

/// Putting below `e` what the entity found there grew to makes `e` grow.
proof fn lemma_nested_put_grows(
    by: AssemblyIdentityModel,
    e: EntityModel,
    chain: Seq<Seq<char>>,
    v: EntityModel,
)
    requires
        lookup::nested_get(e, chain) is Some,
        grown(by, lookup::nested_get(e, chain)->0, v),
    ensures
        grown(by, e, lookup::nested_put(e, chain, v)),
    decreases chain.len(),
{
    if chain.len() > 0 {
        lookup::lemma_first_found(e.nested_types, 0, lookup::called(chain[0]));
        let i = lookup::first_from(e.nested_types, 0, lookup::called(chain[0]))->0;
        lemma_nested_put_grows(by, e.nested_types[i], chain.drop_first(), v);
        let child = lookup::nested_put(e.nested_types[i], chain.drop_first(), v);
        lemma_update_grows(by, e.nested_types, i, child);
        let put = lookup::nested_put(e, chain, v);
        assert(frame::bare(put) == frame::bare(e));
        lemma_grown(by, e, put);
    }
}

/// Putting what the entity found in that place grew to makes the tree grow.
pub proof fn lemma_put_grows(
    by: AssemblyIdentityModel,
    es: Seq<EntityModel>,
    namespace: Seq<Seq<char>>,
    chain: Seq<Seq<char>>,
    v: EntityModel,
)
    requires
        lookup::get(es, namespace, chain) is Some,
        grown(by, lookup::get(es, namespace, chain)->0, v),
    ensures
        grown_all(by, es, lookup::put(es, namespace, chain, v)),
{
    let p = lookup::at_top(namespace, chain[0]);
    lookup::lemma_first_found(es, 0, p);
    let i = lookup::first_from(es, 0, p)->0;
    lemma_nested_put_grows(by, es[i], chain.drop_first(), v);
    lemma_update_grows(by, es, i, lookup::nested_put(es[i], chain.drop_first(), v));
}

/// The first position stays when what is before it and at it agrees on `p`.
proof fn lemma_first_stays(
    by: AssemblyIdentityModel,
    s: Seq<EntityModel>,
    t: Seq<EntityModel>,
    p: spec_fn(EntityModel) -> bool,
)
    requires
        grown_all(by, s, t),
        lookup::first_from(s, 0, p) is Some,
        forall|a: EntityModel, b: EntityModel|
            #![trigger p(a), p(b)]
            frame::bare(a) == frame::bare(b) ==> p(a) == p(b),
    ensures
        lookup::first_from(t, 0, p) == lookup::first_from(s, 0, p),
{
    lookup::lemma_first_found(s, 0, p);
    let n = lookup::first_from(s, 0, p)->0;
    assert forall|j: int| 0 <= j < n implies !p(#[trigger] t[j]) by {
        lookup::lemma_not_before(s, 0, p, j);
        assert(grown(by, s[j], t[j]));
        lemma_grown(by, s[j], t[j]);
    }
    assert(grown(by, s[n], t[n]));
    lemma_grown(by, s[n], t[n]);
    lookup::lemma_first_is(t, 0, n, p);
}

/// What is found below an entity is found below what it grew to, and has grown.
proof fn lemma_nested_get_grown(
    by: AssemblyIdentityModel,
    a: EntityModel,
    b: EntityModel,
    chain: Seq<Seq<char>>,
)
    requires
        grown(by, a, b),
        lookup::nested_get(a, chain) is Some,
    ensures
        lookup::nested_get(b, chain) is Some,
        grown(by, lookup::nested_get(a, chain)->0, lookup::nested_get(b, chain)->0),
    decreases chain.len(),
{
    if chain.len() > 0 {
        lemma_grown(by, a, b);
        let p = lookup::called(chain[0]);
        assert forall|x: EntityModel, y: EntityModel|
            #![trigger p(x), p(y)]
            frame::bare(x) == frame::bare(y) implies p(x) == p(y) by {
            assert(frame::bare(x).name == frame::bare(y).name);
        }
        lookup::lemma_first_found(a.nested_types, 0, p);
        lemma_first_stays(by, a.nested_types, b.nested_types, p);
        let i = lookup::first_from(a.nested_types, 0, p)->0;
        assert(grown(by, a.nested_types[i], b.nested_types[i]));
        lemma_nested_get_grown(by, a.nested_types[i], b.nested_types[i], chain.drop_first());
    }
}

/// What is found in a tree is found in what the tree grew to, and has grown.
pub proof fn lemma_get_grown(
    by: AssemblyIdentityModel,
    s: Seq<EntityModel>,
    t: Seq<EntityModel>,
    namespace: Seq<Seq<char>>,
    chain: Seq<Seq<char>>,
)
    requires
        grown_all(by, s, t),
        lookup::get(s, namespace, chain) is Some,
    ensures
        lookup::get(t, namespace, chain) is Some,
        grown(by, lookup::get(s, namespace, chain)->0, lookup::get(t, namespace, chain)->0),
{
    let p = lookup::at_top(namespace, chain[0]);
    assert forall|x: EntityModel, y: EntityModel|
        #![trigger p(x), p(y)]
        frame::bare(x) == frame::bare(y) implies p(x) == p(y) by {
        assert(frame::bare(x).name == frame::bare(y).name);
        assert(frame::bare(x).namespace == frame::bare(y).namespace);
    }
    lookup::lemma_first_found(s, 0, p);
    lemma_first_stays(by, s, t, p);
    let i = lookup::first_from(s, 0, p)->0;
    assert(grown(by, s[i], t[i]));
    lemma_nested_get_grown(by, s[i], t[i], chain.drop_first());
}

} // verus!
