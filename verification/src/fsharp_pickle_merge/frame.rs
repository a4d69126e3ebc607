//! What an overlay leaves alone.
//!
//! A projection of single entities tells which of their facts are looked at. Seen
//! through it, a tree keeps its shape and every fact that the projection keeps; an
//! overlay that leaves the seen tree equal has changed only the other facts.
use crate::fsharp_pickle_merge::lookup;
use crate::model::EntityModel;
use vstd::prelude::*;

verus! {

/// The entity without its nested types.
pub open spec fn bare(e: EntityModel) -> EntityModel {
    EntityModel { nested_types: Seq::empty(), ..e }
}

/// The entity and all that is nested in it, seen through `f`.
#[verifier::opaque]
pub open spec fn seen(e: EntityModel, f: spec_fn(EntityModel) -> EntityModel) -> EntityModel
    decreases e,
{
    EntityModel {
        nested_types: Seq::new(
            e.nested_types.len(),
            |i: int|
                if 0 <= i < e.nested_types.len() {
                    seen(e.nested_types[i], f)
                } else {
                    arbitrary()
                },
        ),
        ..f(bare(e))
    }
}

/// The tree seen through `f`.
pub open spec fn seen_all(
    es: Seq<EntityModel>,
    f: spec_fn(EntityModel) -> EntityModel,
) -> Seq<EntityModel> {
    es.map_values(|e: EntityModel| seen(e, f))
}

/// Entities look the same when they do so by themselves and their nested types do.
pub proof fn lemma_seen_same(
    a: EntityModel,
    b: EntityModel,
    f: spec_fn(EntityModel) -> EntityModel,
)
    requires
        f(bare(a)) == f(bare(b)),
        seen_all(a.nested_types, f) == seen_all(b.nested_types, f),
    ensures
        seen(a, f) == seen(b, f),
{
    reveal(seen);
    let s = seen_all(a.nested_types, f);
    let t = seen_all(b.nested_types, f);
    assert(s.len() == t.len());
    assert forall|i: int| 0 <= i < s.len() implies #[trigger] seen(a, f).nested_types[i] == seen(
        b,
        f,
    ).nested_types[i] by {
        assert(s[i] == t[i]);
        assert(seen(a.nested_types[i], f) == seen(b.nested_types[i], f));
    }
    assert(seen(a, f).nested_types =~= seen(b, f).nested_types);
}

/// Replacing one entity by one that looks the same is not seen.
pub proof fn lemma_seen_update(
    es: Seq<EntityModel>,
    i: int,
    v: EntityModel,
    f: spec_fn(EntityModel) -> EntityModel,
)
    requires
        0 <= i < es.len(),
        seen(v, f) == seen(es[i], f),
    ensures
        seen_all(es.update(i, v), f) == seen_all(es, f),
{
    assert(seen_all(es.update(i, v), f) =~= seen_all(es, f));
}

/// Putting below `e` an entity that looks like the one found there is not seen.
proof fn lemma_nested_put_is_local(
    e: EntityModel,
    chain: Seq<Seq<char>>,
    v: EntityModel,
    f: spec_fn(EntityModel) -> EntityModel,
)
    requires
        lookup::nested_get(e, chain) is Some,
        seen(v, f) == seen(lookup::nested_get(e, chain)->0, f),
    ensures
        seen(lookup::nested_put(e, chain, v), f) == seen(e, f),
    decreases chain.len(),
{
    if chain.len() > 0 {
        lookup::lemma_first_found(e.nested_types, 0, lookup::called(chain[0]));
        let i = lookup::first_from(e.nested_types, 0, lookup::called(chain[0]))->0;
        let child = e.nested_types[i];
        lemma_nested_put_is_local(child, chain.drop_first(), v, f);
        let put = lookup::nested_put(child, chain.drop_first(), v);
        lemma_seen_update(e.nested_types, i, put, f);
        lemma_seen_same(
            EntityModel { nested_types: e.nested_types.update(i, put), ..e },
            e,
            f,
        );
    }
}

/// Putting an entity that looks like the one found in its place is not seen,
/// wherever in the tree that place is.
pub proof fn law_put_is_local(
    es: Seq<EntityModel>,
    namespace: Seq<Seq<char>>,
    chain: Seq<Seq<char>>,
    v: EntityModel,
    f: spec_fn(EntityModel) -> EntityModel,
)
    requires
        lookup::get(es, namespace, chain) is Some,
        seen(v, f) == seen(lookup::get(es, namespace, chain)->0, f),
    ensures
        seen_all(lookup::put(es, namespace, chain, v), f) == seen_all(es, f),
{
    let p = lookup::at_top(namespace, chain[0]);
    lookup::lemma_first_found(es, 0, p);
    let i = lookup::first_from(es, 0, p)->0;
    lemma_nested_put_is_local(es[i], chain.drop_first(), v, f);
    lemma_seen_update(es, i, lookup::nested_put(es[i], chain.drop_first(), v), f);
}

} // verus!
