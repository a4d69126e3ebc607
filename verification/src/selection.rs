//! Picking some of the elements of a list, in their order.
use vstd::prelude::*;

verus! {

/// `order` holds the positions below `n` that satisfy `p`, each once, in their order.
pub open spec fn picks(order: Seq<int>, n: int, p: spec_fn(int) -> bool) -> bool {
    &&& forall|j: int, k: int| 0 <= j < k < order.len() ==> (#[trigger] order[j]) < (
    #[trigger] order[k])
    &&& forall|k: int| 0 <= k < order.len() ==> 0 <= (#[trigger] order[k]) < n && p(order[k])
    &&& forall|i: int| 0 <= i < n && #[trigger] p(i) ==> order.contains(i)
}

/// The positions below `n` that satisfy `p`.
pub open spec fn picked(n: nat, p: spec_fn(int) -> bool) -> Seq<int>
    decreases n,
{
    if n == 0 {
        Seq::empty()
    } else if p(n - 1) {
        picked((n - 1) as nat, p).push(n - 1)
    } else {
        picked((n - 1) as nat, p)
    }
}

/// The positions that satisfy `p` are picked.
pub proof fn lemma_picked(n: nat, p: spec_fn(int) -> bool)
    ensures
        picks(picked(n, p), n as int, p),
    decreases n,
{
    if n > 0 {
        let m = (n - 1) as nat;
        lemma_picked(m, p);
        let (before, after) = (picked(m, p), picked(n, p));
        assert forall|i: int| 0 <= i < n && #[trigger] p(i) implies after.contains(i) by {
            if i < m {
                assert(before.contains(i));
                let k = choose|k: int| 0 <= k < before.len() && before[k] == i;
                assert(after[k] == i);
            } else {
                assert(after[before.len() as int] == i);
            }
        }
    }
}

/// What `make` makes of the picked positions.
pub open spec fn made<V>(order: Seq<int>, make: spec_fn(int) -> V) -> Seq<V> {
    Seq::new(order.len(), |k: int| make(order[k]))
}

/// `out` is what `make` makes of the positions below `n` that satisfy `p`, in their
/// order.
pub open spec fn is_selection<V>(
    out: Seq<V>,
    n: int,
    p: spec_fn(int) -> bool,
    make: spec_fn(int) -> V,
) -> bool {
    exists|order: Seq<int>| #[trigger] picks(order, n, p) && out == made(order, make)
}

/// The picked positions are a selection.
pub proof fn lemma_is_selection<V>(
    n: nat,
    p: spec_fn(int) -> bool,
    make: spec_fn(int) -> V,
)
    ensures
        is_selection(made(picked(n, p), make), n as int, p, make),
{
    lemma_picked(n, p);
}

/// One more position.
pub proof fn lemma_made_next<V>(n: nat, p: spec_fn(int) -> bool, make: spec_fn(int) -> V)
    ensures
        made(picked(n + 1, p), make) == (if p(n as int) {
            made(picked(n, p), make).push(make(n as int))
        } else {
            made(picked(n, p), make)
        }),
{
    if p(n as int) {
        assert(made(picked(n + 1, p), make) =~= made(picked(n, p), make).push(make(n as int)));
    }
}

/// An element is selected if and only if it is made of a position that satisfies `p`.
pub proof fn law_selected_iff_made<V>(
    out: Seq<V>,
    n: int,
    p: spec_fn(int) -> bool,
    make: spec_fn(int) -> V,
    x: V,
)
    requires
        is_selection(out, n, p, make),
    ensures
        out.contains(x) <==> exists|i: int| 0 <= i < n && #[trigger] p(i) && make(i) == x,
{
    let order = choose|order: Seq<int>| #[trigger] picks(order, n, p) && out == made(order, make);
    if out.contains(x) {
        let k = choose|k: int| 0 <= k < out.len() && out[k] == x;
        assert(p(order[k]) && make(order[k]) == x);
    }
    if exists|i: int| 0 <= i < n && #[trigger] p(i) && make(i) == x {
        let i = choose|i: int| 0 <= i < n && #[trigger] p(i) && make(i) == x;
        assert(order.contains(i));
        let k = choose|k: int| 0 <= k < order.len() && order[k] == i;
        assert(out[k] == x);
    }
}

} // verus!
