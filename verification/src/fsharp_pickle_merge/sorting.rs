//! Stable sorting by rank.
use vstd::prelude::*;

verus! {

/// The indices from `i` on that have the rank `r`.
pub open spec fn of_rank(ranks: Seq<nat>, r: nat, i: nat) -> Seq<int>
    decreases ranks.len() - i,
{
    if i >= ranks.len() {
        Seq::empty()
    } else if ranks[i as int] == r {
        seq![i as int] + of_rank(ranks, r, i + 1)
    } else {
        of_rank(ranks, r, i + 1)
    }
}

/// The indices of rank `r`, then those of the next rank, up to the rank `n`.
pub open spec fn by_rank(ranks: Seq<nat>, r: nat, n: nat) -> Seq<int>
    decreases n + 1 - r,
{
    if r > n {
        Seq::empty()
    } else {
        of_rank(ranks, r, 0) + by_rank(ranks, r + 1, n)
    }
}

/// The elements of `s` at the indices `order`.
pub open spec fn permuted<T>(s: Seq<T>, order: Seq<int>) -> Seq<T> {
    Seq::new(order.len(), |i: int| s[order[i]])
}

/// `order` holds each index below `n` once.
pub open spec fn is_permutation(order: Seq<int>, n: nat) -> bool {
    &&& order.len() == n
    &&& order.no_duplicates()
    &&& forall|j: int| 0 <= j < order.len() ==> 0 <= (#[trigger] order[j]) < n
}

/// The index `a` goes before `b`: it has a lower rank, or the same rank and is
/// smaller.
pub open spec fn goes_before(ranks: Seq<nat>, a: int, b: int) -> bool {
    ranks[a] < ranks[b] || (ranks[a] == ranks[b] && a < b)
}

/// What `of_rank` holds.
proof fn lemma_of_rank(ranks: Seq<nat>, r: nat, i: nat)
    ensures
        ({
            let s = of_rank(ranks, r, i);
            &&& forall|j: int|
                0 <= j < s.len() ==> i <= (#[trigger] s[j]) < ranks.len() && ranks[s[j]] == r
            &&& forall|j: int, k: int|
                0 <= j < k < s.len() ==> (#[trigger] s[j]) < (#[trigger] s[k])
            &&& forall|x: int| i <= x < ranks.len() && #[trigger] ranks[x] == r ==> s.contains(x)
        }),
    decreases ranks.len() - i,
{
    if i < ranks.len() {
        lemma_of_rank(ranks, r, i + 1);
        let rest = of_rank(ranks, r, i + 1);
        let s = of_rank(ranks, r, i);
        if ranks[i as int] == r {
            assert forall|j: int| 0 <= j < s.len() implies i <= (#[trigger] s[j]) < ranks.len()
                && ranks[s[j]] == r by {
                if j > 0 {
                    assert(s[j] == rest[j - 1]);
                }
            }
            assert forall|j: int, k: int| 0 <= j < k < s.len() implies (#[trigger] s[j]) < (
            #[trigger] s[k]) by {
                assert(s[k] == rest[k - 1]);
                if j > 0 {
                    assert(s[j] == rest[j - 1]);
                }
            }
            assert forall|x: int|
                i <= x < ranks.len() && #[trigger] ranks[x] == r implies s.contains(x) by {
                if x == i {
                    assert(s[0] == x);
                } else {
                    assert(rest.contains(x));
                    let j = choose|j: int| 0 <= j < rest.len() && rest[j] == x;
                    assert(s[j + 1] == x);
                }
            }
        }
    }
}

/// What `by_rank` holds.
proof fn lemma_by_rank(ranks: Seq<nat>, r: nat, n: nat)
    ensures
        ({
            let s = by_rank(ranks, r, n);
            &&& forall|j: int|
                0 <= j < s.len() ==> 0 <= (#[trigger] s[j]) < ranks.len() && r <= ranks[s[j]] <= n
            &&& forall|j: int, k: int|
                0 <= j < k < s.len() ==> goes_before(ranks, #[trigger] s[j], #[trigger] s[k])
            &&& forall|x: int|
                0 <= x < ranks.len() && r <= #[trigger] ranks[x] <= n ==> s.contains(x)
        }),
    decreases n + 1 - r,
{
    if r <= n {
        lemma_of_rank(ranks, r, 0);
        lemma_by_rank(ranks, r + 1, n);
        let a = of_rank(ranks, r, 0);
        let b = by_rank(ranks, r + 1, n);
        let s = by_rank(ranks, r, n);
        assert forall|j: int| 0 <= j < s.len() implies 0 <= (#[trigger] s[j]) < ranks.len() && r
            <= ranks[s[j]] <= n by {
            if j < a.len() {
                assert(s[j] == a[j]);
            } else {
                assert(s[j] == b[j - a.len()]);
            }
        }
        assert forall|j: int, k: int| 0 <= j < k < s.len() implies goes_before(
            ranks,
            #[trigger] s[j],
            #[trigger] s[k],
        ) by {
            if k < a.len() {
                assert(s[j] == a[j] && s[k] == a[k]);
            } else if j >= a.len() {
                assert(s[j] == b[j - a.len()] && s[k] == b[k - a.len()]);
            } else {
                assert(s[j] == a[j] && s[k] == b[k - a.len()]);
            }
        }
        assert forall|x: int|
            0 <= x < ranks.len() && r <= #[trigger] ranks[x] <= n implies s.contains(x) by {
            if ranks[x] == r {
                assert(a.contains(x));
                let j = choose|j: int| 0 <= j < a.len() && a[j] == x;
                assert(s[j] == x);
            } else {
                assert(b.contains(x));
                let j = choose|j: int| 0 <= j < b.len() && b[j] == x;
                assert(s[j + a.len()] == x);
            }
        }
    }
}

/// Distinct indices that hold each one below `n` are `n` in number.
proof fn lemma_as_many(order: Seq<int>, n: nat)
    requires
        order.no_duplicates(),
        forall|x: int| 0 <= x < n ==> #[trigger] order.contains(x),
        forall|j: int| 0 <= j < order.len() ==> 0 <= (#[trigger] order[j]) < n,
    ensures
        order.len() == n,
{
    order.unique_seq_to_set();
    let all = vstd::set_lib::set_int_range(0, n as int);
    vstd::set_lib::lemma_int_range(0, n as int);
    assert forall|x: int| order.to_set().contains(x) implies all.contains(x) by {
        let j = choose|j: int| 0 <= j < order.len() && order[j] == x;
        assert(order[j] < n);
    }
    assert forall|x: int| all.contains(x) implies order.to_set().contains(x) by {
        assert(order.contains(x));
    }
    assert(order.to_set() =~= all);
}

/// The order by rank is a stable sort: it holds every index once, sorted by rank,
/// and by index among those of one rank.
pub proof fn law_by_rank_is_a_stable_sort(ranks: Seq<nat>, n: nat)
    requires
        forall|x: int| 0 <= x < ranks.len() ==> (#[trigger] ranks[x]) <= n,
    ensures
        is_permutation(by_rank(ranks, 0, n), ranks.len()),
        forall|x: int| 0 <= x < ranks.len() ==> #[trigger] by_rank(ranks, 0, n).contains(x),
        forall|j: int, k: int|
            0 <= j < k < ranks.len() ==> goes_before(
                ranks,
                #[trigger] by_rank(ranks, 0, n)[j],
                #[trigger] by_rank(ranks, 0, n)[k],
            ),
{
    lemma_by_rank(ranks, 0, n);
    let s = by_rank(ranks, 0, n);
    assert forall|x: int| 0 <= x < ranks.len() implies #[trigger] s.contains(x) by {
        assert(ranks[x] <= n);
    }
    assert forall|j: int, k: int| 0 <= j < s.len() && 0 <= k < s.len() && j != k implies s[j]
        != s[k] by {
        if j < k {
            assert(goes_before(ranks, s[j], s[k]));
        } else {
            assert(goes_before(ranks, s[k], s[j]));
        }
    }
    lemma_as_many(s, ranks.len());
}

/// A permutation that rises keeps each index in its place.
proof fn lemma_rising(order: Seq<int>, n: nat, i: int)
    requires
        is_permutation(order, n),
        forall|j: int, k: int| 0 <= j < k < n ==> (#[trigger] order[j]) < (#[trigger] order[k]),
        0 <= i < n,
    ensures
        order[i] == i,
{
    lemma_not_below(order, n, i);
    lemma_not_above(order, n, i);
}

/// A permutation that rises has no index below its place.
proof fn lemma_not_below(order: Seq<int>, n: nat, i: int)
    requires
        is_permutation(order, n),
        forall|j: int, k: int| 0 <= j < k < n ==> (#[trigger] order[j]) < (#[trigger] order[k]),
        0 <= i < n,
    ensures
        i <= order[i],
    decreases i,
{
    if i > 0 {
        lemma_not_below(order, n, i - 1);
    }
}

/// A permutation that rises has no index above its place.
proof fn lemma_not_above(order: Seq<int>, n: nat, i: int)
    requires
        is_permutation(order, n),
        forall|j: int, k: int| 0 <= j < k < n ==> (#[trigger] order[j]) < (#[trigger] order[k]),
        0 <= i < n,
    ensures
        order[i] <= i,
    decreases n - i,
{
    if i < n - 1 {
        lemma_not_above(order, n, i + 1);
    }
}

/// The elements stand in the order of their ranks.
pub open spec fn in_order<T>(s: Seq<T>, rank: spec_fn(T) -> nat) -> bool {
    forall|j: int, k: int| 0 <= j < k < s.len() ==> rank(#[trigger] s[j]) <= rank(#[trigger] s[k])
}

/// The elements sorted by rank, where no rank is above `n`.
pub open spec fn sorted<T>(s: Seq<T>, rank: spec_fn(T) -> nat, n: nat) -> Seq<T> {
    permuted(s, by_rank(s.map_values(rank), 0, n))
}

/// `new` is `before` sorted by `rank`, where elements of one rank keep their order.
pub open spec fn stably_sorted<T>(new: Seq<T>, before: Seq<T>, rank: spec_fn(T) -> nat) -> bool {
    exists|order: Seq<int>| #[trigger] sorts(order, new, before, rank)
}

/// `order` sorts `before` into `new`, where elements of one rank keep their order.
pub open spec fn sorts<T>(
    order: Seq<int>,
    new: Seq<T>,
    before: Seq<T>,
    rank: spec_fn(T) -> nat,
) -> bool {
    &&& is_permutation(order, before.len())
    &&& new == permuted(before, order)
    &&& forall|j: int, k: int|
        0 <= j < k < order.len() ==> rank(before[#[trigger] order[j]]) < rank(
            before[#[trigger] order[k]],
        ) || (rank(before[order[j]]) == rank(before[order[k]]) && order[j] < order[k])
}

/// Sorting by rank is stable.
pub proof fn law_sorted_is_a_stable_sort<T>(s: Seq<T>, rank: spec_fn(T) -> nat, n: nat)
    requires
        forall|e: T| #[trigger] rank(e) <= n,
    ensures
        sorts(by_rank(s.map_values(rank), 0, n), sorted(s, rank, n), s, rank),
        stably_sorted(sorted(s, rank, n), s, rank),
        in_order(sorted(s, rank, n), rank),
{
    let ranks = s.map_values(rank);
    let order = by_rank(ranks, 0, n);
    assert forall|x: int| 0 <= x < ranks.len() implies (#[trigger] ranks[x]) <= n by {
        assert(rank(s[x]) <= n);
    }
    law_by_rank_is_a_stable_sort(ranks, n);
    let new = sorted(s, rank, n);
    assert forall|j: int, k: int| 0 <= j < k < order.len() implies rank(
        s[#[trigger] order[j]],
    ) < rank(s[#[trigger] order[k]]) || (rank(s[order[j]]) == rank(s[order[k]]) && order[j]
        < order[k]) by {
        assert(goes_before(ranks, order[j], order[k]));
    }
    assert(sorts(order, new, s, rank));
    assert forall|j: int, k: int| 0 <= j < k < new.len() implies rank(#[trigger] new[j]) <= rank(
        #[trigger] new[k],
    ) by {
        assert(new[j] == s[order[j]] && new[k] == s[order[k]]);
    }
}

/// Sorting what stands in order changes nothing.
pub proof fn law_sorting_again_changes_nothing<T>(s: Seq<T>, rank: spec_fn(T) -> nat, n: nat)
    requires
        forall|e: T| #[trigger] rank(e) <= n,
        in_order(s, rank),
    ensures
        sorted(s, rank, n) == s,
{
    law_sorted_is_a_stable_sort(s, rank, n);
    let order = by_rank(s.map_values(rank), 0, n);
    assert forall|j: int, k: int| 0 <= j < k < s.len() implies (#[trigger] order[j]) < (
    #[trigger] order[k]) by {
        let (a, b) = (order[j], order[k]);
        assert(order[j] != order[k]);
        if b < a {
            assert(rank(s[b]) <= rank(s[a]));
        }
    }
    assert forall|i: int| 0 <= i < s.len() implies #[trigger] sorted(s, rank, n)[i] == s[i] by {
        lemma_rising(order, s.len(), i);
    }
    assert(sorted(s, rank, n) =~= s);
}

} // verus!
