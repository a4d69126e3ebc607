//! Sorted lists of names without repetition.
//!
//! Names are ordered as texts are: by their UTF-8 bytes, lexicographically.
use vstd::prelude::*;
use vstd::string::*;

verus! {

/// `a` comes before `b`, byte by byte.
pub open spec fn bytes_less(a: Seq<u8>, b: Seq<u8>) -> bool
    decreases b.len(),
{
    if b.len() == 0 {
        false
    } else if a.len() == 0 {
        true
    } else if a[0] != b[0] {
        a[0] < b[0]
    } else {
        bytes_less(a.drop_first(), b.drop_first())
    }
}

/// `a` comes before `b` in the order of texts.
pub open spec fn text_less(a: Seq<char>, b: Seq<char>) -> bool {
    bytes_less(vstd::utf8::encode_utf8(a), vstd::utf8::encode_utf8(b))
}

/// The names in strictly increasing order.
pub open spec fn strictly_sorted(s: Seq<Seq<char>>) -> bool {
    forall|i: int, j: int| 0 <= i < j < s.len() ==> text_less(#[trigger] s[i], #[trigger] s[j])
}

/// The list `s` with `x` before the first name that is not less, unless `x` is that
/// name.
pub open spec fn with_name(s: Seq<Seq<char>>, x: Seq<char>) -> Seq<Seq<char>>
    decreases s.len(),
{
    if s.len() == 0 {
        seq![x]
    } else if text_less(s[0], x) {
        seq![s[0]] + with_name(s.drop_first(), x)
    } else if s[0] == x {
        s
    } else {
        seq![x] + s
    }
}

/// Equal beginnings do not decide the order.
proof fn lemma_skip_common(a: Seq<u8>, b: Seq<u8>, n: int)
    requires
        0 <= n <= a.len(),
        n <= b.len(),
        forall|i: int| 0 <= i < n ==> a[i] == b[i],
    ensures
        bytes_less(a, b) == bytes_less(a.skip(n), b.skip(n)),
    decreases n,
{
    if n == 0 {
        assert(a.skip(0) =~= a);
        assert(b.skip(0) =~= b);
    } else {
        lemma_skip_common(a.drop_first(), b.drop_first(), n - 1);
        assert(a.drop_first().skip(n - 1) =~= a.skip(n));
        assert(b.drop_first().skip(n - 1) =~= b.skip(n));
        assert(a[0] == b[0]);
    }
}

/// Of two different byte strings one comes before the other.
proof fn lemma_bytes_total(a: Seq<u8>, b: Seq<u8>)
    ensures
        a == b || bytes_less(a, b) || bytes_less(b, a),
    decreases a.len(),
{
    if a.len() > 0 && b.len() > 0 && a[0] == b[0] {
        lemma_bytes_total(a.drop_first(), b.drop_first());
        if a.drop_first() == b.drop_first() {
            assert(a =~= seq![a[0]] + a.drop_first());
            assert(b =~= seq![b[0]] + b.drop_first());
        }
    } else if a.len() == 0 && b.len() == 0 {
        assert(a =~= b);
    }
}

/// The order of byte strings is transitive.
proof fn lemma_bytes_transitive(a: Seq<u8>, b: Seq<u8>, c: Seq<u8>)
    requires
        bytes_less(a, b),
        bytes_less(b, c),
    ensures
        bytes_less(a, c),
    decreases b.len(),
{
    if a.len() > 0 && a[0] == b[0] && b[0] == c[0] {
        lemma_bytes_transitive(a.drop_first(), b.drop_first(), c.drop_first());
    }
}

/// The order of texts is total.
pub proof fn lemma_text_total(a: Seq<char>, b: Seq<char>)
    ensures
        a == b || text_less(a, b) || text_less(b, a),
{
    lemma_bytes_total(vstd::utf8::encode_utf8(a), vstd::utf8::encode_utf8(b));
    vstd::utf8::encode_utf8_decode_utf8(a);
    vstd::utf8::encode_utf8_decode_utf8(b);
}

/// Adding a name to a strictly sorted list keeps it so and adds that name alone.
pub proof fn law_with_name(s: Seq<Seq<char>>, x: Seq<char>)
    requires
        strictly_sorted(s),
    ensures
        strictly_sorted(with_name(s, x)),
        forall|y: Seq<char>|
            #![trigger with_name(s, x).contains(y)]
            with_name(s, x).contains(y) <==> s.contains(y) || y == x,
    decreases s.len(),
{
    let r = with_name(s, x);
    if s.len() == 0 {
        assert(r[0] == x);
    } else if text_less(s[0], x) {
        let rest = s.drop_first();
        assert forall|i: int, j: int| 0 <= i < j < rest.len() implies text_less(
            #[trigger] rest[i],
            #[trigger] rest[j],
        ) by {
            assert(text_less(s[i + 1], s[j + 1]));
        }
        law_with_name(rest, x);
        let t = with_name(rest, x);
        assert forall|j: int| 0 <= j < t.len() implies text_less(s[0], #[trigger] t[j]) by {
            assert(t.contains(t[j]));
            if t[j] != x {
                let k = choose|k: int| 0 <= k < rest.len() && rest[k] == t[j];
                assert(text_less(s[0], s[k + 1]));
            }
        }
        assert forall|i: int, j: int| 0 <= i < j < r.len() implies text_less(
            #[trigger] r[i],
            #[trigger] r[j],
        ) by {
            if i > 0 {
                assert(text_less(t[i - 1], t[j - 1]));
            }
        }
        assert forall|y: Seq<char>| r.contains(y) <==> s.contains(y) || y == x by {
            if r.contains(y) {
                let k = choose|k: int| 0 <= k < r.len() && r[k] == y;
                if k > 0 {
                    assert(t[k - 1] == y);
                    assert(t.contains(y));
                    if rest.contains(y) {
                        let m = choose|m: int| 0 <= m < rest.len() && rest[m] == y;
                        assert(s[m + 1] == y);
                    }
                } else {
                    assert(s[0] == y);
                }
            }
            if s.contains(y) {
                let k = choose|k: int| 0 <= k < s.len() && s[k] == y;
                if k > 0 {
                    assert(rest[k - 1] == y);
                    assert(t.contains(y));
                    let m = choose|m: int| 0 <= m < t.len() && t[m] == y;
                    assert(r[m + 1] == y);
                } else {
                    assert(r[0] == y);
                }
            }
            if y == x {
                assert(t.contains(y));
                let m = choose|m: int| 0 <= m < t.len() && t[m] == y;
                assert(r[m + 1] == y);
            }
        }
    } else if s[0] == x {
    } else {
        lemma_text_total(s[0], x);
        assert forall|j: int| 0 <= j < s.len() implies text_less(x, #[trigger] s[j]) by {
            if j > 0 {
                assert(text_less(s[0], s[j]));
                lemma_bytes_transitive(
                    vstd::utf8::encode_utf8(x),
                    vstd::utf8::encode_utf8(s[0]),
                    vstd::utf8::encode_utf8(s[j]),
                );
            }
        }
        assert forall|i: int, j: int| 0 <= i < j < r.len() implies text_less(
            #[trigger] r[i],
            #[trigger] r[j],
        ) by {
            if i > 0 {
                assert(text_less(s[i - 1], s[j - 1]));
            } else {
                assert(text_less(x, s[j - 1]));
            }
        }
        assert forall|y: Seq<char>| r.contains(y) <==> s.contains(y) || y == x by {
            if r.contains(y) {
                let k = choose|k: int| 0 <= k < r.len() && r[k] == y;
                if k > 0 {
                    assert(s[k - 1] == y);
                }
            }
            if s.contains(y) {
                let k = choose|k: int| 0 <= k < s.len() && s[k] == y;
                assert(r[k + 1] == y);
            }
            assert(r[0] == x);
        }
    }
}

/// Where the name goes that `k` names come before.
proof fn lemma_with_name_at(s: Seq<Seq<char>>, x: Seq<char>, k: int)
    requires
        0 <= k <= s.len(),
        forall|j: int| 0 <= j < k ==> text_less(#[trigger] s[j], x),
        k < s.len() ==> !text_less(s[k], x),
    ensures
        with_name(s, x) == (if k < s.len() && s[k] == x {
            s
        } else {
            s.insert(k, x)
        }),
    decreases s.len(),
{
    if s.len() == 0 {
        assert(s.insert(0, x) =~= seq![x]);
    } else if k == 0 {
        if s[0] != x {
            assert(s.insert(0, x) =~= seq![x] + s);
        }
    } else {
        let rest = s.drop_first();
        assert(text_less(s[0], x));
        assert forall|j: int| 0 <= j < k - 1 implies text_less(#[trigger] rest[j], x) by {
            assert(text_less(s[j + 1], x));
        }
        lemma_with_name_at(rest, x, k - 1);
        if k < s.len() && s[k] == x {
            assert(seq![s[0]] + rest =~= s);
        } else {
            assert(seq![s[0]] + rest.insert(k - 1, x) =~= s.insert(k, x));
        }
    }
}

/// Whether `a` comes before `b` in the order of texts.
pub fn less_text(a: &str, b: &str) -> (r: bool)
    ensures
        r == text_less(a@, b@),
{
    let x = a.as_bytes();
    let y = b.as_bytes();
    let mut i: usize = 0;
    while i < x.len() && i < y.len()
        invariant
            i <= x@.len(),
            i <= y@.len(),
            x@ == vstd::utf8::encode_utf8(a@),
            y@ == vstd::utf8::encode_utf8(b@),
            forall|j: int| 0 <= j < i ==> x@[j] == y@[j],
        decreases x@.len() - i,
    {
        if x[i] != y[i] {
            proof {
                lemma_skip_common(x@, y@, i as int);
            }
            return x[i] < y[i];
        }
        i = i + 1;
    }
    proof {
        lemma_skip_common(x@, y@, i as int);
    }
    i < y.len()
}

/// Add a name to a sorted list.
pub fn insert_name(names: &mut Vec<String>, name: &String)
    ensures
        final(names).deep_view() == with_name(old(names).deep_view(), name@),
{
    let ghost before = names.deep_view();
    let mut k: usize = 0;
    while k < names.len() && less_text(names[k].as_str(), name.as_str())
        invariant
            k <= names@.len(),
            before == names.deep_view(),
            forall|j: int| 0 <= j < k ==> text_less(#[trigger] before[j], name@),
        decreases names@.len() - k,
    {
        assert(before[k as int] == names@[k as int]@);
        k = k + 1;
    }
    proof {
        if k < names@.len() {
            assert(before[k as int] == names@[k as int]@);
        }
        lemma_with_name_at(before, name@, k as int);
    }
    if k < names.len() && names[k] == *name {
        return;
    }
    names.insert(k, name.clone());
    assert(names.deep_view() =~= before.insert(k as int, name@));
}

} // verus!
