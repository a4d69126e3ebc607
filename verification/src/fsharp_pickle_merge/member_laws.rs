//! What the member list of a module is.
//!
//! The laws speak of the values of the pickle and of the members before and after, and
//! of which value claims which member.
use crate::fsharp_pickle_merge::frame;
use crate::fsharp_pickle_merge::lookup;
use crate::fsharp_pickle_merge::member_list;
use crate::fsharp_pickle_merge::module_vals::{ModuleMemberTargetModel, ModuleMemberValModel};
use crate::fsharp_pickle_merge::steps;
use crate::model::{
    Access, Augmentation, EntityKind, EntityModel, MemberModel, MethodLikeModel,
};
use vstd::prelude::*;

verus! {

/// The name that the value has in the metadata.
pub open spec fn compiled(v: ModuleMemberValModel) -> Seq<char> {
    if v.compiled_name is Some {
        v.compiled_name->0
    } else {
        v.logical_name
    }
}

/// The F# name of the value, where the metadata has another one.
pub open spec fn renamed(v: ModuleMemberValModel) -> Option<Seq<char>> {
    if compiled(v) != v.logical_name {
        Some(v.logical_name)
    } else {
        None
    }
}

/// The value is compiled to a property: it takes no arguments and is not generic.
pub open spec fn is_property(v: ModuleMemberValModel) -> bool {
    v.arg_group_count == Some(0usize) && !v.is_generic
}

/// The value is compiled to a method whose number of parameters is known.
pub open spec fn is_method(v: ModuleMemberValModel) -> bool {
    v.arg_group_count is Some && !is_property(v) && v.il_arity is Some
}

/// Two values, neither of them a literal, are compiled to the same name and shape, so
/// that nothing tells their members apart.
pub open spec fn in_group(v: ModuleMemberValModel, w: ModuleMemberValModel) -> bool {
    &&& !w.is_literal
    &&& compiled(w) == compiled(v)
    &&& is_property(w) == is_property(v)
    &&& is_method(w) == is_method(v)
    &&& is_method(v) ==> w.il_arity == v.il_arity
}

/// The method can be what the value was compiled to.
pub open spec fn can_be(m: MemberModel, v: ModuleMemberValModel) -> bool {
    match m {
        MemberModel::Method(m) => {
            &&& m.name == compiled(v)
            &&& is_property(v) ==> m.module_value is Some
            &&& is_method(v) ==> m.module_value is None && m.signature.parameters.len()
                == v.il_arity->0
        },
        _ => false,
    }
}

/// The `k`-th member of the entity is left when the `i`-th value claims: no value before
/// it claimed that member.
pub open spec fn is_left(
    e: EntityModel,
    vals: Seq<ModuleMemberValModel>,
    i: nat,
    k: int,
) -> bool {
    forall|j: nat| j < i ==> #[trigger] member_list::claim(e, vals, j) != Some(k)
}

/// How many of the first `i` values claim a member.
pub open spec fn claims_before(e: EntityModel, vals: Seq<ModuleMemberValModel>, i: nat) -> nat
    decreases i,
{
    if i == 0 {
        0
    } else {
        claims_before(e, vals, (i - 1) as nat) + (if member_list::claim(
            e,
            vals,
            (i - 1) as nat,
        ) is Some {
            1nat
        } else {
            0
        })
    }
}

/// The claimed members stand on the list in the order of the values.
proof fn lemma_listed_at(e: EntityModel, vals: Seq<ModuleMemberValModel>, i: nat, n: nat)
    requires
        i < n <= vals.len(),
        member_list::claim(e, vals, i) is Some,
    ensures
        claims_before(e, vals, n) == member_list::claimed_members(e, vals, n).len(),
        claims_before(e, vals, i) < member_list::claimed_members(e, vals, n).len(),
        member_list::claimed_members(e, vals, n)[claims_before(e, vals, i) as int]
            == member_list::listed(
            vals,
            vals[i as int],
            e.members[member_list::claim(e, vals, i)->0],
        ),
    decreases n,
{
    lemma_as_many(e, vals, (n - 1) as nat);
    if i < n - 1 {
        lemma_listed_at(e, vals, i, (n - 1) as nat);
    }
}

/// There are as many claimed members as claims.
proof fn lemma_as_many(e: EntityModel, vals: Seq<ModuleMemberValModel>, n: nat)
    ensures
        claims_before(e, vals, n) == member_list::claimed_members(e, vals, n).len(),
    decreases n,
{
    if n > 0 {
        lemma_as_many(e, vals, (n - 1) as nat);
    }
}

/// The list of the rebuilt module holds, for the claim of the `i`-th value, one member at
/// the place that the order of the claims gives it.
proof fn lemma_projected(e: EntityModel, vals: Seq<ModuleMemberValModel>, i: nat)
    requires
        i < vals.len(),
        member_list::claim(e, vals, i) is Some,
    ensures
        claims_before(e, vals, i) < member_list::rebuilt(e, vals).members.len(),
        member_list::rebuilt(e, vals).members[claims_before(e, vals, i) as int]
            == member_list::listed(
            vals,
            vals[i as int],
            e.members[member_list::claim(e, vals, i)->0],
        ),
{
    lemma_listed_at(e, vals, i, vals.len());
    member_list::law_list_is_the_claims_and_the_hidden_rest(e, vals);
}

/// The groups of the law are those by which members are listed.
proof fn lemma_groups(v: ModuleMemberValModel, w: ModuleMemberValModel)
    ensures
        member_list::same_claim(v, w) == in_group(v, w),
        member_list::source_name_of(v) == renamed(v),
{
}

/// A value that claims a method is listed as that method, with what the values of its
/// group say of it. It is an augmentation for certain if all of them are members with the
/// extension flag, and else what the metadata says; it is an extension method if the
/// metadata says so or all of them are instance extensions; it has the F# name and the
/// place of declaration that all of them have, and none where they differ; and it is a
/// value binding if the value takes no arguments. All else is as in the metadata.
pub proof fn law_a_listed_method_has_the_facts_of_its_group(
    e: EntityModel,
    vals: Seq<ModuleMemberValModel>,
    i: nat,
)
    requires
        i < vals.len(),
        !vals[i as int].is_literal,
        member_list::claim(e, vals, i) is Some,
    ensures
        claims_before(e, vals, i) < member_list::rebuilt(e, vals).members.len(),
        ({
            let v = vals[i as int];
            let k = member_list::claim(e, vals, i)->0;
            let old = e.members[k];
            let new = member_list::rebuilt(e, vals).members[claims_before(e, vals, i) as int];
            &&& 0 <= k < e.members.len()
            &&& old is Method
            &&& new is Method
            &&& {
                let (a, b) = (old->Method_0, new->Method_0);
                &&& (forall|j: int|
                    0 <= j < vals.len() && in_group(v, #[trigger] vals[j]) ==> vals[j].is_member
                        && vals[j].is_extension) ==> b.augmentation == Augmentation::Certain
                &&& (exists|j: int|
                    0 <= j < vals.len() && in_group(v, #[trigger] vals[j]) && !(vals[j].is_member
                        && vals[j].is_extension)) ==> b.augmentation == a.augmentation
                &&& b.is_extension_method == (a.is_extension_method || (forall|j: int|
                    0 <= j < vals.len() && in_group(v, #[trigger] vals[j]) ==> vals[j].is_instance
                        && vals[j].is_extension))
                &&& (forall|j: int|
                    0 <= j < vals.len() && in_group(v, #[trigger] vals[j]) ==> renamed(vals[j])
                        == renamed(v)) ==> b.source_name == renamed(v)
                &&& (exists|j: int|
                    0 <= j < vals.len() && in_group(v, #[trigger] vals[j]) && renamed(vals[j])
                        != renamed(v)) ==> b.source_name is None
                &&& (forall|j: int|
                    0 <= j < vals.len() && in_group(v, #[trigger] vals[j])
                        ==> vals[j].definition_range == v.definition_range) ==> b.definition_range
                    == v.definition_range
                &&& (exists|j: int|
                    0 <= j < vals.len() && in_group(v, #[trigger] vals[j])
                        && vals[j].definition_range != v.definition_range)
                    ==> b.definition_range is None
                &&& b.is_module_value_binding == (v.arg_group_count == Some(0usize))
                &&& b == (MethodLikeModel {
                    augmentation: b.augmentation,
                    is_extension_method: b.is_extension_method,
                    source_name: b.source_name,
                    definition_range: b.definition_range,
                    is_module_value_binding: b.is_module_value_binding,
                    ..a
                })
            }
        }),
{
    let v = vals[i as int];
    lemma_projected(e, vals, i);
    member_list::law_a_claim_is_a_member_that_is_left(e, vals, i);
    assert forall|j: int| 0 <= j < vals.len() implies member_list::same_claim(
        v,
        #[trigger] vals[j],
    ) == in_group(v, vals[j]) && member_list::source_name_of(vals[j]) == renamed(vals[j]) by {
        lemma_groups(v, vals[j]);
        lemma_groups(vals[j], v);
    }
}

/// Every listed method that no value claims keeps its augmentation, and all its other
/// facts: behind the claimed members stand members of the metadata as they are, none of
/// them public, and each that is neither claimed nor public stands there.
pub proof fn law_what_is_not_claimed_stays_as_it_is(
    e: EntityModel,
    vals: Seq<ModuleMemberValModel>,
)
    ensures
        ({
            let n = claims_before(e, vals, vals.len()) as int;
            let new = member_list::rebuilt(e, vals).members;
            &&& n <= new.len()
            &&& forall|j: int|
                n <= j < new.len() ==> exists|k: int|
                    0 <= k < e.members.len() && #[trigger] e.members[k] == #[trigger] new[j]
                        && is_left(e, vals, vals.len(), k) && member_list::member_access(new[j])
                        != Access::Public
            &&& forall|k: int|
                0 <= k < e.members.len() && is_left(e, vals, vals.len(), k)
                    && member_list::member_access(#[trigger] e.members[k]) != Access::Public
                    ==> exists|j: int| n <= j < new.len() && #[trigger] new[j] == e.members[k]
        }),
{
    let n = claims_before(e, vals, vals.len()) as int;
    let rest = member_list::hidden_leftovers(e, vals, e.members.len());
    let new = member_list::rebuilt(e, vals).members;
    lemma_as_many(e, vals, vals.len());
    member_list::law_list_is_the_claims_and_the_hidden_rest(e, vals);
    lemma_rest(e, vals, e.members.len());
    assert forall|j: int| n <= j < new.len() implies exists|k: int|
        0 <= k < e.members.len() && #[trigger] e.members[k] == #[trigger] new[j] && is_left(
            e,
            vals,
            vals.len(),
            k,
        ) && member_list::member_access(new[j]) != Access::Public by {
        assert(new[j] == rest[j - n]);
        let k = choose|k: int|
            0 <= k < e.members.len() && #[trigger] e.members[k] == rest[j - n] && is_left(
                e,
                vals,
                vals.len(),
                k,
            ) && member_list::member_access(rest[j - n]) != Access::Public;
        assert(e.members[k] == new[j]);
    }
    assert forall|k: int|
        0 <= k < e.members.len() && is_left(e, vals, vals.len(), k) && member_list::member_access(
            #[trigger] e.members[k],
        ) != Access::Public implies exists|j: int|
        n <= j < new.len() && #[trigger] new[j] == e.members[k] by {
        let j = choose|j: int| 0 <= j < rest.len() && #[trigger] rest[j] == e.members[k];
        assert(new[n + j] == e.members[k]);
    }
}

/// What the hidden rest of the first `n` members holds.
proof fn lemma_rest(e: EntityModel, vals: Seq<ModuleMemberValModel>, n: nat)
    requires
        n <= e.members.len(),
    ensures
        ({
            let rest = member_list::hidden_leftovers(e, vals, n);
            &&& forall|j: int|
                0 <= j < rest.len() ==> exists|k: int|
                    0 <= k < n && #[trigger] e.members[k] == #[trigger] rest[j] && is_left(
                        e,
                        vals,
                        vals.len(),
                        k,
                    ) && member_list::member_access(rest[j]) != Access::Public
            &&& forall|k: int|
                0 <= k < n && is_left(e, vals, vals.len(), k) && member_list::member_access(
                    #[trigger] e.members[k],
                ) != Access::Public ==> exists|j: int|
                    0 <= j < rest.len() && #[trigger] rest[j] == e.members[k]
        }),
    decreases n,
{
    if n > 0 {
        let m = (n - 1) as nat;
        lemma_rest(e, vals, m);
        let before = member_list::hidden_leftovers(e, vals, m);
        let rest = member_list::hidden_leftovers(e, vals, n);
        let x = e.members[m as int];
        assert(is_left(e, vals, vals.len(), m as int) == !member_list::claimed_by(
            e,
            vals,
            vals.len(),
            m as int,
        ));
        assert forall|j: int| 0 <= j < rest.len() implies exists|k: int|
            0 <= k < n && #[trigger] e.members[k] == #[trigger] rest[j] && is_left(
                e,
                vals,
                vals.len(),
                k,
            ) && member_list::member_access(rest[j]) != Access::Public by {
            if j < before.len() {
                assert(rest[j] == before[j]);
                let k = choose|k: int|
                    0 <= k < m && #[trigger] e.members[k] == before[j] && is_left(
                        e,
                        vals,
                        vals.len(),
                        k,
                    ) && member_list::member_access(before[j]) != Access::Public;
                assert(e.members[k] == rest[j]);
            } else {
                assert(e.members[m as int] == rest[j]);
            }
        }
        assert forall|k: int|
            0 <= k < n && is_left(e, vals, vals.len(), k) && member_list::member_access(
                #[trigger] e.members[k],
            ) != Access::Public implies exists|j: int|
            0 <= j < rest.len() && #[trigger] rest[j] == e.members[k] by {
            if k < m {
                let j = choose|j: int| 0 <= j < before.len() && #[trigger] before[j] == e.members[k];
                assert(rest[j] == e.members[k]);
            } else {
                assert(rest[before.len() as int] == x);
            }
        }
    }
}

/// A literal claims the first field of its name that is left, unless it is renamed, and is
/// listed as that field.
pub proof fn law_a_literal_claims_the_first_field_of_its_name(
    e: EntityModel,
    vals: Seq<ModuleMemberValModel>,
    i: nat,
)
    requires
        i < vals.len(),
        vals[i as int].is_literal,
    ensures
        match member_list::claim(e, vals, i) {
            Some(k) => {
                &&& renamed(vals[i as int]) is None
                &&& 0 <= k < e.members.len()
                &&& is_left(e, vals, i, k)
                &&& e.members[k] is Field
                &&& e.members[k]->Field_0.name == compiled(vals[i as int])
                &&& forall|j: int|
                    0 <= j < k && is_left(e, vals, i, j) ==> !((#[trigger] e.members[j]) is Field
                        && e.members[j]->Field_0.name == compiled(vals[i as int]))
                &&& claims_before(e, vals, i) < member_list::rebuilt(e, vals).members.len()
                &&& member_list::rebuilt(e, vals).members[claims_before(e, vals, i) as int]
                    == e.members[k]
            },
            None => renamed(vals[i as int]) is Some || forall|j: int|
                0 <= j < e.members.len() && is_left(e, vals, i, j) ==> !((
                #[trigger] e.members[j]) is Field && e.members[j]->Field_0.name == compiled(
                    vals[i as int],
                )),
        },
{
    let v = vals[i as int];
    let pool = member_list::pool_after(e, vals, i);
    let p = member_list::field_slot(v.il_name());
    member_list::lemma_pool(e, vals, i);
    lookup::lemma_first_found(pool, 0, p);
    lemma_groups(v, v);
    lemma_left(e, vals, i);
    if member_list::claim(e, vals, i) is Some {
        lemma_projected(e, vals, i);
        let k = member_list::claim(e, vals, i)->0;
        assert forall|j: int| 0 <= j < k && is_left(e, vals, i, j) implies !((
        #[trigger] e.members[j]) is Field && e.members[j]->Field_0.name == compiled(v)) by {
            lookup::lemma_not_before(pool, 0, p, j);
            assert(pool[j] == Some(e.members[j]));
        }
    } else if renamed(v) is None {
        assert forall|j: int| 0 <= j < e.members.len() && is_left(e, vals, i, j) implies !((
        #[trigger] e.members[j]) is Field && e.members[j]->Field_0.name == compiled(v)) by {
            assert(!p(pool[j]));
            assert(pool[j] == Some(e.members[j]));
        }
    }
}

/// The pool holds what is left.
proof fn lemma_left(e: EntityModel, vals: Seq<ModuleMemberValModel>, i: nat)
    ensures
        member_list::pool_after(e, vals, i).len() == e.members.len(),
        forall|k: int|
            0 <= k < e.members.len() ==> (#[trigger] member_list::pool_after(e, vals, i)[k] == Some(
                e.members[k],
            )) == is_left(e, vals, i, k),
        forall|k: int|
            0 <= k < e.members.len() && !is_left(e, vals, i, k)
                ==> #[trigger] member_list::pool_after(e, vals, i)[k] is None,
{
    member_list::lemma_pool(e, vals, i);
}

/// A method that is left and that can be what the value was compiled to, as public as the
/// value.
pub open spec fn matches(
    e: EntityModel,
    vals: Seq<ModuleMemberValModel>,
    i: nat,
    k: int,
    as_public: bool,
) -> bool {
    &&& 0 <= k < e.members.len()
    &&& is_left(e, vals, i, k)
    &&& can_be(e.members[k], vals[i as int])
    &&& as_public ==> (e.members[k]->Method_0.access == Access::Public)
        == vals[i as int].is_public
}

/// Which method a value claims, that is no literal and of which it is known what it was
/// compiled to: the first that it can be and that is as public as the value, and if there
/// is none, the first that it can be; it claims none only if it can be none.
pub proof fn law_a_value_claims_the_first_method_that_it_can_be(
    e: EntityModel,
    vals: Seq<ModuleMemberValModel>,
    i: nat,
)
    requires
        i < vals.len(),
        !vals[i as int].is_literal,
        is_property(vals[i as int]) || is_method(vals[i as int]),
    ensures
        match member_list::claim(e, vals, i) {
            Some(k) => {
                ||| matches(e, vals, i, k, true) && forall|j: int|
                    0 <= j < k ==> !#[trigger] matches(e, vals, i, j, true)
                ||| matches(e, vals, i, k, false) && (forall|j: int|
                    !#[trigger] matches(e, vals, i, j, true)) && forall|j: int|
                    0 <= j < k ==> !#[trigger] matches(e, vals, i, j, false)
            },
            None => forall|j: int| !#[trigger] matches(e, vals, i, j, false),
        },
{
    let v = vals[i as int];
    let pool = member_list::pool_after(e, vals, i);
    let shape = member_list::shape_of(v);
    let p = member_list::method_slot(v.il_name(), shape, Some(v.is_public));
    let q = member_list::method_slot(v.il_name(), shape, None);
    lemma_left(e, vals, i);
    assert forall|j: int| 0 <= j < pool.len() implies #[trigger] p(pool[j]) == matches(
        e,
        vals,
        i,
        j,
        true,
    ) && q(pool[j]) == matches(e, vals, i, j, false) by {
        if is_left(e, vals, i, j) {
            assert(pool[j] == Some(e.members[j]));
        } else {
            assert(pool[j] is None);
        }
    }
    lookup::lemma_first_found(pool, 0, p);
    lookup::lemma_first_found(pool, 0, q);
    if let Some(k) = lookup::first_from(pool, 0, p) {
        assert forall|j: int| 0 <= j < k implies !#[trigger] matches(e, vals, i, j, true) by {
            lookup::lemma_not_before(pool, 0, p, j);
            assert(p(pool[j]) == matches(e, vals, i, j, true));
        }
        assert(p(pool[k]) == matches(e, vals, i, k, true));
    } else {
        assert forall|j: int| !#[trigger] matches(e, vals, i, j, true) by {
            if 0 <= j < pool.len() {
                assert(!p(pool[j]));
            }
        }
        if let Some(k) = lookup::first_from(pool, 0, q) {
            assert(p(pool[k]) == matches(e, vals, i, k, true) && q(pool[k]) == matches(
                e,
                vals,
                i,
                k,
                false,
            ));
            assert forall|j: int| 0 <= j < k implies !#[trigger] matches(e, vals, i, j, false) by {
                lookup::lemma_not_before(pool, 0, q, j);
                assert(p(pool[j]) == matches(e, vals, i, j, true) && q(pool[j]) == matches(
                    e,
                    vals,
                    i,
                    j,
                    false,
                ));
            }
        } else {
            assert forall|j: int| !#[trigger] matches(e, vals, i, j, false) by {
                if 0 <= j < pool.len() {
                    assert(!q(pool[j]));
                    assert(p(pool[j]) == matches(e, vals, i, j, true));
                }
            }
        }
    }
}

/// An element that satisfies `p` is counted, and a second one too.
proof fn lemma_counted<T>(s: Seq<T>, i: int, p: spec_fn(T) -> bool, j: int, k: int)
    requires
        0 <= i <= j,
        j <= k < s.len(),
        p(s[j]),
        p(s[k]),
    ensures
        lookup::count_from(s, i, p) >= (if j < k {
            2nat
        } else {
            1
        }),
    decreases s.len() - i,
{
    if i < j {
        lemma_counted(s, i + 1, p, j, k);
    } else if j < k {
        lemma_counted(s, i + 1, p, k, k);
    }
}

/// At most one element is counted where no two satisfy `p`.
proof fn lemma_counted_once<T>(s: Seq<T>, i: int, p: spec_fn(T) -> bool)
    requires
        0 <= i,
        lookup::count_from(s, i, p) != 1,
    ensures
        lookup::count_from(s, i, p) == 0 ==> forall|j: int| i <= j < s.len() ==> !p(#[trigger] s[j]),
        lookup::count_from(s, i, p) > 1 ==> exists|j: int, k: int|
            i <= j < k < s.len() && p(#[trigger] s[j]) && p(#[trigger] s[k]),
    decreases s.len() - i,
{
    if i < s.len() {
        if lookup::count_from(s, i + 1, p) != 1 {
            lemma_counted_once(s, i + 1, p);
            if lookup::count_from(s, i + 1, p) > 1 {
                let (j, k) = choose|j: int, k: int|
                    i + 1 <= j < k < s.len() && p(#[trigger] s[j]) && p(#[trigger] s[k]);
                assert(p(s[j]) && p(s[k]));
            }
        } else {
            let k = lookup::first_from(s, i + 1, p);
            lookup::lemma_first_found(s, i + 1, p);
            lemma_some(s, i + 1, p);
            assert(p(s[i]) && p(s[k->0]));
        }
    }
}

/// Where one is counted, one is found.
proof fn lemma_some<T>(s: Seq<T>, i: int, p: spec_fn(T) -> bool)
    requires
        0 <= i,
        lookup::count_from(s, i, p) > 0,
    ensures
        lookup::first_from(s, i, p) is Some,
    decreases s.len() - i,
{
    if i < s.len() && !p(s[i]) {
        lemma_some(s, i + 1, p);
    }
}

/// A value of which it is not known what it was compiled to claims the method of its name
/// if and only if exactly one is left.
pub proof fn law_an_unknown_value_claims_the_one_method_of_its_name(
    e: EntityModel,
    vals: Seq<ModuleMemberValModel>,
    i: nat,
)
    requires
        i < vals.len(),
        !vals[i as int].is_literal,
        !is_property(vals[i as int]),
        !is_method(vals[i as int]),
    ensures
        match member_list::claim(e, vals, i) {
            Some(k) => matches(e, vals, i, k, false) && forall|j: int|
                #[trigger] matches(e, vals, i, j, false) ==> j == k,
            None => (forall|j: int| !#[trigger] matches(e, vals, i, j, false)) || exists|
                j: int,
                k: int,
            |
                j < k && #[trigger] matches(e, vals, i, j, false) && #[trigger] matches(
                    e,
                    vals,
                    i,
                    k,
                    false,
                ),
        },
{
    let v = vals[i as int];
    let pool = member_list::pool_after(e, vals, i);
    let shape = member_list::shape_of(v);
    let q = member_list::method_slot(v.il_name(), shape, None);
    lemma_left(e, vals, i);
    assert forall|j: int| 0 <= j < pool.len() implies #[trigger] q(pool[j]) == matches(
        e,
        vals,
        i,
        j,
        false,
    ) by {
        if is_left(e, vals, i, j) {
            assert(pool[j] == Some(e.members[j]));
        } else {
            assert(pool[j] is None);
        }
    }
    lookup::lemma_first_found(pool, 0, q);
    if lookup::count_from(pool, 0, q) == 1 {
        lemma_some(pool, 0, q);
        let k = lookup::first_from(pool, 0, q)->0;
        assert(q(pool[k]));
        assert forall|j: int| #[trigger] matches(e, vals, i, j, false) implies j == k by {
            assert(q(pool[j]));
            if j < k {
                lemma_counted(pool, 0, q, j, k);
            }
            if k < j {
                lemma_counted(pool, 0, q, k, j);
            }
        }
    } else {
        lemma_counted_once(pool, 0, q);
        if lookup::count_from(pool, 0, q) == 0 {
            assert forall|j: int| !#[trigger] matches(e, vals, i, j, false) by {
                if 0 <= j < pool.len() {
                    assert(!q(pool[j]));
                }
            }
        } else {
            let (j, k) = choose|j: int, k: int|
                0 <= j < k < pool.len() && q(#[trigger] pool[j]) && q(#[trigger] pool[k]);
            assert(matches(e, vals, i, j, false) && matches(e, vals, i, k, false));
        }
    }
}

/// The targets from `i` on leave a module that none of them names.
proof fn lemma_not_named(
    es: Seq<EntityModel>,
    targets: Seq<ModuleMemberTargetModel>,
    i: nat,
    namespace: Seq<Seq<char>>,
    chain: Seq<Seq<char>>,
)
    requires
        forall|j: int|
            i <= j < targets.len() ==> !((#[trigger] targets[j]).namespace == namespace
                && targets[j].type_chain == chain),
        lookup::get(es, namespace, chain) is Some,
    ensures
        ({
            let after = lookup::get(
                member_list::member_lists_from(es, targets, i),
                namespace,
                chain,
            );
            after is Some && frame::bare(after->0) == frame::bare(
                lookup::get(es, namespace, chain)->0,
            )
        }),
    decreases targets.len() - i,
{
    if i < targets.len() {
        let t = targets[i as int];
        let next = member_list::with_member_list(es, t);
        if let Some(e) = lookup::get(es, t.namespace, t.type_chain) {
            if e.kind == EntityKind::Module {
                steps::law_put_elsewhere(
                    es,
                    t.namespace,
                    t.type_chain,
                    member_list::rebuilt(e, t.vals),
                    namespace,
                    chain,
                );
            }
        }
        lemma_not_named(next, targets, i + 1, namespace, chain);
    }
}

/// In the projected tree, a module that one target alone names has the member list that
/// the values of that target make of its members, and its other facts as before.
pub proof fn law_a_described_module_is_rebuilt(
    es: Seq<EntityModel>,
    targets: Seq<ModuleMemberTargetModel>,
    i: nat,
    k: int,
)
    requires
        i <= k < targets.len(),
        forall|j: int|
            i <= j < targets.len() && j != k ==> !((#[trigger] targets[j]).namespace
                == targets[k].namespace && targets[j].type_chain == targets[k].type_chain),
        lookup::get(es, targets[k].namespace, targets[k].type_chain) is Some,
        lookup::get(es, targets[k].namespace, targets[k].type_chain)->0.kind == EntityKind::Module,
    ensures
        ({
            let t = targets[k];
            let e = lookup::get(es, t.namespace, t.type_chain)->0;
            let after = lookup::get(
                member_list::member_lists_from(es, targets, i),
                t.namespace,
                t.type_chain,
            );
            after is Some && frame::bare(after->0) == frame::bare(member_list::rebuilt(e, t.vals))
        }),
    decreases targets.len() - i,
{
    let t = targets[i as int];
    let next = member_list::with_member_list(es, t);
    let (n, c) = (targets[k].namespace, targets[k].type_chain);
    if i == k {
        let e = lookup::get(es, n, c)->0;
        lookup::lemma_get_is_called(es, n, c);
        lookup::law_get_put(es, n, c, member_list::rebuilt(e, t.vals));
        lemma_not_named(next, targets, i + 1, n, c);
    } else {
        if let Some(e) = lookup::get(es, t.namespace, t.type_chain) {
            if e.kind == EntityKind::Module {
                steps::law_put_elsewhere(
                    es,
                    t.namespace,
                    t.type_chain,
                    member_list::rebuilt(e, t.vals),
                    n,
                    c,
                );
            }
        }
        law_a_described_module_is_rebuilt(next, targets, i + 1, k);
        let before = lookup::get(es, n, c)->0;
        let now = lookup::get(next, n, c)->0;
        assert(frame::bare(before).members == frame::bare(now).members);
        assert(frame::bare(before).kind == frame::bare(now).kind);
        lemma_rebuilt_of_bare(before, now, targets[k].vals);
    }
}

/// Entities with the same facts are rebuilt to entities with the same facts.
proof fn lemma_rebuilt_of_bare(
    a: EntityModel,
    b: EntityModel,
    vals: Seq<ModuleMemberValModel>,
)
    requires
        frame::bare(a) == frame::bare(b),
    ensures
        frame::bare(member_list::rebuilt(a, vals)) == frame::bare(member_list::rebuilt(b, vals)),
{
    assert(frame::bare(a).members == frame::bare(b).members);
    assert(frame::bare(a).skipped_members == frame::bare(b).skipped_members);
    assert(member_list::unclaimed(a) == member_list::unclaimed(b));
    let list = member_list::leftovers_from(
        member_list::claims_from(member_list::unclaimed(a), vals, 0),
        0,
    );
    assert(frame::bare(member_list::rebuilt(a, vals)) == (EntityModel {
        members: list.members,
        skipped_members: list.skipped,
        ..frame::bare(a)
    }));
    assert(frame::bare(member_list::rebuilt(b, vals)) == (EntityModel {
        members: list.members,
        skipped_members: list.skipped,
        ..frame::bare(b)
    }));
}

} // verus!
