//! What the findings of a comparison tell, in terms of the two trees.
use crate::fsharp_pickle_merge::member_list;
use crate::model::{EntityModel, MemberModel};
use crate::modifier_metamorphic::compare;
use crate::modifier_metamorphic::compare::FindingModel;
use crate::selection;
use vstd::prelude::*;

verus! {

/// The name of a member.
pub open spec fn name_of(m: MemberModel) -> Seq<char> {
    match m {
        MemberModel::Method(x) => x.name,
        MemberModel::Field(x) => x.name,
        MemberModel::Property(x) => x.name,
        MemberModel::Event(x) => x.name,
    }
}

/// No member of the other list has the name of this one.
pub open spec fn is_lost(ms: Seq<MemberModel>, others: Seq<MemberModel>) -> spec_fn(int) -> bool {
    |j: int|
        forall|i: int| 0 <= i < others.len() ==> name_of(#[trigger] others[i]) != name_of(ms[j])
}

/// The name of a member by its place.
pub open spec fn name_at(ms: Seq<MemberModel>) -> spec_fn(int) -> Seq<char> {
    |j: int| name_of(ms[j])
}

proof fn lemma_names(m: MemberModel)
    ensures
        member_list::member_name(m) == name_of(m),
{
}

proof fn lemma_lost(ms: Seq<MemberModel>, others: Seq<MemberModel>, n: nat)
    requires
        n <= ms.len(),
    ensures
        compare::lost_from(
            ms,
            others,
            n,
            selection::made(selection::picked(n, is_lost(ms, others)), name_at(ms)),
        ) == selection::made(selection::picked(ms.len(), is_lost(ms, others)), name_at(ms)),
    decreases ms.len() - n,
{
    if n < ms.len() {
        let p = is_lost(ms, others);
        selection::lemma_made_next(n, p, name_at(ms));
        let name = name_of(ms[n as int]);
        assert(compare::has_member(others, name) <==> !p(n as int)) by {
            if compare::has_member(others, name) {
                let i = choose|i: int|
                    0 <= i < others.len() && member_list::member_name(#[trigger] others[i])
                        == name;
                assert(name_of(others[i]) == name);
            }
            if !p(n as int) {
                let i = choose|i: int|
                    0 <= i < others.len() && name_of(#[trigger] others[i]) == name;
                assert(member_list::member_name(others[i]) == name);
            }
        }
        lemma_lost(ms, others, n + 1);
    }
}

/// The dropped members are those whose name no member of the other list has, in their
/// order.
pub proof fn law_dropped_members_are_those_without_a_namesake(
    ms: Seq<MemberModel>,
    others: Seq<MemberModel>,
)
    ensures
        selection::is_selection(
            compare::lost_from(ms, others, 0, Seq::empty()),
            ms.len() as int,
            is_lost(ms, others),
            name_at(ms),
        ),
{
    let p = is_lost(ms, others);
    assert(selection::made(selection::picked(0, p), name_at(ms)) =~= Seq::empty());
    lemma_lost(ms, others, 0);
    selection::lemma_is_selection(ms.len(), p, name_at(ms));
}

proof fn lemma_moved(b: Seq<MemberModel>, d: Seq<MemberModel>, j: nat)
    requires
        b.len() == d.len(),
        j <= b.len(),
        forall|i: int| 0 <= i < j ==> #[trigger] b[i] == d[i],
    ensures
        match compare::moved_from(b, d, j) {
            Some(m) => m < b.len() && b[m as int] != d[m as int] && forall|i: int|
                0 <= i < m ==> #[trigger] b[i] == d[i],
            None => forall|i: int| 0 <= i < b.len() ==> #[trigger] b[i] == d[i],
        },
    decreases b.len() - j,
{
    if j < b.len() && b[j as int] == d[j as int] {
        lemma_moved(b, d, j + 1);
    }
}

/// What is found of two entities by themselves: other numbers of members, with both
/// numbers; or else the first member that differs, with both forms of it; or else the
/// skipped members; or else what is left of the entities; or nothing, where the members and
/// the skipped members are the same.
#[verifier::spinoff_prover]
#[verifier::rlimit(40)]
pub proof fn law_the_first_difference_is_found(b: EntityModel, d: EntityModel, here: Seq<char>)
    ensures
        match compare::own_difference(b, d, here) {
            Some(FindingModel::MemberCountMoved { path, baseline, decorated, dropped }) => {
                &&& path == here
                &&& baseline == b.members.len() && decorated == d.members.len()
                &&& baseline != decorated
            },
            Some(FindingModel::MemberMoved { path, baseline, decorated }) => {
                &&& b.members.len() == d.members.len()
                &&& exists|m: int|
                    0 <= m < b.members.len() && baseline == #[trigger] b.members[m] && decorated
                        == d.members[m] && baseline != decorated && path == here + "."@ + name_of(
                        b.members[m],
                    ) && forall|i: int| 0 <= i < m ==> #[trigger] b.members[i] == d.members[i]
            },
            Some(FindingModel::SkippedMembersMoved { path, baseline, decorated }) => {
                &&& b.members == d.members
                &&& path == here
                &&& baseline == b.skipped_members && decorated == d.skipped_members
                &&& baseline != decorated
            },
            Some(FindingModel::TypeMoved { path, baseline, decorated }) => {
                &&& b.members == d.members && b.skipped_members == d.skipped_members
                &&& path == here
                &&& baseline != decorated
                &&& baseline.name == b.name && decorated.name == d.name
                &&& baseline.kind == b.kind && decorated.kind == d.kind
            },
            Some(_) => false,
            None => b.members == d.members && b.skipped_members == d.skipped_members,
        },
{
    if b.members.len() == d.members.len() {
        lemma_moved(b.members, d.members, 0);
        match compare::moved_from(b.members, d.members, 0) {
            Some(m) => {
                assert(b.members[m as int] != d.members[m as int]);
            },
            None => {
                assert(b.members =~= d.members);
            },
        }
    }
}

} // verus!
