//! Comparing two projections.
use crate::error::{Fault, ImportError};
use crate::fsharp_pickle_merge::member_list;
use crate::model::{
    AssemblyProjectionSkips, AssemblyProjectionSkipsModel, Entity, EntityModel, Member,
    MemberModel, MethodLike, MethodLikeModel, SkippedMember, SkippedMemberModel, TypeParameter,
    TypeParameterModel,
};
use crate::same::{Duplicate, Same};
use crate::text;
use crate::text::{join_text, push_decimal};
use vstd::prelude::*;
use vstd::string::*;

verus! {

/// A way in which a projection moved, or did not move as it should have.
#[derive(Debug, PartialEq, Eq)]
#[allow(inconsistent_fields)]
pub enum Finding {
    /// An optional modifier made the whole projection fail.
    ProjectionFailed { error: ImportError },
    /// A member is left although its signature carries a required modifier.
    MemberSurvived { member: String },
    /// A type is left although its base type, an interface or a constraint carries a
    /// required modifier.
    TypeSurvived { name: String },
    /// A type is left although a constraint carries a required modifier.
    ConstrainedTypeSurvived { name: String },
    /// A method is left although a constraint carries a required modifier.
    ConstrainedMethodSurvived { method: String },
    /// The number of types changed.
    TypeCountMoved { path: String, baseline: usize, decorated: usize },
    /// The number of members of a type changed.
    MemberCountMoved { path: String, baseline: usize, decorated: usize, dropped: Vec<String> },
    /// A member changed.
    MemberMoved { path: String, baseline: Member, decorated: Member },
    /// The records of skipped members changed.
    SkippedMembersMoved {
        path: String,
        baseline: Vec<SkippedMember>,
        decorated: Vec<SkippedMember>,
    },
    /// A type changed in something else than its members and nested types.
    TypeMoved { path: String, baseline: Entity, decorated: Entity },
    /// What was left out of the whole assembly changed.
    SkipsMoved { baseline: AssemblyProjectionSkips, decorated: AssemblyProjectionSkips },
}

/// The model of a [`Finding`].
#[allow(inconsistent_fields)]
pub enum FindingModel {
    ProjectionFailed { error: Fault },
    MemberSurvived { member: Seq<char> },
    TypeSurvived { name: Seq<char> },
    ConstrainedTypeSurvived { name: Seq<char> },
    ConstrainedMethodSurvived { method: Seq<char> },
    TypeCountMoved { path: Seq<char>, baseline: nat, decorated: nat },
    MemberCountMoved {
        path: Seq<char>,
        baseline: nat,
        decorated: nat,
        dropped: Seq<Seq<char>>,
    },
    MemberMoved { path: Seq<char>, baseline: MemberModel, decorated: MemberModel },
    SkippedMembersMoved {
        path: Seq<char>,
        baseline: Seq<SkippedMemberModel>,
        decorated: Seq<SkippedMemberModel>,
    },
    TypeMoved { path: Seq<char>, baseline: EntityModel, decorated: EntityModel },
    SkipsMoved {
        baseline: AssemblyProjectionSkipsModel,
        decorated: AssemblyProjectionSkipsModel,
    },
}

impl DeepView for Finding {
    type V = FindingModel;

    open spec fn deep_view(&self) -> FindingModel {
        match self {
            Finding::ProjectionFailed { error } => FindingModel::ProjectionFailed {
                error: error.deep_view(),
            },
            Finding::MemberSurvived { member } => FindingModel::MemberSurvived {
                member: member@,
            },
            Finding::TypeSurvived { name } => FindingModel::TypeSurvived { name: name@ },
            Finding::ConstrainedTypeSurvived { name } => FindingModel::ConstrainedTypeSurvived {
                name: name@,
            },
            Finding::ConstrainedMethodSurvived { method } => {
                FindingModel::ConstrainedMethodSurvived { method: method@ }
            },
            Finding::TypeCountMoved { path, baseline, decorated } => {
                FindingModel::TypeCountMoved {
                    path: path@,
                    baseline: *baseline as nat,
                    decorated: *decorated as nat,
                }
            },
            Finding::MemberCountMoved { path, baseline, decorated, dropped } => {
                FindingModel::MemberCountMoved {
                    path: path@,
                    baseline: *baseline as nat,
                    decorated: *decorated as nat,
                    dropped: dropped.deep_view(),
                }
            },
            Finding::MemberMoved { path, baseline, decorated } => FindingModel::MemberMoved {
                path: path@,
                baseline: baseline.deep_view(),
                decorated: decorated.deep_view(),
            },
            Finding::SkippedMembersMoved { path, baseline, decorated } => {
                FindingModel::SkippedMembersMoved {
                    path: path@,
                    baseline: baseline.deep_view(),
                    decorated: decorated.deep_view(),
                }
            },
            Finding::TypeMoved { path, baseline, decorated } => FindingModel::TypeMoved {
                path: path@,
                baseline: baseline.deep_view(),
                decorated: decorated.deep_view(),
            },
            Finding::SkipsMoved { baseline, decorated } => FindingModel::SkipsMoved {
                baseline: baseline.deep_view(),
                decorated: decorated.deep_view(),
            },
        }
    }
}

/// The entity and everything below it, each entity before what is nested in it.
pub open spec fn flat_of(e: EntityModel) -> Seq<EntityModel>
    decreases e,
{
    seq![e] + flat_from(e.nested_types, 0)
}

/// The entities from the `i`-th on and everything below them.
pub open spec fn flat_from(es: Seq<EntityModel>, i: nat) -> Seq<EntityModel>
    decreases es, es.len() - i,
{
    if i >= es.len() {
        Seq::empty()
    } else {
        flat_of(es[i as int]) + flat_from(es, i + 1)
    }
}

/// The entities of a tree, each before what is nested in it.
pub open spec fn flat(es: Seq<EntityModel>) -> Seq<EntityModel> {
    flat_from(es, 0)
}

/// What is counted of the entities of a tree.
#[derive(Debug, Clone, Copy, PartialEq, Eq, Structural)]
pub enum Counted {
    Types,
    Members,
    SkippedMembers,
}

/// How much an entity counts by itself.
pub open spec fn weight(e: EntityModel, what: Counted) -> nat {
    match what {
        Counted::Types => 1,
        Counted::Members => e.members.len(),
        Counted::SkippedMembers => e.skipped_members.len(),
    }
}

/// How much the entities from the `i`-th on count together.
pub open spec fn total_from(es: Seq<EntityModel>, i: nat, what: Counted) -> nat
    decreases es.len() - i,
{
    if i >= es.len() {
        0
    } else {
        weight(es[i as int], what) + total_from(es, i + 1, what)
    }
}

/// How much the entities of a tree count together, as far as a `usize` can count.
pub open spec fn counted(es: Seq<EntityModel>, what: Counted) -> usize {
    (total_from(flat(es), 0, what) as int % (usize::MAX + 1)) as usize
}

/// The full name of an entity.
pub open spec fn fqn_of(e: EntityModel) -> Seq<char> {
    if e.namespace.len() == 0 {
        e.name
    } else {
        text::join(e.namespace, "."@) + "."@ + e.name
    }
}

/// The identity of a type: its full name, which does not tell the number of type
/// parameters, and that number.
pub open spec fn type_key_of(e: EntityModel) -> Seq<char> {
    fqn_of(e) + "`"@ + text::decimal(e.generic_parameters.len())
}

/// The name of a member of an entity.
pub open spec fn qualified(e: EntityModel, name: Seq<char>) -> Seq<char> {
    fqn_of(e) + "."@ + name
}

/// Some entity of those in `es` has the identity `key`.
pub open spec fn has_type(es: Seq<EntityModel>, key: Seq<char>) -> bool {
    exists|i: int| 0 <= i < es.len() && type_key_of(#[trigger] es[i]) == key
}

/// The methods are the same but for what a constraint can change: their name, their
/// signature and the number of their type parameters are.
pub open spec fn same_method(a: MethodLikeModel, b: MethodLikeModel) -> bool {
    a.name == b.name && a.signature == b.signature && a.generic_parameters.len()
        == b.generic_parameters.len()
}

/// Some member of `e` is the method `m`.
pub open spec fn declares(e: EntityModel, m: MethodLikeModel) -> bool {
    exists|j: int|
        0 <= j < e.members.len() && match #[trigger] e.members[j] {
            MemberModel::Method(n) => same_method(m, n),
            _ => false,
        }
}

/// Some type of `es` with the identity `key` declares the method.
pub open spec fn has_method(es: Seq<EntityModel>, key: Seq<char>, m: MethodLikeModel) -> bool {
    exists|i: int|
        0 <= i < es.len() && type_key_of(#[trigger] es[i]) == key && declares(es[i], m)
}

/// The type parameter has a constraint that is written as a type.
pub open spec fn is_constrained(p: TypeParameterModel) -> bool {
    p.type_constraints.len() > 0 || p.is_unmanaged
}

/// Some type parameter of these has a constraint that is written as a type.
pub open spec fn any_constrained(ps: Seq<TypeParameterModel>) -> bool {
    exists|i: int| 0 <= i < ps.len() && is_constrained(#[trigger] ps[i])
}

/// The projection of the type read a signature of its own.
pub open spec fn consumes(e: EntityModel) -> bool {
    ||| e.base_type is Some
    ||| e.interfaces.len() > 0
    ||| exists|i: int|
        0 <= i < e.generic_parameters.len() && (#[trigger] e.generic_parameters[i])
            .type_constraints.len() > 0
}

/// The members of `e` from the `j`-th on, by name, after the findings in `acc`.
pub open spec fn members_left_from(e: EntityModel, j: nat, acc: Seq<FindingModel>) -> Seq<
    FindingModel,
>
    decreases e.members.len() - j,
{
    if j >= e.members.len() {
        acc
    } else {
        members_left_from(
            e,
            j + 1,
            acc.push(
                FindingModel::MemberSurvived {
                    member: qualified(e, member_list::member_name(e.members[j as int])),
                },
            ),
        )
    }
}

/// The members of the entities from the `i`-th on, by name, after the findings in
/// `acc`.
pub open spec fn all_members_left_from(
    es: Seq<EntityModel>,
    i: nat,
    acc: Seq<FindingModel>,
) -> Seq<FindingModel>
    decreases es.len() - i,
{
    if i >= es.len() {
        acc
    } else {
        all_members_left_from(es, i + 1, members_left_from(es[i as int], 0, acc))
    }
}

/// The types from the `i`-th on that are left although their projection read a
/// signature, after the findings in `acc`.
pub open spec fn consumers_left_from(
    es: Seq<EntityModel>,
    left: Seq<EntityModel>,
    i: nat,
    acc: Seq<FindingModel>,
) -> Seq<FindingModel>
    decreases es.len() - i,
{
    if i >= es.len() {
        acc
    } else {
        let e = es[i as int];
        consumers_left_from(
            es,
            left,
            i + 1,
            if has_type(left, type_key_of(e)) && consumes(e) {
                acc.push(FindingModel::TypeSurvived { name: fqn_of(e) })
            } else {
                acc
            },
        )
    }
}

/// The methods of `e` from the `j`-th member on that are left although they have a
/// constraint, after the findings in `acc`.
pub open spec fn methods_left_from(
    e: EntityModel,
    left: Seq<EntityModel>,
    j: nat,
    acc: Seq<FindingModel>,
) -> Seq<FindingModel>
    decreases e.members.len() - j,
{
    if j >= e.members.len() {
        acc
    } else {
        methods_left_from(
            e,
            left,
            j + 1,
            match e.members[j as int] {
                MemberModel::Method(m) => if any_constrained(m.generic_parameters) && has_method(
                    left,
                    type_key_of(e),
                    m,
                ) {
                    acc.push(
                        FindingModel::ConstrainedMethodSurvived { method: qualified(e, m.name) },
                    )
                } else {
                    acc
                },
                _ => acc,
            },
        )
    }
}

/// The types and methods from the `i`-th entity on that are left although they have a
/// constraint, after the findings in `acc`.
pub open spec fn declarers_left_from(
    es: Seq<EntityModel>,
    left: Seq<EntityModel>,
    i: nat,
    acc: Seq<FindingModel>,
) -> Seq<FindingModel>
    decreases es.len() - i,
{
    if i >= es.len() {
        acc
    } else {
        let e = es[i as int];
        let acc = if any_constrained(e.generic_parameters) && has_type(left, type_key_of(e)) {
            acc.push(FindingModel::ConstrainedTypeSurvived { name: fqn_of(e) })
        } else {
            acc
        };
        declarers_left_from(es, left, i + 1, methods_left_from(e, left, 0, acc))
    }
}

/// The entity without its members and nested types.
pub open spec fn shell(e: EntityModel) -> EntityModel {
    EntityModel {
        members: Seq::empty(),
        nested_types: Seq::empty(),
        skipped_members: Seq::empty(),
        ..e
    }
}

/// Some member is called `name`.
pub open spec fn has_member(ms: Seq<MemberModel>, name: Seq<char>) -> bool {
    exists|i: int| 0 <= i < ms.len() && member_list::member_name(#[trigger] ms[i]) == name
}

/// The names of the members from the `j`-th on that no member of `others` has, after
/// those in `acc`.
pub open spec fn lost_from(
    ms: Seq<MemberModel>,
    others: Seq<MemberModel>,
    j: nat,
    acc: Seq<Seq<char>>,
) -> Seq<Seq<char>>
    decreases ms.len() - j,
{
    if j >= ms.len() {
        acc
    } else {
        let name = member_list::member_name(ms[j as int]);
        lost_from(
            ms,
            others,
            j + 1,
            if has_member(others, name) {
                acc
            } else {
                acc.push(name)
            },
        )
    }
}

/// The first member from the `j`-th on that differs.
pub open spec fn moved_from(b: Seq<MemberModel>, d: Seq<MemberModel>, j: nat) -> Option<nat>
    decreases b.len() - j,
{
    if j >= b.len() {
        None
    } else if b[j as int] != d[j as int] {
        Some(j)
    } else {
        moved_from(b, d, j + 1)
    }
}

/// The first divergence of the entity `b`, at `here`, from `d`, but for what is nested
/// in it: in the members, else in the records of skipped members, else in the rest.
pub open spec fn own_difference(b: EntityModel, d: EntityModel, here: Seq<char>) -> Option<
    FindingModel,
> {
    if b.members.len() != d.members.len() {
        Some(
            FindingModel::MemberCountMoved {
                path: here,
                baseline: b.members.len(),
                decorated: d.members.len(),
                dropped: lost_from(b.members, d.members, 0, Seq::empty()),
            },
        )
    } else {
        match moved_from(b.members, d.members, 0) {
            Some(j) => Some(
                FindingModel::MemberMoved {
                    path: here + "."@ + member_list::member_name(b.members[j as int]),
                    baseline: b.members[j as int],
                    decorated: d.members[j as int],
                },
            ),
            None => if b.skipped_members != d.skipped_members {
                Some(
                    FindingModel::SkippedMembersMoved {
                        path: here,
                        baseline: b.skipped_members,
                        decorated: d.skipped_members,
                    },
                )
            } else if shell(b) != shell(d) {
                Some(
                    FindingModel::TypeMoved {
                        path: here,
                        baseline: shell(b),
                        decorated: shell(d),
                    },
                )
            } else {
                None
            },
        }
    }
}

/// The findings in `acc` and the first divergence of an entity, if there is one.
pub open spec fn own_differences(
    b: EntityModel,
    d: EntityModel,
    here: Seq<char>,
    acc: Seq<FindingModel>,
) -> Seq<FindingModel> {
    match own_difference(b, d, here) {
        Some(f) => acc.push(f),
        None => acc,
    }
}

/// How the entity `b`, in `path`, differs from `d`, after the findings in `acc`: its first
/// divergence, and what differs in the types nested in it.
pub open spec fn entity_differences(
    b: EntityModel,
    d: EntityModel,
    path: Seq<char>,
    acc: Seq<FindingModel>,
) -> Seq<FindingModel>
    decreases b, 0nat,
{
    let here = path + fqn_of(b);
    tree_differences(
        b.nested_types,
        d.nested_types,
        here + "/"@,
        own_differences(b, d, here, acc),
    )
}

/// How the entities from the `i`-th on differ, after the findings in `acc`.
pub open spec fn differences_from(
    b: Seq<EntityModel>,
    d: Seq<EntityModel>,
    path: Seq<char>,
    i: nat,
    acc: Seq<FindingModel>,
) -> Seq<FindingModel>
    decreases b, b.len() - i,
{
    if i >= b.len() {
        acc
    } else {
        differences_from(
            b,
            d,
            path,
            i + 1,
            entity_differences(b[i as int], d[i as int], path, acc),
        )
    }
}

/// How the tree `b`, in `path`, differs from `d`, after the findings in `acc`.
pub open spec fn tree_differences(
    b: Seq<EntityModel>,
    d: Seq<EntityModel>,
    path: Seq<char>,
    acc: Seq<FindingModel>,
) -> Seq<FindingModel>
    decreases b, b.len() + 1,
{
    if b.len() != d.len() {
        acc.push(
            FindingModel::TypeCountMoved { path, baseline: b.len(), decorated: d.len() },
        )
    } else {
        differences_from(b, d, path, 0, acc)
    }
}

/// Findings are only added.
proof fn lemma_findings_grow(
    b: Seq<EntityModel>,
    d: Seq<EntityModel>,
    path: Seq<char>,
    i: nat,
    acc: Seq<FindingModel>,
)
    ensures
        acc.len() <= differences_from(b, d, path, i, acc).len(),
        i == 0 ==> acc.len() <= tree_differences(b, d, path, acc).len(),
    decreases b, b.len() - i,
{
    if i < b.len() {
        let e = b[i as int];
        let f = d[i as int];
        let here = path + fqn_of(e);
        let own = own_differences(e, f, here, acc);
        lemma_own_findings(e, f, here, acc);
        lemma_findings_grow(e.nested_types, f.nested_types, here + "/"@, 0, own);
        lemma_findings_grow(b, d, path, i + 1, entity_differences(e, f, path, acc));
    }
}

/// A member that differs is found, and none where there is none.
proof fn lemma_moved(b: Seq<MemberModel>, d: Seq<MemberModel>, j: nat)
    requires
        b.len() == d.len(),
    ensures
        moved_from(b, d, j) is None <==> (forall|k: int| j <= k < b.len() ==> b[k] == d[k]),
    decreases b.len() - j,
{
    if j < b.len() && b[j as int] == d[j as int] {
        lemma_moved(b, d, j + 1);
    }
}

/// An entity that differs in something of its own is found, and one that does not is
/// not.
proof fn lemma_own_findings(
    b: EntityModel,
    d: EntityModel,
    here: Seq<char>,
    acc: Seq<FindingModel>,
)
    ensures
        acc.len() <= own_differences(b, d, here, acc).len() <= acc.len() + 1,
        b.members == d.members && b.skipped_members == d.skipped_members && shell(b) == shell(d)
            ==> own_differences(b, d, here, acc) == acc,
        own_differences(b, d, here, acc).len() == acc.len() ==> b.members == d.members
            && b.skipped_members == d.skipped_members && shell(b) == shell(d),
{
    if b.members.len() == d.members.len() {
        lemma_moved(b.members, d.members, 0);
        if moved_from(b.members, d.members, 0) is None {
            assert(b.members =~= d.members);
        }
    }
}

/// Entities that agree in what is their own and in what is nested in them are equal.
proof fn lemma_same_parts(b: EntityModel, d: EntityModel)
    requires
        b.members == d.members,
        b.skipped_members == d.skipped_members,
        b.nested_types == d.nested_types,
        shell(b) == shell(d),
    ensures
        b == d,
{
    let s = shell(b);
    assert(b == (EntityModel {
        members: b.members,
        nested_types: b.nested_types,
        skipped_members: b.skipped_members,
        ..s
    }));
    assert(d == (EntityModel {
        members: d.members,
        nested_types: d.nested_types,
        skipped_members: d.skipped_members,
        ..s
    }));
}

/// The entities from the `i`-th on differ if and only if something is found.
proof fn lemma_differences(
    b: Seq<EntityModel>,
    d: Seq<EntityModel>,
    path: Seq<char>,
    i: nat,
    acc: Seq<FindingModel>,
)
    requires
        b.len() == d.len(),
    ensures
        (forall|k: int| i <= k < b.len() ==> b[k] == d[k]) ==> differences_from(b, d, path, i, acc)
            == acc,
        differences_from(b, d, path, i, acc).len() == acc.len() ==> (forall|k: int|
            i <= k < b.len() ==> b[k] == d[k]),
    decreases b, b.len() - i,
{
    if i < b.len() {
        let e = b[i as int];
        let f = d[i as int];
        let here = path + fqn_of(e);
        let own = own_differences(e, f, here, acc);
        let next = entity_differences(e, f, path, acc);
        lemma_own_findings(e, f, here, acc);
        lemma_findings_grow(e.nested_types, f.nested_types, here + "/"@, 0, own);
        lemma_findings_grow(b, d, path, i + 1, next);
        if e.nested_types.len() == f.nested_types.len() {
            lemma_differences(e.nested_types, f.nested_types, here + "/"@, 0, own);
        }
        lemma_differences(b, d, path, i + 1, next);
        if differences_from(b, d, path, i, acc).len() == acc.len() {
            assert(e.nested_types =~= f.nested_types);
            lemma_same_parts(e, f);
        }
    }
}

/// Two trees differ if and only if something is found.
pub proof fn law_findings_iff_trees_differ(
    b: Seq<EntityModel>,
    d: Seq<EntityModel>,
    path: Seq<char>,
    acc: Seq<FindingModel>,
)
    ensures
        tree_differences(b, d, path, acc) == acc <==> b == d,
{
    if b.len() == d.len() {
        lemma_differences(b, d, path, 0, acc);
        if tree_differences(b, d, path, acc) == acc {
            assert(b =~= d);
        }
    } else {
        assert(tree_differences(b, d, path, acc).len() == acc.len() + 1);
    }
}

/// The name of a member.
fn member_name(m: &Member) -> (r: &String)
    ensures
        r@ == member_list::member_name(m.deep_view()),
{
    match m {
        Member::Method(m) => &m.name,
        Member::Field(f) => &f.name,
        Member::Property(p) => &p.name,
        Member::Event(e) => &e.name,
    }
}

/// The full name of an entity.
fn fqn(e: &Entity) -> (r: String)
    ensures
        r@ == fqn_of(e.deep_view()),
{
    if e.namespace.len() == 0 {
        e.name.clone()
    } else {
        let mut out = join_text(&e.namespace, ".");
        out.append(".");
        out.append(e.name.as_str());
        out
    }
}

/// The identity of a type.
fn type_key(e: &Entity) -> (r: String)
    ensures
        r@ == type_key_of(e.deep_view()),
{
    let mut out = fqn(e);
    out.append("`");
    push_decimal(&mut out, e.generic_parameters.len() as u64);
    out
}

/// The name of a member of an entity.
fn qualified_name(e: &Entity, name: &str) -> (r: String)
    ensures
        r@ == qualified(e.deep_view(), name@),
{
    let mut out = fqn(e);
    out.append(".");
    out.append(name);
    out
}

/// Append an entity and everything below it.
fn flatten_entity<'a>(e: &'a Entity, out: &mut Vec<&'a Entity>)
    ensures
        final(out).deep_view() == old(out).deep_view() + flat_of(e.deep_view()),
    decreases *e, 0nat,
{
    broadcast use crate::model::lemma_entity_model_nested;

    out.push(e);
    assert(out.deep_view() =~= old(out).deep_view() + seq![e.deep_view()]);
    flatten_entities(&e.nested_types, out);
    assert(old(out).deep_view() + seq![e.deep_view()] + flat_from(e.deep_view().nested_types, 0)
        =~= old(out).deep_view() + flat_of(e.deep_view()));
}

/// Append the entities and everything below them.
fn flatten_entities<'a>(entities: &'a Vec<Entity>, out: &mut Vec<&'a Entity>)
    ensures
        final(out).deep_view() == old(out).deep_view() + flat(entities.deep_view()),
    decreases entities@, 1nat,
{
    let ghost all = flat(entities.deep_view());
    let mut i: usize = 0;
    while i < entities.len()
        invariant
            i <= entities.len(),
            all == flat(entities.deep_view()),
            old(out).deep_view() + all == out.deep_view() + flat_from(
                entities.deep_view(),
                i as nat,
            ),
        decreases entities.len() - i,
    {
        let ghost before = out.deep_view();
        let ghost first = flat_of(entities@[i as int].deep_view());
        let ghost rest = flat_from(entities.deep_view(), (i + 1) as nat);
        assert(entities.deep_view()[i as int] == entities@[i as int].deep_view());
        flatten_entity(&entities[i], out);
        assert(before + (first + rest) =~= (before + first) + rest);
        i = i + 1;
    }
    assert(out.deep_view() + Seq::<EntityModel>::empty() =~= out.deep_view());
}

/// The entities of a tree, each before what is nested in it.
fn flatten<'a>(entities: &'a Vec<Entity>) -> (r: Vec<&'a Entity>)
    ensures
        r.deep_view() == flat(entities.deep_view()),
{
    let mut out: Vec<&'a Entity> = Vec::new();
    flatten_entities(entities, &mut out);
    assert(out.deep_view() =~= flat(entities.deep_view()));
    out
}

/// A remainder with one more summand.
proof fn lemma_wrapping(total: int, sum: int, n: int, m: int)
    requires
        m > 0,
        0 <= n < m,
        total == sum % m,
    ensures
        (sum + n) % m == (if total + n < m {
            total + n
        } else {
            total + n - m
        }),
{
    vstd::arithmetic::div_mod::lemma_add_mod_noop(sum, n, m);
    assert(n % m == n) by (nonlinear_arith)
        requires
            0 <= n < m,
    ;
    assert(0 <= total < m) by (nonlinear_arith)
        requires
            m > 0,
            total == sum % m,
    ;
    assert((total + n) % m == (if total + n < m {
        total + n
    } else {
        total + n - m
    })) by (nonlinear_arith)
        requires
            0 <= total < m,
            0 <= n < m,
    ;
}

/// How much the entities before the `i`-th count together.
spec fn total_before(es: Seq<EntityModel>, i: nat, what: Counted) -> nat
    decreases i,
{
    if i == 0 || i > es.len() {
        0
    } else {
        total_before(es, (i - 1) as nat, what) + weight(es[i - 1], what)
    }
}

/// What comes before and what comes after make up the whole.
proof fn lemma_total_split(es: Seq<EntityModel>, i: nat, what: Counted)
    requires
        i <= es.len(),
    ensures
        total_before(es, i, what) + total_from(es, i, what) == total_from(es, 0, what),
    decreases i,
{
    if i > 0 {
        lemma_total_split(es, (i - 1) as nat, what);
    }
}

/// Count something over the entities of a tree.
fn count(entities: &Vec<Entity>, what: Counted) -> (r: usize)
    ensures
        r == counted(entities.deep_view(), what),
{
    let all = flatten(entities);
    let ghost es = all.deep_view();
    let ghost m = usize::MAX + 1;
    let mut total: usize = 0;
    let mut i: usize = 0;
    while i < all.len()
        invariant
            i <= all.len(),
            es == all.deep_view(),
            m == usize::MAX + 1,
            total == total_before(es, i as nat, what) as int % m,
        decreases all.len() - i,
    {
        let e = all[i];
        assert(es[i as int] == e.deep_view());
        let n: usize = match what {
            Counted::Types => 1,
            Counted::Members => e.members.len(),
            Counted::SkippedMembers => e.skipped_members.len(),
        };
        assert(n == weight(es[i as int], what));
        proof {
            lemma_wrapping(
                total as int,
                total_before(es, i as nat, what) as int,
                n as int,
                m,
            );
            assert(total_before(es, (i + 1) as nat, what) == total_before(es, i as nat, what) + n);
        }
        total = total.wrapping_add(n);
        i = i + 1;
    }
    proof {
        lemma_total_split(es, i as nat, what);
    }
    total
}

/// The number of types of a tree.
pub fn count_types(entities: &Vec<Entity>) -> (r: usize)
    ensures
        r == counted(entities.deep_view(), Counted::Types),
{
    count(entities, Counted::Types)
}

/// The number of members that the projection skipped, with a record.
pub fn count_member_skips(entities: &Vec<Entity>) -> (r: usize)
    ensures
        r == counted(entities.deep_view(), Counted::SkippedMembers),
{
    count(entities, Counted::SkippedMembers)
}

/// The number of members of a tree.
pub fn count_members(entities: &Vec<Entity>) -> (r: usize)
    ensures
        r == counted(entities.deep_view(), Counted::Members),
{
    count(entities, Counted::Members)
}

/// Record every member that is left.
pub fn surviving_members(entities: &Vec<Entity>, findings: &mut Vec<Finding>)
    ensures
        final(findings).deep_view() == all_members_left_from(
            flat(entities.deep_view()),
            0,
            old(findings).deep_view(),
        ),
{
    let all = flatten(entities);
    let ghost want = all_members_left_from(all.deep_view(), 0, findings.deep_view());
    let mut i: usize = 0;
    while i < all.len()
        invariant
            i <= all.len(),
            want == all_members_left_from(all.deep_view(), i as nat, findings.deep_view()),
        decreases all.len() - i,
    {
        let e = all[i];
        assert(all.deep_view()[i as int] == e.deep_view());
        let ghost inner = members_left_from(e.deep_view(), 0, findings.deep_view());
        let mut j: usize = 0;
        while j < e.members.len()
            invariant
                j <= e.members.len(),
                inner == members_left_from(e.deep_view(), j as nat, findings.deep_view()),
            decreases e.members.len() - j,
        {
            assert(e.deep_view().members[j as int] == e.members@[j as int].deep_view());
            let ghost before = findings.deep_view();
            let f = Finding::MemberSurvived {
                member: qualified_name(e, member_name(&e.members[j]).as_str()),
            };
            findings.push(f);
            assert(findings.deep_view() =~= before.push(f.deep_view()));
            j = j + 1;
        }
        i = i + 1;
    }
}

/// Whether some entity has the identity `key`.
fn contains_type(all: &Vec<&Entity>, key: &String) -> (r: bool)
    ensures
        r == has_type(all.deep_view(), key@),
{
    let mut i: usize = 0;
    while i < all.len()
        invariant
            i <= all.len(),
            forall|j: int| 0 <= j < i ==> type_key_of(#[trigger] all.deep_view()[j]) != key@,
        decreases all.len() - i,
    {
        assert(all.deep_view()[i as int] == all@[i as int].deep_view());
        if type_key(all[i]).same(key) {
            return true;
        }
        i = i + 1;
    }
    false
}

/// Whether the entity declares the method.
fn declares_method(e: &Entity, m: &MethodLike) -> (r: bool)
    ensures
        r == declares(e.deep_view(), m.deep_view()),
{
    let mut j: usize = 0;
    while j < e.members.len()
        invariant
            j <= e.members.len(),
            forall|k: int|
                0 <= k < j ==> !(match #[trigger] e.deep_view().members[k] {
                    MemberModel::Method(n) => same_method(m.deep_view(), n),
                    _ => false,
                }),
        decreases e.members.len() - j,
    {
        assert(e.deep_view().members[j as int] == e.members@[j as int].deep_view());
        match &e.members[j] {
            Member::Method(n) => {
                if m.name.same(&n.name) && m.signature.same(&n.signature)
                    && m.generic_parameters.len() == n.generic_parameters.len() {
                    return true;
                }
            },
            _ => {},
        }
        j = j + 1;
    }
    false
}

/// Whether some type with the identity `key` declares the method.
fn contains_method(all: &Vec<&Entity>, key: &String, m: &MethodLike) -> (r: bool)
    ensures
        r == has_method(all.deep_view(), key@, m.deep_view()),
{
    let mut i: usize = 0;
    while i < all.len()
        invariant
            i <= all.len(),
            forall|j: int|
                0 <= j < i ==> !(type_key_of(#[trigger] all.deep_view()[j]) == key@ && declares(
                    all.deep_view()[j],
                    m.deep_view(),
                )),
        decreases all.len() - i,
    {
        assert(all.deep_view()[i as int] == all@[i as int].deep_view());
        if type_key(all[i]).same(key) && declares_method(all[i], m) {
            return true;
        }
        i = i + 1;
    }
    false
}

/// Whether some type parameter has a constraint that is written as a type.
fn has_constrained(ps: &Vec<TypeParameter>) -> (r: bool)
    ensures
        r == any_constrained(ps.deep_view()),
{
    let mut i: usize = 0;
    while i < ps.len()
        invariant
            i <= ps.len(),
            forall|j: int| 0 <= j < i ==> !is_constrained(#[trigger] ps.deep_view()[j]),
        decreases ps.len() - i,
    {
        assert(ps.deep_view()[i as int] == ps@[i as int].deep_view());
        if ps[i].type_constraints.len() > 0 || ps[i].is_unmanaged {
            return true;
        }
        i = i + 1;
    }
    false
}

/// Whether the projection of the type read a signature of its own.
fn consumes_a_signature(e: &Entity) -> (r: bool)
    ensures
        r == consumes(e.deep_view()),
{
    if e.base_type.is_some() || e.interfaces.len() > 0 {
        return true;
    }
    let ps = &e.generic_parameters;
    let mut i: usize = 0;
    while i < ps.len()
        invariant
            i <= ps.len(),
            *ps == e.generic_parameters,
            e.deep_view().base_type is None,
            e.deep_view().interfaces.len() == 0,
            forall|j: int|
                0 <= j < i ==> (#[trigger] e.deep_view().generic_parameters[j])
                    .type_constraints.len() == 0,
        decreases ps.len() - i,
    {
        assert(e.deep_view().generic_parameters[i as int] == ps@[i as int].deep_view());
        if ps[i].type_constraints.len() > 0 {
            return true;
        }
        i = i + 1;
    }
    false
}

/// Record every type that is left although its projection read a signature.
pub fn surviving_signature_consumers(
    baseline: &Vec<Entity>,
    decorated: &Vec<Entity>,
    findings: &mut Vec<Finding>,
)
    ensures
        final(findings).deep_view() == consumers_left_from(
            flat(baseline.deep_view()),
            flat(decorated.deep_view()),
            0,
            old(findings).deep_view(),
        ),
{
    let all = flatten(baseline);
    let left = flatten(decorated);
    let ghost want = consumers_left_from(
        all.deep_view(),
        left.deep_view(),
        0,
        findings.deep_view(),
    );
    let mut i: usize = 0;
    while i < all.len()
        invariant
            i <= all.len(),
            want == consumers_left_from(
                all.deep_view(),
                left.deep_view(),
                i as nat,
                findings.deep_view(),
            ),
        decreases all.len() - i,
    {
        let e = all[i];
        assert(all.deep_view()[i as int] == e.deep_view());
        if contains_type(&left, &type_key(e)) && consumes_a_signature(e) {
            let ghost before = findings.deep_view();
            let f = Finding::TypeSurvived { name: fqn(e) };
            findings.push(f);
            assert(findings.deep_view() =~= before.push(f.deep_view()));
        }
        i = i + 1;
    }
}

/// Record every method of `e` that is left although it has a constraint.
fn surviving_constrained_methods(e: &Entity, left: &Vec<&Entity>, findings: &mut Vec<Finding>)
    ensures
        final(findings).deep_view() == methods_left_from(
            e.deep_view(),
            left.deep_view(),
            0,
            old(findings).deep_view(),
        ),
{
    let ghost want = methods_left_from(
        e.deep_view(),
        left.deep_view(),
        0,
        findings.deep_view(),
    );
    let key = type_key(e);
    let mut j: usize = 0;
    while j < e.members.len()
        invariant
            j <= e.members.len(),
            key@ == type_key_of(e.deep_view()),
            want == methods_left_from(
                e.deep_view(),
                left.deep_view(),
                j as nat,
                findings.deep_view(),
            ),
        decreases e.members.len() - j,
    {
        assert(e.deep_view().members[j as int] == e.members@[j as int].deep_view());
        match &e.members[j] {
            Member::Method(m) => {
                if has_constrained(&m.generic_parameters) && contains_method(left, &key, m) {
                    let ghost before = findings.deep_view();
                    let f = Finding::ConstrainedMethodSurvived {
                        method: qualified_name(e, m.name.as_str()),
                    };
                    findings.push(f);
                    assert(findings.deep_view() =~= before.push(f.deep_view()));
                }
            },
            _ => {},
        }
        j = j + 1;
    }
}

/// Record every type and method that is left although it has a constraint.
pub fn surviving_constraint_declarers(
    baseline: &Vec<Entity>,
    decorated: &Vec<Entity>,
    findings: &mut Vec<Finding>,
)
    ensures
        final(findings).deep_view() == declarers_left_from(
            flat(baseline.deep_view()),
            flat(decorated.deep_view()),
            0,
            old(findings).deep_view(),
        ),
{
    let all = flatten(baseline);
    let left = flatten(decorated);
    let ghost want = declarers_left_from(
        all.deep_view(),
        left.deep_view(),
        0,
        findings.deep_view(),
    );
    let mut i: usize = 0;
    while i < all.len()
        invariant
            i <= all.len(),
            want == declarers_left_from(
                all.deep_view(),
                left.deep_view(),
                i as nat,
                findings.deep_view(),
            ),
        decreases all.len() - i,
    {
        let e = all[i];
        assert(all.deep_view()[i as int] == e.deep_view());
        if has_constrained(&e.generic_parameters) && contains_type(&left, &type_key(e)) {
            let ghost before = findings.deep_view();
            let f = Finding::ConstrainedTypeSurvived { name: fqn(e) };
            findings.push(f);
            assert(findings.deep_view() =~= before.push(f.deep_view()));
        }
        surviving_constrained_methods(e, &left, findings);
        i = i + 1;
    }
}

/// The entity without its members and nested types.
fn entity_shell(e: &Entity) -> (r: Entity)
    ensures
        r.deep_view() == shell(e.deep_view()),
{
    broadcast use crate::model::lemma_entity_model_nested;

    let mut e = e.dup();
    e.members = Vec::new();
    e.nested_types = Vec::new();
    e.skipped_members = Vec::new();
    assert(e.members.deep_view() =~= Seq::empty());
    assert(e.nested_types.deep_view() =~= Seq::empty());
    assert(e.skipped_members.deep_view() =~= Seq::empty());
    e
}

/// Whether some member is called `name`.
fn contains_member(ms: &Vec<Member>, name: &String) -> (r: bool)
    ensures
        r == has_member(ms.deep_view(), name@),
{
    let mut i: usize = 0;
    while i < ms.len()
        invariant
            i <= ms.len(),
            forall|j: int|
                0 <= j < i ==> member_list::member_name(#[trigger] ms.deep_view()[j]) != name@,
        decreases ms.len() - i,
    {
        assert(ms.deep_view()[i as int] == ms@[i as int].deep_view());
        if member_name(&ms[i]).same(name) {
            return true;
        }
        i = i + 1;
    }
    false
}

/// The names of the members that no member of `others` has.
fn lost_members(ms: &Vec<Member>, others: &Vec<Member>) -> (r: Vec<String>)
    ensures
        r.deep_view() == lost_from(ms.deep_view(), others.deep_view(), 0, Seq::empty()),
{
    let mut out: Vec<String> = Vec::new();
    assert(out.deep_view() =~= Seq::empty());
    let mut j: usize = 0;
    while j < ms.len()
        invariant
            j <= ms.len(),
            lost_from(ms.deep_view(), others.deep_view(), 0, Seq::empty()) == lost_from(
                ms.deep_view(),
                others.deep_view(),
                j as nat,
                out.deep_view(),
            ),
        decreases ms.len() - j,
    {
        assert(ms.deep_view()[j as int] == ms@[j as int].deep_view());
        let name = member_name(&ms[j]);
        if !contains_member(others, name) {
            let ghost before = out.deep_view();
            out.push(name.clone());
            assert(out.deep_view() =~= before.push(name@));
        }
        j = j + 1;
    }
    out
}

/// An entity adds at most its first divergence to the findings, and adds it behind those
/// that are there.
pub proof fn law_one_divergence_per_entity(
    b: EntityModel,
    d: EntityModel,
    here: Seq<char>,
    acc: Seq<FindingModel>,
)
    ensures
        acc.is_prefix_of(own_differences(b, d, here, acc)),
        own_differences(b, d, here, acc).len() <= acc.len() + 1,
{
}

/// The first member that differs.
fn first_moved(b: &Vec<Member>, d: &Vec<Member>) -> (r: Option<usize>)
    requires
        b@.len() == d@.len(),
    ensures
        match moved_from(b.deep_view(), d.deep_view(), 0) {
            Some(j) => r is Some && r->0 == j && j < b@.len(),
            None => r is None,
        },
{
    let mut j: usize = 0;
    while j < b.len()
        invariant
            j <= b.len(),
            b@.len() == d@.len(),
            moved_from(b.deep_view(), d.deep_view(), 0) == moved_from(
                b.deep_view(),
                d.deep_view(),
                j as nat,
            ),
        decreases b.len() - j,
    {
        assert(b.deep_view()[j as int] == b@[j as int].deep_view());
        assert(d.deep_view()[j as int] == d@[j as int].deep_view());
        if !b[j].same(&d[j]) {
            return Some(j);
        }
        j = j + 1;
    }
    None
}

/// The first divergence of an entity, but for what is nested in it.
fn first_divergence(here: &String, b: &Entity, d: &Entity) -> (r: Option<Finding>)
    ensures
        r.deep_view() == own_difference(b.deep_view(), d.deep_view(), here@),
{
    if b.members.len() != d.members.len() {
        return Some(
            Finding::MemberCountMoved {
                path: here.clone(),
                baseline: b.members.len(),
                decorated: d.members.len(),
                dropped: lost_members(&b.members, &d.members),
            },
        );
    }
    if let Some(j) = first_moved(&b.members, &d.members) {
        assert(b.members.deep_view()[j as int] == b.members@[j as int].deep_view());
        assert(d.members.deep_view()[j as int] == d.members@[j as int].deep_view());
        let mut path = here.clone();
        path.append(".");
        path.append(member_name(&b.members[j]).as_str());
        return Some(
            Finding::MemberMoved {
                path,
                baseline: b.members[j].dup(),
                decorated: d.members[j].dup(),
            },
        );
    }
    if !b.skipped_members.same(&d.skipped_members) {
        return Some(
            Finding::SkippedMembersMoved {
                path: here.clone(),
                baseline: b.skipped_members.dup(),
                decorated: d.skipped_members.dup(),
            },
        );
    }
    let b_shell = entity_shell(b);
    let d_shell = entity_shell(d);
    if !b_shell.same(&d_shell) {
        return Some(
            Finding::TypeMoved { path: here.clone(), baseline: b_shell, decorated: d_shell },
        );
    }
    None
}

/// Record the first divergence of an entity, but for what is nested in it.
fn diff_own(here: &String, b: &Entity, d: &Entity, findings: &mut Vec<Finding>)
    ensures
        final(findings).deep_view() == own_differences(
            b.deep_view(),
            d.deep_view(),
            here@,
            old(findings).deep_view(),
        ),
{
    let ghost before = findings.deep_view();
    if let Some(f) = first_divergence(here, b, d) {
        findings.push(f);
        assert(findings.deep_view() =~= before.push(f.deep_view()));
    }
}

/// Record how an entity differs: its first divergence, and what is nested in it.
fn diff_entity(b: &Entity, d: &Entity, path: &String, findings: &mut Vec<Finding>)
    ensures
        final(findings).deep_view() == entity_differences(
            b.deep_view(),
            d.deep_view(),
            path@,
            old(findings).deep_view(),
        ),
    decreases *b, 0nat,
{
    broadcast use crate::model::lemma_entity_model_nested;

    let mut here = path.clone();
    here.append(fqn(b).as_str());
    diff_own(&here, b, d, findings);
    here.append("/");
    diff_entities(&b.nested_types, &d.nested_types, &here, findings);
}

/// Record how a tree differs, with the first divergence of each entity.
pub fn diff_entities(
    baseline: &Vec<Entity>,
    decorated: &Vec<Entity>,
    path: &String,
    findings: &mut Vec<Finding>,
)
    ensures
        final(findings).deep_view() == tree_differences(
            baseline.deep_view(),
            decorated.deep_view(),
            path@,
            old(findings).deep_view(),
        ),
    decreases baseline@, 1nat,
{
    let ghost before = findings.deep_view();
    if baseline.len() != decorated.len() {
        let f = Finding::TypeCountMoved {
            path: path.clone(),
            baseline: baseline.len(),
            decorated: decorated.len(),
        };
        findings.push(f);
        assert(findings.deep_view() =~= before.push(f.deep_view()));
        return;
    }
    let mut i: usize = 0;
    while i < baseline.len()
        invariant
            i <= baseline.len(),
            baseline@.len() == decorated@.len(),
            before == old(findings).deep_view(),
            differences_from(
                baseline.deep_view(),
                decorated.deep_view(),
                path@,
                0,
                before,
            ) == differences_from(
                baseline.deep_view(),
                decorated.deep_view(),
                path@,
                i as nat,
                findings.deep_view(),
            ),
        decreases baseline.len() - i,
    {
        assert(baseline.deep_view()[i as int] == baseline@[i as int].deep_view());
        assert(decorated.deep_view()[i as int] == decorated@[i as int].deep_view());
        diff_entity(&baseline[i], &decorated[i], path, findings);
        i = i + 1;
    }
}

} // verus!
