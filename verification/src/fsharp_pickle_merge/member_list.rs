//! The member list of a module, as the pickle has it.
//!
//! The list comes from the pickle, and each member on it from the metadata: every
//! value of the module, in the order of declaration, claims the metadata member
//! that it was compiled to. What the compiler added on its own is claimed by no
//! value. A value without a member, and a public member without a value, are
//! recorded as skipped.
use crate::error::ImportError;
use crate::fsharp_pickle::model::PickledCcu;
use crate::fsharp_pickle_merge::frame;
use crate::fsharp_pickle_merge::lookup;
use crate::fsharp_pickle_merge::lookup::find_entity_mut;
use crate::fsharp_pickle_merge::module_vals;
use crate::fsharp_pickle_merge::module_vals::{
    collect_module_member_targets, ModuleMemberTarget, ModuleMemberTargetModel, ModuleMemberVal,
    ModuleMemberValModel,
};
use crate::fsharp_pickle_merge::steps;
use crate::model::{
    Access, Augmentation, Entity, EntityKind, EntityModel, FsharpSourceRange, Member, MemberModel,
    MethodLike, MethodLikeModel, SkippedMember, SkippedMemberModel,
};
use crate::same::{Duplicate, Same};
use crate::text;
use crate::text::{push_decimal, same_text};
use vstd::prelude::*;
use vstd::string::*;

verus! {

/// What a value was compiled to, and so what its claim has to match.
#[derive(Debug, Clone, Copy, PartialEq, Eq, Hash, Structural)]
pub enum ClaimShape {
    /// A property: the value takes no argument group and is not generic.
    Value,
    /// A method with this many parameters. A generic value without argument groups
    /// is one, with none: a property cannot be generic.
    Function(usize),
    /// It is not known: the value claims by name alone, if that is unambiguous.
    Unknown,
}

/// What the value was compiled to.
pub open spec fn shape_of(v: ModuleMemberValModel) -> ClaimShape {
    if v.arg_group_count == Some(0usize) && !v.is_generic {
        ClaimShape::Value
    } else if v.arg_group_count is Some && v.il_arity is Some {
        ClaimShape::Function(v.il_arity->0)
    } else {
        ClaimShape::Unknown
    }
}

/// The text of a shape.
pub open spec fn shape_text(s: ClaimShape) -> Seq<char> {
    match s {
        ClaimShape::Value => "Value"@,
        ClaimShape::Function(n) => "Function("@ + text::decimal(n as nat) + ")"@,
        ClaimShape::Unknown => "Unknown"@,
    }
}

/// The F# name of the member that the value claims, where the compiled name is
/// another one.
pub open spec fn source_name_of(v: ModuleMemberValModel) -> Option<Seq<char>> {
    match v.compiled_name {
        Some(c) => if c != v.logical_name {
            Some(v.logical_name)
        } else {
            None
        },
        None => None,
    }
}

/// The value `w` is compiled to the same name and shape as `v`: nothing tells which
/// of them owns which of the members that fit.
pub open spec fn same_claim(v: ModuleMemberValModel, w: ModuleMemberValModel) -> bool {
    !w.is_literal && w.il_name() == v.il_name() && shape_of(w) == shape_of(v)
}

/// The values with the claim of `v` agree on the F# name.
pub open spec fn agree_on_name(
    vals: Seq<ModuleMemberValModel>,
    v: ModuleMemberValModel,
) -> bool {
    forall|i: int|
        0 <= i < vals.len() && same_claim(v, #[trigger] vals[i]) ==> source_name_of(vals[i])
            == source_name_of(v)
}

/// The values with the claim of `v` agree on the place of declaration.
pub open spec fn agree_on_range(
    vals: Seq<ModuleMemberValModel>,
    v: ModuleMemberValModel,
) -> bool {
    forall|i: int|
        0 <= i < vals.len() && same_claim(v, #[trigger] vals[i]) ==> vals[i].definition_range
            == v.definition_range
}

/// The values with the claim of `v` are all instance extensions.
pub open spec fn all_instance_extensions(
    vals: Seq<ModuleMemberValModel>,
    v: ModuleMemberValModel,
) -> bool {
    forall|i: int|
        0 <= i < vals.len() && same_claim(v, #[trigger] vals[i]) ==> vals[i].is_extension
            && vals[i].is_instance
}

/// The values with the claim of `v` are all augmentations.
pub open spec fn all_augmentations(
    vals: Seq<ModuleMemberValModel>,
    v: ModuleMemberValModel,
) -> bool {
    forall|i: int|
        0 <= i < vals.len() && same_claim(v, #[trigger] vals[i]) ==> vals[i].is_extension
            && vals[i].is_member
}

/// The member of the value `v` of `vals` that claims the method `m`. A fact on which
/// the values with the same claim disagree is left unset.
pub open spec fn claimed_method(
    vals: Seq<ModuleMemberValModel>,
    v: ModuleMemberValModel,
    m: MethodLikeModel,
) -> MethodLikeModel {
    MethodLikeModel {
        is_module_value_binding: v.arg_group_count == Some(0usize),
        source_name: if agree_on_name(vals, v) {
            source_name_of(v)
        } else {
            None
        },
        definition_range: if agree_on_range(vals, v) {
            v.definition_range
        } else {
            None
        },
        is_extension_method: m.is_extension_method || all_instance_extensions(vals, v),
        augmentation: if all_augmentations(vals, v) {
            Augmentation::Certain
        } else {
            m.augmentation
        },
        ..m
    }
}

/// The method fits the name and shape of a claim.
pub open spec fn fits(m: MethodLikeModel, name: Seq<char>, shape: ClaimShape) -> bool {
    m.name == name && match shape {
        ClaimShape::Value => m.module_value is Some,
        ClaimShape::Function(n) => m.module_value is None && m.signature.parameters.len() == n,
        ClaimShape::Unknown => true,
    }
}

/// The slot holds a method that fits and, if `is_public` is given, that is public
/// or not as it says.
pub open spec fn method_slot(
    name: Seq<char>,
    shape: ClaimShape,
    is_public: Option<bool>,
) -> spec_fn(Option<MemberModel>) -> bool {
    |slot: Option<MemberModel>|
        match slot {
            Some(MemberModel::Method(m)) => fits(m, name, shape) && match is_public {
                Some(b) => (m.access == Access::Public) == b,
                None => true,
            },
            _ => false,
        }
}

/// The slot holds a field called `name`.
pub open spec fn field_slot(name: Seq<char>) -> spec_fn(Option<MemberModel>) -> bool {
    |slot: Option<MemberModel>|
        match slot {
            Some(MemberModel::Field(f)) => f.name == name,
            _ => false,
        }
}

/// The slot that the value claims: the first method that fits and is as public as
/// the value, or else the first that fits. By name alone, only the one there is.
pub open spec fn claimed_slot(
    pool: Seq<Option<MemberModel>>,
    v: ModuleMemberValModel,
) -> Option<int> {
    let any = method_slot(v.il_name(), shape_of(v), None);
    if shape_of(v) == ClaimShape::Unknown {
        if lookup::count_from(pool, 0, any) == 1 {
            lookup::first_from(pool, 0, any)
        } else {
            None
        }
    } else {
        match lookup::first_from(
            pool,
            0,
            method_slot(v.il_name(), shape_of(v), Some(v.is_public)),
        ) {
            Some(i) => Some(i),
            None => lookup::first_from(pool, 0, any),
        }
    }
}

/// A member list in the making: the members not yet claimed, those on the list, and
/// what was skipped.
pub struct MemberListModel {
    pub pool: Seq<Option<MemberModel>>,
    pub members: Seq<MemberModel>,
    pub skipped: Seq<SkippedMemberModel>,
}

/// The record of a literal without a field.
pub open spec fn no_field(v: ModuleMemberValModel) -> SkippedMemberModel {
    SkippedMemberModel {
        name: v.il_name(),
        reason: "pickled `[<Literal>]` module val `"@ + v.logical_name
            + "` has no claimable IL literal field (absent, or `[<CompiledName>]`-renamed — `Field` carries no source name)"@,
    }
}

/// The record of a value without a method.
pub open spec fn no_method(v: ModuleMemberValModel) -> SkippedMemberModel {
    SkippedMemberModel {
        name: v.il_name(),
        reason: "pickled module val `"@ + v.logical_name + "` ("@ + shape_text(shape_of(v))
            + ") has no matching projected IL member"@,
    }
}

/// The record of a public member without a value.
pub open spec fn no_val(name: Seq<char>) -> SkippedMemberModel {
    SkippedMemberModel {
        name,
        reason: "projected IL member has no pickled module val (pickle-driven member list)"@,
    }
}

/// The list after the claim of the literal `v`. A field has no F# name, so a renamed
/// literal cannot be listed.
pub open spec fn after_literal(list: MemberListModel, v: ModuleMemberValModel) -> MemberListModel {
    match lookup::first_from(list.pool, 0, field_slot(v.il_name())) {
        Some(i) if source_name_of(v) is None => MemberListModel {
            pool: list.pool.update(i, None),
            members: list.members.push(list.pool[i]->0),
            skipped: list.skipped,
        },
        _ => MemberListModel { skipped: list.skipped.push(no_field(v)), ..list },
    }
}

/// The list after the claim of `v`, which is no literal.
pub open spec fn after_binding(
    list: MemberListModel,
    vals: Seq<ModuleMemberValModel>,
    v: ModuleMemberValModel,
) -> MemberListModel {
    match claimed_slot(list.pool, v) {
        Some(i) => MemberListModel {
            pool: list.pool.update(i, None),
            members: list.members.push(
                MemberModel::Method(claimed_method(vals, v, list.pool[i]->0->Method_0)),
            ),
            skipped: list.skipped,
        },
        None => MemberListModel { skipped: list.skipped.push(no_method(v)), ..list },
    }
}

/// The list after the claims of the values from the `i`-th on.
pub open spec fn claims_from(
    list: MemberListModel,
    vals: Seq<ModuleMemberValModel>,
    i: nat,
) -> MemberListModel
    decreases vals.len() - i,
{
    if i >= vals.len() {
        list
    } else {
        let v = vals[i as int];
        claims_from(
            if v.is_literal {
                after_literal(list, v)
            } else {
                after_binding(list, vals, v)
            },
            vals,
            i + 1,
        )
    }
}

/// The name of a member.
pub open spec fn member_name(m: MemberModel) -> Seq<char> {
    match m {
        MemberModel::Method(m) => m.name,
        MemberModel::Field(f) => f.name,
        MemberModel::Property(p) => p.name,
        MemberModel::Event(e) => e.name,
    }
}

/// The accessibility of a member.
pub open spec fn member_access(m: MemberModel) -> Access {
    match m {
        MemberModel::Method(m) => m.access,
        MemberModel::Field(f) => f.access,
        MemberModel::Property(p) => p.access,
        MemberModel::Event(e) => e.access,
    }
}

/// The list after the members that no value claimed, from the `i`-th slot on. A
/// public one is recorded; another one is listed, for the pickle does not describe
/// what is hidden.
pub open spec fn leftovers_from(list: MemberListModel, i: nat) -> MemberListModel
    decreases list.pool.len() - i,
{
    if i >= list.pool.len() {
        list
    } else {
        match list.pool[i as int] {
            None => leftovers_from(list, i + 1),
            Some(m) => {
                let pool = list.pool.update(i as int, None);
                leftovers_from(
                    if member_access(m) == Access::Public {
                        MemberListModel {
                            pool,
                            skipped: list.skipped.push(no_val(member_name(m))),
                            ..list
                        }
                    } else {
                        MemberListModel { pool, members: list.members.push(m), ..list }
                    },
                    i + 1,
                )
            },
        }
    }
}

/// The list before any claim.
pub open spec fn unclaimed(e: EntityModel) -> MemberListModel {
    MemberListModel {
        pool: e.members.map_values(|m: MemberModel| Some(m)),
        members: Seq::empty(),
        skipped: e.skipped_members,
    }
}

/// The entity with the member list that the values make.
pub open spec fn rebuilt(e: EntityModel, vals: Seq<ModuleMemberValModel>) -> EntityModel {
    let list = leftovers_from(claims_from(unclaimed(e), vals, 0), 0);
    EntityModel { members: list.members, skipped_members: list.skipped, ..e }
}

/// The tree with the member list of the target, where its path leads to a module.
pub open spec fn with_member_list(
    es: Seq<EntityModel>,
    t: ModuleMemberTargetModel,
) -> Seq<EntityModel> {
    match lookup::get(es, t.namespace, t.type_chain) {
        None => es,
        Some(e) => if e.kind == EntityKind::Module {
            lookup::put(es, t.namespace, t.type_chain, rebuilt(e, t.vals))
        } else {
            es
        },
    }
}

/// The tree with the member lists of the targets from the `i`-th on.
pub open spec fn member_lists_from(
    es: Seq<EntityModel>,
    targets: Seq<ModuleMemberTargetModel>,
    i: nat,
) -> Seq<EntityModel>
    decreases targets.len() - i,
{
    if i >= targets.len() {
        es
    } else {
        member_lists_from(with_member_list(es, targets[i as int]), targets, i + 1)
    }
}

/// The entity but for its member list and the record of what is not in it.
pub open spec fn but_members() -> spec_fn(EntityModel) -> EntityModel {
    |e: EntityModel|
        EntityModel { members: Seq::empty(), skipped_members: Seq::empty(), ..e }
}

/// The member lists change nothing but the members and the record of what is not
/// listed: the tree keeps its shape, and every entity each of its other facts.
pub proof fn law_projection_changes_members_alone(
    es: Seq<EntityModel>,
    targets: Seq<ModuleMemberTargetModel>,
    i: nat,
)
    ensures
        frame::seen_all(member_lists_from(es, targets, i), but_members()) == frame::seen_all(
            es,
            but_members(),
        ),
    decreases targets.len() - i,
{
    if i < targets.len() {
        let t = targets[i as int];
        if let Some(e) = lookup::get(es, t.namespace, t.type_chain) {
            frame::lemma_seen_same(rebuilt(e, t.vals), e, but_members());
            if e.kind == EntityKind::Module {
                frame::law_put_is_local(
                    es,
                    t.namespace,
                    t.type_chain,
                    rebuilt(e, t.vals),
                    but_members(),
                );
            }
        }
        law_projection_changes_members_alone(with_member_list(es, t), targets, i + 1);
    }
}

/// Some target has the path `namespace`, `chain`.
pub open spec fn is_target(
    targets: Seq<ModuleMemberTargetModel>,
    namespace: Seq<Seq<char>>,
    chain: Seq<Seq<char>>,
) -> bool {
    exists|i: int|
        0 <= i < targets.len() && (#[trigger] targets[i]).namespace == namespace
            && targets[i].type_chain == chain
}

/// An entity that is no module, or that no target names, keeps its members and the
/// record of what is not listed.
pub open spec fn members_step(targets: Seq<ModuleMemberTargetModel>) -> steps::Step {
    |n: Seq<Seq<char>>, c: Seq<Seq<char>>, a: EntityModel, b: EntityModel|
        {
            &&& a.name == b.name && a.namespace == b.namespace && a.kind == b.kind
            &&& a.kind != EntityKind::Module || !is_target(targets, n, c) ==> a.members
                == b.members && a.skipped_members == b.skipped_members
        }
}

/// The member lists of all but the modules that the pickle describes stay as they are.
pub proof fn law_projection_changes_described_modules_alone(
    es: Seq<EntityModel>,
    targets: Seq<ModuleMemberTargetModel>,
    i: nat,
)
    ensures
        steps::stepped_all(es, member_lists_from(es, targets, i), members_step(targets)),
    decreases targets.len() - i,
{
    let p = members_step(targets);
    assert(steps::is_step(p)) by {
        reveal(steps::is_step);
    }
    steps::lemma_stepped_all_refl(es, p);
    if i < targets.len() {
        let t = targets[i as int];
        let next = with_member_list(es, t);
        if let Some(e) = lookup::get(es, t.namespace, t.type_chain) {
            if e.kind == EntityKind::Module {
                let v = rebuilt(e, t.vals);
                assert(is_target(targets, t.namespace, t.type_chain));
                steps::lemma_alone(e, v, t.namespace, t.type_chain, p);
                steps::law_put_is_a_step(es, t.namespace, t.type_chain, v, p);
            }
        }
        law_projection_changes_described_modules_alone(next, targets, i + 1);
        steps::lemma_stepped_all_trans(es, next, member_lists_from(next, targets, i + 1), p);
    }
}

/// What the value was compiled to.
pub fn claim_shape(v: &ModuleMemberVal) -> (r: ClaimShape)
    ensures
        r == shape_of(v.deep_view()),
{
    match (v.arg_group_count, v.il_arity) {
        (Some(0), _) if !v.is_generic => ClaimShape::Value,
        (Some(_), Some(n)) => ClaimShape::Function(n),
        _ => ClaimShape::Unknown,
    }
}

/// The text of a shape.
fn shape_name(s: ClaimShape) -> (r: String)
    ensures
        r@ == shape_text(s),
{
    match s {
        ClaimShape::Value => "Value".to_owned(),
        ClaimShape::Function(n) => {
            let mut out = "Function(".to_owned();
            push_decimal(&mut out, n as u64);
            out.append(")");
            out
        },
        ClaimShape::Unknown => "Unknown".to_owned(),
    }
}

/// The F# facts that one value contributes to the member that it claims.
struct ValFacts {
    source_name: Option<String>,
    instance_extension: bool,
    fsharp_extension: bool,
    definition_range: Option<FsharpSourceRange>,
}

impl ValFacts {
    /// The facts are those of `v`.
    spec fn of(self, v: ModuleMemberValModel) -> bool {
        &&& self.source_name.deep_view() == source_name_of(v)
        &&& self.instance_extension == (v.is_extension && v.is_instance)
        &&& self.fsharp_extension == (v.is_extension && v.is_member)
        &&& self.definition_range.deep_view() == v.definition_range
    }
}

/// The facts of the value.
fn val_facts(v: &ModuleMemberVal) -> (r: ValFacts)
    ensures
        r.of(v.deep_view()),
{
    ValFacts {
        source_name: match &v.compiled_name {
            Some(c) => if !c.same(&v.logical_name) {
                Some(v.logical_name.clone())
            } else {
                None
            },
            None => None,
        },
        instance_extension: v.is_extension && v.is_instance,
        fsharp_extension: v.is_extension && v.is_member,
        definition_range: v.definition_range.dup(),
    }
}

/// What the values with one claim agree on.
struct GroupFacts {
    source_name: bool,
    extension: bool,
    fsharp_extension: bool,
    definition_range: bool,
}

/// What the values with the claim of the `k`-th agree on.
fn group_facts(vals: &Vec<ModuleMemberVal>, k: usize, facts: &ValFacts) -> (r: GroupFacts)
    requires
        k < vals@.len(),
        facts.of(vals@[k as int].deep_view()),
    ensures
        r.source_name == agree_on_name(vals.deep_view(), vals@[k as int].deep_view()),
        r.extension == all_instance_extensions(vals.deep_view(), vals@[k as int].deep_view()),
        r.fsharp_extension == all_augmentations(vals.deep_view(), vals@[k as int].deep_view()),
        r.definition_range == agree_on_range(vals.deep_view(), vals@[k as int].deep_view()),
{
    let v = &vals[k];
    let ghost mv = v.deep_view();
    let ghost all = vals.deep_view();
    let shape = claim_shape(v);
    let mut g = GroupFacts {
        source_name: true,
        extension: true,
        fsharp_extension: true,
        definition_range: true,
    };
    let mut i: usize = 0;
    while i < vals.len()
        invariant
            i <= vals.len(),
            all == vals.deep_view(),
            mv == v.deep_view(),
            shape == shape_of(mv),
            facts.of(mv),
            g.source_name == (forall|j: int|
                0 <= j < i && same_claim(mv, #[trigger] all[j]) ==> source_name_of(all[j])
                    == source_name_of(mv)),
            g.definition_range == (forall|j: int|
                0 <= j < i && same_claim(mv, #[trigger] all[j]) ==> all[j].definition_range
                    == mv.definition_range),
            g.extension == (forall|j: int|
                0 <= j < i && same_claim(mv, #[trigger] all[j]) ==> all[j].is_extension
                    && all[j].is_instance),
            g.fsharp_extension == (forall|j: int|
                0 <= j < i && same_claim(mv, #[trigger] all[j]) ==> all[j].is_extension
                    && all[j].is_member),
        decreases vals.len() - i,
    {
        let w = &vals[i];
        assert(all[i as int] == w.deep_view());
        if !w.is_literal && same_text(w.il_name(), v.il_name()) && claim_shape(w) == shape {
            assert(same_claim(mv, all[i as int]));
            let other = val_facts(w);
            g.source_name = g.source_name && other.source_name.same(&facts.source_name);
            g.extension = g.extension && other.instance_extension;
            g.fsharp_extension = g.fsharp_extension && other.fsharp_extension;
            g.definition_range = g.definition_range && other.definition_range.same(
                &facts.definition_range,
            );
        }
        i = i + 1;
    }
    g
}

/// A member list in the making.
struct MemberList {
    pool: Vec<Option<Member>>,
    members: Vec<Member>,
    skipped: Vec<SkippedMember>,
}

impl DeepView for MemberList {
    type V = MemberListModel;

    closed spec fn deep_view(&self) -> MemberListModel {
        MemberListModel {
            pool: self.pool.deep_view(),
            members: self.members.deep_view(),
            skipped: self.skipped.deep_view(),
        }
    }
}

/// Whether the method fits the name and shape of a claim.
fn method_fits(m: &MethodLike, name: &str, shape: ClaimShape) -> (r: bool)
    ensures
        r == fits(m.deep_view(), name@, shape),
{
    same_text(m.name.as_str(), name) && match shape {
        ClaimShape::Value => m.module_value.is_some(),
        ClaimShape::Function(n) => m.module_value.is_none() && m.signature.parameters.len() == n,
        ClaimShape::Unknown => true,
    }
}

/// Whether the slot holds a method that fits.
fn slot_fits(
    slot: &Option<Member>,
    name: &str,
    shape: ClaimShape,
    is_public: Option<bool>,
) -> (r: bool)
    ensures
        r == method_slot(name@, shape, is_public)(slot.deep_view()),
{
    match slot {
        Some(Member::Method(m)) => {
            let public: bool = m.access == Access::Public;
            method_fits(m, name, shape) && match is_public {
                Some(b) => public == b,
                None => true,
            }
        },
        _ => false,
    }
}

/// The first slot with a method that fits.
fn first_method(
    pool: &Vec<Option<Member>>,
    name: &str,
    shape: ClaimShape,
    is_public: Option<bool>,
) -> (r: Option<usize>)
    ensures
        match lookup::first_from(pool.deep_view(), 0, method_slot(name@, shape, is_public)) {
            Some(i) => r is Some && r->0 == i && i < pool@.len(),
            None => r is None,
        },
{
    let ghost p = method_slot(name@, shape, is_public);
    let mut i: usize = 0;
    while i < pool.len()
        invariant
            i <= pool.len(),
            p == method_slot(name@, shape, is_public),
            forall|j: int| 0 <= j < i ==> !p(#[trigger] pool.deep_view()[j]),
        decreases pool.len() - i,
    {
        assert(pool.deep_view()[i as int] == pool@[i as int].deep_view());
        if slot_fits(&pool[i], name, shape, is_public) {
            proof {
                lookup::lemma_first_is(pool.deep_view(), 0, i as int, p);
            }
            return Some(i);
        }
        i = i + 1;
    }
    proof {
        lookup::lemma_first_is(pool.deep_view(), 0, i as int, p);
    }
    None
}

/// How many slots hold a method called `name`.
fn count_methods(pool: &Vec<Option<Member>>, name: &str) -> (r: usize)
    ensures
        r == lookup::count_from(
            pool.deep_view(),
            0,
            method_slot(name@, ClaimShape::Unknown, None),
        ),
{
    let ghost p = method_slot(name@, ClaimShape::Unknown, None);
    let mut n: usize = 0;
    let mut i: usize = pool.len();
    while i > 0
        invariant
            i <= pool.len(),
            p == method_slot(name@, ClaimShape::Unknown, None),
            n == lookup::count_from(pool.deep_view(), i as int, p),
            n <= pool.len() - i,
        decreases i,
    {
        i = i - 1;
        assert(pool.deep_view()[i as int] == pool@[i as int].deep_view());
        if slot_fits(&pool[i], name, ClaimShape::Unknown, None) {
            n = n + 1;
        }
    }
    n
}

/// The first slot with a field called `name`.
fn first_field(pool: &Vec<Option<Member>>, name: &str) -> (r: Option<usize>)
    ensures
        match lookup::first_from(pool.deep_view(), 0, field_slot(name@)) {
            Some(i) => r is Some && r->0 == i && i < pool@.len(),
            None => r is None,
        },
{
    let ghost p = field_slot(name@);
    let mut i: usize = 0;
    while i < pool.len()
        invariant
            i <= pool.len(),
            p == field_slot(name@),
            forall|j: int| 0 <= j < i ==> !p(#[trigger] pool.deep_view()[j]),
        decreases pool.len() - i,
    {
        assert(pool.deep_view()[i as int] == pool@[i as int].deep_view());
        let found: bool = match &pool[i] {
            Some(Member::Field(f)) => same_text(f.name.as_str(), name),
            _ => false,
        };
        if found {
            proof {
                lookup::lemma_first_is(pool.deep_view(), 0, i as int, p);
            }
            return Some(i);
        }
        i = i + 1;
    }
    proof {
        lookup::lemma_first_is(pool.deep_view(), 0, i as int, p);
    }
    None
}

/// The slot that the value claims.
fn claim_slot(pool: &Vec<Option<Member>>, v: &ModuleMemberVal) -> (r: Option<usize>)
    ensures
        match claimed_slot(pool.deep_view(), v.deep_view()) {
            Some(i) => r is Some && r->0 == i && i < pool@.len(),
            None => r is None,
        },
{
    let shape = claim_shape(v);
    let name = v.il_name();
    match shape {
        ClaimShape::Unknown => {
            if count_methods(pool, name) == 1 {
                first_method(pool, name, shape, None)
            } else {
                None
            }
        },
        _ => match first_method(pool, name, shape, Some(v.is_public)) {
            Some(i) => Some(i),
            None => first_method(pool, name, shape, None),
        },
    }
}

/// A claimed slot holds a method.
proof fn lemma_claimed_is_method(pool: Seq<Option<MemberModel>>, v: ModuleMemberValModel)
    ensures
        match claimed_slot(pool, v) {
            Some(i) => 0 <= i < pool.len() && pool[i] is Some && pool[i]->0 is Method,
            None => true,
        },
{
    lookup::lemma_first_found(pool, 0, method_slot(v.il_name(), shape_of(v), None));
    lookup::lemma_first_found(pool, 0, method_slot(v.il_name(), shape_of(v), Some(v.is_public)));
}

/// The record of a literal without a field.
fn skip_literal(v: &ModuleMemberVal) -> (r: SkippedMember)
    ensures
        r.deep_view() == no_field(v.deep_view()),
{
    let mut reason = "pickled `[<Literal>]` module val `".to_owned();
    reason.append(v.logical_name.as_str());
    reason.append(
        "` has no claimable IL literal field (absent, or `[<CompiledName>]`-renamed — `Field` carries no source name)",
    );
    SkippedMember { name: v.il_name().to_owned(), reason }
}

/// The record of a value without a method.
fn skip_val(v: &ModuleMemberVal) -> (r: SkippedMember)
    ensures
        r.deep_view() == no_method(v.deep_view()),
{
    let mut reason = "pickled module val `".to_owned();
    reason.append(v.logical_name.as_str());
    reason.append("` (");
    reason.append(shape_name(claim_shape(v)).as_str());
    reason.append(") has no matching projected IL member");
    SkippedMember { name: v.il_name().to_owned(), reason }
}

/// The member of the `k`-th value that claims the method `m`.
fn claim_method(m: MethodLike, vals: &Vec<ModuleMemberVal>, k: usize) -> (r: MethodLike)
    requires
        k < vals@.len(),
    ensures
        r.deep_view() == claimed_method(
            vals.deep_view(),
            vals@[k as int].deep_view(),
            m.deep_view(),
        ),
{
    let v = &vals[k];
    let facts = val_facts(v);
    let group = group_facts(vals, k, &facts);
    let mut m = m;
    m.is_module_value_binding = match v.arg_group_count {
        Some(0) => true,
        _ => false,
    };
    m.source_name = if group.source_name {
        facts.source_name
    } else {
        None
    };
    m.definition_range = if group.definition_range {
        match facts.definition_range {
            Some(r) => Some(Box::new(r)),
            None => None,
        }
    } else {
        None
    };
    if group.extension {
        m.is_extension_method = true;
    }
    if group.fsharp_extension {
        m.augmentation = Augmentation::Certain;
    }
    m
}

impl MemberList {
    /// Record something as skipped.
    fn skip(&mut self, s: SkippedMember)
        ensures
            final(self).deep_view() == (MemberListModel {
                skipped: old(self).deep_view().skipped.push(s.deep_view()),
                ..old(self).deep_view()
            }),
    {
        self.skipped.push(s);
        assert(self.skipped.deep_view() =~= old(self).skipped.deep_view().push(s.deep_view()));
    }

    /// List a member.
    fn keep(&mut self, m: Member)
        ensures
            final(self).deep_view() == (MemberListModel {
                members: old(self).deep_view().members.push(m.deep_view()),
                ..old(self).deep_view()
            }),
    {
        self.members.push(m);
        assert(self.members.deep_view() =~= old(self).members.deep_view().push(m.deep_view()));
    }

    /// Take the member out of a slot.
    fn take(&mut self, i: usize) -> (r: Option<Member>)
        requires
            i < old(self).deep_view().pool.len(),
        ensures
            r.deep_view() == old(self).deep_view().pool[i as int],
            final(self).deep_view() == (MemberListModel {
                pool: old(self).deep_view().pool.update(i as int, None),
                ..old(self).deep_view()
            }),
    {
        let mut slot: Option<Member> = None;
        let ghost before = self.pool;
        std::mem::swap(&mut slot, &mut self.pool[i]);
        assert(self.pool.deep_view() =~= before.deep_view().update(i as int, None));
        slot
    }

    /// The claim of a literal.
    fn claim_literal(&mut self, v: &ModuleMemberVal)
        ensures
            final(self).deep_view() == after_literal(old(self).deep_view(), v.deep_view()),
    {
        proof {
            lookup::lemma_first_found(
                self.pool.deep_view(),
                0,
                field_slot(v.deep_view().il_name()),
            );
        }
        let is_renamed: bool = match &v.compiled_name {
            Some(c) => !c.same(&v.logical_name),
            None => false,
        };
        match first_field(&self.pool, v.il_name()) {
            Some(i) if !is_renamed => {
                if let Some(field) = self.take(i) {
                    self.keep(field);
                }
            },
            _ => {
                self.skip(skip_literal(v));
            },
        }
    }

    /// The claim of the `k`-th value, which is no literal.
    fn claim_binding(&mut self, vals: &Vec<ModuleMemberVal>, k: usize)
        requires
            k < vals@.len(),
        ensures
            final(self).deep_view() == after_binding(
                old(self).deep_view(),
                vals.deep_view(),
                vals@[k as int].deep_view(),
            ),
    {
        let v = &vals[k];
        proof {
            lemma_claimed_is_method(self.pool.deep_view(), v.deep_view());
        }
        match claim_slot(&self.pool, v) {
            Some(i) => {
                if let Some(Member::Method(m)) = self.take(i) {
                    let m = claim_method(m, vals, k);
                    self.keep(Member::Method(m));
                }
            },
            None => {
                self.skip(skip_val(v));
            },
        }
    }

    /// The claims of the values.
    fn claim_all(&mut self, vals: &Vec<ModuleMemberVal>)
        ensures
            final(self).deep_view() == claims_from(old(self).deep_view(), vals.deep_view(), 0),
    {
        let mut i: usize = 0;
        while i < vals.len()
            invariant
                i <= vals.len(),
                claims_from(old(self).deep_view(), vals.deep_view(), 0) == claims_from(
                    self.deep_view(),
                    vals.deep_view(),
                    i as nat,
                ),
            decreases vals.len() - i,
        {
            assert(vals.deep_view()[i as int] == vals@[i as int].deep_view());
            if vals[i].is_literal {
                self.claim_literal(&vals[i]);
            } else {
                self.claim_binding(vals, i);
            }
            i = i + 1;
        }
    }

    /// List or record the members that no value claimed.
    fn place_leftovers(&mut self)
        ensures
            final(self).deep_view() == leftovers_from(old(self).deep_view(), 0),
    {
        let n: usize = self.pool.len();
        let mut i: usize = 0;
        while i < n
            invariant
                i <= n,
                n == self.deep_view().pool.len(),
                leftovers_from(old(self).deep_view(), 0) == leftovers_from(
                    self.deep_view(),
                    i as nat,
                ),
            decreases n - i,
        {
            let ghost before = self.deep_view();
            match self.take(i) {
                None => {
                    assert(self.deep_view().pool =~= before.pool);
                },
                Some(m) => {
                    let (name, access) = match &m {
                        Member::Method(m) => (m.name.clone(), m.access),
                        Member::Field(f) => (f.name.clone(), f.access),
                        Member::Property(p) => (p.name.clone(), p.access),
                        Member::Event(e) => (e.name.clone(), e.access),
                    };
                    if access == Access::Public {
                        let reason = "projected IL member has no pickled module val (pickle-driven member list)".to_owned();
                        self.skip(SkippedMember { name, reason });
                    } else {
                        self.keep(m);
                    }
                },
            }
            i = i + 1;
        }
    }
}

/// The slots of a member list before any claim.
fn slots(members: Vec<Member>) -> (r: Vec<Option<Member>>)
    ensures
        r.deep_view() == members.deep_view().map_values(|m: MemberModel| Some(m)),
{
    let ghost all = members@;
    let mut members = members;
    let mut reversed: Vec<Member> = Vec::new();
    while members.len() > 0
        invariant
            members@ + reversed@.reverse() =~= all,
        decreases members.len(),
    {
        if let Some(m) = members.pop() {
            reversed.push(m);
        }
    }
    let mut out: Vec<Option<Member>> = Vec::new();
    while reversed.len() > 0
        invariant
            out@.len() + reversed@.len() == all.len(),
            forall|j: int| 0 <= j < out@.len() ==> #[trigger] out@[j] == Some(all[j]),
            forall|j: int|
                0 <= j < reversed@.len() ==> #[trigger] reversed@[j] == all[all.len() - 1 - j],
        decreases reversed.len(),
    {
        if let Some(m) = reversed.pop() {
            out.push(Some(m));
        }
    }
    out
}

/// Rebuild the member list of an entity from the values of its target.
pub fn rebuild_module_member_list(ecma: &mut Entity, target: &ModuleMemberTarget)
    ensures
        final(ecma).deep_view() == rebuilt(old(ecma).deep_view(), target.vals.deep_view()),
{
    broadcast use crate::model::lemma_entity_model_nested;

    let mut members: Vec<Member> = Vec::new();
    std::mem::swap(&mut members, &mut ecma.members);
    let mut skipped: Vec<SkippedMember> = Vec::new();
    std::mem::swap(&mut skipped, &mut ecma.skipped_members);
    let mut list = MemberList { pool: slots(members), members: Vec::new(), skipped };
    assert(list.members.deep_view() =~= Seq::empty());
    list.claim_all(&target.vals);
    list.place_leftovers();
    ecma.members = list.members;
    ecma.skipped_members = list.skipped;
}

/// Rebuild the member list of each module that the pickle describes. A failure
/// leaves the tree alone.
pub fn apply_module_member_projection(entities: &mut Vec<Entity>, pickled: &PickledCcu) -> (r:
    Result<(), ImportError>)
    ensures
        match module_vals::targets_of(*pickled) {
            Ok(targets) => r is Ok && final(entities).deep_view() == member_lists_from(
                old(entities).deep_view(),
                targets,
                0,
            ),
            Err(e) => r is Err && r->Err_0.deep_view() == e && final(entities).deep_view()
                == old(entities).deep_view(),
        },
{
    let targets = collect_module_member_targets(pickled)?;
    let mut i: usize = 0;
    while i < targets.len()
        invariant
            i <= targets.len(),
            member_lists_from(old(entities).deep_view(), targets.deep_view(), 0)
                == member_lists_from(entities.deep_view(), targets.deep_view(), i as nat),
        decreases targets.len() - i,
    {
        let target = &targets[i];
        assert(targets.deep_view()[i as int] == target.deep_view());
        proof {
            let t = target.deep_view();
            if lookup::get(entities.deep_view(), t.namespace, t.type_chain) is Some {
                lookup::law_put_get(entities.deep_view(), t.namespace, t.type_chain);
            }
        }
        match find_entity_mut(entities, &target.namespace, &target.type_chain) {
            None => {},
            Some(ecma) => {
                match ecma.kind {
                    EntityKind::Module => {
                        rebuild_module_member_list(ecma, target);
                    },
                    _ => {},
                }
            },
        }
        i = i + 1;
    }
    Ok(())
}

/// The slot holds a member.
pub open spec fn occupied() -> spec_fn(Option<MemberModel>) -> bool {
    |slot: Option<MemberModel>| slot is Some
}

/// Emptying a slot leaves one member fewer.
proof fn lemma_emptied(pool: Seq<Option<MemberModel>>, k: int, i: int)
    requires
        0 <= i < pool.len(),
        0 <= k,
        pool[i] is Some,
    ensures
        lookup::count_from(pool.update(i, None), k, occupied()) == lookup::count_from(
            pool,
            k,
            occupied(),
        ) - (if k <= i {
            1int
        } else {
            0
        }),
    decreases pool.len() - k,
{
    if k < pool.len() {
        lemma_emptied(pool, k + 1, i);
    }
}

/// Every slot of a list without claims is occupied.
proof fn lemma_all_occupied(pool: Seq<Option<MemberModel>>, k: int)
    requires
        0 <= k <= pool.len(),
        forall|j: int| 0 <= j < pool.len() ==> (#[trigger] pool[j]) is Some,
    ensures
        lookup::count_from(pool, k, occupied()) == pool.len() - k,
    decreases pool.len() - k,
{
    if k < pool.len() {
        lemma_all_occupied(pool, k + 1);
    }
}

/// The slot that the value takes: a literal, unless it is renamed, that of a field,
/// another value that of a method.
pub open spec fn slot_of(pool: Seq<Option<MemberModel>>, v: ModuleMemberValModel) -> Option<int> {
    if !v.is_literal {
        claimed_slot(pool, v)
    } else if source_name_of(v) is None {
        lookup::first_from(pool, 0, field_slot(v.il_name()))
    } else {
        None
    }
}

/// The members that the first `n` values leave.
pub open spec fn pool_after(
    e: EntityModel,
    vals: Seq<ModuleMemberValModel>,
    n: nat,
) -> Seq<Option<MemberModel>>
    decreases n,
{
    if n == 0 {
        unclaimed(e).pool
    } else {
        let pool = pool_after(e, vals, (n - 1) as nat);
        match slot_of(pool, vals[n - 1]) {
            Some(k) => pool.update(k, None),
            None => pool,
        }
    }
}

/// The position of the member that the `i`-th value claims.
pub open spec fn claim(e: EntityModel, vals: Seq<ModuleMemberValModel>, i: nat) -> Option<int> {
    slot_of(pool_after(e, vals, i), vals[i as int])
}

/// One of the first `n` values claims the `k`-th member.
pub open spec fn claimed_by(
    e: EntityModel,
    vals: Seq<ModuleMemberValModel>,
    n: nat,
    k: int,
) -> bool {
    exists|i: nat| i < n && #[trigger] claim(e, vals, i) == Some(k)
}

/// The member `m` as the value `v` of `vals` lists it.
pub open spec fn listed(
    vals: Seq<ModuleMemberValModel>,
    v: ModuleMemberValModel,
    m: MemberModel,
) -> MemberModel {
    if v.is_literal {
        m
    } else {
        MemberModel::Method(claimed_method(vals, v, m->Method_0))
    }
}

/// The members that the first `n` values claim, in the order of the values.
pub open spec fn claimed_members(
    e: EntityModel,
    vals: Seq<ModuleMemberValModel>,
    n: nat,
) -> Seq<MemberModel>
    decreases n,
{
    if n == 0 {
        Seq::empty()
    } else {
        let before = claimed_members(e, vals, (n - 1) as nat);
        match claim(e, vals, (n - 1) as nat) {
            Some(k) => before.push(listed(vals, vals[n - 1], e.members[k])),
            None => before,
        }
    }
}

/// The records of those of the first `n` values that claim nothing, in their order.
pub open spec fn unmatched_vals(
    e: EntityModel,
    vals: Seq<ModuleMemberValModel>,
    n: nat,
) -> Seq<SkippedMemberModel>
    decreases n,
{
    if n == 0 {
        Seq::empty()
    } else {
        let before = unmatched_vals(e, vals, (n - 1) as nat);
        let v = vals[n - 1];
        match claim(e, vals, (n - 1) as nat) {
            Some(_) => before,
            None => before.push(
                if v.is_literal {
                    no_field(v)
                } else {
                    no_method(v)
                },
            ),
        }
    }
}

/// Those of the first `n` members that no value claims and that are not public, in
/// their order.
pub open spec fn hidden_leftovers(
    e: EntityModel,
    vals: Seq<ModuleMemberValModel>,
    n: nat,
) -> Seq<MemberModel>
    decreases n,
{
    if n == 0 {
        Seq::empty()
    } else {
        let before = hidden_leftovers(e, vals, (n - 1) as nat);
        let m = e.members[n - 1];
        if !claimed_by(e, vals, vals.len(), n - 1) && member_access(m) != Access::Public {
            before.push(m)
        } else {
            before
        }
    }
}

/// The records of those of the first `n` members that no value claims and that are
/// public, in their order.
pub open spec fn public_leftovers(
    e: EntityModel,
    vals: Seq<ModuleMemberValModel>,
    n: nat,
) -> Seq<SkippedMemberModel>
    decreases n,
{
    if n == 0 {
        Seq::empty()
    } else {
        let before = public_leftovers(e, vals, (n - 1) as nat);
        let m = e.members[n - 1];
        if !claimed_by(e, vals, vals.len(), n - 1) && member_access(m) == Access::Public {
            before.push(no_val(member_name(m)))
        } else {
            before
        }
    }
}

/// A slot that is taken holds a field for a literal, and else a method.
proof fn lemma_slot_holds(pool: Seq<Option<MemberModel>>, v: ModuleMemberValModel)
    ensures
        match slot_of(pool, v) {
            Some(k) => 0 <= k < pool.len() && pool[k] is Some && if v.is_literal {
                pool[k]->0 is Field
            } else {
                pool[k]->0 is Method
            },
            None => true,
        },
{
    lookup::lemma_first_found(pool, 0, field_slot(v.il_name()));
    lemma_claimed_is_method(pool, v);
}

/// The pool holds the members that no value claimed so far.
pub proof fn lemma_pool(e: EntityModel, vals: Seq<ModuleMemberValModel>, n: nat)
    ensures
        pool_after(e, vals, n).len() == e.members.len(),
        forall|k: int|
            0 <= k < e.members.len() ==> #[trigger] pool_after(e, vals, n)[k] == (if claimed_by(
                e,
                vals,
                n,
                k,
            ) {
                None
            } else {
                Some(e.members[k])
            }),
    decreases n,
{
    if n > 0 {
        let m = (n - 1) as nat;
        lemma_pool(e, vals, m);
        let (before, after) = (pool_after(e, vals, m), pool_after(e, vals, n));
        lemma_slot_holds(before, vals[m as int]);
        assert forall|k: int| 0 <= k < e.members.len() implies #[trigger] after[k] == (
        if claimed_by(e, vals, n, k) {
            None
        } else {
            Some(e.members[k])
        }) by {
            assert(claimed_by(e, vals, n, k) == (claimed_by(e, vals, m, k) || claim(e, vals, m)
                == Some(k))) by {
                if claimed_by(e, vals, m, k) {
                    let i = choose|i: nat| i < m && #[trigger] claim(e, vals, i) == Some(k);
                    assert(i < n && claim(e, vals, i) == Some(k));
                }
            }
            assert(before[k] == (if claimed_by(e, vals, m, k) {
                None
            } else {
                Some(e.members[k])
            }));
        }
    } else {
        assert forall|k: int| 0 <= k < e.members.len() implies !claimed_by(e, vals, 0, k) by {}
    }
}

/// What a value claims is a member of the entity that no value before it claimed: a field
/// if the value is a literal, and else a method.
pub proof fn law_a_claim_is_a_member_that_is_left(
    e: EntityModel,
    vals: Seq<ModuleMemberValModel>,
    i: nat,
)
    ensures
        match claim(e, vals, i) {
            Some(k) => {
                &&& 0 <= k < e.members.len()
                &&& pool_after(e, vals, i)[k] == Some(e.members[k])
                &&& if vals[i as int].is_literal {
                    e.members[k] is Field
                } else {
                    e.members[k] is Method
                }
            },
            None => true,
        },
{
    lemma_pool(e, vals, i);
    lemma_slot_holds(pool_after(e, vals, i), vals[i as int]);
}

/// No two values claim the same member.
pub proof fn law_claims_are_distinct(
    e: EntityModel,
    vals: Seq<ModuleMemberValModel>,
    i: nat,
    j: nat,
)
    requires
        i < j < vals.len(),
        claim(e, vals, i) is Some,
    ensures
        claim(e, vals, i) != claim(e, vals, j),
{
    law_a_claim_is_a_member_that_is_left(e, vals, i);
    law_a_claim_is_a_member_that_is_left(e, vals, j);
    lemma_pool(e, vals, j);
    let k = claim(e, vals, i)->0;
    if claim(e, vals, j) == Some(k) {
        assert(pool_after(e, vals, j)[k] is Some);
        assert(claimed_by(e, vals, j, k));
    }
}

/// The list after the claims of the first `n` values.
spec fn list_after(e: EntityModel, vals: Seq<ModuleMemberValModel>, n: nat) -> MemberListModel {
    MemberListModel {
        pool: pool_after(e, vals, n),
        members: claimed_members(e, vals, n),
        skipped: e.skipped_members + unmatched_vals(e, vals, n),
    }
}

/// The claims of all values start with those of the first `n`.
proof fn lemma_claims(e: EntityModel, vals: Seq<ModuleMemberValModel>, n: nat)
    requires
        n <= vals.len(),
    ensures
        claims_from(unclaimed(e), vals, 0) == claims_from(list_after(e, vals, n), vals, n),
        claimed_members(e, vals, n).len() + unmatched_vals(e, vals, n).len() == n,
    decreases n,
{
    if n == 0 {
        assert(list_after(e, vals, 0).skipped =~= e.skipped_members);
        assert(list_after(e, vals, 0) == unclaimed(e));
    } else {
        let m = (n - 1) as nat;
        lemma_claims(e, vals, m);
        law_a_claim_is_a_member_that_is_left(e, vals, m);
        let v = vals[m as int];
        let (before, after) = (list_after(e, vals, m), list_after(e, vals, n));
        let next = if v.is_literal {
            after_literal(before, v)
        } else {
            after_binding(before, vals, v)
        };
        assert(next.pool == after.pool);
        assert(next.members == after.members);
        assert(next.skipped =~= after.skipped);
    }
}

/// The list after the first `n` members have been placed that no value claimed.
spec fn list_with(e: EntityModel, vals: Seq<ModuleMemberValModel>, n: nat) -> MemberListModel {
    let list = list_after(e, vals, vals.len());
    MemberListModel {
        pool: Seq::new(
            e.members.len(),
            |k: int|
                if k < n {
                    None
                } else {
                    list.pool[k]
                },
        ),
        members: list.members + hidden_leftovers(e, vals, n),
        skipped: list.skipped + public_leftovers(e, vals, n),
    }
}

/// The members that no value claimed start with those of the first `n`.
proof fn lemma_leftovers(e: EntityModel, vals: Seq<ModuleMemberValModel>, n: nat)
    requires
        n <= e.members.len(),
    ensures
        leftovers_from(list_after(e, vals, vals.len()), 0) == leftovers_from(
            list_with(e, vals, n),
            n,
        ),
    decreases n,
{
    lemma_pool(e, vals, vals.len());
    if n == 0 {
        let (a, b) = (list_after(e, vals, vals.len()), list_with(e, vals, 0));
        assert(a.pool =~= b.pool);
        assert(a.members =~= b.members);
        assert(a.skipped =~= b.skipped);
    } else {
        let m = (n - 1) as nat;
        lemma_leftovers(e, vals, m);
        let (before, after) = (list_with(e, vals, m), list_with(e, vals, n));
        assert(before.pool[m as int] == pool_after(e, vals, vals.len())[m as int]);
        let pool = before.pool.update(m as int, None);
        assert(pool =~= after.pool);
        match before.pool[m as int] {
            None => {
                assert(before.pool =~= after.pool);
                assert(before.members =~= after.members);
                assert(before.skipped =~= after.skipped);
            },
            Some(x) => {
                if member_access(x) == Access::Public {
                    assert(before.skipped.push(no_val(member_name(x))) =~= after.skipped);
                    assert(before.members =~= after.members);
                } else {
                    assert(before.members.push(x) =~= after.members);
                    assert(before.skipped =~= after.skipped);
                }
            },
        }
    }
}

/// How many of the first `n` values claim something.
proof fn lemma_claimed_count(e: EntityModel, vals: Seq<ModuleMemberValModel>, n: nat)
    requires
        n <= vals.len(),
    ensures
        claimed_members(e, vals, n).len() + lookup::count_from(
            pool_after(e, vals, n),
            0,
            occupied(),
        ) == e.members.len(),
    decreases n,
{
    if n == 0 {
        lemma_all_occupied(unclaimed(e).pool, 0);
    } else {
        let m = (n - 1) as nat;
        lemma_claimed_count(e, vals, m);
        law_a_claim_is_a_member_that_is_left(e, vals, m);
        if let Some(k) = claim(e, vals, m) {
            lemma_pool(e, vals, m);
            lemma_emptied(pool_after(e, vals, m), 0, k);
        }
    }
}

/// The members from the `n`-th on that no value claims are the leftovers behind those of
/// the first `n`.
proof fn lemma_leftover_count(e: EntityModel, vals: Seq<ModuleMemberValModel>, n: nat)
    requires
        n <= e.members.len(),
    ensures
        hidden_leftovers(e, vals, n).len() + public_leftovers(e, vals, n).len()
            + lookup::count_from(pool_after(e, vals, vals.len()), n as int, occupied())
            == lookup::count_from(pool_after(e, vals, vals.len()), 0, occupied()),
    decreases n,
{
    if n > 0 {
        lemma_leftover_count(e, vals, (n - 1) as nat);
        lemma_pool(e, vals, vals.len());
        assert(pool_after(e, vals, vals.len())[n - 1] == (if claimed_by(
            e,
            vals,
            vals.len(),
            n - 1,
        ) {
            None
        } else {
            Some(e.members[n - 1])
        }));
    }
}

/// The list has the claimed members in the order of the values, and behind them, in the
/// order of the metadata, the members that no value claims and that are not public. The
/// values without a member and the public members without a value are recorded behind
/// what was recorded before. No other fact of the entity changes, and nothing is lost:
/// each value claims or is recorded, and each member is claimed, kept or recorded.
pub proof fn law_list_is_the_claims_and_the_hidden_rest(
    e: EntityModel,
    vals: Seq<ModuleMemberValModel>,
)
    ensures
        ({
            let n = e.members.len();
            let c = claimed_members(e, vals, vals.len());
            let r = hidden_leftovers(e, vals, n);
            let u = unmatched_vals(e, vals, vals.len());
            let p = public_leftovers(e, vals, n);
            &&& rebuilt(e, vals) == (EntityModel {
                members: c + r,
                skipped_members: e.skipped_members + u + p,
                ..e
            })
            &&& c.len() + u.len() == vals.len()
            &&& c.len() + r.len() + p.len() == e.members.len()
        }),
{
    lemma_claims(e, vals, vals.len());
    lemma_leftovers(e, vals, e.members.len());
    lemma_claimed_count(e, vals, vals.len());
    lemma_leftover_count(e, vals, e.members.len());
    lemma_pool(e, vals, vals.len());
    let list = list_after(e, vals, vals.len());
    assert(claims_from(unclaimed(e), vals, 0) == list);
    assert(leftovers_from(list, 0) == list_with(e, vals, e.members.len()));
}

/// The method `b` is `a`, but for the facts that F# adds.
pub open spec fn same_method(a: MethodLikeModel, b: MethodLikeModel) -> bool {
    b == (MethodLikeModel {
        source_name: b.source_name,
        definition_range: b.definition_range,
        is_module_value_binding: b.is_module_value_binding,
        is_extension_method: b.is_extension_method,
        augmentation: b.augmentation,
        ..a
    })
}

/// A claimed method is listed with the facts that the metadata has of it, but for its F#
/// name, its place of declaration, and whether it is a value, an extension or an
/// augmentation; what the metadata marks as an extension stays one. A claimed field is
/// listed as it is.
pub proof fn law_listed_members_keep_their_facts(
    e: EntityModel,
    vals: Seq<ModuleMemberValModel>,
    i: nat,
)
    requires
        i < vals.len(),
        claim(e, vals, i) is Some,
    ensures
        ({
            let m = e.members[claim(e, vals, i)->0];
            let l = listed(vals, vals[i as int], m);
            match m {
                MemberModel::Method(a) => {
                    &&& l is Method && same_method(a, l->Method_0)
                    &&& a.is_extension_method ==> l->Method_0.is_extension_method
                },
                _ => l == m,
            }
        }),
{
    law_a_claim_is_a_member_that_is_left(e, vals, i);
}

} // verus!
