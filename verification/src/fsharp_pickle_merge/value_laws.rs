//! What the members of a module and its extension members are, in terms of the values
//! that the pickle declares.
use crate::fsharp_pickle::model::{
    PickledArgReprInfo, PickledCcu, PickledRange, PickledVal, TyparKind,
};
use crate::fsharp_pickle_merge::changes;
use crate::fsharp_pickle_merge::changes::Change;
use crate::fsharp_pickle_merge::extension_index;
use crate::fsharp_pickle_merge::extension_index::ExtensionTargetModel;
use crate::fsharp_pickle_merge::frame;
use crate::fsharp_pickle_merge::lookup;
use crate::fsharp_pickle_merge::module_vals;
use crate::fsharp_pickle_merge::module_vals::ModuleMemberValModel;
use crate::fsharp_pickle_merge::names;
use crate::fsharp_pickle_merge::steps;
use crate::fsharp_pickle_merge::walk;
use crate::fsharp_pickle_merge::walk::VisitModel;
use crate::model::{EntityModel, FsharpSourceRangeModel};
use crate::name_set;
use crate::selection;
use vstd::prelude::*;

verus! {

/// The place is that of the range: in the file whose name stands at its index, from its
/// start to its end.
pub open spec fn is_place_of(
    ccu: PickledCcu,
    place: Option<FsharpSourceRangeModel>,
    r: PickledRange,
) -> bool {
    match place {
        Some(p) => {
            &&& r.file < ccu.header.strings@.len()
            &&& p.file == ccu.header.strings@[r.file as int]@
            &&& p.start_line == r.start.line && p.start_column == r.start.column
            &&& p.end_line == r.end.line && p.end_column == r.end.column
        },
        None => r.file >= ccu.header.strings@.len(),
    }
}

/// How many arguments the groups hold together.
pub open spec fn total(groups: Seq<Vec<PickledArgReprInfo>>) -> nat
    decreases groups.len(),
{
    if groups.len() == 0 {
        0
    } else {
        groups[0]@.len() + total(groups.drop_first())
    }
}

/// Counting from the front is counting from the back.
proof fn lemma_total(groups: Seq<Vec<PickledArgReprInfo>>, n: nat)
    requires
        n <= groups.len(),
    ensures
        total(groups) == module_vals::arguments_in(groups, n) + total(groups.skip(n as int)),
    decreases n,
{
    if n == 0 {
        assert(groups.skip(0) =~= groups);
    } else {
        lemma_total(groups, (n - 1) as nat);
        let left = groups.skip(n - 1);
        assert(left[0] == groups[n - 1]);
        assert(left.drop_first() =~= groups.skip(n as int));
    }
}

/// The value is an extension member: bit eight of its flags.
pub open spec fn extends(v: PickledVal) -> bool {
    v.flags & 0x100 != 0
}

/// The value is a member of instances.
pub open spec fn on_instances(v: PickledVal) -> bool {
    v.member_info is Some && v.member_info->0.flags.is_instance
}

/// The facts `m` are those of the value under the stamp `vi`.
pub open spec fn are_facts_of(ccu: PickledCcu, m: ModuleMemberValModel, vi: u32) -> bool {
    let v = ccu.tables.vals@[vi as int];
    &&& m.val_index == vi
    &&& m.logical_name == v.logical_name@
    &&& m.compiled_name is Some <==> v.compiled_name is Some
    &&& v.compiled_name is Some ==> m.compiled_name->0 == v.compiled_name->0@
    &&& m.il_arity is Some <==> v.repr_info is Some
    &&& m.arg_group_count is Some <==> v.repr_info is Some
    &&& v.repr_info is Some && total(v.repr_info->0.arg_repr@) <= usize::MAX ==> m.il_arity->0
        == total(v.repr_info->0.arg_repr@)
    &&& v.repr_info is Some ==> m.arg_group_count->0 == v.repr_info->0.arg_repr@.len()
    &&& m.is_instance <==> on_instances(v)
    &&& m.is_member <==> v.member_info is Some
    &&& m.is_extension <==> extends(v)
    &&& m.is_generic <==> v.repr_info is Some && exists|i: int|
        0 <= i < v.repr_info->0.typar_repr@.len() && (
        #[trigger] v.repr_info->0.typar_repr@[i]).kind == TyparKind::Type
    &&& m.is_literal <==> v.literal_value is Some
    &&& m.is_public <==> v.access@.len() == 0
    &&& v.other_range is Some ==> is_place_of(ccu, m.definition_range, v.other_range->0)
    &&& v.other_range is None && v.range is Some ==> is_place_of(
        ccu,
        m.definition_range,
        v.range->0,
    )
    &&& v.other_range is None && v.range is None ==> m.definition_range is None
}

/// The value at a place of the list belongs to the module itself: it is no member, or an
/// extension member.
pub open spec fn is_own_value(ccu: PickledCcu, vals: Seq<u32>) -> spec_fn(int) -> bool {
    |i: int|
        ccu.tables.vals@[vals[i] as int].member_info is None || extends(
            ccu.tables.vals@[vals[i] as int],
        )
}

/// The facts of the values of a module are taken from its own values alone, from each of
/// them, in their order; and they fail only for a stamp that is not in the table.
pub proof fn law_the_facts_are_those_of_the_own_values(ccu: PickledCcu, vals: Seq<u32>)
    ensures
        ({
            let r = module_vals::member_vals_from(ccu, vals, 0, Seq::empty());
            &&& r is Ok <==> forall|i: int|
                0 <= i < vals.len() ==> (#[trigger] vals[i]) < ccu.tables.vals@.len()
            &&& r is Ok ==> exists|order: Seq<int>|
                {
                    &&& #[trigger] selection::picks(
                        order,
                        vals.len() as int,
                        is_own_value(ccu, vals),
                    )
                    &&& order.len() == r->Ok_0.len()
                    &&& forall|j: int|
                        0 <= j < order.len() ==> are_facts_of(
                            ccu,
                            #[trigger] r->Ok_0[j],
                            vals[order[j]],
                        )
                }
        }),
{
    let p = is_own_value(ccu, vals);
    let make = facts(ccu, vals);
    let r = module_vals::member_vals_from(ccu, vals, 0, Seq::empty());
    lemma_values(ccu, vals, 0);
    let order = selection::picked(vals.len(), p);
    selection::lemma_picked(vals.len(), p);
    if r is Ok {
        assert forall|j: int| 0 <= j < order.len() implies are_facts_of(
            ccu,
            #[trigger] r->Ok_0[j],
            vals[order[j]],
        ) by {
            let v = ccu.tables.vals@[vals[order[j]] as int];
            assert(r->Ok_0[j] == module_vals::member_val(ccu, vals[order[j]], v));
            lemma_facts(ccu, vals[order[j]]);
        }
    }
}

/// The facts that are taken from a value are its facts.
proof fn lemma_facts(ccu: PickledCcu, vi: u32)
    ensures
        are_facts_of(
            ccu,
            module_vals::member_val(ccu, vi, ccu.tables.vals@[vi as int]),
            vi,
        ),
{
    let v = ccu.tables.vals@[vi as int];
    let m = module_vals::member_val(ccu, vi, v);
    if let Some(info) = v.repr_info {
        let groups = info.arg_repr@;
        lemma_total(groups, groups.len());
        assert(groups.skip(groups.len() as int).len() == 0);
        let n = module_vals::arguments_in(groups, groups.len());
        assert(n == total(groups));
        if n <= usize::MAX {
            vstd::arithmetic::div_mod::lemma_small_mod(n, (usize::MAX + 1) as nat);
        }
        assert(info.arg_repr.len() == groups.len());
        assert(m.is_generic <==> exists|i: int|
            0 <= i < v.repr_info->0.typar_repr@.len() && (
            #[trigger] v.repr_info->0.typar_repr@[i]).kind == TyparKind::Type);
    }
    assert(v.compiled_name is Some ==> m.compiled_name->0 == v.compiled_name->0@);
}

/// The facts of the value at a place of the list.
spec fn facts(ccu: PickledCcu, vals: Seq<u32>) -> spec_fn(int) -> ModuleMemberValModel {
    |i: int| module_vals::member_val(ccu, vals[i], ccu.tables.vals@[vals[i] as int])
}

proof fn lemma_values(ccu: PickledCcu, vals: Seq<u32>, n: nat)
    requires
        n <= vals.len(),
        forall|i: int| 0 <= i < n ==> (#[trigger] vals[i]) < ccu.tables.vals@.len(),
    ensures
        ({
            let acc = selection::made(
                selection::picked(n, is_own_value(ccu, vals)),
                facts(ccu, vals),
            );
            let r = module_vals::member_vals_from(ccu, vals, n, acc);
            &&& r is Ok <==> forall|i: int|
                0 <= i < vals.len() ==> (#[trigger] vals[i]) < ccu.tables.vals@.len()
            &&& r is Ok ==> r->Ok_0 == selection::made(
                selection::picked(vals.len(), is_own_value(ccu, vals)),
                facts(ccu, vals),
            )
        }),
        n == 0 ==> selection::made(
            selection::picked(n, is_own_value(ccu, vals)),
            facts(ccu, vals),
        ) == Seq::<ModuleMemberValModel>::empty(),
    decreases vals.len() - n,
{
    let p = is_own_value(ccu, vals);
    let make = facts(ccu, vals);
    if n == 0 {
        assert(selection::made(selection::picked(0, p), make) =~= Seq::empty());
    }
    if n < vals.len() {
        selection::lemma_made_next(n, p, make);
        if vals[n as int] < ccu.tables.vals@.len() {
            lemma_values(ccu, vals, n + 1);
        }
    }
}

/// The value under the stamp is an extension member of instances, or a static one, with
/// this name.
pub open spec fn extends_under(ccu: PickledCcu, vi: u32, instance: bool, name: Seq<char>) -> bool {
    let v = ccu.tables.vals@[vi as int];
    extends(v) && on_instances(v) == instance && v.logical_name@ == name
}

/// `list` holds, sorted and each once, the names of the extension members among the
/// values.
pub open spec fn lists_extensions(
    ccu: PickledCcu,
    vals: Seq<u32>,
    instance: bool,
    list: Seq<Seq<char>>,
) -> bool {
    &&& name_set::strictly_sorted(list)
    &&& forall|name: Seq<char>|
        #![trigger list.contains(name)]
        list.contains(name) <==> exists|k: int|
            0 <= k < vals.len() && extends_under(ccu, #[trigger] vals[k], instance, name)
}

/// The collected names are those of the extension members.
proof fn lemma_listed(ccu: PickledCcu, vals: Seq<u32>, instance: bool)
    requires
        extension_index::names_from(ccu, vals, 0, instance, Seq::empty()) is Ok,
    ensures
        lists_extensions(
            ccu,
            vals,
            instance,
            extension_index::names_from(ccu, vals, 0, instance, Seq::empty())->Ok_0,
        ),
{
    let none = Seq::<Seq<char>>::empty();
    extension_index::law_extension_names_are_sorted(ccu, vals, 0, instance, none);
    let r = extension_index::names_from(ccu, vals, 0, instance, none)->Ok_0;
    assert forall|name: Seq<char>| #![trigger r.contains(name)] r.contains(name) <==> exists|k: int|
        0 <= k < vals.len() && extends_under(ccu, #[trigger] vals[k], instance, name) by {
        assert(!none.contains(name));
        if r.contains(name) {
            let k = choose|k: int|
                0 <= k < vals.len() && extension_index::is_named_extension(
                    ccu,
                    #[trigger] vals[k],
                    instance,
                    name,
                );
            assert(extends_under(ccu, vals[k], instance, name));
        }
        if exists|k: int|
            0 <= k < vals.len() && extends_under(ccu, #[trigger] vals[k], instance, name) {
            let k = choose|k: int|
                0 <= k < vals.len() && extends_under(ccu, #[trigger] vals[k], instance, name);
            assert(extension_index::is_named_extension(ccu, vals[k], instance, name));
        }
    }
}

/// The visit is of a module or type other than the root that lies at this path in the
/// metadata.
pub open spec fn is_module_at(
    ccu: PickledCcu,
    v: VisitModel,
    namespace: Seq<Seq<char>>,
    chain: Seq<Seq<char>>,
) -> bool {
    &&& !v.is_root
    &&& !(walk::tycon(ccu, v.stamp).module_type.is_type is Namespace)
    &&& v.namespace == namespace
    &&& v.type_chain.push(names::clr_name_of(walk::tycon(ccu, v.stamp))) == chain
}

/// The values of the visited module.
pub open spec fn values_of(ccu: PickledCcu, v: VisitModel) -> Seq<u32> {
    walk::tycon(ccu, v.stamp).module_type.vals@
}

/// The entity lists the extension members of the visited module.
pub open spec fn lists_those_of(ccu: PickledCcu, v: VisitModel, b: EntityModel) -> bool {
    &&& lists_extensions(ccu, values_of(ccu, v), true, b.extension_member_names)
    &&& lists_extensions(ccu, values_of(ccu, v), false, b.static_extension_member_names)
}

/// The entity at a path has the extension names that it had, or those of the extension
/// members of a module that is visited and lies there.
pub open spec fn indexed(ccu: PickledCcu, visits: Seq<VisitModel>) -> steps::Step {
    |n: Seq<Seq<char>>, c: Seq<Seq<char>>, a: EntityModel, b: EntityModel|
        {
            &&& a.name == b.name && a.namespace == b.namespace
            &&& {
                ||| b.extension_member_names == a.extension_member_names
                    && b.static_extension_member_names == a.static_extension_member_names
                ||| exists|i: int|
                    0 <= i < visits.len() && is_module_at(ccu, #[trigger] visits[i], n, c)
                        && lists_those_of(ccu, visits[i], b)
            }
        }
}

/// Setting the extension names of a target.
spec fn naming(ts: Seq<ExtensionTargetModel>) -> Seq<Change> {
    Seq::new(
        ts.len(),
        |j: int|
            Change {
                made: true,
                namespace: ts[j].namespace,
                chain: ts[j].type_chain,
                change: |e: EntityModel|
                    EntityModel {
                        extension_member_names: ts[j].instance,
                        static_extension_member_names: ts[j].statics,
                        ..e
                    },
            },
    )
}

proof fn lemma_naming(es: Seq<EntityModel>, ts: Seq<ExtensionTargetModel>, i: nat)
    ensures
        extension_index::indexed_from(es, ts, i) == changes::applied_from(es, naming(ts), i),
    decreases ts.len() - i,
{
    if i < ts.len() {
        let o = naming(ts)[i as int];
        assert(o.applied(es) == extension_index::with_target(es, ts[i as int]));
        lemma_naming(o.applied(es), ts, i + 1);
    }
}

/// The visit has a target.
spec fn has_target(ccu: PickledCcu, visits: Seq<VisitModel>) -> spec_fn(int) -> bool {
    |i: int| extension_index::target_at(ccu, visits[i]) matches Ok(Some(_))
}

/// The target of the visit.
spec fn target_of(ccu: PickledCcu, visits: Seq<VisitModel>) -> spec_fn(
    int,
) -> ExtensionTargetModel {
    |i: int| extension_index::target_at(ccu, visits[i])->Ok_0->0
}

proof fn lemma_targets(ccu: PickledCcu, visits: Seq<VisitModel>, n: nat)
    requires
        n <= visits.len(),
        extension_index::targets_from(
            ccu,
            visits,
            n,
            selection::made(
                selection::picked(n, has_target(ccu, visits)),
                target_of(ccu, visits),
            ),
        ) is Ok,
    ensures
        extension_index::targets_from(
            ccu,
            visits,
            n,
            selection::made(
                selection::picked(n, has_target(ccu, visits)),
                target_of(ccu, visits),
            ),
        )->Ok_0 == selection::made(
            selection::picked(visits.len(), has_target(ccu, visits)),
            target_of(ccu, visits),
        ),
        forall|i: int|
            n <= i < visits.len() ==> extension_index::target_at(
                ccu,
                #[trigger] visits[i],
            ) is Ok,
    decreases visits.len() - n,
{
    if n < visits.len() {
        selection::lemma_made_next(n, has_target(ccu, visits), target_of(ccu, visits));
        lemma_targets(ccu, visits, n + 1);
    }
}

/// The targets of the visits, with their positions.
proof fn lemma_all_targets(ccu: PickledCcu, visits: Seq<VisitModel>)
    requires
        extension_index::targets_from(ccu, visits, 0, Seq::empty()) is Ok,
    ensures
        selection::picks(
            selection::picked(visits.len(), has_target(ccu, visits)),
            visits.len() as int,
            has_target(ccu, visits),
        ),
        extension_index::targets_from(ccu, visits, 0, Seq::empty())->Ok_0 == selection::made(
            selection::picked(visits.len(), has_target(ccu, visits)),
            target_of(ccu, visits),
        ),
        forall|i: int|
            0 <= i < visits.len() ==> extension_index::target_at(
                ccu,
                #[trigger] visits[i],
            ) is Ok,
{
    let p = has_target(ccu, visits);
    assert(selection::made(selection::picked(0, p), target_of(ccu, visits)) =~= Seq::empty());
    lemma_targets(ccu, visits, 0);
    selection::lemma_picked(visits.len(), p);
}

/// A target lists the extension members of its module.
proof fn lemma_target(ccu: PickledCcu, v: VisitModel, e: EntityModel)
    requires
        extension_index::target_at(ccu, v) matches Ok(Some(_)),
    ensures
        ({
            let t = extension_index::target_at(ccu, v)->Ok_0->0;
            &&& is_module_at(ccu, v, t.namespace, t.type_chain)
            &&& lists_those_of(
                ccu,
                v,
                EntityModel {
                    extension_member_names: t.instance,
                    static_extension_member_names: t.statics,
                    ..e
                },
            )
        }),
{
    lemma_listed(ccu, values_of(ccu, v), true);
    lemma_listed(ccu, values_of(ccu, v), false);
}

/// A module with an extension member has a target.
proof fn lemma_has_target(ccu: PickledCcu, v: VisitModel, i: int)
    requires
        extension_index::target_at(ccu, v) is Ok,
        !v.is_root,
        !(walk::tycon(ccu, v.stamp).module_type.is_type is Namespace),
        0 <= i < values_of(ccu, v).len(),
        extends(ccu.tables.vals@[values_of(ccu, v)[i] as int]),
    ensures
        extension_index::target_at(ccu, v) matches Ok(Some(_)),
{
    let vals = values_of(ccu, v);
    let member = ccu.tables.vals@[vals[i] as int];
    let instance = on_instances(member);
    lemma_listed(ccu, vals, instance);
    let list = extension_index::names_from(ccu, vals, 0, instance, Seq::empty())->Ok_0;
    assert(extends_under(ccu, vals[i], instance, member.logical_name@));
    assert(list.contains(member.logical_name@));
    assert(list.len() > 0);
}

/// Every list of extension names that the index writes is that of the extension members
/// of a module of the pickle that lies at the path of the entity: sorted, each name once,
/// those of instances and the static ones apart.
pub proof fn law_written_extension_names_are_those_of_the_module(
    es: Seq<EntityModel>,
    ccu: PickledCcu,
    visits: Seq<VisitModel>,
)
    requires
        extension_index::targets_from(ccu, visits, 0, Seq::empty()) is Ok,
    ensures
        steps::stepped_all(
            es,
            extension_index::indexed_from(
                es,
                extension_index::targets_from(ccu, visits, 0, Seq::empty())->Ok_0,
                0,
            ),
            indexed(ccu, visits),
        ),
{
    let ts = extension_index::targets_from(ccu, visits, 0, Seq::empty())->Ok_0;
    let p = indexed(ccu, visits);
    assert(steps::is_step(p)) by {
        reveal(steps::is_step);
    }
    lemma_all_targets(ccu, visits);
    lemma_naming(es, ts, 0);
    let order = selection::picked(visits.len(), has_target(ccu, visits));
    let cs = naming(ts);
    assert forall|j: int, e: EntityModel|
        #![trigger (cs[j].change)(e)]
        0 <= j < cs.len() && cs[j].made implies p(
        cs[j].namespace,
        cs[j].chain,
        frame::bare(e),
        frame::bare((cs[j].change)(e)),
    ) by {
        let v = visits[order[j]];
        assert(has_target(ccu, visits)(order[j]));
        lemma_target(ccu, v, frame::bare(e));
        assert(is_module_at(ccu, visits[order[j]], cs[j].namespace, cs[j].chain));
    }
    changes::lemma_steps(es, cs, 0, p);
}

/// The extension members of a module reach the tree: where an entity lies at the path of
/// a module that has extension members, and no module later in the walk lies there, its
/// lists are those of that module after the index.
#[verifier::spinoff_prover]
#[verifier::rlimit(60)]
pub proof fn law_the_extension_names_of_a_module_are_written(
    es: Seq<EntityModel>,
    ccu: PickledCcu,
    visits: Seq<VisitModel>,
    k: int,
    path: (Seq<Seq<char>>, Seq<Seq<char>>),
)
    requires
        extension_index::targets_from(ccu, visits, 0, Seq::empty()) is Ok,
        0 <= k < visits.len(),
        is_module_at(ccu, visits[k], path.0, path.1),
        exists|i: int|
            0 <= i < values_of(ccu, visits[k]).len() && extends(
                ccu.tables.vals@[#[trigger] values_of(ccu, visits[k])[i] as int],
            ),
        forall|j: int|
            k < j < visits.len() ==> !is_module_at(ccu, #[trigger] visits[j], path.0, path.1),
        lookup::get(es, path.0, path.1) is Some,
    ensures
        ({
            let after = extension_index::indexed_from(
                es,
                extension_index::targets_from(ccu, visits, 0, Seq::empty())->Ok_0,
                0,
            );
            let b = lookup::get(after, path.0, path.1);
            b is Some && lists_those_of(ccu, visits[k], b->0)
        }),
{
    let ts = extension_index::targets_from(ccu, visits, 0, Seq::empty())->Ok_0;
    lemma_all_targets(ccu, visits);
    lemma_naming(es, ts, 0);
    let p = has_target(ccu, visits);
    let order = selection::picked(visits.len(), p);
    let cs = naming(ts);
    let v = visits[k];
    assert(extension_index::target_at(ccu, visits[k]) is Ok);
    let i = choose|i: int|
        0 <= i < values_of(ccu, v).len() && extends(
            ccu.tables.vals@[#[trigger] values_of(ccu, v)[i] as int],
        );
    lemma_has_target(ccu, v, i);
    assert(p(k));
    let m = choose|m: int| 0 <= m < order.len() && order[m] == k;
    lemma_target(ccu, v, arbitrary());
    let holds = |b: EntityModel| lists_those_of(ccu, v, b);
    assert forall|e: EntityModel|
        holds(frame::bare(#[trigger] (cs[m].change)(e))) by {
        lemma_target(ccu, v, frame::bare(e));
    }
    assert forall|j: int| m < j < cs.len() implies !(#[trigger] cs[j]).is_at(
        cs[m].namespace,
        cs[m].chain,
    ) by {
        assert(order[m] < order[j]);
        assert(p(order[j]));
        lemma_target(ccu, visits[order[j]], arbitrary());
        assert(!is_module_at(ccu, visits[order[j]], path.0, path.1));
    }
    changes::lemma_last(es, cs, 0, m, holds);
    let after = extension_index::indexed_from(es, ts, 0);
    let b = lookup::get(after, path.0, path.1)->0;
    assert(frame::bare(b).extension_member_names
        == b.extension_member_names);
}

} // verus!
