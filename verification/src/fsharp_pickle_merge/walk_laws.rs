//! Where the entities of a pickle lie in the metadata.
use crate::fsharp_pickle::model::PickledCcu;
use crate::fsharp_pickle_merge::names;
use crate::fsharp_pickle_merge::overlay_laws::{
    is_stem, law_an_entity_goes_by_its_compiled_name,
};
use crate::fsharp_pickle_merge::targets;
use crate::fsharp_pickle_merge::walk;
use crate::fsharp_pickle_merge::walk::VisitModel;
use vstd::prelude::*;

verus! {

/// What is declared in an entity lies below it: in the root it lies at the top, in a
/// namespace it has the logical name of that at the end of its namespace, and in a module
/// or type it has the name of that in the metadata at the end of its chain.
pub proof fn law_what_is_declared_lies_below(ccu: PickledCcu, v: VisitModel, k: int)
    ensures
        ({
            let e = walk::tycon(ccu, v.stamp);
            let c = walk::child_visit(ccu, v, k);
            &&& !c.is_root
            &&& c.stamp == e.module_type.entities@[k]
            &&& v.is_root ==> c.namespace == v.namespace && c.type_chain == v.type_chain
            &&& !v.is_root && e.module_type.is_type is Namespace ==> {
                &&& c.type_chain == v.type_chain
                &&& c.namespace.len() == v.namespace.len() + 1
                &&& c.namespace.drop_last() == v.namespace
                &&& c.namespace.last() == e.logical_name@
            }
            &&& !v.is_root && !(e.module_type.is_type is Namespace) ==> {
                &&& c.namespace == v.namespace
                &&& c.type_chain.len() == v.type_chain.len() + 1
                &&& c.type_chain.drop_last() == v.type_chain
                &&& is_stem(
                    c.type_chain.last(),
                    match e.compiled_name {
                        Some(n) => n@,
                        None => e.logical_name@,
                    },
                )
            }
        }),
{
    let e = walk::tycon(ccu, v.stamp);
    law_an_entity_goes_by_its_compiled_name(e);
    assert(v.namespace.push(e.logical_name@).drop_last() =~= v.namespace);
    assert(v.type_chain.push(names::clr_name_of(e)).drop_last() =~= v.type_chain);
}

/// The walk starts at the root, at the top.
pub proof fn law_the_walk_starts_at_the_root(ccu: PickledCcu)
    requires
        walk::steps_of(ccu).end is None,
    ensures
        ({
            let visits = walk::steps_of(ccu).visits;
            &&& visits.len() > 0
            &&& visits[0].stamp == ccu.root_entity
            &&& visits[0].is_root
            &&& visits[0].namespace.len() == 0 && visits[0].type_chain.len() == 0
        }),
{
    assert(!Seq::<u32>::empty().contains(ccu.root_entity));
}

/// The visit is of a module or type other than the root.
pub open spec fn has_path(ccu: PickledCcu, v: VisitModel) -> bool {
    !v.is_root && !(walk::tycon(ccu, v.stamp).module_type.is_type is Namespace)
}

/// The paths with that of one more visit.
spec fn with_path(ccu: PickledCcu, v: VisitModel, acc: Map<u32, Seq<Seq<char>>>) -> Map<
    u32,
    Seq<Seq<char>>,
> {
    if has_path(ccu, v) {
        acc.insert(
            v.stamp,
            (v.namespace + v.type_chain).push(names::clr_name_of(walk::tycon(ccu, v.stamp))),
        )
    } else {
        acc
    }
}

/// Only a module or type of the pickle gets a path: what no visit of one has stays.
pub proof fn law_nothing_else_gets_a_path(
    ccu: PickledCcu,
    visits: Seq<VisitModel>,
    i: nat,
    acc: Map<u32, Seq<Seq<char>>>,
    s: u32,
)
    requires
        i <= visits.len(),
        forall|j: int|
            i <= j < visits.len() && (#[trigger] visits[j]).stamp == s ==> !has_path(
                ccu,
                visits[j],
            ),
    ensures
        ({
            let paths = targets::local_paths_from(ccu, visits, i, acc);
            &&& paths.dom().contains(s) == acc.dom().contains(s)
            &&& acc.dom().contains(s) ==> paths[s] == acc[s]
        }),
    decreases visits.len() - i,
{
    if i < visits.len() {
        let v = visits[i as int];
        let next = with_path(ccu, v, acc);
        assert(v.stamp == s ==> !has_path(ccu, v));
        assert(targets::local_paths_from(ccu, visits, i, acc) == targets::local_paths_from(
            ccu,
            visits,
            i + 1,
            next,
        ));
        law_nothing_else_gets_a_path(ccu, visits, i + 1, next, s);
    }
}

/// A reference to a module or type of the pickle is named by where it lies: its namespace,
/// the types around it, and its name.
pub proof fn law_local_paths_are_where_entities_lie(
    ccu: PickledCcu,
    visits: Seq<VisitModel>,
    i: nat,
    acc: Map<u32, Seq<Seq<char>>>,
    k: int,
)
    requires
        i <= k < visits.len(),
        has_path(ccu, visits[k]),
        forall|j: int|
            k < j < visits.len() && (#[trigger] visits[j]).stamp == visits[k].stamp ==> !has_path(
                ccu,
                visits[j],
            ),
    ensures
        ({
            let paths = targets::local_paths_from(ccu, visits, i, acc);
            &&& paths.dom().contains(visits[k].stamp)
            &&& paths[visits[k].stamp] == visits[k].namespace + visits[k].type_chain
                + seq![names::clr_name_of(walk::tycon(ccu, visits[k].stamp))]
        }),
    decreases k - i,
{
    let v = visits[i as int];
    let next = with_path(ccu, v, acc);
    assert(targets::local_paths_from(ccu, visits, i, acc) == targets::local_paths_from(
        ccu,
        visits,
        i + 1,
        next,
    ));
    if i < k {
        law_local_paths_are_where_entities_lie(ccu, visits, i + 1, next, k);
    } else {
        law_nothing_else_gets_a_path(ccu, visits, i + 1, next, v.stamp);
        assert(next[v.stamp] =~= v.namespace + v.type_chain + seq![
            names::clr_name_of(walk::tycon(ccu, v.stamp)),
        ]);
    }
}

} // verus!
