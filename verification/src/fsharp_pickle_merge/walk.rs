//! The walk over the pickled entity tree.
//!
//! Every overlay looks at the entities in the same order and with the same
//! position: depth first, each entity before its children, with the namespace
//! and the chain of enclosing types that precede it. A namespace fragment extends
//! the namespace of its children, a module or type extends their chain, and the
//! root, which stands for the assembly, extends neither.
//!
//! The entities are linked by stamps, so a malformed pickle can lead from an
//! entity back to itself. A stamp that repeats on the way down from the root is an
//! error; one that is reached twice on different ways is not.
use crate::error::{Fault, ImportError};
use crate::fsharp_pickle::model::{IsType, PickledCcu, PickledEntity};
use crate::fsharp_pickle_merge::names;
use crate::fsharp_pickle_merge::names::clr_name;
use crate::same::Duplicate;
use vstd::prelude::*;

verus! {

/// One step of the walk: an entity, whether it is the root, and the position of
/// its container.
pub struct Visit {
    pub stamp: u32,
    pub is_root: bool,
    pub namespace: Vec<String>,
    pub type_chain: Vec<String>,
}

/// The model of a [`Visit`].
pub struct VisitModel {
    pub stamp: u32,
    pub is_root: bool,
    pub namespace: Seq<Seq<char>>,
    pub type_chain: Seq<Seq<char>>,
}

impl DeepView for Visit {
    type V = VisitModel;

    open spec fn deep_view(&self) -> VisitModel {
        VisitModel {
            stamp: self.stamp,
            is_root: self.is_root,
            namespace: self.namespace.deep_view(),
            type_chain: self.type_chain.deep_view(),
        }
    }
}

/// The steps of a walk, and the failure that ended it, if any.
pub struct Steps {
    pub visits: Seq<VisitModel>,
    pub end: Option<Fault>,
}

/// The entity under a stamp that is in range.
pub open spec fn tycon(ccu: PickledCcu, stamp: u32) -> PickledEntity {
    ccu.tables.tycons@[stamp as int]
}

/// The namespace of the children of `e`.
pub open spec fn child_namespace(
    e: PickledEntity,
    is_root: bool,
    namespace: Seq<Seq<char>>,
) -> Seq<Seq<char>> {
    if !is_root && e.module_type.is_type == IsType::Namespace {
        namespace.push(e.logical_name@)
    } else {
        namespace
    }
}

/// The chain of enclosing types of the children of `e`.
pub open spec fn child_chain(
    e: PickledEntity,
    is_root: bool,
    type_chain: Seq<Seq<char>>,
) -> Seq<Seq<char>> {
    if !is_root && e.module_type.is_type != IsType::Namespace {
        type_chain.push(names::clr_name_of(e))
    } else {
        type_chain
    }
}

/// The walk from `stamp` down, where `path` holds the stamps above it.
///
/// The stamps of a path are distinct and in range, so a path is never longer than
/// the table; the last branch only makes the recursion well founded.
pub open spec fn steps_from(
    ccu: PickledCcu,
    stamp: u32,
    is_root: bool,
    namespace: Seq<Seq<char>>,
    type_chain: Seq<Seq<char>>,
    path: Seq<u32>,
) -> Steps
    decreases ccu.tables.tycons@.len() - path.len(), 0nat, 0nat,
{
    if path.contains(stamp) {
        Steps { visits: Seq::empty(), end: Some(Fault::PickleEntityCycle { stamp }) }
    } else if stamp >= ccu.tables.tycons@.len() {
        Steps {
            visits: Seq::empty(),
            end: Some(
                Fault::OsgnIndexOutOfRange {
                    kind: "tycon (entity walk)",
                    index: stamp,
                    max: ccu.tables.tycons@.len() as usize,
                },
            ),
        }
    } else if path.len() < ccu.tables.tycons@.len() {
        let e = tycon(ccu, stamp);
        let below = child_steps_from(
            ccu,
            e.module_type.entities@,
            0,
            child_namespace(e, is_root, namespace),
            child_chain(e, is_root, type_chain),
            path.push(stamp),
        );
        Steps {
            visits: seq![VisitModel { stamp, is_root, namespace, type_chain }] + below.visits,
            end: below.end,
        }
    } else {
        arbitrary()
    }
}

/// The walk from the children in `stamps`, from the `i`-th on.
pub open spec fn child_steps_from(
    ccu: PickledCcu,
    stamps: Seq<u32>,
    i: nat,
    namespace: Seq<Seq<char>>,
    type_chain: Seq<Seq<char>>,
    path: Seq<u32>,
) -> Steps
    decreases ccu.tables.tycons@.len() - path.len(), 1nat, stamps.len() - i,
{
    if i >= stamps.len() {
        Steps { visits: Seq::empty(), end: None }
    } else {
        let first = steps_from(ccu, stamps[i as int], false, namespace, type_chain, path);
        if first.end is Some {
            first
        } else {
            let rest = child_steps_from(ccu, stamps, i + 1, namespace, type_chain, path);
            Steps { visits: first.visits + rest.visits, end: rest.end }
        }
    }
}

/// The walk of a whole pickle.
pub open spec fn steps_of(ccu: PickledCcu) -> Steps {
    steps_from(ccu, ccu.root_entity, true, Seq::empty(), Seq::empty(), Seq::empty())
}

/// The stamps of `path` are distinct and within a table of `n` slots.
pub open spec fn proper_path(path: Seq<u32>, n: nat) -> bool {
    path.no_duplicates() && forall|i: int| 0 <= i < path.len() ==> (#[trigger] path[i]) < n
}

/// A proper path is not longer than the table.
proof fn lemma_path_fits(path: Seq<u32>, n: nat)
    requires
        proper_path(path, n),
    ensures
        path.len() <= n,
{
    let ints = path.map_values(|s: u32| s as int);
    assert(ints.no_duplicates());
    ints.unique_seq_to_set();
    let all = vstd::set_lib::set_int_range(0, n as int);
    vstd::set_lib::lemma_int_range(0, n as int);
    assert(ints.to_set().subset_of(all)) by {
        assert forall|x: int| ints.to_set().contains(x) implies all.contains(x) by {
            let i = choose|i: int| 0 <= i < ints.len() && ints[i] == x;
            assert(path[i] < n);
        }
    }
    vstd::set_lib::lemma_len_subset(ints.to_set(), all);
}

/// The visit of the `k`-th child of the entity that `v` visits.
pub open spec fn child_visit(ccu: PickledCcu, v: VisitModel, k: int) -> VisitModel {
    let e = tycon(ccu, v.stamp);
    VisitModel {
        stamp: e.module_type.entities@[k],
        is_root: false,
        namespace: child_namespace(e, v.is_root, v.namespace),
        type_chain: child_chain(e, v.is_root, v.type_chain),
    }
}

/// With an entity, its children are visited.
pub open spec fn covers_children(ccu: PickledCcu, visits: Seq<VisitModel>) -> bool {
    forall|v: VisitModel, k: int|
        #![trigger child_visit(ccu, v, k)]
        visits.contains(v) && 0 <= k < tycon(ccu, v.stamp).module_type.entities@.len()
            ==> visits.contains(child_visit(ccu, v, k))
}

/// What one of two walks visits, both together visit.
proof fn lemma_contains_either(a: Seq<VisitModel>, b: Seq<VisitModel>)
    ensures
        forall|v: VisitModel|
            #[trigger] (a + b).contains(v) <==> a.contains(v) || b.contains(v),
{
    assert forall|v: VisitModel| a.contains(v) || b.contains(v) implies #[trigger] (a
        + b).contains(v) by {
        if a.contains(v) {
            let i = choose|i: int| 0 <= i < a.len() && a[i] == v;
            assert((a + b)[i] == v);
        } else {
            let i = choose|i: int| 0 <= i < b.len() && b[i] == v;
            assert((a + b)[a.len() + i] == v);
        }
    }
}

/// A walk that does not fail starts with the entity it starts from, and covers the
/// children of what it visits.
proof fn lemma_steps_cover(
    ccu: PickledCcu,
    stamp: u32,
    is_root: bool,
    namespace: Seq<Seq<char>>,
    type_chain: Seq<Seq<char>>,
    path: Seq<u32>,
)
    requires
        proper_path(path, ccu.tables.tycons@.len()),
        steps_from(ccu, stamp, is_root, namespace, type_chain, path).end is None,
    ensures
        ({
            let visits = steps_from(ccu, stamp, is_root, namespace, type_chain, path).visits;
            &&& visits.len() > 0
            &&& visits[0] == VisitModel { stamp, is_root, namespace, type_chain }
            &&& covers_children(ccu, visits)
        }),
    decreases ccu.tables.tycons@.len() - path.len(), 0nat, 0nat,
{
    let here = VisitModel { stamp, is_root, namespace, type_chain };
    let deeper = path.push(stamp);
    assert(proper_path(deeper, ccu.tables.tycons@.len()));
    lemma_path_fits(deeper, ccu.tables.tycons@.len());
    let e = tycon(ccu, stamp);
    let stamps = e.module_type.entities@;
    let ns = child_namespace(e, is_root, namespace);
    let chain = child_chain(e, is_root, type_chain);
    let below = child_steps_from(ccu, stamps, 0, ns, chain, deeper);
    lemma_child_steps_cover(ccu, stamps, 0, ns, chain, deeper);
    let visits = seq![here] + below.visits;
    lemma_contains_either(seq![here], below.visits);
    assert forall|v: VisitModel, k: int|
        #![trigger child_visit(ccu, v, k)]
        visits.contains(v) && 0 <= k < tycon(
            ccu,
            v.stamp,
        ).module_type.entities@.len() implies visits.contains(child_visit(ccu, v, k)) by {
        if !below.visits.contains(v) {
            assert(seq![here].contains(v));
            assert(v == here);
        }
        assert(below.visits.contains(child_visit(ccu, v, k)));
    }
}

/// A walk from children that does not fail visits each of them, and covers the
/// children of what it visits.
proof fn lemma_child_steps_cover(
    ccu: PickledCcu,
    stamps: Seq<u32>,
    i: nat,
    namespace: Seq<Seq<char>>,
    type_chain: Seq<Seq<char>>,
    path: Seq<u32>,
)
    requires
        proper_path(path, ccu.tables.tycons@.len()),
        path.len() <= ccu.tables.tycons@.len(),
        child_steps_from(ccu, stamps, i, namespace, type_chain, path).end is None,
    ensures
        ({
            let visits = child_steps_from(ccu, stamps, i, namespace, type_chain, path).visits;
            &&& covers_children(ccu, visits)
            &&& forall|k: int|
                i <= k < stamps.len() ==> visits.contains(
                    (VisitModel {
                        stamp: #[trigger] stamps[k],
                        is_root: false,
                        namespace,
                        type_chain,
                    }),
                )
        }),
    decreases ccu.tables.tycons@.len() - path.len(), 1nat, stamps.len() - i,
{
    if i < stamps.len() {
        let first = steps_from(ccu, stamps[i as int], false, namespace, type_chain, path);
        let rest = child_steps_from(ccu, stamps, i + 1, namespace, type_chain, path);
        lemma_steps_cover(ccu, stamps[i as int], false, namespace, type_chain, path);
        lemma_child_steps_cover(ccu, stamps, i + 1, namespace, type_chain, path);
        let visits = first.visits + rest.visits;
        lemma_contains_either(first.visits, rest.visits);
        assert forall|v: VisitModel, k: int|
            #![trigger child_visit(ccu, v, k)]
            visits.contains(v) && 0 <= k < tycon(
                ccu,
                v.stamp,
            ).module_type.entities@.len() implies visits.contains(child_visit(ccu, v, k)) by {
            if first.visits.contains(v) {
                assert(first.visits.contains(child_visit(ccu, v, k)));
            } else {
                assert(rest.visits.contains(child_visit(ccu, v, k)));
            }
        }
        assert forall|k: int| i <= k < stamps.len() implies visits.contains(
            (VisitModel { stamp: #[trigger] stamps[k], is_root: false, namespace, type_chain }),
        ) by {
            let v = VisitModel { stamp: stamps[k], is_root: false, namespace, type_chain };
            if k == i {
                assert(first.visits[0] == v);
                assert(first.visits.contains(v));
            } else {
                assert(rest.visits.contains(v));
            }
        }
    } else {
        assert(covers_children(ccu, Seq::empty()));
    }
}

/// A walk that does not fail reaches the whole pickle: it starts with the root and,
/// with each entity, it visits all its children, at the position that the entity
/// gives them.
pub proof fn law_the_walk_is_complete(ccu: PickledCcu)
    requires
        steps_of(ccu).end is None,
    ensures
        steps_of(ccu).visits.contains(
            (VisitModel {
                stamp: ccu.root_entity,
                is_root: true,
                namespace: Seq::empty(),
                type_chain: Seq::empty(),
            }),
        ),
        covers_children(ccu, steps_of(ccu).visits),
{
    assert(proper_path(Seq::empty(), ccu.tables.tycons@.len()));
    lemma_steps_cover(ccu, ccu.root_entity, true, Seq::empty(), Seq::empty(), Seq::empty());
    let visits = steps_of(ccu).visits;
    assert(visits.contains(visits[0]));
}

/// Whether `path` holds `stamp`.
fn on_path(path: &Vec<u32>, stamp: u32) -> (r: bool)
    ensures
        r == path@.contains(stamp),
{
    let mut i: usize = 0;
    while i < path.len()
        invariant
            i <= path.len(),
            forall|j: int| 0 <= j < i ==> path@[j] != stamp,
        decreases path.len() - i,
    {
        if path[i] == stamp {
            assert(path@[i as int] == stamp);
            return true;
        }
        i = i + 1;
    }
    false
}

/// Every visit is of an entity of the table.
pub open spec fn in_table(ccu: PickledCcu, visits: Seq<VisitModel>) -> bool {
    forall|i: int| 0 <= i < visits.len() ==> (#[trigger] visits[i]).stamp
        < ccu.tables.tycons@.len()
}

/// Walk from `stamp` down and append the visits to `out`.
fn walk_entity_tree(
    pickled: &PickledCcu,
    stamp: u32,
    is_root: bool,
    namespace: &Vec<String>,
    type_chain: &Vec<String>,
    path: &mut Vec<u32>,
    out: &mut Vec<Visit>,
) -> (r: Result<(), ImportError>)
    requires
        proper_path(old(path)@, pickled.tables.tycons@.len()),
        in_table(*pickled, old(out).deep_view()),
    ensures
        in_table(*pickled, final(out).deep_view()),
        r is Ok || old(path)@.contains(stamp) || stamp >= pickled.tables.tycons@.len()
            ==> final(path)@ == old(path)@,
        ({
            let steps = steps_from(
                *pickled,
                stamp,
                is_root,
                namespace.deep_view(),
                type_chain.deep_view(),
                old(path)@,
            );
            &&& final(out).deep_view() == old(out).deep_view() + steps.visits
            &&& match steps.end {
                None => r is Ok,
                Some(e) => r is Err && r->Err_0.deep_view() == e,
            }
        }),
    decreases pickled.tables.tycons@.len() - old(path)@.len(), 0nat,
{
    if on_path(path, stamp) {
        assert(out.deep_view() =~= old(out).deep_view() + Seq::<VisitModel>::empty());
        return Err(ImportError::PickleEntityCycle { stamp });
    }
    if stamp as usize >= pickled.tables.tycons.len() {
        assert(out.deep_view() =~= old(out).deep_view() + Seq::<VisitModel>::empty());
        return Err(
            ImportError::OsgnIndexOutOfRange {
                kind: "tycon (entity walk)",
                index: stamp,
                max: pickled.tables.tycons.len(),
            },
        );
    }
    let ghost n = pickled.tables.tycons@.len();
    let ghost here = VisitModel {
        stamp,
        is_root,
        namespace: namespace.deep_view(),
        type_chain: type_chain.deep_view(),
    };
    let entity = &pickled.tables.tycons[stamp as usize];
    out.push(Visit { stamp, is_root, namespace: namespace.dup(), type_chain: type_chain.dup() });
    assert(out.deep_view() =~= old(out).deep_view().push(here));
    let mut child_namespace: Vec<String> = namespace.dup();
    let mut child_type_chain: Vec<String> = type_chain.dup();
    if !is_root {
        match entity.module_type.is_type {
            IsType::Namespace => {
                let ghost before = child_namespace.deep_view();
                child_namespace.push(entity.logical_name.clone());
                assert(child_namespace.deep_view() =~= before.push(entity.logical_name@));
            },
            IsType::ModuleOrType | IsType::FSharpModuleWithSuffix => {
                let ghost before = child_type_chain.deep_view();
                child_type_chain.push(clr_name(entity));
                assert(child_type_chain.deep_view() =~= before.push(names::clr_name_of(*entity)));
            },
        }
    }
    path.push(stamp);
    assert(proper_path(path@, n)) by {
        assert(old(path)@.push(stamp) =~= path@);
    }
    proof {
        lemma_path_fits(path@, n);
    }
    let r = walk_children(
        pickled,
        &entity.module_type.entities,
        &child_namespace,
        &child_type_chain,
        path,
        out,
    );
    proof {
        let steps = steps_from(
            *pickled,
            stamp,
            is_root,
            namespace.deep_view(),
            type_chain.deep_view(),
            old(path)@,
        );
        let below = child_steps_from(
            *pickled,
            entity.module_type.entities@,
            0,
            child_namespace.deep_view(),
            child_type_chain.deep_view(),
            old(path)@.push(stamp),
        );
        assert(steps.visits == seq![here] + below.visits);
        assert(old(out).deep_view().push(here) + below.visits =~= old(out).deep_view() + (
        seq![here] + below.visits));
    }
    r?;
    path.pop();
    assert(path@ =~= old(path)@);
    Ok(())
}

/// Walk from each of the children in `stamps` down.
fn walk_children(
    pickled: &PickledCcu,
    stamps: &Vec<u32>,
    namespace: &Vec<String>,
    type_chain: &Vec<String>,
    path: &mut Vec<u32>,
    out: &mut Vec<Visit>,
) -> (r: Result<(), ImportError>)
    requires
        proper_path(old(path)@, pickled.tables.tycons@.len()),
        in_table(*pickled, old(out).deep_view()),
        old(path)@.len() <= pickled.tables.tycons@.len(),
    ensures
        in_table(*pickled, final(out).deep_view()),
        r is Ok ==> final(path)@ == old(path)@,
        ({
            let steps = child_steps_from(
                *pickled,
                stamps@,
                0,
                namespace.deep_view(),
                type_chain.deep_view(),
                old(path)@,
            );
            &&& final(out).deep_view() == old(out).deep_view() + steps.visits
            &&& match steps.end {
                None => r is Ok,
                Some(e) => r is Err && r->Err_0.deep_view() == e,
            }
        }),
    decreases pickled.tables.tycons@.len() - old(path)@.len(), 1nat,
{
    let ghost all = child_steps_from(
        *pickled,
        stamps@,
        0,
        namespace.deep_view(),
        type_chain.deep_view(),
        old(path)@,
    );
    let mut i: usize = 0;
    assert(out.deep_view() + all.visits =~= old(out).deep_view() + all.visits);
    while i < stamps.len()
        invariant
            i <= stamps.len(),
            proper_path(path@, pickled.tables.tycons@.len()),
            path@ == old(path)@,
            in_table(*pickled, out.deep_view()),
            all == child_steps_from(
                *pickled,
                stamps@,
                0,
                namespace.deep_view(),
                type_chain.deep_view(),
                old(path)@,
            ),
            all.end == child_steps_from(
                *pickled,
                stamps@,
                i as nat,
                namespace.deep_view(),
                type_chain.deep_view(),
                path@,
            ).end,
            old(out).deep_view() + all.visits == out.deep_view() + child_steps_from(
                *pickled,
                stamps@,
                i as nat,
                namespace.deep_view(),
                type_chain.deep_view(),
                path@,
            ).visits,
        decreases stamps.len() - i,
    {
        let ghost before = out.deep_view();
        let ghost first = steps_from(
            *pickled,
            stamps@[i as int],
            false,
            namespace.deep_view(),
            type_chain.deep_view(),
            path@,
        );
        let ghost rest = child_steps_from(
            *pickled,
            stamps@,
            (i + 1) as nat,
            namespace.deep_view(),
            type_chain.deep_view(),
            path@,
        );
        walk_entity_tree(pickled, stamps[i], false, namespace, type_chain, path, out)?;
        assert(before + (first.visits + rest.visits) =~= (before + first.visits) + rest.visits);
        i = i + 1;
    }
    assert(out.deep_view() + Seq::<VisitModel>::empty() =~= out.deep_view());
    Ok(())
}

/// Walk a whole pickle: the visits in order, up to the failure that ends the
/// walk, if any.
pub fn walk(pickled: &PickledCcu) -> (r: (Vec<Visit>, Result<(), ImportError>))
    ensures
        r.0.deep_view() == steps_of(*pickled).visits,
        in_table(*pickled, r.0.deep_view()),
        match steps_of(*pickled).end {
            None => r.1 is Ok,
            Some(e) => r.1 is Err && r.1->Err_0.deep_view() == e,
        },
{
    let mut out: Vec<Visit> = Vec::new();
    let mut path: Vec<u32> = Vec::new();
    let none: Vec<String> = Vec::new();
    assert(none.deep_view() =~= Seq::empty());
    assert(path@ =~= Seq::empty());
    let end = walk_entity_tree(
        pickled,
        pickled.root_entity,
        true,
        &none,
        &none,
        &mut path,
        &mut out,
    );
    assert(out.deep_view() =~= steps_of(*pickled).visits);
    (out, end)
}

} // verus!
