//! The extension index: the names of the extension members of each module.
//!
//! The names are read off the values of the module alone, without looking for the
//! members that they compile to, so that no extension member is missed.
use crate::error::{Fault, ImportError};
use crate::fsharp_pickle::model::{IsType, PickledCcu, PickledVal};
use crate::fsharp_pickle_merge::frame;
use crate::fsharp_pickle_merge::lookup;
use crate::fsharp_pickle_merge::lookup::find_entity_mut;
use crate::fsharp_pickle_merge::names;
use crate::fsharp_pickle_merge::names::{clr_name, VAL_FLAGS_IS_EXTENSION_MEMBER};
use crate::fsharp_pickle_merge::walk;
use crate::fsharp_pickle_merge::walk::{Visit, VisitModel};
use crate::model::{Entity, EntityModel};
use crate::name_set;
use crate::name_set::insert_name;
use crate::same::Duplicate;
use vstd::prelude::*;

verus! {

/// Where a module lies in the entity tree, and the names of its extension members.
struct ExtensionIndexTarget {
    namespace: Vec<String>,
    type_chain: Vec<String>,
    instance: Vec<String>,
    statics: Vec<String>,
}

/// The model of an extension index target.
pub struct ExtensionTargetModel {
    pub namespace: Seq<Seq<char>>,
    pub type_chain: Seq<Seq<char>>,
    pub instance: Seq<Seq<char>>,
    pub statics: Seq<Seq<char>>,
}

impl DeepView for ExtensionIndexTarget {
    type V = ExtensionTargetModel;

    closed spec fn deep_view(&self) -> ExtensionTargetModel {
        ExtensionTargetModel {
            namespace: self.namespace.deep_view(),
            type_chain: self.type_chain.deep_view(),
            instance: self.instance.deep_view(),
            statics: self.statics.deep_view(),
        }
    }
}

/// The value is an extension member.
pub open spec fn is_extension(v: PickledVal) -> bool {
    v.flags & VAL_FLAGS_IS_EXTENSION_MEMBER != 0
}

/// The value is an instance member.
pub open spec fn is_instance(v: PickledVal) -> bool {
    match v.member_info {
        Some(mi) => mi.flags.is_instance,
        None => false,
    }
}

/// The names of the extension members among `vals` from the `i`-th on, instance or
/// static ones, added to those in `acc`; or the failure of the first value that
/// does not exist.
pub open spec fn names_from(
    ccu: PickledCcu,
    vals: Seq<u32>,
    i: nat,
    want_instance: bool,
    acc: Seq<Seq<char>>,
) -> Result<Seq<Seq<char>>, Fault>
    decreases vals.len() - i,
{
    if i >= vals.len() {
        Ok(acc)
    } else {
        let vi = vals[i as int];
        if vi >= ccu.tables.vals@.len() {
            Err(
                Fault::OsgnIndexOutOfRange {
                    kind: "val (extension-member index)",
                    index: vi,
                    max: ccu.tables.vals@.len() as usize,
                },
            )
        } else {
            let v = ccu.tables.vals@[vi as int];
            names_from(
                ccu,
                vals,
                i + 1,
                want_instance,
                if is_extension(v) && is_instance(v) == want_instance {
                    name_set::with_name(acc, v.logical_name@)
                } else {
                    acc
                },
            )
        }
    }
}

/// The target that a visit contributes: one for each module or type with an
/// extension member.
pub open spec fn target_at(ccu: PickledCcu, v: VisitModel) -> Result<
    Option<ExtensionTargetModel>,
    Fault,
> {
    let e = walk::tycon(ccu, v.stamp);
    if !v.is_root && names::is_module_or_type(e) {
        match names_from(ccu, e.module_type.vals@, 0, true, Seq::empty()) {
            Err(e) => Err(e),
            Ok(instance) => match names_from(ccu, e.module_type.vals@, 0, false, Seq::empty()) {
                Err(e) => Err(e),
                Ok(statics) => if instance.len() > 0 || statics.len() > 0 {
                    Ok(
                        Some(
                            ExtensionTargetModel {
                                namespace: v.namespace,
                                type_chain: v.type_chain.push(names::clr_name_of(e)),
                                instance,
                                statics,
                            },
                        ),
                    )
                } else {
                    Ok(None)
                },
            },
        }
    } else {
        Ok(None)
    }
}

/// The targets of the visits from the `i`-th on, after those in `acc`, or the first
/// failure.
pub open spec fn targets_from(
    ccu: PickledCcu,
    visits: Seq<VisitModel>,
    i: nat,
    acc: Seq<ExtensionTargetModel>,
) -> Result<Seq<ExtensionTargetModel>, Fault>
    decreases visits.len() - i,
{
    if i >= visits.len() {
        Ok(acc)
    } else {
        match target_at(ccu, visits[i as int]) {
            Err(e) => Err(e),
            Ok(Some(t)) => targets_from(ccu, visits, i + 1, acc.push(t)),
            Ok(None) => targets_from(ccu, visits, i + 1, acc),
        }
    }
}

/// The targets of a pickle. A failure of an entity that is visited comes before a
/// failure of the walk.
pub open spec fn targets_of(ccu: PickledCcu) -> Result<Seq<ExtensionTargetModel>, Fault> {
    let steps = walk::steps_of(ccu);
    match targets_from(ccu, steps.visits, 0, Seq::empty()) {
        Err(e) => Err(e),
        Ok(targets) => match steps.end {
            Some(e) => Err(e),
            None => Ok(targets),
        },
    }
}

/// The tree with the names of `t` on the entity that its path leads to.
pub open spec fn with_target(es: Seq<EntityModel>, t: ExtensionTargetModel) -> Seq<EntityModel> {
    match lookup::get(es, t.namespace, t.type_chain) {
        None => es,
        Some(e) => lookup::put(
            es,
            t.namespace,
            t.type_chain,
            EntityModel {
                extension_member_names: t.instance,
                static_extension_member_names: t.statics,
                ..e
            },
        ),
    }
}

/// The tree with the names of the targets from the `i`-th on.
pub open spec fn indexed_from(
    es: Seq<EntityModel>,
    targets: Seq<ExtensionTargetModel>,
    i: nat,
) -> Seq<EntityModel>
    decreases targets.len() - i,
{
    if i >= targets.len() {
        es
    } else {
        indexed_from(with_target(es, targets[i as int]), targets, i + 1)
    }
}

/// The entity but for the names of its extension members.
pub open spec fn but_extension_names() -> spec_fn(EntityModel) -> EntityModel {
    |e: EntityModel|
        EntityModel {
            extension_member_names: Seq::empty(),
            static_extension_member_names: Seq::empty(),
            ..e
        }
}

/// The extension index changes nothing but the two lists of extension members: the
/// tree keeps its shape, and every entity each of its other facts.
pub proof fn law_index_changes_extension_names_alone(
    es: Seq<EntityModel>,
    targets: Seq<ExtensionTargetModel>,
    i: nat,
)
    ensures
        frame::seen_all(indexed_from(es, targets, i), but_extension_names()) == frame::seen_all(
            es,
            but_extension_names(),
        ),
    decreases targets.len() - i,
{
    if i < targets.len() {
        let t = targets[i as int];
        if let Some(e) = lookup::get(es, t.namespace, t.type_chain) {
            let v = EntityModel {
                extension_member_names: t.instance,
                static_extension_member_names: t.statics,
                ..e
            };
            frame::lemma_seen_same(v, e, but_extension_names());
            frame::law_put_is_local(es, t.namespace, t.type_chain, v, but_extension_names());
        }
        law_index_changes_extension_names_alone(with_target(es, t), targets, i + 1);
    }
}

/// The names of the extension members among the values of a module, sorted and
/// without repetition: the instance ones, or the static ones.
fn module_extension_member_names(
    pickled: &PickledCcu,
    val_indices: &Vec<u32>,
    want_instance: bool,
) -> (r: Result<Vec<String>, ImportError>)
    ensures
        match names_from(*pickled, val_indices@, 0, want_instance, Seq::empty()) {
            Ok(ns) => r is Ok && r->Ok_0.deep_view() == ns,
            Err(e) => r is Err && r->Err_0.deep_view() == e,
        },
{
    let mut names: Vec<String> = Vec::new();
    assert(names.deep_view() =~= Seq::empty());
    let mut i: usize = 0;
    while i < val_indices.len()
        invariant
            i <= val_indices.len(),
            names_from(*pickled, val_indices@, 0, want_instance, Seq::empty()) == names_from(
                *pickled,
                val_indices@,
                i as nat,
                want_instance,
                names.deep_view(),
            ),
        decreases val_indices.len() - i,
    {
        let vi: u32 = val_indices[i];
        if vi as usize >= pickled.tables.vals.len() {
            return Err(
                ImportError::OsgnIndexOutOfRange {
                    kind: "val (extension-member index)",
                    index: vi,
                    max: pickled.tables.vals.len(),
                },
            );
        }
        let v = &pickled.tables.vals[vi as usize];
        let is_extension: bool = v.flags & VAL_FLAGS_IS_EXTENSION_MEMBER != 0;
        let is_instance: bool = match &v.member_info {
            Some(mi) => mi.flags.is_instance,
            None => false,
        };
        if is_extension && is_instance == want_instance {
            insert_name(&mut names, &v.logical_name);
        }
        i = i + 1;
    }
    Ok(names)
}

/// The modules and types with an extension member, in the order of the walk.
fn collect_extension_targets(pickled: &PickledCcu, visits: &Vec<Visit>) -> (r: Result<
    Vec<ExtensionIndexTarget>,
    ImportError,
>)
    requires
        walk::in_table(*pickled, visits.deep_view()),
    ensures
        match targets_from(*pickled, visits.deep_view(), 0, Seq::empty()) {
            Ok(ts) => r is Ok && r->Ok_0.deep_view() == ts,
            Err(e) => r is Err && r->Err_0.deep_view() == e,
        },
{
    let mut out: Vec<ExtensionIndexTarget> = Vec::new();
    assert(out.deep_view() =~= Seq::empty());
    let mut i: usize = 0;
    while i < visits.len()
        invariant
            i <= visits.len(),
            walk::in_table(*pickled, visits.deep_view()),
            targets_from(*pickled, visits.deep_view(), 0, Seq::empty()) == targets_from(
                *pickled,
                visits.deep_view(),
                i as nat,
                out.deep_view(),
            ),
        decreases visits.len() - i,
    {
        let visit = &visits[i];
        assert(visits.deep_view()[i as int] == visit.deep_view());
        let entity = &pickled.tables.tycons[visit.stamp as usize];
        let is_module_or_type: bool = match entity.module_type.is_type {
            IsType::ModuleOrType | IsType::FSharpModuleWithSuffix => true,
            IsType::Namespace => false,
        };
        if !visit.is_root && is_module_or_type {
            let instance = module_extension_member_names(
                pickled,
                &entity.module_type.vals,
                true,
            )?;
            let statics = module_extension_member_names(
                pickled,
                &entity.module_type.vals,
                false,
            )?;
            assert(instance.deep_view().len() == instance@.len());
            assert(statics.deep_view().len() == statics@.len());
            if instance.len() > 0 || statics.len() > 0 {
                let ghost before = out.deep_view();
                let mut type_chain: Vec<String> = visit.type_chain.dup();
                let ghost container = type_chain.deep_view();
                type_chain.push(clr_name(entity));
                assert(type_chain.deep_view() =~= container.push(names::clr_name_of(*entity)));
                let target = ExtensionIndexTarget {
                    namespace: visit.namespace.dup(),
                    type_chain,
                    instance,
                    statics,
                };
                out.push(target);
                assert(out.deep_view() =~= before.push(target.deep_view()));
            }
        }
        i = i + 1;
    }
    Ok(out)
}

/// Set the names of the extension members of each module.
pub fn apply_extension_member_index(entities: &mut Vec<Entity>, pickled: &PickledCcu) -> (r: Result<
    (),
    ImportError,
>)
    ensures
        match targets_of(*pickled) {
            Ok(targets) => r is Ok && final(entities).deep_view() == indexed_from(
                old(entities).deep_view(),
                targets,
                0,
            ),
            Err(e) => r is Err && r->Err_0.deep_view() == e
                && final(entities).deep_view() == old(entities).deep_view(),
        },
{
    let (visits, end) = walk::walk(pickled);
    let targets = collect_extension_targets(pickled, &visits)?;
    end?;
    let mut i: usize = 0;
    while i < targets.len()
        invariant
            i <= targets.len(),
            indexed_from(old(entities).deep_view(), targets.deep_view(), 0) == indexed_from(
                entities.deep_view(),
                targets.deep_view(),
                i as nat,
            ),
        decreases targets.len() - i,
    {
        let target = &targets[i];
        assert(targets.deep_view()[i as int] == target.deep_view());
        match find_entity_mut(entities, &target.namespace, &target.type_chain) {
            None => {},
            Some(ecma) => {
                ecma.extension_member_names = target.instance.dup();
                ecma.static_extension_member_names = target.statics.dup();
            },
        }
        i = i + 1;
    }
    Ok(())
}

/// The extension names of a module are sorted, without repetition, and are those
/// of its extension members alone.
pub proof fn law_extension_names_are_sorted(
    ccu: PickledCcu,
    vals: Seq<u32>,
    i: nat,
    want_instance: bool,
    acc: Seq<Seq<char>>,
)
    requires
        name_set::strictly_sorted(acc),
        names_from(ccu, vals, i, want_instance, acc) is Ok,
    ensures
        ({
            let r = names_from(ccu, vals, i, want_instance, acc)->Ok_0;
            &&& name_set::strictly_sorted(r)
            &&& forall|y: Seq<char>|
                #![trigger r.contains(y)]
                r.contains(y) <==> acc.contains(y) || exists|k: int|
                    i <= k < vals.len() && is_named_extension(
                        ccu,
                        #[trigger] vals[k],
                        want_instance,
                        y,
                    )
        }),
    decreases vals.len() - i,
{
    let r = names_from(ccu, vals, i, want_instance, acc)->Ok_0;
    if i < vals.len() {
        let v = ccu.tables.vals@[vals[i as int] as int];
        let added = is_extension(v) && is_instance(v) == want_instance;
        let next = if added {
            name_set::with_name(acc, v.logical_name@)
        } else {
            acc
        };
        if added {
            name_set::law_with_name(acc, v.logical_name@);
        }
        law_extension_names_are_sorted(ccu, vals, i + 1, want_instance, next);
        assert forall|y: Seq<char>| #![trigger r.contains(y)] r.contains(y) <==> acc.contains(y)
            || exists|k: int|
            i <= k < vals.len() && is_named_extension(ccu, #[trigger] vals[k], want_instance, y) by {
            assert(next.contains(y) <==> acc.contains(y) || (added && y == v.logical_name@));
            if added && y == v.logical_name@ {
                assert(is_named_extension(ccu, vals[i as int], want_instance, y));
            }
            if exists|k: int|
                i <= k < vals.len() && is_named_extension(
                    ccu,
                    #[trigger] vals[k],
                    want_instance,
                    y,
                ) {
                let k = choose|k: int|
                    i <= k < vals.len() && is_named_extension(
                        ccu,
                        #[trigger] vals[k],
                        want_instance,
                        y,
                    );
                if k == i {
                    assert(added && y == v.logical_name@);
                }
            }
        }
    }
}

/// The value under `vi` is an extension member, instance or static as wanted,
/// called `y`.
pub open spec fn is_named_extension(
    ccu: PickledCcu,
    vi: u32,
    want_instance: bool,
    y: Seq<char>,
) -> bool {
    let v = ccu.tables.vals@[vi as int];
    is_extension(v) && is_instance(v) == want_instance && v.logical_name@ == y
}

} // verus!
