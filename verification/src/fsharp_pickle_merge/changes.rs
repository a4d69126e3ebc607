//! A row of changes to single entities of a tree, each at a path.
use crate::fsharp_pickle_merge::frame;
use crate::fsharp_pickle_merge::lookup;
use crate::fsharp_pickle_merge::steps;
use crate::model::EntityModel;
use vstd::prelude::*;

verus! {

/// A change of the entity at a path, if it is made at all.
pub struct Change {
    pub made: bool,
    pub namespace: Seq<Seq<char>>,
    pub chain: Seq<Seq<char>>,
    pub change: spec_fn(EntityModel) -> EntityModel,
}

impl Change {
    /// The name, the namespace and what is nested stay.
    pub open spec fn keeps_place(self) -> bool {
        forall|e: EntityModel|
            (#[trigger] (self.change)(e)).name == e.name && (self.change)(e).namespace
                == e.namespace && (self.change)(e).nested_types == e.nested_types
    }

    /// The change is made at this path.
    pub open spec fn is_at(self, namespace: Seq<Seq<char>>, chain: Seq<Seq<char>>) -> bool {
        self.made && self.namespace == namespace && self.chain == chain
    }

    /// The tree after the change.
    pub open spec fn applied(self, es: Seq<EntityModel>) -> Seq<EntityModel> {
        match lookup::get(es, self.namespace, self.chain) {
            Some(e) if self.made => lookup::put(
                es,
                self.namespace,
                self.chain,
                (self.change)(e),
            ),
            _ => es,
        }
    }
}

/// The tree after the changes from the `i`-th on.
pub open spec fn applied_from(es: Seq<EntityModel>, changes: Seq<Change>, i: nat) -> Seq<
    EntityModel,
>
    decreases changes.len() - i,
{
    if i >= changes.len() {
        es
    } else {
        applied_from(changes[i as int].applied(es), changes, i + 1)
    }
}

/// One change is a step if it is one for the entity that it changes.
proof fn lemma_one(es: Seq<EntityModel>, o: Change, p: steps::Step)
    requires
        steps::is_step(p),
        o.keeps_place(),
        o.made ==> forall|e: EntityModel|
            p(
                o.namespace,
                o.chain,
                frame::bare(e),
                frame::bare(#[trigger] (o.change)(e)),
            ),
    ensures
        steps::stepped_all(es, o.applied(es), p),
{
    steps::lemma_stepped_all_refl(es, p);
    match lookup::get(es, o.namespace, o.chain) {
        Some(e) if o.made => {
            let v = (o.change)(e);
            steps::lemma_alone(e, v, o.namespace, o.chain, p);
            steps::law_put_is_a_step(es, o.namespace, o.chain, v, p);
        },
        _ => {},
    }
}

/// Changes are steps if each is one for the entity that it changes.
pub proof fn lemma_steps(es: Seq<EntityModel>, changes: Seq<Change>, i: nat, p: steps::Step)
    requires
        steps::is_step(p),
        forall|j: int| i <= j < changes.len() ==> (#[trigger] changes[j]).keeps_place(),
        forall|j: int, e: EntityModel|
            #![trigger (changes[j].change)(e)]
            i <= j < changes.len() && changes[j].made ==> p(
                changes[j].namespace,
                changes[j].chain,
                frame::bare(e),
                frame::bare((changes[j].change)(e)),
            ),
    ensures
        steps::stepped_all(es, applied_from(es, changes, i), p),
    decreases changes.len() - i,
{
    steps::lemma_stepped_all_refl(es, p);
    if i < changes.len() {
        let o = changes[i as int];
        lemma_one(es, o, p);
        lemma_steps(o.applied(es), changes, i + 1, p);
        steps::lemma_stepped_all_trans(
            es,
            o.applied(es),
            applied_from(o.applied(es), changes, i + 1),
            p,
        );
    }
}

/// Changes at other paths leave what a path leads to, but for what is nested in it.
proof fn lemma_elsewhere(
    es: Seq<EntityModel>,
    changes: Seq<Change>,
    i: nat,
    namespace: Seq<Seq<char>>,
    chain: Seq<Seq<char>>,
)
    requires
        forall|j: int| i <= j < changes.len() ==> (#[trigger] changes[j]).keeps_place(),
        forall|j: int|
            i <= j < changes.len() ==> !(#[trigger] changes[j]).is_at(namespace, chain),
        lookup::get(es, namespace, chain) is Some,
    ensures
        ({
            let b = lookup::get(applied_from(es, changes, i), namespace, chain);
            b is Some && frame::bare(b->0) == frame::bare(
                lookup::get(es, namespace, chain)->0,
            )
        }),
{
    let p = steps::stays_at(namespace, chain);
    assert(steps::is_step(p)) by {
        reveal(steps::is_step);
    }
    assert forall|j: int, e: EntityModel|
        #![trigger (changes[j].change)(e)]
        i <= j < changes.len() && changes[j].made implies p(
        changes[j].namespace,
        changes[j].chain,
        frame::bare(e),
        frame::bare((changes[j].change)(e)),
    ) by {
        assert(changes[j].keeps_place());
        assert(!changes[j].is_at(namespace, chain));
    }
    lemma_steps(es, changes, i, p);
    let t = applied_from(es, changes, i);
    steps::lemma_get_stepped(es, t, namespace, chain, p);
    steps::lemma_stepped(
        lookup::get(es, namespace, chain)->0,
        lookup::get(t, namespace, chain)->0,
        namespace,
        chain,
        p,
    );
}

/// What the last change at a path does to the entity there is there in the end.
pub proof fn lemma_last(
    es: Seq<EntityModel>,
    changes: Seq<Change>,
    i: nat,
    m: int,
    holds: spec_fn(EntityModel) -> bool,
)
    requires
        i <= m < changes.len(),
        changes[m].made,
        forall|j: int| i <= j < changes.len() ==> (#[trigger] changes[j]).keeps_place(),
        forall|j: int|
            m < j < changes.len() ==> !(#[trigger] changes[j]).is_at(
                changes[m].namespace,
                changes[m].chain,
            ),
        forall|e: EntityModel| holds(frame::bare(#[trigger] (changes[m].change)(e))),
        lookup::get(es, changes[m].namespace, changes[m].chain) is Some,
    ensures
        ({
            let b = lookup::get(
                applied_from(es, changes, i),
                changes[m].namespace,
                changes[m].chain,
            );
            b is Some && holds(frame::bare(b->0))
        }),
    decreases changes.len() - i,
{
    let o = changes[i as int];
    let (namespace, chain) = (changes[m].namespace, changes[m].chain);
    assert(o.keeps_place());
    if i == m {
        let e = lookup::get(es, namespace, chain)->0;
        lookup::lemma_get_is_called(es, namespace, chain);
        lookup::law_get_put(es, namespace, chain, (o.change)(e));
        lemma_elsewhere(o.applied(es), changes, i + 1, namespace, chain);
    } else {
        let p = |n: Seq<Seq<char>>, c: Seq<Seq<char>>, a: EntityModel, b: EntityModel|
            a.name == b.name && a.namespace == b.namespace;
        assert(steps::is_step(p)) by {
            reveal(steps::is_step);
        }
        lemma_one(es, o, p);
        steps::lemma_get_stepped(es, o.applied(es), namespace, chain, p);
        lemma_last(o.applied(es), changes, i + 1, m, holds);
    }
}

} // verus!
