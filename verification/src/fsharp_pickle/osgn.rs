//! The declaration tables of the body walk.
//!
//! Entities, type parameters and values are declared inline, each under a stamp
//! that indexes a table of a size the header gives. A reference is a stamp, and
//! is checked against the table's size when it is read. A stamp may be declared
//! again with the same body; with a different body that is an error.
use crate::error::{Fault, ImportError};
use crate::fsharp_pickle::model::{
    PickledEntity, PickledTyparSpecData, PickledTyparSpecDataModel, PickledVal, PickledValModel,
};
use crate::fsharp_pickle::reader;
use crate::fsharp_pickle::reader::{Decoded, PickleReader, Tape};
use crate::same::Same;
use vstd::prelude::*;

verus! {

/// A declaration table: one slot per stamp, empty until the stamp is declared.
pub struct OsgnTable<T> {
    kind: &'static str,
    slots: Vec<Option<T>>,
}

/// The table's slots after `body` is declared under `idx`, or the failure.
pub open spec fn link_at<V>(
    kind: &'static str,
    slots: Seq<Option<V>>,
    idx: u32,
    body: V,
) -> Result<Seq<Option<V>>, Fault> {
    if idx >= slots.len() {
        Err(out_of_range(kind, idx, slots.len()))
    } else {
        match slots[idx as int] {
            None => Ok(slots.update(idx as int, Some(body))),
            Some(there) => if there == body {
                Ok(slots)
            } else {
                Err(Fault::OsgnConflictingRelink { kind, index: idx })
            },
        }
    }
}

/// The failure of a stamp past the end of its table.
pub open spec fn out_of_range(kind: &'static str, idx: u32, len: nat) -> Fault {
    Fault::OsgnIndexOutOfRange { kind, index: idx, max: len as usize }
}

/// A stamp, checked against a table of `len` slots.
pub open spec fn ref_at(s: Tape, context: &'static str, kind: &'static str, len: nat) -> Decoded<
    u32,
> {
    match reader::uint32_at(s, context) {
        Err(e) => Err(e),
        Ok((idx, s)) => if idx < len {
            Ok((idx, s))
        } else {
            Err((out_of_range(kind, idx, len), s))
        },
    }
}

impl<T> OsgnTable<T> {
    /// What the table's failures call it.
    pub closed spec fn spec_kind(&self) -> &'static str {
        self.kind
    }

    /// The slots.
    pub closed spec fn spec_slots(&self) -> Seq<Option<T>> {
        self.slots@
    }

    /// The number of slots.
    pub open spec fn spec_len(&self) -> nat {
        self.spec_slots().len()
    }

    /// A table of `n` empty slots.
    pub fn with_capacity(kind: &'static str, n: usize) -> (r: Self)
        ensures
            r.spec_kind() == kind,
            r.spec_slots() == Seq::new(n as nat, |i: int| None::<T>),
    {
        let mut slots: Vec<Option<T>> = Vec::new();
        let mut i: usize = 0;
        while i < n
            invariant
                i <= n,
                slots@ == Seq::new(i as nat, |i: int| None::<T>),
            decreases n - i,
        {
            slots.push(None);
            i = i + 1;
            assert(slots@ =~= Seq::new(i as nat, |i: int| None::<T>));
        }
        OsgnTable { kind, slots }
    }

    /// Check a stamp against the table's size.
    pub fn check_index_in_range(&self, idx: u32) -> (r: Result<(), ImportError>)
        ensures
            r is Ok <==> idx < self.spec_len(),
            r is Err ==> r->Err_0.deep_view() == out_of_range(
                self.spec_kind(),
                idx,
                self.spec_len(),
            ),
    {
        if (idx as usize) < self.slots.len() {
            Ok(())
        } else {
            Err(
                ImportError::OsgnIndexOutOfRange {
                    kind: self.kind,
                    index: idx,
                    max: self.slots.len(),
                },
            )
        }
    }

    /// Read a stamp and check it against the table's size.
    pub fn read_ref(&self, reader: &mut PickleReader<'_>, context: &'static str) -> (r: Result<
        u32,
        ImportError,
    >)
        requires
            old(reader)@.wf(),
        ensures
            final(reader)@.wf(),
            final(reader)@.depth == old(reader)@.depth,
            reader::agrees(
                r,
                final(reader)@,
                ref_at(old(reader)@, context, self.spec_kind(), self.spec_len()),
            ),
    {
        let idx: u32 = reader.read_uint32(context)?;
        self.check_index_in_range(idx)?;
        Ok(idx)
    }

    /// The declaration under a stamp.
    pub fn get(&self, idx: u32) -> (r: Result<&T, ImportError>)
        ensures
            match r {
                Ok(t) => idx < self.spec_len() && self.spec_slots()[idx as int] == Some(*t),
                Err(e) => if idx < self.spec_len() {
                    self.spec_slots()[idx as int] is None && e.deep_view()
                        == (Fault::DanglingPickleRef { kind: self.spec_kind(), index: idx })
                } else {
                    e.deep_view() == out_of_range(self.spec_kind(), idx, self.spec_len())
                },
            },
    {
        self.check_index_in_range(idx)?;
        match &self.slots[idx as usize] {
            Some(t) => Ok(t),
            None => Err(ImportError::DanglingPickleRef { kind: self.kind, index: idx }),
        }
    }
}

impl<T: DeepView> OsgnTable<T> {
    /// The models of the declarations.
    pub open spec fn models(&self) -> Seq<Option<T::V>> {
        self.spec_slots().map_values(|t: Option<T>| t.deep_view())
    }
}

impl<T: Same> OsgnTable<T> {
    /// Declare `body` under a stamp. A second declaration with the same body
    /// changes nothing; one with a different body is refused.
    pub fn link(&mut self, idx: u32, body: T) -> (r: Result<u32, ImportError>)
        ensures
            final(self).spec_kind() == old(self).spec_kind(),
            match link_at(old(self).spec_kind(), old(self).models(), idx, body.deep_view()) {
                Ok(slots) => r == Ok::<u32, ImportError>(idx) && final(self).models() == slots,
                Err(e) => r is Err && r->Err_0.deep_view() == e && *final(self) == *old(self),
            },
    {
        self.check_index_in_range(idx)?;
        let ghost before = self.models();
        assert(before[idx as int] == self.slots@[idx as int].deep_view());
        match &self.slots[idx as usize] {
            Some(there) => {
                if there.same(&body) {
                    Ok(idx)
                } else {
                    Err(ImportError::OsgnConflictingRelink { kind: self.kind, index: idx })
                }
            },
            None => {
                let ghost model = body.deep_view();
                self.slots.set(idx as usize, Some(body));
                assert(self.models() =~= before.update(idx as int, Some(model)));
                Ok(idx)
            },
        }
    }
}

/// The state of the body walk: the reader, the declaration tables, and the sizes
/// of the header tables that references are checked against.
pub struct PhaseOneState<'a> {
    pub reader: PickleReader<'a>,
    pub itycons: OsgnTable<PickledEntity>,
    pub itypars: OsgnTable<PickledTyparSpecData>,
    pub ivals: OsgnTable<PickledVal>,
    pub nlerefs_len: usize,
    pub simpletys_len: usize,
}

/// The model of a [`PhaseOneState`].
#[verifier::ext_equal]
pub struct Walk {
    pub tape: Tape,
    pub tycons: Seq<Option<PickledEntity>>,
    pub typars: Seq<Option<PickledTyparSpecDataModel>>,
    pub vals: Seq<Option<PickledValModel>>,
    pub nlerefs_len: nat,
    pub simpletys_len: nat,
}

/// The result of a decoder over walks: the value or the failure, and the walk that it
/// leaves.
pub type Walked<V> = Result<(V, Walk), (Fault, Walk)>;

/// A reader result with the rest of the walk.
pub open spec fn lift<V>(w: Walk, r: Decoded<V>) -> Walked<V> {
    match r {
        Ok((v, s)) => Ok((v, Walk { tape: s, ..w })),
        Err((e, s)) => Err((e, Walk { tape: s, ..w })),
    }
}

/// `r` is the value or the failure that `want` gives, and `post` the walk that it
/// leaves.
pub open spec fn agrees<T: DeepView>(
    r: Result<T, ImportError>,
    post: Walk,
    want: Walked<T::V>,
) -> bool {
    match want {
        Ok((v, w)) => r is Ok && r->Ok_0.deep_view() == v && post == w,
        Err((e, w)) => r is Err && r->Err_0.deep_view() == e && post == w,
    }
}

/// A type parameter declared under a stamp.
pub open spec fn link_typar(w: Walk, idx: u32, body: PickledTyparSpecDataModel) -> Walked<u32> {
    match link_at("typars", w.typars, idx, body) {
        Err(e) => Err((e, w)),
        Ok(typars) => Ok((idx, Walk { typars, ..w })),
    }
}

/// A value declared under a stamp.
pub open spec fn link_val(w: Walk, idx: u32, body: PickledValModel) -> Walked<u32> {
    match link_at("vals", w.vals, idx, body) {
        Err(e) => Err((e, w)),
        Ok(vals) => Ok((idx, Walk { vals, ..w })),
    }
}

impl<'a> View for PhaseOneState<'a> {
    type V = Walk;

    open spec fn view(&self) -> Walk {
        Walk {
            tape: self.reader@,
            tycons: self.itycons.spec_slots(),
            typars: self.itypars.models(),
            vals: self.ivals.models(),
            nlerefs_len: self.nlerefs_len as nat,
            simpletys_len: self.simpletys_len as nat,
        }
    }
}

impl<'a> PhaseOneState<'a> {
    /// The reader is within its bounds and each table has its name.
    pub open spec fn wf(&self) -> bool {
        &&& self.reader@.wf()
        &&& self.itycons.spec_kind() == "tycons"
        &&& self.itypars.spec_kind() == "typars"
        &&& self.ivals.spec_kind() == "vals"
    }

    /// A walk over `reader` with empty declaration tables of the given sizes and
    /// unbounded header tables.
    pub fn with_capacities(
        reader: PickleReader<'a>,
        ntycons: usize,
        ntypars: usize,
        nvals: usize,
    ) -> (r: Self)
        requires
            reader@.wf(),
        ensures
            r.wf(),
            r@ == (Walk {
                tape: reader@,
                tycons: Seq::new(ntycons as nat, |i: int| None),
                typars: Seq::new(ntypars as nat, |i: int| None),
                vals: Seq::new(nvals as nat, |i: int| None),
                nlerefs_len: usize::MAX as nat,
                simpletys_len: usize::MAX as nat,
            }),
    {
        let r = PhaseOneState {
            reader,
            itycons: OsgnTable::with_capacity("tycons", ntycons),
            itypars: OsgnTable::with_capacity("typars", ntypars),
            ivals: OsgnTable::with_capacity("vals", nvals),
            nlerefs_len: usize::MAX,
            simpletys_len: usize::MAX,
        };
        assert(r@.tycons =~= Seq::new(ntycons as nat, |i: int| None));
        assert(r@.typars =~= Seq::new(ntypars as nat, |i: int| None));
        assert(r@.vals =~= Seq::new(nvals as nat, |i: int| None));
        r
    }
}

/// Declaring the same body again under its stamp succeeds and changes nothing.
pub proof fn law_relink_is_idempotent<V>(
    kind: &'static str,
    slots: Seq<Option<V>>,
    idx: u32,
    body: V,
)
    requires
        link_at(kind, slots, idx, body) is Ok,
    ensures
        ({
            let linked = link_at(kind, slots, idx, body)->Ok_0;
            &&& linked.len() == slots.len()
            &&& linked[idx as int] == Some(body)
            &&& link_at(kind, linked, idx, body) == Ok::<Seq<Option<V>>, Fault>(linked)
        }),
{
}

/// A stamp keeps the body that it was first declared with: whatever is declared
/// later, under the same stamp or another one, the slot is unchanged.
pub proof fn law_declared_body_is_final<V>(
    kind: &'static str,
    slots: Seq<Option<V>>,
    stamp: int,
    idx: u32,
    body: V,
)
    requires
        0 <= stamp < slots.len(),
        slots[stamp] is Some,
        link_at(kind, slots, idx, body) is Ok,
    ensures
        link_at(kind, slots, idx, body)->Ok_0[stamp] == slots[stamp],
{
}

} // verus!
