//! The decoder of types and of the references that they are made of.
//!
//! | Tag | Type                                  |
//! |-----|---------------------------------------|
//! | 0   | reference tuple                       |
//! | 1   | named type without arguments, by its index into the simple-type table |
//! | 2   | named type with arguments             |
//! | 3   | function                              |
//! | 4   | type variable                         |
//! | 5   | quantified type                       |
//! | 6   | measure                               |
//! | 7   | union case                            |
//! | 8   | struct tuple                          |
//! | 9   | anonymous record, not modelled        |
//!
//! The types that carry a nullness read a tag of the B stream before their
//! components. `0`, which is what an absent B stream gives, stands for the
//! ambivalent nullness, as does the last of the three tags of each form.
use crate::error::{Fault, ImportError};
use crate::fsharp_pickle::measure;
use crate::fsharp_pickle::measure::read_measure_expr;
use crate::fsharp_pickle::model;
use crate::fsharp_pickle::model::{
    Nullness, PickledTcRef, PickledType, PickledTypeModel, PickledUCaseRef, TupleKind,
};
use crate::fsharp_pickle::osgn;
use crate::fsharp_pickle::osgn::{PhaseOneState, Walk, Walked};
use crate::fsharp_pickle::reader;
use crate::fsharp_pickle::reader::{PickleReader, Tape, MAX_RECURSION_DEPTH};
use crate::fsharp_pickle::typar;
use crate::fsharp_pickle::typar::read_tyar_specs;
use vstd::prelude::*;

verus! {

/// The walk with the recursion depth `d`.
pub open spec fn with_depth(w: Walk, d: nat) -> Walk {
    Walk { tape: Tape { depth: d, ..w.tape }, ..w }
}

/// The failure of a recursion past its bound.
pub open spec fn too_deep(context: &'static str) -> Fault {
    Fault::PickleRecursionLimitExceeded { context, limit: MAX_RECURSION_DEPTH }
}

/// The nullness that the B tag `tag_b` stands for, where `with_null` and the two
/// tags after it are those of the form that is read.
pub open spec fn nullness_of(tag_b: u8, with_null: u8, context: &'static str) -> Result<
    Nullness,
    Fault,
> {
    if tag_b == 0 || tag_b == with_null + 2 {
        Ok(Nullness::Ambivalent)
    } else if tag_b == with_null {
        Ok(Nullness::WithNull)
    } else if tag_b == with_null + 1 {
        Ok(Nullness::WithoutNull)
    } else {
        Err(Fault::UnsupportedPickleTag { context, tag: tag_b as u32 })
    }
}

/// An entity reference: a tag byte, then a stamp or a non-local index, each
/// checked against its table.
pub open spec fn tcref_at(w: Walk) -> Walked<PickledTcRef> {
    match osgn::lift(w, reader::byte_at(w.tape, "u_tcref tag")) {
        Err(e) => Err(e),
        Ok((tag, w)) => if tag == 0 {
            match osgn::lift(
                w,
                osgn::ref_at(w.tape, "u_tcref entity-osgn index", "tycons", w.tycons.len()),
            ) {
                Err(e) => Err(e),
                Ok((stamp, w)) => Ok((PickledTcRef::Local(stamp), w)),
            }
        } else if tag == 1 {
            match osgn::lift(w, reader::uint32_at(w.tape, "u_tcref nleref-index")) {
                Err(e) => Err(e),
                Ok((idx, w)) => if idx < w.nlerefs_len {
                    Ok((PickledTcRef::NonLocal(idx), w))
                } else {
                    Err((Fault::DanglingPickleRef { kind: "nleref", index: idx }, w))
                },
            }
        } else {
            Err((Fault::UnsupportedPickleTag { context: "u_tcref tag", tag: tag as u32 }, w))
        },
    }
}

/// A union-case reference: its type, then the string index of its name.
pub open spec fn ucref_at(w: Walk) -> Walked<PickledUCaseRef> {
    match tcref_at(w) {
        Err(e) => Err(e),
        Ok((tcref, w)) => match osgn::lift(
            w,
            reader::uint32_at(w.tape, "u_ucref case-name string-index"),
        ) {
            Err(e) => Err(e),
            Ok((case_name_index, w)) => Ok((PickledUCaseRef { tcref, case_name_index }, w)),
        },
    }
}

/// A type-parameter reference: a stamp, checked against its table.
pub open spec fn tpref_at(w: Walk) -> Walked<u32> {
    osgn::lift(w, osgn::ref_at(w.tape, "u_tpref typar-osgn index", "typars", w.typars.len()))
}

/// A list of types, read at recursion depth `d`.
pub open spec fn tys_at(w: Walk, d: nat) -> Walked<Seq<PickledTypeModel>>
    decreases MAX_RECURSION_DEPTH - d, 2nat, 0nat,
{
    match osgn::lift(w, reader::array_len_at(w.tape, "u_tys element")) {
        Err(e) => Err(e),
        Ok((n, w)) => more_tys_at(w, n as nat, d, Seq::empty()),
    }
}

/// `n` more types after those in `acc`.
pub open spec fn more_tys_at(w: Walk, n: nat, d: nat, acc: Seq<PickledTypeModel>) -> Walked<
    Seq<PickledTypeModel>,
>
    decreases MAX_RECURSION_DEPTH - d, 1nat, n,
{
    if n == 0 {
        Ok((acc, w))
    } else {
        match ty_at(w, d) {
            Err(e) => Err(e),
            Ok((t, w)) => more_tys_at(w, (n - 1) as nat, d, acc.push(t)),
        }
    }
}

/// A type, read at recursion depth `d`.
pub open spec fn ty_at(w: Walk, d: nat) -> Walked<PickledTypeModel>
    decreases MAX_RECURSION_DEPTH - d, 0nat, 0nat,
{
    if d < MAX_RECURSION_DEPTH {
        match ty_body_at(with_depth(w, d + 1), d + 1) {
            Err((e, w)) => Err((e, with_depth(w, d))),
            Ok((t, w)) => Ok((t, with_depth(w, d))),
        }
    } else {
        Err((too_deep("u_ty"), w))
    }
}

/// The walk after one byte of the B stream.
pub open spec fn after_b(w: Walk) -> Walk {
    Walk { tape: reader::skip_b(w.tape), ..w }
}

/// A type after its depth check: a tag byte, for some forms a tag of the B
/// stream, then the components.
#[verifier::opaque]
pub open spec fn ty_body_at(w: Walk, d: nat) -> Walked<PickledTypeModel>
    decreases MAX_RECURSION_DEPTH - d, 15nat, 0nat,
{
    match osgn::lift(w, reader::byte_at(w.tape, "u_ty tag")) {
        Err(e) => Err(e),
        Ok((tag, w)) => if tag == 0 || tag == 8 {
            match tys_at(w, d) {
                Err(e) => Err(e),
                Ok((elems, w)) => Ok(
                    (
                        PickledTypeModel::Tuple {
                            kind: if tag == 0 {
                                TupleKind::Reference
                            } else {
                                TupleKind::Struct
                            },
                            elems,
                        },
                        w,
                    ),
                ),
            }
        } else if tag == 1 {
            let tag_b = reader::peek_b(w.tape);
            match osgn::lift(
                after_b(w),
                reader::uint32_at(after_b(w).tape, "u_simpletyp index"),
            ) {
                Err(e) => Err(e),
                Ok((i, w)) => if i >= w.simpletys_len {
                    Err((Fault::DanglingPickleRef { kind: "simpletyp", index: i }, w))
                } else {
                    match nullness_of(tag_b, 9, "u_ty - 1/B") {
                        Err(e) => Err((e, w)),
                        Ok(nullness) => Ok(
                            (PickledTypeModel::AppSimple { simpletyp_index: i, nullness }, w),
                        ),
                    }
                },
            }
        } else if tag == 2 {
            let tag_b = reader::peek_b(w.tape);
            match tcref_at(after_b(w)) {
                Err(e) => Err(e),
                Ok((tcref, w)) => match tys_at(w, d) {
                    Err(e) => Err(e),
                    Ok((args, w)) => match nullness_of(tag_b, 12, "u_ty - 2/B") {
                        Err(e) => Err((e, w)),
                        Ok(nullness) => Ok((PickledTypeModel::App { tcref, args, nullness }, w)),
                    },
                },
            }
        } else if tag == 3 {
            let tag_b = reader::peek_b(w.tape);
            match ty_at(after_b(w), d) {
                Err(e) => Err(e),
                Ok((domain, w)) => match ty_at(w, d) {
                    Err(e) => Err(e),
                    Ok((range, w)) => match nullness_of(tag_b, 15, "u_ty - 3/B") {
                        Err(e) => Err((e, w)),
                        Ok(nullness) => Ok(
                            (
                                PickledTypeModel::Fun {
                                    domain: Box::new(domain),
                                    range: Box::new(range),
                                    nullness,
                                },
                                w,
                            ),
                        ),
                    },
                },
            }
        } else if tag == 4 {
            let tag_b = reader::peek_b(w.tape);
            match tpref_at(after_b(w)) {
                Err(e) => Err(e),
                Ok((typar_index, w)) => match nullness_of(tag_b, 18, "u_ty - 4/B") {
                    Err(e) => Err((e, w)),
                    Ok(nullness) => Ok((PickledTypeModel::Var { typar_index, nullness }, w)),
                },
            }
        } else if tag == 5 {
            match typar::tyar_specs_at(w, d) {
                Err(e) => Err(e),
                Ok((typars, w)) => match ty_at(w, d) {
                    Err(e) => Err(e),
                    Ok((body, w)) => Ok(
                        (PickledTypeModel::Forall { typars, body: Box::new(body) }, w),
                    ),
                },
            }
        } else if tag == 6 {
            match measure::measure_at(w, d) {
                Err(e) => Err(e),
                Ok((m, w)) => Ok((PickledTypeModel::Measure(m), w)),
            }
        } else if tag == 7 {
            match ucref_at(w) {
                Err(e) => Err(e),
                Ok((ucref, w)) => match tys_at(w, d) {
                    Err(e) => Err(e),
                    Ok((args, w)) => Ok((PickledTypeModel::UCase { ucref, args }, w)),
                },
            }
        } else if tag == 9 {
            Err(
                (
                    Fault::UnsupportedPickleTag {
                        context: "u_ty tag 9 (Anon — no MiniLibFs fixture exercises it)",
                        tag: 9,
                    },
                    w,
                ),
            )
        } else {
            Err((Fault::UnsupportedPickleTag { context: "u_ty tag", tag: tag as u32 }, w))
        },
    }
}

/// An optional type, read at recursion depth `d`.
pub open spec fn option_ty_at(w: Walk, context: &'static str, d: nat) -> Walked<
    Option<PickledTypeModel>,
>
    decreases MAX_RECURSION_DEPTH - d, 1nat, 0nat,
{
    match osgn::lift(w, reader::byte_at(w.tape, context)) {
        Err(e) => Err(e),
        Ok((tag, w)) => if tag == 0 {
            Ok((None, w))
        } else if tag == 1 {
            match ty_at(w, d) {
                Err(e) => Err(e),
                Ok((t, w)) => Ok((Some(t), w)),
            }
        } else {
            Err((Fault::UnsupportedPickleTag { context, tag: tag as u32 }, w))
        },
    }
}

/// The nullness of a named type without arguments.
fn nullness_from_b_app_simple(tag_b: u8, context: &'static str) -> (r: Result<
    Nullness,
    ImportError,
>)
    ensures
        match nullness_of(tag_b, 9, context) {
            Ok(n) => r == Ok::<Nullness, ImportError>(n),
            Err(e) => r is Err && r->Err_0.deep_view() == e,
        },
{
    match tag_b {
        0 | 11 => Ok(Nullness::Ambivalent),
        9 => Ok(Nullness::WithNull),
        10 => Ok(Nullness::WithoutNull),
        _ => Err(ImportError::UnsupportedPickleTag { context, tag: tag_b as u32 }),
    }
}

/// The nullness of a named type with arguments.
fn nullness_from_b_app(tag_b: u8, context: &'static str) -> (r: Result<Nullness, ImportError>)
    ensures
        match nullness_of(tag_b, 12, context) {
            Ok(n) => r == Ok::<Nullness, ImportError>(n),
            Err(e) => r is Err && r->Err_0.deep_view() == e,
        },
{
    match tag_b {
        0 | 14 => Ok(Nullness::Ambivalent),
        12 => Ok(Nullness::WithNull),
        13 => Ok(Nullness::WithoutNull),
        _ => Err(ImportError::UnsupportedPickleTag { context, tag: tag_b as u32 }),
    }
}

/// The nullness of a function type.
fn nullness_from_b_fun(tag_b: u8, context: &'static str) -> (r: Result<Nullness, ImportError>)
    ensures
        match nullness_of(tag_b, 15, context) {
            Ok(n) => r == Ok::<Nullness, ImportError>(n),
            Err(e) => r is Err && r->Err_0.deep_view() == e,
        },
{
    match tag_b {
        0 | 17 => Ok(Nullness::Ambivalent),
        15 => Ok(Nullness::WithNull),
        16 => Ok(Nullness::WithoutNull),
        _ => Err(ImportError::UnsupportedPickleTag { context, tag: tag_b as u32 }),
    }
}

/// The nullness of a type variable.
fn nullness_from_b_var(tag_b: u8, context: &'static str) -> (r: Result<Nullness, ImportError>)
    ensures
        match nullness_of(tag_b, 18, context) {
            Ok(n) => r == Ok::<Nullness, ImportError>(n),
            Err(e) => r is Err && r->Err_0.deep_view() == e,
        },
{
    match tag_b {
        0 | 20 => Ok(Nullness::Ambivalent),
        18 => Ok(Nullness::WithNull),
        19 => Ok(Nullness::WithoutNull),
        _ => Err(ImportError::UnsupportedPickleTag { context, tag: tag_b as u32 }),
    }
}

/// Read an entity reference. Both forms are checked against their table here, so
/// a reference that is returned always points into it.
pub fn read_tcref(state: &mut PhaseOneState<'_>) -> (r: Result<PickledTcRef, ImportError>)
    requires
        old(state).wf(),
    ensures
        final(state).wf(),
        final(state)@.tape.depth == old(state)@.tape.depth,
        osgn::agrees(r, final(state)@, tcref_at(old(state)@)),
        match r {
            Ok(PickledTcRef::Local(stamp)) => stamp < old(state)@.tycons.len(),
            Ok(PickledTcRef::NonLocal(idx)) => idx < old(state)@.nlerefs_len,
            Err(_) => true,
        },
{
    let tag: u8 = state.reader.read_byte("u_tcref tag")?;
    match tag {
        0 => {
            let stamp: u32 = state.itycons.read_ref(
                &mut state.reader,
                "u_tcref entity-osgn index",
            )?;
            Ok(PickledTcRef::Local(stamp))
        },
        1 => {
            let idx: u32 = state.reader.read_uint32("u_tcref nleref-index")?;
            if idx as usize >= state.nlerefs_len {
                return Err(ImportError::DanglingPickleRef { kind: "nleref", index: idx });
            }
            Ok(PickledTcRef::NonLocal(idx))
        },
        other => Err(
            ImportError::UnsupportedPickleTag { context: "u_tcref tag", tag: other as u32 },
        ),
    }
}

/// Read a union-case reference.
pub fn read_ucref(state: &mut PhaseOneState<'_>) -> (r: Result<PickledUCaseRef, ImportError>)
    requires
        old(state).wf(),
    ensures
        final(state).wf(),
        final(state)@.tape.depth == old(state)@.tape.depth,
        osgn::agrees(r, final(state)@, ucref_at(old(state)@)),
{
    let tcref = read_tcref(state)?;
    let case_name_index: u32 = state.reader.read_uint32("u_ucref case-name string-index")?;
    Ok(PickledUCaseRef { tcref, case_name_index })
}

/// Read an index into the simple-type table, unchecked.
pub fn read_simpletyp_index(reader: &mut PickleReader<'_>) -> (r: Result<u32, ImportError>)
    requires
        old(reader)@.wf(),
    ensures
        final(reader)@.wf(),
        final(reader)@.depth == old(reader)@.depth,
        reader::agrees(
            r,
            final(reader)@,
            reader::uint32_at(old(reader)@, "u_simpletyp index"),
        ),
{
    reader.read_uint32("u_simpletyp index")
}

/// Read a type-parameter reference, checked against its table.
pub fn read_tpref(state: &mut PhaseOneState<'_>) -> (r: Result<u32, ImportError>)
    requires
        old(state).wf(),
    ensures
        final(state).wf(),
        final(state)@.tape.depth == old(state)@.tape.depth,
        osgn::agrees(r, final(state)@, tpref_at(old(state)@)),
        r matches Ok(i) ==> i < old(state)@.typars.len(),
{
    state.itypars.read_ref(&mut state.reader, "u_tpref typar-osgn index")
}

/// Read a list of types.
pub fn read_tys(state: &mut PhaseOneState<'_>) -> (r: Result<Vec<PickledType>, ImportError>)
    requires
        old(state).wf(),
    ensures
        final(state).wf(),
        final(state)@.tape.depth == old(state)@.tape.depth,
        osgn::agrees(r, final(state)@, tys_at(old(state)@, old(state)@.tape.depth)),
    decreases MAX_RECURSION_DEPTH - old(state)@.tape.depth, 2nat,
{
    let ghost d = state@.tape.depth;
    let n: usize = state.reader.read_array_len("u_tys element")?;
    let mut out: Vec<PickledType> = Vec::new();
    assert(out.deep_view() =~= Seq::empty());
    let mut i: usize = 0;
    while i < n
        invariant
            i <= n,
            state.wf(),
            d == old(state)@.tape.depth,
            state@.tape.depth == d,
            tys_at(old(state)@, d) == more_tys_at(state@, (n - i) as nat, d, out.deep_view()),
        decreases n - i,
    {
        let ghost before = out.deep_view();
        let t = read_ty(state)?;
        out.push(t);
        assert(out.deep_view() =~= before.push(t.deep_view()));
        i = i + 1;
    }
    Ok(out)
}

/// Read a type, one recursion level deeper. The level is left again whether or
/// not the type could be read.
pub fn read_ty(state: &mut PhaseOneState<'_>) -> (r: Result<PickledType, ImportError>)
    requires
        old(state).wf(),
    ensures
        final(state).wf(),
        final(state)@.tape.depth == old(state)@.tape.depth,
        osgn::agrees(r, final(state)@, ty_at(old(state)@, old(state)@.tape.depth)),
    decreases MAX_RECURSION_DEPTH - old(state)@.tape.depth, 0nat,
{
    reveal(ty_body_at);
    state.reader.enter_recursion("u_ty")?;
    let result = read_ty_body(state);
    state.reader.exit_recursion();
    result
}

/// Read a type after its depth check.
#[verifier::spinoff_prover]
#[verifier::rlimit(60)]
fn read_ty_body(state: &mut PhaseOneState<'_>) -> (r: Result<PickledType, ImportError>)
    requires
        old(state).wf(),
    ensures
        final(state).wf(),
        final(state)@.tape.depth == old(state)@.tape.depth,
        osgn::agrees(r, final(state)@, ty_body_at(old(state)@, old(state)@.tape.depth)),
    decreases MAX_RECURSION_DEPTH - old(state)@.tape.depth, 15nat,
{
    broadcast use model::lemma_type_model_list;

    reveal(ty_body_at);
    let tag: u8 = state.reader.read_byte("u_ty tag")?;
    match tag {
        0 => {
            let elems = read_tys(state)?;
            Ok(PickledType::Tuple { kind: TupleKind::Reference, elems })
        },
        1 => {
            let tag_b: u8 = state.reader.read_byte_b("u_ty 1/B");
            let simpletyp_index: u32 = read_simpletyp_index(&mut state.reader)?;
            if simpletyp_index as usize >= state.simpletys_len {
                return Err(
                    ImportError::DanglingPickleRef { kind: "simpletyp", index: simpletyp_index },
                );
            }
            let nullness = nullness_from_b_app_simple(tag_b, "u_ty - 1/B")?;
            Ok(PickledType::AppSimple { simpletyp_index, nullness })
        },
        2 => {
            let tag_b: u8 = state.reader.read_byte_b("u_ty 2/B");
            let tcref = read_tcref(state)?;
            let args = read_tys(state)?;
            let nullness = nullness_from_b_app(tag_b, "u_ty - 2/B")?;
            Ok(PickledType::App { tcref, args, nullness })
        },
        3 => {
            let tag_b: u8 = state.reader.read_byte_b("u_ty 3/B");
            let domain = Box::new(read_ty(state)?);
            let range = Box::new(read_ty(state)?);
            let nullness = nullness_from_b_fun(tag_b, "u_ty - 3/B")?;
            Ok(PickledType::Fun { domain, range, nullness })
        },
        4 => {
            let tag_b: u8 = state.reader.read_byte_b("u_ty 4/B");
            let typar_index: u32 = read_tpref(state)?;
            let nullness = nullness_from_b_var(tag_b, "u_ty - 4/B")?;
            Ok(PickledType::Var { typar_index, nullness })
        },
        5 => {
            let typars = read_tyar_specs(state)?;
            let body = Box::new(read_ty(state)?);
            Ok(PickledType::Forall { typars, body })
        },
        6 => {
            let m = read_measure_expr(state)?;
            Ok(PickledType::Measure(m))
        },
        7 => {
            let ucref = read_ucref(state)?;
            let args = read_tys(state)?;
            Ok(PickledType::UCase { ucref, args })
        },
        8 => {
            let elems = read_tys(state)?;
            Ok(PickledType::Tuple { kind: TupleKind::Struct, elems })
        },
        9 => Err(
            ImportError::UnsupportedPickleTag {
                context: "u_ty tag 9 (Anon — no MiniLibFs fixture exercises it)",
                tag: 9,
            },
        ),
        other => Err(ImportError::UnsupportedPickleTag { context: "u_ty tag", tag: other as u32 }),
    }
}

/// Read an optional type.
pub fn read_option_ty(state: &mut PhaseOneState<'_>, context: &'static str) -> (r: Result<
    Option<PickledType>,
    ImportError,
>)
    requires
        old(state).wf(),
    ensures
        final(state).wf(),
        final(state)@.tape.depth == old(state)@.tape.depth,
        osgn::agrees(
            r,
            final(state)@,
            option_ty_at(old(state)@, context, old(state)@.tape.depth),
        ),
    decreases MAX_RECURSION_DEPTH - old(state)@.tape.depth, 1nat,
{
    let ghost w = state@;
    let ghost d = w.tape.depth;
    let tag: u8 = state.reader.read_byte(context)?;
    let ghost after = state@;
    assert(osgn::lift(w, reader::byte_at(w.tape, context)) == Ok::<(u8, Walk), (Fault, Walk)>(
        (tag, after),
    ));
    if tag == 0 {
        Ok(None)
    } else if tag == 1 {
        let r = read_ty(state);
        assert(osgn::agrees(r, state@, ty_at(after, d)));
        match r {
            Ok(t) => Ok(Some(t)),
            Err(e) => Err(e),
        }
    } else {
        Err(ImportError::UnsupportedPickleTag { context, tag: tag as u32 })
    }
}

} // verus!
