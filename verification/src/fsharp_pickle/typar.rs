//! Type parameters: their declarations and constraints.
//!
//! A declaration is a stamp before a body; the body is linked into the table of
//! type parameters. The constraints are a list of the primary stream followed by
//! a list of the B stream, which holds the two kinds of F# 9.
use crate::error::{Fault, ImportError};
use crate::fsharp_pickle::attribs;
use crate::fsharp_pickle::attribs::read_attribs;
use crate::fsharp_pickle::leaves;
use crate::fsharp_pickle::leaves::{read_ident, read_xmldoc};
use crate::fsharp_pickle::model::{
    FSharpTyparConstraint, FSharpTyparConstraintModel, PickledTyparSpecData,
    PickledTyparSpecDataModel,
};
use crate::fsharp_pickle::osgn;
use crate::fsharp_pickle::osgn::{PhaseOneState, Walk, Walked};
use crate::fsharp_pickle::reader;
use crate::fsharp_pickle::reader::{too_long, Decoded, PickleReader, Tape, MAX_RECURSION_DEPTH};
use crate::fsharp_pickle::types;
use crate::fsharp_pickle::types::{read_ty, read_tys};
use vstd::prelude::*;

verus! {

/// A constraint without a type, by its tag.
pub open spec fn plain_constraint(tag: u8) -> Option<FSharpTyparConstraintModel> {
    if tag == 3 {
        Some(FSharpTyparConstraintModel::SupportsNull)
    } else if tag == 4 {
        Some(FSharpTyparConstraintModel::IsNonNullableStruct)
    } else if tag == 5 {
        Some(FSharpTyparConstraintModel::IsReferenceType)
    } else if tag == 6 {
        Some(FSharpTyparConstraintModel::RequiresDefaultConstructor)
    } else if tag == 10 {
        Some(FSharpTyparConstraintModel::SupportsComparison)
    } else if tag == 11 {
        Some(FSharpTyparConstraintModel::SupportsEquality)
    } else if tag == 12 {
        Some(FSharpTyparConstraintModel::IsUnmanaged)
    } else {
        None
    }
}

/// A constraint of the primary stream: a tag byte, then the types it speaks of.
pub open spec fn tyar_constraint_at(w: Walk, d: nat) -> Walked<FSharpTyparConstraintModel>
    decreases MAX_RECURSION_DEPTH - d, 3nat, 0nat,
{
    match osgn::lift(w, reader::byte_at(w.tape, "u_tyar_constraint tag")) {
        Err(e) => Err(e),
        Ok((tag, w)) => if tag == 0 || tag == 2 || tag == 8 {
            match types::ty_at(w, d) {
                Err(e) => Err(e),
                Ok((t, w)) => Ok(
                    (
                        if tag == 0 {
                            FSharpTyparConstraintModel::CoercesTo(t)
                        } else if tag == 2 {
                            FSharpTyparConstraintModel::DefaultsTo(t)
                        } else {
                            FSharpTyparConstraintModel::IsEnum(t)
                        },
                        w,
                    ),
                ),
            }
        } else if tag == 7 {
            match types::tys_at(w, d) {
                Err(e) => Err(e),
                Ok((ts, w)) => Ok((FSharpTyparConstraintModel::SimpleChoice(ts), w)),
            }
        } else if tag == 9 {
            match types::ty_at(w, d) {
                Err(e) => Err(e),
                Ok((a, w)) => match types::ty_at(w, d) {
                    Err(e) => Err(e),
                    Ok((b, w)) => Ok((FSharpTyparConstraintModel::IsDelegate(a, b), w)),
                },
            }
        } else {
            match plain_constraint(tag) {
                Some(c) => Ok((c, w)),
                None => Err(
                    (
                        Fault::UnsupportedPickleTag {
                            context: "u_tyar_constraint",
                            tag: tag as u32,
                        },
                        w,
                    ),
                ),
            }
        },
    }
}

/// The constraints of the primary stream, read at recursion depth `d`.
pub open spec fn primary_constraints_at(w: Walk, d: nat) -> Walked<Seq<FSharpTyparConstraintModel>>
    decreases MAX_RECURSION_DEPTH - d, 5nat, 0nat,
{
    match osgn::lift(w, reader::array_len_at(w.tape, "u_tyar_constraints element")) {
        Err(e) => Err(e),
        Ok((n, w)) => more_primary_constraints_at(w, n as nat, d, Seq::empty()),
    }
}

/// The constraints of the primary stream: `n` more after those in `acc`.
pub open spec fn more_primary_constraints_at(
    w: Walk,
    n: nat,
    d: nat,
    acc: Seq<FSharpTyparConstraintModel>,
) -> Walked<Seq<FSharpTyparConstraintModel>>
    decreases MAX_RECURSION_DEPTH - d, 4nat, n,
{
    if n == 0 {
        Ok((acc, w))
    } else {
        match tyar_constraint_at(w, d) {
            Err(e) => Err(e),
            Ok((v, w)) => more_primary_constraints_at(w, (n - 1) as nat, d, acc.push(v)),
        }
    }
}

/// `n` more constraints of the B stream after those in `acc`.
pub open spec fn more_constraints_b_at(
    s: Tape,
    n: nat,
    acc: Seq<FSharpTyparConstraintModel>,
) -> Decoded<Seq<FSharpTyparConstraintModel>>
    decreases n,
{
    if n == 0 {
        Ok((acc, s))
    } else {
        let tag = reader::peek_b(s);
        if tag == 1 {
            more_constraints_b_at(
                reader::skip_b(s),
                (n - 1) as nat,
                acc.push(FSharpTyparConstraintModel::NotSupportsNull),
            )
        } else if tag == 2 {
            more_constraints_b_at(
                reader::skip_b(s),
                (n - 1) as nat,
                acc.push(FSharpTyparConstraintModel::AllowsRefStruct),
            )
        } else {
            Err(
                (
                    Fault::UnsupportedPickleTag { context: "u_tyar_constraintB", tag: tag as u32 },
                    reader::skip_b(s),
                ),
            )
        }
    }
}

/// The constraints of the B stream after those in `acc`: a length that the bytes
/// left in the B stream can hold, then one tag each.
pub open spec fn constraints_b_at(s: Tape, acc: Seq<FSharpTyparConstraintModel>) -> Decoded<
    Seq<FSharpTyparConstraintModel>,
> {
    let (n, s) = reader::uint32_b_at(s);
    if n > s.b_bytes.len() - s.b_pos {
        Err(
            (
                reader::list_too_long(
                    "u_tyar_constraints",
                    ": B list length ",
                    n as nat,
                    (s.b_bytes.len() - s.b_pos) as nat,
                ),
                s,
            ),
        )
    } else {
        more_constraints_b_at(s, n as nat, acc)
    }
}

/// The constraints of a type parameter: those of the primary stream, then those
/// of the B stream.
pub open spec fn tyar_constraints_at(w: Walk, d: nat) -> Walked<Seq<FSharpTyparConstraintModel>>
    decreases MAX_RECURSION_DEPTH - d, 6nat, 0nat,
{
    match primary_constraints_at(w, d) {
        Err(e) => Err(e),
        Ok((cs, w)) => osgn::lift(w, constraints_b_at(w.tape, cs)),
    }
}

/// The body of a type-parameter declaration: identifier, attributes, flags,
/// constraints and documentation.
pub open spec fn tyar_spec_data_at(w: Walk, d: nat) -> Walked<PickledTyparSpecDataModel>
    decreases MAX_RECURSION_DEPTH - d, 11nat, 0nat,
{
    match osgn::lift(w, leaves::ident_at(w.tape)) {
        Err(e) => Err(e),
        Ok((ident, w)) => match attribs::attribs_at(w, d) {
            Err(e) => Err(e),
            Ok((attribs, w)) => match osgn::lift(
                w,
                reader::int64_at(w.tape, "u_tyar_spec_data flags"),
            ) {
                Err(e) => Err(e),
                Ok((flags, w)) => match tyar_constraints_at(w, d) {
                    Err(e) => Err(e),
                    Ok((constraints, w)) => match osgn::lift(w, leaves::xmldoc_at(w.tape)) {
                        Err(e) => Err(e),
                        Ok((xmldoc, w)) => Ok(
                            (
                                PickledTyparSpecDataModel {
                                    ident,
                                    attribs,
                                    flags,
                                    constraints,
                                    xmldoc,
                                },
                                w,
                            ),
                        ),
                    },
                },
            },
        },
    }
}

/// A type-parameter declaration: a stamp within the table, then the body that is
/// linked under it.
pub open spec fn tyar_spec_at(w: Walk, d: nat) -> Walked<u32>
    decreases MAX_RECURSION_DEPTH - d, 12nat, 0nat,
{
    match osgn::lift(
        w,
        osgn::ref_at(w.tape, "u_tyar_spec osgn index", "typars", w.typars.len()),
    ) {
        Err(e) => Err(e),
        Ok((idx, w)) => match tyar_spec_data_at(w, d) {
            Err(e) => Err(e),
            Ok((body, w)) => osgn::link_typar(w, idx, body),
        },
    }
}

/// A list of type-parameter declarations, read at recursion depth `d`.
pub open spec fn tyar_specs_at(w: Walk, d: nat) -> Walked<Seq<u32>>
    decreases MAX_RECURSION_DEPTH - d, 14nat, 0nat,
{
    match osgn::lift(w, reader::array_len_at(w.tape, "u_tyar_specs element")) {
        Err(e) => Err(e),
        Ok((n, w)) => more_tyar_specs_at(w, n as nat, d, Seq::empty()),
    }
}

/// A list of type-parameter declarations: `n` more after those in `acc`.
pub open spec fn more_tyar_specs_at(w: Walk, n: nat, d: nat, acc: Seq<u32>) -> Walked<Seq<u32>>
    decreases MAX_RECURSION_DEPTH - d, 13nat, n,
{
    if n == 0 {
        Ok((acc, w))
    } else {
        match tyar_spec_at(w, d) {
            Err(e) => Err(e),
            Ok((v, w)) => more_tyar_specs_at(w, (n - 1) as nat, d, acc.push(v)),
        }
    }
}

/// Read a constraint of the primary stream.
pub fn read_tyar_constraint(state: &mut PhaseOneState<'_>) -> (r: Result<
    FSharpTyparConstraint,
    ImportError,
>)
    requires
        old(state).wf(),
    ensures
        final(state).wf(),
        final(state)@.tape.depth == old(state)@.tape.depth,
        osgn::agrees(r, final(state)@, tyar_constraint_at(old(state)@, old(state)@.tape.depth)),
    decreases MAX_RECURSION_DEPTH - old(state)@.tape.depth, 3nat,
{
    let tag: u8 = state.reader.read_byte("u_tyar_constraint tag")?;
    match tag {
        0 | 2 | 8 => {
            let t = read_ty(state)?;
            Ok(
                match tag {
                    0 => FSharpTyparConstraint::CoercesTo(t),
                    2 => FSharpTyparConstraint::DefaultsTo(t),
                    _ => FSharpTyparConstraint::IsEnum(t),
                },
            )
        },
        3 => Ok(FSharpTyparConstraint::SupportsNull),
        4 => Ok(FSharpTyparConstraint::IsNonNullableStruct),
        5 => Ok(FSharpTyparConstraint::IsReferenceType),
        6 => Ok(FSharpTyparConstraint::RequiresDefaultConstructor),
        7 => {
            let ts = read_tys(state)?;
            Ok(FSharpTyparConstraint::SimpleChoice(ts))
        },
        9 => {
            let a = read_ty(state)?;
            let b = read_ty(state)?;
            Ok(FSharpTyparConstraint::IsDelegate(a, b))
        },
        10 => Ok(FSharpTyparConstraint::SupportsComparison),
        11 => Ok(FSharpTyparConstraint::SupportsEquality),
        12 => Ok(FSharpTyparConstraint::IsUnmanaged),
        other => Err(
            ImportError::UnsupportedPickleTag { context: "u_tyar_constraint", tag: other as u32 },
        ),
    }
}

/// Read the constraints of the primary stream.
pub fn read_primary_constraints(state: &mut PhaseOneState<'_>) -> (r: Result<
    Vec<FSharpTyparConstraint>,
    ImportError,
>)
    requires
        old(state).wf(),
    ensures
        final(state).wf(),
        final(state)@.tape.depth == old(state)@.tape.depth,
        osgn::agrees(r, final(state)@, primary_constraints_at(old(state)@, old(state)@.tape.depth)),
    decreases MAX_RECURSION_DEPTH - old(state)@.tape.depth, 5nat,
{
    let ghost d = state@.tape.depth;
    let n: usize = state.reader.read_array_len("u_tyar_constraints element")?;
    let mut out: Vec<FSharpTyparConstraint> = Vec::new();
    assert(out.deep_view() =~= Seq::empty());
    let mut i: usize = 0;
    while i < n
        invariant
            i <= n,
            state.wf(),
            d == old(state)@.tape.depth,
            state@.tape.depth == d,
            primary_constraints_at(old(state)@, d) == more_primary_constraints_at(
                state@,
                (n - i) as nat,
                d,
                out.deep_view(),
            ),
        decreases n - i,
    {
        let ghost before = out.deep_view();
        let v = read_tyar_constraint(state)?;
        out.push(v);
        assert(out.deep_view() =~= before.push(v.deep_view()));
        i = i + 1;
    }
    Ok(out)
}

/// Read the constraints of the B stream and append them to `out`.
fn read_constraints_b(reader: &mut PickleReader<'_>, out: &mut Vec<FSharpTyparConstraint>) -> (r:
    Result<(), ImportError>)
    requires
        old(reader)@.wf(),
    ensures
        final(reader)@.wf(),
        final(reader)@.depth == old(reader)@.depth,
        match constraints_b_at(old(reader)@, old(out).deep_view()) {
            Ok((cs, s)) => r is Ok && final(out).deep_view() == cs && final(reader)@ == s,
            Err((e, s)) => r is Err && r->Err_0.deep_view() == e && final(reader)@ == s,
        },
{
    let n: usize = reader.read_uint32_b("u_tyar_constraints B length") as usize;
    let left: usize = reader.b_remaining();
    if n > left {
        return Err(too_long("u_tyar_constraints", ": B list length ", n, left));
    }
    let mut i: usize = 0;
    while i < n
        invariant
            i <= n,
            reader@.wf(),
            reader@.depth == old(reader)@.depth,
            constraints_b_at(old(reader)@, old(out).deep_view()) == more_constraints_b_at(
                reader@,
                (n - i) as nat,
                out.deep_view(),
            ),
        decreases n - i,
    {
        let ghost before = out.deep_view();
        match reader.read_byte_b("u_tyar_constraintB") {
            1 => {
                out.push(FSharpTyparConstraint::NotSupportsNull);
                assert(out.deep_view() =~= before.push(
                    FSharpTyparConstraintModel::NotSupportsNull,
                ));
            },
            2 => {
                out.push(FSharpTyparConstraint::AllowsRefStruct);
                assert(out.deep_view() =~= before.push(
                    FSharpTyparConstraintModel::AllowsRefStruct,
                ));
            },
            other => {
                return Err(
                    ImportError::UnsupportedPickleTag {
                        context: "u_tyar_constraintB",
                        tag: other as u32,
                    },
                );
            },
        }
        i = i + 1;
    }
    Ok(())
}

/// Read the constraints of a type parameter.
pub fn read_tyar_constraints(state: &mut PhaseOneState<'_>) -> (r: Result<
    Vec<FSharpTyparConstraint>,
    ImportError,
>)
    requires
        old(state).wf(),
    ensures
        final(state).wf(),
        final(state)@.tape.depth == old(state)@.tape.depth,
        osgn::agrees(r, final(state)@, tyar_constraints_at(old(state)@, old(state)@.tape.depth)),
    decreases MAX_RECURSION_DEPTH - old(state)@.tape.depth, 6nat,
{
    let mut out = read_primary_constraints(state)?;
    read_constraints_b(&mut state.reader, &mut out)?;
    Ok(out)
}

/// Read the body of a type-parameter declaration.
pub fn read_tyar_spec_data(state: &mut PhaseOneState<'_>) -> (r: Result<
    PickledTyparSpecData,
    ImportError,
>)
    requires
        old(state).wf(),
    ensures
        final(state).wf(),
        final(state)@.tape.depth == old(state)@.tape.depth,
        osgn::agrees(r, final(state)@, tyar_spec_data_at(old(state)@, old(state)@.tape.depth)),
    decreases MAX_RECURSION_DEPTH - old(state)@.tape.depth, 11nat,
{
    let ident = read_ident(&mut state.reader)?;
    let attribs = read_attribs(state)?;
    let flags: i64 = state.reader.read_int64("u_tyar_spec_data flags")?;
    let constraints = read_tyar_constraints(state)?;
    let xmldoc = read_xmldoc(&mut state.reader)?;
    Ok(PickledTyparSpecData { ident, attribs, flags, constraints, xmldoc })
}

/// Read a type-parameter declaration and link it. Returns the stamp.
pub fn read_tyar_spec(state: &mut PhaseOneState<'_>) -> (r: Result<u32, ImportError>)
    requires
        old(state).wf(),
    ensures
        final(state).wf(),
        final(state)@.tape.depth == old(state)@.tape.depth,
        osgn::agrees(r, final(state)@, tyar_spec_at(old(state)@, old(state)@.tape.depth)),
    decreases MAX_RECURSION_DEPTH - old(state)@.tape.depth, 12nat,
{
    let idx: u32 = state.reader.read_uint32("u_tyar_spec osgn index")?;
    state.itypars.check_index_in_range(idx)?;
    let body = read_tyar_spec_data(state)?;
    state.itypars.link(idx, body)
}

/// Read a list of type-parameter declarations.
pub fn read_tyar_specs(state: &mut PhaseOneState<'_>) -> (r: Result<Vec<u32>, ImportError>)
    requires
        old(state).wf(),
    ensures
        final(state).wf(),
        final(state)@.tape.depth == old(state)@.tape.depth,
        osgn::agrees(r, final(state)@, tyar_specs_at(old(state)@, old(state)@.tape.depth)),
    decreases MAX_RECURSION_DEPTH - old(state)@.tape.depth, 14nat,
{
    let ghost d = state@.tape.depth;
    let n: usize = state.reader.read_array_len("u_tyar_specs element")?;
    let mut out: Vec<u32> = Vec::new();
    assert(out.deep_view() =~= Seq::empty());
    let mut i: usize = 0;
    while i < n
        invariant
            i <= n,
            state.wf(),
            d == old(state)@.tape.depth,
            state@.tape.depth == d,
            tyar_specs_at(old(state)@, d) == more_tyar_specs_at(
                state@,
                (n - i) as nat,
                d,
                out.deep_view(),
            ),
        decreases n - i,
    {
        let ghost before = out.deep_view();
        let v = read_tyar_spec(state)?;
        out.push(v);
        assert(out.deep_view() =~= before.push(v.deep_view()));
        i = i + 1;
    }
    Ok(out)
}

} // verus!
