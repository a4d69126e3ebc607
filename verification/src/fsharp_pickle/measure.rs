//! Unit-of-measure expressions.
use crate::error::{Fault, ImportError};
use crate::fsharp_pickle::model::Measure;
use crate::fsharp_pickle::osgn;
use crate::fsharp_pickle::osgn::{PhaseOneState, Walk, Walked};
use crate::fsharp_pickle::reader;
use crate::fsharp_pickle::reader::MAX_RECURSION_DEPTH;
use crate::fsharp_pickle::types;
use crate::fsharp_pickle::types::{read_tcref, read_tpref};
use vstd::prelude::*;

verus! {

/// A measure expression, read at recursion depth `d`.
pub open spec fn measure_at(w: Walk, d: nat) -> Walked<Measure>
    decreases MAX_RECURSION_DEPTH - d, 0nat,
{
    if d < MAX_RECURSION_DEPTH {
        match measure_body_at(types::with_depth(w, d + 1), d + 1) {
            Err((e, w)) => Err((e, types::with_depth(w, d))),
            Ok((m, w)) => Ok((m, types::with_depth(w, d))),
        }
    } else {
        Err((types::too_deep("u_measure_expr"), w))
    }
}

/// A measure expression after its depth check: a tag byte, then its operands.
pub open spec fn measure_body_at(w: Walk, d: nat) -> Walked<Measure>
    decreases MAX_RECURSION_DEPTH - d, 1nat,
{
    match osgn::lift(w, reader::byte_at(w.tape, "u_measure_expr tag")) {
        Err(e) => Err(e),
        Ok((tag, w)) => if tag == 0 {
            match types::tcref_at(w) {
                Err(e) => Err(e),
                Ok((t, w)) => Ok((Measure::Const(t), w)),
            }
        } else if tag == 1 {
            match measure_at(w, d) {
                Err(e) => Err(e),
                Ok((a, w)) => Ok((Measure::Inv(Box::new(a)), w)),
            }
        } else if tag == 2 {
            match measure_at(w, d) {
                Err(e) => Err(e),
                Ok((a, w)) => match measure_at(w, d) {
                    Err(e) => Err(e),
                    Ok((b, w)) => Ok((Measure::Prod(Box::new(a), Box::new(b)), w)),
                },
            }
        } else if tag == 3 {
            match types::tpref_at(w) {
                Err(e) => Err(e),
                Ok((i, w)) => Ok((Measure::Var(i), w)),
            }
        } else if tag == 4 {
            Ok((Measure::One, w))
        } else if tag == 5 {
            match measure_at(w, d) {
                Err(e) => Err(e),
                Ok((base, w)) => match osgn::lift(
                    w,
                    reader::int32_at(w.tape, "u_rational numerator"),
                ) {
                    Err(e) => Err(e),
                    Ok((numerator, w)) => match osgn::lift(
                        w,
                        reader::int32_at(w.tape, "u_rational denominator"),
                    ) {
                        Err(e) => Err(e),
                        Ok((denominator, w)) => Ok(
                            (
                                Measure::RationalPower {
                                    base: Box::new(base),
                                    numerator,
                                    denominator,
                                },
                                w,
                            ),
                        ),
                    },
                },
            }
        } else {
            Err((Fault::UnsupportedPickleTag { context: "u_measure_expr", tag: tag as u32 }, w))
        },
    }
}

/// Read a measure expression.
pub fn read_measure_expr(state: &mut PhaseOneState<'_>) -> (r: Result<Measure, ImportError>)
    requires
        old(state).wf(),
    ensures
        final(state).wf(),
        final(state)@.tape.depth == old(state)@.tape.depth,
        osgn::agrees(r, final(state)@, measure_at(old(state)@, old(state)@.tape.depth)),
    decreases MAX_RECURSION_DEPTH - old(state)@.tape.depth, 0nat,
{
    state.reader.enter_recursion("u_measure_expr")?;
    let result = read_measure_body(state);
    state.reader.exit_recursion();
    result
}

/// Read a measure expression after its depth check.
fn read_measure_body(state: &mut PhaseOneState<'_>) -> (r: Result<Measure, ImportError>)
    requires
        old(state).wf(),
    ensures
        final(state).wf(),
        final(state)@.tape.depth == old(state)@.tape.depth,
        osgn::agrees(r, final(state)@, measure_body_at(old(state)@, old(state)@.tape.depth)),
    decreases MAX_RECURSION_DEPTH - old(state)@.tape.depth, 1nat,
{
    match state.reader.read_byte("u_measure_expr tag")? {
        0 => {
            let t = read_tcref(state)?;
            Ok(Measure::Const(t))
        },
        1 => {
            let a = read_measure_expr(state)?;
            Ok(Measure::Inv(Box::new(a)))
        },
        2 => {
            let a = read_measure_expr(state)?;
            let b = read_measure_expr(state)?;
            Ok(Measure::Prod(Box::new(a), Box::new(b)))
        },
        3 => {
            let i: u32 = read_tpref(state)?;
            Ok(Measure::Var(i))
        },
        4 => Ok(Measure::One),
        5 => {
            let base = read_measure_expr(state)?;
            let numerator: i32 = state.reader.read_int32("u_rational numerator")?;
            let denominator: i32 = state.reader.read_int32("u_rational denominator")?;
            Ok(Measure::RationalPower { base: Box::new(base), numerator, denominator })
        },
        other => Err(
            ImportError::UnsupportedPickleTag { context: "u_measure_expr", tag: other as u32 },
        ),
    }
}

} // verus!
