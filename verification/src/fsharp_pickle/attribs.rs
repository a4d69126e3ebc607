//! Attribute applications.
//!
//! Attribute arguments are read in the one form that compile-time constants
//! take; an argument in another form is a hard error, as is an attribute whose
//! constructor is an IL method.
use crate::error::{Fault, ImportError};
use crate::fsharp_pickle::leaves;
use crate::fsharp_pickle::leaves::read_const;
use crate::fsharp_pickle::model::{
    PickledAttribExpr, PickledAttribExprModel, PickledAttribNamedArg, PickledAttribNamedArgModel,
    PickledAttribute, PickledAttributeModel, PickledExpr, PickledExprModel,
};
use crate::fsharp_pickle::osgn;
use crate::fsharp_pickle::osgn::{PhaseOneState, Walk, Walked};
use crate::fsharp_pickle::reader;
use crate::fsharp_pickle::reader::MAX_RECURSION_DEPTH;
use crate::fsharp_pickle::types;
use crate::fsharp_pickle::types::{read_tcref, read_ty};
use crate::fsharp_pickle::vrefs;
use crate::fsharp_pickle::vrefs::read_vref;
use vstd::prelude::*;

verus! {

/// An expression: a tag byte `0`, a constant and its type.
pub open spec fn expr_at(w: Walk, d: nat) -> Walked<PickledExprModel>
    decreases MAX_RECURSION_DEPTH - d, 3nat, 0nat,
{
    match osgn::lift(w, reader::byte_at(w.tape, "u_expr tag")) {
        Err(e) => Err(e),
        Ok((tag, w)) => if tag == 0 {
            match osgn::lift(w, leaves::const_at(w.tape)) {
                Err(e) => Err(e),
                Ok((value, w)) => match types::ty_at(w, d) {
                    Err(e) => Err(e),
                    Ok((ty, w)) => Ok((PickledExprModel { value, ty }, w)),
                },
            }
        } else {
            Err((Fault::UnsupportedPickleTag { context: "u_expr tag", tag: tag as u32 }, w))
        },
    }
}

/// An attribute argument: the expression as written, then as evaluated.
pub open spec fn attrib_expr_at(w: Walk, d: nat) -> Walked<PickledAttribExprModel>
    decreases MAX_RECURSION_DEPTH - d, 4nat, 0nat,
{
    match expr_at(w, d) {
        Err(e) => Err(e),
        Ok((source, w)) => match expr_at(w, d) {
            Err(e) => Err(e),
            Ok((evaluated, w)) => Ok((PickledAttribExprModel { source, evaluated }, w)),
        },
    }
}

/// A list of attribute arguments, read at recursion depth `d`.
pub open spec fn attrib_exprs_at(w: Walk, d: nat) -> Walked<Seq<PickledAttribExprModel>>
    decreases MAX_RECURSION_DEPTH - d, 6nat, 0nat,
{
    match osgn::lift(w, reader::array_len_at(w.tape, "u_attrib args")) {
        Err(e) => Err(e),
        Ok((n, w)) => more_attrib_exprs_at(w, n as nat, d, Seq::empty()),
    }
}

/// A list of attribute arguments: `n` more after those in `acc`.
pub open spec fn more_attrib_exprs_at(
    w: Walk,
    n: nat,
    d: nat,
    acc: Seq<PickledAttribExprModel>,
) -> Walked<Seq<PickledAttribExprModel>>
    decreases MAX_RECURSION_DEPTH - d, 5nat, n,
{
    if n == 0 {
        Ok((acc, w))
    } else {
        match attrib_expr_at(w, d) {
            Err(e) => Err(e),
            Ok((v, w)) => more_attrib_exprs_at(w, (n - 1) as nat, d, acc.push(v)),
        }
    }
}

/// A named attribute argument: its name, its type, whether it is a field, and its
/// value.
pub open spec fn attrib_named_arg_at(w: Walk, d: nat) -> Walked<PickledAttribNamedArgModel>
    decreases MAX_RECURSION_DEPTH - d, 5nat, 0nat,
{
    match osgn::lift(w, reader::string_at(w.tape, "u_attrib_arg name")) {
        Err(e) => Err(e),
        Ok((name, w)) => match types::ty_at(w, d) {
            Err(e) => Err(e),
            Ok((ty, w)) => match osgn::lift(
                w,
                reader::bool_at(w.tape, "u_attrib_arg is_field"),
            ) {
                Err(e) => Err(e),
                Ok((is_field, w)) => match attrib_expr_at(w, d) {
                    Err(e) => Err(e),
                    Ok((value, w)) => Ok(
                        (PickledAttribNamedArgModel { name, ty, is_field, value }, w),
                    ),
                },
            },
        },
    }
}

/// A list of named attribute arguments, read at recursion depth `d`.
pub open spec fn attrib_named_args_at(w: Walk, d: nat) -> Walked<Seq<PickledAttribNamedArgModel>>
    decreases MAX_RECURSION_DEPTH - d, 7nat, 0nat,
{
    match osgn::lift(w, reader::array_len_at(w.tape, "u_attrib named args")) {
        Err(e) => Err(e),
        Ok((n, w)) => more_attrib_named_args_at(w, n as nat, d, Seq::empty()),
    }
}

/// A list of named attribute arguments: `n` more after those in `acc`.
pub open spec fn more_attrib_named_args_at(
    w: Walk,
    n: nat,
    d: nat,
    acc: Seq<PickledAttribNamedArgModel>,
) -> Walked<Seq<PickledAttribNamedArgModel>>
    decreases MAX_RECURSION_DEPTH - d, 6nat, n,
{
    if n == 0 {
        Ok((acc, w))
    } else {
        match attrib_named_arg_at(w, d) {
            Err(e) => Err(e),
            Ok((v, w)) => more_attrib_named_args_at(w, (n - 1) as nat, d, acc.push(v)),
        }
    }
}

/// An attribute application: the attribute class, the tag of its constructor and
/// the constructor, the positional and the named arguments, and whether it is
/// applied to a property accessor.
pub open spec fn attrib_at(w: Walk, d: nat) -> Walked<PickledAttributeModel>
    decreases MAX_RECURSION_DEPTH - d, 8nat, 0nat,
{
    match types::tcref_at(w) {
        Err(e) => Err(e),
        Ok((tcref, w)) => match osgn::lift(w, reader::byte_at(w.tape, "u_attribkind tag")) {
            Err(e) => Err(e),
            Ok((tag, w)) => if tag != 1 {
                Err(
                    (
                        Fault::UnsupportedPickleTag { context: "u_attribkind tag", tag: tag as u32 },
                        w,
                    ),
                )
            } else {
                match vrefs::vref_at(w, d) {
                    Err(e) => Err(e),
                    Ok((constructor, w)) => match attrib_exprs_at(w, d) {
                        Err(e) => Err(e),
                        Ok((args, w)) => match attrib_named_args_at(w, d) {
                            Err(e) => Err(e),
                            Ok((named_args, w)) => match osgn::lift(
                                w,
                                reader::bool_at(w.tape, "u_attrib accessor flag"),
                            ) {
                                Err(e) => Err(e),
                                Ok((applied_to_getter_or_setter, w)) => Ok(
                                    (
                                        PickledAttributeModel {
                                            tcref,
                                            constructor,
                                            args,
                                            named_args,
                                            applied_to_getter_or_setter,
                                        },
                                        w,
                                    ),
                                ),
                            },
                        },
                    },
                }
            },
        },
    }
}

/// A list of attribute applications, read at recursion depth `d`.
pub open spec fn attribs_at(w: Walk, d: nat) -> Walked<Seq<PickledAttributeModel>>
    decreases MAX_RECURSION_DEPTH - d, 10nat, 0nat,
{
    match osgn::lift(w, reader::array_len_at(w.tape, "u_attribs element")) {
        Err(e) => Err(e),
        Ok((n, w)) => more_attribs_at(w, n as nat, d, Seq::empty()),
    }
}

/// A list of attribute applications: `n` more after those in `acc`.
pub open spec fn more_attribs_at(
    w: Walk,
    n: nat,
    d: nat,
    acc: Seq<PickledAttributeModel>,
) -> Walked<Seq<PickledAttributeModel>>
    decreases MAX_RECURSION_DEPTH - d, 9nat, n,
{
    if n == 0 {
        Ok((acc, w))
    } else {
        match attrib_at(w, d) {
            Err(e) => Err(e),
            Ok((v, w)) => more_attribs_at(w, (n - 1) as nat, d, acc.push(v)),
        }
    }
}

/// Read a constant expression.
pub fn read_expr(state: &mut PhaseOneState<'_>) -> (r: Result<PickledExpr, ImportError>)
    requires
        old(state).wf(),
    ensures
        final(state).wf(),
        final(state)@.tape.depth == old(state)@.tape.depth,
        osgn::agrees(r, final(state)@, expr_at(old(state)@, old(state)@.tape.depth)),
    decreases MAX_RECURSION_DEPTH - old(state)@.tape.depth, 3nat,
{
    let tag: u8 = state.reader.read_byte("u_expr tag")?;
    if tag != 0 {
        return Err(ImportError::UnsupportedPickleTag { context: "u_expr tag", tag: tag as u32 });
    }
    let value = read_const(&mut state.reader)?;
    let ty = read_ty(state)?;
    Ok(PickledExpr { value, ty })
}

/// Read an attribute argument.
pub fn read_attrib_expr(state: &mut PhaseOneState<'_>) -> (r: Result<
    PickledAttribExpr,
    ImportError,
>)
    requires
        old(state).wf(),
    ensures
        final(state).wf(),
        final(state)@.tape.depth == old(state)@.tape.depth,
        osgn::agrees(r, final(state)@, attrib_expr_at(old(state)@, old(state)@.tape.depth)),
    decreases MAX_RECURSION_DEPTH - old(state)@.tape.depth, 4nat,
{
    let source = read_expr(state)?;
    let evaluated = read_expr(state)?;
    Ok(PickledAttribExpr { source, evaluated })
}

/// Read a list of attribute arguments.
pub fn read_attrib_exprs(state: &mut PhaseOneState<'_>) -> (r: Result<
    Vec<PickledAttribExpr>,
    ImportError,
>)
    requires
        old(state).wf(),
    ensures
        final(state).wf(),
        final(state)@.tape.depth == old(state)@.tape.depth,
        osgn::agrees(r, final(state)@, attrib_exprs_at(old(state)@, old(state)@.tape.depth)),
    decreases MAX_RECURSION_DEPTH - old(state)@.tape.depth, 6nat,
{
    let ghost d = state@.tape.depth;
    let n: usize = state.reader.read_array_len("u_attrib args")?;
    let mut out: Vec<PickledAttribExpr> = Vec::new();
    assert(out.deep_view() =~= Seq::empty());
    let mut i: usize = 0;
    while i < n
        invariant
            i <= n,
            state.wf(),
            d == old(state)@.tape.depth,
            state@.tape.depth == d,
            attrib_exprs_at(old(state)@, d) == more_attrib_exprs_at(
                state@,
                (n - i) as nat,
                d,
                out.deep_view(),
            ),
        decreases n - i,
    {
        let ghost before = out.deep_view();
        let v = read_attrib_expr(state)?;
        out.push(v);
        assert(out.deep_view() =~= before.push(v.deep_view()));
        i = i + 1;
    }
    Ok(out)
}

/// Read a named attribute argument.
pub fn read_attrib_named_arg(state: &mut PhaseOneState<'_>) -> (r: Result<
    PickledAttribNamedArg,
    ImportError,
>)
    requires
        old(state).wf(),
    ensures
        final(state).wf(),
        final(state)@.tape.depth == old(state)@.tape.depth,
        osgn::agrees(r, final(state)@, attrib_named_arg_at(old(state)@, old(state)@.tape.depth)),
    decreases MAX_RECURSION_DEPTH - old(state)@.tape.depth, 5nat,
{
    let name = state.reader.read_string("u_attrib_arg name")?;
    let ty = read_ty(state)?;
    let is_field: bool = state.reader.read_bool("u_attrib_arg is_field")?;
    let value = read_attrib_expr(state)?;
    Ok(PickledAttribNamedArg { name, ty, is_field, value })
}

/// Read a list of named attribute arguments.
pub fn read_attrib_named_args(state: &mut PhaseOneState<'_>) -> (r: Result<
    Vec<PickledAttribNamedArg>,
    ImportError,
>)
    requires
        old(state).wf(),
    ensures
        final(state).wf(),
        final(state)@.tape.depth == old(state)@.tape.depth,
        osgn::agrees(r, final(state)@, attrib_named_args_at(old(state)@, old(state)@.tape.depth)),
    decreases MAX_RECURSION_DEPTH - old(state)@.tape.depth, 7nat,
{
    let ghost d = state@.tape.depth;
    let n: usize = state.reader.read_array_len("u_attrib named args")?;
    let mut out: Vec<PickledAttribNamedArg> = Vec::new();
    assert(out.deep_view() =~= Seq::empty());
    let mut i: usize = 0;
    while i < n
        invariant
            i <= n,
            state.wf(),
            d == old(state)@.tape.depth,
            state@.tape.depth == d,
            attrib_named_args_at(old(state)@, d) == more_attrib_named_args_at(
                state@,
                (n - i) as nat,
                d,
                out.deep_view(),
            ),
        decreases n - i,
    {
        let ghost before = out.deep_view();
        let v = read_attrib_named_arg(state)?;
        out.push(v);
        assert(out.deep_view() =~= before.push(v.deep_view()));
        i = i + 1;
    }
    Ok(out)
}

/// Read an attribute application.
pub fn read_attrib(state: &mut PhaseOneState<'_>) -> (r: Result<PickledAttribute, ImportError>)
    requires
        old(state).wf(),
    ensures
        final(state).wf(),
        final(state)@.tape.depth == old(state)@.tape.depth,
        osgn::agrees(r, final(state)@, attrib_at(old(state)@, old(state)@.tape.depth)),
    decreases MAX_RECURSION_DEPTH - old(state)@.tape.depth, 8nat,
{
    let tcref = read_tcref(state)?;
    let tag: u8 = state.reader.read_byte("u_attribkind tag")?;
    if tag != 1 {
        return Err(
            ImportError::UnsupportedPickleTag { context: "u_attribkind tag", tag: tag as u32 },
        );
    }
    let constructor = read_vref(state)?;
    let args = read_attrib_exprs(state)?;
    let named_args = read_attrib_named_args(state)?;
    let applied_to_getter_or_setter: bool = state.reader.read_bool("u_attrib accessor flag")?;
    Ok(PickledAttribute { tcref, constructor, args, named_args, applied_to_getter_or_setter })
}

/// Read a list of attribute applications.
pub fn read_attribs(state: &mut PhaseOneState<'_>) -> (r: Result<
    Vec<PickledAttribute>,
    ImportError,
>)
    requires
        old(state).wf(),
    ensures
        final(state).wf(),
        final(state)@.tape.depth == old(state)@.tape.depth,
        osgn::agrees(r, final(state)@, attribs_at(old(state)@, old(state)@.tape.depth)),
    decreases MAX_RECURSION_DEPTH - old(state)@.tape.depth, 10nat,
{
    let ghost d = state@.tape.depth;
    let n: usize = state.reader.read_array_len("u_attribs element")?;
    let mut out: Vec<PickledAttribute> = Vec::new();
    assert(out.deep_view() =~= Seq::empty());
    let mut i: usize = 0;
    while i < n
        invariant
            i <= n,
            state.wf(),
            d == old(state)@.tape.depth,
            state@.tape.depth == d,
            attribs_at(old(state)@, d) == more_attribs_at(
                state@,
                (n - i) as nat,
                d,
                out.deep_view(),
            ),
        decreases n - i,
    {
        let ghost before = out.deep_view();
        let v = read_attrib(state)?;
        out.push(v);
        assert(out.deep_view() =~= before.push(v.deep_view()));
        i = i + 1;
    }
    Ok(out)
}

} // verus!
