//! Value references.
//!
//! A reference to a value of this assembly is a stamp; the slot it points at may
//! be declared later in the walk, so it is checked against the table's size and
//! not dereferenced.
use crate::error::{Fault, ImportError};
use crate::fsharp_pickle::model::{
    PickledNonLocalValRef, PickledNonLocalValRefModel, PickledVRef, PickledVRefModel,
};
use crate::fsharp_pickle::osgn;
use crate::fsharp_pickle::osgn::{PhaseOneState, Walk, Walked};
use crate::fsharp_pickle::reader;
use crate::fsharp_pickle::reader::{Decoded, PickleReader, Tape, MAX_RECURSION_DEPTH};
use crate::fsharp_pickle::types;
use crate::fsharp_pickle::types::{read_option_ty, read_tcref};
use vstd::prelude::*;

verus! {

/// An optional string.
pub open spec fn option_string_at(s: Tape, context: &'static str, body: &'static str) -> Decoded<
    Option<Seq<char>>,
> {
    reader::option_at(s, context, |s: Tape| reader::string_at(s, body))
}

/// A reference to a value of another assembly: the enclosing entity, the mangled
/// name of the parent of a member, whether it is an override, its name, its
/// argument count and a partial type.
pub open spec fn nonlocal_val_ref_at(w: Walk, d: nat) -> Walked<PickledNonLocalValRefModel>
    decreases MAX_RECURSION_DEPTH - d, 3nat, 0nat,
{
    match types::tcref_at(w) {
        Err(e) => Err(e),
        Ok((enclosing_entity, w)) => match osgn::lift(
            w,
            option_string_at(
                w.tape,
                "u_nonlocal_val_ref MemberParentMangledName",
                "u_nonlocal_val_ref MemberParentMangledName body",
            ),
        ) {
            Err(e) => Err(e),
            Ok((member_parent_mangled_name, w)) => match osgn::lift(
                w,
                reader::bool_at(w.tape, "u_nonlocal_val_ref MemberIsOverride"),
            ) {
                Err(e) => Err(e),
                Ok((member_is_override, w)) => match osgn::lift(
                    w,
                    reader::string_at(w.tape, "u_nonlocal_val_ref LogicalName"),
                ) {
                    Err(e) => Err(e),
                    Ok((logical_name, w)) => match osgn::lift(
                        w,
                        reader::uint32_at(w.tape, "u_nonlocal_val_ref TotalArgCount"),
                    ) {
                        Err(e) => Err(e),
                        Ok((total_arg_count, w)) => match types::option_ty_at(
                            w,
                            "u_nonlocal_val_ref partialType",
                            d,
                        ) {
                            Err(e) => Err(e),
                            Ok((partial_type, w)) => Ok(
                                (
                                    PickledNonLocalValRefModel {
                                        enclosing_entity,
                                        member_parent_mangled_name,
                                        member_is_override,
                                        logical_name,
                                        total_arg_count,
                                        partial_type,
                                    },
                                    w,
                                ),
                            ),
                        },
                    },
                },
            },
        },
    }
}

/// A value reference: a tag byte, then a stamp or a non-local reference.
pub open spec fn vref_at(w: Walk, d: nat) -> Walked<PickledVRefModel>
    decreases MAX_RECURSION_DEPTH - d, 4nat, 0nat,
{
    match osgn::lift(w, reader::byte_at(w.tape, "u_vref tag")) {
        Err(e) => Err(e),
        Ok((tag, w)) => if tag == 0 {
            match osgn::lift(
                w,
                osgn::ref_at(w.tape, "u_vref Local stamp", "vals", w.vals.len()),
            ) {
                Err(e) => Err(e),
                Ok((idx, w)) => Ok((PickledVRefModel::Local(idx), w)),
            }
        } else if tag == 1 {
            match nonlocal_val_ref_at(w, d) {
                Err(e) => Err(e),
                Ok((v, w)) => Ok((PickledVRefModel::NonLocal(v), w)),
            }
        } else {
            Err((Fault::UnsupportedPickleTag { context: "u_vref tag", tag: tag as u32 }, w))
        },
    }
}

/// Read an optional string.
pub fn read_option_string<'a>(
    reader: &mut PickleReader<'a>,
    context: &'static str,
    body: &'static str,
) -> (r: Result<Option<String>, ImportError>)
    requires
        old(reader)@.wf(),
    ensures
        final(reader)@.wf(),
        final(reader)@.depth == old(reader)@.depth,
        reader::agrees(r, final(reader)@, option_string_at(old(reader)@, context, body)),
{
    let text = |x: &mut PickleReader<'a>| -> (o: Result<String, ImportError>)
        requires
            x@.wf(),
        ensures
            final(x)@.wf(),
            final(x)@.depth == old(x)@.depth,
            reader::agrees(o, final(x)@, reader::string_at(old(x)@, body)),
        { x.read_string(body) };
    let ghost step = |s: Tape| reader::string_at(s, body);
    let ghost want = reader::option_at(reader@, context, step);
    reader.read_option(context, text)
}

/// Read a reference to a value of another assembly.
pub fn read_nonlocal_val_ref(state: &mut PhaseOneState<'_>) -> (r: Result<
    PickledNonLocalValRef,
    ImportError,
>)
    requires
        old(state).wf(),
    ensures
        final(state).wf(),
        final(state)@.tape.depth == old(state)@.tape.depth,
        osgn::agrees(r, final(state)@, nonlocal_val_ref_at(old(state)@, old(state)@.tape.depth)),
    decreases MAX_RECURSION_DEPTH - old(state)@.tape.depth, 3nat,
{
    let enclosing_entity = read_tcref(state)?;
    let member_parent_mangled_name = read_option_string(
        &mut state.reader,
        "u_nonlocal_val_ref MemberParentMangledName",
        "u_nonlocal_val_ref MemberParentMangledName body",
    )?;
    let member_is_override: bool = state.reader.read_bool("u_nonlocal_val_ref MemberIsOverride")?;
    let logical_name = state.reader.read_string("u_nonlocal_val_ref LogicalName")?;
    let total_arg_count: u32 = state.reader.read_uint32("u_nonlocal_val_ref TotalArgCount")?;
    let partial_type = read_option_ty(state, "u_nonlocal_val_ref partialType")?;
    Ok(
        PickledNonLocalValRef {
            enclosing_entity,
            member_parent_mangled_name,
            member_is_override,
            logical_name,
            total_arg_count,
            partial_type,
        },
    )
}

/// Read a value reference. A stamp is checked against the table of values.
pub fn read_vref(state: &mut PhaseOneState<'_>) -> (r: Result<PickledVRef, ImportError>)
    requires
        old(state).wf(),
    ensures
        final(state).wf(),
        final(state)@.tape.depth == old(state)@.tape.depth,
        osgn::agrees(r, final(state)@, vref_at(old(state)@, old(state)@.tape.depth)),
        r matches Ok(PickledVRef::Local(idx)) ==> idx < old(state)@.vals.len(),
    decreases MAX_RECURSION_DEPTH - old(state)@.tape.depth, 4nat,
{
    let tag: u8 = state.reader.read_byte("u_vref tag")?;
    match tag {
        0 => {
            let idx: u32 = state.reader.read_uint32("u_vref Local stamp")?;
            state.ivals.check_index_in_range(idx)?;
            Ok(PickledVRef::Local(idx))
        },
        1 => {
            let v = read_nonlocal_val_ref(state)?;
            Ok(PickledVRef::NonLocal(v))
        },
        other => Err(
            ImportError::UnsupportedPickleTag { context: "u_vref tag", tag: other as u32 },
        ),
    }
}

} // verus!
