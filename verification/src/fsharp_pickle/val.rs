//! Values: `let` bindings and members.
use crate::error::{Fault, ImportError};
use crate::fsharp_pickle::attribs;
use crate::fsharp_pickle::attribs::read_attribs;
use crate::fsharp_pickle::leaves;
use crate::fsharp_pickle::leaves::{
    read_access, read_const, read_ident, read_kind, read_range, read_xmldoc,
};
use crate::fsharp_pickle::model::{
    PickledArgReprInfo, PickledArgReprInfoModel, PickledConst, PickledConstModel, PickledIdent,
    PickledIdentModel, PickledMemberFlags, PickledMemberInfo, PickledMemberInfoModel,
    PickledMemberKind, PickledParentRef, PickledRange, PickledSlotParam, PickledSlotParamModel,
    PickledSlotSig, PickledSlotSigModel, PickledTyparReprInfo, PickledTyparReprInfoModel,
    PickledVal, PickledValModel, PickledValReprInfo, PickledValReprInfoModel, PickledXmlDoc,
    PickledXmlDocModel,
};
use crate::fsharp_pickle::osgn;
use crate::fsharp_pickle::osgn::{PhaseOneState, Walk, Walked};
use crate::fsharp_pickle::reader;
use crate::fsharp_pickle::reader::{Decoded, PickleReader, Tape};
use crate::fsharp_pickle::typar;
use crate::fsharp_pickle::typar::read_tyar_specs;
use crate::fsharp_pickle::types;
use crate::fsharp_pickle::types::{read_option_ty, read_tcref, read_ty};
use crate::fsharp_pickle::vrefs;
use crate::fsharp_pickle::vrefs::read_option_string;
use vstd::prelude::*;

verus! {

/// The kind of a member, by its tag.
pub open spec fn member_kind_at(s: Tape) -> Decoded<PickledMemberKind> {
    match reader::byte_at(s, "u_member_kind tag") {
        Err(e) => Err(e),
        Ok((tag, s)) => if tag == 0 {
            Ok((PickledMemberKind::Member, s))
        } else if tag == 1 {
            Ok((PickledMemberKind::PropertyGet, s))
        } else if tag == 2 {
            Ok((PickledMemberKind::PropertySet, s))
        } else if tag == 3 {
            Ok((PickledMemberKind::Constructor, s))
        } else if tag == 4 {
            Ok((PickledMemberKind::ClassConstructor, s))
        } else {
            Err((Fault::UnsupportedPickleTag { context: "u_member_kind", tag: tag as u32 }, s))
        },
    }
}

/// The flags of a member: five booleans, of which the second is unused, and the
/// kind.
pub open spec fn member_flags_at(s: Tape) -> Decoded<PickledMemberFlags> {
    match reader::bool_at(s, "u_MemberFlags IsInstance") {
        Err(e) => Err(e),
        Ok((is_instance, s)) => match reader::bool_at(s, "u_MemberFlags _x3UnusedBoolInFormat") {
            Err(e) => Err(e),
            Ok((_, s)) => match reader::bool_at(s, "u_MemberFlags IsDispatchSlot") {
                Err(e) => Err(e),
                Ok((is_dispatch_slot, s)) => match reader::bool_at(
                    s,
                    "u_MemberFlags IsOverrideOrExplicitImpl",
                ) {
                    Err(e) => Err(e),
                    Ok((is_override_or_explicit_impl, s)) => match reader::bool_at(
                        s,
                        "u_MemberFlags IsFinal",
                    ) {
                        Err(e) => Err(e),
                        Ok((is_final, s)) => match member_kind_at(s) {
                            Err(e) => Err(e),
                            Ok((kind, s)) => Ok(
                                (
                                    PickledMemberFlags {
                                        is_instance,
                                        is_dispatch_slot,
                                        is_override_or_explicit_impl,
                                        is_final,
                                        kind,
                                    },
                                    s,
                                ),
                            ),
                        },
                    },
                },
            },
        },
    }
}

/// How a type parameter of a value is represented: its identifier and its kind.
pub open spec fn typar_repr_info_at(s: Tape) -> Decoded<PickledTyparReprInfoModel> {
    match leaves::ident_at(s) {
        Err(e) => Err(e),
        Ok((ident, s)) => match leaves::kind_at(s) {
            Err(e) => Err(e),
            Ok((kind, s)) => Ok((PickledTyparReprInfoModel { ident, kind }, s)),
        },
    }
}

/// An optional identifier.
pub open spec fn option_ident_at(s: Tape, context: &'static str) -> Decoded<
    Option<PickledIdentModel>,
> {
    reader::option_at(s, context, |s: Tape| leaves::ident_at(s))
}

/// An optional constant.
pub open spec fn option_const_at(s: Tape, context: &'static str) -> Decoded<
    Option<PickledConstModel>,
> {
    reader::option_at(s, context, |s: Tape| leaves::const_at(s))
}

/// The documentation in the frame of a later extension.
pub open spec fn framed_xmldoc_at(s: Tape, context: &'static str) -> Decoded<
    Option<PickledXmlDocModel>,
> {
    reader::used_space1_at(s, context, |s: Tape| leaves::xmldoc_at(s))
}

/// Two ranges, or neither.
pub open spec fn ranges_at(s: Tape) -> Decoded<(Option<PickledRange>, Option<PickledRange>)> {
    match reader::byte_at(s, "u_ranges") {
        Err(e) => Err(e),
        Ok((tag, s)) => if tag == 0 {
            Ok(((None, None), s))
        } else if tag == 1 {
            match leaves::range_at(s) {
                Err(e) => Err(e),
                Ok((a, s)) => match leaves::range_at(s) {
                    Err(e) => Err(e),
                    Ok((b, s)) => Ok(((Some(a), Some(b)), s)),
                },
            }
        } else {
            Err((Fault::UnsupportedPickleTag { context: "u_ranges", tag: tag as u32 }, s))
        },
    }
}

/// How an argument is represented: its attributes and its name.
#[verifier::opaque]
pub open spec fn arg_repr_info_at(w: Walk, d: nat) -> Walked<PickledArgReprInfoModel> {
    match attribs::attribs_at(w, d) {
        Err(e) => Err(e),
        Ok((attribs, w)) => match osgn::lift(w, option_ident_at(w.tape, "u_ArgReprInfo Name")) {
            Err(e) => Err(e),
            Ok((name, w)) => Ok((PickledArgReprInfoModel { attribs, name }, w)),
        },
    }
}

/// One curried argument group, read at recursion depth `d`.
#[verifier::opaque]
pub open spec fn arg_group_at(w: Walk, d: nat) -> Walked<Seq<PickledArgReprInfoModel>>
{
    match osgn::lift(w, reader::array_len_at(w.tape, "u_ValReprInfo arg_repr inner")) {
        Err(e) => Err(e),
        Ok((n, w)) => more_arg_group_at(w, n as nat, d, Seq::empty()),
    }
}

/// One curried argument group: `n` more after those in `acc`.
pub open spec fn more_arg_group_at(
    w: Walk,
    n: nat,
    d: nat,
    acc: Seq<PickledArgReprInfoModel>,
) -> Walked<Seq<PickledArgReprInfoModel>>
    decreases n,
{
    if n == 0 {
        Ok((acc, w))
    } else {
        match arg_repr_info_at(w, d) {
            Err(e) => Err(e),
            Ok((v, w)) => more_arg_group_at(w, (n - 1) as nat, d, acc.push(v)),
        }
    }
}

/// The curried argument groups, read at recursion depth `d`.
#[verifier::opaque]
pub open spec fn arg_groups_at(w: Walk, d: nat) -> Walked<Seq<Seq<PickledArgReprInfoModel>>>
{
    match osgn::lift(w, reader::array_len_at(w.tape, "u_ValReprInfo arg_repr outer")) {
        Err(e) => Err(e),
        Ok((n, w)) => more_arg_groups_at(w, n as nat, d, Seq::empty()),
    }
}

/// The curried argument groups: `n` more after those in `acc`.
pub open spec fn more_arg_groups_at(
    w: Walk,
    n: nat,
    d: nat,
    acc: Seq<Seq<PickledArgReprInfoModel>>,
) -> Walked<Seq<Seq<PickledArgReprInfoModel>>>
    decreases n,
{
    if n == 0 {
        Ok((acc, w))
    } else {
        match arg_group_at(w, d) {
            Err(e) => Err(e),
            Ok((v, w)) => more_arg_groups_at(w, (n - 1) as nat, d, acc.push(v)),
        }
    }
}

/// The representation of the type parameters of a value.
pub open spec fn typar_reprs_at(s: Tape) -> Decoded<Seq<PickledTyparReprInfoModel>> {
    reader::array_at(s, "u_ValReprInfo typar_repr", |s: Tape| typar_repr_info_at(s))
}

/// How a value is compiled: its type parameters, its argument groups, its result.
#[verifier::opaque]
pub open spec fn val_repr_info_at(w: Walk, d: nat) -> Walked<PickledValReprInfoModel> {
    match osgn::lift(w, typar_reprs_at(w.tape)) {
        Err(e) => Err(e),
        Ok((typar_repr, w)) => match arg_groups_at(w, d) {
            Err(e) => Err(e),
            Ok((arg_repr, w)) => match arg_repr_info_at(w, d) {
                Err(e) => Err(e),
                Ok((return_repr, w)) => {
                    Ok((PickledValReprInfoModel { typar_repr, arg_repr, return_repr }, w))
                },
            },
        },
    }
}

/// A parameter of an abstract slot.
#[verifier::opaque]
pub open spec fn slotparam_at(w: Walk, d: nat) -> Walked<PickledSlotParamModel> {
    match osgn::lift(
        w,
        vrefs::option_string_at(w.tape, "u_slotparam Name", "u_slotparam Name body"),
    ) {
        Err(e) => Err(e),
        Ok((name, w)) => match types::ty_at(w, d) {
            Err(e) => Err(e),
            Ok((ty, w)) => match osgn::lift(w, reader::bool_at(w.tape, "u_slotparam IsInArg")) {
                Err(e) => Err(e),
                Ok((is_in_arg, w)) => match osgn::lift(
                    w,
                    reader::bool_at(w.tape, "u_slotparam IsOutArg"),
                ) {
                    Err(e) => Err(e),
                    Ok((is_out_arg, w)) => match osgn::lift(
                        w,
                        reader::bool_at(w.tape, "u_slotparam IsOptional"),
                    ) {
                        Err(e) => Err(e),
                        Ok((is_optional, w)) => match attribs::attribs_at(w, d) {
                            Err(e) => Err(e),
                            Ok((attribs, w)) => {
                                Ok(
                                    (
                                        PickledSlotParamModel {
                                            name,
                                            ty,
                                            is_in_arg,
                                            is_out_arg,
                                            is_optional,
                                            attribs,
                                        },
                                        w,
                                    ),
                                )
                            },
                        },
                    },
                },
            },
        },
    }
}

/// One curried parameter group of a slot, read at recursion depth `d`.
#[verifier::opaque]
pub open spec fn slot_group_at(w: Walk, d: nat) -> Walked<Seq<PickledSlotParamModel>>
{
    match osgn::lift(w, reader::array_len_at(w.tape, "u_slotsig params inner")) {
        Err(e) => Err(e),
        Ok((n, w)) => more_slot_group_at(w, n as nat, d, Seq::empty()),
    }
}

/// One curried parameter group of a slot: `n` more after those in `acc`.
pub open spec fn more_slot_group_at(
    w: Walk,
    n: nat,
    d: nat,
    acc: Seq<PickledSlotParamModel>,
) -> Walked<Seq<PickledSlotParamModel>>
    decreases n,
{
    if n == 0 {
        Ok((acc, w))
    } else {
        match slotparam_at(w, d) {
            Err(e) => Err(e),
            Ok((v, w)) => more_slot_group_at(w, (n - 1) as nat, d, acc.push(v)),
        }
    }
}

/// The curried parameter groups of a slot, read at recursion depth `d`.
#[verifier::opaque]
pub open spec fn slot_groups_at(w: Walk, d: nat) -> Walked<Seq<Seq<PickledSlotParamModel>>>
{
    match osgn::lift(w, reader::array_len_at(w.tape, "u_slotsig params outer")) {
        Err(e) => Err(e),
        Ok((n, w)) => more_slot_groups_at(w, n as nat, d, Seq::empty()),
    }
}

/// The curried parameter groups of a slot: `n` more after those in `acc`.
pub open spec fn more_slot_groups_at(
    w: Walk,
    n: nat,
    d: nat,
    acc: Seq<Seq<PickledSlotParamModel>>,
) -> Walked<Seq<Seq<PickledSlotParamModel>>>
    decreases n,
{
    if n == 0 {
        Ok((acc, w))
    } else {
        match slot_group_at(w, d) {
            Err(e) => Err(e),
            Ok((v, w)) => more_slot_groups_at(w, (n - 1) as nat, d, acc.push(v)),
        }
    }
}

/// The signature of an abstract slot: its name, the type it belongs to, the type
/// parameters of that type and of the method, the parameter groups and the result.
#[verifier::opaque]
pub open spec fn slotsig_at(w: Walk, d: nat) -> Walked<PickledSlotSigModel> {
    match osgn::lift(w, reader::string_at(w.tape, "u_slotsig Name")) {
        Err(e) => Err(e),
        Ok((name, w)) => match types::ty_at(w, d) {
            Err(e) => Err(e),
            Ok((implemented_ty, w)) => match typar::tyar_specs_at(w, d) {
                Err(e) => Err(e),
                Ok((class_typars, w)) => match typar::tyar_specs_at(w, d) {
                    Err(e) => Err(e),
                    Ok((method_typars, w)) => match slot_groups_at(w, d) {
                        Err(e) => Err(e),
                        Ok((params, w)) => match types::option_ty_at(w, "u_slotsig ReturnTy", d) {
                            Err(e) => Err(e),
                            Ok((return_ty, w)) => {
                                Ok(
                                    (
                                        PickledSlotSigModel {
                                            name,
                                            implemented_ty,
                                            class_typars,
                                            method_typars,
                                            params,
                                            return_ty,
                                        },
                                        w,
                                    ),
                                )
                            },
                        },
                    },
                },
            },
        },
    }
}

/// The slots that a member implements, read at recursion depth `d`.
#[verifier::opaque]
pub open spec fn slotsigs_at(w: Walk, d: nat) -> Walked<Seq<PickledSlotSigModel>>
{
    match osgn::lift(w, reader::array_len_at(w.tape, "u_member_info ImplementedSlotSigs")) {
        Err(e) => Err(e),
        Ok((n, w)) => more_slotsigs_at(w, n as nat, d, Seq::empty()),
    }
}

/// The slots that a member implements: `n` more after those in `acc`.
pub open spec fn more_slotsigs_at(
    w: Walk,
    n: nat,
    d: nat,
    acc: Seq<PickledSlotSigModel>,
) -> Walked<Seq<PickledSlotSigModel>>
    decreases n,
{
    if n == 0 {
        Ok((acc, w))
    } else {
        match slotsig_at(w, d) {
            Err(e) => Err(e),
            Ok((v, w)) => more_slotsigs_at(w, (n - 1) as nat, d, acc.push(v)),
        }
    }
}

/// What makes a value a member: the type it extends, its flags, the slots it
/// implements and whether it is implemented.
#[verifier::opaque]
pub open spec fn member_info_at(w: Walk, d: nat) -> Walked<PickledMemberInfoModel> {
    match types::tcref_at(w) {
        Err(e) => Err(e),
        Ok((apparent_parent, w)) => match osgn::lift(w, member_flags_at(w.tape)) {
            Err(e) => Err(e),
            Ok((flags, w)) => match slotsigs_at(w, d) {
                Err(e) => Err(e),
                Ok((implemented_slots, w)) => match osgn::lift(
                    w,
                    reader::bool_at(w.tape, "u_member_info IsImplemented"),
                ) {
                    Err(e) => Err(e),
                    Ok((is_implemented, w)) => {
                        Ok(
                            (
                                PickledMemberInfoModel {
                                    apparent_parent,
                                    flags,
                                    implemented_slots,
                                    is_implemented,
                                },
                                w,
                            ),
                        )
                    },
                },
            },
        },
    }
}

/// The declaring entity of a value, if any.
#[verifier::opaque]
pub open spec fn parentref_at(w: Walk) -> Walked<PickledParentRef> {
    match osgn::lift(w, reader::byte_at(w.tape, "u_parentref tag")) {
        Err(e) => Err(e),
        Ok((tag, w)) => if tag == 0 {
            Ok((PickledParentRef::NoParent, w))
        } else if tag == 1 {
            match types::tcref_at(w) {
                Err(e) => Err(e),
                Ok((t, w)) => Ok((PickledParentRef::Parent(t), w)),
            }
        } else {
            Err((Fault::UnsupportedPickleTag { context: "u_parentref", tag: tag as u32 }, w))
        },
    }
}

/// What makes a value a member, where it is one.
#[verifier::opaque]
pub open spec fn option_member_info_at(w: Walk, context: &'static str, d: nat) -> Walked<
    Option<PickledMemberInfoModel>,
> {
    match osgn::lift(w, reader::byte_at(w.tape, context)) {
        Err(e) => Err(e),
        Ok((tag, w)) => if tag == 0 {
            Ok((None, w))
        } else if tag == 1 {
            match member_info_at(w, d) {
                Err(e) => Err(e),
                Ok((v, w)) => Ok((Some(v), w)),
            }
        } else {
            Err((Fault::UnsupportedPickleTag { context, tag: tag as u32 }, w))
        },
    }
}

/// How a value is compiled, where that is recorded.
#[verifier::opaque]
pub open spec fn option_val_repr_info_at(w: Walk, context: &'static str, d: nat) -> Walked<
    Option<PickledValReprInfoModel>,
> {
    match osgn::lift(w, reader::byte_at(w.tape, context)) {
        Err(e) => Err(e),
        Ok((tag, w)) => if tag == 0 {
            Ok((None, w))
        } else if tag == 1 {
            match val_repr_info_at(w, d) {
                Err(e) => Err(e),
                Ok((v, w)) => Ok((Some(v), w)),
            }
        } else {
            Err((Fault::UnsupportedPickleTag { context, tag: tag as u32 }, w))
        },
    }
}

/// The body of a value.
#[verifier::opaque]
pub open spec fn val_data_at(w: Walk, d: nat) -> Walked<PickledValModel> {
    match osgn::lift(w, reader::string_at(w.tape, "u_ValData LogicalName")) {
        Err(e) => Err(e),
        Ok((logical_name, w)) => match osgn::lift(
            w,
            vrefs::option_string_at(
                w.tape,
                "u_ValData CompiledName",
                "u_ValData CompiledName body",
            ),
        ) {
            Err(e) => Err(e),
            Ok((compiled_name, w)) => match osgn::lift(w, ranges_at(w.tape)) {
                Err(e) => Err(e),
                Ok((ranges, w)) => match types::ty_at(w, d) {
                    Err(e) => Err(e),
                    Ok((ty, w)) => match osgn::lift(
                        w,
                        reader::int64_at(w.tape, "u_ValData flags"),
                    ) {
                        Err(e) => Err(e),
                        Ok((flags, w)) => match option_member_info_at(
                            w,
                            "u_ValData MemberInfo",
                            d,
                        ) {
                            Err(e) => Err(e),
                            Ok((member_info, w)) => match attribs::attribs_at(w, d) {
                                Err(e) => Err(e),
                                Ok((attribs, w)) => match option_val_repr_info_at(
                                    w,
                                    "u_ValData ValReprInfo",
                                    d,
                                ) {
                                    Err(e) => Err(e),
                                    Ok((repr_info, w)) => match osgn::lift(
                                        w,
                                        reader::string_at(w.tape, "u_ValData XmlDocSig"),
                                    ) {
                                        Err(e) => Err(e),
                                        Ok((xmldoc_sig, w)) => match osgn::lift(
                                            w,
                                            leaves::access_at(w.tape),
                                        ) {
                                            Err(e) => Err(e),
                                            Ok((access, w)) => match parentref_at(w) {
                                                Err(e) => Err(e),
                                                Ok((parent, w)) => match osgn::lift(
                                                    w,
                                                    option_const_at(
                                                        w.tape,
                                                        "u_ValData LiteralValue",
                                                    ),
                                                ) {
                                                    Err(e) => Err(e),
                                                    Ok((literal_value, w)) => match osgn::lift(
                                                        w,
                                                        framed_xmldoc_at(
                                                            w.tape,
                                                            "u_ValData xmldoc",
                                                        ),
                                                    ) {
                                                        Err(e) => Err(e),
                                                        Ok((xmldoc, w)) => Ok((PickledValModel {
        logical_name,
        compiled_name,
        range: ranges.0,
        other_range: ranges.1,
        ty,
        flags,
        member_info,
        attribs,
        repr_info,
        xmldoc_sig,
        access,
        parent,
        literal_value,
        xmldoc,
    }, w)),
                                                    },
                                                },
                                            },
                                        },
                                    },
                                },
                            },
                        },
                    },
                },
            },
        },
    }
}

/// A value: a stamp within the table, then the body that is linked under it.
#[verifier::opaque]
pub open spec fn val_at(w: Walk, d: nat) -> Walked<u32> {
    match osgn::lift(w, osgn::ref_at(w.tape, "u_Val osgn index", "vals", w.vals.len())) {
        Err(e) => Err(e),
        Ok((idx, w)) => match val_data_at(w, d) {
            Err(e) => Err(e),
            Ok((body, w)) => osgn::link_val(w, idx, body),
        },
    }
}

/// Read the kind of a member.
pub fn read_member_kind(reader: &mut PickleReader<'_>) -> (r: Result<
    PickledMemberKind,
    ImportError,
>)
    requires
        old(reader)@.wf(),
    ensures
        final(reader)@.wf(),
        final(reader)@.depth == old(reader)@.depth,
        reader::agrees(r, final(reader)@, member_kind_at(old(reader)@)),
{
    match reader.read_byte("u_member_kind tag")? {
        0 => Ok(PickledMemberKind::Member),
        1 => Ok(PickledMemberKind::PropertyGet),
        2 => Ok(PickledMemberKind::PropertySet),
        3 => Ok(PickledMemberKind::Constructor),
        4 => Ok(PickledMemberKind::ClassConstructor),
        other => Err(
            ImportError::UnsupportedPickleTag { context: "u_member_kind", tag: other as u32 },
        ),
    }
}

/// Read the flags of a member. The second boolean is unused.
pub fn read_member_flags(reader: &mut PickleReader<'_>) -> (r: Result<
    PickledMemberFlags,
    ImportError,
>)
    requires
        old(reader)@.wf(),
    ensures
        final(reader)@.wf(),
        final(reader)@.depth == old(reader)@.depth,
        reader::agrees(r, final(reader)@, member_flags_at(old(reader)@)),
{
    let is_instance: bool = reader.read_bool("u_MemberFlags IsInstance")?;
    let _x3_unused: bool = reader.read_bool("u_MemberFlags _x3UnusedBoolInFormat")?;
    let is_dispatch_slot: bool = reader.read_bool("u_MemberFlags IsDispatchSlot")?;
    let is_override_or_explicit_impl: bool = reader.read_bool(
        "u_MemberFlags IsOverrideOrExplicitImpl",
    )?;
    let is_final: bool = reader.read_bool("u_MemberFlags IsFinal")?;
    let kind = read_member_kind(reader)?;
    Ok(
        PickledMemberFlags {
            is_instance,
            is_dispatch_slot,
            is_override_or_explicit_impl,
            is_final,
            kind,
        },
    )
}

/// Read how a type parameter of a value is represented.
pub fn read_typar_repr_info(reader: &mut PickleReader<'_>) -> (r: Result<
    PickledTyparReprInfo,
    ImportError,
>)
    requires
        old(reader)@.wf(),
    ensures
        final(reader)@.wf(),
        final(reader)@.depth == old(reader)@.depth,
        reader::agrees(r, final(reader)@, typar_repr_info_at(old(reader)@)),
{
    let ident = read_ident(reader)?;
    let kind = read_kind(reader)?;
    Ok(PickledTyparReprInfo { ident, kind })
}

/// Read an optional identifier.
pub fn read_option_ident<'a>(reader: &mut PickleReader<'a>, context: &'static str) -> (r: Result<
    Option<PickledIdent>,
    ImportError,
>)
    requires
        old(reader)@.wf(),
    ensures
        final(reader)@.wf(),
        final(reader)@.depth == old(reader)@.depth,
        reader::agrees(r, final(reader)@, option_ident_at(old(reader)@, context)),
{
    let ident = |x: &mut PickleReader<'a>| -> (o: Result<PickledIdent, ImportError>)
        requires
            x@.wf(),
        ensures
            final(x)@.wf(),
            final(x)@.depth == old(x)@.depth,
            reader::agrees(o, final(x)@, leaves::ident_at(old(x)@)),
        { read_ident(x) };
    let ghost step = |s: Tape| leaves::ident_at(s);
    let ghost want = reader::option_at(reader@, context, step);
    reader.read_option(context, ident)
}

/// Read an optional constant.
pub fn read_option_const<'a>(reader: &mut PickleReader<'a>, context: &'static str) -> (r: Result<
    Option<PickledConst>,
    ImportError,
>)
    requires
        old(reader)@.wf(),
    ensures
        final(reader)@.wf(),
        final(reader)@.depth == old(reader)@.depth,
        reader::agrees(r, final(reader)@, option_const_at(old(reader)@, context)),
{
    let value = |x: &mut PickleReader<'a>| -> (o: Result<PickledConst, ImportError>)
        requires
            x@.wf(),
        ensures
            final(x)@.wf(),
            final(x)@.depth == old(x)@.depth,
            reader::agrees(o, final(x)@, leaves::const_at(old(x)@)),
        { read_const(x) };
    let ghost step = |s: Tape| leaves::const_at(s);
    let ghost want = reader::option_at(reader@, context, step);
    reader.read_option(context, value)
}

/// Read documentation in the frame of a later extension.
fn read_framed_xmldoc<'a>(reader: &mut PickleReader<'a>, context: &'static str) -> (r: Result<
    Option<PickledXmlDoc>,
    ImportError,
>)
    requires
        old(reader)@.wf(),
    ensures
        final(reader)@.wf(),
        final(reader)@.depth == old(reader)@.depth,
        reader::agrees(r, final(reader)@, framed_xmldoc_at(old(reader)@, context)),
{
    let doc = |x: &mut PickleReader<'a>| -> (o: Result<PickledXmlDoc, ImportError>)
        requires
            x@.wf(),
        ensures
            final(x)@.wf(),
            final(x)@.depth == old(x)@.depth,
            reader::agrees(o, final(x)@, leaves::xmldoc_at(old(x)@)),
        { read_xmldoc(x) };
    let ghost step = |s: Tape| leaves::xmldoc_at(s);
    let ghost want = reader::used_space1_at(reader@, context, step);
    reader.read_used_space1(context, doc)
}

/// Read how an argument is represented.
pub fn read_arg_repr_info(state: &mut PhaseOneState<'_>) -> (r: Result<
    PickledArgReprInfo,
    ImportError,
>)
    requires
        old(state).wf(),
    ensures
        final(state).wf(),
        final(state)@.tape.depth == old(state)@.tape.depth,
        osgn::agrees(r, final(state)@, arg_repr_info_at(old(state)@, old(state)@.tape.depth)),
{
    proof {
        reveal(arg_repr_info_at);
    }
    let attribs = read_attribs(state)?;
    let name = read_option_ident(&mut state.reader, "u_ArgReprInfo Name")?;
    Ok(PickledArgReprInfo { attribs, name })
}

/// Read one curried argument group.
pub fn read_arg_group(state: &mut PhaseOneState<'_>) -> (r: Result<
    Vec<PickledArgReprInfo>,
    ImportError,
>)
    requires
        old(state).wf(),
    ensures
        final(state).wf(),
        final(state)@.tape.depth == old(state)@.tape.depth,
        osgn::agrees(r, final(state)@, arg_group_at(old(state)@, old(state)@.tape.depth)),
{
    proof {
        reveal(arg_group_at);
    }
    let ghost d = state@.tape.depth;
    let n: usize = state.reader.read_array_len("u_ValReprInfo arg_repr inner")?;
    let mut out: Vec<PickledArgReprInfo> = Vec::new();
    assert(out.deep_view() =~= Seq::empty());
    let mut i: usize = 0;
    while i < n
        invariant
            i <= n,
            state.wf(),
            d == old(state)@.tape.depth,
            state@.tape.depth == d,
            arg_group_at(old(state)@, d) == more_arg_group_at(
                state@,
                (n - i) as nat,
                d,
                out.deep_view(),
            ),
        decreases n - i,
    {
        let ghost before = out.deep_view();
        let v = read_arg_repr_info(state)?;
        out.push(v);
        assert(out.deep_view() =~= before.push(v.deep_view()));
        i = i + 1;
    }
    Ok(out)
}

/// Read the curried argument groups.
pub fn read_arg_groups(state: &mut PhaseOneState<'_>) -> (r: Result<
    Vec<Vec<PickledArgReprInfo>>,
    ImportError,
>)
    requires
        old(state).wf(),
    ensures
        final(state).wf(),
        final(state)@.tape.depth == old(state)@.tape.depth,
        osgn::agrees(r, final(state)@, arg_groups_at(old(state)@, old(state)@.tape.depth)),
{
    proof {
        reveal(arg_groups_at);
    }
    let ghost d = state@.tape.depth;
    let n: usize = state.reader.read_array_len("u_ValReprInfo arg_repr outer")?;
    let mut out: Vec<Vec<PickledArgReprInfo>> = Vec::new();
    assert(out.deep_view() =~= Seq::empty());
    let mut i: usize = 0;
    while i < n
        invariant
            i <= n,
            state.wf(),
            d == old(state)@.tape.depth,
            state@.tape.depth == d,
            arg_groups_at(old(state)@, d) == more_arg_groups_at(
                state@,
                (n - i) as nat,
                d,
                out.deep_view(),
            ),
        decreases n - i,
    {
        let ghost before = out.deep_view();
        let v = read_arg_group(state)?;
        out.push(v);
        assert(out.deep_view() =~= before.push(v.deep_view()));
        i = i + 1;
    }
    Ok(out)
}

/// Read the representation of the type parameters of a value.
fn read_typar_reprs<'a>(reader: &mut PickleReader<'a>) -> (r: Result<
    Vec<PickledTyparReprInfo>,
    ImportError,
>)
    requires
        old(reader)@.wf(),
    ensures
        final(reader)@.wf(),
        final(reader)@.depth == old(reader)@.depth,
        reader::agrees(r, final(reader)@, typar_reprs_at(old(reader)@)),
{
    let info = |x: &mut PickleReader<'a>| -> (o: Result<PickledTyparReprInfo, ImportError>)
        requires
            x@.wf(),
        ensures
            final(x)@.wf(),
            final(x)@.depth == old(x)@.depth,
            reader::agrees(o, final(x)@, typar_repr_info_at(old(x)@)),
        { read_typar_repr_info(x) };
    let ghost step = |s: Tape| typar_repr_info_at(s);
    let ghost want = reader::array_at(reader@, "u_ValReprInfo typar_repr", step);
    reader.read_array("u_ValReprInfo typar_repr", info)
}

/// Read how a value is compiled.
pub fn read_val_repr_info(state: &mut PhaseOneState<'_>) -> (r: Result<
    PickledValReprInfo,
    ImportError,
>)
    requires
        old(state).wf(),
    ensures
        final(state).wf(),
        final(state)@.tape.depth == old(state)@.tape.depth,
        osgn::agrees(r, final(state)@, val_repr_info_at(old(state)@, old(state)@.tape.depth)),
{
    proof {
        reveal(val_repr_info_at);
    }
    let typar_repr = read_typar_reprs(&mut state.reader)?;
    let arg_repr = read_arg_groups(state)?;
    let return_repr = read_arg_repr_info(state)?;
    Ok(PickledValReprInfo { typar_repr, arg_repr, return_repr })
}

/// Read two ranges, or neither.
pub fn read_ranges(reader: &mut PickleReader<'_>) -> (r: Result<
    (Option<PickledRange>, Option<PickledRange>),
    ImportError,
>)
    requires
        old(reader)@.wf(),
    ensures
        final(reader)@.wf(),
        final(reader)@.depth == old(reader)@.depth,
        reader::agrees(r, final(reader)@, ranges_at(old(reader)@)),
{
    match reader.read_byte("u_ranges")? {
        0 => Ok((None, None)),
        1 => {
            let a = read_range(reader)?;
            let b = read_range(reader)?;
            Ok((Some(a), Some(b)))
        },
        other => Err(ImportError::UnsupportedPickleTag { context: "u_ranges", tag: other as u32 }),
    }
}

/// Read a parameter of an abstract slot.
pub fn read_slotparam(state: &mut PhaseOneState<'_>) -> (r: Result<PickledSlotParam, ImportError>)
    requires
        old(state).wf(),
    ensures
        final(state).wf(),
        final(state)@.tape.depth == old(state)@.tape.depth,
        osgn::agrees(r, final(state)@, slotparam_at(old(state)@, old(state)@.tape.depth)),
{
    proof {
        reveal(slotparam_at);
    }
    let name = read_option_string(
        &mut state.reader,
        "u_slotparam Name",
        "u_slotparam Name body",
    )?;
    let ty = read_ty(state)?;
    let is_in_arg: bool = state.reader.read_bool("u_slotparam IsInArg")?;
    let is_out_arg: bool = state.reader.read_bool("u_slotparam IsOutArg")?;
    let is_optional: bool = state.reader.read_bool("u_slotparam IsOptional")?;
    let attribs = read_attribs(state)?;
    Ok(PickledSlotParam { name, ty, is_in_arg, is_out_arg, is_optional, attribs })
}

/// Read one curried parameter group of a slot.
pub fn read_slot_group(state: &mut PhaseOneState<'_>) -> (r: Result<
    Vec<PickledSlotParam>,
    ImportError,
>)
    requires
        old(state).wf(),
    ensures
        final(state).wf(),
        final(state)@.tape.depth == old(state)@.tape.depth,
        osgn::agrees(r, final(state)@, slot_group_at(old(state)@, old(state)@.tape.depth)),
{
    proof {
        reveal(slot_group_at);
    }
    let ghost d = state@.tape.depth;
    let n: usize = state.reader.read_array_len("u_slotsig params inner")?;
    let mut out: Vec<PickledSlotParam> = Vec::new();
    assert(out.deep_view() =~= Seq::empty());
    let mut i: usize = 0;
    while i < n
        invariant
            i <= n,
            state.wf(),
            d == old(state)@.tape.depth,
            state@.tape.depth == d,
            slot_group_at(old(state)@, d) == more_slot_group_at(
                state@,
                (n - i) as nat,
                d,
                out.deep_view(),
            ),
        decreases n - i,
    {
        let ghost before = out.deep_view();
        let v = read_slotparam(state)?;
        out.push(v);
        assert(out.deep_view() =~= before.push(v.deep_view()));
        i = i + 1;
    }
    Ok(out)
}

/// Read the curried parameter groups of a slot.
pub fn read_slot_groups(state: &mut PhaseOneState<'_>) -> (r: Result<
    Vec<Vec<PickledSlotParam>>,
    ImportError,
>)
    requires
        old(state).wf(),
    ensures
        final(state).wf(),
        final(state)@.tape.depth == old(state)@.tape.depth,
        osgn::agrees(r, final(state)@, slot_groups_at(old(state)@, old(state)@.tape.depth)),
{
    proof {
        reveal(slot_groups_at);
    }
    let ghost d = state@.tape.depth;
    let n: usize = state.reader.read_array_len("u_slotsig params outer")?;
    let mut out: Vec<Vec<PickledSlotParam>> = Vec::new();
    assert(out.deep_view() =~= Seq::empty());
    let mut i: usize = 0;
    while i < n
        invariant
            i <= n,
            state.wf(),
            d == old(state)@.tape.depth,
            state@.tape.depth == d,
            slot_groups_at(old(state)@, d) == more_slot_groups_at(
                state@,
                (n - i) as nat,
                d,
                out.deep_view(),
            ),
        decreases n - i,
    {
        let ghost before = out.deep_view();
        let v = read_slot_group(state)?;
        out.push(v);
        assert(out.deep_view() =~= before.push(v.deep_view()));
        i = i + 1;
    }
    Ok(out)
}

/// Read the signature of an abstract slot.
pub fn read_slotsig(state: &mut PhaseOneState<'_>) -> (r: Result<PickledSlotSig, ImportError>)
    requires
        old(state).wf(),
    ensures
        final(state).wf(),
        final(state)@.tape.depth == old(state)@.tape.depth,
        osgn::agrees(r, final(state)@, slotsig_at(old(state)@, old(state)@.tape.depth)),
{
    proof {
        reveal(slotsig_at);
    }
    let name = state.reader.read_string("u_slotsig Name")?;
    let implemented_ty = read_ty(state)?;
    let class_typars = read_tyar_specs(state)?;
    let method_typars = read_tyar_specs(state)?;
    let params = read_slot_groups(state)?;
    let return_ty = read_option_ty(state, "u_slotsig ReturnTy")?;
    Ok(PickledSlotSig { name, implemented_ty, class_typars, method_typars, params, return_ty })
}

/// Read the slots that a member implements.
pub fn read_slotsigs(state: &mut PhaseOneState<'_>) -> (r: Result<Vec<PickledSlotSig>, ImportError>)
    requires
        old(state).wf(),
    ensures
        final(state).wf(),
        final(state)@.tape.depth == old(state)@.tape.depth,
        osgn::agrees(r, final(state)@, slotsigs_at(old(state)@, old(state)@.tape.depth)),
{
    proof {
        reveal(slotsigs_at);
    }
    let ghost d = state@.tape.depth;
    let n: usize = state.reader.read_array_len("u_member_info ImplementedSlotSigs")?;
    let mut out: Vec<PickledSlotSig> = Vec::new();
    assert(out.deep_view() =~= Seq::empty());
    let mut i: usize = 0;
    while i < n
        invariant
            i <= n,
            state.wf(),
            d == old(state)@.tape.depth,
            state@.tape.depth == d,
            slotsigs_at(old(state)@, d) == more_slotsigs_at(
                state@,
                (n - i) as nat,
                d,
                out.deep_view(),
            ),
        decreases n - i,
    {
        let ghost before = out.deep_view();
        let v = read_slotsig(state)?;
        out.push(v);
        assert(out.deep_view() =~= before.push(v.deep_view()));
        i = i + 1;
    }
    Ok(out)
}

/// Read what makes a value a member.
pub fn read_member_info(state: &mut PhaseOneState<'_>) -> (r: Result<
    PickledMemberInfo,
    ImportError,
>)
    requires
        old(state).wf(),
    ensures
        final(state).wf(),
        final(state)@.tape.depth == old(state)@.tape.depth,
        osgn::agrees(r, final(state)@, member_info_at(old(state)@, old(state)@.tape.depth)),
{
    proof {
        reveal(member_info_at);
    }
    let apparent_parent = read_tcref(state)?;
    let flags = read_member_flags(&mut state.reader)?;
    let implemented_slots = read_slotsigs(state)?;
    let is_implemented: bool = state.reader.read_bool("u_member_info IsImplemented")?;
    Ok(PickledMemberInfo { apparent_parent, flags, implemented_slots, is_implemented })
}

/// Read the declaring entity of a value, if any.
pub fn read_parentref(state: &mut PhaseOneState<'_>) -> (r: Result<PickledParentRef, ImportError>)
    requires
        old(state).wf(),
    ensures
        final(state).wf(),
        final(state)@.tape.depth == old(state)@.tape.depth,
        osgn::agrees(r, final(state)@, parentref_at(old(state)@)),
{
    proof {
        reveal(parentref_at);
    }
    match state.reader.read_byte("u_parentref tag")? {
        0 => Ok(PickledParentRef::NoParent),
        1 => {
            let t = read_tcref(state)?;
            Ok(PickledParentRef::Parent(t))
        },
        other => Err(
            ImportError::UnsupportedPickleTag { context: "u_parentref", tag: other as u32 },
        ),
    }
}

/// Read what makes a value a member, where it is one.
fn read_option_member_info(state: &mut PhaseOneState<'_>, context: &'static str) -> (r: Result<
    Option<PickledMemberInfo>,
    ImportError,
>)
    requires
        old(state).wf(),
    ensures
        final(state).wf(),
        final(state)@.tape.depth == old(state)@.tape.depth,
        osgn::agrees(
            r,
            final(state)@,
            option_member_info_at(old(state)@, context, old(state)@.tape.depth),
        ),
{
    proof {
        reveal(option_member_info_at);
    }
    match state.reader.read_byte(context)? {
        0 => Ok(None),
        1 => {
            let v = read_member_info(state)?;
            Ok(Some(v))
        },
        other => Err(ImportError::UnsupportedPickleTag { context, tag: other as u32 }),
    }
}

/// Read how a value is compiled, where that is recorded.
fn read_option_val_repr_info(state: &mut PhaseOneState<'_>, context: &'static str) -> (r: Result<
    Option<PickledValReprInfo>,
    ImportError,
>)
    requires
        old(state).wf(),
    ensures
        final(state).wf(),
        final(state)@.tape.depth == old(state)@.tape.depth,
        osgn::agrees(
            r,
            final(state)@,
            option_val_repr_info_at(old(state)@, context, old(state)@.tape.depth),
        ),
{
    proof {
        reveal(option_val_repr_info_at);
    }
    match state.reader.read_byte(context)? {
        0 => Ok(None),
        1 => {
            let v = read_val_repr_info(state)?;
            Ok(Some(v))
        },
        other => Err(ImportError::UnsupportedPickleTag { context, tag: other as u32 }),
    }
}

/// Read the body of a value.
pub fn read_val_data(state: &mut PhaseOneState<'_>) -> (r: Result<PickledVal, ImportError>)
    requires
        old(state).wf(),
    ensures
        final(state).wf(),
        final(state)@.tape.depth == old(state)@.tape.depth,
        osgn::agrees(r, final(state)@, val_data_at(old(state)@, old(state)@.tape.depth)),
{
    proof {
        reveal(val_data_at);
    }
    let logical_name = state.reader.read_string("u_ValData LogicalName")?;
    let compiled_name = read_option_string(
        &mut state.reader,
        "u_ValData CompiledName",
        "u_ValData CompiledName body",
    )?;
    let (range, other_range) = read_ranges(&mut state.reader)?;
    let ty = read_ty(state)?;
    let flags: i64 = state.reader.read_int64("u_ValData flags")?;
    let member_info = read_option_member_info(state, "u_ValData MemberInfo")?;
    let attribs = read_attribs(state)?;
    let repr_info = read_option_val_repr_info(state, "u_ValData ValReprInfo")?;
    let xmldoc_sig = state.reader.read_string("u_ValData XmlDocSig")?;
    let access = read_access(&mut state.reader)?;
    let parent = read_parentref(state)?;
    let literal_value = read_option_const(&mut state.reader, "u_ValData LiteralValue")?;
    let xmldoc = read_framed_xmldoc(&mut state.reader, "u_ValData xmldoc")?;
    Ok(
        PickledVal {
            logical_name,
            compiled_name,
            range,
            other_range,
            ty,
            flags,
            member_info,
            attribs,
            repr_info,
            xmldoc_sig,
            access,
            parent,
            literal_value,
            xmldoc,
        },
    )
}

/// Read a value and link it. Returns the stamp.
pub fn read_val(state: &mut PhaseOneState<'_>) -> (r: Result<u32, ImportError>)
    requires
        old(state).wf(),
    ensures
        final(state).wf(),
        final(state)@.tape.depth == old(state)@.tape.depth,
        osgn::agrees(r, final(state)@, val_at(old(state)@, old(state)@.tape.depth)),
{
    proof {
        reveal(val_at);
    }
    let idx: u32 = state.reader.read_uint32("u_Val osgn index")?;
    state.ivals.check_index_in_range(idx)?;
    let body = read_val_data(state)?;
    state.ivals.link(idx, body)
}

} // verus!
