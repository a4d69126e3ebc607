//! The pickle format from the side of its writer: values and members.
use crate::fsharp_pickle::attribute_writing::{
    attribs, law_attribs, law_option_string, option_string,
};
use crate::fsharp_pickle::leaves;
use crate::fsharp_pickle::model::{
    PickledArgReprInfoModel, PickledConstModel, PickledIdentModel, PickledMemberFlags,
    PickledMemberInfoModel, PickledMemberKind, PickledParentRef, PickledRange,
    PickledSlotParamModel, PickledSlotSigModel, PickledTyparReprInfoModel, PickledValModel,
    PickledValReprInfoModel, PickledXmlDocModel,
};
use crate::fsharp_pickle::osgn::Walk;
use crate::fsharp_pickle::reader::Tape;
use crate::fsharp_pickle::typar_writing::{law_typars, law_types, typars, types_at};
use crate::fsharp_pickle::type_writing::{
    law_option_ty, law_tcref, leads, lemma_ty, option_ty, reads_types, tcref, Types,
};
use crate::fsharp_pickle::val;
use crate::fsharp_pickle::writing::{
    access, at, at_end, beginning, boolean, byte, count, framed, gives, ident, int64, kind,
    law_access, law_boolean, law_byte, law_count, law_framed, law_ident, law_int64, law_kind,
    law_list, law_literal, law_option, law_range, law_stamp, law_string, law_xmldoc,
    lemma_beginning, lemma_end, lemma_some, linked, list, literal, nothing, option, range, ready,
    stamp, string, xmldoc, Setting, Streams,
};
use vstd::prelude::*;

verus! {

/// The kind of a member: a byte.
pub open spec fn member_kind(v: PickledMemberKind, rest: Option<Streams>) -> Option<Streams> {
    match v {
        PickledMemberKind::Member => byte(0, rest),
        PickledMemberKind::PropertyGet => byte(1, rest),
        PickledMemberKind::PropertySet => byte(2, rest),
        PickledMemberKind::Constructor => byte(3, rest),
        PickledMemberKind::ClassConstructor => byte(4, rest),
    }
}

pub proof fn law_member_kind(
    k: Setting,
    s: Tape,
    v: PickledMemberKind,
    rest: Option<Streams>,
) -> (t: Tape)
    requires
        at(k, s, member_kind(v, rest)),
    ensures
        gives(val::member_kind_at(s), v, t),
        at(k, t, rest),
{
    let c = "u_member_kind tag";
    match v {
        PickledMemberKind::Member => law_byte(k, s, 0, rest, c),
        PickledMemberKind::PropertyGet => law_byte(k, s, 1, rest, c),
        PickledMemberKind::PropertySet => law_byte(k, s, 2, rest, c),
        PickledMemberKind::Constructor => law_byte(k, s, 3, rest, c),
        PickledMemberKind::ClassConstructor => law_byte(k, s, 4, rest, c),
    }
}

/// The flags of a member: whether it is of an instance, a spare boolean, whether it is a
/// slot, an override, final, and its kind.
pub open spec fn member_flags(k: Setting, v: PickledMemberFlags, rest: Option<Streams>) -> Option<
    Streams,
> {
    boolean(
        v.is_instance,
        boolean(
            k.spare,
            boolean(
                v.is_dispatch_slot,
                boolean(
                    v.is_override_or_explicit_impl,
                    boolean(v.is_final, member_kind(v.kind, rest)),
                ),
            ),
        ),
    )
}

pub proof fn law_member_flags(
    k: Setting,
    s: Tape,
    v: PickledMemberFlags,
    rest: Option<Streams>,
) -> (t: Tape)
    requires
        at(k, s, member_flags(k, v, rest)),
    ensures
        gives(val::member_flags_at(s), v, t),
        at(k, t, rest),
{
    let r5 = member_kind(v.kind, rest);
    let r4 = boolean(v.is_final, r5);
    let r3 = boolean(v.is_override_or_explicit_impl, r4);
    let r2 = boolean(v.is_dispatch_slot, r3);
    let s = law_boolean(k, s, v.is_instance, boolean(k.spare, r2), "u_MemberFlags IsInstance");
    let s = law_boolean(k, s, k.spare, r2, "u_MemberFlags _x3UnusedBoolInFormat");
    let s = law_boolean(k, s, v.is_dispatch_slot, r3, "u_MemberFlags IsDispatchSlot");
    let s = law_boolean(
        k,
        s,
        v.is_override_or_explicit_impl,
        r4,
        "u_MemberFlags IsOverrideOrExplicitImpl",
    );
    let s = law_boolean(k, s, v.is_final, r5, "u_MemberFlags IsFinal");
    law_member_kind(k, s, v.kind, rest)
}

/// A type parameter of a value: its name, then its kind.
pub open spec fn typar_repr_info(
    k: Setting,
    v: PickledTyparReprInfoModel,
    rest: Option<Streams>,
) -> Option<Streams> {
    ident(k, v.ident, kind(v.kind, rest))
}

pub proof fn law_typar_repr_info(
    k: Setting,
    s: Tape,
    v: PickledTyparReprInfoModel,
    rest: Option<Streams>,
) -> (t: Tape)
    requires
        at(k, s, typar_repr_info(k, v, rest)),
    ensures
        gives(val::typar_repr_info_at(s), v, t),
        at(k, t, rest),
{
    let s = law_ident(k, s, v.ident, kind(v.kind, rest));
    law_kind(k, s, v.kind, rest)
}

/// The type parameters of a value, after their number.
pub open spec fn typar_reprs(
    k: Setting,
    v: Seq<PickledTyparReprInfoModel>,
    rest: Option<Streams>,
) -> Option<Streams> {
    list(
        v,
        |x: PickledTyparReprInfoModel, rest: Option<Streams>| typar_repr_info(k, x, rest),
        rest,
    )
}

pub proof fn law_typar_reprs(
    k: Setting,
    s: Tape,
    v: Seq<PickledTyparReprInfoModel>,
    rest: Option<Streams>,
) -> (t: Tape)
    requires
        at(k, s, typar_reprs(k, v, rest)),
    ensures
        gives(val::typar_reprs_at(s), v, t),
        at(k, t, rest),
{
    let one = |x: PickledTyparReprInfoModel, rest: Option<Streams>| typar_repr_info(k, x, rest);
    let step = |s: Tape| val::typar_repr_info_at(s);
    assert forall|s: Tape, x: PickledTyparReprInfoModel, rest: Option<Streams>| #[trigger]
        at(k, s, one(x, rest)) implies step(s) is Ok && step(s)->Ok_0.0 == x && at(
        k,
        step(s)->Ok_0.1,
        rest,
    ) by {
        law_typar_repr_info(k, s, x, rest);
    }
    law_list(k, s, v, one, rest, "u_ValReprInfo typar_repr", step)
}

/// An identifier that may be absent.
pub open spec fn option_ident(
    k: Setting,
    v: Option<PickledIdentModel>,
    rest: Option<Streams>,
) -> Option<Streams> {
    option(v, |x: PickledIdentModel, rest: Option<Streams>| ident(k, x, rest), rest)
}

pub proof fn law_option_ident(
    k: Setting,
    s: Tape,
    v: Option<PickledIdentModel>,
    rest: Option<Streams>,
    context: &'static str,
) -> (t: Tape)
    requires
        at(k, s, option_ident(k, v, rest)),
    ensures
        gives(val::option_ident_at(s, context), v, t),
        at(k, t, rest),
{
    let one = |x: PickledIdentModel, rest: Option<Streams>| ident(k, x, rest);
    let step = |s: Tape| leaves::ident_at(s);
    assert forall|s: Tape, x: PickledIdentModel, rest: Option<Streams>| #[trigger]
        at(k, s, one(x, rest)) implies step(s) is Ok && step(s)->Ok_0.0 == x && at(
        k,
        step(s)->Ok_0.1,
        rest,
    ) by {
        law_ident(k, s, x, rest);
    }
    law_option(k, s, v, one, rest, context, step)
}

/// A constant that may be absent.
pub open spec fn option_literal(
    k: Setting,
    v: Option<PickledConstModel>,
    rest: Option<Streams>,
) -> Option<Streams> {
    option(v, |x: PickledConstModel, rest: Option<Streams>| literal(k, x, rest), rest)
}

pub proof fn law_option_literal(
    k: Setting,
    s: Tape,
    v: Option<PickledConstModel>,
    rest: Option<Streams>,
    context: &'static str,
) -> (t: Tape)
    requires
        at(k, s, option_literal(k, v, rest)),
    ensures
        gives(val::option_const_at(s, context), v, t),
        at(k, t, rest),
{
    let one = |x: PickledConstModel, rest: Option<Streams>| literal(k, x, rest);
    let step = |s: Tape| leaves::const_at(s);
    assert forall|s: Tape, x: PickledConstModel, rest: Option<Streams>| #[trigger]
        at(k, s, one(x, rest)) implies step(s) is Ok && step(s)->Ok_0.0 == x && at(
        k,
        step(s)->Ok_0.1,
        rest,
    ) by {
        law_literal(k, s, x, rest);
    }
    law_option(k, s, v, one, rest, context, step)
}

/// Documentation in the frame of a later extension.
pub open spec fn framed_xmldoc(
    k: Setting,
    v: Option<PickledXmlDocModel>,
    rest: Option<Streams>,
) -> Option<Streams> {
    framed(v, |x: PickledXmlDocModel, rest: Option<Streams>| xmldoc(k, x, rest), rest)
}

pub proof fn law_framed_xmldoc(
    k: Setting,
    s: Tape,
    v: Option<PickledXmlDocModel>,
    rest: Option<Streams>,
    context: &'static str,
) -> (t: Tape)
    requires
        at(k, s, framed_xmldoc(k, v, rest)),
    ensures
        gives(val::framed_xmldoc_at(s, context), v, t),
        at(k, t, rest),
{
    let one = |x: PickledXmlDocModel, rest: Option<Streams>| xmldoc(k, x, rest);
    let step = |s: Tape| leaves::xmldoc_at(s);
    assert forall|s: Tape, x: PickledXmlDocModel, rest: Option<Streams>| #[trigger]
        at(k, s, one(x, rest)) implies step(s) is Ok && step(s)->Ok_0.0 == x && at(
        k,
        step(s)->Ok_0.1,
        rest,
    ) by {
        law_xmldoc(k, s, x, rest);
    }
    law_framed(k, s, v, one, rest, context, step)
}

/// The two ranges of a value, both or neither.
pub open spec fn ranges(
    k: Setting,
    v: (Option<PickledRange>, Option<PickledRange>),
    rest: Option<Streams>,
) -> Option<Streams> {
    match v {
        (None, None) => byte(0, rest),
        (Some(a), Some(b)) => byte(1, range(k, a, range(k, b, rest))),
        _ => None,
    }
}

pub proof fn law_ranges(
    k: Setting,
    s: Tape,
    v: (Option<PickledRange>, Option<PickledRange>),
    rest: Option<Streams>,
) -> (t: Tape)
    requires
        at(k, s, ranges(k, v, rest)),
    ensures
        gives(val::ranges_at(s), v, t),
        at(k, t, rest),
{
    lemma_some(k, s, ranges(k, v, rest));
    match v {
        (Some(a), Some(b)) => {
            let s = law_byte(k, s, 1, range(k, a, range(k, b, rest)), "u_ranges");
            let s = law_range(k, s, a, range(k, b, rest));
            law_range(k, s, b, rest)
        },
        _ => law_byte(k, s, 0, rest, "u_ranges"),
    }
}

/// What the compiler keeps of an argument: its attributes and its name.
#[verifier::opaque]
pub open spec fn arg_repr_info(
    k: Setting,
    t: Types,
    v: PickledArgReprInfoModel,
    rest: Option<Streams>,
) -> Option<Streams>
{
    attribs(k, t, v.attribs, option_ident(k, v.name, rest))
}

pub proof fn law_arg_repr_info(
    k: Setting,
    t: Types,
    w: Walk,
    v: PickledArgReprInfoModel,
    d: nat,
    rest: Option<Streams>,
) -> (x: Walk)
    requires
        ready(k, w, arg_repr_info(k, t, v, rest)),
        reads_types(k, t, d),
    ensures
        leads(val::arg_repr_info_at(w, d), v, x),
        ready(k, x, rest),
{
    reveal(arg_repr_info);
    reveal(val::arg_repr_info_at);
    let r1 = option_ident(k, v.name, rest);
    let w = law_attribs(k, t, w, v.attribs, d, r1);
    let s = law_option_ident(k, w.tape, v.name, rest, "u_ArgReprInfo Name");
    Walk { tape: s, ..w }
}

/// The arguments of a group, after their number.
#[verifier::opaque]
pub open spec fn arg_group(
    k: Setting,
    t: Types,
    v: Seq<PickledArgReprInfoModel>,
    rest: Option<Streams>,
) -> Option<Streams>
{
    count(v.len(), more_arg_group(k, t, v, rest))
}

/// The arguments of a group, without their number.
#[verifier::opaque]
pub open spec fn more_arg_group(
    k: Setting,
    t: Types,
    v: Seq<PickledArgReprInfoModel>,
    rest: Option<Streams>,
) -> Option<Streams>
    decreases v.len(),
{
    if v.len() == 0 {
        rest
    } else {
        arg_repr_info(k, t, v[0], more_arg_group(k, t, v.drop_first(), rest))
    }
}

pub proof fn law_arg_group(
    k: Setting,
    t: Types,
    w: Walk,
    v: Seq<PickledArgReprInfoModel>,
    d: nat,
    rest: Option<Streams>,
) -> (x: Walk)
    requires
        ready(k, w, arg_group(k, t, v, rest)),
        reads_types(k, t, d),
    ensures
        leads(val::arg_group_at(w, d), v, x),
        ready(k, x, rest),
{
    reveal(arg_group);
    reveal(val::arg_group_at);
    let more = more_arg_group(k, t, v, rest);
    let s = law_count(k, w.tape, v.len(), more, "u_ValReprInfo arg_repr inner");
    let x = law_more_arg_group(k, t, Walk { tape: s, ..w }, v, d, Seq::empty(), rest);
    assert(Seq::empty() + v =~= v);
    x
}

pub proof fn law_more_arg_group(
    k: Setting,
    t: Types,
    w: Walk,
    v: Seq<PickledArgReprInfoModel>,
    d: nat,
    acc: Seq<PickledArgReprInfoModel>,
    rest: Option<Streams>,
) -> (x: Walk)
    requires
        ready(k, w, more_arg_group(k, t, v, rest)),
        reads_types(k, t, d),
    ensures
        leads(val::more_arg_group_at(w, v.len(), d, acc), acc + v, x),
        ready(k, x, rest),
    decreases v.len(),
{
    reveal(more_arg_group);
    if v.len() == 0 {
        assert(acc + v =~= acc);
        w
    } else {
        let tail = v.drop_first();
        let w = law_arg_repr_info(k, t, w, v[0], d, more_arg_group(k, t, tail, rest));
        assert(acc.push(v[0]) + tail =~= acc + v);
        law_more_arg_group(k, t, w, tail, d, acc.push(v[0]), rest)
    }
}

/// The groups of arguments, after their number.
#[verifier::opaque]
pub open spec fn arg_groups(
    k: Setting,
    t: Types,
    v: Seq<Seq<PickledArgReprInfoModel>>,
    rest: Option<Streams>,
) -> Option<Streams>
{
    count(v.len(), more_arg_groups(k, t, v, rest))
}

/// The groups of arguments, without their number.
#[verifier::opaque]
pub open spec fn more_arg_groups(
    k: Setting,
    t: Types,
    v: Seq<Seq<PickledArgReprInfoModel>>,
    rest: Option<Streams>,
) -> Option<Streams>
    decreases v.len(),
{
    if v.len() == 0 {
        rest
    } else {
        arg_group(k, t, v[0], more_arg_groups(k, t, v.drop_first(), rest))
    }
}

pub proof fn law_arg_groups(
    k: Setting,
    t: Types,
    w: Walk,
    v: Seq<Seq<PickledArgReprInfoModel>>,
    d: nat,
    rest: Option<Streams>,
) -> (x: Walk)
    requires
        ready(k, w, arg_groups(k, t, v, rest)),
        reads_types(k, t, d),
    ensures
        leads(val::arg_groups_at(w, d), v, x),
        ready(k, x, rest),
{
    reveal(arg_groups);
    reveal(val::arg_groups_at);
    let more = more_arg_groups(k, t, v, rest);
    let s = law_count(k, w.tape, v.len(), more, "u_ValReprInfo arg_repr outer");
    let x = law_more_arg_groups(k, t, Walk { tape: s, ..w }, v, d, Seq::empty(), rest);
    assert(Seq::empty() + v =~= v);
    x
}

pub proof fn law_more_arg_groups(
    k: Setting,
    t: Types,
    w: Walk,
    v: Seq<Seq<PickledArgReprInfoModel>>,
    d: nat,
    acc: Seq<Seq<PickledArgReprInfoModel>>,
    rest: Option<Streams>,
) -> (x: Walk)
    requires
        ready(k, w, more_arg_groups(k, t, v, rest)),
        reads_types(k, t, d),
    ensures
        leads(val::more_arg_groups_at(w, v.len(), d, acc), acc + v, x),
        ready(k, x, rest),
    decreases v.len(),
{
    reveal(more_arg_groups);
    if v.len() == 0 {
        assert(acc + v =~= acc);
        w
    } else {
        let tail = v.drop_first();
        let w = law_arg_group(k, t, w, v[0], d, more_arg_groups(k, t, tail, rest));
        assert(acc.push(v[0]) + tail =~= acc + v);
        law_more_arg_groups(k, t, w, tail, d, acc.push(v[0]), rest)
    }
}

/// What the compiler keeps of a value: its type parameters, its arguments and its result.
#[verifier::opaque]
pub open spec fn val_repr_info(
    k: Setting,
    t: Types,
    v: PickledValReprInfoModel,
    rest: Option<Streams>,
) -> Option<Streams>
{
    typar_reprs(
        k,
        v.typar_repr,
        arg_groups(k, t, v.arg_repr, arg_repr_info(k, t, v.return_repr, rest)),
    )
}

pub proof fn law_val_repr_info(
    k: Setting,
    t: Types,
    w: Walk,
    v: PickledValReprInfoModel,
    d: nat,
    rest: Option<Streams>,
) -> (x: Walk)
    requires
        ready(k, w, val_repr_info(k, t, v, rest)),
        reads_types(k, t, d),
    ensures
        leads(val::val_repr_info_at(w, d), v, x),
        ready(k, x, rest),
{
    reveal(val_repr_info);
    reveal(val::val_repr_info_at);
    let r2 = arg_repr_info(k, t, v.return_repr, rest);
    let r1 = arg_groups(k, t, v.arg_repr, r2);
    let s = law_typar_reprs(k, w.tape, v.typar_repr, r1);
    let w = Walk { tape: s, ..w };
    let w = law_arg_groups(k, t, w, v.arg_repr, d, r2);
    law_arg_repr_info(k, t, w, v.return_repr, d, rest)
}

/// A parameter of a slot.
#[verifier::opaque]
pub open spec fn slotparam(
    k: Setting,
    t: Types,
    v: PickledSlotParamModel,
    rest: Option<Streams>,
) -> Option<Streams>
{
    option_string(
        k,
        v.name,
        t(
            v.ty,
            boolean(
                v.is_in_arg,
                boolean(v.is_out_arg, boolean(v.is_optional, attribs(k, t, v.attribs, rest))),
            ),
        ),
    )
}

pub proof fn law_slotparam(
    k: Setting,
    t: Types,
    w: Walk,
    v: PickledSlotParamModel,
    d: nat,
    rest: Option<Streams>,
) -> (x: Walk)
    requires
        ready(k, w, slotparam(k, t, v, rest)),
        reads_types(k, t, d),
    ensures
        leads(val::slotparam_at(w, d), v, x),
        ready(k, x, rest),
{
    reveal(slotparam);
    reveal(val::slotparam_at);
    let r5 = attribs(k, t, v.attribs, rest);
    let r4 = boolean(v.is_optional, r5);
    let r3 = boolean(v.is_out_arg, r4);
    let r2 = boolean(v.is_in_arg, r3);
    let r1 = t(v.ty, r2);
    let s = law_option_string(
        k,
        w.tape,
        v.name,
        r1,
        "u_slotparam Name",
        "u_slotparam Name body",
    );
    let w = Walk { tape: s, ..w };
    let w = lemma_ty(k, t, w, v.ty, d, r2);
    let s = law_boolean(k, w.tape, v.is_in_arg, r3, "u_slotparam IsInArg");
    let w = Walk { tape: s, ..w };
    let s = law_boolean(k, w.tape, v.is_out_arg, r4, "u_slotparam IsOutArg");
    let w = Walk { tape: s, ..w };
    let s = law_boolean(k, w.tape, v.is_optional, r5, "u_slotparam IsOptional");
    let w = Walk { tape: s, ..w };
    law_attribs(k, t, w, v.attribs, d, rest)
}

/// The parameters of a group, after their number.
#[verifier::opaque]
pub open spec fn slot_group(
    k: Setting,
    t: Types,
    v: Seq<PickledSlotParamModel>,
    rest: Option<Streams>,
) -> Option<Streams>
{
    count(v.len(), more_slot_group(k, t, v, rest))
}

/// The parameters of a group, without their number.
#[verifier::opaque]
pub open spec fn more_slot_group(
    k: Setting,
    t: Types,
    v: Seq<PickledSlotParamModel>,
    rest: Option<Streams>,
) -> Option<Streams>
    decreases v.len(),
{
    if v.len() == 0 {
        rest
    } else {
        slotparam(k, t, v[0], more_slot_group(k, t, v.drop_first(), rest))
    }
}

pub proof fn law_slot_group(
    k: Setting,
    t: Types,
    w: Walk,
    v: Seq<PickledSlotParamModel>,
    d: nat,
    rest: Option<Streams>,
) -> (x: Walk)
    requires
        ready(k, w, slot_group(k, t, v, rest)),
        reads_types(k, t, d),
    ensures
        leads(val::slot_group_at(w, d), v, x),
        ready(k, x, rest),
{
    reveal(slot_group);
    reveal(val::slot_group_at);
    let more = more_slot_group(k, t, v, rest);
    let s = law_count(k, w.tape, v.len(), more, "u_slotsig params inner");
    let x = law_more_slot_group(k, t, Walk { tape: s, ..w }, v, d, Seq::empty(), rest);
    assert(Seq::empty() + v =~= v);
    x
}

pub proof fn law_more_slot_group(
    k: Setting,
    t: Types,
    w: Walk,
    v: Seq<PickledSlotParamModel>,
    d: nat,
    acc: Seq<PickledSlotParamModel>,
    rest: Option<Streams>,
) -> (x: Walk)
    requires
        ready(k, w, more_slot_group(k, t, v, rest)),
        reads_types(k, t, d),
    ensures
        leads(val::more_slot_group_at(w, v.len(), d, acc), acc + v, x),
        ready(k, x, rest),
    decreases v.len(),
{
    reveal(more_slot_group);
    if v.len() == 0 {
        assert(acc + v =~= acc);
        w
    } else {
        let tail = v.drop_first();
        let w = law_slotparam(k, t, w, v[0], d, more_slot_group(k, t, tail, rest));
        assert(acc.push(v[0]) + tail =~= acc + v);
        law_more_slot_group(k, t, w, tail, d, acc.push(v[0]), rest)
    }
}

/// The groups of parameters, after their number.
#[verifier::opaque]
pub open spec fn slot_groups(
    k: Setting,
    t: Types,
    v: Seq<Seq<PickledSlotParamModel>>,
    rest: Option<Streams>,
) -> Option<Streams>
{
    count(v.len(), more_slot_groups(k, t, v, rest))
}

/// The groups of parameters, without their number.
#[verifier::opaque]
pub open spec fn more_slot_groups(
    k: Setting,
    t: Types,
    v: Seq<Seq<PickledSlotParamModel>>,
    rest: Option<Streams>,
) -> Option<Streams>
    decreases v.len(),
{
    if v.len() == 0 {
        rest
    } else {
        slot_group(k, t, v[0], more_slot_groups(k, t, v.drop_first(), rest))
    }
}

pub proof fn law_slot_groups(
    k: Setting,
    t: Types,
    w: Walk,
    v: Seq<Seq<PickledSlotParamModel>>,
    d: nat,
    rest: Option<Streams>,
) -> (x: Walk)
    requires
        ready(k, w, slot_groups(k, t, v, rest)),
        reads_types(k, t, d),
    ensures
        leads(val::slot_groups_at(w, d), v, x),
        ready(k, x, rest),
{
    reveal(slot_groups);
    reveal(val::slot_groups_at);
    let more = more_slot_groups(k, t, v, rest);
    let s = law_count(k, w.tape, v.len(), more, "u_slotsig params outer");
    let x = law_more_slot_groups(k, t, Walk { tape: s, ..w }, v, d, Seq::empty(), rest);
    assert(Seq::empty() + v =~= v);
    x
}

pub proof fn law_more_slot_groups(
    k: Setting,
    t: Types,
    w: Walk,
    v: Seq<Seq<PickledSlotParamModel>>,
    d: nat,
    acc: Seq<Seq<PickledSlotParamModel>>,
    rest: Option<Streams>,
) -> (x: Walk)
    requires
        ready(k, w, more_slot_groups(k, t, v, rest)),
        reads_types(k, t, d),
    ensures
        leads(val::more_slot_groups_at(w, v.len(), d, acc), acc + v, x),
        ready(k, x, rest),
    decreases v.len(),
{
    reveal(more_slot_groups);
    if v.len() == 0 {
        assert(acc + v =~= acc);
        w
    } else {
        let tail = v.drop_first();
        let w = law_slot_group(k, t, w, v[0], d, more_slot_groups(k, t, tail, rest));
        assert(acc.push(v[0]) + tail =~= acc + v);
        law_more_slot_groups(k, t, w, tail, d, acc.push(v[0]), rest)
    }
}

/// The signature of a slot.
#[verifier::opaque]
pub open spec fn slotsig(
    k: Setting,
    t: Types,
    v: PickledSlotSigModel,
    rest: Option<Streams>,
) -> Option<Streams>
{
    string(
        k,
        v.name,
        t(
            v.implemented_ty,
            typars(
                k,
                t,
                v.class_typars,
                typars(
                    k,
                    t,
                    v.method_typars,
                    slot_groups(k, t, v.params, option_ty(k, t, v.return_ty, rest)),
                ),
            ),
        ),
    )
}

#[verifier::spinoff_prover]
#[verifier::rlimit(60)]
pub proof fn law_slotsig(
    k: Setting,
    t: Types,
    w: Walk,
    v: PickledSlotSigModel,
    d: nat,
    rest: Option<Streams>,
) -> (x: Walk)
    requires
        ready(k, w, slotsig(k, t, v, rest)),
        reads_types(k, t, d),
    ensures
        leads(val::slotsig_at(w, d), v, x),
        ready(k, x, rest),
{
    reveal(slotsig);
    reveal(val::slotsig_at);
    let r5 = option_ty(k, t, v.return_ty, rest);
    let r4 = slot_groups(k, t, v.params, r5);
    let r3 = typars(k, t, v.method_typars, r4);
    let r2 = typars(k, t, v.class_typars, r3);
    let r1 = t(v.implemented_ty, r2);
    let s = law_string(k, w.tape, v.name, r1, "u_slotsig Name");
    let w = Walk { tape: s, ..w };
    let w = lemma_ty(k, t, w, v.implemented_ty, d, r2);
    let w = law_typars(k, t, w, v.class_typars, d, r3);
    let w = law_typars(k, t, w, v.method_typars, d, r4);
    let w = law_slot_groups(k, t, w, v.params, d, r5);
    law_option_ty(k, t, w, v.return_ty, d, rest, "u_slotsig ReturnTy")
}

/// Signatures of slots, after their number.
#[verifier::opaque]
pub open spec fn slotsigs(
    k: Setting,
    t: Types,
    v: Seq<PickledSlotSigModel>,
    rest: Option<Streams>,
) -> Option<Streams>
{
    count(v.len(), more_slotsigs(k, t, v, rest))
}

/// Signatures of slots, without their number.
#[verifier::opaque]
pub open spec fn more_slotsigs(
    k: Setting,
    t: Types,
    v: Seq<PickledSlotSigModel>,
    rest: Option<Streams>,
) -> Option<Streams>
    decreases v.len(),
{
    if v.len() == 0 {
        rest
    } else {
        slotsig(k, t, v[0], more_slotsigs(k, t, v.drop_first(), rest))
    }
}

pub proof fn law_slotsigs(
    k: Setting,
    t: Types,
    w: Walk,
    v: Seq<PickledSlotSigModel>,
    d: nat,
    rest: Option<Streams>,
) -> (x: Walk)
    requires
        ready(k, w, slotsigs(k, t, v, rest)),
        reads_types(k, t, d),
    ensures
        leads(val::slotsigs_at(w, d), v, x),
        ready(k, x, rest),
{
    reveal(slotsigs);
    reveal(val::slotsigs_at);
    let more = more_slotsigs(k, t, v, rest);
    let s = law_count(k, w.tape, v.len(), more, "u_member_info ImplementedSlotSigs");
    let x = law_more_slotsigs(k, t, Walk { tape: s, ..w }, v, d, Seq::empty(), rest);
    assert(Seq::empty() + v =~= v);
    x
}

pub proof fn law_more_slotsigs(
    k: Setting,
    t: Types,
    w: Walk,
    v: Seq<PickledSlotSigModel>,
    d: nat,
    acc: Seq<PickledSlotSigModel>,
    rest: Option<Streams>,
) -> (x: Walk)
    requires
        ready(k, w, more_slotsigs(k, t, v, rest)),
        reads_types(k, t, d),
    ensures
        leads(val::more_slotsigs_at(w, v.len(), d, acc), acc + v, x),
        ready(k, x, rest),
    decreases v.len(),
{
    reveal(more_slotsigs);
    if v.len() == 0 {
        assert(acc + v =~= acc);
        w
    } else {
        let tail = v.drop_first();
        let w = law_slotsig(k, t, w, v[0], d, more_slotsigs(k, t, tail, rest));
        assert(acc.push(v[0]) + tail =~= acc + v);
        law_more_slotsigs(k, t, w, tail, d, acc.push(v[0]), rest)
    }
}

/// What makes a value a member.
#[verifier::opaque]
pub open spec fn member_info(
    k: Setting,
    t: Types,
    v: PickledMemberInfoModel,
    rest: Option<Streams>,
) -> Option<Streams>
{
    tcref(
        k,
        v.apparent_parent,
        member_flags(
            k,
            v.flags,
            slotsigs(k, t, v.implemented_slots, boolean(v.is_implemented, rest)),
        ),
    )
}

pub proof fn law_member_info(
    k: Setting,
    t: Types,
    w: Walk,
    v: PickledMemberInfoModel,
    d: nat,
    rest: Option<Streams>,
) -> (x: Walk)
    requires
        ready(k, w, member_info(k, t, v, rest)),
        reads_types(k, t, d),
    ensures
        leads(val::member_info_at(w, d), v, x),
        ready(k, x, rest),
{
    reveal(member_info);
    reveal(val::member_info_at);
    let r3 = boolean(v.is_implemented, rest);
    let r2 = slotsigs(k, t, v.implemented_slots, r3);
    let r1 = member_flags(k, v.flags, r2);
    let w = law_tcref(k, w, v.apparent_parent, r1);
    let s = law_member_flags(k, w.tape, v.flags, r2);
    let w = Walk { tape: s, ..w };
    let w = law_slotsigs(k, t, w, v.implemented_slots, d, r3);
    let s = law_boolean(k, w.tape, v.is_implemented, rest, "u_member_info IsImplemented");
    Walk { tape: s, ..w }
}

/// The entity that a value is declared in.
#[verifier::opaque]
pub open spec fn parentref(
    k: Setting,
    v: PickledParentRef,
    rest: Option<Streams>,
) -> Option<Streams>
{
    match v {
        PickledParentRef::NoParent => byte(0, rest),
        PickledParentRef::Parent(c) => byte(1, tcref(k, c, rest)),
    }
}

pub proof fn law_parentref(
    k: Setting,
    w: Walk,
    v: PickledParentRef,
    rest: Option<Streams>,
) -> (x: Walk)
    requires
        ready(k, w, parentref(k, v, rest)),
    ensures
        leads(val::parentref_at(w), v, x),
        ready(k, x, rest),
{
    reveal(parentref);
    reveal(val::parentref_at);
    match v {
        PickledParentRef::NoParent => {
            let s = law_byte(k, w.tape, 0, rest, "u_parentref tag");
            Walk { tape: s, ..w }
        },
        PickledParentRef::Parent(c) => {
            let r1 = tcref(k, c, rest);
            let s = law_byte(k, w.tape, 1, r1, "u_parentref tag");
            let w = Walk { tape: s, ..w };
            law_tcref(k, w, c, rest)
        },
    }
}

/// What makes a value a member, where it is one.
#[verifier::opaque]
pub open spec fn option_member_info(
    k: Setting,
    t: Types,
    v: Option<PickledMemberInfoModel>,
    rest: Option<Streams>,
) -> Option<Streams> {
    match v {
        None => byte(0, rest),
        Some(a) => byte(1, member_info(k, t, a, rest)),
    }
}

pub proof fn law_option_member_info(
    k: Setting,
    t: Types,
    w: Walk,
    v: Option<PickledMemberInfoModel>,
    d: nat,
    rest: Option<Streams>,
    context: &'static str,
) -> (x: Walk)
    requires
        ready(k, w, option_member_info(k, t, v, rest)),
        reads_types(k, t, d),
    ensures
        leads(val::option_member_info_at(w, context, d), v, x),
        ready(k, x, rest),
{
    reveal(option_member_info);
    reveal(val::option_member_info_at);
    match v {
        None => {
            let s = law_byte(k, w.tape, 0, rest, context);
            Walk { tape: s, ..w }
        },
        Some(a) => {
            let s = law_byte(k, w.tape, 1, member_info(k, t, a, rest), context);
            law_member_info(k, t, Walk { tape: s, ..w }, a, d, rest)
        },
    }
}

/// What the compiler keeps of a value, where it keeps something.
#[verifier::opaque]
pub open spec fn option_val_repr_info(
    k: Setting,
    t: Types,
    v: Option<PickledValReprInfoModel>,
    rest: Option<Streams>,
) -> Option<Streams> {
    match v {
        None => byte(0, rest),
        Some(a) => byte(1, val_repr_info(k, t, a, rest)),
    }
}

pub proof fn law_option_val_repr_info(
    k: Setting,
    t: Types,
    w: Walk,
    v: Option<PickledValReprInfoModel>,
    d: nat,
    rest: Option<Streams>,
    context: &'static str,
) -> (x: Walk)
    requires
        ready(k, w, option_val_repr_info(k, t, v, rest)),
        reads_types(k, t, d),
    ensures
        leads(val::option_val_repr_info_at(w, context, d), v, x),
        ready(k, x, rest),
{
    reveal(option_val_repr_info);
    reveal(val::option_val_repr_info_at);
    match v {
        None => {
            let s = law_byte(k, w.tape, 0, rest, context);
            Walk { tape: s, ..w }
        },
        Some(a) => {
            let s = law_byte(k, w.tape, 1, val_repr_info(k, t, a, rest), context);
            law_val_repr_info(k, t, Walk { tape: s, ..w }, a, d, rest)
        },
    }
}

/// The declaration of a value.
#[verifier::opaque]
pub open spec fn val_data(
    k: Setting,
    t: Types,
    v: PickledValModel,
    rest: Option<Streams>,
) -> Option<Streams>
{
    string(
        k,
        v.logical_name,
        option_string(
            k,
            v.compiled_name,
            ranges(
                k,
                (v.range, v.other_range),
                t(
                    v.ty,
                    int64(
                        v.flags,
                        option_member_info(
                            k,
                            t,
                            v.member_info,
                            attribs(
                                k,
                                t,
                                v.attribs,
                                option_val_repr_info(
                                    k,
                                    t,
                                    v.repr_info,
                                    string(
                                        k,
                                        v.xmldoc_sig,
                                        access(
                                            k,
                                            v.access,
                                            parentref(
                                                k,
                                                v.parent,
                                                option_literal(
                                                    k,
                                                    v.literal_value,
                                                    framed_xmldoc(k, v.xmldoc, rest),
                                                ),
                                            ),
                                        ),
                                    ),
                                ),
                            ),
                        ),
                    ),
                ),
            ),
        ),
    )
}

#[verifier::spinoff_prover]
#[verifier::rlimit(60)]
pub proof fn law_val_data(
    k: Setting,
    t: Types,
    w: Walk,
    v: PickledValModel,
    d: nat,
    rest: Option<Streams>,
) -> (x: Walk)
    requires
        ready(k, w, val_data(k, t, v, rest)),
        reads_types(k, t, d),
    ensures
        leads(val::val_data_at(w, d), v, x),
        ready(k, x, rest),
{
    reveal(val_data);
    reveal(val::val_data_at);
    let r12 = framed_xmldoc(k, v.xmldoc, rest);
    let r11 = option_literal(k, v.literal_value, r12);
    let r10 = parentref(k, v.parent, r11);
    let r9 = access(k, v.access, r10);
    let r8 = string(k, v.xmldoc_sig, r9);
    let r7 = option_val_repr_info(k, t, v.repr_info, r8);
    let r6 = attribs(k, t, v.attribs, r7);
    let r5 = option_member_info(k, t, v.member_info, r6);
    let r4 = int64(v.flags, r5);
    let r3 = t(v.ty, r4);
    let r2 = ranges(k, (v.range, v.other_range), r3);
    let r1 = option_string(k, v.compiled_name, r2);
    let s = law_string(k, w.tape, v.logical_name, r1, "u_ValData LogicalName");
    let w = Walk { tape: s, ..w };
    let s = law_option_string(
        k,
        w.tape,
        v.compiled_name,
        r2,
        "u_ValData CompiledName",
        "u_ValData CompiledName body",
    );
    let w = Walk { tape: s, ..w };
    let s = law_ranges(k, w.tape, (v.range, v.other_range), r3);
    let w = Walk { tape: s, ..w };
    let w = lemma_ty(k, t, w, v.ty, d, r4);
    let s = law_int64(k, w.tape, v.flags, r5, "u_ValData flags");
    let w = Walk { tape: s, ..w };
    let w = law_option_member_info(k, t, w, v.member_info, d, r6, "u_ValData MemberInfo");
    let w = law_attribs(k, t, w, v.attribs, d, r7);
    let w = law_option_val_repr_info(k, t, w, v.repr_info, d, r8, "u_ValData ValReprInfo");
    let s = law_string(k, w.tape, v.xmldoc_sig, r9, "u_ValData XmlDocSig");
    let w = Walk { tape: s, ..w };
    let s = law_access(k, w.tape, v.access, r10);
    let w = Walk { tape: s, ..w };
    let w = law_parentref(k, w, v.parent, r11);
    let s = law_option_literal(k, w.tape, v.literal_value, r12, "u_ValData LiteralValue");
    let w = Walk { tape: s, ..w };
    let s = law_framed_xmldoc(k, w.tape, v.xmldoc, rest, "u_ValData xmldoc");
    Walk { tape: s, ..w }
}

/// A value: its stamp, then the declaration that the pickle has under it.
pub open spec fn value(k: Setting, t: Types, v: u32, rest: Option<Streams>) -> Option<Streams> {
    stamp(v, k.vals.len(), val_data(k, t, k.vals[v as int], rest))
}

/// A value is read back, and its declaration is under its stamp afterwards.
pub proof fn law_value(
    k: Setting,
    t: Types,
    w: Walk,
    v: u32,
    d: nat,
    rest: Option<Streams>,
) -> (x: Walk)
    requires
        ready(k, w, value(k, t, v, rest)),
        reads_types(k, t, d),
    ensures
        leads(val::val_at(w, d), v, x),
        ready(k, x, rest),
        v < k.vals.len(),
        x.vals[v as int] == Some(k.vals[v as int]),
{
    reveal(linked);
    reveal(val::val_at);
    let r1 = val_data(k, t, k.vals[v as int], rest);
    let s = law_stamp(k, w.tape, v, k.vals.len(), r1, "u_Val osgn index", "vals");
    let w = law_val_data(k, t, Walk { tape: s, ..w }, k.vals[v as int], d, rest);
    let slots = w.vals.update(v as int, Some(k.vals[v as int]));
    assert(w.vals[v as int] is Some ==> slots =~= w.vals);
    Walk { vals: slots, ..w }
}

/// A pickle of one value is read back to its end, and gives the declaration that was
/// written.
pub proof fn law_a_value_is_read_as_written(k: Setting, v: u32, d: nat)
    requires
        value(k, types_at(k, d), v, nothing()) is Some,
    ensures
        ({
            let all = value(k, types_at(k, d), v, nothing())->0;
            let r = val::val_at(beginning(k, all, d), d);
            &&& r is Ok
            &&& r->Ok_0.0 == v
            &&& r->Ok_0.1.vals[v as int] == Some(k.vals[v as int])
            &&& at_end(r->Ok_0.1)
        }),
{
    let all = value(k, types_at(k, d), v, nothing());
    lemma_beginning(k, all, d);
    law_types(k, d);
    let x = law_value(k, types_at(k, d), beginning(k, all->0, d), v, d, nothing());
    lemma_end(k, x);
}

} // verus!
