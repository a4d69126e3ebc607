//! The pickle format from the side of its writer: references to values, and attributes.
use crate::fsharp_pickle::attribs;
use crate::fsharp_pickle::model::{
    PickledAttribExprModel, PickledAttribNamedArgModel, PickledAttributeModel, PickledExprModel,
    PickledNonLocalValRefModel, PickledVRefModel,
};
use crate::fsharp_pickle::osgn::Walk;
use crate::fsharp_pickle::reader;
use crate::fsharp_pickle::reader::Tape;
use crate::fsharp_pickle::type_writing::{
    law_option_ty, law_tcref, leads, lemma_ty, option_ty, reads_types, tcref, Types,
};
use crate::fsharp_pickle::vrefs;
use crate::fsharp_pickle::writing::{
    at, boolean, byte, count, gives, law_boolean, law_byte, law_count, law_literal, law_option,
    law_stamp, law_string, law_uint32, linked, literal, option, ready, stamp, string, uint32,
    Setting, Streams,
};
use vstd::prelude::*;

verus! {

/// A constant expression: a tag byte, its value and its type.
#[verifier::opaque]
pub open spec fn expr(
    k: Setting,
    t: Types,
    v: PickledExprModel,
    rest: Option<Streams>,
) -> Option<Streams>
{
    byte(0, literal(k, v.value, t(v.ty, rest)))
}

pub proof fn law_expr(
    k: Setting,
    t: Types,
    w: Walk,
    v: PickledExprModel,
    d: nat,
    rest: Option<Streams>,
) -> (x: Walk)
    requires
        ready(k, w, expr(k, t, v, rest)),
        reads_types(k, t, d),
    ensures
        leads(attribs::expr_at(w, d), v, x),
        ready(k, x, rest),
{
    reveal(expr);
    let r2 = t(v.ty, rest);
    let r1 = literal(k, v.value, r2);
    let s = law_byte(k, w.tape, 0, r1, "u_expr tag");
    let w = Walk { tape: s, ..w };
    let s = law_literal(k, w.tape, v.value, r2);
    let w = Walk { tape: s, ..w };
    lemma_ty(k, t, w, v.ty, d, rest)
}

/// An argument of an attribute: as it was written, then as it was evaluated.
#[verifier::opaque]
pub open spec fn attrib_expr(
    k: Setting,
    t: Types,
    v: PickledAttribExprModel,
    rest: Option<Streams>,
) -> Option<Streams>
{
    expr(k, t, v.source, expr(k, t, v.evaluated, rest))
}

pub proof fn law_attrib_expr(
    k: Setting,
    t: Types,
    w: Walk,
    v: PickledAttribExprModel,
    d: nat,
    rest: Option<Streams>,
) -> (x: Walk)
    requires
        ready(k, w, attrib_expr(k, t, v, rest)),
        reads_types(k, t, d),
    ensures
        leads(attribs::attrib_expr_at(w, d), v, x),
        ready(k, x, rest),
{
    reveal(attrib_expr);
    let r1 = expr(k, t, v.evaluated, rest);
    let w = law_expr(k, t, w, v.source, d, r1);
    law_expr(k, t, w, v.evaluated, d, rest)
}

/// Arguments of an attribute, after their number.
#[verifier::opaque]
pub open spec fn attrib_exprs(
    k: Setting,
    t: Types,
    v: Seq<PickledAttribExprModel>,
    rest: Option<Streams>,
) -> Option<Streams>
{
    count(v.len(), more_attrib_exprs(k, t, v, rest))
}

/// Arguments of an attribute, without their number.
#[verifier::opaque]
pub open spec fn more_attrib_exprs(
    k: Setting,
    t: Types,
    v: Seq<PickledAttribExprModel>,
    rest: Option<Streams>,
) -> Option<Streams>
    decreases v.len(),
{
    if v.len() == 0 {
        rest
    } else {
        attrib_expr(k, t, v[0], more_attrib_exprs(k, t, v.drop_first(), rest))
    }
}

pub proof fn law_attrib_exprs(
    k: Setting,
    t: Types,
    w: Walk,
    v: Seq<PickledAttribExprModel>,
    d: nat,
    rest: Option<Streams>,
) -> (x: Walk)
    requires
        ready(k, w, attrib_exprs(k, t, v, rest)),
        reads_types(k, t, d),
    ensures
        leads(attribs::attrib_exprs_at(w, d), v, x),
        ready(k, x, rest),
{
    reveal(attrib_exprs);
    let more = more_attrib_exprs(k, t, v, rest);
    let s = law_count(k, w.tape, v.len(), more, "u_attrib args");
    let x = law_more_attrib_exprs(k, t, Walk { tape: s, ..w }, v, d, Seq::empty(), rest);
    assert(Seq::empty() + v =~= v);
    x
}

pub proof fn law_more_attrib_exprs(
    k: Setting,
    t: Types,
    w: Walk,
    v: Seq<PickledAttribExprModel>,
    d: nat,
    acc: Seq<PickledAttribExprModel>,
    rest: Option<Streams>,
) -> (x: Walk)
    requires
        ready(k, w, more_attrib_exprs(k, t, v, rest)),
        reads_types(k, t, d),
    ensures
        leads(attribs::more_attrib_exprs_at(w, v.len(), d, acc), acc + v, x),
        ready(k, x, rest),
    decreases v.len(),
{
    reveal(more_attrib_exprs);
    if v.len() == 0 {
        assert(acc + v =~= acc);
        w
    } else {
        let tail = v.drop_first();
        let w = law_attrib_expr(k, t, w, v[0], d, more_attrib_exprs(k, t, tail, rest));
        assert(acc.push(v[0]) + tail =~= acc + v);
        law_more_attrib_exprs(k, t, w, tail, d, acc.push(v[0]), rest)
    }
}

/// A named argument of an attribute.
#[verifier::opaque]
pub open spec fn named_arg(
    k: Setting,
    t: Types,
    v: PickledAttribNamedArgModel,
    rest: Option<Streams>,
) -> Option<Streams>
{
    string(k, v.name, t(v.ty, boolean(v.is_field, attrib_expr(k, t, v.value, rest))))
}

pub proof fn law_named_arg(
    k: Setting,
    t: Types,
    w: Walk,
    v: PickledAttribNamedArgModel,
    d: nat,
    rest: Option<Streams>,
) -> (x: Walk)
    requires
        ready(k, w, named_arg(k, t, v, rest)),
        reads_types(k, t, d),
    ensures
        leads(attribs::attrib_named_arg_at(w, d), v, x),
        ready(k, x, rest),
{
    reveal(named_arg);
    let r3 = attrib_expr(k, t, v.value, rest);
    let r2 = boolean(v.is_field, r3);
    let r1 = t(v.ty, r2);
    let s = law_string(k, w.tape, v.name, r1, "u_attrib_arg name");
    let w = Walk { tape: s, ..w };
    let w = lemma_ty(k, t, w, v.ty, d, r2);
    let s = law_boolean(k, w.tape, v.is_field, r3, "u_attrib_arg is_field");
    let w = Walk { tape: s, ..w };
    law_attrib_expr(k, t, w, v.value, d, rest)
}

/// Named arguments of an attribute, after their number.
#[verifier::opaque]
pub open spec fn named_args(
    k: Setting,
    t: Types,
    v: Seq<PickledAttribNamedArgModel>,
    rest: Option<Streams>,
) -> Option<Streams>
{
    count(v.len(), more_named_args(k, t, v, rest))
}

/// Named arguments of an attribute, without their number.
#[verifier::opaque]
pub open spec fn more_named_args(
    k: Setting,
    t: Types,
    v: Seq<PickledAttribNamedArgModel>,
    rest: Option<Streams>,
) -> Option<Streams>
    decreases v.len(),
{
    if v.len() == 0 {
        rest
    } else {
        named_arg(k, t, v[0], more_named_args(k, t, v.drop_first(), rest))
    }
}

pub proof fn law_named_args(
    k: Setting,
    t: Types,
    w: Walk,
    v: Seq<PickledAttribNamedArgModel>,
    d: nat,
    rest: Option<Streams>,
) -> (x: Walk)
    requires
        ready(k, w, named_args(k, t, v, rest)),
        reads_types(k, t, d),
    ensures
        leads(attribs::attrib_named_args_at(w, d), v, x),
        ready(k, x, rest),
{
    reveal(named_args);
    let more = more_named_args(k, t, v, rest);
    let s = law_count(k, w.tape, v.len(), more, "u_attrib named args");
    let x = law_more_named_args(k, t, Walk { tape: s, ..w }, v, d, Seq::empty(), rest);
    assert(Seq::empty() + v =~= v);
    x
}

pub proof fn law_more_named_args(
    k: Setting,
    t: Types,
    w: Walk,
    v: Seq<PickledAttribNamedArgModel>,
    d: nat,
    acc: Seq<PickledAttribNamedArgModel>,
    rest: Option<Streams>,
) -> (x: Walk)
    requires
        ready(k, w, more_named_args(k, t, v, rest)),
        reads_types(k, t, d),
    ensures
        leads(attribs::more_attrib_named_args_at(w, v.len(), d, acc), acc + v, x),
        ready(k, x, rest),
    decreases v.len(),
{
    reveal(more_named_args);
    if v.len() == 0 {
        assert(acc + v =~= acc);
        w
    } else {
        let tail = v.drop_first();
        let w = law_named_arg(k, t, w, v[0], d, more_named_args(k, t, tail, rest));
        assert(acc.push(v[0]) + tail =~= acc + v);
        law_more_named_args(k, t, w, tail, d, acc.push(v[0]), rest)
    }
}

/// An attribute: its type, the reference to its constructor, its arguments, and whether it
/// stands on an accessor.
#[verifier::opaque]
pub open spec fn attrib(
    k: Setting,
    t: Types,
    v: PickledAttributeModel,
    rest: Option<Streams>,
) -> Option<Streams>
{
    tcref(
        k,
        v.tcref,
        byte(
            1,
            vref(
                k,
                t,
                v.constructor,
                attrib_exprs(
                    k,
                    t,
                    v.args,
                    named_args(k, t, v.named_args, boolean(v.applied_to_getter_or_setter, rest)),
                ),
            ),
        ),
    )
}

pub proof fn law_attrib(
    k: Setting,
    t: Types,
    w: Walk,
    v: PickledAttributeModel,
    d: nat,
    rest: Option<Streams>,
) -> (x: Walk)
    requires
        ready(k, w, attrib(k, t, v, rest)),
        reads_types(k, t, d),
    ensures
        leads(attribs::attrib_at(w, d), v, x),
        ready(k, x, rest),
{
    reveal(attrib);
    let r5 = boolean(v.applied_to_getter_or_setter, rest);
    let r4 = named_args(k, t, v.named_args, r5);
    let r3 = attrib_exprs(k, t, v.args, r4);
    let r2 = vref(k, t, v.constructor, r3);
    let r1 = byte(1, r2);
    let w = law_tcref(k, w, v.tcref, r1);
    let s = law_byte(k, w.tape, 1, r2, "u_attribkind tag");
    let w = Walk { tape: s, ..w };
    let w = law_vref(k, t, w, v.constructor, d, r3);
    let w = law_attrib_exprs(k, t, w, v.args, d, r4);
    let w = law_named_args(k, t, w, v.named_args, d, r5);
    let s = law_boolean(
        k,
        w.tape,
        v.applied_to_getter_or_setter,
        rest,
        "u_attrib accessor flag",
    );
    Walk { tape: s, ..w }
}

/// Attributes, after their number.
#[verifier::opaque]
pub open spec fn attribs(
    k: Setting,
    t: Types,
    v: Seq<PickledAttributeModel>,
    rest: Option<Streams>,
) -> Option<Streams>
{
    count(v.len(), more_attribs(k, t, v, rest))
}

/// Attributes, without their number.
#[verifier::opaque]
pub open spec fn more_attribs(
    k: Setting,
    t: Types,
    v: Seq<PickledAttributeModel>,
    rest: Option<Streams>,
) -> Option<Streams>
    decreases v.len(),
{
    if v.len() == 0 {
        rest
    } else {
        attrib(k, t, v[0], more_attribs(k, t, v.drop_first(), rest))
    }
}

pub proof fn law_attribs(
    k: Setting,
    t: Types,
    w: Walk,
    v: Seq<PickledAttributeModel>,
    d: nat,
    rest: Option<Streams>,
) -> (x: Walk)
    requires
        ready(k, w, attribs(k, t, v, rest)),
        reads_types(k, t, d),
    ensures
        leads(attribs::attribs_at(w, d), v, x),
        ready(k, x, rest),
{
    reveal(attribs);
    let more = more_attribs(k, t, v, rest);
    let s = law_count(k, w.tape, v.len(), more, "u_attribs element");
    let x = law_more_attribs(k, t, Walk { tape: s, ..w }, v, d, Seq::empty(), rest);
    assert(Seq::empty() + v =~= v);
    x
}

#[verifier::spinoff_prover]
#[verifier::rlimit(60)]
pub proof fn law_more_attribs(
    k: Setting,
    t: Types,
    w: Walk,
    v: Seq<PickledAttributeModel>,
    d: nat,
    acc: Seq<PickledAttributeModel>,
    rest: Option<Streams>,
) -> (x: Walk)
    requires
        ready(k, w, more_attribs(k, t, v, rest)),
        reads_types(k, t, d),
    ensures
        leads(attribs::more_attribs_at(w, v.len(), d, acc), acc + v, x),
        ready(k, x, rest),
    decreases v.len(),
{
    reveal(more_attribs);
    if v.len() == 0 {
        assert(acc + v =~= acc);
        w
    } else {
        let tail = v.drop_first();
        let w = law_attrib(k, t, w, v[0], d, more_attribs(k, t, tail, rest));
        assert(acc.push(v[0]) + tail =~= acc + v);
        law_more_attribs(k, t, w, tail, d, acc.push(v[0]), rest)
    }
}

/// A string that may be absent.
pub open spec fn option_string(k: Setting, v: Option<Seq<char>>, rest: Option<Streams>) -> Option<
    Streams,
> {
    option(v, |x: Seq<char>, rest: Option<Streams>| string(k, x, rest), rest)
}

pub proof fn law_option_string(
    k: Setting,
    s: Tape,
    v: Option<Seq<char>>,
    rest: Option<Streams>,
    context: &'static str,
    body: &'static str,
) -> (t: Tape)
    requires
        at(k, s, option_string(k, v, rest)),
    ensures
        gives(vrefs::option_string_at(s, context, body), v, t),
        at(k, t, rest),
{
    let one = |x: Seq<char>, rest: Option<Streams>| string(k, x, rest);
    let step = |s: Tape| reader::string_at(s, body);
    assert forall|s: Tape, x: Seq<char>, rest: Option<Streams>| #[trigger]
        at(k, s, one(x, rest)) implies step(s) is Ok && step(s)->Ok_0.0 == x && at(
        k,
        step(s)->Ok_0.1,
        rest,
    ) by {
        law_string(k, s, x, rest, body);
    }
    law_option(k, s, v, one, rest, context, step)
}

/// A reference to a value of another assembly.
#[verifier::opaque]
pub open spec fn nonlocal_vref(
    k: Setting,
    t: Types,
    v: PickledNonLocalValRefModel,
    rest: Option<Streams>,
) -> Option<Streams>
{
    tcref(
        k,
        v.enclosing_entity,
        option_string(
            k,
            v.member_parent_mangled_name,
            boolean(
                v.member_is_override,
                string(
                    k,
                    v.logical_name,
                    uint32(v.total_arg_count, option_ty(k, t, v.partial_type, rest)),
                ),
            ),
        ),
    )
}

pub proof fn law_nonlocal_vref(
    k: Setting,
    t: Types,
    w: Walk,
    v: PickledNonLocalValRefModel,
    d: nat,
    rest: Option<Streams>,
) -> (x: Walk)
    requires
        ready(k, w, nonlocal_vref(k, t, v, rest)),
        reads_types(k, t, d),
    ensures
        leads(vrefs::nonlocal_val_ref_at(w, d), v, x),
        ready(k, x, rest),
{
    reveal(nonlocal_vref);
    let r5 = option_ty(k, t, v.partial_type, rest);
    let r4 = uint32(v.total_arg_count, r5);
    let r3 = string(k, v.logical_name, r4);
    let r2 = boolean(v.member_is_override, r3);
    let r1 = option_string(k, v.member_parent_mangled_name, r2);
    let w = law_tcref(k, w, v.enclosing_entity, r1);
    let s = law_option_string(
        k,
        w.tape,
        v.member_parent_mangled_name,
        r2,
        "u_nonlocal_val_ref MemberParentMangledName",
        "u_nonlocal_val_ref MemberParentMangledName body",
    );
    let w = Walk { tape: s, ..w };
    let s = law_boolean(
        k,
        w.tape,
        v.member_is_override,
        r3,
        "u_nonlocal_val_ref MemberIsOverride",
    );
    let w = Walk { tape: s, ..w };
    let s = law_string(k, w.tape, v.logical_name, r4, "u_nonlocal_val_ref LogicalName");
    let w = Walk { tape: s, ..w };
    let s = law_uint32(k, w.tape, v.total_arg_count, r5, "u_nonlocal_val_ref TotalArgCount");
    let w = Walk { tape: s, ..w };
    law_option_ty(k, t, w, v.partial_type, d, rest, "u_nonlocal_val_ref partialType")
}

/// A reference to a value: its stamp, or a reference to one of another assembly.
#[verifier::opaque]
pub open spec fn vref(
    k: Setting,
    t: Types,
    v: PickledVRefModel,
    rest: Option<Streams>,
) -> Option<Streams>
{
    match v {
        PickledVRefModel::Local(i) => byte(0, stamp(i, k.vals.len(), rest)),
        PickledVRefModel::NonLocal(n) => byte(1, nonlocal_vref(k, t, n, rest)),
    }
}

pub proof fn law_vref(
    k: Setting,
    t: Types,
    w: Walk,
    v: PickledVRefModel,
    d: nat,
    rest: Option<Streams>,
) -> (x: Walk)
    requires
        ready(k, w, vref(k, t, v, rest)),
        reads_types(k, t, d),
    ensures
        leads(vrefs::vref_at(w, d), v, x),
        ready(k, x, rest),
{
    reveal(vref);
    reveal(linked);
    match v {
        PickledVRefModel::Local(i) => {
            let r1 = stamp(i, k.vals.len(), rest);
            let s = law_byte(k, w.tape, 0, r1, "u_vref tag");
            let w = Walk { tape: s, ..w };
            let s = law_stamp(k, w.tape, i, k.vals.len(), rest, "u_vref Local stamp", "vals");
            Walk { tape: s, ..w }
        },
        PickledVRefModel::NonLocal(n) => {
            let r1 = nonlocal_vref(k, t, n, rest);
            let s = law_byte(k, w.tape, 1, r1, "u_vref tag");
            let w = Walk { tape: s, ..w };
            law_nonlocal_vref(k, t, w, n, d, rest)
        },
    }
}

} // verus!
