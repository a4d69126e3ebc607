//! The references of a decoded type are within their tables.
//!
//! The header gives the size of each table that a body refers to, and no decoder
//! changes one. A reference is checked as it is read, so that whatever is decoded can
//! be looked up.
use crate::fsharp_pickle::attribs;
use crate::fsharp_pickle::leaves;
use crate::fsharp_pickle::measure;
use crate::fsharp_pickle::model::{
    FSharpTyparConstraintModel, Measure, PickledAttribExprModel, PickledAttribNamedArgModel,
    PickledAttributeModel, PickledTcRef, PickledTypeModel,
};
use crate::fsharp_pickle::osgn;
use crate::fsharp_pickle::osgn::{Walk, Walked};
use crate::fsharp_pickle::reader;
use crate::fsharp_pickle::reader::MAX_RECURSION_DEPTH;
use crate::fsharp_pickle::typar;
use crate::fsharp_pickle::types;
use crate::fsharp_pickle::vrefs;
use vstd::prelude::*;

verus! {

/// The sizes of the tables that the types of a pickle refer to.
pub struct Sizes {
    pub tycons: nat,
    pub typars: nat,
    pub nlerefs: nat,
    pub simpletys: nat,
}

/// The sizes of the tables of a walk.
pub open spec fn sizes(w: Walk) -> Sizes {
    Sizes {
        tycons: w.tycons.len(),
        typars: w.typars.len(),
        nlerefs: w.nlerefs_len,
        simpletys: w.simpletys_len,
    }
}

/// The entity that is referred to is in its table.
pub open spec fn tcref_within(z: Sizes, t: PickledTcRef) -> bool {
    match t {
        PickledTcRef::Local(stamp) => stamp < z.tycons,
        PickledTcRef::NonLocal(index) => index < z.nlerefs,
    }
}

/// What a measure refers to is in its tables.
pub open spec fn measure_within(z: Sizes, m: Measure) -> bool
    decreases m,
{
    match m {
        Measure::Const(t) => tcref_within(z, t),
        Measure::Inv(a) => measure_within(z, *a),
        Measure::Prod(a, b) => measure_within(z, *a) && measure_within(z, *b),
        Measure::Var(i) => i < z.typars,
        Measure::One => true,
        Measure::RationalPower { base, .. } => measure_within(z, *base),
    }
}

/// What a type refers to, at any depth, is in its tables.
pub open spec fn type_within(z: Sizes, t: PickledTypeModel) -> bool
    decreases t,
{
    match t {
        PickledTypeModel::Tuple { elems, .. } => forall|i: int|
            0 <= i < elems.len() ==> type_within(z, #[trigger] elems[i]),
        PickledTypeModel::AppSimple { simpletyp_index, .. } => simpletyp_index < z.simpletys,
        PickledTypeModel::App { tcref, args, .. } => tcref_within(z, tcref) && forall|i: int|
            0 <= i < args.len() ==> type_within(z, #[trigger] args[i]),
        PickledTypeModel::Fun { domain, range, .. } => type_within(z, *domain) && type_within(
            z,
            *range,
        ),
        PickledTypeModel::Var { typar_index, .. } => typar_index < z.typars,
        PickledTypeModel::Forall { typars, body } => all_below(z.typars, typars) && type_within(
            z,
            *body,
        ),
        PickledTypeModel::Measure(m) => measure_within(z, m),
        PickledTypeModel::UCase { ucref, args } => tcref_within(z, ucref.tcref) && forall|i: int|
            0 <= i < args.len() ==> type_within(z, #[trigger] args[i]),
    }
}

/// What each of the types refers to is in its tables.
pub open spec fn types_within(z: Sizes, ts: Seq<PickledTypeModel>) -> bool {
    forall|i: int| 0 <= i < ts.len() ==> type_within(z, #[trigger] ts[i])
}

/// Each of the indices is below `n`.
pub open spec fn all_below(n: nat, s: Seq<u32>) -> bool {
    forall|i: int| 0 <= i < s.len() ==> #[trigger] s[i] < n
}

/// What is decoded leaves the sizes of the tables.
pub open spec fn keeps<V>(w: Walk, r: Walked<V>) -> bool {
    match r {
        Ok((_, x)) => sizes(x) == sizes(w),
        Err(_) => true,
    }
}

/// A decoded reference is in its table.
proof fn lemma_tcref(w: Walk)
    ensures
        keeps(w, types::tcref_at(w)),
        types::tcref_at(w) matches Ok((t, _)) ==> tcref_within(sizes(w), t),
{
}

/// What a decoded measure refers to is in its tables.
proof fn lemma_measure(w: Walk, d: nat)
    ensures
        keeps(w, measure::measure_at(w, d)),
        measure::measure_at(w, d) matches Ok((m, _)) ==> measure_within(sizes(w), m),
    decreases MAX_RECURSION_DEPTH - d, 0nat,
{
    if d < MAX_RECURSION_DEPTH {
        lemma_measure_body(types::with_depth(w, d + 1), d + 1);
    }
}

/// The same, after the depth check.
proof fn lemma_measure_body(w: Walk, d: nat)
    ensures
        keeps(w, measure::measure_body_at(w, d)),
        measure::measure_body_at(w, d) matches Ok((m, _)) ==> measure_within(sizes(w), m),
    decreases MAX_RECURSION_DEPTH - d, 1nat,
{
    if let Ok((tag, w)) = osgn::lift(w, reader::byte_at(w.tape, "u_measure_expr tag")) {
        if tag == 0 {
            lemma_tcref(w);
        } else if tag == 1 || tag == 5 {
            lemma_measure(w, d);
        } else if tag == 2 {
            lemma_measure(w, d);
            if let Ok((_, w)) = measure::measure_at(w, d) {
                lemma_measure(w, d);
            }
        }
    }
}

/// What a decoded type refers to is in its tables, and the tables keep their sizes.
pub proof fn law_decoded_types_are_within_their_tables(w: Walk, d: nat)
    ensures
        keeps(w, types::ty_at(w, d)),
        types::ty_at(w, d) matches Ok((t, _)) ==> type_within(sizes(w), t),
    decreases MAX_RECURSION_DEPTH - d, 0nat, 0nat,
{
    reveal(types::ty_body_at);
    if d < MAX_RECURSION_DEPTH {
        law_type_bodies_are_within_their_tables(types::with_depth(w, d + 1), d + 1);
    }
}

/// What the types of a decoded list refer to is in its tables.
proof fn lemma_tys(w: Walk, d: nat)
    ensures
        keeps(w, types::tys_at(w, d)),
        types::tys_at(w, d) matches Ok((ts, _)) ==> types_within(sizes(w), ts),
    decreases MAX_RECURSION_DEPTH - d, 2nat, 0nat,
{
    if let Ok((n, w)) = osgn::lift(w, reader::array_len_at(w.tape, "u_tys element")) {
        lemma_more_tys(w, n as nat, d, Seq::empty());
    }
}

/// The same, for `n` more types.
proof fn lemma_more_tys(w: Walk, n: nat, d: nat, acc: Seq<PickledTypeModel>)
    requires
        types_within(sizes(w), acc),
    ensures
        keeps(w, types::more_tys_at(w, n, d, acc)),
        types::more_tys_at(w, n, d, acc) matches Ok((ts, _)) ==> types_within(sizes(w), ts),
    decreases MAX_RECURSION_DEPTH - d, 1nat, n,
{
    if n > 0 {
        law_decoded_types_are_within_their_tables(w, d);
        if let Ok((t, x)) = types::ty_at(w, d) {
            lemma_more_tys(x, (n - 1) as nat, d, acc.push(t));
        }
    }
}

/// What a decoded type refers to is in its tables, after the depth check.
pub proof fn law_type_bodies_are_within_their_tables(w: Walk, d: nat)
    ensures
        keeps(w, types::ty_body_at(w, d)),
        types::ty_body_at(w, d) matches Ok((t, _)) ==> type_within(sizes(w), t),
    decreases MAX_RECURSION_DEPTH - d, 15nat, 0nat,
{
    reveal(types::ty_body_at);
    if let Ok((tag, w)) = osgn::lift(w, reader::byte_at(w.tape, "u_ty tag")) {
        let b = types::after_b(w);
        if tag == 0 || tag == 8 {
            lemma_tys(w, d);
        } else if tag == 2 {
            lemma_tcref(b);
            if let Ok((_, w)) = types::tcref_at(b) {
                lemma_tys(w, d);
            }
        } else if tag == 3 {
            law_decoded_types_are_within_their_tables(b, d);
            if let Ok((_, w)) = types::ty_at(b, d) {
                law_decoded_types_are_within_their_tables(w, d);
            }
        } else if tag == 5 {
            lemma_tyar_specs(w, d);
            if let Ok((_, w)) = typar::tyar_specs_at(w, d) {
                law_decoded_types_are_within_their_tables(w, d);
            }
        } else if tag == 6 {
            lemma_measure(w, d);
        } else if tag == 7 {
            lemma_tcref(w);
            if let Ok((_, w)) = types::ucref_at(w) {
                lemma_tys(w, d);
            }
        }
    }
}

/// An optional type leaves the sizes of the tables.
proof fn lemma_option_ty(w: Walk, context: &'static str, d: nat)
    ensures
        keeps(w, types::option_ty_at(w, context, d)),
    decreases MAX_RECURSION_DEPTH - d, 1nat, 0nat,
{
    if let Ok((tag, w)) = osgn::lift(w, reader::byte_at(w.tape, context)) {
        law_decoded_types_are_within_their_tables(w, d);
    }
}

/// The declared type parameters are in their table.
proof fn lemma_tyar_specs(w: Walk, d: nat)
    ensures
        keeps(w, typar::tyar_specs_at(w, d)),
        typar::tyar_specs_at(w, d) matches Ok((s, _)) ==> all_below(sizes(w).typars, s),
    decreases MAX_RECURSION_DEPTH - d, 14nat, 0nat,
{
    if let Ok((n, w)) = osgn::lift(w, reader::array_len_at(w.tape, "u_tyar_specs element")) {
        lemma_more_tyar_specs(w, n as nat, d, Seq::empty());
    }
}

/// The same, for `n` more declarations.
proof fn lemma_more_tyar_specs(w: Walk, n: nat, d: nat, acc: Seq<u32>)
    requires
        all_below(sizes(w).typars, acc),
    ensures
        keeps(w, typar::more_tyar_specs_at(w, n, d, acc)),
        typar::more_tyar_specs_at(w, n, d, acc) matches Ok((s, _)) ==> all_below(
            sizes(w).typars,
            s,
        ),
    decreases MAX_RECURSION_DEPTH - d, 13nat, n,
{
    if n > 0 {
        lemma_tyar_spec(w, d);
        if let Ok((v, x)) = typar::tyar_spec_at(w, d) {
            lemma_more_tyar_specs(x, (n - 1) as nat, d, acc.push(v));
        }
    }
}

/// A declared type parameter is in its table.
proof fn lemma_tyar_spec(w: Walk, d: nat)
    ensures
        keeps(w, typar::tyar_spec_at(w, d)),
        typar::tyar_spec_at(w, d) matches Ok((i, _)) ==> i < sizes(w).typars,
    decreases MAX_RECURSION_DEPTH - d, 12nat, 0nat,
{
    if let Ok((_, w)) = osgn::lift(
        w,
        osgn::ref_at(w.tape, "u_tyar_spec osgn index", "typars", w.typars.len()),
    ) {
        lemma_tyar_spec_data(w, d);
    }
}

/// The body of a type parameter leaves the sizes of the tables.
proof fn lemma_tyar_spec_data(w: Walk, d: nat)
    ensures
        keeps(w, typar::tyar_spec_data_at(w, d)),
    decreases MAX_RECURSION_DEPTH - d, 11nat, 0nat,
{
    if let Ok((_, w)) = osgn::lift(w, leaves::ident_at(w.tape)) {
        lemma_attribs(w, d);
        if let Ok((_, w)) = attribs::attribs_at(w, d) {
            if let Ok((_, w)) = osgn::lift(
                w,
                reader::int64_at(w.tape, "u_tyar_spec_data flags"),
            ) {
                lemma_constraints(w, d);
            }
        }
    }
}

/// The constraints of a type parameter leave the sizes of the tables.
proof fn lemma_constraints(w: Walk, d: nat)
    ensures
        keeps(w, typar::tyar_constraints_at(w, d)),
    decreases MAX_RECURSION_DEPTH - d, 6nat, 0nat,
{
    lemma_primary_constraints(w, d);
}

/// The constraints of the primary stream leave the sizes of the tables.
proof fn lemma_primary_constraints(w: Walk, d: nat)
    ensures
        keeps(w, typar::primary_constraints_at(w, d)),
    decreases MAX_RECURSION_DEPTH - d, 5nat, 0nat,
{
    if let Ok((n, w)) = osgn::lift(
        w,
        reader::array_len_at(w.tape, "u_tyar_constraints element"),
    ) {
        lemma_more_primary_constraints(w, n as nat, d, Seq::empty());
    }
}

/// The same, for `n` more constraints.
proof fn lemma_more_primary_constraints(
    w: Walk,
    n: nat,
    d: nat,
    acc: Seq<FSharpTyparConstraintModel>,
)
    ensures
        keeps(w, typar::more_primary_constraints_at(w, n, d, acc)),
    decreases MAX_RECURSION_DEPTH - d, 4nat, n,
{
    if n > 0 {
        lemma_constraint(w, d);
        if let Ok((v, x)) = typar::tyar_constraint_at(w, d) {
            lemma_more_primary_constraints(x, (n - 1) as nat, d, acc.push(v));
        }
    }
}

/// A constraint leaves the sizes of the tables.
proof fn lemma_constraint(w: Walk, d: nat)
    ensures
        keeps(w, typar::tyar_constraint_at(w, d)),
    decreases MAX_RECURSION_DEPTH - d, 3nat, 0nat,
{
    if let Ok((tag, w)) = osgn::lift(w, reader::byte_at(w.tape, "u_tyar_constraint tag")) {
        lemma_tys(w, d);
        law_decoded_types_are_within_their_tables(w, d);
        if let Ok((_, w)) = types::ty_at(w, d) {
            law_decoded_types_are_within_their_tables(w, d);
        }
    }
}

/// An expression leaves the sizes of the tables.
proof fn lemma_expr(w: Walk, d: nat)
    ensures
        keeps(w, attribs::expr_at(w, d)),
    decreases MAX_RECURSION_DEPTH - d, 3nat, 0nat,
{
    if let Ok((tag, w)) = osgn::lift(w, reader::byte_at(w.tape, "u_expr tag")) {
        if let Ok((_, w)) = osgn::lift(w, leaves::const_at(w.tape)) {
            law_decoded_types_are_within_their_tables(w, d);
        }
    }
}

/// An attribute argument leaves the sizes of the tables.
proof fn lemma_attrib_expr(w: Walk, d: nat)
    ensures
        keeps(w, attribs::attrib_expr_at(w, d)),
    decreases MAX_RECURSION_DEPTH - d, 4nat, 0nat,
{
    lemma_expr(w, d);
    if let Ok((_, w)) = attribs::expr_at(w, d) {
        lemma_expr(w, d);
    }
}

/// Attribute arguments leave the sizes of the tables.
proof fn lemma_more_attrib_exprs(
    w: Walk,
    n: nat,
    d: nat,
    acc: Seq<PickledAttribExprModel>,
)
    ensures
        keeps(w, attribs::more_attrib_exprs_at(w, n, d, acc)),
    decreases MAX_RECURSION_DEPTH - d, 5nat, n,
{
    if n > 0 {
        lemma_attrib_expr(w, d);
        if let Ok((v, x)) = attribs::attrib_expr_at(w, d) {
            lemma_more_attrib_exprs(x, (n - 1) as nat, d, acc.push(v));
        }
    }
}

/// A named attribute argument leaves the sizes of the tables.
proof fn lemma_attrib_named_arg(w: Walk, d: nat)
    ensures
        keeps(w, attribs::attrib_named_arg_at(w, d)),
    decreases MAX_RECURSION_DEPTH - d, 5nat, 0nat,
{
    if let Ok((_, w)) = osgn::lift(w, reader::string_at(w.tape, "u_attrib_arg name")) {
        law_decoded_types_are_within_their_tables(w, d);
        if let Ok((_, w)) = types::ty_at(w, d) {
            if let Ok((_, w)) = osgn::lift(
                w,
                reader::bool_at(w.tape, "u_attrib_arg is_field"),
            ) {
                lemma_attrib_expr(w, d);
            }
        }
    }
}

/// Named attribute arguments leave the sizes of the tables.
proof fn lemma_more_attrib_named_args(
    w: Walk,
    n: nat,
    d: nat,
    acc: Seq<PickledAttribNamedArgModel>,
)
    ensures
        keeps(w, attribs::more_attrib_named_args_at(w, n, d, acc)),
    decreases MAX_RECURSION_DEPTH - d, 6nat, n,
{
    if n > 0 {
        lemma_attrib_named_arg(w, d);
        if let Ok((v, x)) = attribs::attrib_named_arg_at(w, d) {
            lemma_more_attrib_named_args(x, (n - 1) as nat, d, acc.push(v));
        }
    }
}

/// A non-local value reference leaves the sizes of the tables.
proof fn lemma_nonlocal_val_ref(w: Walk, d: nat)
    ensures
        keeps(w, vrefs::nonlocal_val_ref_at(w, d)),
    decreases MAX_RECURSION_DEPTH - d, 3nat, 0nat,
{
    lemma_tcref(w);
    if let Ok((_, w)) = types::tcref_at(w) {
        if let Ok((_, w)) = osgn::lift(
            w,
            vrefs::option_string_at(
                w.tape,
                "u_nonlocal_val_ref MemberParentMangledName",
                "u_nonlocal_val_ref MemberParentMangledName body",
            ),
        ) {
            if let Ok((_, w)) = osgn::lift(
                w,
                reader::bool_at(w.tape, "u_nonlocal_val_ref MemberIsOverride"),
            ) {
                if let Ok((_, w)) = osgn::lift(
                    w,
                    reader::string_at(w.tape, "u_nonlocal_val_ref LogicalName"),
                ) {
                    if let Ok((_, w)) = osgn::lift(
                        w,
                        reader::uint32_at(w.tape, "u_nonlocal_val_ref TotalArgCount"),
                    ) {
                        lemma_option_ty(w, "u_nonlocal_val_ref partialType", d);
                    }
                }
            }
        }
    }
}

/// A value reference leaves the sizes of the tables.
proof fn lemma_vref(w: Walk, d: nat)
    ensures
        keeps(w, vrefs::vref_at(w, d)),
    decreases MAX_RECURSION_DEPTH - d, 4nat, 0nat,
{
    if let Ok((tag, w)) = osgn::lift(w, reader::byte_at(w.tape, "u_vref tag")) {
        lemma_nonlocal_val_ref(w, d);
    }
}

/// An attribute leaves the sizes of the tables.
proof fn lemma_attrib(w: Walk, d: nat)
    ensures
        keeps(w, attribs::attrib_at(w, d)),
    decreases MAX_RECURSION_DEPTH - d, 8nat, 0nat,
{
    lemma_tcref(w);
    if let Ok((_, w)) = types::tcref_at(w) {
        if let Ok((_, w)) = osgn::lift(w, reader::byte_at(w.tape, "u_attribkind tag")) {
            lemma_vref(w, d);
            if let Ok((_, w)) = vrefs::vref_at(w, d) {
                lemma_attrib_exprs(w, d);
                if let Ok((_, w)) = attribs::attrib_exprs_at(w, d) {
                    lemma_attrib_named_args(w, d);
                }
            }
        }
    }
}

/// A list of attribute arguments leaves the sizes of the tables.
proof fn lemma_attrib_exprs(w: Walk, d: nat)
    ensures
        keeps(w, attribs::attrib_exprs_at(w, d)),
    decreases MAX_RECURSION_DEPTH - d, 6nat, 0nat,
{
    if let Ok((n, w)) = osgn::lift(w, reader::array_len_at(w.tape, "u_attrib args")) {
        lemma_more_attrib_exprs(w, n as nat, d, Seq::empty());
    }
}

/// A list of named attribute arguments leaves the sizes of the tables.
proof fn lemma_attrib_named_args(w: Walk, d: nat)
    ensures
        keeps(w, attribs::attrib_named_args_at(w, d)),
    decreases MAX_RECURSION_DEPTH - d, 7nat, 0nat,
{
    if let Ok((n, w)) = osgn::lift(w, reader::array_len_at(w.tape, "u_attrib named args")) {
        lemma_more_attrib_named_args(w, n as nat, d, Seq::empty());
    }
}

/// A list of attributes leaves the sizes of the tables.
proof fn lemma_attribs(w: Walk, d: nat)
    ensures
        keeps(w, attribs::attribs_at(w, d)),
    decreases MAX_RECURSION_DEPTH - d, 10nat, 0nat,
{
    if let Ok((n, w)) = osgn::lift(w, reader::array_len_at(w.tape, "u_attribs element")) {
        lemma_more_attribs(w, n as nat, d, Seq::empty());
    }
}

/// The same, for `n` more attributes.
proof fn lemma_more_attribs(
    w: Walk,
    n: nat,
    d: nat,
    acc: Seq<PickledAttributeModel>,
)
    ensures
        keeps(w, attribs::more_attribs_at(w, n, d, acc)),
    decreases MAX_RECURSION_DEPTH - d, 9nat, n,
{
    if n > 0 {
        lemma_attrib(w, d);
        if let Ok((v, x)) = attribs::attrib_at(w, d) {
            lemma_more_attribs(x, (n - 1) as nat, d, acc.push(v));
        }
    }
}

} // verus!
