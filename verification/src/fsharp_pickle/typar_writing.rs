//! The pickle format from the side of its writer: type parameters and types.
//!
//! Type parameters are declared inside types, and hold types in their attributes and
//! constraints. As in the reader, the nesting of types is bounded.
use crate::fsharp_pickle::attribute_writing::{attribs, law_attribs};
use crate::fsharp_pickle::model::{
    FSharpTyparConstraintModel, PickledTyparSpecDataModel, PickledTypeModel, TupleKind,
};
use crate::fsharp_pickle::osgn::Walk;
use crate::fsharp_pickle::reader;
use crate::fsharp_pickle::reader::{MAX_RECURSION_DEPTH, Tape};
use crate::fsharp_pickle::typar;
use crate::fsharp_pickle::type_writing::{
    law_bounded, law_measures, law_tcref, law_tpref, law_tys, law_ucref, leads, lemma_depth,
    lemma_measure, lemma_ty, measures_at, nullness_tag, reads_types, tcref, tpref, tys, ucref,
    Types,
};
use crate::fsharp_pickle::types;
use crate::fsharp_pickle::writing::{
    at, byte, byte_b, count, gives, ident, int64, law_byte, law_byte_b, law_count, law_ident,
    law_int64, law_stamp, law_uint32_b, law_xmldoc, lemma_some, linked, ready, stamp, uint32_b,
    xmldoc, Setting, Streams,
};
use vstd::prelude::*;

verus! {

/// A constraint of the primary stream: a tag byte, then its types.
#[verifier::opaque]
pub open spec fn constraint(
    k: Setting,
    t: Types,
    v: FSharpTyparConstraintModel,
    rest: Option<Streams>,
) -> Option<Streams>
{
    match v {
        FSharpTyparConstraintModel::CoercesTo(a) => byte(0, t(a, rest)),
        FSharpTyparConstraintModel::DefaultsTo(a) => byte(2, t(a, rest)),
        FSharpTyparConstraintModel::SupportsNull => byte(3, rest),
        FSharpTyparConstraintModel::IsNonNullableStruct => byte(4, rest),
        FSharpTyparConstraintModel::IsReferenceType => byte(5, rest),
        FSharpTyparConstraintModel::RequiresDefaultConstructor => byte(6, rest),
        FSharpTyparConstraintModel::SimpleChoice(ts) => byte(7, tys(k, t, ts, rest)),
        FSharpTyparConstraintModel::IsEnum(a) => byte(8, t(a, rest)),
        FSharpTyparConstraintModel::IsDelegate(a, b) => byte(9, t(a, t(b, rest))),
        FSharpTyparConstraintModel::SupportsComparison => byte(10, rest),
        FSharpTyparConstraintModel::SupportsEquality => byte(11, rest),
        FSharpTyparConstraintModel::IsUnmanaged => byte(12, rest),
        FSharpTyparConstraintModel::NotSupportsNull => None,
        FSharpTyparConstraintModel::AllowsRefStruct => None,
    }
}

pub proof fn law_constraint(
    k: Setting,
    t: Types,
    w: Walk,
    v: FSharpTyparConstraintModel,
    d: nat,
    rest: Option<Streams>,
) -> (x: Walk)
    requires
        ready(k, w, constraint(k, t, v, rest)),
        reads_types(k, t, d),
    ensures
        leads(typar::tyar_constraint_at(w, d), v, x),
        ready(k, x, rest),
{
    reveal(constraint);
    match v {
        FSharpTyparConstraintModel::CoercesTo(a) => {
            let r1 = t(a, rest);
            let s = law_byte(k, w.tape, 0, r1, "u_tyar_constraint tag");
            let w = Walk { tape: s, ..w };
            lemma_ty(k, t, w, a, d, rest)
        },
        FSharpTyparConstraintModel::DefaultsTo(a) => {
            let r1 = t(a, rest);
            let s = law_byte(k, w.tape, 2, r1, "u_tyar_constraint tag");
            let w = Walk { tape: s, ..w };
            lemma_ty(k, t, w, a, d, rest)
        },
        FSharpTyparConstraintModel::SupportsNull => {
            let s = law_byte(k, w.tape, 3, rest, "u_tyar_constraint tag");
            Walk { tape: s, ..w }
        },
        FSharpTyparConstraintModel::IsNonNullableStruct => {
            let s = law_byte(k, w.tape, 4, rest, "u_tyar_constraint tag");
            Walk { tape: s, ..w }
        },
        FSharpTyparConstraintModel::IsReferenceType => {
            let s = law_byte(k, w.tape, 5, rest, "u_tyar_constraint tag");
            Walk { tape: s, ..w }
        },
        FSharpTyparConstraintModel::RequiresDefaultConstructor => {
            let s = law_byte(k, w.tape, 6, rest, "u_tyar_constraint tag");
            Walk { tape: s, ..w }
        },
        FSharpTyparConstraintModel::SimpleChoice(ts) => {
            let r1 = tys(k, t, ts, rest);
            let s = law_byte(k, w.tape, 7, r1, "u_tyar_constraint tag");
            let w = Walk { tape: s, ..w };
            law_tys(k, t, w, ts, d, rest)
        },
        FSharpTyparConstraintModel::IsEnum(a) => {
            let r1 = t(a, rest);
            let s = law_byte(k, w.tape, 8, r1, "u_tyar_constraint tag");
            let w = Walk { tape: s, ..w };
            lemma_ty(k, t, w, a, d, rest)
        },
        FSharpTyparConstraintModel::IsDelegate(a, b) => {
            let r2 = t(b, rest);
            let r1 = t(a, r2);
            let s = law_byte(k, w.tape, 9, r1, "u_tyar_constraint tag");
            let w = Walk { tape: s, ..w };
            let w = lemma_ty(k, t, w, a, d, r2);
            lemma_ty(k, t, w, b, d, rest)
        },
        FSharpTyparConstraintModel::SupportsComparison => {
            let s = law_byte(k, w.tape, 10, rest, "u_tyar_constraint tag");
            Walk { tape: s, ..w }
        },
        FSharpTyparConstraintModel::SupportsEquality => {
            let s = law_byte(k, w.tape, 11, rest, "u_tyar_constraint tag");
            Walk { tape: s, ..w }
        },
        FSharpTyparConstraintModel::IsUnmanaged => {
            let s = law_byte(k, w.tape, 12, rest, "u_tyar_constraint tag");
            Walk { tape: s, ..w }
        },
        FSharpTyparConstraintModel::NotSupportsNull => {
            lemma_some(k, w.tape, constraint(k, t, v, rest));
            w
        },
        FSharpTyparConstraintModel::AllowsRefStruct => {
            lemma_some(k, w.tape, constraint(k, t, v, rest));
            w
        },
    }
}

/// Constraints of the primary stream, after their number.
#[verifier::opaque]
pub open spec fn primary_constraints(
    k: Setting,
    t: Types,
    v: Seq<FSharpTyparConstraintModel>,
    rest: Option<Streams>,
) -> Option<Streams>
{
    count(v.len(), more_primary_constraints(k, t, v, rest))
}

/// Constraints of the primary stream, without their number.
#[verifier::opaque]
pub open spec fn more_primary_constraints(
    k: Setting,
    t: Types,
    v: Seq<FSharpTyparConstraintModel>,
    rest: Option<Streams>,
) -> Option<Streams>
    decreases v.len(),
{
    if v.len() == 0 {
        rest
    } else {
        constraint(k, t, v[0], more_primary_constraints(k, t, v.drop_first(), rest))
    }
}

pub proof fn law_primary_constraints(
    k: Setting,
    t: Types,
    w: Walk,
    v: Seq<FSharpTyparConstraintModel>,
    d: nat,
    rest: Option<Streams>,
) -> (x: Walk)
    requires
        ready(k, w, primary_constraints(k, t, v, rest)),
        reads_types(k, t, d),
    ensures
        leads(typar::primary_constraints_at(w, d), v, x),
        ready(k, x, rest),
{
    reveal(primary_constraints);
    let more = more_primary_constraints(k, t, v, rest);
    let s = law_count(k, w.tape, v.len(), more, "u_tyar_constraints element");
    let x = law_more_primary_constraints(k, t, Walk { tape: s, ..w }, v, d, Seq::empty(), rest);
    assert(Seq::empty() + v =~= v);
    x
}

pub proof fn law_more_primary_constraints(
    k: Setting,
    t: Types,
    w: Walk,
    v: Seq<FSharpTyparConstraintModel>,
    d: nat,
    acc: Seq<FSharpTyparConstraintModel>,
    rest: Option<Streams>,
) -> (x: Walk)
    requires
        ready(k, w, more_primary_constraints(k, t, v, rest)),
        reads_types(k, t, d),
    ensures
        leads(typar::more_primary_constraints_at(w, v.len(), d, acc), acc + v, x),
        ready(k, x, rest),
    decreases v.len(),
{
    reveal(more_primary_constraints);
    if v.len() == 0 {
        assert(acc + v =~= acc);
        w
    } else {
        let tail = v.drop_first();
        let w = law_constraint(k, t, w, v[0], d, more_primary_constraints(k, t, tail, rest));
        assert(acc.push(v[0]) + tail =~= acc + v);
        law_more_primary_constraints(k, t, w, tail, d, acc.push(v[0]), rest)
    }
}

/// The constraint is one of those that are written to the B stream.
pub open spec fn is_later(v: FSharpTyparConstraintModel) -> bool {
    v is NotSupportsNull || v is AllowsRefStruct
}

/// The tags of constraints in the B stream, one after another.
#[verifier::opaque]
pub open spec fn constraints_b(v: Seq<FSharpTyparConstraintModel>, rest: Option<Streams>) -> Option<
    Streams,
>
    decreases v.len(),
{
    if v.len() == 0 {
        rest
    } else {
        match v[0] {
            FSharpTyparConstraintModel::NotSupportsNull => byte_b(
                1,
                constraints_b(v.drop_first(), rest),
            ),
            FSharpTyparConstraintModel::AllowsRefStruct => byte_b(
                2,
                constraints_b(v.drop_first(), rest),
            ),
            _ => None,
        }
    }
}

proof fn law_constraints_b(
    k: Setting,
    s: Tape,
    v: Seq<FSharpTyparConstraintModel>,
    acc: Seq<FSharpTyparConstraintModel>,
    rest: Option<Streams>,
) -> (t: Tape)
    requires
        at(k, s, constraints_b(v, rest)),
    ensures
        gives(typar::more_constraints_b_at(s, v.len(), acc), acc + v, t),
        at(k, t, rest),
    decreases v.len(),
{
    reveal(constraints_b);
    lemma_some(k, s, constraints_b(v, rest));
    if v.len() == 0 {
        assert(acc + v =~= acc);
        s
    } else {
        let tail = v.drop_first();
        law_byte_b(
            k,
            s,
            if v[0] is NotSupportsNull {
                1
            } else {
                2
            },
            constraints_b(tail, rest),
        );
        assert(acc.push(v[0]) + tail =~= acc + v);
        law_constraints_b(k, reader::skip_b(s), tail, acc.push(v[0]), rest)
    }
}

/// The tags take a byte each.
proof fn lemma_constraints_b_len(v: Seq<FSharpTyparConstraintModel>, rest: Option<Streams>)
    requires
        constraints_b(v, rest) is Some,
    ensures
        constraints_b(v, rest)->0.b.len() >= v.len(),
    decreases v.len(),
{
    reveal(constraints_b);
    if v.len() > 0 {
        lemma_constraints_b_len(v.drop_first(), rest);
    }
}

/// The constraints before those of the B stream at the end.
pub open spec fn earlier(v: Seq<FSharpTyparConstraintModel>) -> Seq<FSharpTyparConstraintModel>
    decreases v.len(),
{
    if v.len() > 0 && is_later(v.last()) {
        earlier(v.drop_last())
    } else {
        v
    }
}

proof fn lemma_earlier(v: Seq<FSharpTyparConstraintModel>)
    ensures
        earlier(v).len() <= v.len(),
        earlier(v) == v.take(earlier(v).len() as int),
    decreases v.len(),
{
    if v.len() > 0 && is_later(v.last()) {
        lemma_earlier(v.drop_last());
        assert(earlier(v) =~= v.take(earlier(v).len() as int));
    } else {
        assert(v.take(v.len() as int) =~= v);
    }
}

/// The constraints of a type parameter: those of the primary stream after their number,
/// and at the end of the list those of the B stream after theirs.
#[verifier::opaque]
pub open spec fn constraints(
    k: Setting,
    t: Types,
    v: Seq<FSharpTyparConstraintModel>,
    rest: Option<Streams>,
) -> Option<Streams>
{
    let later = v.skip(earlier(v).len() as int);
    if later.len() <= u32::MAX {
        primary_constraints(
            k,
            t,
            earlier(v),
            uint32_b(later.len() as u32, constraints_b(later, rest)),
        )
    } else {
        None
    }
}

#[verifier::spinoff_prover]
#[verifier::rlimit(60)]
pub proof fn law_constraints(
    k: Setting,
    t: Types,
    w: Walk,
    v: Seq<FSharpTyparConstraintModel>,
    d: nat,
    rest: Option<Streams>,
) -> (x: Walk)
    requires
        ready(k, w, constraints(k, t, v, rest)),
        reads_types(k, t, d),
    ensures
        leads(typar::tyar_constraints_at(w, d), v, x),
        ready(k, x, rest),
{
    reveal(constraints);
    lemma_some(k, w.tape, constraints(k, t, v, rest));
    lemma_earlier(v);
    let later = v.skip(earlier(v).len() as int);
    let n = later.len() as u32;
    let r1 = constraints_b(later, rest);
    let w = law_primary_constraints(k, t, w, earlier(v), d, uint32_b(n, r1));
    let s = law_uint32_b(k, w.tape, n, r1);
    lemma_some(k, s, r1);
    lemma_constraints_b_len(later, rest);
    assert(earlier(v) + later =~= v);
    let s = law_constraints_b(k, s, later, earlier(v), rest);
    Walk { tape: s, ..w }
}

/// The declaration of a type parameter.
#[verifier::opaque]
pub open spec fn typar_data(
    k: Setting,
    t: Types,
    v: PickledTyparSpecDataModel,
    rest: Option<Streams>,
) -> Option<Streams>
{
    ident(
        k,
        v.ident,
        attribs(
            k,
            t,
            v.attribs,
            int64(v.flags, constraints(k, t, v.constraints, xmldoc(k, v.xmldoc, rest))),
        ),
    )
}

#[verifier::spinoff_prover]
#[verifier::rlimit(60)]
pub proof fn law_typar_data(
    k: Setting,
    t: Types,
    w: Walk,
    v: PickledTyparSpecDataModel,
    d: nat,
    rest: Option<Streams>,
) -> (x: Walk)
    requires
        ready(k, w, typar_data(k, t, v, rest)),
        reads_types(k, t, d),
    ensures
        leads(typar::tyar_spec_data_at(w, d), v, x),
        ready(k, x, rest),
{
    reveal(typar_data);
    let r4 = xmldoc(k, v.xmldoc, rest);
    let r3 = constraints(k, t, v.constraints, r4);
    let r2 = int64(v.flags, r3);
    let r1 = attribs(k, t, v.attribs, r2);
    let s = law_ident(k, w.tape, v.ident, r1);
    let w = Walk { tape: s, ..w };
    let w = law_attribs(k, t, w, v.attribs, d, r2);
    let s = law_int64(k, w.tape, v.flags, r3, "u_tyar_spec_data flags");
    let w = Walk { tape: s, ..w };
    let w = law_constraints(k, t, w, v.constraints, d, r4);
    let s = law_xmldoc(k, w.tape, v.xmldoc, rest);
    Walk { tape: s, ..w }
}

/// A type parameter: its stamp, then the declaration that the pickle has under it.
#[verifier::opaque]
pub open spec fn typar(k: Setting, t: Types, v: u32, rest: Option<Streams>) -> Option<Streams> {
    stamp(v, k.typars.len(), typar_data(k, t, k.typars[v as int], rest))
}

/// A type parameter is read back, and its declaration is under its stamp afterwards.
pub proof fn law_typar(
    k: Setting,
    t: Types,
    w: Walk,
    v: u32,
    d: nat,
    rest: Option<Streams>,
) -> (x: Walk)
    requires
        ready(k, w, typar(k, t, v, rest)),
        reads_types(k, t, d),
    ensures
        leads(typar::tyar_spec_at(w, d), v, x),
        ready(k, x, rest),
        v < k.typars.len(),
        x.typars[v as int] == Some(k.typars[v as int]),
{
    reveal(typar);
    reveal(linked);
    let r1 = typar_data(k, t, k.typars[v as int], rest);
    let s = law_stamp(
        k,
        w.tape,
        v,
        k.typars.len(),
        r1,
        "u_tyar_spec osgn index",
        "typars",
    );
    let w = law_typar_data(k, t, Walk { tape: s, ..w }, k.typars[v as int], d, rest);
    let slots = w.typars.update(v as int, Some(k.typars[v as int]));
    assert(w.typars[v as int] is Some ==> slots =~= w.typars);
    Walk { typars: slots, ..w }
}

/// Type parameters, after their number.
#[verifier::opaque]
pub open spec fn typars(
    k: Setting,
    t: Types,
    v: Seq<u32>,
    rest: Option<Streams>,
) -> Option<Streams>
{
    count(v.len(), more_typars(k, t, v, rest))
}

/// Type parameters, without their number.
#[verifier::opaque]
pub open spec fn more_typars(
    k: Setting,
    t: Types,
    v: Seq<u32>,
    rest: Option<Streams>,
) -> Option<Streams>
    decreases v.len(),
{
    if v.len() == 0 {
        rest
    } else {
        typar(k, t, v[0], more_typars(k, t, v.drop_first(), rest))
    }
}

pub proof fn law_typars(
    k: Setting,
    t: Types,
    w: Walk,
    v: Seq<u32>,
    d: nat,
    rest: Option<Streams>,
) -> (x: Walk)
    requires
        ready(k, w, typars(k, t, v, rest)),
        reads_types(k, t, d),
    ensures
        leads(typar::tyar_specs_at(w, d), v, x),
        ready(k, x, rest),
{
    reveal(typars);
    let more = more_typars(k, t, v, rest);
    let s = law_count(k, w.tape, v.len(), more, "u_tyar_specs element");
    let x = law_more_typars(k, t, Walk { tape: s, ..w }, v, d, Seq::empty(), rest);
    assert(Seq::empty() + v =~= v);
    x
}

/// The next of a list of type parameters.
#[verifier::spinoff_prover]
#[verifier::rlimit(30)]
proof fn lemma_next_typar(
    k: Setting,
    t: Types,
    w: Walk,
    v: u32,
    n: nat,
    d: nat,
    acc: Seq<u32>,
    rest: Option<Streams>,
) -> (x: Walk)
    requires
        ready(k, w, typar(k, t, v, rest)),
        reads_types(k, t, d),
        n > 0,
    ensures
        typar::more_tyar_specs_at(w, n, d, acc) == typar::more_tyar_specs_at(
            x,
            (n - 1) as nat,
            d,
            acc.push(v),
        ),
        ready(k, x, rest),
{
    law_typar(k, t, w, v, d, rest)
}

pub proof fn law_more_typars(
    k: Setting,
    t: Types,
    w: Walk,
    v: Seq<u32>,
    d: nat,
    acc: Seq<u32>,
    rest: Option<Streams>,
) -> (x: Walk)
    requires
        ready(k, w, more_typars(k, t, v, rest)),
        reads_types(k, t, d),
    ensures
        leads(typar::more_tyar_specs_at(w, v.len(), d, acc), acc + v, x),
        ready(k, x, rest),
    decreases v.len(),
{
    reveal(more_typars);
    if v.len() == 0 {
        assert(acc + v =~= acc);
        w
    } else {
        let tail = v.drop_first();
        let w = lemma_next_typar(
            k,
            t,
            w,
            v[0],
            v.len(),
            d,
            acc,
            more_typars(k, t, tail, rest),
        );
        assert(acc.push(v[0]) + tail =~= acc + v);
        law_more_typars(k, t, w, tail, d, acc.push(v[0]), rest)
    }
}

/// A type: a tag byte, for some forms its nullness in the B stream, then its parts.
#[verifier::opaque]
pub open spec fn ty_body(
    k: Setting,
    t: Types,
    v: PickledTypeModel,
    d: nat,
    rest: Option<Streams>,
) -> Option<Streams>
{
    match v {
        PickledTypeModel::Tuple { kind: TupleKind::Reference, elems } => byte(
            0,
            tys(k, t, elems, rest),
        ),
        PickledTypeModel::Tuple { kind: TupleKind::Struct, elems } => byte(
            8,
            tys(k, t, elems, rest),
        ),
        PickledTypeModel::AppSimple { simpletyp_index, nullness } => byte(
            1,
            byte_b(nullness_tag(k, nullness, 9), stamp(simpletyp_index, k.simpletys, rest)),
        ),
        PickledTypeModel::App { tcref: c, args, nullness } => byte(
            2,
            byte_b(nullness_tag(k, nullness, 12), tcref(k, c, tys(k, t, args, rest))),
        ),
        PickledTypeModel::Fun { domain, range, nullness } => byte(
            3,
            byte_b(nullness_tag(k, nullness, 15), t(*domain, t(*range, rest))),
        ),
        PickledTypeModel::Var { typar_index, nullness } => byte(
            4,
            byte_b(nullness_tag(k, nullness, 18), tpref(k, typar_index, rest)),
        ),
        PickledTypeModel::Forall { typars: ts, body } => byte(
            5,
            typars(k, t, ts, t(*body, rest)),
        ),
        PickledTypeModel::Measure(m) => byte(6, measures_at(k, d)(m, rest)),
        PickledTypeModel::UCase { ucref: u, args } => byte(
            7,
            ucref(k, u, tys(k, t, args, rest)),
        ),
    }
}

#[verifier::spinoff_prover]
#[verifier::rlimit(60)]
pub proof fn law_ty_body(
    k: Setting,
    t: Types,
    w: Walk,
    v: PickledTypeModel,
    d: nat,
    rest: Option<Streams>,
) -> (x: Walk)
    requires
        ready(k, w, ty_body(k, t, v, d, rest)),
        reads_types(k, t, d),
    ensures
        leads(types::ty_body_at(w, d), v, x),
        ready(k, x, rest),
{
    reveal(ty_body);
    reveal(types::ty_body_at);
    match v {
        PickledTypeModel::Tuple { kind: TupleKind::Reference, elems } => {
            let r1 = tys(k, t, elems, rest);
            let s = law_byte(k, w.tape, 0, r1, "u_ty tag");
            let w = Walk { tape: s, ..w };
            law_tys(k, t, w, elems, d, rest)
        },
        PickledTypeModel::Tuple { kind: TupleKind::Struct, elems } => {
            let r1 = tys(k, t, elems, rest);
            let s = law_byte(k, w.tape, 8, r1, "u_ty tag");
            let w = Walk { tape: s, ..w };
            law_tys(k, t, w, elems, d, rest)
        },
        PickledTypeModel::AppSimple { simpletyp_index, nullness } => {
            let r2 = stamp(simpletyp_index, k.simpletys, rest);
            let r1 = byte_b(nullness_tag(k, nullness, 9), r2);
            let s = law_byte(k, w.tape, 1, r1, "u_ty tag");
            let w = Walk { tape: s, ..w };
            law_byte_b(k, w.tape, nullness_tag(k, nullness, 9), r2);
            let w = types::after_b(w);
            let s = law_bounded(
                k,
                w.tape,
                simpletyp_index,
                k.simpletys,
                rest,
                "u_simpletyp index",
            );
            Walk { tape: s, ..w }
        },
        PickledTypeModel::App { tcref: c, args, nullness } => {
            let r3 = tys(k, t, args, rest);
            let r2 = tcref(k, c, r3);
            let r1 = byte_b(nullness_tag(k, nullness, 12), r2);
            let s = law_byte(k, w.tape, 2, r1, "u_ty tag");
            let w = Walk { tape: s, ..w };
            law_byte_b(k, w.tape, nullness_tag(k, nullness, 12), r2);
            let w = types::after_b(w);
            let w = law_tcref(k, w, c, r3);
            law_tys(k, t, w, args, d, rest)
        },
        PickledTypeModel::Fun { domain, range, nullness } => {
            let r3 = t(*range, rest);
            let r2 = t(*domain, r3);
            let r1 = byte_b(nullness_tag(k, nullness, 15), r2);
            let s = law_byte(k, w.tape, 3, r1, "u_ty tag");
            let w = Walk { tape: s, ..w };
            law_byte_b(k, w.tape, nullness_tag(k, nullness, 15), r2);
            let w = types::after_b(w);
            let w = lemma_ty(k, t, w, *domain, d, r3);
            lemma_ty(k, t, w, *range, d, rest)
        },
        PickledTypeModel::Var { typar_index, nullness } => {
            let r2 = tpref(k, typar_index, rest);
            let r1 = byte_b(nullness_tag(k, nullness, 18), r2);
            let s = law_byte(k, w.tape, 4, r1, "u_ty tag");
            let w = Walk { tape: s, ..w };
            law_byte_b(k, w.tape, nullness_tag(k, nullness, 18), r2);
            let w = types::after_b(w);
            law_tpref(k, w, typar_index, rest)
        },
        PickledTypeModel::Forall { typars: ts, body } => {
            let r2 = t(*body, rest);
            let r1 = typars(k, t, ts, r2);
            let s = law_byte(k, w.tape, 5, r1, "u_ty tag");
            let w = Walk { tape: s, ..w };
            let w = law_typars(k, t, w, ts, d, r2);
            lemma_ty(k, t, w, *body, d, rest)
        },
        PickledTypeModel::Measure(m) => {
            let r1 = measures_at(k, d)(m, rest);
            let s = law_byte(k, w.tape, 6, r1, "u_ty tag");
            let w = Walk { tape: s, ..w };
            law_measures(k, d);
            lemma_measure(k, measures_at(k, d), w, m, d, rest)
        },
        PickledTypeModel::UCase { ucref: u, args } => {
            let r2 = tys(k, t, args, rest);
            let r1 = ucref(k, u, r2);
            let s = law_byte(k, w.tape, 7, r1, "u_ty tag");
            let w = Walk { tape: s, ..w };
            let w = law_ucref(k, w, u, r2);
            law_tys(k, t, w, args, d, rest)
        },
    }
}

/// How types are written at the depth `d`: a level below it.
#[verifier::opaque]
pub open spec fn types_at(k: Setting, d: nat) -> Types
    decreases MAX_RECURSION_DEPTH - d,
{
    if d < MAX_RECURSION_DEPTH {
        let inner = types_at(k, d + 1);
        |v: PickledTypeModel, r: Option<Streams>| ty_body(k, inner, v, d + 1, r)
    } else {
        |v: PickledTypeModel, r: Option<Streams>| None
    }
}

/// A type is what is read one level further down.
#[verifier::spinoff_prover]
proof fn lemma_level(w: Walk, v: PickledTypeModel, d: nat, x: Walk)
    requires
        d < MAX_RECURSION_DEPTH,
        leads(types::ty_body_at(types::with_depth(w, d + 1), d + 1), v, x),
    ensures
        leads(types::ty_at(w, d), v, types::with_depth(x, d)),
{
    reveal(types::ty_body_at);
}

/// Types are read back as they were written.
pub proof fn law_types(k: Setting, d: nat)
    ensures
        reads_types(k, types_at(k, d), d),
    decreases MAX_RECURSION_DEPTH - d,
{
    reveal(types_at);
    reveal(reads_types);
    let t = types_at(k, d);
    let inner = types_at(k, d + 1);
    if d < MAX_RECURSION_DEPTH {
        law_types(k, d + 1);
    }
    assert forall|w: Walk, v: PickledTypeModel, rest: Option<Streams>| #[trigger]
        ready(k, w, t(v, rest)) implies exists|x: Walk|
        #![trigger ready(k, x, rest)]
        leads(types::ty_at(w, d), v, x) && ready(k, x, rest) by {
        lemma_some(k, w.tape, t(v, rest));
        assert(t(v, rest) == ty_body(k, inner, v, d + 1, rest));
        lemma_depth(k, w, t(v, rest), d + 1);
        let x = law_ty_body(k, inner, types::with_depth(w, d + 1), v, d + 1, rest);
        lemma_depth(k, x, rest, d);
        lemma_level(w, v, d, x);
    }
}

} // verus!
