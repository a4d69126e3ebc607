//! The pickle format from the side of its writer: references, units of measure and lists
//! of types.
//!
//! Types nest, so what holds types is written with the writer of the types one level
//! further down.
use crate::fsharp_pickle::measure;
use crate::fsharp_pickle::model::{
    Measure, Nullness, PickledTcRef, PickledTypeModel, PickledUCaseRef,
};
use crate::fsharp_pickle::osgn::{Walk, Walked};
use crate::fsharp_pickle::reader;
use crate::fsharp_pickle::reader::{MAX_RECURSION_DEPTH, Tape};
use crate::fsharp_pickle::types;
use crate::fsharp_pickle::writing::{
    at, byte, count, gives, int32, law_byte, law_count, law_int32, law_stamp, law_uint32,
    lemma_some, linked, ready, stamp, uint32, Setting, Streams,
};
use vstd::prelude::*;

verus! {

/// The decoder gives `v` and leaves `x`.
pub open spec fn leads<V>(r: Walked<V>, v: V, x: Walk) -> bool {
    r is Ok && r->Ok_0.0 == v && r->Ok_0.1 == x
}

/// The B tag of a nullness: one of three in a row, or `0` where the writer leaves
/// ambivalence unannotated.
pub open spec fn nullness_tag(k: Setting, v: Nullness, with_null: int) -> u8 {
    match v {
        Nullness::WithNull => with_null as u8,
        Nullness::WithoutNull => (with_null + 1) as u8,
        Nullness::Ambivalent => if k.annotated {
            (with_null + 2) as u8
        } else {
            0
        },
    }
}

/// A reference to an entity: its stamp, or its index among the non-local ones.
#[verifier::opaque]
pub open spec fn tcref(
    k: Setting,
    v: PickledTcRef,
    rest: Option<Streams>,
) -> Option<Streams>
{
    match v {
        PickledTcRef::Local(i) => byte(0, stamp(i, k.tycons, rest)),
        PickledTcRef::NonLocal(i) => byte(1, stamp(i, k.nlerefs, rest)),
    }
}

pub proof fn law_tcref(
    k: Setting,
    w: Walk,
    v: PickledTcRef,
    rest: Option<Streams>,
) -> (x: Walk)
    requires
        ready(k, w, tcref(k, v, rest)),
    ensures
        leads(types::tcref_at(w), v, x),
        ready(k, x, rest),
{
    reveal(tcref);
    match v {
        PickledTcRef::Local(i) => {
            let r1 = stamp(i, k.tycons, rest);
            let s = law_byte(k, w.tape, 0, r1, "u_tcref tag");
            let w = Walk { tape: s, ..w };
            let s = law_stamp(
                k,
                w.tape,
                i,
                k.tycons,
                rest,
                "u_tcref entity-osgn index",
                "tycons",
            );
            Walk { tape: s, ..w }
        },
        PickledTcRef::NonLocal(i) => {
            let r1 = stamp(i, k.nlerefs, rest);
            let s = law_byte(k, w.tape, 1, r1, "u_tcref tag");
            let w = Walk { tape: s, ..w };
            let s = law_bounded(k, w.tape, i, k.nlerefs, rest, "u_tcref nleref-index");
            Walk { tape: s, ..w }
        },
    }
}

/// A number below a bound.
pub proof fn law_bounded(
    k: Setting,
    s: Tape,
    v: u32,
    len: nat,
    rest: Option<Streams>,
    context: &'static str,
) -> (t: Tape)
    requires
        at(k, s, stamp(v, len, rest)),
    ensures
        v < len,
        gives(reader::uint32_at(s, context), v, t),
        at(k, t, rest),
{
    lemma_some(k, s, stamp(v, len, rest));
    law_uint32(k, s, v, rest, context)
}

/// A reference to a union case: its type, then the string index of its name.
#[verifier::opaque]
pub open spec fn ucref(
    k: Setting,
    v: PickledUCaseRef,
    rest: Option<Streams>,
) -> Option<Streams>
{
    tcref(k, v.tcref, uint32(v.case_name_index, rest))
}

pub proof fn law_ucref(
    k: Setting,
    w: Walk,
    v: PickledUCaseRef,
    rest: Option<Streams>,
) -> (x: Walk)
    requires
        ready(k, w, ucref(k, v, rest)),
    ensures
        leads(types::ucref_at(w), v, x),
        ready(k, x, rest),
{
    reveal(ucref);
    let r1 = uint32(v.case_name_index, rest);
    let w = law_tcref(k, w, v.tcref, r1);
    let s = law_uint32(k, w.tape, v.case_name_index, rest, "u_ucref case-name string-index");
    Walk { tape: s, ..w }
}

/// A reference to a type parameter: its stamp.
#[verifier::opaque]
pub open spec fn tpref(
    k: Setting,
    v: u32,
    rest: Option<Streams>,
) -> Option<Streams>
{
    stamp(v, k.typars.len(), rest)
}

pub proof fn law_tpref(
    k: Setting,
    w: Walk,
    v: u32,
    rest: Option<Streams>,
) -> (x: Walk)
    requires
        ready(k, w, tpref(k, v, rest)),
    ensures
        leads(types::tpref_at(w), v, x),
        ready(k, x, rest),
{
    reveal(tpref);
    reveal(linked);
    let s = law_stamp(k, w.tape, v, k.typars.len(), rest, "u_tpref typar-osgn index", "typars");
    Walk { tape: s, ..w }
}

/// How the parts of a unit of measure are written.
pub type Measures = spec_fn(Measure, Option<Streams>) -> Option<Streams>;

/// What `m` writes is read back at the depth `d`.
#[verifier::opaque]
pub open spec fn reads_measures(k: Setting, m: Measures, d: nat) -> bool {
    forall|w: Walk, v: Measure, rest: Option<Streams>| #[trigger]
        ready(k, w, m(v, rest)) ==> exists|x: Walk|
            #![trigger ready(k, x, rest)]
            leads(measure::measure_at(w, d), v, x) && ready(k, x, rest)
}

pub proof fn lemma_measure(
    k: Setting,
    m: Measures,
    w: Walk,
    v: Measure,
    d: nat,
    rest: Option<Streams>,
) -> (x: Walk)
    requires
        ready(k, w, m(v, rest)),
        reads_measures(k, m, d),
    ensures
        leads(measure::measure_at(w, d), v, x),
        ready(k, x, rest),
{
    reveal(reads_measures);
    measure::measure_at(w, d)->Ok_0.1
}

/// How types inside of something are written.
pub type Types = spec_fn(PickledTypeModel, Option<Streams>) -> Option<Streams>;

/// What `t` writes is read back at the depth `d`.
#[verifier::opaque]
pub open spec fn reads_types(k: Setting, t: Types, d: nat) -> bool {
    forall|w: Walk, v: PickledTypeModel, rest: Option<Streams>| #[trigger]
        ready(k, w, t(v, rest)) ==> exists|x: Walk|
            #![trigger ready(k, x, rest)]
            leads(types::ty_at(w, d), v, x) && ready(k, x, rest)
}

pub proof fn lemma_ty(
    k: Setting,
    t: Types,
    w: Walk,
    v: PickledTypeModel,
    d: nat,
    rest: Option<Streams>,
) -> (x: Walk)
    requires
        ready(k, w, t(v, rest)),
        reads_types(k, t, d),
    ensures
        leads(types::ty_at(w, d), v, x),
        ready(k, x, rest),
{
    reveal(reads_types);
    types::ty_at(w, d)->Ok_0.1
}

/// A unit of measure: a tag byte, then its parts.
#[verifier::opaque]
pub open spec fn measure_body(
    k: Setting,
    m: Measures,
    v: Measure,
    rest: Option<Streams>,
) -> Option<Streams>
{
    match v {
        Measure::Const(c) => byte(0, tcref(k, c, rest)),
        Measure::Inv(a) => byte(1, m(*a, rest)),
        Measure::Prod(a, b) => byte(2, m(*a, m(*b, rest))),
        Measure::Var(i) => byte(3, tpref(k, i, rest)),
        Measure::One => byte(4, rest),
        Measure::RationalPower { base, numerator, denominator } => byte(
            5,
            m(*base, int32(numerator, int32(denominator, rest))),
        ),
    }
}

pub proof fn law_measure_body(
    k: Setting,
    m: Measures,
    w: Walk,
    v: Measure,
    d: nat,
    rest: Option<Streams>,
) -> (x: Walk)
    requires
        ready(k, w, measure_body(k, m, v, rest)),
        reads_measures(k, m, d),
    ensures
        leads(measure::measure_body_at(w, d), v, x),
        ready(k, x, rest),
{
    reveal(measure_body);
    match v {
        Measure::Const(c) => {
            let r1 = tcref(k, c, rest);
            let s = law_byte(k, w.tape, 0, r1, "u_measure_expr tag");
            let w = Walk { tape: s, ..w };
            law_tcref(k, w, c, rest)
        },
        Measure::Inv(a) => {
            let r1 = m(*a, rest);
            let s = law_byte(k, w.tape, 1, r1, "u_measure_expr tag");
            let w = Walk { tape: s, ..w };
            lemma_measure(k, m, w, *a, d, rest)
        },
        Measure::Prod(a, b) => {
            let r2 = m(*b, rest);
            let r1 = m(*a, r2);
            let s = law_byte(k, w.tape, 2, r1, "u_measure_expr tag");
            let w = Walk { tape: s, ..w };
            let w = lemma_measure(k, m, w, *a, d, r2);
            lemma_measure(k, m, w, *b, d, rest)
        },
        Measure::Var(i) => {
            let r1 = tpref(k, i, rest);
            let s = law_byte(k, w.tape, 3, r1, "u_measure_expr tag");
            let w = Walk { tape: s, ..w };
            law_tpref(k, w, i, rest)
        },
        Measure::One => {
            let s = law_byte(k, w.tape, 4, rest, "u_measure_expr tag");
            Walk { tape: s, ..w }
        },
        Measure::RationalPower { base, numerator, denominator } => {
            let r3 = int32(denominator, rest);
            let r2 = int32(numerator, r3);
            let r1 = m(*base, r2);
            let s = law_byte(k, w.tape, 5, r1, "u_measure_expr tag");
            let w = Walk { tape: s, ..w };
            let w = lemma_measure(k, m, w, *base, d, r2);
            let s = law_int32(k, w.tape, numerator, r3, "u_rational numerator");
            let w = Walk { tape: s, ..w };
            let s = law_int32(k, w.tape, denominator, rest, "u_rational denominator");
            Walk { tape: s, ..w }
        },
    }
}

/// How units of measure are written at the depth `d`: a level below it.
#[verifier::opaque]
pub open spec fn measures_at(k: Setting, d: nat) -> Measures
    decreases MAX_RECURSION_DEPTH - d,
{
    if d < MAX_RECURSION_DEPTH {
        let inner = measures_at(k, d + 1);
        |v: Measure, r: Option<Streams>| measure_body(k, inner, v, r)
    } else {
        |v: Measure, r: Option<Streams>| None
    }
}

/// Units of measure are read back as they were written.
pub proof fn law_measures(k: Setting, d: nat)
    ensures
        reads_measures(k, measures_at(k, d), d),
    decreases MAX_RECURSION_DEPTH - d,
{
    reveal(measures_at);
    reveal(reads_measures);
    let m = measures_at(k, d);
    let inner = measures_at(k, d + 1);
    if d < MAX_RECURSION_DEPTH {
        law_measures(k, d + 1);
    }
    assert forall|w: Walk, v: Measure, rest: Option<Streams>| #[trigger]
        ready(k, w, m(v, rest)) implies exists|x: Walk|
        #![trigger ready(k, x, rest)]
        leads(measure::measure_at(w, d), v, x) && ready(k, x, rest) by {
        lemma_some(k, w.tape, m(v, rest));
        assert(m(v, rest) == measure_body(k, inner, v, rest));
        lemma_depth(k, w, m(v, rest), d + 1);
        let x = law_measure_body(k, inner, types::with_depth(w, d + 1), v, d + 1, rest);
        lemma_depth(k, x, rest, d);
        assert(leads(measure::measure_at(w, d), v, types::with_depth(x, d)));
    }
}

/// The recorded depth does not matter.
pub proof fn lemma_depth(k: Setting, w: Walk, rest: Option<Streams>, d: nat)
    requires
        ready(k, w, rest),
    ensures
        ready(k, types::with_depth(w, d), rest),
{
    reveal(at);
}

/// Types, after their number.
#[verifier::opaque]
pub open spec fn tys(
    k: Setting,
    t: Types,
    v: Seq<PickledTypeModel>,
    rest: Option<Streams>,
) -> Option<Streams>
{
    count(v.len(), more_tys(k, t, v, rest))
}

/// Types, without their number.
#[verifier::opaque]
pub open spec fn more_tys(
    k: Setting,
    t: Types,
    v: Seq<PickledTypeModel>,
    rest: Option<Streams>,
) -> Option<Streams>
    decreases v.len(),
{
    if v.len() == 0 {
        rest
    } else {
        t(v[0], more_tys(k, t, v.drop_first(), rest))
    }
}

pub proof fn law_tys(
    k: Setting,
    t: Types,
    w: Walk,
    v: Seq<PickledTypeModel>,
    d: nat,
    rest: Option<Streams>,
) -> (x: Walk)
    requires
        ready(k, w, tys(k, t, v, rest)),
        reads_types(k, t, d),
    ensures
        leads(types::tys_at(w, d), v, x),
        ready(k, x, rest),
{
    reveal(tys);
    let more = more_tys(k, t, v, rest);
    let s = law_count(k, w.tape, v.len(), more, "u_tys element");
    let x = law_more_tys(k, t, Walk { tape: s, ..w }, v, d, Seq::empty(), rest);
    assert(Seq::empty() + v =~= v);
    x
}

pub proof fn law_more_tys(
    k: Setting,
    t: Types,
    w: Walk,
    v: Seq<PickledTypeModel>,
    d: nat,
    acc: Seq<PickledTypeModel>,
    rest: Option<Streams>,
) -> (x: Walk)
    requires
        ready(k, w, more_tys(k, t, v, rest)),
        reads_types(k, t, d),
    ensures
        leads(types::more_tys_at(w, v.len(), d, acc), acc + v, x),
        ready(k, x, rest),
    decreases v.len(),
{
    reveal(more_tys);
    if v.len() == 0 {
        assert(acc + v =~= acc);
        w
    } else {
        let tail = v.drop_first();
        let w = lemma_ty(k, t, w, v[0], d, more_tys(k, t, tail, rest));
        assert(acc.push(v[0]) + tail =~= acc + v);
        law_more_tys(k, t, w, tail, d, acc.push(v[0]), rest)
    }
}

/// A type that may be absent.
#[verifier::opaque]
pub open spec fn option_ty(
    k: Setting,
    t: Types,
    v: Option<PickledTypeModel>,
    rest: Option<Streams>,
) -> Option<Streams> {
    match v {
        None => byte(0, rest),
        Some(a) => byte(1, t(a, rest)),
    }
}

pub proof fn law_option_ty(
    k: Setting,
    t: Types,
    w: Walk,
    v: Option<PickledTypeModel>,
    d: nat,
    rest: Option<Streams>,
    context: &'static str,
) -> (x: Walk)
    requires
        ready(k, w, option_ty(k, t, v, rest)),
        reads_types(k, t, d),
    ensures
        leads(types::option_ty_at(w, context, d), v, x),
        ready(k, x, rest),
{
    reveal(option_ty);
    match v {
        None => {
            let s = law_byte(k, w.tape, 0, rest, context);
            Walk { tape: s, ..w }
        },
        Some(a) => {
            let s = law_byte(k, w.tape, 1, t(a, rest), context);
            lemma_ty(k, t, Walk { tape: s, ..w }, a, d, rest)
        },
    }
}

} // verus!
