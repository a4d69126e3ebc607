//! The pickle format from the side of its writer: fields, union cases and the
//! representations of types.
use crate::fsharp_pickle::attribute_writing::{
    attribs, law_attribs, law_more_attribs, law_vref, more_attribs, vref,
};
use crate::fsharp_pickle::model::{
    PickledAttributeModel, PickledExnReprModel, PickledRecdFieldModel,
    PickledTyconObjModelDataModel, PickledTyconObjModelKindModel, PickledTyconReprClosureModel,
    PickledTyconReprModel, PickledUnionCaseModel, PickledVRefModel, PickledXmlDocModel,
};
use crate::fsharp_pickle::osgn::Walk;
use crate::fsharp_pickle::repr;
use crate::fsharp_pickle::typar_writing::{law_types, types_at};
use crate::fsharp_pickle::type_writing::{law_tcref, leads, lemma_ty, reads_types, tcref, Types};
use crate::fsharp_pickle::value_writing::{law_option_literal, law_slotsig, option_literal, slotsig};
use crate::fsharp_pickle::writing::{
    access, at_end, beginning, boolean, byte, count, ident, il_type, il_type_ref, law_access,
    law_boolean, law_byte, law_count, law_ident, law_il_type, law_il_type_ref, law_string,
    law_uint32, law_xmldoc, lemma_beginning, lemma_end, lemma_some, nothing, ready, string, uint32,
    xmldoc, Setting, Streams,
};
use vstd::prelude::*;

verus! {

/// Documentation that may be absent and attributes: a length whose high bit announces
/// the documentation, the documentation, the attributes.
#[verifier::opaque]
pub open spec fn attribs_ext(
    k: Setting,
    t: Types,
    v: (Option<PickledXmlDocModel>, Seq<PickledAttributeModel>),
    rest: Option<Streams>,
) -> Option<Streams> {
    let more = more_attribs(k, t, v.1, rest);
    if more is Some && v.1.len() < 0x8000_0000 && v.1.len() <= more->0.a.len() {
        match v.0 {
            None => uint32(v.1.len() as u32, more),
            Some(doc) => uint32((0x8000_0000 + v.1.len()) as u32, xmldoc(k, doc, more)),
        }
    } else {
        None
    }
}

/// The documentation is read where the high bit announces it.
proof fn lemma_ext_doc(
    k: Setting,
    w: Walk,
    v: Option<PickledXmlDocModel>,
    n: u32,
    more: Option<Streams>,
) -> (x: Walk)
    requires
        v is None ==> n < 0x8000_0000 && ready(k, w, more),
        v is Some ==> n >= 0x8000_0000 && ready(k, w, xmldoc(k, v->0, more)),
    ensures
        leads(repr::ext_doc_at(w, n), v, x),
        ready(k, x, more),
{
    reveal(repr::ext_doc_at);
    match v {
        None => w,
        Some(doc) => {
            let s = law_xmldoc(k, w.tape, doc, more);
            Walk { tape: s, ..w }
        },
    }
}

#[verifier::spinoff_prover]
#[verifier::rlimit(60)]
pub proof fn law_attribs_ext(
    k: Setting,
    t: Types,
    w: Walk,
    v: (Option<PickledXmlDocModel>, Seq<PickledAttributeModel>),
    d: nat,
    rest: Option<Streams>,
    context: &'static str,
) -> (x: Walk)
    requires
        ready(k, w, attribs_ext(k, t, v, rest)),
        reads_types(k, t, d),
    ensures
        leads(repr::attribs_ext_at(w, context, d), v, x),
        ready(k, x, rest),
{
    reveal(attribs_ext);
    reveal(repr::attribs_ext_at);
    lemma_some(k, w.tape, attribs_ext(k, t, v, rest));
    let more = more_attribs(k, t, v.1, rest);
    let n = (if v.0 is None {
        v.1.len()
    } else {
        0x8000_0000 + v.1.len()
    }) as u32;
    let after = if v.0 is None {
        more
    } else {
        xmldoc(k, v.0->0, more)
    };
    let s = law_uint32(k, w.tape, n, after, context);
    let w = lemma_ext_doc(k, Walk { tape: s, ..w }, v.0, n, more);
    lemma_some(k, w.tape, more);
    assert(n % 0x8000_0000 == v.1.len());
    assert(Seq::empty() + v.1 =~= v.1);
    law_more_attribs(k, t, w, v.1, d, Seq::empty(), rest)
}

/// A field: whether it is mutable, whether it is volatile, its type, whether it is static,
/// whether it is secret, its constant, its name, the documentation and the attributes of its
/// property, its own attributes, the signature of its documentation, its accessibility.
#[verifier::opaque]
pub open spec fn recdfield(
    k: Setting,
    t: Types,
    v: PickledRecdFieldModel,
    rest: Option<Streams>,
) -> Option<Streams>
{
    boolean(
        v.is_mutable,
        boolean(
            v.is_volatile,
            t(
                v.ty,
                boolean(
                    v.is_static,
                    boolean(
                        v.is_secret,
                        option_literal(
                            k,
                            v.literal_value,
                            ident(
                                k,
                                v.ident,
                                attribs_ext(
                                    k,
                                    t,
                                    (v.xmldoc, v.property_attribs),
                                    attribs(
                                        k,
                                        t,
                                        v.field_attribs,
                                        string(k, v.xmldoc_sig, access(k, v.access, rest)),
                                    ),
                                ),
                            ),
                        ),
                    ),
                ),
            ),
        ),
    )
}

/// A field is read back as it was written, in every component.
#[verifier::spinoff_prover]
#[verifier::rlimit(60)]
pub proof fn law_recdfield(
    k: Setting,
    t: Types,
    w: Walk,
    v: PickledRecdFieldModel,
    d: nat,
    rest: Option<Streams>,
) -> (x: Walk)
    requires
        ready(k, w, recdfield(k, t, v, rest)),
        reads_types(k, t, d),
    ensures
        leads(repr::recdfield_spec_at(w, d), v, x),
        ready(k, x, rest),
{
    reveal(recdfield);
    reveal(repr::recdfield_spec_at);
    let r10 = access(k, v.access, rest);
    let r9 = string(k, v.xmldoc_sig, r10);
    let r8 = attribs(k, t, v.field_attribs, r9);
    let r7 = attribs_ext(k, t, (v.xmldoc, v.property_attribs), r8);
    let r6 = ident(k, v.ident, r7);
    let r5 = option_literal(k, v.literal_value, r6);
    let r4 = boolean(v.is_secret, r5);
    let r3 = boolean(v.is_static, r4);
    let r2 = t(v.ty, r3);
    let r1 = boolean(v.is_volatile, r2);
    let s = law_boolean(k, w.tape, v.is_mutable, r1, "u_recdfield_spec IsMutable");
    let w = Walk { tape: s, ..w };
    let s = law_boolean(k, w.tape, v.is_volatile, r2, "u_recdfield_spec IsVolatile");
    let w = Walk { tape: s, ..w };
    let w = lemma_ty(k, t, w, v.ty, d, r3);
    let s = law_boolean(k, w.tape, v.is_static, r4, "u_recdfield_spec IsStatic");
    let w = Walk { tape: s, ..w };
    let s = law_boolean(k, w.tape, v.is_secret, r5, "u_recdfield_spec IsSecret");
    let w = Walk { tape: s, ..w };
    let s = law_option_literal(k, w.tape, v.literal_value, r6, "u_recdfield_spec LiteralValue");
    let w = Walk { tape: s, ..w };
    let s = law_ident(k, w.tape, v.ident, r7);
    let w = Walk { tape: s, ..w };
    let w = law_attribs_ext(
        k,
        t,
        w,
        (v.xmldoc, v.property_attribs),
        d,
        r8,
        "u_recdfield_spec property_attribs",
    );
    let w = law_attribs(k, t, w, v.field_attribs, d, r9);
    let s = law_string(k, w.tape, v.xmldoc_sig, r10, "u_recdfield_spec XmlDocSig");
    let w = Walk { tape: s, ..w };
    let s = law_access(k, w.tape, v.access, rest);
    Walk { tape: s, ..w }
}

/// Fields, after their number.
#[verifier::opaque]
pub open spec fn rfields(
    k: Setting,
    t: Types,
    v: Seq<PickledRecdFieldModel>,
    rest: Option<Streams>,
) -> Option<Streams>
{
    count(v.len(), more_rfields(k, t, v, rest))
}

/// Fields, without their number.
#[verifier::opaque]
pub open spec fn more_rfields(
    k: Setting,
    t: Types,
    v: Seq<PickledRecdFieldModel>,
    rest: Option<Streams>,
) -> Option<Streams>
    decreases v.len(),
{
    if v.len() == 0 {
        rest
    } else {
        recdfield(k, t, v[0], more_rfields(k, t, v.drop_first(), rest))
    }
}

pub proof fn law_rfields(
    k: Setting,
    t: Types,
    w: Walk,
    v: Seq<PickledRecdFieldModel>,
    d: nat,
    rest: Option<Streams>,
) -> (x: Walk)
    requires
        ready(k, w, rfields(k, t, v, rest)),
        reads_types(k, t, d),
    ensures
        leads(repr::rfield_table_at(w, d), v, x),
        ready(k, x, rest),
{
    reveal(rfields);
    reveal(repr::rfield_table_at);
    let more = more_rfields(k, t, v, rest);
    let s = law_count(k, w.tape, v.len(), more, "u_rfield_table element");
    let x = law_more_rfields(k, t, Walk { tape: s, ..w }, v, d, Seq::empty(), rest);
    assert(Seq::empty() + v =~= v);
    x
}

pub proof fn law_more_rfields(
    k: Setting,
    t: Types,
    w: Walk,
    v: Seq<PickledRecdFieldModel>,
    d: nat,
    acc: Seq<PickledRecdFieldModel>,
    rest: Option<Streams>,
) -> (x: Walk)
    requires
        ready(k, w, more_rfields(k, t, v, rest)),
        reads_types(k, t, d),
    ensures
        leads(repr::more_rfield_table_at(w, v.len(), d, acc), acc + v, x),
        ready(k, x, rest),
    decreases v.len(),
{
    reveal(more_rfields);
    if v.len() == 0 {
        assert(acc + v =~= acc);
        w
    } else {
        let tail = v.drop_first();
        let w = law_recdfield(k, t, w, v[0], d, more_rfields(k, t, tail, rest));
        assert(acc.push(v[0]) + tail =~= acc + v);
        law_more_rfields(k, t, w, tail, d, acc.push(v[0]), rest)
    }
}

/// A union case: its fields, its type, an obsolete name, its name, its documentation and
/// attributes, the signature of its documentation, its accessibility.
#[verifier::opaque]
pub open spec fn unioncase(
    k: Setting,
    t: Types,
    v: PickledUnionCaseModel,
    rest: Option<Streams>,
) -> Option<Streams>
{
    rfields(
        k,
        t,
        v.fields,
        t(
            v.return_ty,
            string(
                k,
                k.obsolete,
                ident(
                    k,
                    v.ident,
                    attribs_ext(
                        k,
                        t,
                        (v.xmldoc, v.attribs),
                        string(k, v.xmldoc_sig, access(k, v.access, rest)),
                    ),
                ),
            ),
        ),
    )
}

/// A union case is read back as it was written, in every component.
#[verifier::spinoff_prover]
#[verifier::rlimit(60)]
pub proof fn law_unioncase(
    k: Setting,
    t: Types,
    w: Walk,
    v: PickledUnionCaseModel,
    d: nat,
    rest: Option<Streams>,
) -> (x: Walk)
    requires
        ready(k, w, unioncase(k, t, v, rest)),
        reads_types(k, t, d),
    ensures
        leads(repr::unioncase_spec_at(w, d), v, x),
        ready(k, x, rest),
{
    reveal(unioncase);
    reveal(repr::unioncase_spec_at);
    let r6 = access(k, v.access, rest);
    let r5 = string(k, v.xmldoc_sig, r6);
    let r4 = attribs_ext(k, t, (v.xmldoc, v.attribs), r5);
    let r3 = ident(k, v.ident, r4);
    let r2 = string(k, k.obsolete, r3);
    let r1 = t(v.return_ty, r2);
    let w = law_rfields(k, t, w, v.fields, d, r1);
    let w = lemma_ty(k, t, w, v.return_ty, d, r2);
    let s = law_string(k, w.tape, k.obsolete, r3, "u_unioncase_spec _c (dropped)");
    let w = Walk { tape: s, ..w };
    let s = law_ident(k, w.tape, v.ident, r4);
    let w = Walk { tape: s, ..w };
    let w = law_attribs_ext(k, t, w, (v.xmldoc, v.attribs), d, r5, "u_unioncase_spec attribs");
    let s = law_string(k, w.tape, v.xmldoc_sig, r6, "u_unioncase_spec XmlDocSig");
    let w = Walk { tape: s, ..w };
    let s = law_access(k, w.tape, v.access, rest);
    Walk { tape: s, ..w }
}

/// Union cases, after their number.
#[verifier::opaque]
pub open spec fn unioncases(
    k: Setting,
    t: Types,
    v: Seq<PickledUnionCaseModel>,
    rest: Option<Streams>,
) -> Option<Streams>
{
    count(v.len(), more_unioncases(k, t, v, rest))
}

/// Union cases, without their number.
#[verifier::opaque]
pub open spec fn more_unioncases(
    k: Setting,
    t: Types,
    v: Seq<PickledUnionCaseModel>,
    rest: Option<Streams>,
) -> Option<Streams>
    decreases v.len(),
{
    if v.len() == 0 {
        rest
    } else {
        unioncase(k, t, v[0], more_unioncases(k, t, v.drop_first(), rest))
    }
}

pub proof fn law_unioncases(
    k: Setting,
    t: Types,
    w: Walk,
    v: Seq<PickledUnionCaseModel>,
    d: nat,
    rest: Option<Streams>,
) -> (x: Walk)
    requires
        ready(k, w, unioncases(k, t, v, rest)),
        reads_types(k, t, d),
    ensures
        leads(repr::union_cases_at(w, d), v, x),
        ready(k, x, rest),
{
    reveal(unioncases);
    reveal(repr::union_cases_at);
    let more = more_unioncases(k, t, v, rest);
    let s = law_count(k, w.tape, v.len(), more, "u_tycon_repr inner-1 union element");
    let x = law_more_unioncases(k, t, Walk { tape: s, ..w }, v, d, Seq::empty(), rest);
    assert(Seq::empty() + v =~= v);
    x
}

pub proof fn law_more_unioncases(
    k: Setting,
    t: Types,
    w: Walk,
    v: Seq<PickledUnionCaseModel>,
    d: nat,
    acc: Seq<PickledUnionCaseModel>,
    rest: Option<Streams>,
) -> (x: Walk)
    requires
        ready(k, w, more_unioncases(k, t, v, rest)),
        reads_types(k, t, d),
    ensures
        leads(repr::more_union_cases_at(w, v.len(), d, acc), acc + v, x),
        ready(k, x, rest),
    decreases v.len(),
{
    reveal(more_unioncases);
    if v.len() == 0 {
        assert(acc + v =~= acc);
        w
    } else {
        let tail = v.drop_first();
        let w = law_unioncase(k, t, w, v[0], d, more_unioncases(k, t, tail, rest));
        assert(acc.push(v[0]) + tail =~= acc + v);
        law_more_unioncases(k, t, w, tail, d, acc.push(v[0]), rest)
    }
}

pub proof fn law_static_unioncases(
    k: Setting,
    t: Types,
    w: Walk,
    v: Seq<PickledUnionCaseModel>,
    d: nat,
    rest: Option<Streams>,
) -> (x: Walk)
    requires
        ready(k, w, unioncases(k, t, v, rest)),
        reads_types(k, t, d),
    ensures
        leads(repr::static_union_cases_at(w, d), v, x),
        ready(k, x, rest),
{
    reveal(unioncases);
    reveal(repr::static_union_cases_at);
    let more = more_unioncases(k, t, v, rest);
    let s = law_count(k, w.tape, v.len(), more, "u_tycon_repr outer-2 cases element");
    let x = law_more_static_unioncases(k, t, Walk { tape: s, ..w }, v, d, Seq::empty(), rest);
    assert(Seq::empty() + v =~= v);
    x
}

pub proof fn law_more_static_unioncases(
    k: Setting,
    t: Types,
    w: Walk,
    v: Seq<PickledUnionCaseModel>,
    d: nat,
    acc: Seq<PickledUnionCaseModel>,
    rest: Option<Streams>,
) -> (x: Walk)
    requires
        ready(k, w, more_unioncases(k, t, v, rest)),
        reads_types(k, t, d),
    ensures
        leads(repr::more_static_union_cases_at(w, v.len(), d, acc), acc + v, x),
        ready(k, x, rest),
    decreases v.len(),
{
    reveal(more_unioncases);
    if v.len() == 0 {
        assert(acc + v =~= acc);
        w
    } else {
        let tail = v.drop_first();
        let w = law_unioncase(k, t, w, v[0], d, more_unioncases(k, t, tail, rest));
        assert(acc.push(v[0]) + tail =~= acc + v);
        law_more_static_unioncases(k, t, w, tail, d, acc.push(v[0]), rest)
    }
}

/// The kind of a type with an object model.
#[verifier::opaque]
pub open spec fn objmodel_kind(
    k: Setting,
    t: Types,
    v: PickledTyconObjModelKindModel,
    rest: Option<Streams>,
) -> Option<Streams>
{
    match v {
        PickledTyconObjModelKindModel::Class => byte(0, rest),
        PickledTyconObjModelKindModel::Interface => byte(1, rest),
        PickledTyconObjModelKindModel::Struct => byte(2, rest),
        PickledTyconObjModelKindModel::Delegate(g) => byte(3, slotsig(k, t, g, rest)),
        PickledTyconObjModelKindModel::Enum => byte(4, rest),
        PickledTyconObjModelKindModel::Union => byte(5, rest),
        PickledTyconObjModelKindModel::Record => byte(6, rest),
    }
}

pub proof fn law_objmodel_kind(
    k: Setting,
    t: Types,
    w: Walk,
    v: PickledTyconObjModelKindModel,
    d: nat,
    rest: Option<Streams>,
) -> (x: Walk)
    requires
        ready(k, w, objmodel_kind(k, t, v, rest)),
        reads_types(k, t, d),
    ensures
        leads(repr::tycon_objmodel_kind_at(w, d), v, x),
        ready(k, x, rest),
{
    reveal(objmodel_kind);
    reveal(repr::tycon_objmodel_kind_at);
    match v {
        PickledTyconObjModelKindModel::Class => {
            let s = law_byte(k, w.tape, 0, rest, "u_tycon_objmodel_kind tag");
            Walk { tape: s, ..w }
        },
        PickledTyconObjModelKindModel::Interface => {
            let s = law_byte(k, w.tape, 1, rest, "u_tycon_objmodel_kind tag");
            Walk { tape: s, ..w }
        },
        PickledTyconObjModelKindModel::Struct => {
            let s = law_byte(k, w.tape, 2, rest, "u_tycon_objmodel_kind tag");
            Walk { tape: s, ..w }
        },
        PickledTyconObjModelKindModel::Delegate(g) => {
            let r1 = slotsig(k, t, g, rest);
            let s = law_byte(k, w.tape, 3, r1, "u_tycon_objmodel_kind tag");
            let w = Walk { tape: s, ..w };
            law_slotsig(k, t, w, g, d, rest)
        },
        PickledTyconObjModelKindModel::Enum => {
            let s = law_byte(k, w.tape, 4, rest, "u_tycon_objmodel_kind tag");
            Walk { tape: s, ..w }
        },
        PickledTyconObjModelKindModel::Union => {
            let s = law_byte(k, w.tape, 5, rest, "u_tycon_objmodel_kind tag");
            Walk { tape: s, ..w }
        },
        PickledTyconObjModelKindModel::Record => {
            let s = law_byte(k, w.tape, 6, rest, "u_tycon_objmodel_kind tag");
            Walk { tape: s, ..w }
        },
    }
}

/// Virtual slots, after their number.
#[verifier::opaque]
pub open spec fn vslots(
    k: Setting,
    t: Types,
    v: Seq<PickledVRefModel>,
    rest: Option<Streams>,
) -> Option<Streams>
{
    count(v.len(), more_vslots(k, t, v, rest))
}

/// Virtual slots, without their number.
#[verifier::opaque]
pub open spec fn more_vslots(
    k: Setting,
    t: Types,
    v: Seq<PickledVRefModel>,
    rest: Option<Streams>,
) -> Option<Streams>
    decreases v.len(),
{
    if v.len() == 0 {
        rest
    } else {
        vref(k, t, v[0], more_vslots(k, t, v.drop_first(), rest))
    }
}

pub proof fn law_vslots(
    k: Setting,
    t: Types,
    w: Walk,
    v: Seq<PickledVRefModel>,
    d: nat,
    rest: Option<Streams>,
) -> (x: Walk)
    requires
        ready(k, w, vslots(k, t, v, rest)),
        reads_types(k, t, d),
    ensures
        leads(repr::vslots_at(w, d), v, x),
        ready(k, x, rest),
{
    reveal(vslots);
    reveal(repr::vslots_at);
    let more = more_vslots(k, t, v, rest);
    let s = law_count(k, w.tape, v.len(), more, "u_tycon_objmodel_data vslots element");
    let x = law_more_vslots(k, t, Walk { tape: s, ..w }, v, d, Seq::empty(), rest);
    assert(Seq::empty() + v =~= v);
    x
}

pub proof fn law_more_vslots(
    k: Setting,
    t: Types,
    w: Walk,
    v: Seq<PickledVRefModel>,
    d: nat,
    acc: Seq<PickledVRefModel>,
    rest: Option<Streams>,
) -> (x: Walk)
    requires
        ready(k, w, more_vslots(k, t, v, rest)),
        reads_types(k, t, d),
    ensures
        leads(repr::more_vslots_at(w, v.len(), d, acc), acc + v, x),
        ready(k, x, rest),
    decreases v.len(),
{
    reveal(more_vslots);
    if v.len() == 0 {
        assert(acc + v =~= acc);
        w
    } else {
        let tail = v.drop_first();
        let w = law_vref(k, t, w, v[0], d, more_vslots(k, t, tail, rest));
        assert(acc.push(v[0]) + tail =~= acc + v);
        law_more_vslots(k, t, w, tail, d, acc.push(v[0]), rest)
    }
}

/// An object model: its kind, its slots, its fields.
#[verifier::opaque]
pub open spec fn objmodel(
    k: Setting,
    t: Types,
    v: PickledTyconObjModelDataModel,
    rest: Option<Streams>,
) -> Option<Streams>
{
    objmodel_kind(k, t, v.kind, vslots(k, t, v.vslots, rfields(k, t, v.rfields, rest)))
}

pub proof fn law_objmodel(
    k: Setting,
    t: Types,
    w: Walk,
    v: PickledTyconObjModelDataModel,
    d: nat,
    rest: Option<Streams>,
) -> (x: Walk)
    requires
        ready(k, w, objmodel(k, t, v, rest)),
        reads_types(k, t, d),
    ensures
        leads(repr::tycon_objmodel_data_at(w, d), v, x),
        ready(k, x, rest),
{
    reveal(objmodel);
    reveal(repr::tycon_objmodel_data_at);
    let r2 = rfields(k, t, v.rfields, rest);
    let r1 = vslots(k, t, v.vslots, r2);
    let w = law_objmodel_kind(k, t, w, v.kind, d, r1);
    let w = law_vslots(k, t, w, v.vslots, d, r2);
    law_rfields(k, t, w, v.rfields, d, rest)
}

/// The representation of a type: one or two tag bytes, then its parts.
#[verifier::opaque]
pub open spec fn tycon_repr(
    k: Setting,
    t: Types,
    v: PickledTyconReprClosureModel,
    rest: Option<Streams>,
) -> Option<Streams>
{
    match v {
        PickledTyconReprClosureModel::NoRepr => byte(0, rest),
        PickledTyconReprClosureModel::Record(fs) => byte(1, byte(0, rfields(k, t, fs, rest))),
        PickledTyconReprClosureModel::Union(cs) => byte(1, byte(1, unioncases(k, t, cs, rest))),
        PickledTyconReprClosureModel::ILTypeOrProvider(i) => byte(1, byte(2, il_type(i, rest))),
        PickledTyconReprClosureModel::FSharpObjectModel(m) => byte(
            1,
            byte(3, objmodel(k, t, m, rest)),
        ),
        PickledTyconReprClosureModel::Measureable(a) => byte(1, byte(4, t(a, rest))),
        PickledTyconReprClosureModel::UnionWithStaticFields { cases, objmodel: m } => byte(
            2,
            unioncases(k, t, cases, objmodel(k, t, m, rest)),
        ),
    }
}

/// A representation is read back as it was written.
#[verifier::spinoff_prover]
#[verifier::rlimit(60)]
pub proof fn law_tycon_repr(
    k: Setting,
    t: Types,
    w: Walk,
    v: PickledTyconReprClosureModel,
    d: nat,
    rest: Option<Streams>,
) -> (x: Walk)
    requires
        ready(k, w, tycon_repr(k, t, v, rest)),
        reads_types(k, t, d),
    ensures
        leads(repr::tycon_repr_at(w, d), v, x),
        ready(k, x, rest),
{
    reveal(tycon_repr);
    reveal(repr::inner_repr_at);
    reveal(repr::tycon_repr_at);
    match v {
        PickledTyconReprClosureModel::NoRepr => {
            let s = law_byte(k, w.tape, 0, rest, "u_tycon_repr outer tag");
            Walk { tape: s, ..w }
        },
        PickledTyconReprClosureModel::Record(fs) => {
            let r2 = rfields(k, t, fs, rest);
            let r1 = byte(0, r2);
            let s = law_byte(k, w.tape, 1, r1, "u_tycon_repr outer tag");
            let w = Walk { tape: s, ..w };
            let s = law_byte(k, w.tape, 0, r2, "u_tycon_repr inner tag");
            let w = Walk { tape: s, ..w };
            law_rfields(k, t, w, fs, d, rest)
        },
        PickledTyconReprClosureModel::Union(cs) => {
            let r2 = unioncases(k, t, cs, rest);
            let r1 = byte(1, r2);
            let s = law_byte(k, w.tape, 1, r1, "u_tycon_repr outer tag");
            let w = Walk { tape: s, ..w };
            let s = law_byte(k, w.tape, 1, r2, "u_tycon_repr inner tag");
            let w = Walk { tape: s, ..w };
            law_unioncases(k, t, w, cs, d, rest)
        },
        PickledTyconReprClosureModel::ILTypeOrProvider(i) => {
            let r2 = il_type(i, rest);
            let r1 = byte(2, r2);
            let s = law_byte(k, w.tape, 1, r1, "u_tycon_repr outer tag");
            let w = Walk { tape: s, ..w };
            let s = law_byte(k, w.tape, 2, r2, "u_tycon_repr inner tag");
            let w = Walk { tape: s, ..w };
            let s = law_il_type(k, w.tape, i, rest);
            Walk { tape: s, ..w }
        },
        PickledTyconReprClosureModel::FSharpObjectModel(m) => {
            let r2 = objmodel(k, t, m, rest);
            let r1 = byte(3, r2);
            let s = law_byte(k, w.tape, 1, r1, "u_tycon_repr outer tag");
            let w = Walk { tape: s, ..w };
            let s = law_byte(k, w.tape, 3, r2, "u_tycon_repr inner tag");
            let w = Walk { tape: s, ..w };
            law_objmodel(k, t, w, m, d, rest)
        },
        PickledTyconReprClosureModel::Measureable(a) => {
            let r2 = t(a, rest);
            let r1 = byte(4, r2);
            let s = law_byte(k, w.tape, 1, r1, "u_tycon_repr outer tag");
            let w = Walk { tape: s, ..w };
            let s = law_byte(k, w.tape, 4, r2, "u_tycon_repr inner tag");
            let w = Walk { tape: s, ..w };
            lemma_ty(k, t, w, a, d, rest)
        },
        PickledTyconReprClosureModel::UnionWithStaticFields { cases, objmodel: m } => {
            let r2 = objmodel(k, t, m, rest);
            let r1 = unioncases(k, t, cases, r2);
            let s = law_byte(k, w.tape, 2, r1, "u_tycon_repr outer tag");
            let w = Walk { tape: s, ..w };
            let w = law_static_unioncases(k, t, w, cases, d, r2);
            law_objmodel(k, t, w, m, d, rest)
        },
    }
}

/// What an exception stands for.
#[verifier::opaque]
pub open spec fn exnc_repr(
    k: Setting,
    t: Types,
    v: PickledExnReprModel,
    rest: Option<Streams>,
) -> Option<Streams>
{
    match v {
        PickledExnReprModel::Abbrev(c) => byte(0, tcref(k, c, rest)),
        PickledExnReprModel::Asm(i) => byte(1, il_type_ref(k, i, rest)),
        PickledExnReprModel::Fresh(fs) => byte(2, rfields(k, t, fs, rest)),
        PickledExnReprModel::NotException => byte(3, rest),
    }
}

pub proof fn law_exnc_repr(
    k: Setting,
    t: Types,
    w: Walk,
    v: PickledExnReprModel,
    d: nat,
    rest: Option<Streams>,
) -> (x: Walk)
    requires
        ready(k, w, exnc_repr(k, t, v, rest)),
        reads_types(k, t, d),
    ensures
        leads(repr::exnc_repr_at(w, d), v, x),
        ready(k, x, rest),
{
    reveal(exnc_repr);
    reveal(repr::exnc_repr_at);
    match v {
        PickledExnReprModel::Abbrev(c) => {
            let r1 = tcref(k, c, rest);
            let s = law_byte(k, w.tape, 0, r1, "u_exnc_repr tag");
            let w = Walk { tape: s, ..w };
            law_tcref(k, w, c, rest)
        },
        PickledExnReprModel::Asm(i) => {
            let r1 = il_type_ref(k, i, rest);
            let s = law_byte(k, w.tape, 1, r1, "u_exnc_repr tag");
            let w = Walk { tape: s, ..w };
            let s = law_il_type_ref(k, w.tape, i, rest);
            Walk { tape: s, ..w }
        },
        PickledExnReprModel::Fresh(fs) => {
            let r1 = rfields(k, t, fs, rest);
            let s = law_byte(k, w.tape, 2, r1, "u_exnc_repr tag");
            let w = Walk { tape: s, ..w };
            law_rfields(k, t, w, fs, d, rest)
        },
        PickledExnReprModel::NotException => {
            let s = law_byte(k, w.tape, 3, rest, "u_exnc_repr tag");
            Walk { tape: s, ..w }
        },
    }
}

/// A pickle of one field is read back to its end, and gives a field that is equal to the one
/// that was written in every component.
pub proof fn law_a_field_is_read_as_written(
    k: Setting,
    v: PickledRecdFieldModel,
    d: nat,
)
    requires
        recdfield(k, types_at(k, d), v, nothing()) is Some,
    ensures
        ({
            let all = recdfield(k, types_at(k, d), v, nothing())->0;
            let r = repr::recdfield_spec_at(beginning(k, all, d), d);
            r is Ok && r->Ok_0.0 == v && at_end(r->Ok_0.1)
        }),
{
    let all = recdfield(k, types_at(k, d), v, nothing());
    lemma_beginning(k, all, d);
    law_types(k, d);
    let x = law_recdfield(k, types_at(k, d), beginning(k, all->0, d), v, d, nothing());
    lemma_end(k, x);
}

/// A pickle of one union case is read back to its end, and gives a case that is equal to the
/// one that was written in every component.
pub proof fn law_a_union_case_is_read_as_written(
    k: Setting,
    v: PickledUnionCaseModel,
    d: nat,
)
    requires
        unioncase(k, types_at(k, d), v, nothing()) is Some,
    ensures
        ({
            let all = unioncase(k, types_at(k, d), v, nothing())->0;
            let r = repr::unioncase_spec_at(beginning(k, all, d), d);
            r is Ok && r->Ok_0.0 == v && at_end(r->Ok_0.1)
        }),
{
    let all = unioncase(k, types_at(k, d), v, nothing());
    lemma_beginning(k, all, d);
    law_types(k, d);
    let x = law_unioncase(k, types_at(k, d), beginning(k, all->0, d), v, d, nothing());
    lemma_end(k, x);
}

/// A pickle of one representation is read back to its end, and gives the one that was
/// written.
pub proof fn law_a_representation_is_read_as_written(
    k: Setting,
    v: PickledTyconReprClosureModel,
    d: nat,
)
    requires
        tycon_repr(k, types_at(k, d), v, nothing()) is Some,
    ensures
        ({
            let all = tycon_repr(k, types_at(k, d), v, nothing())->0;
            let r = repr::tycon_repr_at(beginning(k, all, d), d);
            r is Ok && r->Ok_0.0 == v && at_end(r->Ok_0.1)
        }),
{
    let all = tycon_repr(k, types_at(k, d), v, nothing());
    lemma_beginning(k, all, d);
    law_types(k, d);
    let x = law_tycon_repr(k, types_at(k, d), beginning(k, all->0, d), v, d, nothing());
    lemma_end(k, x);
}

/// A pickle of what an exception stands for is read back to its end, and gives what was
/// written.
pub proof fn law_an_exception_is_read_as_written(
    k: Setting,
    v: PickledExnReprModel,
    d: nat,
)
    requires
        exnc_repr(k, types_at(k, d), v, nothing()) is Some,
    ensures
        ({
            let all = exnc_repr(k, types_at(k, d), v, nothing())->0;
            let r = repr::exnc_repr_at(beginning(k, all, d), d);
            r is Ok && r->Ok_0.0 == v && at_end(r->Ok_0.1)
        }),
{
    let all = exnc_repr(k, types_at(k, d), v, nothing());
    lemma_beginning(k, all, d);
    law_types(k, d);
    let x = law_exnc_repr(k, types_at(k, d), beginning(k, all->0, d), v, d, nothing());
    lemma_end(k, x);
}

/// What is read resolves to the representation of the same parts. Only where the flag
/// announces a type provider is there none.
pub proof fn law_a_representation_keeps_its_parts(c: PickledTyconReprClosureModel, flag: bool)
    ensures
        match repr::resolved(c, flag) {
            Ok(PickledTyconReprModel::NoRepr) => c is NoRepr,
            Ok(PickledTyconReprModel::Record(v)) => c == PickledTyconReprClosureModel::Record(v),
            Ok(PickledTyconReprModel::Union(v)) => c == PickledTyconReprClosureModel::Union(v),
            Ok(PickledTyconReprModel::AsmRepr(v)) => !flag && c
                == PickledTyconReprClosureModel::ILTypeOrProvider(v),
            Ok(PickledTyconReprModel::FSharpObjectModel(v)) => c
                == PickledTyconReprClosureModel::FSharpObjectModel(v),
            Ok(PickledTyconReprModel::Measureable(v)) => c
                == PickledTyconReprClosureModel::Measureable(v),
            Ok(PickledTyconReprModel::UnionWithStaticFields { cases, objmodel: m }) => {
                c == PickledTyconReprClosureModel::UnionWithStaticFields { cases, objmodel: m }
            },
            Err(_) => flag && c is ILTypeOrProvider,
        },
{
}

} // verus!
