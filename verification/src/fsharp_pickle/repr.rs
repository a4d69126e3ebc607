//! Type representations: records, unions, object models and exceptions.
use crate::error::{Fault, ImportError};
use crate::fsharp_pickle::attribs;
use crate::fsharp_pickle::attribs::{read_attrib, read_attribs};
use crate::fsharp_pickle::leaves;
use crate::fsharp_pickle::leaves::{
    read_access, read_ident, read_il_type, read_il_type_ref, read_xmldoc,
};
use crate::fsharp_pickle::model::{
    PickledAttribute, PickledAttributeModel, PickledExnRepr, PickledExnReprModel, PickledRecdField,
    PickledRecdFieldModel, PickledTyconObjModelData, PickledTyconObjModelDataModel,
    PickledTyconObjModelKind, PickledTyconObjModelKindModel, PickledTyconRepr,
    PickledTyconReprClosure, PickledTyconReprClosureModel, PickledTyconReprModel, PickledUnionCase,
    PickledUnionCaseModel, PickledVRef, PickledVRefModel, PickledXmlDoc, PickledXmlDocModel,
};
use crate::fsharp_pickle::osgn;
use crate::fsharp_pickle::osgn::{PhaseOneState, Walk, Walked};
use crate::fsharp_pickle::reader;
use crate::fsharp_pickle::reader::too_long;
use crate::fsharp_pickle::types;
use crate::fsharp_pickle::types::{read_tcref, read_ty};
use crate::fsharp_pickle::val;
use crate::fsharp_pickle::val::{read_option_const, read_slotsig};
use crate::fsharp_pickle::vrefs;
use crate::fsharp_pickle::vrefs::read_vref;
use vstd::prelude::*;

verus! {

/// The documentation that precedes an extended attribute list, where the high bit
/// of its length announces one.
#[verifier::opaque]
pub open spec fn ext_doc_at(w: Walk, n_raw: u32) -> Walked<Option<PickledXmlDocModel>> {
    if n_raw >= 0x8000_0000 {
        match osgn::lift(w, leaves::xmldoc_at(w.tape)) {
            Err(e) => Err(e),
            Ok((doc, w)) => Ok((Some(doc), w)),
        }
    } else {
        Ok((None, w))
    }
}

/// An extended attribute list: a length whose high bit announces documentation,
/// the documentation, then as many attributes as the low bits say, which the
/// bytes that are left must be able to hold.
#[verifier::opaque]
pub open spec fn attribs_ext_at(w: Walk, context: &'static str, d: nat) -> Walked<
    (Option<PickledXmlDocModel>, Seq<PickledAttributeModel>),
> {
    match osgn::lift(w, reader::uint32_at(w.tape, context)) {
        Err(e) => Err(e),
        Ok((n_raw, w)) => match ext_doc_at(w, n_raw) {
            Err(e) => Err(e),
            Ok((doc, w)) => {
                let n = (n_raw % 0x8000_0000) as nat;
                if n > w.tape.remaining() {
                    Err(
                        (
                            reader::list_too_long(context, ": ext list length ", n, w.tape.remaining()),
                            w,
                        ),
                    )
                } else {
                    match attribs::more_attribs_at(w, n, d, Seq::empty()) {
                        Err(e) => Err(e),
                        Ok((attribs, w)) => Ok(((doc, attribs), w)),
                    }
                }
            },
        },
    }
}

/// A field.
#[verifier::opaque]
pub open spec fn recdfield_spec_at(w: Walk, d: nat) -> Walked<PickledRecdFieldModel> {
    match osgn::lift(w, reader::bool_at(w.tape, "u_recdfield_spec IsMutable")) {
        Err(e) => Err(e),
        Ok((is_mutable, w)) => match osgn::lift(
            w,
            reader::bool_at(w.tape, "u_recdfield_spec IsVolatile"),
        ) {
            Err(e) => Err(e),
            Ok((is_volatile, w)) => match types::ty_at(w, d) {
                Err(e) => Err(e),
                Ok((ty, w)) => match osgn::lift(
                    w,
                    reader::bool_at(w.tape, "u_recdfield_spec IsStatic"),
                ) {
                    Err(e) => Err(e),
                    Ok((is_static, w)) => match osgn::lift(
                        w,
                        reader::bool_at(w.tape, "u_recdfield_spec IsSecret"),
                    ) {
                        Err(e) => Err(e),
                        Ok((is_secret, w)) => match osgn::lift(
                            w,
                            val::option_const_at(w.tape, "u_recdfield_spec LiteralValue"),
                        ) {
                            Err(e) => Err(e),
                            Ok((literal_value, w)) => match osgn::lift(
                                w,
                                leaves::ident_at(w.tape),
                            ) {
                                Err(e) => Err(e),
                                Ok((ident, w)) => match attribs_ext_at(
                                    w,
                                    "u_recdfield_spec property_attribs",
                                    d,
                                ) {
                                    Err(e) => Err(e),
                                    Ok((ext, w)) => match attribs::attribs_at(w, d) {
                                        Err(e) => Err(e),
                                        Ok((field_attribs, w)) => match osgn::lift(
                                            w,
                                            reader::string_at(w.tape, "u_recdfield_spec XmlDocSig"),
                                        ) {
                                            Err(e) => Err(e),
                                            Ok((xmldoc_sig, w)) => match osgn::lift(
                                                w,
                                                leaves::access_at(w.tape),
                                            ) {
                                                Err(e) => Err(e),
                                                Ok((access, w)) => Ok((PickledRecdFieldModel {
        is_mutable,
        is_volatile,
        ty,
        is_static,
        is_secret,
        literal_value,
        ident,
        property_attribs: ext.1,
        field_attribs,
        xmldoc: ext.0,
        xmldoc_sig,
        access,
    }, w)),
                                            },
                                        },
                                    },
                                },
                            },
                        },
                    },
                },
            },
        },
    }
}

/// A table of fields, read at recursion depth `d`.
#[verifier::opaque]
pub open spec fn rfield_table_at(w: Walk, d: nat) -> Walked<Seq<PickledRecdFieldModel>>
{
    match osgn::lift(w, reader::array_len_at(w.tape, "u_rfield_table element")) {
        Err(e) => Err(e),
        Ok((n, w)) => more_rfield_table_at(w, n as nat, d, Seq::empty()),
    }
}

/// A table of fields: `n` more after those in `acc`.
pub open spec fn more_rfield_table_at(
    w: Walk,
    n: nat,
    d: nat,
    acc: Seq<PickledRecdFieldModel>,
) -> Walked<Seq<PickledRecdFieldModel>>
    decreases n,
{
    if n == 0 {
        Ok((acc, w))
    } else {
        match recdfield_spec_at(w, d) {
            Err(e) => Err(e),
            Ok((v, w)) => more_rfield_table_at(w, (n - 1) as nat, d, acc.push(v)),
        }
    }
}

/// A union case. Its third component, an obsolete compiled name, is dropped.
#[verifier::opaque]
pub open spec fn unioncase_spec_at(w: Walk, d: nat) -> Walked<PickledUnionCaseModel> {
    match rfield_table_at(w, d) {
        Err(e) => Err(e),
        Ok((fields, w)) => match types::ty_at(w, d) {
            Err(e) => Err(e),
            Ok((return_ty, w)) => match osgn::lift(
                w,
                reader::string_at(w.tape, "u_unioncase_spec _c (dropped)"),
            ) {
                Err(e) => Err(e),
                Ok((unused, w)) => match osgn::lift(w, leaves::ident_at(w.tape)) {
                    Err(e) => Err(e),
                    Ok((ident, w)) => match attribs_ext_at(w, "u_unioncase_spec attribs", d) {
                        Err(e) => Err(e),
                        Ok((ext, w)) => match osgn::lift(
                            w,
                            reader::string_at(w.tape, "u_unioncase_spec XmlDocSig"),
                        ) {
                            Err(e) => Err(e),
                            Ok((xmldoc_sig, w)) => match osgn::lift(w, leaves::access_at(w.tape)) {
                                Err(e) => Err(e),
                                Ok((access, w)) => Ok((PickledUnionCaseModel {
        fields,
        return_ty,
        ident,
        attribs: ext.1,
        xmldoc: ext.0,
        xmldoc_sig,
        access,
    }, w)),
                            },
                        },
                    },
                },
            },
        },
    }
}

/// The cases of a union, read at recursion depth `d`.
#[verifier::opaque]
pub open spec fn union_cases_at(w: Walk, d: nat) -> Walked<Seq<PickledUnionCaseModel>>
{
    match osgn::lift(w, reader::array_len_at(w.tape, "u_tycon_repr inner-1 union element")) {
        Err(e) => Err(e),
        Ok((n, w)) => more_union_cases_at(w, n as nat, d, Seq::empty()),
    }
}

/// The cases of a union: `n` more after those in `acc`.
pub open spec fn more_union_cases_at(
    w: Walk,
    n: nat,
    d: nat,
    acc: Seq<PickledUnionCaseModel>,
) -> Walked<Seq<PickledUnionCaseModel>>
    decreases n,
{
    if n == 0 {
        Ok((acc, w))
    } else {
        match unioncase_spec_at(w, d) {
            Err(e) => Err(e),
            Ok((v, w)) => more_union_cases_at(w, (n - 1) as nat, d, acc.push(v)),
        }
    }
}

/// The cases of a union with static fields, read at recursion depth `d`.
#[verifier::opaque]
pub open spec fn static_union_cases_at(w: Walk, d: nat) -> Walked<Seq<PickledUnionCaseModel>>
{
    match osgn::lift(w, reader::array_len_at(w.tape, "u_tycon_repr outer-2 cases element")) {
        Err(e) => Err(e),
        Ok((n, w)) => more_static_union_cases_at(w, n as nat, d, Seq::empty()),
    }
}

/// The cases of a union with static fields: `n` more after those in `acc`.
pub open spec fn more_static_union_cases_at(
    w: Walk,
    n: nat,
    d: nat,
    acc: Seq<PickledUnionCaseModel>,
) -> Walked<Seq<PickledUnionCaseModel>>
    decreases n,
{
    if n == 0 {
        Ok((acc, w))
    } else {
        match unioncase_spec_at(w, d) {
            Err(e) => Err(e),
            Ok((v, w)) => more_static_union_cases_at(w, (n - 1) as nat, d, acc.push(v)),
        }
    }
}

/// The kind of an object-model type: a tag byte, and for a delegate the signature
/// of its invocation.
#[verifier::opaque]
pub open spec fn tycon_objmodel_kind_at(w: Walk, d: nat) -> Walked<PickledTyconObjModelKindModel> {
    match osgn::lift(w, reader::byte_at(w.tape, "u_tycon_objmodel_kind tag")) {
        Err(e) => Err(e),
        Ok((tag, w)) => if tag == 0 {
            Ok((PickledTyconObjModelKindModel::Class, w))
        } else if tag == 1 {
            Ok((PickledTyconObjModelKindModel::Interface, w))
        } else if tag == 2 {
            Ok((PickledTyconObjModelKindModel::Struct, w))
        } else if tag == 3 {
            match val::slotsig_at(w, d) {
                Err(e) => Err(e),
                Ok((s, w)) => Ok((PickledTyconObjModelKindModel::Delegate(s), w)),
            }
        } else if tag == 4 {
            Ok((PickledTyconObjModelKindModel::Enum, w))
        } else if tag == 5 {
            Ok((PickledTyconObjModelKindModel::Union, w))
        } else if tag == 6 {
            Ok((PickledTyconObjModelKindModel::Record, w))
        } else {
            Err(
                (
                    Fault::UnsupportedPickleTag { context: "u_tycon_objmodel_kind", tag: tag as u32 },
                    w,
                ),
            )
        },
    }
}

/// The virtual slots of a type, read at recursion depth `d`.
#[verifier::opaque]
pub open spec fn vslots_at(w: Walk, d: nat) -> Walked<Seq<PickledVRefModel>>
{
    match osgn::lift(w, reader::array_len_at(w.tape, "u_tycon_objmodel_data vslots element")) {
        Err(e) => Err(e),
        Ok((n, w)) => more_vslots_at(w, n as nat, d, Seq::empty()),
    }
}

/// The virtual slots of a type: `n` more after those in `acc`.
pub open spec fn more_vslots_at(
    w: Walk,
    n: nat,
    d: nat,
    acc: Seq<PickledVRefModel>,
) -> Walked<Seq<PickledVRefModel>>
    decreases n,
{
    if n == 0 {
        Ok((acc, w))
    } else {
        match vrefs::vref_at(w, d) {
            Err(e) => Err(e),
            Ok((v, w)) => more_vslots_at(w, (n - 1) as nat, d, acc.push(v)),
        }
    }
}

/// An object-model representation: its kind, its virtual slots and its fields.
#[verifier::opaque]
pub open spec fn tycon_objmodel_data_at(w: Walk, d: nat) -> Walked<PickledTyconObjModelDataModel> {
    match tycon_objmodel_kind_at(w, d) {
        Err(e) => Err(e),
        Ok((kind, w)) => match vslots_at(w, d) {
            Err(e) => Err(e),
            Ok((vslots, w)) => match rfield_table_at(w, d) {
                Err(e) => Err(e),
                Ok((rfields, w)) => {
                    Ok((PickledTyconObjModelDataModel { kind, vslots, rfields }, w))
                },
            },
        },
    }
}

/// A type representation after the tags `1` and `inner`.
#[verifier::opaque]
pub open spec fn inner_repr_at(w: Walk, inner: u8, d: nat) -> Walked<
    PickledTyconReprClosureModel,
> {
    if inner == 0 {
        match rfield_table_at(w, d) {
            Err(e) => Err(e),
            Ok((v, w)) => Ok((PickledTyconReprClosureModel::Record(v), w)),
        }
    } else if inner == 1 {
        match union_cases_at(w, d) {
            Err(e) => Err(e),
            Ok((v, w)) => Ok((PickledTyconReprClosureModel::Union(v), w)),
        }
    } else if inner == 2 {
        match osgn::lift(w, leaves::il_type_at(w.tape)) {
            Err(e) => Err(e),
            Ok((v, w)) => Ok((PickledTyconReprClosureModel::ILTypeOrProvider(v), w)),
        }
    } else if inner == 3 {
        match tycon_objmodel_data_at(w, d) {
            Err(e) => Err(e),
            Ok((v, w)) => Ok((PickledTyconReprClosureModel::FSharpObjectModel(v), w)),
        }
    } else if inner == 4 {
        match types::ty_at(w, d) {
            Err(e) => Err(e),
            Ok((v, w)) => Ok((PickledTyconReprClosureModel::Measureable(v), w)),
        }
    } else {
        Err(
            (
                Fault::UnsupportedPickleTag { context: "u_tycon_repr inner tag", tag: inner as u32 },
                w,
            ),
        )
    }
}

/// A type representation: an outer tag, for `1` an inner one, then the payload.
#[verifier::opaque]
pub open spec fn tycon_repr_at(w: Walk, d: nat) -> Walked<PickledTyconReprClosureModel> {
    match osgn::lift(w, reader::byte_at(w.tape, "u_tycon_repr outer tag")) {
        Err(e) => Err(e),
        Ok((outer, w)) => if outer == 0 {
            Ok((PickledTyconReprClosureModel::NoRepr, w))
        } else if outer == 1 {
            match osgn::lift(w, reader::byte_at(w.tape, "u_tycon_repr inner tag")) {
                Err(e) => Err(e),
                Ok((inner, w)) => inner_repr_at(w, inner, d),
            }
        } else if outer == 2 {
            match static_union_cases_at(w, d) {
                Err(e) => Err(e),
                Ok((cases, w)) => match tycon_objmodel_data_at(w, d) {
                    Err(e) => Err(e),
                    Ok((objmodel, w)) => Ok(
                        (
                            PickledTyconReprClosureModel::UnionWithStaticFields {
                                cases,
                                objmodel,
                            },
                            w,
                        ),
                    ),
                },
            }
        } else {
            Err(
                (
                    Fault::UnsupportedPickleTag {
                        context: "u_tycon_repr outer tag",
                        tag: outer as u32,
                    },
                    w,
                ),
            )
        },
    }
}

/// The representation that the format flag resolves `c` to: the flag turns an IL
/// representation into a provided type, which is not modelled, and changes
/// nothing else.
pub open spec fn resolved(c: PickledTyconReprClosureModel, flag_bit: bool) -> Result<
    PickledTyconReprModel,
    Fault,
> {
    match c {
        PickledTyconReprClosureModel::NoRepr => Ok(PickledTyconReprModel::NoRepr),
        PickledTyconReprClosureModel::Record(v) => Ok(PickledTyconReprModel::Record(v)),
        PickledTyconReprClosureModel::Union(v) => Ok(PickledTyconReprModel::Union(v)),
        PickledTyconReprClosureModel::ILTypeOrProvider(v) => if flag_bit {
            Err(
                Fault::UnsupportedSignature {
                    detail:
                        "u_tycon_repr outer-1/inner-2 with format flag set: F# type providers are not supported"@,
                },
            )
        } else {
            Ok(PickledTyconReprModel::AsmRepr(v))
        },
        PickledTyconReprClosureModel::FSharpObjectModel(v) => Ok(
            PickledTyconReprModel::FSharpObjectModel(v),
        ),
        PickledTyconReprClosureModel::Measureable(t) => Ok(PickledTyconReprModel::Measureable(t)),
        PickledTyconReprClosureModel::UnionWithStaticFields { cases, objmodel } => Ok(
            PickledTyconReprModel::UnionWithStaticFields { cases, objmodel },
        ),
    }
}

/// The representation of an exception: a tag byte, then an entity, an IL type or
/// a table of fields.
#[verifier::opaque]
pub open spec fn exnc_repr_at(w: Walk, d: nat) -> Walked<PickledExnReprModel> {
    match osgn::lift(w, reader::byte_at(w.tape, "u_exnc_repr tag")) {
        Err(e) => Err(e),
        Ok((tag, w)) => if tag == 0 {
            match types::tcref_at(w) {
                Err(e) => Err(e),
                Ok((t, w)) => Ok((PickledExnReprModel::Abbrev(t), w)),
            }
        } else if tag == 1 {
            match osgn::lift(w, leaves::il_type_ref_at(w.tape)) {
                Err(e) => Err(e),
                Ok((t, w)) => Ok((PickledExnReprModel::Asm(t), w)),
            }
        } else if tag == 2 {
            match rfield_table_at(w, d) {
                Err(e) => Err(e),
                Ok((v, w)) => Ok((PickledExnReprModel::Fresh(v), w)),
            }
        } else if tag == 3 {
            Ok((PickledExnReprModel::NotException, w))
        } else {
            Err((Fault::UnsupportedPickleTag { context: "u_exnc_repr", tag: tag as u32 }, w))
        },
    }
}

/// Read an extended attribute list: the documentation, if any, and the
/// attributes.
pub fn read_attribs_ext(state: &mut PhaseOneState<'_>, context: &'static str) -> (r: Result<
    (Option<PickledXmlDoc>, Vec<PickledAttribute>),
    ImportError,
>)
    requires
        old(state).wf(),
    ensures
        final(state).wf(),
        final(state)@.tape.depth == old(state)@.tape.depth,
        osgn::agrees(
            r,
            final(state)@,
            attribs_ext_at(old(state)@, context, old(state)@.tape.depth),
        ),
{
    proof {
        reveal(attribs_ext_at);
        reveal(ext_doc_at);
    }
    let ghost d = state@.tape.depth;
    let n_raw: u32 = state.reader.read_uint32(context)?;
    let extra = if n_raw >= 0x8000_0000 {
        let doc = read_xmldoc(&mut state.reader)?;
        Some(doc)
    } else {
        None
    };
    let real_len: usize = (n_raw % 0x8000_0000) as usize;
    let remaining: usize = state.reader.remaining();
    if real_len > remaining {
        return Err(too_long(context, ": ext list length ", real_len, remaining));
    }
    let ghost start = state@;
    let mut out: Vec<PickledAttribute> = Vec::new();
    assert(out.deep_view() =~= Seq::empty());
    let mut i: usize = 0;
    while i < real_len
        invariant
            i <= real_len,
            state.wf(),
            d == old(state)@.tape.depth,
            state@.tape.depth == d,
            attribs::more_attribs_at(start, real_len as nat, d, Seq::empty())
                == attribs::more_attribs_at(
                state@,
                (real_len - i) as nat,
                d,
                out.deep_view(),
            ),
            attribs_ext_at(old(state)@, context, d) == (match attribs::more_attribs_at(
                start,
                real_len as nat,
                d,
                Seq::empty(),
            ) {
                Err(e) => Err(e),
                Ok((attribs, w)) => Ok(((extra.deep_view(), attribs), w)),
            }),
        decreases real_len - i,
    {
        let ghost before = out.deep_view();
        let v = read_attrib(state)?;
        out.push(v);
        assert(out.deep_view() =~= before.push(v.deep_view()));
        i = i + 1;
    }
    Ok((extra, out))
}

/// Read a field.
pub fn read_recdfield_spec(state: &mut PhaseOneState<'_>) -> (r: Result<
    PickledRecdField,
    ImportError,
>)
    requires
        old(state).wf(),
    ensures
        final(state).wf(),
        final(state)@.tape.depth == old(state)@.tape.depth,
        osgn::agrees(r, final(state)@, recdfield_spec_at(old(state)@, old(state)@.tape.depth)),
{
    proof {
        reveal(recdfield_spec_at);
    }
    let is_mutable: bool = state.reader.read_bool("u_recdfield_spec IsMutable")?;
    let is_volatile: bool = state.reader.read_bool("u_recdfield_spec IsVolatile")?;
    let ty = read_ty(state)?;
    let is_static: bool = state.reader.read_bool("u_recdfield_spec IsStatic")?;
    let is_secret: bool = state.reader.read_bool("u_recdfield_spec IsSecret")?;
    let literal_value = read_option_const(
        &mut state.reader,
        "u_recdfield_spec LiteralValue",
    )?;
    let ident = read_ident(&mut state.reader)?;
    let (xmldoc, property_attribs) = read_attribs_ext(
        state,
        "u_recdfield_spec property_attribs",
    )?;
    let field_attribs = read_attribs(state)?;
    let xmldoc_sig = state.reader.read_string("u_recdfield_spec XmlDocSig")?;
    let access = read_access(&mut state.reader)?;
    Ok(
        PickledRecdField {
            is_mutable,
            is_volatile,
            ty,
            is_static,
            is_secret,
            literal_value,
            ident,
            property_attribs,
            field_attribs,
            xmldoc,
            xmldoc_sig,
            access,
        },
    )
}

/// Read a table of fields.
pub fn read_rfield_table(state: &mut PhaseOneState<'_>) -> (r: Result<
    Vec<PickledRecdField>,
    ImportError,
>)
    requires
        old(state).wf(),
    ensures
        final(state).wf(),
        final(state)@.tape.depth == old(state)@.tape.depth,
        osgn::agrees(r, final(state)@, rfield_table_at(old(state)@, old(state)@.tape.depth)),
{
    proof {
        reveal(rfield_table_at);
    }
    let ghost d = state@.tape.depth;
    let n: usize = state.reader.read_array_len("u_rfield_table element")?;
    let mut out: Vec<PickledRecdField> = Vec::new();
    assert(out.deep_view() =~= Seq::empty());
    let mut i: usize = 0;
    while i < n
        invariant
            i <= n,
            state.wf(),
            d == old(state)@.tape.depth,
            state@.tape.depth == d,
            rfield_table_at(old(state)@, d) == more_rfield_table_at(
                state@,
                (n - i) as nat,
                d,
                out.deep_view(),
            ),
        decreases n - i,
    {
        let ghost before = out.deep_view();
        let v = read_recdfield_spec(state)?;
        out.push(v);
        assert(out.deep_view() =~= before.push(v.deep_view()));
        i = i + 1;
    }
    Ok(out)
}

/// Read a union case.
pub fn read_unioncase_spec(state: &mut PhaseOneState<'_>) -> (r: Result<
    PickledUnionCase,
    ImportError,
>)
    requires
        old(state).wf(),
    ensures
        final(state).wf(),
        final(state)@.tape.depth == old(state)@.tape.depth,
        osgn::agrees(r, final(state)@, unioncase_spec_at(old(state)@, old(state)@.tape.depth)),
{
    proof {
        reveal(unioncase_spec_at);
    }
    let fields = read_rfield_table(state)?;
    let return_ty = read_ty(state)?;
    let _deprecated_compiled_name = state.reader.read_string("u_unioncase_spec _c (dropped)")?;
    let ident = read_ident(&mut state.reader)?;
    let (xmldoc, attribs) = read_attribs_ext(state, "u_unioncase_spec attribs")?;
    let xmldoc_sig = state.reader.read_string("u_unioncase_spec XmlDocSig")?;
    let access = read_access(&mut state.reader)?;
    Ok(PickledUnionCase { fields, return_ty, ident, attribs, xmldoc, xmldoc_sig, access })
}

/// Read the cases of a union.
pub fn read_union_cases(state: &mut PhaseOneState<'_>) -> (r: Result<
    Vec<PickledUnionCase>,
    ImportError,
>)
    requires
        old(state).wf(),
    ensures
        final(state).wf(),
        final(state)@.tape.depth == old(state)@.tape.depth,
        osgn::agrees(r, final(state)@, union_cases_at(old(state)@, old(state)@.tape.depth)),
{
    proof {
        reveal(union_cases_at);
    }
    let ghost d = state@.tape.depth;
    let n: usize = state.reader.read_array_len("u_tycon_repr inner-1 union element")?;
    let mut out: Vec<PickledUnionCase> = Vec::new();
    assert(out.deep_view() =~= Seq::empty());
    let mut i: usize = 0;
    while i < n
        invariant
            i <= n,
            state.wf(),
            d == old(state)@.tape.depth,
            state@.tape.depth == d,
            union_cases_at(old(state)@, d) == more_union_cases_at(
                state@,
                (n - i) as nat,
                d,
                out.deep_view(),
            ),
        decreases n - i,
    {
        let ghost before = out.deep_view();
        let v = read_unioncase_spec(state)?;
        out.push(v);
        assert(out.deep_view() =~= before.push(v.deep_view()));
        i = i + 1;
    }
    Ok(out)
}

/// Read the cases of a union with static fields.
pub fn read_static_union_cases(state: &mut PhaseOneState<'_>) -> (r: Result<
    Vec<PickledUnionCase>,
    ImportError,
>)
    requires
        old(state).wf(),
    ensures
        final(state).wf(),
        final(state)@.tape.depth == old(state)@.tape.depth,
        osgn::agrees(r, final(state)@, static_union_cases_at(old(state)@, old(state)@.tape.depth)),
{
    proof {
        reveal(static_union_cases_at);
    }
    let ghost d = state@.tape.depth;
    let n: usize = state.reader.read_array_len("u_tycon_repr outer-2 cases element")?;
    let mut out: Vec<PickledUnionCase> = Vec::new();
    assert(out.deep_view() =~= Seq::empty());
    let mut i: usize = 0;
    while i < n
        invariant
            i <= n,
            state.wf(),
            d == old(state)@.tape.depth,
            state@.tape.depth == d,
            static_union_cases_at(old(state)@, d) == more_static_union_cases_at(
                state@,
                (n - i) as nat,
                d,
                out.deep_view(),
            ),
        decreases n - i,
    {
        let ghost before = out.deep_view();
        let v = read_unioncase_spec(state)?;
        out.push(v);
        assert(out.deep_view() =~= before.push(v.deep_view()));
        i = i + 1;
    }
    Ok(out)
}

/// Read the kind of an object-model type.
pub fn read_tycon_objmodel_kind(state: &mut PhaseOneState<'_>) -> (r: Result<
    PickledTyconObjModelKind,
    ImportError,
>)
    requires
        old(state).wf(),
    ensures
        final(state).wf(),
        final(state)@.tape.depth == old(state)@.tape.depth,
        osgn::agrees(r, final(state)@, tycon_objmodel_kind_at(old(state)@, old(state)@.tape.depth)),
{
    proof {
        reveal(tycon_objmodel_kind_at);
    }
    match state.reader.read_byte("u_tycon_objmodel_kind tag")? {
        0 => Ok(PickledTyconObjModelKind::Class),
        1 => Ok(PickledTyconObjModelKind::Interface),
        2 => Ok(PickledTyconObjModelKind::Struct),
        3 => {
            let s = read_slotsig(state)?;
            Ok(PickledTyconObjModelKind::Delegate(Box::new(s)))
        },
        4 => Ok(PickledTyconObjModelKind::Enum),
        5 => Ok(PickledTyconObjModelKind::Union),
        6 => Ok(PickledTyconObjModelKind::Record),
        other => Err(
            ImportError::UnsupportedPickleTag {
                context: "u_tycon_objmodel_kind",
                tag: other as u32,
            },
        ),
    }
}

/// Read the virtual slots of a type.
pub fn read_vslots(state: &mut PhaseOneState<'_>) -> (r: Result<Vec<PickledVRef>, ImportError>)
    requires
        old(state).wf(),
    ensures
        final(state).wf(),
        final(state)@.tape.depth == old(state)@.tape.depth,
        osgn::agrees(r, final(state)@, vslots_at(old(state)@, old(state)@.tape.depth)),
{
    proof {
        reveal(vslots_at);
    }
    let ghost d = state@.tape.depth;
    let n: usize = state.reader.read_array_len("u_tycon_objmodel_data vslots element")?;
    let mut out: Vec<PickledVRef> = Vec::new();
    assert(out.deep_view() =~= Seq::empty());
    let mut i: usize = 0;
    while i < n
        invariant
            i <= n,
            state.wf(),
            d == old(state)@.tape.depth,
            state@.tape.depth == d,
            vslots_at(old(state)@, d) == more_vslots_at(
                state@,
                (n - i) as nat,
                d,
                out.deep_view(),
            ),
        decreases n - i,
    {
        let ghost before = out.deep_view();
        let v = read_vref(state)?;
        out.push(v);
        assert(out.deep_view() =~= before.push(v.deep_view()));
        i = i + 1;
    }
    Ok(out)
}

/// Read an object-model representation.
pub fn read_tycon_objmodel_data(state: &mut PhaseOneState<'_>) -> (r: Result<
    PickledTyconObjModelData,
    ImportError,
>)
    requires
        old(state).wf(),
    ensures
        final(state).wf(),
        final(state)@.tape.depth == old(state)@.tape.depth,
        osgn::agrees(r, final(state)@, tycon_objmodel_data_at(old(state)@, old(state)@.tape.depth)),
{
    proof {
        reveal(tycon_objmodel_data_at);
    }
    let kind = read_tycon_objmodel_kind(state)?;
    let vslots = read_vslots(state)?;
    let rfields = read_rfield_table(state)?;
    Ok(PickledTyconObjModelData { kind, vslots, rfields })
}

/// Read a type representation after its tags.
fn read_inner_repr(state: &mut PhaseOneState<'_>, inner: u8) -> (r: Result<
    PickledTyconReprClosure,
    ImportError,
>)
    requires
        old(state).wf(),
    ensures
        final(state).wf(),
        final(state)@.tape.depth == old(state)@.tape.depth,
        osgn::agrees(r, final(state)@, inner_repr_at(old(state)@, inner, old(state)@.tape.depth)),
{
    proof {
        reveal(inner_repr_at);
    }
    match inner {
        0 => {
            let v = read_rfield_table(state)?;
            Ok(PickledTyconReprClosure::Record(v))
        },
        1 => {
            let v = read_union_cases(state)?;
            Ok(PickledTyconReprClosure::Union(v))
        },
        2 => {
            let v = read_il_type(&mut state.reader)?;
            Ok(PickledTyconReprClosure::ILTypeOrProvider(v))
        },
        3 => {
            let v = read_tycon_objmodel_data(state)?;
            Ok(PickledTyconReprClosure::FSharpObjectModel(v))
        },
        4 => {
            let v = read_ty(state)?;
            Ok(PickledTyconReprClosure::Measureable(v))
        },
        other => Err(
            ImportError::UnsupportedPickleTag {
                context: "u_tycon_repr inner tag",
                tag: other as u32,
            },
        ),
    }
}

/// Read a type representation, before the format flag of the entity is known.
pub fn read_tycon_repr(state: &mut PhaseOneState<'_>) -> (r: Result<
    PickledTyconReprClosure,
    ImportError,
>)
    requires
        old(state).wf(),
    ensures
        final(state).wf(),
        final(state)@.tape.depth == old(state)@.tape.depth,
        osgn::agrees(r, final(state)@, tycon_repr_at(old(state)@, old(state)@.tape.depth)),
{
    proof {
        reveal(tycon_repr_at);
    }
    match state.reader.read_byte("u_tycon_repr outer tag")? {
        0 => Ok(PickledTyconReprClosure::NoRepr),
        1 => {
            let inner: u8 = state.reader.read_byte("u_tycon_repr inner tag")?;
            read_inner_repr(state, inner)
        },
        2 => {
            let cases = read_static_union_cases(state)?;
            let objmodel = read_tycon_objmodel_data(state)?;
            Ok(PickledTyconReprClosure::UnionWithStaticFields { cases, objmodel })
        },
        other => Err(
            ImportError::UnsupportedPickleTag {
                context: "u_tycon_repr outer tag",
                tag: other as u32,
            },
        ),
    }
}

/// Apply the format flag of the entity to a representation.
pub fn resolve_repr(closure: PickledTyconReprClosure, flag_bit: bool) -> (r: Result<
    PickledTyconRepr,
    ImportError,
>)
    ensures
        match resolved(closure.deep_view(), flag_bit) {
            Ok(v) => r is Ok && r->Ok_0.deep_view() == v,
            Err(e) => r is Err && r->Err_0.deep_view() == e,
        },
{
    Ok(
        match closure {
            PickledTyconReprClosure::NoRepr => PickledTyconRepr::NoRepr,
            PickledTyconReprClosure::Record(v) => PickledTyconRepr::Record(v),
            PickledTyconReprClosure::Union(v) => PickledTyconRepr::Union(v),
            PickledTyconReprClosure::ILTypeOrProvider(v) => {
                if flag_bit {
                    return Err(
                        ImportError::UnsupportedSignature {
                            detail:
                                "u_tycon_repr outer-1/inner-2 with format flag set: F# type providers are not supported".to_owned(),
                        },
                    );
                }
                PickledTyconRepr::AsmRepr(v)
            },
            PickledTyconReprClosure::FSharpObjectModel(v) => PickledTyconRepr::FSharpObjectModel(v),
            PickledTyconReprClosure::Measureable(t) => PickledTyconRepr::Measureable(t),
            PickledTyconReprClosure::UnionWithStaticFields { cases, objmodel } => {
                PickledTyconRepr::UnionWithStaticFields { cases, objmodel }
            },
        },
    )
}

/// Read the representation of an exception.
pub fn read_exnc_repr(state: &mut PhaseOneState<'_>) -> (r: Result<PickledExnRepr, ImportError>)
    requires
        old(state).wf(),
    ensures
        final(state).wf(),
        final(state)@.tape.depth == old(state)@.tape.depth,
        osgn::agrees(r, final(state)@, exnc_repr_at(old(state)@, old(state)@.tape.depth)),
{
    proof {
        reveal(exnc_repr_at);
    }
    match state.reader.read_byte("u_exnc_repr tag")? {
        0 => {
            let t = read_tcref(state)?;
            Ok(PickledExnRepr::Abbrev(t))
        },
        1 => {
            let t = read_il_type_ref(&mut state.reader)?;
            Ok(PickledExnRepr::Asm(t))
        },
        2 => {
            let v = read_rfield_table(state)?;
            Ok(PickledExnRepr::Fresh(v))
        },
        3 => Ok(PickledExnRepr::NotException),
        other => Err(
            ImportError::UnsupportedPickleTag { context: "u_exnc_repr", tag: other as u32 },
        ),
    }
}

} // verus!
