//! Which positions of an image a decoration or a hostile shape reaches, and which it
//! leaves.
use crate::image::{
    CustomMod, GenericParamModel, ImageModel, MethodModel, MethodSigModel, ModifiedTypeModel,
    RetTypeModel, TypeDefModel, TypeSigModel, TypedRowModel,
};
use crate::modifier_metamorphic::decorate;
use crate::modifier_metamorphic::decorate::Scope;
use crate::modifier_metamorphic::hostile;
use crate::modifier_metamorphic::hostile::HostileShape;
use vstd::prelude::*;

verus! {

/// `q` is the position `p` with the modifier in front everywhere.
pub open spec fn wears(q: ModifiedTypeModel, p: ModifiedTypeModel, m: CustomMod) -> bool {
    decorate::saturated(q, m) && decorate::stripped(q) == p
}

/// The same of a position that may be unreadable.
pub open spec fn wears_if_there(
    q: Option<ModifiedTypeModel>,
    p: Option<ModifiedTypeModel>,
    m: CustomMod,
) -> bool {
    match p {
        Some(p) => q is Some && wears(q->0, p, m),
        None => q is None,
    }
}

/// The same of positions in a row.
pub open spec fn all_wear(
    qs: Seq<Option<ModifiedTypeModel>>,
    ps: Seq<Option<ModifiedTypeModel>>,
    m: CustomMod,
) -> bool {
    qs.len() == ps.len() && forall|i: int|
        0 <= i < ps.len() ==> wears_if_there(#[trigger] qs[i], ps[i], m)
}

/// The same of the rows of fields, properties or events, which keep their names.
pub open spec fn rows_wear(
    qs: Seq<TypedRowModel>,
    ps: Seq<TypedRowModel>,
    m: CustomMod,
) -> bool {
    qs.len() == ps.len() && forall|i: int|
        0 <= i < ps.len() ==> (#[trigger] qs[i]).name == ps[i].name && wears_if_there(
            qs[i].signature,
            ps[i].signature,
            m,
        )
}

/// The same of the constraints of type parameters, which keep their names.
pub open spec fn parameters_wear(
    qs: Seq<GenericParamModel>,
    ps: Seq<GenericParamModel>,
    m: CustomMod,
) -> bool {
    qs.len() == ps.len() && forall|i: int|
        0 <= i < ps.len() ==> (#[trigger] qs[i]).name == ps[i].name && all_wear(
            qs[i].constraints,
            ps[i].constraints,
            m,
        )
}

/// The same of the result and the parameters of a signature.
pub open spec fn signature_wears(
    q: Option<MethodSigModel>,
    p: Option<MethodSigModel>,
    m: CustomMod,
) -> bool {
    match p {
        Some(p) => {
            &&& q is Some
            &&& match p.return_type {
                RetTypeModel::Void(mods) => q->0.return_type == RetTypeModel::Void(
                    seq![m] + mods,
                ),
                RetTypeModel::Type(t) => q->0.return_type matches RetTypeModel::Type(u)
                    && wears(u, t, m),
            }
            &&& q->0.parameters.len() == p.parameters.len()
            &&& forall|i: int|
                0 <= i < p.parameters.len() ==> wears(
                    #[trigger] q->0.parameters[i],
                    p.parameters[i],
                    m,
                )
        },
        None => q is None,
    }
}

proof fn lemma_if_there(p: Option<ModifiedTypeModel>, m: CustomMod)
    ensures
        wears_if_there(decorate::decorated_result(p, m), p, m),
{
    if let Some(p) = p {
        decorate::law_decoration_is_complete_and_reversible(p, m);
    }
}

proof fn lemma_all(ps: Seq<Option<ModifiedTypeModel>>, m: CustomMod)
    ensures
        all_wear(decorate::decorated_results(ps, m), ps, m),
{
    let qs = decorate::decorated_results(ps, m);
    assert forall|i: int| 0 <= i < ps.len() implies wears_if_there(#[trigger] qs[i], ps[i], m) by {
        lemma_if_there(ps[i], m);
    }
}

proof fn lemma_rows(ps: Seq<TypedRowModel>, m: CustomMod)
    ensures
        rows_wear(decorate::decorated_rows(ps, m), ps, m),
{
    let qs = decorate::decorated_rows(ps, m);
    assert forall|i: int| 0 <= i < ps.len() implies (#[trigger] qs[i]).name == ps[i].name
        && wears_if_there(qs[i].signature, ps[i].signature, m) by {
        lemma_if_there(ps[i].signature, m);
    }
}

proof fn lemma_parameters(ps: Seq<GenericParamModel>, m: CustomMod)
    ensures
        parameters_wear(decorate::decorated_generic_params(ps, m), ps, m),
{
    let qs = decorate::decorated_generic_params(ps, m);
    assert forall|i: int| 0 <= i < ps.len() implies (#[trigger] qs[i]).name == ps[i].name
        && all_wear(qs[i].constraints, ps[i].constraints, m) by {
        lemma_all(ps[i].constraints, m);
    }
}

proof fn lemma_signature(p: Option<MethodSigModel>, m: CustomMod)
    ensures
        signature_wears(decorate::decorated_method_sig(p, m), p, m),
{
    if let Some(s) = p {
        let q = decorate::decorated_method_sig(p, m);
        match s.return_type {
            RetTypeModel::Void(mods) => {
                assert(mods.insert(0, m) =~= seq![m] + mods);
            },
            RetTypeModel::Type(t) => {
                decorate::law_decoration_is_complete_and_reversible(t, m);
            },
        }
        assert forall|i: int| 0 <= i < s.parameters.len() implies wears(
            #[trigger] q->0.parameters[i],
            s.parameters[i],
            m,
        ) by {
            decorate::law_decoration_is_complete_and_reversible(s.parameters[i], m);
        }
    }
}

/// Which parts of a method a scope reaches: the constraints of its type parameters unless
/// the scope is that of members, its signature unless the scope is that of constraints,
/// and what it implements only where the scope is everything.
pub proof fn law_a_scope_reaches_its_part_of_a_method(x: MethodModel, m: CustomMod, scope: Scope)
    ensures
        ({
            let y = decorate::decorated_method(x, m, scope);
            &&& y.name == x.name
            &&& scope != Scope::Members ==> parameters_wear(
                y.generic_params,
                x.generic_params,
                m,
            )
            &&& scope == Scope::Members ==> y.generic_params == x.generic_params
            &&& scope != Scope::Constraints ==> signature_wears(y.signature, x.signature, m)
            &&& scope == Scope::Constraints ==> y.signature == x.signature
            &&& scope == Scope::Everything ==> all_wear(y.implements, x.implements, m)
            &&& scope == Scope::Everything ==> y.unclassified_impls.len()
                == x.unclassified_impls.len() && forall|i: int|
                0 <= i < x.unclassified_impls.len() ==> wears(
                    #[trigger] y.unclassified_impls[i],
                    x.unclassified_impls[i],
                    m,
                )
            &&& scope != Scope::Everything ==> y.implements == x.implements
                && y.unclassified_impls == x.unclassified_impls
        }),
{
    let y = decorate::decorated_method(x, m, scope);
    lemma_parameters(x.generic_params, m);
    lemma_signature(x.signature, m);
    lemma_all(x.implements, m);
    if scope == Scope::Everything {
        assert forall|i: int| 0 <= i < x.unclassified_impls.len() implies wears(
            #[trigger] y.unclassified_impls[i],
            x.unclassified_impls[i],
            m,
        ) by {
            decorate::law_decoration_is_complete_and_reversible(x.unclassified_impls[i], m);
        }
    }
}

/// Which parts of a type a scope reaches: the constraints of its type parameters unless
/// the scope is that of members, its fields, properties and events unless the scope is
/// that of constraints, and what it extends and implements only where the scope is
/// everything.
pub proof fn law_a_scope_reaches_its_part_of_a_type(t: TypeDefModel, m: CustomMod, scope: Scope)
    ensures
        ({
            let u = decorate::decorated_type_def(t, m, scope);
            &&& u.name == t.name
            &&& u.methods.len() == t.methods.len()
            &&& forall|i: int|
                0 <= i < t.methods.len() ==> #[trigger] u.methods[i]
                    == decorate::decorated_method(t.methods[i], m, scope)
            &&& scope != Scope::Members ==> parameters_wear(
                u.generic_params,
                t.generic_params,
                m,
            )
            &&& scope == Scope::Members ==> u.generic_params == t.generic_params
            &&& scope != Scope::Constraints ==> rows_wear(u.fields, t.fields, m) && rows_wear(
                u.properties,
                t.properties,
                m,
            ) && rows_wear(u.events, t.events, m)
            &&& scope == Scope::Constraints ==> u.fields == t.fields && u.properties
                == t.properties && u.events == t.events
            &&& scope == Scope::Everything ==> all_wear(u.implements, t.implements, m) && (
            u.extends is Some <==> t.extends is Some) && (t.extends is Some ==> wears_if_there(
                u.extends->0,
                t.extends->0,
                m,
            ))
            &&& scope != Scope::Everything ==> u.implements == t.implements && u.extends
                == t.extends
        }),
{
    lemma_parameters(t.generic_params, m);
    lemma_rows(t.fields, m);
    lemma_rows(t.properties, m);
    lemma_rows(t.events, m);
    lemma_all(t.implements, m);
    if let Some(p) = t.extends {
        lemma_if_there(p, m);
    }
}

/// A decorated image has the same types and references, each decorated in the scope; the
/// references to members are decorated only where the scope is everything.
pub proof fn law_a_scope_reaches_every_type(i: ImageModel, m: CustomMod, scope: Scope)
    ensures
        ({
            let j = decorate::decorated_image(i, m, scope);
            &&& j.type_defs.len() == i.type_defs.len()
            &&& forall|k: int|
                0 <= k < i.type_defs.len() ==> #[trigger] j.type_defs[k]
                    == decorate::decorated_type_def(i.type_defs[k], m, scope)
            &&& j.member_refs.len() == i.member_refs.len()
            &&& forall|k: int|
                0 <= k < i.member_refs.len() ==> (#[trigger] j.member_refs[k]).name
                    == i.member_refs[k].name && if scope == Scope::Everything {
                    signature_wears(j.member_refs[k].signature, i.member_refs[k].signature, m)
                } else {
                    j.member_refs[k].signature == i.member_refs[k].signature
                }
        }),
{
    let j = decorate::decorated_image(i, m, scope);
    assert forall|k: int| 0 <= k < i.member_refs.len() implies (#[trigger] j.member_refs[k]).name
        == i.member_refs[k].name && if scope == Scope::Everything {
        signature_wears(j.member_refs[k].signature, i.member_refs[k].signature, m)
    } else {
        j.member_refs[k].signature == i.member_refs[k].signature
    } by {
        lemma_signature(i.member_refs[k].signature, m);
    }
}

/// `q` is the type `p` as a reference: itself where it is one, and otherwise a reference
/// to it, with the modifiers on the outside.
pub open spec fn refers(q: Option<ModifiedTypeModel>, p: Option<ModifiedTypeModel>) -> bool {
    match p {
        Some(p) => {
            &&& q is Some
            &&& p.ty is ByRef ==> q->0 == p
            &&& !(p.ty is ByRef) ==> q->0.mods == p.mods && match q->0.ty {
                TypeSigModel::ByRef(inner) => inner.ty == p.ty && inner.mods.len() == 0,
                _ => false,
            }
        },
        None => q is None,
    }
}

/// The rows are the rows with references, under the same names.
pub open spec fn rows_refer(qs: Seq<TypedRowModel>, ps: Seq<TypedRowModel>) -> bool {
    qs.len() == ps.len() && forall|i: int|
        0 <= i < ps.len() ==> (#[trigger] qs[i]).name == ps[i].name && refers(
            qs[i].signature,
            ps[i].signature,
        )
}

/// A hostile shape turns the types of the events, of the fields or of the properties into
/// references, as it says, and leaves everything else.
pub proof fn law_a_shape_reaches_its_rows(i: ImageModel, shape: HostileShape)
    ensures
        ({
            let j = hostile::hostile_image(i, shape);
            &&& j.member_refs == i.member_refs
            &&& j.type_defs.len() == i.type_defs.len()
            &&& forall|k: int|
                #![trigger j.type_defs[k]]
                0 <= k < i.type_defs.len() ==> {
                    let (u, t) = (j.type_defs[k], i.type_defs[k]);
                    &&& u.name == t.name && u.extends == t.extends && u.implements
                        == t.implements
                    &&& u.generic_params == t.generic_params && u.methods == t.methods
                    &&& if shape == HostileShape::ByRefEventTypes {
                        rows_refer(u.events, t.events)
                    } else {
                        u.events == t.events
                    }
                    &&& if shape == HostileShape::ByRefFieldTypes {
                        rows_refer(u.fields, t.fields)
                    } else {
                        u.fields == t.fields
                    }
                    &&& if shape == HostileShape::ByRefPropertyTypes {
                        rows_refer(u.properties, t.properties)
                    } else {
                        u.properties == t.properties
                    }
                }
        }),
{
}

} // verus!
