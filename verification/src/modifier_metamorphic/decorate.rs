//! Putting a modifier in front of every position of an image.
use crate::image::{
    CustomMod, GenericParam, GenericParamModel, Image, ImageModel, MemberRef, MemberRefModel,
    Method, MethodModel, MethodSig, MethodSigModel, ModifiedType, ModifiedTypeModel, RetType,
    RetTypeModel, TypeDef, TypeDefModel, TypeSig, TypeSigModel, TypedRow, TypedRowModel,
};
use vstd::prelude::*;

verus! {

/// Which positions are decorated.
#[derive(Debug, Clone, Copy, PartialEq, Eq, Structural)]
pub enum Scope {
    /// Every position of the image.
    Everything,
    /// The positions in the signatures of members. What a type needs for itself is
    /// left alone, so that each member has to be refused on its own.
    Members,
    /// The positions of the constraints of type parameters. This is where one required
    /// modifier is understood, and where another one beside it could get lost.
    Constraints,
}

/// The position with `m` in front of it and of every position below it.
pub open spec fn decorated(p: ModifiedTypeModel, m: CustomMod) -> ModifiedTypeModel
    decreases p,
{
    ModifiedTypeModel { mods: p.mods.insert(0, m), ty: decorated_sig(p.ty, m) }
}

/// The type with `m` in front of every position below it.
pub open spec fn decorated_sig(t: TypeSigModel, m: CustomMod) -> TypeSigModel
    decreases t,
{
    match t {
        TypeSigModel::Ptr(Some(p)) => TypeSigModel::Ptr(Some(Box::new(decorated(*p, m)))),
        TypeSigModel::Generic { is_value_type, scope, args } => TypeSigModel::Generic {
            is_value_type,
            scope,
            args: Seq::new(
                args.len(),
                |i: int|
                    if 0 <= i < args.len() {
                        decorated(args[i], m)
                    } else {
                        arbitrary()
                    },
            ),
        },
        TypeSigModel::SzArray(p) => TypeSigModel::SzArray(Box::new(decorated(*p, m))),
        TypeSigModel::ByRef(p) => TypeSigModel::ByRef(Box::new(decorated(*p, m))),
        TypeSigModel::Array { element, rank, sizes, lower_bounds } => TypeSigModel::Array {
            element: Box::new(decorated(*element, m)),
            rank,
            sizes,
            lower_bounds,
        },
        _ => t,
    }
}

/// The positions, each decorated.
pub open spec fn decorated_all(ps: Seq<ModifiedTypeModel>, m: CustomMod) -> Seq<
    ModifiedTypeModel,
> {
    ps.map_values(|p: ModifiedTypeModel| decorated(p, m))
}

/// The position, decorated if it could be decoded.
pub open spec fn decorated_result(p: Option<ModifiedTypeModel>, m: CustomMod) -> Option<
    ModifiedTypeModel,
> {
    match p {
        Some(p) => Some(decorated(p, m)),
        None => None,
    }
}

/// The positions, each decorated if it could be decoded.
pub open spec fn decorated_results(ps: Seq<Option<ModifiedTypeModel>>, m: CustomMod) -> Seq<
    Option<ModifiedTypeModel>,
> {
    ps.map_values(|p: Option<ModifiedTypeModel>| decorated_result(p, m))
}

/// The return type, decorated.
pub open spec fn decorated_ret(r: RetTypeModel, m: CustomMod) -> RetTypeModel {
    match r {
        RetTypeModel::Void(mods) => RetTypeModel::Void(mods.insert(0, m)),
        RetTypeModel::Type(p) => RetTypeModel::Type(decorated(p, m)),
    }
}

/// The signature of a method, decorated if it could be decoded.
pub open spec fn decorated_method_sig(s: Option<MethodSigModel>, m: CustomMod) -> Option<
    MethodSigModel,
> {
    match s {
        Some(s) => Some(
            MethodSigModel {
                return_type: decorated_ret(s.return_type, m),
                parameters: decorated_all(s.parameters, m),
            },
        ),
        None => None,
    }
}

/// The type parameters with decorated constraints.
pub open spec fn decorated_generic_params(gs: Seq<GenericParamModel>, m: CustomMod) -> Seq<
    GenericParamModel,
> {
    gs.map_values(
        |g: GenericParamModel|
            GenericParamModel { constraints: decorated_results(g.constraints, m), ..g },
    )
}

/// The rows with decorated types.
pub open spec fn decorated_rows(rs: Seq<TypedRowModel>, m: CustomMod) -> Seq<TypedRowModel> {
    rs.map_values(
        |r: TypedRowModel| TypedRowModel { signature: decorated_result(r.signature, m), ..r },
    )
}

/// The method, decorated within the scope.
pub open spec fn decorated_method(x: MethodModel, m: CustomMod, scope: Scope) -> MethodModel {
    match scope {
        Scope::Everything => MethodModel {
            generic_params: decorated_generic_params(x.generic_params, m),
            signature: decorated_method_sig(x.signature, m),
            implements: decorated_results(x.implements, m),
            unclassified_impls: decorated_all(x.unclassified_impls, m),
            ..x
        },
        Scope::Members => MethodModel { signature: decorated_method_sig(x.signature, m), ..x },
        Scope::Constraints => MethodModel {
            generic_params: decorated_generic_params(x.generic_params, m),
            ..x
        },
    }
}

/// The type definition, decorated within the scope.
pub open spec fn decorated_type_def(t: TypeDefModel, m: CustomMod, scope: Scope) -> TypeDefModel {
    let methods = t.methods.map_values(|x: MethodModel| decorated_method(x, m, scope));
    match scope {
        Scope::Everything => TypeDefModel {
            name: t.name,
            extends: match t.extends {
                Some(p) => Some(decorated_result(p, m)),
                None => None,
            },
            implements: decorated_results(t.implements, m),
            generic_params: decorated_generic_params(t.generic_params, m),
            methods,
            fields: decorated_rows(t.fields, m),
            properties: decorated_rows(t.properties, m),
            events: decorated_rows(t.events, m),
        },
        Scope::Members => TypeDefModel {
            methods,
            fields: decorated_rows(t.fields, m),
            properties: decorated_rows(t.properties, m),
            events: decorated_rows(t.events, m),
            ..t
        },
        Scope::Constraints => TypeDefModel {
            generic_params: decorated_generic_params(t.generic_params, m),
            methods,
            ..t
        },
    }
}

/// The image, decorated within the scope. References to members of other assemblies are
/// decorated with everything else only.
pub open spec fn decorated_image(i: ImageModel, m: CustomMod, scope: Scope) -> ImageModel {
    ImageModel {
        type_defs: i.type_defs.map_values(|t: TypeDefModel| decorated_type_def(t, m, scope)),
        member_refs: if scope == Scope::Everything {
            i.member_refs.map_values(
                |r: MemberRefModel|
                    MemberRefModel { signature: decorated_method_sig(r.signature, m), ..r },
            )
        } else {
            i.member_refs
        },
    }
}

/// The position without the first modifier, and so for every position below it.
pub open spec fn stripped(p: ModifiedTypeModel) -> ModifiedTypeModel
    decreases p,
{
    ModifiedTypeModel { mods: p.mods.skip(1), ty: stripped_sig(p.ty) }
}

/// The type without the first modifier of every position below it.
pub open spec fn stripped_sig(t: TypeSigModel) -> TypeSigModel
    decreases t,
{
    match t {
        TypeSigModel::Ptr(Some(p)) => TypeSigModel::Ptr(Some(Box::new(stripped(*p)))),
        TypeSigModel::Generic { is_value_type, scope, args } => TypeSigModel::Generic {
            is_value_type,
            scope,
            args: Seq::new(
                args.len(),
                |i: int|
                    if 0 <= i < args.len() {
                        stripped(args[i])
                    } else {
                        arbitrary()
                    },
            ),
        },
        TypeSigModel::SzArray(p) => TypeSigModel::SzArray(Box::new(stripped(*p))),
        TypeSigModel::ByRef(p) => TypeSigModel::ByRef(Box::new(stripped(*p))),
        TypeSigModel::Array { element, rank, sizes, lower_bounds } => TypeSigModel::Array {
            element: Box::new(stripped(*element)),
            rank,
            sizes,
            lower_bounds,
        },
        _ => t,
    }
}

/// The modifier stands in front of the position and of every position below it.
pub open spec fn saturated(p: ModifiedTypeModel, m: CustomMod) -> bool
    decreases p,
{
    p.mods.len() > 0 && p.mods[0] == m && saturated_sig(p.ty, m)
}

/// The modifier stands in front of every position below the type.
pub open spec fn saturated_sig(t: TypeSigModel, m: CustomMod) -> bool
    decreases t,
{
    match t {
        TypeSigModel::Ptr(Some(p)) => saturated(*p, m),
        TypeSigModel::Generic { is_value_type, scope, args } => forall|i: int|
            0 <= i < args.len() ==> saturated(#[trigger] args[i], m),
        TypeSigModel::SzArray(p) => saturated(*p, m),
        TypeSigModel::ByRef(p) => saturated(*p, m),
        TypeSigModel::Array { element, rank, sizes, lower_bounds } => saturated(*element, m),
        _ => true,
    }
}

/// Decoration reaches every position, and it changes nothing but the modifiers: to take
/// the first one away everywhere gives the position back.
pub proof fn law_decoration_is_complete_and_reversible(p: ModifiedTypeModel, m: CustomMod)
    ensures
        saturated(decorated(p, m), m),
        stripped(decorated(p, m)) == p,
    decreases p,
{
    lemma_decorated_sig(p.ty, m);
    assert(p.mods.insert(0, m).skip(1) =~= p.mods);
}

/// The same of the positions below a type.
proof fn lemma_decorated_sig(t: TypeSigModel, m: CustomMod)
    ensures
        saturated_sig(decorated_sig(t, m), m),
        stripped_sig(decorated_sig(t, m)) == t,
    decreases t,
{
    match t {
        TypeSigModel::Ptr(Some(p)) => {
            law_decoration_is_complete_and_reversible(*p, m);
        },
        TypeSigModel::Generic { is_value_type, scope, args } => {
            assert forall|i: int| 0 <= i < args.len() implies saturated(
                decorated(#[trigger] args[i], m),
                m,
            ) && stripped(decorated(args[i], m)) == args[i] by {
                law_decoration_is_complete_and_reversible(args[i], m);
            }
            let d = decorated_sig(t, m);
            assert forall|i: int| 0 <= i < d->args.len() implies saturated(
                #[trigger] d->args[i],
                m,
            ) by {
                assert(d->args[i] == decorated(args[i], m));
            }
            assert(stripped_sig(d)->args =~= args);
        },
        TypeSigModel::SzArray(p) => {
            law_decoration_is_complete_and_reversible(*p, m);
        },
        TypeSigModel::ByRef(p) => {
            law_decoration_is_complete_and_reversible(*p, m);
        },
        TypeSigModel::Array { element, rank, sizes, lower_bounds } => {
            law_decoration_is_complete_and_reversible(*element, m);
        },
        _ => {},
    }
}

/// Put the modifier in front of the position and of every position below it.
pub fn decorate_position(mt: &mut ModifiedType, modifier: CustomMod)
    ensures
        final(mt).deep_view() == decorated(old(mt).deep_view(), modifier),
    decreases *old(mt), 0nat,
{
    mt.mods.insert(0, modifier);
    decorate_sig(&mut mt.ty, modifier);
}

/// Put the modifier in front of every position below the type.
fn decorate_sig(ty: &mut TypeSig, modifier: CustomMod)
    ensures
        crate::image::sig_model(*final(ty)) == decorated_sig(
            crate::image::sig_model(*old(ty)),
            modifier,
        ),
    decreases *old(ty), 0nat,
{
    broadcast use crate::image::lemma_sig_model_args;

    let ghost want = decorated_sig(crate::image::sig_model(*ty), modifier);
    match ty {
        TypeSig::Primitive(_) => {},
        TypeSig::Named { is_value_type: _, scope: _ } => {},
        TypeSig::TypeVar(_) => {},
        TypeSig::MethodVar(_) => {},
        TypeSig::TypedByRef => {},
        TypeSig::Ptr(None) => {},
        TypeSig::Generic { is_value_type: _, scope: _, args } => {
            decorate_arguments(args, modifier);
            assert(args.deep_view() =~= want->args);
        },
        TypeSig::SzArray(inner) => decorate_position(inner, modifier),
        TypeSig::ByRef(inner) => decorate_position(inner, modifier),
        TypeSig::Ptr(Some(inner)) => decorate_position(inner, modifier),
        TypeSig::Array { element, rank: _, sizes: _, lower_bounds: _ } => decorate_position(
            element,
            modifier,
        ),
    }
}

/// Decorate each of the positions.
fn decorate_arguments(ps: &mut Vec<ModifiedType>, modifier: CustomMod)
    ensures
        final(ps).deep_view() == decorated_all(old(ps).deep_view(), modifier),
    decreases old(ps)@, 1nat,
{
    let ghost start = ps@;
    let mut i: usize = 0;
    while i < ps.len()
        invariant
            i <= ps.len(),
            ps@.len() == start.len(),
            start == old(ps)@,
            forall|j: int|
                0 <= j < i ==> (#[trigger] ps@[j]).deep_view() == decorated(
                    start[j].deep_view(),
                    modifier,
                ),
            forall|j: int| i <= j < ps@.len() ==> #[trigger] ps@[j] == start[j],
        decreases ps.len() - i,
    {
        decorate_position(&mut ps[i], modifier);
        i = i + 1;
    }
    assert(ps.deep_view() =~= decorated_all(old(ps).deep_view(), modifier));
}

/// Decorate the position if it could be decoded.
fn decorate_result(p: &mut Option<ModifiedType>, modifier: CustomMod)
    ensures
        final(p).deep_view() == decorated_result(old(p).deep_view(), modifier),
{
    match p {
        Some(mt) => decorate_position(mt, modifier),
        None => {},
    }
}

/// Decorate each of the positions that could be decoded.
fn decorate_results(xs: &mut Vec<Option<ModifiedType>>, modifier: CustomMod)
    ensures
        final(xs).deep_view() == decorated_results(old(xs).deep_view(), modifier),
{
    let ghost start = xs.deep_view();
    let mut i: usize = 0;
    while i < xs.len()
        invariant
            i <= xs.len(),
            xs@.len() == start.len(),
            start == old(xs).deep_view(),
            forall|j: int|
                0 <= j < i ==> (#[trigger] xs@[j]).deep_view() == decorated_results(
                    start,
                    modifier,
                )[j],
            forall|j: int| i <= j < xs@.len() ==> (#[trigger] xs@[j]).deep_view() == start[j],
        decreases xs.len() - i,
    {
        decorate_result(&mut xs[i], modifier);
        i = i + 1;
    }
    assert(xs.deep_view() =~= decorated_results(start, modifier));
}

/// Decorate a return type.
fn decorate_ret_type(ret: &mut RetType, modifier: CustomMod)
    ensures
        final(ret).deep_view() == decorated_ret(old(ret).deep_view(), modifier),
{
    match ret {
        RetType::Void(mods) => {
            let ghost before = mods.deep_view();
            mods.insert(0, modifier);
            assert(mods.deep_view() =~= before.insert(0, modifier));
        },
        RetType::Type(mt) => decorate_position(mt, modifier),
    }
}

/// Decorate the signature of a method if it could be decoded.
fn decorate_method_sig(sig: &mut Option<MethodSig>, modifier: CustomMod)
    ensures
        final(sig).deep_view() == decorated_method_sig(old(sig).deep_view(), modifier),
{
    match sig {
        Some(s) => {
            decorate_ret_type(&mut s.return_type, modifier);
            decorate_arguments(&mut s.parameters, modifier);
        },
        None => {},
    }
}

/// Decorate the constraints of a type parameter.
fn decorate_generic_param(gp: &mut GenericParam, modifier: CustomMod)
    ensures
        final(gp).deep_view() == (GenericParamModel {
            constraints: decorated_results(old(gp).deep_view().constraints, modifier),
            ..old(gp).deep_view()
        }),
{
    decorate_results(&mut gp.constraints, modifier);
}

/// Decorate the constraints of each of the type parameters.
fn decorate_generic_params(xs: &mut Vec<GenericParam>, modifier: CustomMod)
    ensures
        final(xs).deep_view() == decorated_generic_params(old(xs).deep_view(), modifier),
{
    let ghost start = xs.deep_view();
    let mut i: usize = 0;
    while i < xs.len()
        invariant
            i <= xs.len(),
            xs@.len() == start.len(),
            start == old(xs).deep_view(),
            forall|j: int|
                0 <= j < i ==> (#[trigger] xs@[j]).deep_view() == decorated_generic_params(
                    start,
                    modifier,
                )[j],
            forall|j: int| i <= j < xs@.len() ==> (#[trigger] xs@[j]).deep_view() == start[j],
        decreases xs.len() - i,
    {
        decorate_generic_param(&mut xs[i], modifier);
        i = i + 1;
    }
    assert(xs.deep_view() =~= decorated_generic_params(start, modifier));
}

/// Decorate the type of a row.
fn decorate_row(row: &mut TypedRow, modifier: CustomMod)
    ensures
        final(row).deep_view() == (TypedRowModel {
            signature: decorated_result(old(row).deep_view().signature, modifier),
            ..old(row).deep_view()
        }),
{
    decorate_result(&mut row.signature, modifier);
}

/// Decorate the type of each of the rows.
fn decorate_rows(xs: &mut Vec<TypedRow>, modifier: CustomMod)
    ensures
        final(xs).deep_view() == decorated_rows(old(xs).deep_view(), modifier),
{
    let ghost start = xs.deep_view();
    let mut i: usize = 0;
    while i < xs.len()
        invariant
            i <= xs.len(),
            xs@.len() == start.len(),
            start == old(xs).deep_view(),
            forall|j: int|
                0 <= j < i ==> (#[trigger] xs@[j]).deep_view() == decorated_rows(
                    start,
                    modifier,
                )[j],
            forall|j: int| i <= j < xs@.len() ==> (#[trigger] xs@[j]).deep_view() == start[j],
        decreases xs.len() - i,
    {
        decorate_row(&mut xs[i], modifier);
        i = i + 1;
    }
    assert(xs.deep_view() =~= decorated_rows(start, modifier));
}

/// Decorate a method within the scope.
fn decorate_method(x: &mut Method, modifier: CustomMod, scope: Scope)
    ensures
        final(x).deep_view() == decorated_method(old(x).deep_view(), modifier, scope),
{
    match scope {
        Scope::Everything => {
            decorate_generic_params(&mut x.generic_params, modifier);
            decorate_method_sig(&mut x.signature, modifier);
            decorate_results(&mut x.implements, modifier);
            decorate_arguments(&mut x.unclassified_impls, modifier);
        },
        Scope::Members => {
            decorate_method_sig(&mut x.signature, modifier);
        },
        Scope::Constraints => {
            decorate_generic_params(&mut x.generic_params, modifier);
        },
    }
}

/// Decorate each of the methods within the scope.
fn decorate_methods(xs: &mut Vec<Method>, modifier: CustomMod, scope: Scope)
    ensures
        final(xs).deep_view() == old(xs).deep_view().map_values(
            |x: MethodModel| decorated_method(x, modifier, scope),
        ),
{
    let ghost start = xs.deep_view();
    let mut i: usize = 0;
    while i < xs.len()
        invariant
            i <= xs.len(),
            xs@.len() == start.len(),
            start == old(xs).deep_view(),
            forall|j: int|
                0 <= j < i ==> (#[trigger] xs@[j]).deep_view() == start.map_values(
            |x: MethodModel| decorated_method(x, modifier, scope),
        )[j],
            forall|j: int| i <= j < xs@.len() ==> (#[trigger] xs@[j]).deep_view() == start[j],
        decreases xs.len() - i,
    {
        decorate_method(&mut xs[i], modifier, scope);
        i = i + 1;
    }
    assert(xs.deep_view() =~= start.map_values(
            |x: MethodModel| decorated_method(x, modifier, scope),
        ));
}

/// Decorate a type definition within the scope.
fn decorate_type_def(td: &mut TypeDef, modifier: CustomMod, scope: Scope)
    ensures
        final(td).deep_view() == decorated_type_def(old(td).deep_view(), modifier, scope),
{
    decorate_methods(&mut td.methods, modifier, scope);
    match scope {
        Scope::Everything => {
            match &mut td.extends {
                Some(extends) => decorate_result(extends, modifier),
                None => {},
            }
            decorate_results(&mut td.implements, modifier);
            decorate_generic_params(&mut td.generic_params, modifier);
            decorate_rows(&mut td.fields, modifier);
            decorate_rows(&mut td.properties, modifier);
            decorate_rows(&mut td.events, modifier);
        },
        Scope::Members => {
            decorate_rows(&mut td.fields, modifier);
            decorate_rows(&mut td.properties, modifier);
            decorate_rows(&mut td.events, modifier);
        },
        Scope::Constraints => {
            decorate_generic_params(&mut td.generic_params, modifier);
        },
    }
}

/// Decorate each of the type definitions within the scope.
fn decorate_type_defs(xs: &mut Vec<TypeDef>, modifier: CustomMod, scope: Scope)
    ensures
        final(xs).deep_view() == old(xs).deep_view().map_values(
            |t: TypeDefModel| decorated_type_def(t, modifier, scope),
        ),
{
    let ghost start = xs.deep_view();
    let mut i: usize = 0;
    while i < xs.len()
        invariant
            i <= xs.len(),
            xs@.len() == start.len(),
            start == old(xs).deep_view(),
            forall|j: int|
                0 <= j < i ==> (#[trigger] xs@[j]).deep_view() == start.map_values(
            |t: TypeDefModel| decorated_type_def(t, modifier, scope),
        )[j],
            forall|j: int| i <= j < xs@.len() ==> (#[trigger] xs@[j]).deep_view() == start[j],
        decreases xs.len() - i,
    {
        decorate_type_def(&mut xs[i], modifier, scope);
        i = i + 1;
    }
    assert(xs.deep_view() =~= start.map_values(
            |t: TypeDefModel| decorated_type_def(t, modifier, scope),
        ));
}

/// Decorate a reference to a member.
fn decorate_member_ref(mr: &mut MemberRef, modifier: CustomMod)
    ensures
        final(mr).deep_view() == (MemberRefModel {
            signature: decorated_method_sig(old(mr).deep_view().signature, modifier),
            ..old(mr).deep_view()
        }),
{
    decorate_method_sig(&mut mr.signature, modifier);
}

/// Decorate each of the references to members.
fn decorate_member_refs(xs: &mut Vec<MemberRef>, modifier: CustomMod)
    ensures
        final(xs).deep_view() == old(xs).deep_view().map_values(
            |r: MemberRefModel|
                MemberRefModel { signature: decorated_method_sig(r.signature, modifier), ..r },
        ),
{
    let ghost start = xs.deep_view();
    let mut i: usize = 0;
    while i < xs.len()
        invariant
            i <= xs.len(),
            xs@.len() == start.len(),
            start == old(xs).deep_view(),
            forall|j: int|
                0 <= j < i ==> (#[trigger] xs@[j]).deep_view() == start.map_values(
            |r: MemberRefModel|
                MemberRefModel { signature: decorated_method_sig(r.signature, modifier), ..r },
        )[j],
            forall|j: int| i <= j < xs@.len() ==> (#[trigger] xs@[j]).deep_view() == start[j],
        decreases xs.len() - i,
    {
        decorate_member_ref(&mut xs[i], modifier);
        i = i + 1;
    }
    assert(xs.deep_view() =~= start.map_values(
            |r: MemberRefModel|
                MemberRefModel { signature: decorated_method_sig(r.signature, modifier), ..r },
        ));
}

/// Decorate an image within the scope.
pub fn decorate_image(image: &mut Image, modifier: CustomMod, scope: Scope)
    ensures
        final(image).deep_view() == decorated_image(old(image).deep_view(), modifier, scope),
{
    decorate_type_defs(&mut image.type_defs, modifier, scope);
    match scope {
        Scope::Everything => {
            decorate_member_refs(&mut image.member_refs, modifier);
        },
        _ => {},
    }
}

} // verus!
