//! The signatures of an assembly, as they are decoded.
//!
//! Only what carries a signature is here, with the names that tell where it stands. A
//! signature that could not be decoded is absent.
use crate::model::Primitive;
use crate::same::Duplicate;
use vstd::prelude::*;

verus! {

/// The type that a custom modifier names: a row of the definitions or of the
/// references.
#[derive(Debug, Clone, Copy, PartialEq, Eq, Hash, Structural)]
pub enum TypeScope {
    Definition(u32),
    Reference(u32),
}

/// A custom modifier: one that is required has to be understood, another one may be
/// ignored.
#[derive(Debug, Clone, Copy, PartialEq, Eq, Hash, Structural)]
pub struct CustomMod {
    pub required: bool,
    pub modifier: TypeScope,
}

impl DeepView for CustomMod {
    type V = CustomMod;

    open spec fn deep_view(&self) -> CustomMod {
        *self
    }
}

impl Duplicate for CustomMod {
    fn dup(&self) -> (r: Self) {
        *self
    }
}

/// A type in a signature. `Ptr` without a pointee is an untyped pointer.
#[derive(Debug, PartialEq, Eq)]
pub enum TypeSig {
    Primitive(Primitive),
    Named { is_value_type: bool, scope: TypeScope },
    TypeVar(u32),
    MethodVar(u32),
    TypedByRef,
    Ptr(Option<Box<ModifiedType>>),
    Generic { is_value_type: bool, scope: TypeScope, args: Vec<ModifiedType> },
    SzArray(Box<ModifiedType>),
    ByRef(Box<ModifiedType>),
    Array { element: Box<ModifiedType>, rank: u32, sizes: Vec<u32>, lower_bounds: Vec<i32> },
}

/// A position in a signature: a type, and the custom modifiers in front of it.
#[derive(Debug, PartialEq, Eq)]
pub struct ModifiedType {
    pub mods: Vec<CustomMod>,
    pub ty: TypeSig,
}

/// The model of a [`TypeSig`].
pub enum TypeSigModel {
    Primitive(Primitive),
    Named { is_value_type: bool, scope: TypeScope },
    TypeVar(u32),
    MethodVar(u32),
    TypedByRef,
    Ptr(Option<Box<ModifiedTypeModel>>),
    Generic { is_value_type: bool, scope: TypeScope, args: Seq<ModifiedTypeModel> },
    SzArray(Box<ModifiedTypeModel>),
    ByRef(Box<ModifiedTypeModel>),
    Array { element: Box<ModifiedTypeModel>, rank: u32, sizes: Seq<u32>, lower_bounds: Seq<i32> },
}

/// The model of a [`ModifiedType`].
pub struct ModifiedTypeModel {
    pub mods: Seq<CustomMod>,
    pub ty: TypeSigModel,
}

/// The model of `t`.
pub open spec fn sig_model(t: TypeSig) -> TypeSigModel
    decreases t,
{
    match t {
        TypeSig::Primitive(p) => TypeSigModel::Primitive(p),
        TypeSig::Named { is_value_type, scope } => TypeSigModel::Named { is_value_type, scope },
        TypeSig::TypeVar(i) => TypeSigModel::TypeVar(i),
        TypeSig::MethodVar(i) => TypeSigModel::MethodVar(i),
        TypeSig::TypedByRef => TypeSigModel::TypedByRef,
        TypeSig::Ptr(None) => TypeSigModel::Ptr(None),
        TypeSig::Ptr(Some(p)) => TypeSigModel::Ptr(Some(Box::new(position_model(*p)))),
        TypeSig::Generic { is_value_type, scope, args } => TypeSigModel::Generic {
            is_value_type,
            scope,
            args: Seq::new(
                args@.len(),
                |i: int|
                    if 0 <= i < args@.len() {
                        position_model(args@[i])
                    } else {
                        arbitrary()
                    },
            ),
        },
        TypeSig::SzArray(p) => TypeSigModel::SzArray(Box::new(position_model(*p))),
        TypeSig::ByRef(p) => TypeSigModel::ByRef(Box::new(position_model(*p))),
        TypeSig::Array { element, rank, sizes, lower_bounds } => TypeSigModel::Array {
            element: Box::new(position_model(*element)),
            rank,
            sizes: sizes@,
            lower_bounds: lower_bounds@,
        },
    }
}

/// The model of `p`.
pub open spec fn position_model(p: ModifiedType) -> ModifiedTypeModel
    decreases p,
{
    ModifiedTypeModel { mods: p.mods@, ty: sig_model(p.ty) }
}

impl DeepView for ModifiedType {
    type V = ModifiedTypeModel;

    open spec fn deep_view(&self) -> ModifiedTypeModel {
        position_model(*self)
    }
}

/// The model of a generic instance holds the models of its arguments.
pub broadcast proof fn lemma_sig_model_args(t: TypeSig)
    ensures
        #![trigger sig_model(t)]
        t matches TypeSig::Generic { is_value_type, scope, args } ==> sig_model(t) == (
        TypeSigModel::Generic { is_value_type, scope, args: args.deep_view() }),
{
    if let TypeSig::Generic { is_value_type, scope, args } = t {
        assert(sig_model(t)->args =~= args.deep_view());
    }
}

/// A copy of a list of plain values.
fn copied<T: Copy>(v: &Vec<T>) -> (r: Vec<T>)
    ensures
        r@ == v@,
{
    let mut out: Vec<T> = Vec::new();
    let mut i: usize = 0;
    while i < v.len()
        invariant
            i <= v.len(),
            out@ == v@.take(i as int),
        decreases v.len() - i,
    {
        out.push(v[i]);
        i = i + 1;
        assert(out@ =~= v@.take(i as int));
    }
    assert(out@ =~= v@);
    out
}

/// A copy of a position.
fn dup_position(p: &ModifiedType) -> (r: ModifiedType)
    ensures
        position_model(r) == position_model(*p),
    decreases *p, 0nat,
{
    ModifiedType { mods: copied(&p.mods), ty: dup_sig(&p.ty) }
}

/// A copy of a type.
fn dup_sig(t: &TypeSig) -> (r: TypeSig)
    ensures
        sig_model(r) == sig_model(*t),
    decreases *t, 0nat,
{
    broadcast use lemma_sig_model_args;

    match t {
        TypeSig::Primitive(k) => TypeSig::Primitive(*k),
        TypeSig::Named { is_value_type, scope } => TypeSig::Named {
            is_value_type: *is_value_type,
            scope: *scope,
        },
        TypeSig::TypeVar(i) => TypeSig::TypeVar(*i),
        TypeSig::MethodVar(i) => TypeSig::MethodVar(*i),
        TypeSig::TypedByRef => TypeSig::TypedByRef,
        TypeSig::Ptr(None) => TypeSig::Ptr(None),
        TypeSig::Ptr(Some(inner)) => TypeSig::Ptr(Some(Box::new(dup_position(inner)))),
        TypeSig::Generic { is_value_type, scope, args } => TypeSig::Generic {
            is_value_type: *is_value_type,
            scope: *scope,
            args: dup_positions(args),
        },
        TypeSig::SzArray(inner) => TypeSig::SzArray(Box::new(dup_position(inner))),
        TypeSig::ByRef(inner) => TypeSig::ByRef(Box::new(dup_position(inner))),
        TypeSig::Array { element, rank, sizes, lower_bounds } => TypeSig::Array {
            element: Box::new(dup_position(element)),
            rank: *rank,
            sizes: copied(sizes),
            lower_bounds: copied(lower_bounds),
        },
    }
}

/// A copy of a list of positions.
fn dup_positions(ps: &Vec<ModifiedType>) -> (r: Vec<ModifiedType>)
    ensures
        r.deep_view() == ps.deep_view(),
    decreases ps@, 1nat,
{
    let mut out: Vec<ModifiedType> = Vec::new();
    let mut i: usize = 0;
    while i < ps.len()
        invariant
            i <= ps.len(),
            out.len() == i,
            forall|j: int|
                0 <= j < i ==> position_model(#[trigger] out@[j]) == position_model(ps@[j]),
        decreases ps.len() - i,
    {
        out.push(dup_position(&ps[i]));
        i = i + 1;
    }
    assert(out.deep_view() =~= ps.deep_view());
    out
}

impl Duplicate for ModifiedType {
    fn dup(&self) -> (r: Self) {
        dup_position(self)
    }
}

impl Clone for ModifiedType {
    fn clone(&self) -> (r: Self)
        ensures
            r.deep_view() == self.deep_view(),
    {
        dup_position(self)
    }
}

impl ModifiedType {
    /// A type without modifiers.
    pub fn plain(ty: TypeSig) -> (r: Self)
        ensures
            position_model(r) == (ModifiedTypeModel { mods: Seq::empty(), ty: sig_model(ty) }),
    {
        ModifiedType { mods: Vec::new(), ty }
    }
}

/// The return type of a method. `Void` carries the modifiers of its position.
#[derive(Debug, PartialEq, Eq)]
pub enum RetType {
    Void(Vec<CustomMod>),
    Type(ModifiedType),
}

/// The model of a [`RetType`].
pub enum RetTypeModel {
    Void(Seq<CustomMod>),
    Type(ModifiedTypeModel),
}

impl DeepView for RetType {
    type V = RetTypeModel;

    open spec fn deep_view(&self) -> RetTypeModel {
        match self {
            RetType::Void(a) => RetTypeModel::Void(a.deep_view()),
            RetType::Type(a) => RetTypeModel::Type(a.deep_view()),
        }
    }
}

impl Duplicate for RetType {
    fn dup(&self) -> (r: Self) {
        match self {
            RetType::Void(a) => RetType::Void(a.dup()),
            RetType::Type(a) => RetType::Type(a.dup()),
        }
    }
}

impl Clone for RetType {
    fn clone(&self) -> (r: Self)
        ensures
            r.deep_view() == self.deep_view(),
    {
        self.dup()
    }
}

/// The signature of a method.
#[derive(Debug, PartialEq, Eq)]
pub struct MethodSig {
    pub return_type: RetType,
    pub parameters: Vec<ModifiedType>,
}

/// The model of a [`MethodSig`].
pub struct MethodSigModel {
    pub return_type: RetTypeModel,
    pub parameters: Seq<ModifiedTypeModel>,
}

impl DeepView for MethodSig {
    type V = MethodSigModel;

    open spec fn deep_view(&self) -> MethodSigModel {
        MethodSigModel {
            return_type: self.return_type.deep_view(),
            parameters: self.parameters.deep_view(),
        }
    }
}

impl Duplicate for MethodSig {
    fn dup(&self) -> (r: Self) {
        MethodSig {
            return_type: self.return_type.dup(),
            parameters: self.parameters.dup(),
        }
    }
}

impl Clone for MethodSig {
    fn clone(&self) -> (r: Self)
        ensures
            r.deep_view() == self.deep_view(),
    {
        self.dup()
    }
}

/// A type parameter with its constraints.
#[derive(Debug, PartialEq, Eq)]
pub struct GenericParam {
    pub name: String,
    pub constraints: Vec<Option<ModifiedType>>,
}

/// The model of a [`GenericParam`].
pub struct GenericParamModel {
    pub name: Seq<char>,
    pub constraints: Seq<Option<ModifiedTypeModel>>,
}

impl DeepView for GenericParam {
    type V = GenericParamModel;

    open spec fn deep_view(&self) -> GenericParamModel {
        GenericParamModel {
            name: self.name.deep_view(),
            constraints: self.constraints.deep_view(),
        }
    }
}

impl Duplicate for GenericParam {
    fn dup(&self) -> (r: Self) {
        GenericParam {
            name: self.name.dup(),
            constraints: self.constraints.dup(),
        }
    }
}

impl Clone for GenericParam {
    fn clone(&self) -> (r: Self)
        ensures
            r.deep_view() == self.deep_view(),
    {
        self.dup()
    }
}

/// A method.
#[derive(Debug, PartialEq, Eq)]
pub struct Method {
    pub name: String,
    pub generic_params: Vec<GenericParam>,
    pub signature: Option<MethodSig>,
    /// The interfaces whose members it implements explicitly.
    pub implements: Vec<Option<ModifiedType>>,
    /// The parents of the other declarations that it implements.
    pub unclassified_impls: Vec<ModifiedType>,
}

/// The model of a [`Method`].
pub struct MethodModel {
    pub name: Seq<char>,
    pub generic_params: Seq<GenericParamModel>,
    pub signature: Option<MethodSigModel>,
    pub implements: Seq<Option<ModifiedTypeModel>>,
    pub unclassified_impls: Seq<ModifiedTypeModel>,
}

impl DeepView for Method {
    type V = MethodModel;

    open spec fn deep_view(&self) -> MethodModel {
        MethodModel {
            name: self.name.deep_view(),
            generic_params: self.generic_params.deep_view(),
            signature: self.signature.deep_view(),
            implements: self.implements.deep_view(),
            unclassified_impls: self.unclassified_impls.deep_view(),
        }
    }
}

impl Duplicate for Method {
    fn dup(&self) -> (r: Self) {
        Method {
            name: self.name.dup(),
            generic_params: self.generic_params.dup(),
            signature: self.signature.dup(),
            implements: self.implements.dup(),
            unclassified_impls: self.unclassified_impls.dup(),
        }
    }
}

impl Clone for Method {
    fn clone(&self) -> (r: Self)
        ensures
            r.deep_view() == self.deep_view(),
    {
        self.dup()
    }
}

/// A field, a property or an event, with its type.
#[derive(Debug, PartialEq, Eq)]
pub struct TypedRow {
    pub name: String,
    pub signature: Option<ModifiedType>,
}

/// The model of a [`TypedRow`].
pub struct TypedRowModel {
    pub name: Seq<char>,
    pub signature: Option<ModifiedTypeModel>,
}

impl DeepView for TypedRow {
    type V = TypedRowModel;

    open spec fn deep_view(&self) -> TypedRowModel {
        TypedRowModel {
            name: self.name.deep_view(),
            signature: self.signature.deep_view(),
        }
    }
}

impl Duplicate for TypedRow {
    fn dup(&self) -> (r: Self) {
        TypedRow {
            name: self.name.dup(),
            signature: self.signature.dup(),
        }
    }
}

impl Clone for TypedRow {
    fn clone(&self) -> (r: Self)
        ensures
            r.deep_view() == self.deep_view(),
    {
        self.dup()
    }
}

/// A type definition.
#[derive(Debug, PartialEq, Eq)]
pub struct TypeDef {
    pub name: String,
    /// The base type, if there is one.
    pub extends: Option<Option<ModifiedType>>,
    pub implements: Vec<Option<ModifiedType>>,
    pub generic_params: Vec<GenericParam>,
    pub methods: Vec<Method>,
    pub fields: Vec<TypedRow>,
    pub properties: Vec<TypedRow>,
    pub events: Vec<TypedRow>,
}

/// The model of a [`TypeDef`].
pub struct TypeDefModel {
    pub name: Seq<char>,
    pub extends: Option<Option<ModifiedTypeModel>>,
    pub implements: Seq<Option<ModifiedTypeModel>>,
    pub generic_params: Seq<GenericParamModel>,
    pub methods: Seq<MethodModel>,
    pub fields: Seq<TypedRowModel>,
    pub properties: Seq<TypedRowModel>,
    pub events: Seq<TypedRowModel>,
}

impl DeepView for TypeDef {
    type V = TypeDefModel;

    open spec fn deep_view(&self) -> TypeDefModel {
        TypeDefModel {
            name: self.name.deep_view(),
            extends: self.extends.deep_view(),
            implements: self.implements.deep_view(),
            generic_params: self.generic_params.deep_view(),
            methods: self.methods.deep_view(),
            fields: self.fields.deep_view(),
            properties: self.properties.deep_view(),
            events: self.events.deep_view(),
        }
    }
}

impl Duplicate for TypeDef {
    fn dup(&self) -> (r: Self) {
        TypeDef {
            name: self.name.dup(),
            extends: self.extends.dup(),
            implements: self.implements.dup(),
            generic_params: self.generic_params.dup(),
            methods: self.methods.dup(),
            fields: self.fields.dup(),
            properties: self.properties.dup(),
            events: self.events.dup(),
        }
    }
}

impl Clone for TypeDef {
    fn clone(&self) -> (r: Self)
        ensures
            r.deep_view() == self.deep_view(),
    {
        self.dup()
    }
}

/// A reference to a member of another assembly.
#[derive(Debug, PartialEq, Eq)]
pub struct MemberRef {
    pub name: String,
    pub signature: Option<MethodSig>,
}

/// The model of a [`MemberRef`].
pub struct MemberRefModel {
    pub name: Seq<char>,
    pub signature: Option<MethodSigModel>,
}

impl DeepView for MemberRef {
    type V = MemberRefModel;

    open spec fn deep_view(&self) -> MemberRefModel {
        MemberRefModel {
            name: self.name.deep_view(),
            signature: self.signature.deep_view(),
        }
    }
}

impl Duplicate for MemberRef {
    fn dup(&self) -> (r: Self) {
        MemberRef {
            name: self.name.dup(),
            signature: self.signature.dup(),
        }
    }
}

impl Clone for MemberRef {
    fn clone(&self) -> (r: Self)
        ensures
            r.deep_view() == self.deep_view(),
    {
        self.dup()
    }
}

/// The signatures of a decoded image.
#[derive(Debug, PartialEq, Eq)]
pub struct Image {
    pub type_defs: Vec<TypeDef>,
    pub member_refs: Vec<MemberRef>,
}

/// The model of an [`Image`].
pub struct ImageModel {
    pub type_defs: Seq<TypeDefModel>,
    pub member_refs: Seq<MemberRefModel>,
}

impl DeepView for Image {
    type V = ImageModel;

    open spec fn deep_view(&self) -> ImageModel {
        ImageModel {
            type_defs: self.type_defs.deep_view(),
            member_refs: self.member_refs.deep_view(),
        }
    }
}

impl Duplicate for Image {
    fn dup(&self) -> (r: Self) {
        Image {
            type_defs: self.type_defs.dup(),
            member_refs: self.member_refs.dup(),
        }
    }
}

impl Clone for Image {
    fn clone(&self) -> (r: Self)
        ensures
            r.deep_view() == self.deep_view(),
    {
        self.dup()
    }
}

} // verus!
