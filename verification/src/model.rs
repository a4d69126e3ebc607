//! The owned model of an assembly: entities, their members and the types these
//! speak of.
//!
//! Each type that holds text or a list has a model, the same value with its text
//! and its lists as mathematical sequences, which is its deep view. A type
//! without either is its own model.
use crate::same::{Duplicate, Same};
use crate::text::{cut_before, split_text};
use vstd::prelude::*;

verus! {

/// `Major.Minor.Build.Revision`: the version of an assembly.
#[derive(Debug, Clone, Copy, PartialEq, Eq, Hash, Structural)]
pub struct Version {
    pub major: u16,
    pub minor: u16,
    pub build: u16,
    pub revision: u16,
}

impl DeepView for Version {
    type V = Version;

    open spec fn deep_view(&self) -> Version {
        *self
    }
}

impl Same for Version {
    fn same(&self, other: &Self) -> (r: bool) {
        *self == *other
    }
}

impl Duplicate for Version {
    fn dup(&self) -> (r: Self) {
        *self
    }
}

/// The identity of a managed assembly: name, version and public-key token name it
/// uniquely.
#[derive(Debug, PartialEq, Eq, Hash)]
pub struct AssemblyIdentity {
    pub name: String,
    pub version: Version,
    pub public_key_token: Option<[u8; 8]>,
}

/// The model of an [`AssemblyIdentity`].
pub struct AssemblyIdentityModel {
    pub name: Seq<char>,
    pub version: Version,
    pub public_key_token: Option<Seq<u8>>,
}

impl DeepView for AssemblyIdentity {
    type V = AssemblyIdentityModel;

    open spec fn deep_view(&self) -> AssemblyIdentityModel {
        AssemblyIdentityModel {
            name: self.name.deep_view(),
            version: self.version,
            public_key_token: self.public_key_token.deep_view(),
        }
    }
}

impl Same for AssemblyIdentity {
    fn same(&self, other: &Self) -> (r: bool) {
        self.name.same(&other.name)
            && self.version.same(&other.version)
            && self.public_key_token.same(&other.public_key_token)
    }
}

impl Duplicate for AssemblyIdentity {
    fn dup(&self) -> (r: Self) {
        AssemblyIdentity {
            name: self.name.dup(),
            version: self.version.dup(),
            public_key_token: self.public_key_token.dup(),
        }
    }
}

impl Clone for AssemblyIdentity {
    fn clone(&self) -> (r: Self)
        ensures
            r.deep_view() == self.deep_view(),
    {
        self.dup()
    }
}

/// A primitive element type.
#[derive(Debug, Clone, Copy, PartialEq, Eq, Hash, Structural)]
pub enum Primitive {
    Void,
    Bool,
    Char,
    I1,
    U1,
    I2,
    U2,
    I4,
    U4,
    I8,
    U8,
    R4,
    R8,
    IntPtr,
    UIntPtr,
    Object,
    String,
}

impl DeepView for Primitive {
    type V = Primitive;

    open spec fn deep_view(&self) -> Primitive {
        *self
    }
}

impl Same for Primitive {
    fn same(&self, other: &Self) -> (r: bool) {
        *self == *other
    }
}

impl Duplicate for Primitive {
    fn dup(&self) -> (r: Self) {
        *self
    }
}

/// What kind of type an [`Entity`] is: the metadata kinds together with the F#
/// ones.
#[derive(Debug, Clone, Copy, PartialEq, Eq, Hash, Structural)]
pub enum EntityKind {
    Class,
    Struct,
    Interface,
    Enum,
    Delegate,
    Module,
    Union,
    Record,
    Abbreviation,
    Exception,
    Measure,
}

impl DeepView for EntityKind {
    type V = EntityKind;

    open spec fn deep_view(&self) -> EntityKind {
        *self
    }
}

impl Same for EntityKind {
    fn same(&self, other: &Self) -> (r: bool) {
        *self == *other
    }
}

impl Duplicate for EntityKind {
    fn dup(&self) -> (r: Self) {
        *self
    }
}

/// Accessibility.
#[derive(Debug, Clone, Copy, PartialEq, Eq, Hash, Structural)]
pub enum Access {
    Public,
    Internal,
    Private,
    Protected,
    ProtectedOrInternal,
    ProtectedAndInternal,
}

impl DeepView for Access {
    type V = Access;

    open spec fn deep_view(&self) -> Access {
        *self
    }
}

impl Same for Access {
    fn same(&self, other: &Self) -> (r: bool) {
        *self == *other
    }
}

impl Duplicate for Access {
    fn dup(&self) -> (r: Self) {
        *self
    }
}

/// The variance of a generic parameter. Only interface and delegate parameters
/// are ever anything but invariant.
#[derive(Debug, Clone, Copy, PartialEq, Eq, Hash, Structural)]
pub enum Variance {
    Invariant,
    Covariant,
    Contravariant,
}

impl DeepView for Variance {
    type V = Variance;

    open spec fn deep_view(&self) -> Variance {
        *self
    }
}

impl Same for Variance {
    fn same(&self, other: &Self) -> (r: bool) {
        *self == *other
    }
}

impl Duplicate for Variance {
    fn dup(&self) -> (r: Self) {
        *self
    }
}

/// The nullable-reference-type state of a type position.
#[derive(Debug, Clone, Copy, PartialEq, Eq, Hash, Structural)]
pub enum Nullability {
    Oblivious,
    NotAnnotated,
    Annotated,
}

impl DeepView for Nullability {
    type V = Nullability;

    open spec fn deep_view(&self) -> Nullability {
        *self
    }
}

impl Same for Nullability {
    fn same(&self, other: &Self) -> (r: bool) {
        *self == *other
    }
}

impl Duplicate for Nullability {
    fn dup(&self) -> (r: Self) {
        *self
    }
}

/// A reference to another type, symbolic until a resolver attaches.
///
/// `Named` without an assembly is a type of the same assembly. `Var` is a type
/// parameter of the method or of the type. `Ptr` without a pointee is an untyped
/// pointer.
#[derive(Debug, PartialEq, Eq, Hash)]
pub enum TypeRef {
    Primitive(Primitive),
    Named {
        assembly: Option<AssemblyIdentity>,
        namespace: Vec<String>,
        name: String,
        type_args: Vec<NullableType>,
        segment_arities: Vec<usize>,
    },
    Var { index: u16, is_method: bool },
    Array { element: Box<NullableType>, rank: u8, sizes: Vec<u32>, lower_bounds: Vec<i32> },
    Ptr(Option<Box<TypeRef>>),
    ByRef { inner: Box<TypeRef>, readonly: bool },
}

/// A type position with its nullable-reference-type annotation.
#[derive(Debug, PartialEq, Eq, Hash)]
pub struct NullableType {
    pub ty: TypeRef,
    pub nullability: Nullability,
}

/// The model of a [`TypeRef`].
pub enum TypeRefModel {
    Primitive(Primitive),
    Named {
        assembly: Option<AssemblyIdentityModel>,
        namespace: Seq<Seq<char>>,
        name: Seq<char>,
        type_args: Seq<NullableTypeModel>,
        segment_arities: Seq<usize>,
    },
    Var { index: u16, is_method: bool },
    Array {
        element: Box<NullableTypeModel>,
        rank: u8,
        sizes: Seq<u32>,
        lower_bounds: Seq<i32>,
    },
    Ptr(Option<Box<TypeRefModel>>),
    ByRef { inner: Box<TypeRefModel>, readonly: bool },
}

/// The model of a [`NullableType`].
pub struct NullableTypeModel {
    pub ty: TypeRefModel,
    pub nullability: Nullability,
}

/// The model of `t`.
pub open spec fn type_ref_model(t: TypeRef) -> TypeRefModel
    decreases t,
{
    match t {
        TypeRef::Primitive(p) => TypeRefModel::Primitive(p),
        TypeRef::Named { assembly, namespace, name, type_args, segment_arities } => {
            TypeRefModel::Named {
                assembly: assembly.deep_view(),
                namespace: namespace.deep_view(),
                name: name@,
                type_args: Seq::new(
                    type_args@.len(),
                    |i: int|
                        if 0 <= i < type_args@.len() {
                            nullable_model(type_args@[i])
                        } else {
                            arbitrary()
                        },
                ),
                segment_arities: segment_arities@,
            }
        },
        TypeRef::Var { index, is_method } => TypeRefModel::Var { index, is_method },
        TypeRef::Array { element, rank, sizes, lower_bounds } => TypeRefModel::Array {
            element: Box::new(nullable_model(*element)),
            rank,
            sizes: sizes@,
            lower_bounds: lower_bounds@,
        },
        TypeRef::Ptr(None) => TypeRefModel::Ptr(None),
        TypeRef::Ptr(Some(p)) => TypeRefModel::Ptr(Some(Box::new(type_ref_model(*p)))),
        TypeRef::ByRef { inner, readonly } => TypeRefModel::ByRef {
            inner: Box::new(type_ref_model(*inner)),
            readonly,
        },
    }
}

/// The model of `n`.
pub open spec fn nullable_model(n: NullableType) -> NullableTypeModel
    decreases n,
{
    NullableTypeModel { ty: type_ref_model(n.ty), nullability: n.nullability }
}

impl DeepView for TypeRef {
    type V = TypeRefModel;

    open spec fn deep_view(&self) -> TypeRefModel {
        type_ref_model(*self)
    }
}

impl DeepView for NullableType {
    type V = NullableTypeModel;

    open spec fn deep_view(&self) -> NullableTypeModel {
        nullable_model(*self)
    }
}

/// The model of a type with lists holds their models.
pub broadcast proof fn lemma_type_ref_model_lists(t: TypeRef)
    ensures
        #![trigger type_ref_model(t)]
        t matches TypeRef::Named { assembly, namespace, name, type_args, segment_arities }
            ==> type_ref_model(t) == (TypeRefModel::Named {
            assembly: assembly.deep_view(),
            namespace: namespace.deep_view(),
            name: name@,
            type_args: type_args.deep_view(),
            segment_arities: segment_arities.deep_view(),
        }),
        t matches TypeRef::Array { element, rank, sizes, lower_bounds } ==> type_ref_model(t) == (
        TypeRefModel::Array {
            element: Box::new(nullable_model(*element)),
            rank,
            sizes: sizes.deep_view(),
            lower_bounds: lower_bounds.deep_view(),
        }),
{
    match t {
        TypeRef::Named { assembly, namespace, name, type_args, segment_arities } => {
            assert(type_ref_model(t)->type_args =~= type_args.deep_view());
            assert(segment_arities@ =~= segment_arities.deep_view());
        },
        TypeRef::Array { element, rank, sizes, lower_bounds } => {
            assert(sizes@ =~= sizes.deep_view());
            assert(lower_bounds@ =~= lower_bounds.deep_view());
        },
        _ => {},
    }
}

/// Whether two types are the same.
fn same_type_ref(a: &TypeRef, b: &TypeRef) -> (r: bool)
    ensures
        r == (type_ref_model(*a) == type_ref_model(*b)),
    decreases *a, 0nat,
{
    broadcast use lemma_type_ref_model_lists;

    match (a, b) {
        (TypeRef::Primitive(p), TypeRef::Primitive(q)) => p.same(q),
        (
            TypeRef::Named { assembly, namespace, name, type_args, segment_arities },
            TypeRef::Named {
                assembly: a2,
                namespace: n2,
                name: m2,
                type_args: t2,
                segment_arities: s2,
            },
        ) => assembly.same(a2) && namespace.same(n2) && name.same(m2) && segment_arities.same(s2)
            && same_nullables(type_args, t2),
        (
            TypeRef::Var { index, is_method },
            TypeRef::Var { index: i2, is_method: m2 },
        ) => *index == *i2 && *is_method == *m2,
        (
            TypeRef::Array { element, rank, sizes, lower_bounds },
            TypeRef::Array { element: e2, rank: r2, sizes: s2, lower_bounds: l2 },
        ) => *rank == *r2 && sizes.same(s2) && lower_bounds.same(l2) && same_nullable(element, e2),
        (TypeRef::Ptr(None), TypeRef::Ptr(None)) => true,
        (TypeRef::Ptr(Some(p)), TypeRef::Ptr(Some(q))) => same_type_ref(p, q),
        (
            TypeRef::ByRef { inner, readonly },
            TypeRef::ByRef { inner: i2, readonly: r2 },
        ) => *readonly == *r2 && same_type_ref(inner, i2),
        _ => false,
    }
}

/// Whether two type positions are the same.
fn same_nullable(a: &NullableType, b: &NullableType) -> (r: bool)
    ensures
        r == (nullable_model(*a) == nullable_model(*b)),
    decreases *a, 1nat,
{
    a.nullability.same(&b.nullability) && same_type_ref(&a.ty, &b.ty)
}

/// Whether two lists of type positions are the same.
fn same_nullables(a: &Vec<NullableType>, b: &Vec<NullableType>) -> (r: bool)
    ensures
        r == (a.deep_view() == b.deep_view()),
    decreases a@, 1nat,
{
    if a.len() != b.len() {
        assert(a.deep_view().len() != b.deep_view().len());
        return false;
    }
    let mut i: usize = 0;
    while i < a.len()
        invariant
            i <= a.len(),
            a.len() == b.len(),
            forall|j: int| 0 <= j < i ==> nullable_model(#[trigger] a@[j]) == nullable_model(b@[j]),
        decreases a.len() - i,
    {
        if !same_nullable(&a[i], &b[i]) {
            assert(a.deep_view()[i as int] != b.deep_view()[i as int]);
            return false;
        }
        i = i + 1;
    }
    assert(a.deep_view() =~= b.deep_view());
    true
}

impl Same for TypeRef {
    fn same(&self, other: &Self) -> (r: bool) {
        same_type_ref(self, other)
    }
}

impl Same for NullableType {
    fn same(&self, other: &Self) -> (r: bool) {
        same_nullable(self, other)
    }
}

/// A copy of a type.
fn dup_type_ref(t: &TypeRef) -> (r: TypeRef)
    ensures
        type_ref_model(r) == type_ref_model(*t),
    decreases *t, 0nat,
{
    broadcast use lemma_type_ref_model_lists;

    match t {
        TypeRef::Primitive(p) => TypeRef::Primitive(*p),
        TypeRef::Named { assembly, namespace, name, type_args, segment_arities } => {
            TypeRef::Named {
                assembly: assembly.dup(),
                namespace: namespace.dup(),
                name: name.dup(),
                type_args: dup_nullables(type_args),
                segment_arities: segment_arities.dup(),
            }
        },
        TypeRef::Var { index, is_method } => TypeRef::Var {
            index: *index,
            is_method: *is_method,
        },
        TypeRef::Array { element, rank, sizes, lower_bounds } => TypeRef::Array {
            element: Box::new(dup_nullable(element)),
            rank: *rank,
            sizes: sizes.dup(),
            lower_bounds: lower_bounds.dup(),
        },
        TypeRef::Ptr(None) => TypeRef::Ptr(None),
        TypeRef::Ptr(Some(p)) => TypeRef::Ptr(Some(Box::new(dup_type_ref(p)))),
        TypeRef::ByRef { inner, readonly } => TypeRef::ByRef {
            inner: Box::new(dup_type_ref(inner)),
            readonly: *readonly,
        },
    }
}

/// A copy of a type position.
fn dup_nullable(n: &NullableType) -> (r: NullableType)
    ensures
        nullable_model(r) == nullable_model(*n),
    decreases *n, 1nat,
{
    NullableType { ty: dup_type_ref(&n.ty), nullability: n.nullability }
}

/// A copy of a list of type positions.
fn dup_nullables(ns: &Vec<NullableType>) -> (r: Vec<NullableType>)
    ensures
        r.deep_view() == ns.deep_view(),
    decreases ns@, 1nat,
{
    let mut out: Vec<NullableType> = Vec::new();
    let mut i: usize = 0;
    while i < ns.len()
        invariant
            i <= ns.len(),
            out.len() == i,
            forall|j: int|
                0 <= j < i ==> nullable_model(#[trigger] out@[j]) == nullable_model(ns@[j]),
        decreases ns.len() - i,
    {
        out.push(dup_nullable(&ns[i]));
        i = i + 1;
    }
    assert(out.deep_view() =~= ns.deep_view());
    out
}

impl Duplicate for TypeRef {
    fn dup(&self) -> (r: Self) {
        dup_type_ref(self)
    }
}

impl Clone for TypeRef {
    fn clone(&self) -> (r: Self)
        ensures
            r.deep_view() == self.deep_view(),
    {
        dup_type_ref(self)
    }
}

impl Duplicate for NullableType {
    fn dup(&self) -> (r: Self) {
        dup_nullable(self)
    }
}

impl Clone for NullableType {
    fn clone(&self) -> (r: Self)
        ensures
            r.deep_view() == self.deep_view(),
    {
        dup_nullable(self)
    }
}

impl NullableType {
    /// `ty` in a position that carries no annotation.
    pub fn oblivious(ty: TypeRef) -> (r: Self)
        ensures
            r == (NullableType { ty, nullability: Nullability::Oblivious }),
    {
        NullableType { ty, nullability: Nullability::Oblivious }
    }
}

/// What an F# type abbreviation stands for, as the signature pickle names it.
///
/// `Named` without a `ccu` is a type of the same assembly; otherwise `ccu` is the
/// logical name of the assembly. `path` is the dotted path, not split between
/// namespace and nesting. `Var` is a generic parameter of the abbreviation, by
/// position.
#[derive(Debug, PartialEq, Eq, Hash)]
pub enum AbbreviationTarget {
    Named { ccu: Option<String>, path: Vec<String>, args: Vec<AbbreviationTarget> },
    Var(u16),
    Fun(Box<AbbreviationTarget>, Box<AbbreviationTarget>),
    Tuple { struct_kind: bool, elems: Vec<AbbreviationTarget> },
}

/// The model of an [`AbbreviationTarget`].
pub enum AbbreviationTargetModel {
    Named { ccu: Option<Seq<char>>, path: Seq<Seq<char>>, args: Seq<AbbreviationTargetModel> },
    Var(u16),
    Fun(Box<AbbreviationTargetModel>, Box<AbbreviationTargetModel>),
    Tuple { struct_kind: bool, elems: Seq<AbbreviationTargetModel> },
}

/// The model of `t`.
pub open spec fn target_model(t: AbbreviationTarget) -> AbbreviationTargetModel
    decreases t,
{
    match t {
        AbbreviationTarget::Named { ccu, path, args } => AbbreviationTargetModel::Named {
            ccu: ccu.deep_view(),
            path: path.deep_view(),
            args: Seq::new(
                args@.len(),
                |i: int|
                    if 0 <= i < args@.len() {
                        target_model(args@[i])
                    } else {
                        arbitrary()
                    },
            ),
        },
        AbbreviationTarget::Var(i) => AbbreviationTargetModel::Var(i),
        AbbreviationTarget::Fun(a, b) => AbbreviationTargetModel::Fun(
            Box::new(target_model(*a)),
            Box::new(target_model(*b)),
        ),
        AbbreviationTarget::Tuple { struct_kind, elems } => AbbreviationTargetModel::Tuple {
            struct_kind,
            elems: Seq::new(
                elems@.len(),
                |i: int|
                    if 0 <= i < elems@.len() {
                        target_model(elems@[i])
                    } else {
                        arbitrary()
                    },
            ),
        },
    }
}

impl DeepView for AbbreviationTarget {
    type V = AbbreviationTargetModel;

    open spec fn deep_view(&self) -> AbbreviationTargetModel {
        target_model(*self)
    }
}

/// The model of a target with a list of targets holds their models.
pub broadcast proof fn lemma_target_model_lists(t: AbbreviationTarget)
    ensures
        #![trigger target_model(t)]
        t matches AbbreviationTarget::Named { ccu, path, args } ==> target_model(t) == (
        AbbreviationTargetModel::Named {
            ccu: ccu.deep_view(),
            path: path.deep_view(),
            args: args.deep_view(),
        }),
        t matches AbbreviationTarget::Tuple { struct_kind, elems } ==> target_model(t) == (
        AbbreviationTargetModel::Tuple { struct_kind, elems: elems.deep_view() }),
{
    match t {
        AbbreviationTarget::Named { ccu, path, args } => {
            assert(target_model(t)->args =~= args.deep_view());
        },
        AbbreviationTarget::Tuple { struct_kind, elems } => {
            assert(target_model(t)->elems =~= elems.deep_view());
        },
        _ => {},
    }
}

/// Whether two targets are the same.
fn same_target(a: &AbbreviationTarget, b: &AbbreviationTarget) -> (r: bool)
    ensures
        r == (target_model(*a) == target_model(*b)),
    decreases *a, 0nat,
{
    broadcast use lemma_target_model_lists;

    match (a, b) {
        (
            AbbreviationTarget::Named { ccu, path, args },
            AbbreviationTarget::Named { ccu: c2, path: p2, args: a2 },
        ) => ccu.same(c2) && path.same(p2) && same_targets(args, a2),
        (AbbreviationTarget::Var(i), AbbreviationTarget::Var(j)) => *i == *j,
        (
            AbbreviationTarget::Fun(d, r),
            AbbreviationTarget::Fun(d2, r2),
        ) => same_target(d, d2) && same_target(r, r2),
        (
            AbbreviationTarget::Tuple { struct_kind, elems },
            AbbreviationTarget::Tuple { struct_kind: s2, elems: e2 },
        ) => *struct_kind == *s2 && same_targets(elems, e2),
        _ => false,
    }
}

/// Whether two lists of targets are the same.
fn same_targets(a: &Vec<AbbreviationTarget>, b: &Vec<AbbreviationTarget>) -> (r: bool)
    ensures
        r == (a.deep_view() == b.deep_view()),
    decreases a@, 1nat,
{
    if a.len() != b.len() {
        assert(a.deep_view().len() != b.deep_view().len());
        return false;
    }
    let mut i: usize = 0;
    while i < a.len()
        invariant
            i <= a.len(),
            a.len() == b.len(),
            forall|j: int| 0 <= j < i ==> target_model(#[trigger] a@[j]) == target_model(b@[j]),
        decreases a.len() - i,
    {
        if !same_target(&a[i], &b[i]) {
            assert(a.deep_view()[i as int] != b.deep_view()[i as int]);
            return false;
        }
        i = i + 1;
    }
    assert(a.deep_view() =~= b.deep_view());
    true
}

impl Same for AbbreviationTarget {
    fn same(&self, other: &Self) -> (r: bool) {
        same_target(self, other)
    }
}

/// A copy of a target.
fn dup_target(t: &AbbreviationTarget) -> (r: AbbreviationTarget)
    ensures
        target_model(r) == target_model(*t),
    decreases *t, 0nat,
{
    broadcast use lemma_target_model_lists;

    match t {
        AbbreviationTarget::Named { ccu, path, args } => AbbreviationTarget::Named {
            ccu: ccu.dup(),
            path: path.dup(),
            args: dup_targets(args),
        },
        AbbreviationTarget::Var(i) => AbbreviationTarget::Var(*i),
        AbbreviationTarget::Fun(a, b) => AbbreviationTarget::Fun(
            Box::new(dup_target(a)),
            Box::new(dup_target(b)),
        ),
        AbbreviationTarget::Tuple { struct_kind, elems } => AbbreviationTarget::Tuple {
            struct_kind: *struct_kind,
            elems: dup_targets(elems),
        },
    }
}

/// A copy of a list of targets.
fn dup_targets(ts: &Vec<AbbreviationTarget>) -> (r: Vec<AbbreviationTarget>)
    ensures
        r.deep_view() == ts.deep_view(),
    decreases ts@, 1nat,
{
    let mut out: Vec<AbbreviationTarget> = Vec::new();
    let mut i: usize = 0;
    while i < ts.len()
        invariant
            i <= ts.len(),
            out.len() == i,
            forall|j: int| 0 <= j < i ==> target_model(#[trigger] out@[j]) == target_model(ts@[j]),
        decreases ts.len() - i,
    {
        out.push(dup_target(&ts[i]));
        i = i + 1;
    }
    assert(out.deep_view() =~= ts.deep_view());
    out
}

impl Duplicate for AbbreviationTarget {
    fn dup(&self) -> (r: Self) {
        dup_target(self)
    }
}

impl Clone for AbbreviationTarget {
    fn clone(&self) -> (r: Self)
        ensures
            r.deep_view() == self.deep_view(),
    {
        dup_target(self)
    }
}


/// A generic parameter with its constraints.
#[derive(Debug, PartialEq, Eq, Hash)]
pub struct TypeParameter {
    pub name: String,
    pub variance: Variance,
    pub reference_type_constraint: bool,
    pub value_type_constraint: bool,
    pub default_constructor_constraint: bool,
    pub is_unmanaged: bool,
    pub allows_ref_struct: bool,
    pub nullability: Nullability,
    pub type_constraints: Vec<TypeRef>,
}

/// The model of a [`TypeParameter`].
pub struct TypeParameterModel {
    pub name: Seq<char>,
    pub variance: Variance,
    pub reference_type_constraint: bool,
    pub value_type_constraint: bool,
    pub default_constructor_constraint: bool,
    pub is_unmanaged: bool,
    pub allows_ref_struct: bool,
    pub nullability: Nullability,
    pub type_constraints: Seq<TypeRefModel>,
}

impl DeepView for TypeParameter {
    type V = TypeParameterModel;

    open spec fn deep_view(&self) -> TypeParameterModel {
        TypeParameterModel {
            name: self.name.deep_view(),
            variance: self.variance,
            reference_type_constraint: self.reference_type_constraint,
            value_type_constraint: self.value_type_constraint,
            default_constructor_constraint: self.default_constructor_constraint,
            is_unmanaged: self.is_unmanaged,
            allows_ref_struct: self.allows_ref_struct,
            nullability: self.nullability,
            type_constraints: self.type_constraints.deep_view(),
        }
    }
}

impl Same for TypeParameter {
    fn same(&self, other: &Self) -> (r: bool) {
        self.name.same(&other.name)
            && self.variance.same(&other.variance)
            && self.reference_type_constraint.same(&other.reference_type_constraint)
            && self.value_type_constraint.same(&other.value_type_constraint)
            && self.default_constructor_constraint.same(&other.default_constructor_constraint)
            && self.is_unmanaged.same(&other.is_unmanaged)
            && self.allows_ref_struct.same(&other.allows_ref_struct)
            && self.nullability.same(&other.nullability)
            && self.type_constraints.same(&other.type_constraints)
    }
}

impl Duplicate for TypeParameter {
    fn dup(&self) -> (r: Self) {
        TypeParameter {
            name: self.name.dup(),
            variance: self.variance.dup(),
            reference_type_constraint: self.reference_type_constraint.dup(),
            value_type_constraint: self.value_type_constraint.dup(),
            default_constructor_constraint: self.default_constructor_constraint.dup(),
            is_unmanaged: self.is_unmanaged.dup(),
            allows_ref_struct: self.allows_ref_struct.dup(),
            nullability: self.nullability.dup(),
            type_constraints: self.type_constraints.dup(),
        }
    }
}

impl Clone for TypeParameter {
    fn clone(&self) -> (r: Self)
        ensures
            r.deep_view() == self.deep_view(),
    {
        self.dup()
    }
}

/// A member that the projection could not model, and why.
#[derive(Debug, PartialEq, Eq, Hash)]
pub struct SkippedMember {
    pub name: String,
    pub reason: String,
}

/// The model of a [`SkippedMember`].
pub struct SkippedMemberModel {
    pub name: Seq<char>,
    pub reason: Seq<char>,
}

impl DeepView for SkippedMember {
    type V = SkippedMemberModel;

    open spec fn deep_view(&self) -> SkippedMemberModel {
        SkippedMemberModel {
            name: self.name.deep_view(),
            reason: self.reason.deep_view(),
        }
    }
}

impl Same for SkippedMember {
    fn same(&self, other: &Self) -> (r: bool) {
        self.name.same(&other.name)
            && self.reason.same(&other.reason)
    }
}

impl Duplicate for SkippedMember {
    fn dup(&self) -> (r: Self) {
        SkippedMember {
            name: self.name.dup(),
            reason: self.reason.dup(),
        }
    }
}

impl Clone for SkippedMember {
    fn clone(&self) -> (r: Self)
        ensures
            r.deep_view() == self.deep_view(),
    {
        self.dup()
    }
}

/// A type that the projection dropped, by its full metadata name, and why.
#[derive(Debug, PartialEq, Eq, Hash)]
pub struct SkippedProjectionItem {
    /// The namespace and name, with `/` before each nested type.
    pub name: String,
    pub reason: String,
}

/// The model of a [`SkippedProjectionItem`].
pub struct SkippedProjectionItemModel {
    pub name: Seq<char>,
    pub reason: Seq<char>,
}

impl DeepView for SkippedProjectionItem {
    type V = SkippedProjectionItemModel;

    open spec fn deep_view(&self) -> SkippedProjectionItemModel {
        SkippedProjectionItemModel {
            name: self.name.deep_view(),
            reason: self.reason.deep_view(),
        }
    }
}

impl Same for SkippedProjectionItem {
    fn same(&self, other: &Self) -> (r: bool) {
        self.name.same(&other.name)
            && self.reason.same(&other.reason)
    }
}

impl Duplicate for SkippedProjectionItem {
    fn dup(&self) -> (r: Self) {
        SkippedProjectionItem {
            name: self.name.dup(),
            reason: self.reason.dup(),
        }
    }
}

impl Clone for SkippedProjectionItem {
    fn clone(&self) -> (r: Self)
        ensures
            r.deep_view() == self.deep_view(),
    {
        self.dup()
    }
}

/// An F# overlay.
#[derive(Debug, Clone, Copy, PartialEq, Eq, Hash, Structural)]
pub enum FsharpOverlayKind {
    SourceName,
    Extension,
    Measure,
    AbbreviationMarkers,
    UnionCases,
}

impl DeepView for FsharpOverlayKind {
    type V = FsharpOverlayKind;

    open spec fn deep_view(&self) -> FsharpOverlayKind {
        *self
    }
}

impl Same for FsharpOverlayKind {
    fn same(&self, other: &Self) -> (r: bool) {
        *self == *other
    }
}

impl Duplicate for FsharpOverlayKind {
    fn dup(&self) -> (r: Self) {
        *self
    }
}

/// The overlays that could not be applied because of one resource, and why.
#[derive(Debug, PartialEq, Eq, Hash)]
pub struct SkippedFsharpOverlay {
    pub resource_name: String,
    pub overlays: Vec<FsharpOverlayKind>,
    pub reason: String,
}

/// The model of a [`SkippedFsharpOverlay`].
pub struct SkippedFsharpOverlayModel {
    pub resource_name: Seq<char>,
    pub overlays: Seq<FsharpOverlayKind>,
    pub reason: Seq<char>,
}

impl DeepView for SkippedFsharpOverlay {
    type V = SkippedFsharpOverlayModel;

    open spec fn deep_view(&self) -> SkippedFsharpOverlayModel {
        SkippedFsharpOverlayModel {
            resource_name: self.resource_name.deep_view(),
            overlays: self.overlays.deep_view(),
            reason: self.reason.deep_view(),
        }
    }
}

impl Same for SkippedFsharpOverlay {
    fn same(&self, other: &Self) -> (r: bool) {
        self.resource_name.same(&other.resource_name)
            && self.overlays.same(&other.overlays)
            && self.reason.same(&other.reason)
    }
}

impl Duplicate for SkippedFsharpOverlay {
    fn dup(&self) -> (r: Self) {
        SkippedFsharpOverlay {
            resource_name: self.resource_name.dup(),
            overlays: self.overlays.dup(),
            reason: self.reason.dup(),
        }
    }
}

impl Clone for SkippedFsharpOverlay {
    fn clone(&self) -> (r: Self)
        ensures
            r.deep_view() == self.deep_view(),
    {
        self.dup()
    }
}

/// What the projection of an assembly left out.
#[derive(Debug, PartialEq, Eq, Hash, Default)]
pub struct AssemblyProjectionSkips {
    pub dropped_types: Vec<SkippedProjectionItem>,
    pub skipped_fsharp_overlays: Vec<SkippedFsharpOverlay>,
    /// Whether there may be abbreviations that no marker stands for.
    pub fsharp_abbreviations_unknowable: bool,
    /// Whether there may be extension members that no index lists.
    pub fsharp_extension_index_unknowable: bool,
    /// Whether the host pickle does not describe the whole image.
    pub fsharp_signature_non_authoritative: bool,
}

/// The model of an [`AssemblyProjectionSkips`].
pub struct AssemblyProjectionSkipsModel {
    pub dropped_types: Seq<SkippedProjectionItemModel>,
    pub skipped_fsharp_overlays: Seq<SkippedFsharpOverlayModel>,
    pub fsharp_abbreviations_unknowable: bool,
    pub fsharp_extension_index_unknowable: bool,
    pub fsharp_signature_non_authoritative: bool,
}

impl DeepView for AssemblyProjectionSkips {
    type V = AssemblyProjectionSkipsModel;

    open spec fn deep_view(&self) -> AssemblyProjectionSkipsModel {
        AssemblyProjectionSkipsModel {
            dropped_types: self.dropped_types.deep_view(),
            skipped_fsharp_overlays: self.skipped_fsharp_overlays.deep_view(),
            fsharp_abbreviations_unknowable: self.fsharp_abbreviations_unknowable,
            fsharp_extension_index_unknowable: self.fsharp_extension_index_unknowable,
            fsharp_signature_non_authoritative: self.fsharp_signature_non_authoritative,
        }
    }
}

impl Same for AssemblyProjectionSkips {
    fn same(&self, other: &Self) -> (r: bool) {
        self.dropped_types.same(&other.dropped_types)
            && self.skipped_fsharp_overlays.same(&other.skipped_fsharp_overlays)
            && self.fsharp_abbreviations_unknowable.same(&other.fsharp_abbreviations_unknowable)
            && self.fsharp_extension_index_unknowable.same(&other.fsharp_extension_index_unknowable)
            && self.fsharp_signature_non_authoritative.same(
            &other.fsharp_signature_non_authoritative,
        )
    }
}

impl Duplicate for AssemblyProjectionSkips {
    fn dup(&self) -> (r: Self) {
        AssemblyProjectionSkips {
            dropped_types: self.dropped_types.dup(),
            skipped_fsharp_overlays: self.skipped_fsharp_overlays.dup(),
            fsharp_abbreviations_unknowable: self.fsharp_abbreviations_unknowable.dup(),
            fsharp_extension_index_unknowable: self.fsharp_extension_index_unknowable.dup(),
            fsharp_signature_non_authoritative: self.fsharp_signature_non_authoritative.dup(),
        }
    }
}

impl Clone for AssemblyProjectionSkips {
    fn clone(&self) -> (r: Self)
        ensures
            r.deep_view() == self.deep_view(),
    {
        self.dup()
    }
}

/// Whether a member of a module extends another type.
#[derive(Debug, Clone, Copy, PartialEq, Eq, Hash, Default, Structural)]
pub enum Augmentation {
    #[default]
    No,
    Certain,
    Possible,
}

impl DeepView for Augmentation {
    type V = Augmentation;

    open spec fn deep_view(&self) -> Augmentation {
        *self
    }
}

impl Same for Augmentation {
    fn same(&self, other: &Self) -> (r: bool) {
        *self == *other
    }
}

impl Duplicate for Augmentation {
    fn dup(&self) -> (r: Self) {
        *self
    }
}

/// An `[Obsolete]` attribute.
#[derive(Debug, PartialEq, Eq, Hash)]
pub struct Obsolete {
    pub message: Option<String>,
    pub is_error: bool,
}

/// The model of an [`Obsolete`].
pub struct ObsoleteModel {
    pub message: Option<Seq<char>>,
    pub is_error: bool,
}

impl DeepView for Obsolete {
    type V = ObsoleteModel;

    open spec fn deep_view(&self) -> ObsoleteModel {
        ObsoleteModel {
            message: self.message.deep_view(),
            is_error: self.is_error,
        }
    }
}

impl Same for Obsolete {
    fn same(&self, other: &Self) -> (r: bool) {
        self.message.same(&other.message)
            && self.is_error.same(&other.is_error)
    }
}

impl Duplicate for Obsolete {
    fn dup(&self) -> (r: Self) {
        Obsolete {
            message: self.message.dup(),
            is_error: self.is_error.dup(),
        }
    }
}

impl Clone for Obsolete {
    fn clone(&self) -> (r: Self)
        ensures
            r.deep_view() == self.deep_view(),
    {
        self.dup()
    }
}

/// An `[Experimental]` attribute.
#[derive(Debug, PartialEq, Eq, Hash)]
pub struct Experimental {
    pub diagnostic_id: Option<String>,
    pub url_format: Option<String>,
    pub message: Option<String>,
}

/// The model of an [`Experimental`].
pub struct ExperimentalModel {
    pub diagnostic_id: Option<Seq<char>>,
    pub url_format: Option<Seq<char>>,
    pub message: Option<Seq<char>>,
}

impl DeepView for Experimental {
    type V = ExperimentalModel;

    open spec fn deep_view(&self) -> ExperimentalModel {
        ExperimentalModel {
            diagnostic_id: self.diagnostic_id.deep_view(),
            url_format: self.url_format.deep_view(),
            message: self.message.deep_view(),
        }
    }
}

impl Same for Experimental {
    fn same(&self, other: &Self) -> (r: bool) {
        self.diagnostic_id.same(&other.diagnostic_id)
            && self.url_format.same(&other.url_format)
            && self.message.same(&other.message)
    }
}

impl Duplicate for Experimental {
    fn dup(&self) -> (r: Self) {
        Experimental {
            diagnostic_id: self.diagnostic_id.dup(),
            url_format: self.url_format.dup(),
            message: self.message.dup(),
        }
    }
}

impl Clone for Experimental {
    fn clone(&self) -> (r: Self)
        ensures
            r.deep_view() == self.deep_view(),
    {
        self.dup()
    }
}

/// A `[DefaultMember]` attribute.
#[derive(Debug, PartialEq, Eq, Hash)]
pub enum DefaultMember {
    Named(String),
    Unknown,
}

/// The model of a [`DefaultMember`].
pub enum DefaultMemberModel {
    Named(Seq<char>),
    Unknown,
}

impl DeepView for DefaultMember {
    type V = DefaultMemberModel;

    open spec fn deep_view(&self) -> DefaultMemberModel {
        match self {
            DefaultMember::Named(a) => DefaultMemberModel::Named(a.deep_view()),
            DefaultMember::Unknown => DefaultMemberModel::Unknown,
        }
    }
}

impl Same for DefaultMember {
    fn same(&self, other: &Self) -> (r: bool) {
        match (self, other) {
            (DefaultMember::Named(xa), DefaultMember::Named(ya)) => xa.same(ya),
            (DefaultMember::Unknown, DefaultMember::Unknown) => true,
            _ => false,
        }
    }
}

impl Duplicate for DefaultMember {
    fn dup(&self) -> (r: Self) {
        match self {
            DefaultMember::Named(a) => DefaultMember::Named(a.dup()),
            DefaultMember::Unknown => DefaultMember::Unknown,
        }
    }
}

impl Clone for DefaultMember {
    fn clone(&self) -> (r: Self)
        ensures
            r.deep_view() == self.deep_view(),
    {
        self.dup()
    }
}

/// A `[CompilerFeatureRequired]` attribute.
#[derive(Debug, PartialEq, Eq, Hash)]
pub struct CompilerFeatureRequired {
    pub feature: String,
    pub is_optional: bool,
}

/// The model of a [`CompilerFeatureRequired`].
pub struct CompilerFeatureRequiredModel {
    pub feature: Seq<char>,
    pub is_optional: bool,
}

impl DeepView for CompilerFeatureRequired {
    type V = CompilerFeatureRequiredModel;

    open spec fn deep_view(&self) -> CompilerFeatureRequiredModel {
        CompilerFeatureRequiredModel {
            feature: self.feature.deep_view(),
            is_optional: self.is_optional,
        }
    }
}

impl Same for CompilerFeatureRequired {
    fn same(&self, other: &Self) -> (r: bool) {
        self.feature.same(&other.feature)
            && self.is_optional.same(&other.is_optional)
    }
}

impl Duplicate for CompilerFeatureRequired {
    fn dup(&self) -> (r: Self) {
        CompilerFeatureRequired {
            feature: self.feature.dup(),
            is_optional: self.is_optional.dup(),
        }
    }
}

impl Clone for CompilerFeatureRequired {
    fn clone(&self) -> (r: Self)
        ensures
            r.deep_view() == self.deep_view(),
    {
        self.dup()
    }
}

/// What marks a method as the getter of a module value.
#[derive(Debug, Clone, Copy, PartialEq, Eq, Hash, Structural)]
pub struct ModuleValue {
    pub is_mutable: bool,
}

impl DeepView for ModuleValue {
    type V = ModuleValue;

    open spec fn deep_view(&self) -> ModuleValue {
        *self
    }
}

impl Same for ModuleValue {
    fn same(&self, other: &Self) -> (r: bool) {
        *self == *other
    }
}

impl Duplicate for ModuleValue {
    fn dup(&self) -> (r: Self) {
        *self
    }
}

/// A source range.
#[derive(Debug, PartialEq, Eq, Hash)]
pub struct FsharpSourceRange {
    pub file: String,
    pub start_line: u32,
    pub start_column: u32,
    pub end_line: u32,
    pub end_column: u32,
}

/// The model of a [`FsharpSourceRange`].
pub struct FsharpSourceRangeModel {
    pub file: Seq<char>,
    pub start_line: u32,
    pub start_column: u32,
    pub end_line: u32,
    pub end_column: u32,
}

impl DeepView for FsharpSourceRange {
    type V = FsharpSourceRangeModel;

    open spec fn deep_view(&self) -> FsharpSourceRangeModel {
        FsharpSourceRangeModel {
            file: self.file.deep_view(),
            start_line: self.start_line,
            start_column: self.start_column,
            end_line: self.end_line,
            end_column: self.end_column,
        }
    }
}

impl Same for FsharpSourceRange {
    fn same(&self, other: &Self) -> (r: bool) {
        self.file.same(&other.file)
            && self.start_line.same(&other.start_line)
            && self.start_column.same(&other.start_column)
            && self.end_line.same(&other.end_line)
            && self.end_column.same(&other.end_column)
    }
}

impl Duplicate for FsharpSourceRange {
    fn dup(&self) -> (r: Self) {
        FsharpSourceRange {
            file: self.file.dup(),
            start_line: self.start_line.dup(),
            start_column: self.start_column.dup(),
            end_line: self.end_line.dup(),
            end_column: self.end_column.dup(),
        }
    }
}

impl Clone for FsharpSourceRange {
    fn clone(&self) -> (r: Self)
        ensures
            r.deep_view() == self.deep_view(),
    {
        self.dup()
    }
}

/// A method implementation whose target could not be classified.
#[derive(Debug, PartialEq, Eq, Hash)]
pub struct UnclassifiedMethodImpl {
    pub parent: TypeRef,
    pub member: String,
}

/// The model of an [`UnclassifiedMethodImpl`].
pub struct UnclassifiedMethodImplModel {
    pub parent: TypeRefModel,
    pub member: Seq<char>,
}

impl DeepView for UnclassifiedMethodImpl {
    type V = UnclassifiedMethodImplModel;

    open spec fn deep_view(&self) -> UnclassifiedMethodImplModel {
        UnclassifiedMethodImplModel {
            parent: self.parent.deep_view(),
            member: self.member.deep_view(),
        }
    }
}

impl Same for UnclassifiedMethodImpl {
    fn same(&self, other: &Self) -> (r: bool) {
        self.parent.same(&other.parent)
            && self.member.same(&other.member)
    }
}

impl Duplicate for UnclassifiedMethodImpl {
    fn dup(&self) -> (r: Self) {
        UnclassifiedMethodImpl {
            parent: self.parent.dup(),
            member: self.member.dup(),
        }
    }
}

impl Clone for UnclassifiedMethodImpl {
    fn clone(&self) -> (r: Self)
        ensures
            r.deep_view() == self.deep_view(),
    {
        self.dup()
    }
}

/// The interface member that a member implements.
#[derive(Debug, PartialEq, Eq, Hash)]
pub enum ImplementedMember {
    Method(String),
    Property(String),
    Event(String),
    Unresolved(String),
}

/// The model of an [`ImplementedMember`].
pub enum ImplementedMemberModel {
    Method(Seq<char>),
    Property(Seq<char>),
    Event(Seq<char>),
    Unresolved(Seq<char>),
}

impl DeepView for ImplementedMember {
    type V = ImplementedMemberModel;

    open spec fn deep_view(&self) -> ImplementedMemberModel {
        match self {
            ImplementedMember::Method(a) => ImplementedMemberModel::Method(a.deep_view()),
            ImplementedMember::Property(a) => ImplementedMemberModel::Property(a.deep_view()),
            ImplementedMember::Event(a) => ImplementedMemberModel::Event(a.deep_view()),
            ImplementedMember::Unresolved(a) => ImplementedMemberModel::Unresolved(a.deep_view()),
        }
    }
}

impl Same for ImplementedMember {
    fn same(&self, other: &Self) -> (r: bool) {
        match (self, other) {
            (ImplementedMember::Method(xa), ImplementedMember::Method(ya)) => xa.same(ya),
            (ImplementedMember::Property(xa), ImplementedMember::Property(ya)) => xa.same(ya),
            (ImplementedMember::Event(xa), ImplementedMember::Event(ya)) => xa.same(ya),
            (ImplementedMember::Unresolved(xa), ImplementedMember::Unresolved(ya)) => xa.same(ya),
            _ => false,
        }
    }
}

impl Duplicate for ImplementedMember {
    fn dup(&self) -> (r: Self) {
        match self {
            ImplementedMember::Method(a) => ImplementedMember::Method(a.dup()),
            ImplementedMember::Property(a) => ImplementedMember::Property(a.dup()),
            ImplementedMember::Event(a) => ImplementedMember::Event(a.dup()),
            ImplementedMember::Unresolved(a) => ImplementedMember::Unresolved(a.dup()),
        }
    }
}

impl Clone for ImplementedMember {
    fn clone(&self) -> (r: Self)
        ensures
            r.deep_view() == self.deep_view(),
    {
        self.dup()
    }
}

/// An explicit implementation of an interface member.
#[derive(Debug, PartialEq, Eq, Hash)]
pub struct InterfaceMemberImpl {
    pub interface: TypeRef,
    pub member: ImplementedMember,
}

/// The model of an [`InterfaceMemberImpl`].
pub struct InterfaceMemberImplModel {
    pub interface: TypeRefModel,
    pub member: ImplementedMemberModel,
}

impl DeepView for InterfaceMemberImpl {
    type V = InterfaceMemberImplModel;

    open spec fn deep_view(&self) -> InterfaceMemberImplModel {
        InterfaceMemberImplModel {
            interface: self.interface.deep_view(),
            member: self.member.deep_view(),
        }
    }
}

impl Same for InterfaceMemberImpl {
    fn same(&self, other: &Self) -> (r: bool) {
        self.interface.same(&other.interface)
            && self.member.same(&other.member)
    }
}

impl Duplicate for InterfaceMemberImpl {
    fn dup(&self) -> (r: Self) {
        InterfaceMemberImpl {
            interface: self.interface.dup(),
            member: self.member.dup(),
        }
    }
}

impl Clone for InterfaceMemberImpl {
    fn clone(&self) -> (r: Self)
        ensures
            r.deep_view() == self.deep_view(),
    {
        self.dup()
    }
}

/// A constant. Floating-point constants are kept as their bit patterns.
#[derive(Debug, PartialEq, Eq, Hash)]
pub enum ConstantValue {
    Bool(bool),
    Char(char),
    Int(i64),
    UInt(u64),
    F32(u32),
    F64(u64),
    String(String),
    Null,
    Decimal { negative: bool, scale: u8, mantissa: u128 },
    DateTime(i64),
}

/// The model of a [`ConstantValue`].
pub enum ConstantValueModel {
    Bool(bool),
    Char(char),
    Int(i64),
    UInt(u64),
    F32(u32),
    F64(u64),
    String(Seq<char>),
    Null,
    Decimal { negative: bool, scale: u8, mantissa: u128 },
    DateTime(i64),
}

impl DeepView for ConstantValue {
    type V = ConstantValueModel;

    open spec fn deep_view(&self) -> ConstantValueModel {
        match self {
            ConstantValue::Bool(a) => ConstantValueModel::Bool(*a),
            ConstantValue::Char(a) => ConstantValueModel::Char(*a),
            ConstantValue::Int(a) => ConstantValueModel::Int(*a),
            ConstantValue::UInt(a) => ConstantValueModel::UInt(*a),
            ConstantValue::F32(a) => ConstantValueModel::F32(*a),
            ConstantValue::F64(a) => ConstantValueModel::F64(*a),
            ConstantValue::String(a) => ConstantValueModel::String(a.deep_view()),
            ConstantValue::Null => ConstantValueModel::Null,
            ConstantValue::Decimal { negative, scale, mantissa } => {
                ConstantValueModel::Decimal {
                    negative: *negative,
                    scale: *scale,
                    mantissa: *mantissa,
                }
            },
            ConstantValue::DateTime(a) => ConstantValueModel::DateTime(*a),
        }
    }
}

impl Same for ConstantValue {
    fn same(&self, other: &Self) -> (r: bool) {
        match (self, other) {
            (ConstantValue::Bool(xa), ConstantValue::Bool(ya)) => xa.same(ya),
            (ConstantValue::Char(xa), ConstantValue::Char(ya)) => xa.same(ya),
            (ConstantValue::Int(xa), ConstantValue::Int(ya)) => xa.same(ya),
            (ConstantValue::UInt(xa), ConstantValue::UInt(ya)) => xa.same(ya),
            (ConstantValue::F32(xa), ConstantValue::F32(ya)) => xa.same(ya),
            (ConstantValue::F64(xa), ConstantValue::F64(ya)) => xa.same(ya),
            (ConstantValue::String(xa), ConstantValue::String(ya)) => xa.same(ya),
            (ConstantValue::Null, ConstantValue::Null) => true,
            (
                ConstantValue::Decimal { negative, scale, mantissa },
                ConstantValue::Decimal {
                    negative: y_negative,
                    scale: y_scale,
                    mantissa: y_mantissa,
                },
            ) => negative.same(y_negative) && scale.same(y_scale) && mantissa.same(y_mantissa),
            (ConstantValue::DateTime(xa), ConstantValue::DateTime(ya)) => xa.same(ya),
            _ => false,
        }
    }
}

impl Duplicate for ConstantValue {
    fn dup(&self) -> (r: Self) {
        match self {
            ConstantValue::Bool(a) => ConstantValue::Bool(a.dup()),
            ConstantValue::Char(a) => ConstantValue::Char(a.dup()),
            ConstantValue::Int(a) => ConstantValue::Int(a.dup()),
            ConstantValue::UInt(a) => ConstantValue::UInt(a.dup()),
            ConstantValue::F32(a) => ConstantValue::F32(a.dup()),
            ConstantValue::F64(a) => ConstantValue::F64(a.dup()),
            ConstantValue::String(a) => ConstantValue::String(a.dup()),
            ConstantValue::Null => ConstantValue::Null,
            ConstantValue::Decimal { negative, scale, mantissa } => {
                ConstantValue::Decimal {
                    negative: negative.dup(),
                    scale: scale.dup(),
                    mantissa: mantissa.dup(),
                }
            },
            ConstantValue::DateTime(a) => ConstantValue::DateTime(a.dup()),
        }
    }
}

impl Clone for ConstantValue {
    fn clone(&self) -> (r: Self)
        ensures
            r.deep_view() == self.deep_view(),
    {
        self.dup()
    }
}

/// The default value of a parameter.
#[derive(Debug, PartialEq, Eq, Hash)]
pub enum ParamDefault {
    NoDefault,
    FSharpOptional,
    Optional(Option<ConstantValue>),
}

/// The model of a [`ParamDefault`].
pub enum ParamDefaultModel {
    NoDefault,
    FSharpOptional,
    Optional(Option<ConstantValueModel>),
}

impl DeepView for ParamDefault {
    type V = ParamDefaultModel;

    open spec fn deep_view(&self) -> ParamDefaultModel {
        match self {
            ParamDefault::NoDefault => ParamDefaultModel::NoDefault,
            ParamDefault::FSharpOptional => ParamDefaultModel::FSharpOptional,
            ParamDefault::Optional(a) => ParamDefaultModel::Optional(a.deep_view()),
        }
    }
}

impl Same for ParamDefault {
    fn same(&self, other: &Self) -> (r: bool) {
        match (self, other) {
            (ParamDefault::NoDefault, ParamDefault::NoDefault) => true,
            (ParamDefault::FSharpOptional, ParamDefault::FSharpOptional) => true,
            (ParamDefault::Optional(xa), ParamDefault::Optional(ya)) => xa.same(ya),
            _ => false,
        }
    }
}

impl Duplicate for ParamDefault {
    fn dup(&self) -> (r: Self) {
        match self {
            ParamDefault::NoDefault => ParamDefault::NoDefault,
            ParamDefault::FSharpOptional => ParamDefault::FSharpOptional,
            ParamDefault::Optional(a) => ParamDefault::Optional(a.dup()),
        }
    }
}

impl Clone for ParamDefault {
    fn clone(&self) -> (r: Self)
        ensures
            r.deep_view() == self.deep_view(),
    {
        self.dup()
    }
}

/// A parameter of a method.
#[derive(Debug, PartialEq, Eq, Hash)]
pub struct Parameter {
    pub name: Option<String>,
    pub ty: TypeRef,
    pub is_byref: bool,
    pub is_out: bool,
    pub is_readonly_ref: bool,
    pub default: ParamDefault,
    pub is_param_array: bool,
    pub nullability: Nullability,
}

/// The model of a [`Parameter`].
pub struct ParameterModel {
    pub name: Option<Seq<char>>,
    pub ty: TypeRefModel,
    pub is_byref: bool,
    pub is_out: bool,
    pub is_readonly_ref: bool,
    pub default: ParamDefaultModel,
    pub is_param_array: bool,
    pub nullability: Nullability,
}

impl DeepView for Parameter {
    type V = ParameterModel;

    open spec fn deep_view(&self) -> ParameterModel {
        ParameterModel {
            name: self.name.deep_view(),
            ty: self.ty.deep_view(),
            is_byref: self.is_byref,
            is_out: self.is_out,
            is_readonly_ref: self.is_readonly_ref,
            default: self.default.deep_view(),
            is_param_array: self.is_param_array,
            nullability: self.nullability,
        }
    }
}

impl Same for Parameter {
    fn same(&self, other: &Self) -> (r: bool) {
        self.name.same(&other.name)
            && self.ty.same(&other.ty)
            && self.is_byref.same(&other.is_byref)
            && self.is_out.same(&other.is_out)
            && self.is_readonly_ref.same(&other.is_readonly_ref)
            && self.default.same(&other.default)
            && self.is_param_array.same(&other.is_param_array)
            && self.nullability.same(&other.nullability)
    }
}

impl Duplicate for Parameter {
    fn dup(&self) -> (r: Self) {
        Parameter {
            name: self.name.dup(),
            ty: self.ty.dup(),
            is_byref: self.is_byref.dup(),
            is_out: self.is_out.dup(),
            is_readonly_ref: self.is_readonly_ref.dup(),
            default: self.default.dup(),
            is_param_array: self.is_param_array.dup(),
            nullability: self.nullability.dup(),
        }
    }
}

impl Clone for Parameter {
    fn clone(&self) -> (r: Self)
        ensures
            r.deep_view() == self.deep_view(),
    {
        self.dup()
    }
}

/// The signature of a method.
#[derive(Debug, PartialEq, Eq, Hash)]
pub struct MethodSignature {
    pub parameters: Vec<Parameter>,
    pub return_type: TypeRef,
    pub return_nullability: Nullability,
}

/// The model of a [`MethodSignature`].
pub struct MethodSignatureModel {
    pub parameters: Seq<ParameterModel>,
    pub return_type: TypeRefModel,
    pub return_nullability: Nullability,
}

impl DeepView for MethodSignature {
    type V = MethodSignatureModel;

    open spec fn deep_view(&self) -> MethodSignatureModel {
        MethodSignatureModel {
            parameters: self.parameters.deep_view(),
            return_type: self.return_type.deep_view(),
            return_nullability: self.return_nullability,
        }
    }
}

impl Same for MethodSignature {
    fn same(&self, other: &Self) -> (r: bool) {
        self.parameters.same(&other.parameters)
            && self.return_type.same(&other.return_type)
            && self.return_nullability.same(&other.return_nullability)
    }
}

impl Duplicate for MethodSignature {
    fn dup(&self) -> (r: Self) {
        MethodSignature {
            parameters: self.parameters.dup(),
            return_type: self.return_type.dup(),
            return_nullability: self.return_nullability.dup(),
        }
    }
}

impl Clone for MethodSignature {
    fn clone(&self) -> (r: Self)
        ensures
            r.deep_view() == self.deep_view(),
    {
        self.dup()
    }
}

/// A custom attribute that no typed field stands for, with its raw blob.
#[derive(Debug, PartialEq, Eq, Hash)]
pub struct CustomAttr {
    pub attribute_type: TypeRef,
    pub blob: Vec<u8>,
}

/// The model of a [`CustomAttr`].
pub struct CustomAttrModel {
    pub attribute_type: TypeRefModel,
    pub blob: Seq<u8>,
}

impl DeepView for CustomAttr {
    type V = CustomAttrModel;

    open spec fn deep_view(&self) -> CustomAttrModel {
        CustomAttrModel {
            attribute_type: self.attribute_type.deep_view(),
            blob: self.blob.deep_view(),
        }
    }
}

impl Same for CustomAttr {
    fn same(&self, other: &Self) -> (r: bool) {
        self.attribute_type.same(&other.attribute_type)
            && self.blob.same(&other.blob)
    }
}

impl Duplicate for CustomAttr {
    fn dup(&self) -> (r: Self) {
        CustomAttr {
            attribute_type: self.attribute_type.dup(),
            blob: self.blob.dup(),
        }
    }
}

impl Clone for CustomAttr {
    fn clone(&self) -> (r: Self)
        ensures
            r.deep_view() == self.deep_view(),
    {
        self.dup()
    }
}

/// A method, a constructor, or the getter of a module value.
#[derive(Debug, PartialEq, Eq, Hash)]
pub struct MethodLike {
    /// The name in the metadata.
    pub name: String,
    pub access: Access,
    pub signature: MethodSignature,
    pub arg_group_count: Option<usize>,
    pub is_static: bool,
    pub is_virtual: bool,
    pub is_abstract: bool,
    pub is_final: bool,
    pub is_newslot: bool,
    pub is_hide_by_sig: bool,
    pub is_constructor: bool,
    /// Whether it is surfaced as an instance extension.
    pub is_extension_method: bool,
    pub augmentation: Augmentation,
    /// Set on the getter of a module value.
    pub module_value: Option<ModuleValue>,
    /// Whether the binding behind it takes no argument group.
    pub is_module_value_binding: bool,
    pub definition_range: Option<Box<FsharpSourceRange>>,
    pub generic_parameters: Vec<TypeParameter>,
    pub obsolete: Option<Obsolete>,
    pub experimental: Option<Experimental>,
    pub sets_required_members: bool,
    pub compiler_feature_required: Vec<CompilerFeatureRequired>,
    /// The F# name, where it differs from the metadata name.
    pub source_name: Option<String>,
    pub custom_attrs: Vec<CustomAttr>,
    pub metadata_token: u32,
    pub implements: Vec<InterfaceMemberImpl>,
    pub unclassified_impls: Vec<UnclassifiedMethodImpl>,
}

/// The model of a [`MethodLike`].
pub struct MethodLikeModel {
    pub name: Seq<char>,
    pub access: Access,
    pub signature: MethodSignatureModel,
    pub arg_group_count: Option<usize>,
    pub is_static: bool,
    pub is_virtual: bool,
    pub is_abstract: bool,
    pub is_final: bool,
    pub is_newslot: bool,
    pub is_hide_by_sig: bool,
    pub is_constructor: bool,
    pub is_extension_method: bool,
    pub augmentation: Augmentation,
    pub module_value: Option<ModuleValue>,
    pub is_module_value_binding: bool,
    pub definition_range: Option<FsharpSourceRangeModel>,
    pub generic_parameters: Seq<TypeParameterModel>,
    pub obsolete: Option<ObsoleteModel>,
    pub experimental: Option<ExperimentalModel>,
    pub sets_required_members: bool,
    pub compiler_feature_required: Seq<CompilerFeatureRequiredModel>,
    pub source_name: Option<Seq<char>>,
    pub custom_attrs: Seq<CustomAttrModel>,
    pub metadata_token: u32,
    pub implements: Seq<InterfaceMemberImplModel>,
    pub unclassified_impls: Seq<UnclassifiedMethodImplModel>,
}

impl DeepView for MethodLike {
    type V = MethodLikeModel;

    open spec fn deep_view(&self) -> MethodLikeModel {
        MethodLikeModel {
            name: self.name.deep_view(),
            access: self.access,
            signature: self.signature.deep_view(),
            arg_group_count: self.arg_group_count.deep_view(),
            is_static: self.is_static,
            is_virtual: self.is_virtual,
            is_abstract: self.is_abstract,
            is_final: self.is_final,
            is_newslot: self.is_newslot,
            is_hide_by_sig: self.is_hide_by_sig,
            is_constructor: self.is_constructor,
            is_extension_method: self.is_extension_method,
            augmentation: self.augmentation,
            module_value: self.module_value.deep_view(),
            is_module_value_binding: self.is_module_value_binding,
            definition_range: self.definition_range.deep_view(),
            generic_parameters: self.generic_parameters.deep_view(),
            obsolete: self.obsolete.deep_view(),
            experimental: self.experimental.deep_view(),
            sets_required_members: self.sets_required_members,
            compiler_feature_required: self.compiler_feature_required.deep_view(),
            source_name: self.source_name.deep_view(),
            custom_attrs: self.custom_attrs.deep_view(),
            metadata_token: self.metadata_token,
            implements: self.implements.deep_view(),
            unclassified_impls: self.unclassified_impls.deep_view(),
        }
    }
}

impl Same for MethodLike {
    fn same(&self, other: &Self) -> (r: bool) {
        self.name.same(&other.name)
            && self.access.same(&other.access)
            && self.signature.same(&other.signature)
            && self.arg_group_count.same(&other.arg_group_count)
            && self.is_static.same(&other.is_static)
            && self.is_virtual.same(&other.is_virtual)
            && self.is_abstract.same(&other.is_abstract)
            && self.is_final.same(&other.is_final)
            && self.is_newslot.same(&other.is_newslot)
            && self.is_hide_by_sig.same(&other.is_hide_by_sig)
            && self.is_constructor.same(&other.is_constructor)
            && self.is_extension_method.same(&other.is_extension_method)
            && self.augmentation.same(&other.augmentation)
            && self.module_value.same(&other.module_value)
            && self.is_module_value_binding.same(&other.is_module_value_binding)
            && self.definition_range.same(&other.definition_range)
            && self.generic_parameters.same(&other.generic_parameters)
            && self.obsolete.same(&other.obsolete)
            && self.experimental.same(&other.experimental)
            && self.sets_required_members.same(&other.sets_required_members)
            && self.compiler_feature_required.same(&other.compiler_feature_required)
            && self.source_name.same(&other.source_name)
            && self.custom_attrs.same(&other.custom_attrs)
            && self.metadata_token.same(&other.metadata_token)
            && self.implements.same(&other.implements)
            && self.unclassified_impls.same(&other.unclassified_impls)
    }
}

impl Duplicate for MethodLike {
    fn dup(&self) -> (r: Self) {
        MethodLike {
            name: self.name.dup(),
            access: self.access.dup(),
            signature: self.signature.dup(),
            arg_group_count: self.arg_group_count.dup(),
            is_static: self.is_static.dup(),
            is_virtual: self.is_virtual.dup(),
            is_abstract: self.is_abstract.dup(),
            is_final: self.is_final.dup(),
            is_newslot: self.is_newslot.dup(),
            is_hide_by_sig: self.is_hide_by_sig.dup(),
            is_constructor: self.is_constructor.dup(),
            is_extension_method: self.is_extension_method.dup(),
            augmentation: self.augmentation.dup(),
            module_value: self.module_value.dup(),
            is_module_value_binding: self.is_module_value_binding.dup(),
            definition_range: self.definition_range.dup(),
            generic_parameters: self.generic_parameters.dup(),
            obsolete: self.obsolete.dup(),
            experimental: self.experimental.dup(),
            sets_required_members: self.sets_required_members.dup(),
            compiler_feature_required: self.compiler_feature_required.dup(),
            source_name: self.source_name.dup(),
            custom_attrs: self.custom_attrs.dup(),
            metadata_token: self.metadata_token.dup(),
            implements: self.implements.dup(),
            unclassified_impls: self.unclassified_impls.dup(),
        }
    }
}

impl Clone for MethodLike {
    fn clone(&self) -> (r: Self)
        ensures
            r.deep_view() == self.deep_view(),
    {
        self.dup()
    }
}

/// A field.
#[derive(Debug, PartialEq, Eq, Hash)]
pub struct Field {
    pub name: String,
    pub access: Access,
    pub ty: TypeRef,
    pub is_static: bool,
    pub is_init_only: bool,
    pub is_volatile: bool,
    pub is_literal: bool,
    pub is_required: bool,
    pub compiler_feature_required: Vec<CompilerFeatureRequired>,
    pub nullability: Nullability,
    pub custom_attrs: Vec<CustomAttr>,
}

/// The model of a [`Field`].
pub struct FieldModel {
    pub name: Seq<char>,
    pub access: Access,
    pub ty: TypeRefModel,
    pub is_static: bool,
    pub is_init_only: bool,
    pub is_volatile: bool,
    pub is_literal: bool,
    pub is_required: bool,
    pub compiler_feature_required: Seq<CompilerFeatureRequiredModel>,
    pub nullability: Nullability,
    pub custom_attrs: Seq<CustomAttrModel>,
}

impl DeepView for Field {
    type V = FieldModel;

    open spec fn deep_view(&self) -> FieldModel {
        FieldModel {
            name: self.name.deep_view(),
            access: self.access,
            ty: self.ty.deep_view(),
            is_static: self.is_static,
            is_init_only: self.is_init_only,
            is_volatile: self.is_volatile,
            is_literal: self.is_literal,
            is_required: self.is_required,
            compiler_feature_required: self.compiler_feature_required.deep_view(),
            nullability: self.nullability,
            custom_attrs: self.custom_attrs.deep_view(),
        }
    }
}

impl Same for Field {
    fn same(&self, other: &Self) -> (r: bool) {
        self.name.same(&other.name)
            && self.access.same(&other.access)
            && self.ty.same(&other.ty)
            && self.is_static.same(&other.is_static)
            && self.is_init_only.same(&other.is_init_only)
            && self.is_volatile.same(&other.is_volatile)
            && self.is_literal.same(&other.is_literal)
            && self.is_required.same(&other.is_required)
            && self.compiler_feature_required.same(&other.compiler_feature_required)
            && self.nullability.same(&other.nullability)
            && self.custom_attrs.same(&other.custom_attrs)
    }
}

impl Duplicate for Field {
    fn dup(&self) -> (r: Self) {
        Field {
            name: self.name.dup(),
            access: self.access.dup(),
            ty: self.ty.dup(),
            is_static: self.is_static.dup(),
            is_init_only: self.is_init_only.dup(),
            is_volatile: self.is_volatile.dup(),
            is_literal: self.is_literal.dup(),
            is_required: self.is_required.dup(),
            compiler_feature_required: self.compiler_feature_required.dup(),
            nullability: self.nullability.dup(),
            custom_attrs: self.custom_attrs.dup(),
        }
    }
}

impl Clone for Field {
    fn clone(&self) -> (r: Self)
        ensures
            r.deep_view() == self.deep_view(),
    {
        self.dup()
    }
}

/// A parameter of an indexer.
#[derive(Debug, PartialEq, Eq, Hash)]
pub struct IndexParameter {
    pub name: Option<String>,
    pub ty: NullableType,
    pub is_param_array: bool,
}

/// The model of an [`IndexParameter`].
pub struct IndexParameterModel {
    pub name: Option<Seq<char>>,
    pub ty: NullableTypeModel,
    pub is_param_array: bool,
}

impl DeepView for IndexParameter {
    type V = IndexParameterModel;

    open spec fn deep_view(&self) -> IndexParameterModel {
        IndexParameterModel {
            name: self.name.deep_view(),
            ty: self.ty.deep_view(),
            is_param_array: self.is_param_array,
        }
    }
}

impl Same for IndexParameter {
    fn same(&self, other: &Self) -> (r: bool) {
        self.name.same(&other.name)
            && self.ty.same(&other.ty)
            && self.is_param_array.same(&other.is_param_array)
    }
}

impl Duplicate for IndexParameter {
    fn dup(&self) -> (r: Self) {
        IndexParameter {
            name: self.name.dup(),
            ty: self.ty.dup(),
            is_param_array: self.is_param_array.dup(),
        }
    }
}

impl Clone for IndexParameter {
    fn clone(&self) -> (r: Self)
        ensures
            r.deep_view() == self.deep_view(),
    {
        self.dup()
    }
}

/// A property.
#[derive(Debug, PartialEq, Eq, Hash)]
pub struct Property {
    pub name: String,
    pub access: Access,
    pub ty: TypeRef,
    pub parameters: Vec<IndexParameter>,
    pub is_static: bool,
    pub has_getter: bool,
    pub has_setter: bool,
    pub getter_access: Option<Access>,
    pub is_required: bool,
    pub compiler_feature_required: Vec<CompilerFeatureRequired>,
    pub nullability: Nullability,
    pub custom_attrs: Vec<CustomAttr>,
    pub implements: Vec<InterfaceMemberImpl>,
    pub unclassified_impls: Vec<UnclassifiedMethodImpl>,
}

/// The model of a [`Property`].
pub struct PropertyModel {
    pub name: Seq<char>,
    pub access: Access,
    pub ty: TypeRefModel,
    pub parameters: Seq<IndexParameterModel>,
    pub is_static: bool,
    pub has_getter: bool,
    pub has_setter: bool,
    pub getter_access: Option<Access>,
    pub is_required: bool,
    pub compiler_feature_required: Seq<CompilerFeatureRequiredModel>,
    pub nullability: Nullability,
    pub custom_attrs: Seq<CustomAttrModel>,
    pub implements: Seq<InterfaceMemberImplModel>,
    pub unclassified_impls: Seq<UnclassifiedMethodImplModel>,
}

impl DeepView for Property {
    type V = PropertyModel;

    open spec fn deep_view(&self) -> PropertyModel {
        PropertyModel {
            name: self.name.deep_view(),
            access: self.access,
            ty: self.ty.deep_view(),
            parameters: self.parameters.deep_view(),
            is_static: self.is_static,
            has_getter: self.has_getter,
            has_setter: self.has_setter,
            getter_access: self.getter_access.deep_view(),
            is_required: self.is_required,
            compiler_feature_required: self.compiler_feature_required.deep_view(),
            nullability: self.nullability,
            custom_attrs: self.custom_attrs.deep_view(),
            implements: self.implements.deep_view(),
            unclassified_impls: self.unclassified_impls.deep_view(),
        }
    }
}

impl Same for Property {
    fn same(&self, other: &Self) -> (r: bool) {
        self.name.same(&other.name)
            && self.access.same(&other.access)
            && self.ty.same(&other.ty)
            && self.parameters.same(&other.parameters)
            && self.is_static.same(&other.is_static)
            && self.has_getter.same(&other.has_getter)
            && self.has_setter.same(&other.has_setter)
            && self.getter_access.same(&other.getter_access)
            && self.is_required.same(&other.is_required)
            && self.compiler_feature_required.same(&other.compiler_feature_required)
            && self.nullability.same(&other.nullability)
            && self.custom_attrs.same(&other.custom_attrs)
            && self.implements.same(&other.implements)
            && self.unclassified_impls.same(&other.unclassified_impls)
    }
}

impl Duplicate for Property {
    fn dup(&self) -> (r: Self) {
        Property {
            name: self.name.dup(),
            access: self.access.dup(),
            ty: self.ty.dup(),
            parameters: self.parameters.dup(),
            is_static: self.is_static.dup(),
            has_getter: self.has_getter.dup(),
            has_setter: self.has_setter.dup(),
            getter_access: self.getter_access.dup(),
            is_required: self.is_required.dup(),
            compiler_feature_required: self.compiler_feature_required.dup(),
            nullability: self.nullability.dup(),
            custom_attrs: self.custom_attrs.dup(),
            implements: self.implements.dup(),
            unclassified_impls: self.unclassified_impls.dup(),
        }
    }
}

impl Clone for Property {
    fn clone(&self) -> (r: Self)
        ensures
            r.deep_view() == self.deep_view(),
    {
        self.dup()
    }
}

/// An event.
#[derive(Debug, PartialEq, Eq, Hash)]
pub struct Event {
    pub name: String,
    pub access: Access,
    pub delegate_type: TypeRef,
    pub is_static: bool,
    pub has_fire: bool,
    pub nullability: Nullability,
    pub custom_attrs: Vec<CustomAttr>,
    pub implements: Vec<InterfaceMemberImpl>,
    pub unclassified_impls: Vec<UnclassifiedMethodImpl>,
}

/// The model of an [`Event`].
pub struct EventModel {
    pub name: Seq<char>,
    pub access: Access,
    pub delegate_type: TypeRefModel,
    pub is_static: bool,
    pub has_fire: bool,
    pub nullability: Nullability,
    pub custom_attrs: Seq<CustomAttrModel>,
    pub implements: Seq<InterfaceMemberImplModel>,
    pub unclassified_impls: Seq<UnclassifiedMethodImplModel>,
}

impl DeepView for Event {
    type V = EventModel;

    open spec fn deep_view(&self) -> EventModel {
        EventModel {
            name: self.name.deep_view(),
            access: self.access,
            delegate_type: self.delegate_type.deep_view(),
            is_static: self.is_static,
            has_fire: self.has_fire,
            nullability: self.nullability,
            custom_attrs: self.custom_attrs.deep_view(),
            implements: self.implements.deep_view(),
            unclassified_impls: self.unclassified_impls.deep_view(),
        }
    }
}

impl Same for Event {
    fn same(&self, other: &Self) -> (r: bool) {
        self.name.same(&other.name)
            && self.access.same(&other.access)
            && self.delegate_type.same(&other.delegate_type)
            && self.is_static.same(&other.is_static)
            && self.has_fire.same(&other.has_fire)
            && self.nullability.same(&other.nullability)
            && self.custom_attrs.same(&other.custom_attrs)
            && self.implements.same(&other.implements)
            && self.unclassified_impls.same(&other.unclassified_impls)
    }
}

impl Duplicate for Event {
    fn dup(&self) -> (r: Self) {
        Event {
            name: self.name.dup(),
            access: self.access.dup(),
            delegate_type: self.delegate_type.dup(),
            is_static: self.is_static.dup(),
            has_fire: self.has_fire.dup(),
            nullability: self.nullability.dup(),
            custom_attrs: self.custom_attrs.dup(),
            implements: self.implements.dup(),
            unclassified_impls: self.unclassified_impls.dup(),
        }
    }
}

impl Clone for Event {
    fn clone(&self) -> (r: Self)
        ensures
            r.deep_view() == self.deep_view(),
    {
        self.dup()
    }
}

/// A member of an entity.
#[derive(Debug, PartialEq, Eq, Hash)]
pub enum Member {
    Method(MethodLike),
    Field(Field),
    Property(Property),
    Event(Event),
}

/// The model of a [`Member`].
pub enum MemberModel {
    Method(MethodLikeModel),
    Field(FieldModel),
    Property(PropertyModel),
    Event(EventModel),
}

impl DeepView for Member {
    type V = MemberModel;

    open spec fn deep_view(&self) -> MemberModel {
        match self {
            Member::Method(a) => MemberModel::Method(a.deep_view()),
            Member::Field(a) => MemberModel::Field(a.deep_view()),
            Member::Property(a) => MemberModel::Property(a.deep_view()),
            Member::Event(a) => MemberModel::Event(a.deep_view()),
        }
    }
}

impl Same for Member {
    fn same(&self, other: &Self) -> (r: bool) {
        match (self, other) {
            (Member::Method(xa), Member::Method(ya)) => xa.same(ya),
            (Member::Field(xa), Member::Field(ya)) => xa.same(ya),
            (Member::Property(xa), Member::Property(ya)) => xa.same(ya),
            (Member::Event(xa), Member::Event(ya)) => xa.same(ya),
            _ => false,
        }
    }
}

impl Duplicate for Member {
    fn dup(&self) -> (r: Self) {
        match self {
            Member::Method(a) => Member::Method(a.dup()),
            Member::Field(a) => Member::Field(a.dup()),
            Member::Property(a) => Member::Property(a.dup()),
            Member::Event(a) => Member::Event(a.dup()),
        }
    }
}

impl Clone for Member {
    fn clone(&self) -> (r: Self)
        ensures
            r.deep_view() == self.deep_view(),
    {
        self.dup()
    }
}

/// A type, module or exception of an assembly, with its members and its nested
/// types.
#[derive(Debug, PartialEq, Eq, Hash)]
pub struct Entity {
    pub assembly: AssemblyIdentity,
    /// The namespace; empty on a nested type, whose path is that of the outermost one.
    pub namespace: Vec<String>,
    /// The name in the metadata, without the arity suffix.
    pub name: String,
    pub kind: EntityKind,
    pub access: Access,
    pub is_sealed: bool,
    pub generic_parameters: Vec<TypeParameter>,
    pub base_type: Option<TypeRef>,
    pub interfaces: Vec<TypeRef>,
    pub members: Vec<Member>,
    pub skipped_members: Vec<SkippedMember>,
    pub method_def_tokens: Vec<u32>,
    pub nested_types: Vec<Entity>,
    pub is_readonly: bool,
    pub is_byref_like: bool,
    pub is_struct: bool,
    pub is_auto_open: bool,
    pub is_require_qualified_access: bool,
    pub is_no_equality: bool,
    pub is_no_comparison: bool,
    pub is_structural_equality: bool,
    pub is_structural_comparison: bool,
    pub is_allow_null_literal: bool,
    pub obsolete: Option<Obsolete>,
    pub experimental: Option<Experimental>,
    pub default_member: Option<DefaultMember>,
    pub compiler_feature_required: Vec<CompilerFeatureRequired>,
    /// The F# name, where it differs from the metadata name.
    pub source_name: Option<String>,
    /// The names of the instance extension members of a module.
    pub extension_member_names: Vec<String>,
    /// The names of the accessible cases of a union, where they are known.
    pub union_case_names: Option<Vec<String>>,
    /// The names of the static extension members of a module.
    pub static_extension_member_names: Vec<String>,
    pub is_extension_container: bool,
    pub custom_attrs: Vec<CustomAttr>,
    /// What an abbreviation stands for, where it could be decoded.
    pub abbreviation_target: Option<AbbreviationTarget>,
    /// Where the entity is declared.
    pub definition_range: Option<FsharpSourceRange>,
}

/// The model of an [`Entity`].
pub struct EntityModel {
    pub assembly: AssemblyIdentityModel,
    pub namespace: Seq<Seq<char>>,
    pub name: Seq<char>,
    pub kind: EntityKind,
    pub access: Access,
    pub is_sealed: bool,
    pub generic_parameters: Seq<TypeParameterModel>,
    pub base_type: Option<TypeRefModel>,
    pub interfaces: Seq<TypeRefModel>,
    pub members: Seq<MemberModel>,
    pub skipped_members: Seq<SkippedMemberModel>,
    pub method_def_tokens: Seq<u32>,
    pub nested_types: Seq<EntityModel>,
    pub is_readonly: bool,
    pub is_byref_like: bool,
    pub is_struct: bool,
    pub is_auto_open: bool,
    pub is_require_qualified_access: bool,
    pub is_no_equality: bool,
    pub is_no_comparison: bool,
    pub is_structural_equality: bool,
    pub is_structural_comparison: bool,
    pub is_allow_null_literal: bool,
    pub obsolete: Option<ObsoleteModel>,
    pub experimental: Option<ExperimentalModel>,
    pub default_member: Option<DefaultMemberModel>,
    pub compiler_feature_required: Seq<CompilerFeatureRequiredModel>,
    pub source_name: Option<Seq<char>>,
    pub extension_member_names: Seq<Seq<char>>,
    pub union_case_names: Option<Seq<Seq<char>>>,
    pub static_extension_member_names: Seq<Seq<char>>,
    pub is_extension_container: bool,
    pub custom_attrs: Seq<CustomAttrModel>,
    pub abbreviation_target: Option<AbbreviationTargetModel>,
    pub definition_range: Option<FsharpSourceRangeModel>,
}

/// The model of `e`.
pub open spec fn entity_model(e: Entity) -> EntityModel
    decreases e,
{
    EntityModel {
        assembly: e.assembly.deep_view(),
        namespace: e.namespace.deep_view(),
        name: e.name.deep_view(),
        kind: e.kind,
        access: e.access,
        is_sealed: e.is_sealed,
        generic_parameters: e.generic_parameters.deep_view(),
        base_type: e.base_type.deep_view(),
        interfaces: e.interfaces.deep_view(),
        members: e.members.deep_view(),
        skipped_members: e.skipped_members.deep_view(),
        method_def_tokens: e.method_def_tokens.deep_view(),
        nested_types: Seq::new(
            e.nested_types@.len(),
            |i: int|
                if 0 <= i < e.nested_types@.len() {
                    entity_model(e.nested_types@[i])
                } else {
                    arbitrary()
                },
        ),
        is_readonly: e.is_readonly,
        is_byref_like: e.is_byref_like,
        is_struct: e.is_struct,
        is_auto_open: e.is_auto_open,
        is_require_qualified_access: e.is_require_qualified_access,
        is_no_equality: e.is_no_equality,
        is_no_comparison: e.is_no_comparison,
        is_structural_equality: e.is_structural_equality,
        is_structural_comparison: e.is_structural_comparison,
        is_allow_null_literal: e.is_allow_null_literal,
        obsolete: e.obsolete.deep_view(),
        experimental: e.experimental.deep_view(),
        default_member: e.default_member.deep_view(),
        compiler_feature_required: e.compiler_feature_required.deep_view(),
        source_name: e.source_name.deep_view(),
        extension_member_names: e.extension_member_names.deep_view(),
        union_case_names: e.union_case_names.deep_view(),
        static_extension_member_names: e.static_extension_member_names.deep_view(),
        is_extension_container: e.is_extension_container,
        custom_attrs: e.custom_attrs.deep_view(),
        abbreviation_target: e.abbreviation_target.deep_view(),
        definition_range: e.definition_range.deep_view(),
    }
}

impl DeepView for Entity {
    type V = EntityModel;

    open spec fn deep_view(&self) -> EntityModel {
        entity_model(*self)
    }
}

/// The model of an entity holds the models of its nested types.
pub broadcast proof fn lemma_entity_model_nested(e: Entity)
    ensures
        (#[trigger] entity_model(e)).nested_types == e.nested_types.deep_view(),
{
    assert(entity_model(e).nested_types =~= e.nested_types.deep_view());
}

/// Whether two entities are the same.
fn same_entity(a: &Entity, b: &Entity) -> (r: bool)
    ensures
        r == (entity_model(*a) == entity_model(*b)),
    decreases *a, 0nat,
{
    proof {
        lemma_entity_model_nested(*a);
        lemma_entity_model_nested(*b);
    }
    a.assembly.same(&b.assembly)
        && a.namespace.same(&b.namespace)
        && a.name.same(&b.name)
        && a.kind.same(&b.kind)
        && a.access.same(&b.access)
        && a.is_sealed.same(&b.is_sealed)
        && a.generic_parameters.same(&b.generic_parameters)
        && a.base_type.same(&b.base_type)
        && a.interfaces.same(&b.interfaces)
        && a.members.same(&b.members)
        && a.skipped_members.same(&b.skipped_members)
        && a.method_def_tokens.same(&b.method_def_tokens)
        && same_entities(&a.nested_types, &b.nested_types)
        && a.is_readonly.same(&b.is_readonly)
        && a.is_byref_like.same(&b.is_byref_like)
        && a.is_struct.same(&b.is_struct)
        && a.is_auto_open.same(&b.is_auto_open)
        && a.is_require_qualified_access.same(&b.is_require_qualified_access)
        && a.is_no_equality.same(&b.is_no_equality)
        && a.is_no_comparison.same(&b.is_no_comparison)
        && a.is_structural_equality.same(&b.is_structural_equality)
        && a.is_structural_comparison.same(&b.is_structural_comparison)
        && a.is_allow_null_literal.same(&b.is_allow_null_literal)
        && a.obsolete.same(&b.obsolete)
        && a.experimental.same(&b.experimental)
        && a.default_member.same(&b.default_member)
        && a.compiler_feature_required.same(&b.compiler_feature_required)
        && a.source_name.same(&b.source_name)
        && a.extension_member_names.same(&b.extension_member_names)
        && a.union_case_names.same(&b.union_case_names)
        && a.static_extension_member_names.same(&b.static_extension_member_names)
        && a.is_extension_container.same(&b.is_extension_container)
        && a.custom_attrs.same(&b.custom_attrs)
        && a.abbreviation_target.same(&b.abbreviation_target)
        && a.definition_range.same(&b.definition_range)
}

/// Whether two lists of entities are the same.
fn same_entities(a: &Vec<Entity>, b: &Vec<Entity>) -> (r: bool)
    ensures
        r == (a.deep_view() == b.deep_view()),
    decreases a@, 1nat,
{
    if a.len() != b.len() {
        assert(a.deep_view().len() != b.deep_view().len());
        return false;
    }
    let mut i: usize = 0;
    while i < a.len()
        invariant
            i <= a.len(),
            a.len() == b.len(),
            forall|j: int| 0 <= j < i ==> entity_model(#[trigger] a@[j]) == entity_model(b@[j]),
        decreases a.len() - i,
    {
        if !same_entity(&a[i], &b[i]) {
            assert(a.deep_view()[i as int] != b.deep_view()[i as int]);
            return false;
        }
        i = i + 1;
    }
    assert(a.deep_view() =~= b.deep_view());
    true
}

impl Same for Entity {
    fn same(&self, other: &Self) -> (r: bool) {
        same_entity(self, other)
    }
}

/// A copy of an entity.
fn dup_entity(e: &Entity) -> (r: Entity)
    ensures
        entity_model(r) == entity_model(*e),
    decreases *e, 0nat,
{
    broadcast use lemma_entity_model_nested;

    Entity {
        assembly: e.assembly.dup(),
        namespace: e.namespace.dup(),
        name: e.name.dup(),
        kind: e.kind.dup(),
        access: e.access.dup(),
        is_sealed: e.is_sealed.dup(),
        generic_parameters: e.generic_parameters.dup(),
        base_type: e.base_type.dup(),
        interfaces: e.interfaces.dup(),
        members: e.members.dup(),
        skipped_members: e.skipped_members.dup(),
        method_def_tokens: e.method_def_tokens.dup(),
        nested_types: dup_entities(&e.nested_types),
        is_readonly: e.is_readonly.dup(),
        is_byref_like: e.is_byref_like.dup(),
        is_struct: e.is_struct.dup(),
        is_auto_open: e.is_auto_open.dup(),
        is_require_qualified_access: e.is_require_qualified_access.dup(),
        is_no_equality: e.is_no_equality.dup(),
        is_no_comparison: e.is_no_comparison.dup(),
        is_structural_equality: e.is_structural_equality.dup(),
        is_structural_comparison: e.is_structural_comparison.dup(),
        is_allow_null_literal: e.is_allow_null_literal.dup(),
        obsolete: e.obsolete.dup(),
        experimental: e.experimental.dup(),
        default_member: e.default_member.dup(),
        compiler_feature_required: e.compiler_feature_required.dup(),
        source_name: e.source_name.dup(),
        extension_member_names: e.extension_member_names.dup(),
        union_case_names: e.union_case_names.dup(),
        static_extension_member_names: e.static_extension_member_names.dup(),
        is_extension_container: e.is_extension_container.dup(),
        custom_attrs: e.custom_attrs.dup(),
        abbreviation_target: e.abbreviation_target.dup(),
        definition_range: e.definition_range.dup(),
    }
}

/// A copy of a list of entities.
fn dup_entities(es: &Vec<Entity>) -> (r: Vec<Entity>)
    ensures
        r.deep_view() == es.deep_view(),
    decreases es@, 1nat,
{
    let mut out: Vec<Entity> = Vec::new();
    let mut i: usize = 0;
    while i < es.len()
        invariant
            i <= es.len(),
            out.len() == i,
            forall|j: int| 0 <= j < i ==> entity_model(#[trigger] out@[j]) == entity_model(es@[j]),
        decreases es.len() - i,
    {
        out.push(dup_entity(&es[i]));
        i = i + 1;
    }
    assert(out.deep_view() =~= es.deep_view());
    out
}

impl Duplicate for Entity {
    fn dup(&self) -> (r: Self) {
        dup_entity(self)
    }
}

impl Clone for Entity {
    fn clone(&self) -> (r: Self)
        ensures
            r.deep_view() == self.deep_view(),
    {
        dup_entity(self)
    }
}

impl SkippedProjectionItem {
    /// The namespace segments of the dropped type: the dotted path of its
    /// outermost type, without the simple name and its generic arity. Empty for a
    /// type of the root namespace.
    pub fn enclosing_namespace(&self) -> (r: Vec<String>)
        ensures
            r.deep_view() == crate::text::split_on(
                crate::text::before(crate::text::before(self.name@, '/'), '`'),
                '.',
            ).drop_last(),
    {
        let top_level = cut_before(self.name.as_str(), '/');
        let base = cut_before(top_level.as_str(), '`');
        let mut segments = split_text(base.as_str(), '.');
        proof {
            crate::text::lemma_split_on_nonempty(base@, '.');
        }
        let ghost all = segments.deep_view();
        let _simple = segments.pop();
        assert(segments.deep_view() =~= all.drop_last());
        segments
    }
}

impl ImplementedMember {
    /// The name of the interface member.
    pub fn name(&self) -> (r: &str)
        ensures
            r@ == (match self {
                ImplementedMember::Method(n) => n@,
                ImplementedMember::Property(n) => n@,
                ImplementedMember::Event(n) => n@,
                ImplementedMember::Unresolved(n) => n@,
            }),
    {
        match self {
            ImplementedMember::Method(n) => n.as_str(),
            ImplementedMember::Property(n) => n.as_str(),
            ImplementedMember::Event(n) => n.as_str(),
            ImplementedMember::Unresolved(n) => n.as_str(),
        }
    }
}

} // verus!
