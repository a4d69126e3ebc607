//! What a decoded F# signature pickle holds.
//!
//! Each type that holds text or a list has a model, the same value with its
//! text and its lists as mathematical sequences, which is its deep view. A type
//! without either is its own model.
use crate::same::Same;
use vstd::prelude::*;

verus! {

/// The nullness annotation of a type.
#[derive(Debug, Clone, Copy, PartialEq, Eq, Structural)]
pub enum Nullness {
    Ambivalent,
    WithNull,
    WithoutNull,
}

impl DeepView for Nullness {
    type V = Nullness;

    open spec fn deep_view(&self) -> Nullness {
        *self
    }
}

impl Same for Nullness {
    fn same(&self, other: &Self) -> (r: bool) {
        *self == *other
    }
}

/// A reference tuple or a struct tuple.
#[derive(Debug, Clone, Copy, PartialEq, Eq, Structural)]
pub enum TupleKind {
    Reference,
    Struct,
}

impl DeepView for TupleKind {
    type V = TupleKind;

    open spec fn deep_view(&self) -> TupleKind {
        *self
    }
}

impl Same for TupleKind {
    fn same(&self, other: &Self) -> (r: bool) {
        *self == *other
    }
}

/// A type parameter ranges over types or over units of measure.
#[derive(Debug, Clone, Copy, PartialEq, Eq, Structural)]
pub enum TyparKind {
    Type,
    Measure,
}

impl DeepView for TyparKind {
    type V = TyparKind;

    open spec fn deep_view(&self) -> TyparKind {
        *self
    }
}

impl Same for TyparKind {
    fn same(&self, other: &Self) -> (r: bool) {
        *self == *other
    }
}

/// What the body of an entity is: a module whose compiled name carries the
/// `Module` suffix, a module or type, or a namespace fragment.
#[derive(Debug, Clone, Copy, PartialEq, Eq, Structural)]
pub enum IsType {
    FSharpModuleWithSuffix,
    ModuleOrType,
    Namespace,
}

impl DeepView for IsType {
    type V = IsType;

    open spec fn deep_view(&self) -> IsType {
        *self
    }
}

impl Same for IsType {
    fn same(&self, other: &Self) -> (r: bool) {
        *self == *other
    }
}

/// A reference to an entity: a stamp of this assembly, or an index into the
/// non-local entity table.
#[derive(Debug, Clone, Copy, PartialEq, Eq, Structural)]
pub enum PickledTcRef {
    Local(u32),
    NonLocal(u32),
}

impl DeepView for PickledTcRef {
    type V = PickledTcRef;

    open spec fn deep_view(&self) -> PickledTcRef {
        *self
    }
}

impl Same for PickledTcRef {
    fn same(&self, other: &Self) -> (r: bool) {
        *self == *other
    }
}

/// A reference to a union case: its type and the string index of its name.
#[derive(Debug, Clone, Copy, PartialEq, Eq, Structural)]
pub struct PickledUCaseRef {
    pub tcref: PickledTcRef,
    pub case_name_index: u32,
}

impl DeepView for PickledUCaseRef {
    type V = PickledUCaseRef;

    open spec fn deep_view(&self) -> PickledUCaseRef {
        *self
    }
}

impl Same for PickledUCaseRef {
    fn same(&self, other: &Self) -> (r: bool) {
        *self == *other
    }
}

/// A source position.
#[derive(Debug, Clone, Copy, PartialEq, Eq, Structural)]
pub struct PickledPos {
    pub line: u32,
    pub column: u32,
}

impl DeepView for PickledPos {
    type V = PickledPos;

    open spec fn deep_view(&self) -> PickledPos {
        *self
    }
}

impl Same for PickledPos {
    fn same(&self, other: &Self) -> (r: bool) {
        *self == *other
    }
}

/// A source range; `file` is a string index.
#[derive(Debug, Clone, Copy, PartialEq, Eq, Structural)]
pub struct PickledRange {
    pub file: u32,
    pub start: PickledPos,
    pub end: PickledPos,
}

impl DeepView for PickledRange {
    type V = PickledRange;

    open spec fn deep_view(&self) -> PickledRange {
        *self
    }
}

impl Same for PickledRange {
    fn same(&self, other: &Self) -> (r: bool) {
        *self == *other
    }
}

/// The kind of a member.
#[derive(Debug, Clone, Copy, PartialEq, Eq, Structural)]
pub enum PickledMemberKind {
    Member,
    PropertyGet,
    PropertySet,
    Constructor,
    ClassConstructor,
}

impl DeepView for PickledMemberKind {
    type V = PickledMemberKind;

    open spec fn deep_view(&self) -> PickledMemberKind {
        *self
    }
}

impl Same for PickledMemberKind {
    fn same(&self, other: &Self) -> (r: bool) {
        *self == *other
    }
}

/// The flags of a member.
#[derive(Debug, Clone, Copy, PartialEq, Eq, Structural)]
pub struct PickledMemberFlags {
    pub is_instance: bool,
    pub is_dispatch_slot: bool,
    pub is_override_or_explicit_impl: bool,
    pub is_final: bool,
    pub kind: PickledMemberKind,
}

impl DeepView for PickledMemberFlags {
    type V = PickledMemberFlags;

    open spec fn deep_view(&self) -> PickledMemberFlags {
        *self
    }
}

impl Same for PickledMemberFlags {
    fn same(&self, other: &Self) -> (r: bool) {
        *self == *other
    }
}

/// The entity that declares a value, if any.
#[derive(Debug, Clone, Copy, PartialEq, Eq, Structural)]
pub enum PickledParentRef {
    NoParent,
    Parent(PickledTcRef),
}

impl DeepView for PickledParentRef {
    type V = PickledParentRef;

    open spec fn deep_view(&self) -> PickledParentRef {
        *self
    }
}

impl Same for PickledParentRef {
    fn same(&self, other: &Self) -> (r: bool) {
        *self == *other
    }
}

/// The scope of an IL type. Only the assembly itself is modelled.
#[derive(Debug, Clone, Copy, PartialEq, Eq, Structural)]
pub enum PickledILScopeRef {
    Local,
}

impl DeepView for PickledILScopeRef {
    type V = PickledILScopeRef;

    open spec fn deep_view(&self) -> PickledILScopeRef {
        *self
    }
}

impl Same for PickledILScopeRef {
    fn same(&self, other: &Self) -> (r: bool) {
        *self == *other
    }
}

/// A unit-of-measure expression.
#[derive(Debug, PartialEq, Eq)]
pub enum Measure {
    Const(PickledTcRef),
    Inv(Box<Measure>),
    Prod(Box<Measure>, Box<Measure>),
    Var(u32),
    One,
    RationalPower { base: Box<Measure>, numerator: i32, denominator: i32 },
}

impl DeepView for Measure {
    type V = Measure;

    open spec fn deep_view(&self) -> Measure {
        *self
    }
}

/// Whether two measure expressions are the same.
fn same_measure(a: &Measure, b: &Measure) -> (r: bool)
    ensures
        r == (*a == *b),
    decreases *a,
{
    match (a, b) {
        (Measure::Const(x), Measure::Const(y)) => x.same(y),
        (Measure::Inv(x), Measure::Inv(y)) => same_measure(x, y),
        (Measure::Prod(x1, x2), Measure::Prod(y1, y2)) => same_measure(x1, y1) && same_measure(
            x2,
            y2,
        ),
        (Measure::Var(x), Measure::Var(y)) => *x == *y,
        (Measure::One, Measure::One) => true,
        (
            Measure::RationalPower { base, numerator, denominator },
            Measure::RationalPower { base: y, numerator: n, denominator: d },
        ) => same_measure(base, y) && *numerator == *n && *denominator == *d,
        _ => false,
    }
}

impl Same for Measure {
    fn same(&self, other: &Self) -> (r: bool) {
        same_measure(self, other)
    }
}

/// A copy of a measure expression.
fn clone_measure(m: &Measure) -> (r: Measure)
    ensures
        r == *m,
    decreases *m,
{
    match m {
        Measure::Const(t) => Measure::Const(*t),
        Measure::Inv(a) => Measure::Inv(Box::new(clone_measure(a))),
        Measure::Prod(a, b) => Measure::Prod(
            Box::new(clone_measure(a)),
            Box::new(clone_measure(b)),
        ),
        Measure::Var(i) => Measure::Var(*i),
        Measure::One => Measure::One,
        Measure::RationalPower { base, numerator, denominator } => Measure::RationalPower {
            base: Box::new(clone_measure(base)),
            numerator: *numerator,
            denominator: *denominator,
        },
    }
}

impl Clone for Measure {
    fn clone(&self) -> (r: Self)
        ensures
            r == *self,
    {
        clone_measure(self)
    }
}

/// A pickled type.
#[derive(Debug, PartialEq, Eq)]
pub enum PickledType {
    Tuple { kind: TupleKind, elems: Vec<PickledType> },
    AppSimple { simpletyp_index: u32, nullness: Nullness },
    App { tcref: PickledTcRef, args: Vec<PickledType>, nullness: Nullness },
    Fun { domain: Box<PickledType>, range: Box<PickledType>, nullness: Nullness },
    Var { typar_index: u32, nullness: Nullness },
    Forall { typars: Vec<u32>, body: Box<PickledType> },
    Measure(Measure),
    UCase { ucref: PickledUCaseRef, args: Vec<PickledType> },
}

/// The model of a [`PickledType`].
pub enum PickledTypeModel {
    Tuple { kind: TupleKind, elems: Seq<PickledTypeModel> },
    AppSimple { simpletyp_index: u32, nullness: Nullness },
    App { tcref: PickledTcRef, args: Seq<PickledTypeModel>, nullness: Nullness },
    Fun { domain: Box<PickledTypeModel>, range: Box<PickledTypeModel>, nullness: Nullness },
    Var { typar_index: u32, nullness: Nullness },
    Forall { typars: Seq<u32>, body: Box<PickledTypeModel> },
    Measure(Measure),
    UCase { ucref: PickledUCaseRef, args: Seq<PickledTypeModel> },
}

/// The model of `t`.
pub open spec fn type_model(t: PickledType) -> PickledTypeModel
    decreases t,
{
    match t {
        PickledType::Tuple { kind, elems } => PickledTypeModel::Tuple {
            kind,
            elems: Seq::new(
                elems@.len(),
                |i: int|
                    if 0 <= i < elems@.len() {
                        type_model(elems@[i])
                    } else {
                        arbitrary()
                    },
            ),
        },
        PickledType::AppSimple { simpletyp_index, nullness } => PickledTypeModel::AppSimple {
            simpletyp_index,
            nullness,
        },
        PickledType::App { tcref, args, nullness } => PickledTypeModel::App {
            tcref,
            args: Seq::new(
                args@.len(),
                |i: int|
                    if 0 <= i < args@.len() {
                        type_model(args@[i])
                    } else {
                        arbitrary()
                    },
            ),
            nullness,
        },
        PickledType::Fun { domain, range, nullness } => PickledTypeModel::Fun {
            domain: Box::new(type_model(*domain)),
            range: Box::new(type_model(*range)),
            nullness,
        },
        PickledType::Var { typar_index, nullness } => PickledTypeModel::Var {
            typar_index,
            nullness,
        },
        PickledType::Forall { typars, body } => PickledTypeModel::Forall {
            typars: typars@,
            body: Box::new(type_model(*body)),
        },
        PickledType::Measure(m) => PickledTypeModel::Measure(m),
        PickledType::UCase { ucref, args } => PickledTypeModel::UCase {
            ucref,
            args: Seq::new(
                args@.len(),
                |i: int|
                    if 0 <= i < args@.len() {
                        type_model(args@[i])
                    } else {
                        arbitrary()
                    },
            ),
        },
    }
}

impl DeepView for PickledType {
    type V = PickledTypeModel;

    open spec fn deep_view(&self) -> PickledTypeModel {
        type_model(*self)
    }
}

/// The model of a type with a list of component types holds their models.
pub broadcast proof fn lemma_type_model_list(t: PickledType)
    ensures
        #![trigger type_model(t)]
        t matches PickledType::Tuple { kind, elems } ==> type_model(t) == (
        PickledTypeModel::Tuple { kind, elems: elems.deep_view() }),
        t matches PickledType::App { tcref, args, nullness } ==> type_model(t) == (
        PickledTypeModel::App { tcref, args: args.deep_view(), nullness }),
        t matches PickledType::Forall { typars, body } ==> type_model(t) == (
        PickledTypeModel::Forall { typars: typars.deep_view(), body: Box::new(type_model(*body)) }),
        t matches PickledType::UCase { ucref, args } ==> type_model(t) == (
        PickledTypeModel::UCase { ucref, args: args.deep_view() }),
{
    match t {
        PickledType::Tuple { kind, elems } => {
            assert(type_model(t)->Tuple_elems =~= elems.deep_view());
        },
        PickledType::App { tcref, args, nullness } => {
            assert(type_model(t)->App_args =~= args.deep_view());
        },
        PickledType::Forall { typars, body } => {
            assert(typars.deep_view() =~= typars@);
        },
        PickledType::UCase { ucref, args } => {
            assert(type_model(t)->UCase_args =~= args.deep_view());
        },
        _ => {},
    }
}

/// Whether two types are the same.
fn same_type(a: &PickledType, b: &PickledType) -> (r: bool)
    ensures
        r == (type_model(*a) == type_model(*b)),
    decreases *a, 0nat,
{
    broadcast use lemma_type_model_list;

    match (a, b) {
        (
            PickledType::Tuple { kind, elems },
            PickledType::Tuple { kind: k, elems: e },
        ) => kind.same(k) && same_types(elems, e),
        (
            PickledType::AppSimple { simpletyp_index, nullness },
            PickledType::AppSimple { simpletyp_index: i, nullness: n },
        ) => *simpletyp_index == *i && nullness.same(n),
        (
            PickledType::App { tcref, args, nullness },
            PickledType::App { tcref: t, args: a, nullness: n },
        ) => tcref.same(t) && nullness.same(n) && same_types(args, a),
        (
            PickledType::Fun { domain, range, nullness },
            PickledType::Fun { domain: d, range: r, nullness: n },
        ) => nullness.same(n) && same_type(domain, d) && same_type(range, r),
        (
            PickledType::Var { typar_index, nullness },
            PickledType::Var { typar_index: i, nullness: n },
        ) => *typar_index == *i && nullness.same(n),
        (
            PickledType::Forall { typars, body },
            PickledType::Forall { typars: t, body: b },
        ) => typars.same(t) && same_type(body, b),
        (PickledType::Measure(m), PickledType::Measure(n)) => m.same(n),
        (
            PickledType::UCase { ucref, args },
            PickledType::UCase { ucref: u, args: a },
        ) => ucref.same(u) && same_types(args, a),
        _ => false,
    }
}

/// Whether two lists of types are the same.
fn same_types(a: &Vec<PickledType>, b: &Vec<PickledType>) -> (r: bool)
    ensures
        r == (a.deep_view() == b.deep_view()),
    decreases a@, 1nat,
{
    if a.len() != b.len() {
        assert(a.deep_view().len() != b.deep_view().len());
        return false;
    }
    let mut i: usize = 0;
    while i < a.len()
        invariant
            i <= a.len(),
            a.len() == b.len(),
            forall|j: int| 0 <= j < i ==> type_model(a@[j]) == type_model(b@[j]),
        decreases a.len() - i,
    {
        if !same_type(&a[i], &b[i]) {
            assert(a.deep_view()[i as int] != b.deep_view()[i as int]);
            return false;
        }
        i = i + 1;
    }
    assert(a.deep_view() =~= b.deep_view());
    true
}

impl Same for PickledType {
    fn same(&self, other: &Self) -> (r: bool) {
        same_type(self, other)
    }
}

/// A copy of a type.
fn clone_type(t: &PickledType) -> (r: PickledType)
    ensures
        type_model(r) == type_model(*t),
    decreases *t, 0nat,
{
    broadcast use lemma_type_model_list;

    match t {
        PickledType::Tuple { kind, elems } => PickledType::Tuple {
            kind: *kind,
            elems: clone_types(elems),
        },
        PickledType::AppSimple { simpletyp_index, nullness } => PickledType::AppSimple {
            simpletyp_index: *simpletyp_index,
            nullness: *nullness,
        },
        PickledType::App { tcref, args, nullness } => PickledType::App {
            tcref: *tcref,
            args: clone_types(args),
            nullness: *nullness,
        },
        PickledType::Fun { domain, range, nullness } => PickledType::Fun {
            domain: Box::new(clone_type(domain)),
            range: Box::new(clone_type(range)),
            nullness: *nullness,
        },
        PickledType::Var { typar_index, nullness } => PickledType::Var {
            typar_index: *typar_index,
            nullness: *nullness,
        },
        PickledType::Forall { typars, body } => {
            let copied = typars.clone();
            assert(copied.deep_view() =~= typars.deep_view());
            PickledType::Forall { typars: copied, body: Box::new(clone_type(body)) }
        },
        PickledType::Measure(m) => PickledType::Measure(m.clone()),
        PickledType::UCase { ucref, args } => PickledType::UCase {
            ucref: *ucref,
            args: clone_types(args),
        },
    }
}

/// A copy of a list of types.
fn clone_types(ts: &Vec<PickledType>) -> (r: Vec<PickledType>)
    ensures
        r.deep_view() == ts.deep_view(),
    decreases ts@, 1nat,
{
    let mut out: Vec<PickledType> = Vec::new();
    let mut i: usize = 0;
    while i < ts.len()
        invariant
            i <= ts.len(),
            out.len() == i,
            forall|j: int| 0 <= j < i ==> type_model(#[trigger] out@[j]) == type_model(ts@[j]),
        decreases ts.len() - i,
    {
        out.push(clone_type(&ts[i]));
        i = i + 1;
    }
    assert(out.deep_view() =~= ts.deep_view());
    out
}

impl Clone for PickledType {
    fn clone(&self) -> (r: Self)
        ensures
            r.deep_view() == self.deep_view(),
    {
        clone_type(self)
    }
}


/// An identifier with its source range.
#[derive(Debug, Clone, PartialEq, Eq)]
pub struct PickledIdent {
    pub name: String,
    pub range: PickledRange,
}

/// The model of a [`PickledIdent`].
pub struct PickledIdentModel {
    pub name: Seq<char>,
    pub range: PickledRange,
}

impl DeepView for PickledIdent {
    type V = PickledIdentModel;

    open spec fn deep_view(&self) -> PickledIdentModel {
        PickledIdentModel {
            name: self.name.deep_view(),
            range: self.range,
        }
    }
}

impl Same for PickledIdent {
    fn same(&self, other: &Self) -> (r: bool) {
        self.name.same(&other.name)
            && self.range.same(&other.range)
    }
}

/// The lines of an XML documentation comment.
#[derive(Debug, Clone, PartialEq, Eq)]
pub struct PickledXmlDoc {
    pub lines: Vec<String>,
}

/// The model of a [`PickledXmlDoc`].
pub struct PickledXmlDocModel {
    pub lines: Seq<Seq<char>>,
}

impl DeepView for PickledXmlDoc {
    type V = PickledXmlDocModel;

    open spec fn deep_view(&self) -> PickledXmlDocModel {
        PickledXmlDocModel {
            lines: self.lines.deep_view(),
        }
    }
}

impl Same for PickledXmlDoc {
    fn same(&self, other: &Self) -> (r: bool) {
        self.lines.same(&other.lines)
    }
}

/// A compilation path: the scope, and the enclosing fragments with their kinds.
#[derive(Debug, Clone, PartialEq, Eq)]
pub struct PickledCPath {
    pub scope: PickledILScopeRef,
    pub path: Vec<(String, IsType)>,
}

/// The model of a [`PickledCPath`].
pub struct PickledCPathModel {
    pub scope: PickledILScopeRef,
    pub path: Seq<(Seq<char>, IsType)>,
}

impl DeepView for PickledCPath {
    type V = PickledCPathModel;

    open spec fn deep_view(&self) -> PickledCPathModel {
        PickledCPathModel {
            scope: self.scope,
            path: self.path.deep_view(),
        }
    }
}

impl Same for PickledCPath {
    fn same(&self, other: &Self) -> (r: bool) {
        self.scope.same(&other.scope)
            && self.path.same(&other.path)
    }
}

/// A literal. Floating-point literals are kept as their bit patterns, and a
/// decimal as its words.
#[derive(Debug, Clone, PartialEq, Eq)]
pub enum PickledConst {
    Bool(bool),
    SByte(i32),
    Byte(u8),
    Int16(i32),
    UInt16(i32),
    Int32(i32),
    UInt32(u32),
    Int64(i64),
    UInt64(i64),
    IntPtr(i64),
    UIntPtr(i64),
    Single(i32),
    Double(i64),
    Char(i32),
    String(String),
    Unit,
    Zero,
    Decimal(Vec<i32>),
}

/// The model of a [`PickledConst`].
pub enum PickledConstModel {
    Bool(bool),
    SByte(i32),
    Byte(u8),
    Int16(i32),
    UInt16(i32),
    Int32(i32),
    UInt32(u32),
    Int64(i64),
    UInt64(i64),
    IntPtr(i64),
    UIntPtr(i64),
    Single(i32),
    Double(i64),
    Char(i32),
    String(Seq<char>),
    Unit,
    Zero,
    Decimal(Seq<i32>),
}

impl DeepView for PickledConst {
    type V = PickledConstModel;

    open spec fn deep_view(&self) -> PickledConstModel {
        match self {
            PickledConst::Bool(a) => PickledConstModel::Bool(*a),
            PickledConst::SByte(a) => PickledConstModel::SByte(*a),
            PickledConst::Byte(a) => PickledConstModel::Byte(*a),
            PickledConst::Int16(a) => PickledConstModel::Int16(*a),
            PickledConst::UInt16(a) => PickledConstModel::UInt16(*a),
            PickledConst::Int32(a) => PickledConstModel::Int32(*a),
            PickledConst::UInt32(a) => PickledConstModel::UInt32(*a),
            PickledConst::Int64(a) => PickledConstModel::Int64(*a),
            PickledConst::UInt64(a) => PickledConstModel::UInt64(*a),
            PickledConst::IntPtr(a) => PickledConstModel::IntPtr(*a),
            PickledConst::UIntPtr(a) => PickledConstModel::UIntPtr(*a),
            PickledConst::Single(a) => PickledConstModel::Single(*a),
            PickledConst::Double(a) => PickledConstModel::Double(*a),
            PickledConst::Char(a) => PickledConstModel::Char(*a),
            PickledConst::String(a) => PickledConstModel::String(a.deep_view()),
            PickledConst::Unit => PickledConstModel::Unit,
            PickledConst::Zero => PickledConstModel::Zero,
            PickledConst::Decimal(a) => PickledConstModel::Decimal(a.deep_view()),
        }
    }
}

impl Same for PickledConst {
    fn same(&self, other: &Self) -> (r: bool) {
        match (self, other) {
            (PickledConst::Bool(xa), PickledConst::Bool(ya)) => xa.same(ya),
            (PickledConst::SByte(xa), PickledConst::SByte(ya)) => xa.same(ya),
            (PickledConst::Byte(xa), PickledConst::Byte(ya)) => xa.same(ya),
            (PickledConst::Int16(xa), PickledConst::Int16(ya)) => xa.same(ya),
            (PickledConst::UInt16(xa), PickledConst::UInt16(ya)) => xa.same(ya),
            (PickledConst::Int32(xa), PickledConst::Int32(ya)) => xa.same(ya),
            (PickledConst::UInt32(xa), PickledConst::UInt32(ya)) => xa.same(ya),
            (PickledConst::Int64(xa), PickledConst::Int64(ya)) => xa.same(ya),
            (PickledConst::UInt64(xa), PickledConst::UInt64(ya)) => xa.same(ya),
            (PickledConst::IntPtr(xa), PickledConst::IntPtr(ya)) => xa.same(ya),
            (PickledConst::UIntPtr(xa), PickledConst::UIntPtr(ya)) => xa.same(ya),
            (PickledConst::Single(xa), PickledConst::Single(ya)) => xa.same(ya),
            (PickledConst::Double(xa), PickledConst::Double(ya)) => xa.same(ya),
            (PickledConst::Char(xa), PickledConst::Char(ya)) => xa.same(ya),
            (PickledConst::String(xa), PickledConst::String(ya)) => xa.same(ya),
            (PickledConst::Unit, PickledConst::Unit) => true,
            (PickledConst::Zero, PickledConst::Zero) => true,
            (PickledConst::Decimal(xa), PickledConst::Decimal(ya)) => xa.same(ya),
            _ => false,
        }
    }
}

/// A reference to an IL type: its scope, the enclosing types and its name.
#[derive(Debug, Clone, PartialEq, Eq)]
pub struct PickledILTypeRef {
    pub scope: PickledILScopeRef,
    pub enclosing: Vec<String>,
    pub name: String,
}

/// The model of a [`PickledILTypeRef`].
pub struct PickledILTypeRefModel {
    pub scope: PickledILScopeRef,
    pub enclosing: Seq<Seq<char>>,
    pub name: Seq<char>,
}

impl DeepView for PickledILTypeRef {
    type V = PickledILTypeRefModel;

    open spec fn deep_view(&self) -> PickledILTypeRefModel {
        PickledILTypeRefModel {
            scope: self.scope,
            enclosing: self.enclosing.deep_view(),
            name: self.name.deep_view(),
        }
    }
}

impl Same for PickledILTypeRef {
    fn same(&self, other: &Self) -> (r: bool) {
        self.scope.same(&other.scope)
            && self.enclosing.same(&other.enclosing)
            && self.name.same(&other.name)
    }
}

/// An IL type. Only `void` and type variables are modelled.
#[derive(Debug, Clone, Copy, PartialEq, Eq, Structural)]
pub enum PickledILType {
    Void,
    TypeVar(u32),
}

impl DeepView for PickledILType {
    type V = PickledILType;

    open spec fn deep_view(&self) -> PickledILType {
        *self
    }
}

impl Same for PickledILType {
    fn same(&self, other: &Self) -> (r: bool) {
        *self == *other
    }
}

/// A reference to a value of another assembly.
#[derive(Debug, Clone, PartialEq, Eq)]
pub struct PickledNonLocalValRef {
    pub enclosing_entity: PickledTcRef,
    pub member_parent_mangled_name: Option<String>,
    pub member_is_override: bool,
    pub logical_name: String,
    pub total_arg_count: u32,
    pub partial_type: Option<PickledType>,
}

/// The model of a [`PickledNonLocalValRef`].
pub struct PickledNonLocalValRefModel {
    pub enclosing_entity: PickledTcRef,
    pub member_parent_mangled_name: Option<Seq<char>>,
    pub member_is_override: bool,
    pub logical_name: Seq<char>,
    pub total_arg_count: u32,
    pub partial_type: Option<PickledTypeModel>,
}

impl DeepView for PickledNonLocalValRef {
    type V = PickledNonLocalValRefModel;

    open spec fn deep_view(&self) -> PickledNonLocalValRefModel {
        PickledNonLocalValRefModel {
            enclosing_entity: self.enclosing_entity,
            member_parent_mangled_name: self.member_parent_mangled_name.deep_view(),
            member_is_override: self.member_is_override,
            logical_name: self.logical_name.deep_view(),
            total_arg_count: self.total_arg_count,
            partial_type: self.partial_type.deep_view(),
        }
    }
}

impl Same for PickledNonLocalValRef {
    fn same(&self, other: &Self) -> (r: bool) {
        self.enclosing_entity.same(&other.enclosing_entity)
            && self.member_parent_mangled_name.same(&other.member_parent_mangled_name)
            && self.member_is_override.same(&other.member_is_override)
            && self.logical_name.same(&other.logical_name)
            && self.total_arg_count.same(&other.total_arg_count)
            && self.partial_type.same(&other.partial_type)
    }
}

/// A reference to a value: a stamp of this assembly, or a value of another one.
#[derive(Debug, Clone, PartialEq, Eq)]
pub enum PickledVRef {
    Local(u32),
    NonLocal(PickledNonLocalValRef),
}

/// The model of a [`PickledVRef`].
pub enum PickledVRefModel {
    Local(u32),
    NonLocal(PickledNonLocalValRefModel),
}

impl DeepView for PickledVRef {
    type V = PickledVRefModel;

    open spec fn deep_view(&self) -> PickledVRefModel {
        match self {
            PickledVRef::Local(a) => PickledVRefModel::Local(*a),
            PickledVRef::NonLocal(a) => PickledVRefModel::NonLocal(a.deep_view()),
        }
    }
}

impl Same for PickledVRef {
    fn same(&self, other: &Self) -> (r: bool) {
        match (self, other) {
            (PickledVRef::Local(xa), PickledVRef::Local(ya)) => xa.same(ya),
            (PickledVRef::NonLocal(xa), PickledVRef::NonLocal(ya)) => xa.same(ya),
            _ => false,
        }
    }
}

/// A constant expression, the one form that attribute arguments are read in.
#[derive(Debug, Clone, PartialEq, Eq)]
pub struct PickledExpr {
    pub value: PickledConst,
    pub ty: PickledType,
}

/// The model of a [`PickledExpr`].
pub struct PickledExprModel {
    pub value: PickledConstModel,
    pub ty: PickledTypeModel,
}

impl DeepView for PickledExpr {
    type V = PickledExprModel;

    open spec fn deep_view(&self) -> PickledExprModel {
        PickledExprModel {
            value: self.value.deep_view(),
            ty: self.ty.deep_view(),
        }
    }
}

impl Same for PickledExpr {
    fn same(&self, other: &Self) -> (r: bool) {
        self.value.same(&other.value)
            && self.ty.same(&other.ty)
    }
}

/// An attribute argument: the expression as written and as evaluated.
#[derive(Debug, Clone, PartialEq, Eq)]
pub struct PickledAttribExpr {
    pub source: PickledExpr,
    pub evaluated: PickledExpr,
}

/// The model of a [`PickledAttribExpr`].
pub struct PickledAttribExprModel {
    pub source: PickledExprModel,
    pub evaluated: PickledExprModel,
}

impl DeepView for PickledAttribExpr {
    type V = PickledAttribExprModel;

    open spec fn deep_view(&self) -> PickledAttribExprModel {
        PickledAttribExprModel {
            source: self.source.deep_view(),
            evaluated: self.evaluated.deep_view(),
        }
    }
}

impl Same for PickledAttribExpr {
    fn same(&self, other: &Self) -> (r: bool) {
        self.source.same(&other.source)
            && self.evaluated.same(&other.evaluated)
    }
}

/// A named attribute argument.
#[derive(Debug, Clone, PartialEq, Eq)]
pub struct PickledAttribNamedArg {
    pub name: String,
    pub ty: PickledType,
    pub is_field: bool,
    pub value: PickledAttribExpr,
}

/// The model of a [`PickledAttribNamedArg`].
pub struct PickledAttribNamedArgModel {
    pub name: Seq<char>,
    pub ty: PickledTypeModel,
    pub is_field: bool,
    pub value: PickledAttribExprModel,
}

impl DeepView for PickledAttribNamedArg {
    type V = PickledAttribNamedArgModel;

    open spec fn deep_view(&self) -> PickledAttribNamedArgModel {
        PickledAttribNamedArgModel {
            name: self.name.deep_view(),
            ty: self.ty.deep_view(),
            is_field: self.is_field,
            value: self.value.deep_view(),
        }
    }
}

impl Same for PickledAttribNamedArg {
    fn same(&self, other: &Self) -> (r: bool) {
        self.name.same(&other.name)
            && self.ty.same(&other.ty)
            && self.is_field.same(&other.is_field)
            && self.value.same(&other.value)
    }
}

/// An attribute application: the attribute class, its constructor and its
/// arguments.
#[derive(Debug, Clone, PartialEq, Eq)]
pub struct PickledAttribute {
    pub tcref: PickledTcRef,
    pub constructor: PickledVRef,
    pub args: Vec<PickledAttribExpr>,
    pub named_args: Vec<PickledAttribNamedArg>,
    pub applied_to_getter_or_setter: bool,
}

/// The model of a [`PickledAttribute`].
pub struct PickledAttributeModel {
    pub tcref: PickledTcRef,
    pub constructor: PickledVRefModel,
    pub args: Seq<PickledAttribExprModel>,
    pub named_args: Seq<PickledAttribNamedArgModel>,
    pub applied_to_getter_or_setter: bool,
}

impl DeepView for PickledAttribute {
    type V = PickledAttributeModel;

    open spec fn deep_view(&self) -> PickledAttributeModel {
        PickledAttributeModel {
            tcref: self.tcref,
            constructor: self.constructor.deep_view(),
            args: self.args.deep_view(),
            named_args: self.named_args.deep_view(),
            applied_to_getter_or_setter: self.applied_to_getter_or_setter,
        }
    }
}

impl Same for PickledAttribute {
    fn same(&self, other: &Self) -> (r: bool) {
        self.tcref.same(&other.tcref)
            && self.constructor.same(&other.constructor)
            && self.args.same(&other.args)
            && self.named_args.same(&other.named_args)
            && self.applied_to_getter_or_setter.same(&other.applied_to_getter_or_setter)
    }
}

/// A constraint on a type parameter.
#[derive(Debug, Clone, PartialEq, Eq)]
pub enum FSharpTyparConstraint {
    CoercesTo(PickledType),
    DefaultsTo(PickledType),
    SupportsNull,
    IsNonNullableStruct,
    IsReferenceType,
    RequiresDefaultConstructor,
    SimpleChoice(Vec<PickledType>),
    IsEnum(PickledType),
    IsDelegate(PickledType, PickledType),
    SupportsComparison,
    SupportsEquality,
    IsUnmanaged,
    NotSupportsNull,
    AllowsRefStruct,
}

/// The model of a [`FSharpTyparConstraint`].
pub enum FSharpTyparConstraintModel {
    CoercesTo(PickledTypeModel),
    DefaultsTo(PickledTypeModel),
    SupportsNull,
    IsNonNullableStruct,
    IsReferenceType,
    RequiresDefaultConstructor,
    SimpleChoice(Seq<PickledTypeModel>),
    IsEnum(PickledTypeModel),
    IsDelegate(PickledTypeModel, PickledTypeModel),
    SupportsComparison,
    SupportsEquality,
    IsUnmanaged,
    NotSupportsNull,
    AllowsRefStruct,
}

impl DeepView for FSharpTyparConstraint {
    type V = FSharpTyparConstraintModel;

    open spec fn deep_view(&self) -> FSharpTyparConstraintModel {
        match self {
            FSharpTyparConstraint::CoercesTo(a) => {
                FSharpTyparConstraintModel::CoercesTo(a.deep_view())
            },
            FSharpTyparConstraint::DefaultsTo(a) => {
                FSharpTyparConstraintModel::DefaultsTo(a.deep_view())
            },
            FSharpTyparConstraint::SupportsNull => FSharpTyparConstraintModel::SupportsNull,
            FSharpTyparConstraint::IsNonNullableStruct => {
                FSharpTyparConstraintModel::IsNonNullableStruct
            },
            FSharpTyparConstraint::IsReferenceType => FSharpTyparConstraintModel::IsReferenceType,
            FSharpTyparConstraint::RequiresDefaultConstructor => {
                FSharpTyparConstraintModel::RequiresDefaultConstructor
            },
            FSharpTyparConstraint::SimpleChoice(a) => {
                FSharpTyparConstraintModel::SimpleChoice(a.deep_view())
            },
            FSharpTyparConstraint::IsEnum(a) => FSharpTyparConstraintModel::IsEnum(a.deep_view()),
            FSharpTyparConstraint::IsDelegate(a0, a1) => {
                FSharpTyparConstraintModel::IsDelegate(a0.deep_view(), a1.deep_view())
            },
            FSharpTyparConstraint::SupportsComparison => {
                FSharpTyparConstraintModel::SupportsComparison
            },
            FSharpTyparConstraint::SupportsEquality => FSharpTyparConstraintModel::SupportsEquality,
            FSharpTyparConstraint::IsUnmanaged => FSharpTyparConstraintModel::IsUnmanaged,
            FSharpTyparConstraint::NotSupportsNull => FSharpTyparConstraintModel::NotSupportsNull,
            FSharpTyparConstraint::AllowsRefStruct => FSharpTyparConstraintModel::AllowsRefStruct,
        }
    }
}

impl Same for FSharpTyparConstraint {
    fn same(&self, other: &Self) -> (r: bool) {
        match (self, other) {
            (FSharpTyparConstraint::CoercesTo(xa), FSharpTyparConstraint::CoercesTo(ya)) => {
                xa.same(ya)
            },
            (FSharpTyparConstraint::DefaultsTo(xa), FSharpTyparConstraint::DefaultsTo(ya)) => {
                xa.same(ya)
            },
            (FSharpTyparConstraint::SupportsNull, FSharpTyparConstraint::SupportsNull) => true,
            (
                FSharpTyparConstraint::IsNonNullableStruct,
                FSharpTyparConstraint::IsNonNullableStruct,
            ) => true,
            (FSharpTyparConstraint::IsReferenceType, FSharpTyparConstraint::IsReferenceType) => {
                true
            },
            (
                FSharpTyparConstraint::RequiresDefaultConstructor,
                FSharpTyparConstraint::RequiresDefaultConstructor,
            ) => true,
            (FSharpTyparConstraint::SimpleChoice(xa), FSharpTyparConstraint::SimpleChoice(ya)) => {
                xa.same(ya)
            },
            (FSharpTyparConstraint::IsEnum(xa), FSharpTyparConstraint::IsEnum(ya)) => xa.same(ya),
            (
                FSharpTyparConstraint::IsDelegate(xa0, xa1),
                FSharpTyparConstraint::IsDelegate(ya0, ya1),
            ) => xa0.same(ya0) && xa1.same(ya1),
            (
                FSharpTyparConstraint::SupportsComparison,
                FSharpTyparConstraint::SupportsComparison,
            ) => true,
            (FSharpTyparConstraint::SupportsEquality, FSharpTyparConstraint::SupportsEquality) => {
                true
            },
            (FSharpTyparConstraint::IsUnmanaged, FSharpTyparConstraint::IsUnmanaged) => true,
            (FSharpTyparConstraint::NotSupportsNull, FSharpTyparConstraint::NotSupportsNull) => {
                true
            },
            (FSharpTyparConstraint::AllowsRefStruct, FSharpTyparConstraint::AllowsRefStruct) => {
                true
            },
            _ => false,
        }
    }
}

/// The declaration of a type parameter.
#[derive(Debug, Clone, PartialEq, Eq)]
pub struct PickledTyparSpecData {
    pub ident: PickledIdent,
    pub attribs: Vec<PickledAttribute>,
    pub flags: i64,
    pub constraints: Vec<FSharpTyparConstraint>,
    pub xmldoc: PickledXmlDoc,
}

/// The model of a [`PickledTyparSpecData`].
pub struct PickledTyparSpecDataModel {
    pub ident: PickledIdentModel,
    pub attribs: Seq<PickledAttributeModel>,
    pub flags: i64,
    pub constraints: Seq<FSharpTyparConstraintModel>,
    pub xmldoc: PickledXmlDocModel,
}

impl DeepView for PickledTyparSpecData {
    type V = PickledTyparSpecDataModel;

    open spec fn deep_view(&self) -> PickledTyparSpecDataModel {
        PickledTyparSpecDataModel {
            ident: self.ident.deep_view(),
            attribs: self.attribs.deep_view(),
            flags: self.flags,
            constraints: self.constraints.deep_view(),
            xmldoc: self.xmldoc.deep_view(),
        }
    }
}

impl Same for PickledTyparSpecData {
    fn same(&self, other: &Self) -> (r: bool) {
        self.ident.same(&other.ident)
            && self.attribs.same(&other.attribs)
            && self.flags.same(&other.flags)
            && self.constraints.same(&other.constraints)
            && self.xmldoc.same(&other.xmldoc)
    }
}

/// How a type parameter of a value is represented.
#[derive(Debug, Clone, PartialEq, Eq)]
pub struct PickledTyparReprInfo {
    pub ident: PickledIdent,
    pub kind: TyparKind,
}

/// The model of a [`PickledTyparReprInfo`].
pub struct PickledTyparReprInfoModel {
    pub ident: PickledIdentModel,
    pub kind: TyparKind,
}

impl DeepView for PickledTyparReprInfo {
    type V = PickledTyparReprInfoModel;

    open spec fn deep_view(&self) -> PickledTyparReprInfoModel {
        PickledTyparReprInfoModel {
            ident: self.ident.deep_view(),
            kind: self.kind,
        }
    }
}

impl Same for PickledTyparReprInfo {
    fn same(&self, other: &Self) -> (r: bool) {
        self.ident.same(&other.ident)
            && self.kind.same(&other.kind)
    }
}

/// How an argument of a value is represented.
#[derive(Debug, Clone, PartialEq, Eq)]
pub struct PickledArgReprInfo {
    pub attribs: Vec<PickledAttribute>,
    pub name: Option<PickledIdent>,
}

/// The model of a [`PickledArgReprInfo`].
pub struct PickledArgReprInfoModel {
    pub attribs: Seq<PickledAttributeModel>,
    pub name: Option<PickledIdentModel>,
}

impl DeepView for PickledArgReprInfo {
    type V = PickledArgReprInfoModel;

    open spec fn deep_view(&self) -> PickledArgReprInfoModel {
        PickledArgReprInfoModel {
            attribs: self.attribs.deep_view(),
            name: self.name.deep_view(),
        }
    }
}

impl Same for PickledArgReprInfo {
    fn same(&self, other: &Self) -> (r: bool) {
        self.attribs.same(&other.attribs)
            && self.name.same(&other.name)
    }
}

/// How a value is compiled: its type parameters, its curried argument groups and
/// its result.
#[derive(Debug, Clone, PartialEq, Eq)]
pub struct PickledValReprInfo {
    pub typar_repr: Vec<PickledTyparReprInfo>,
    pub arg_repr: Vec<Vec<PickledArgReprInfo>>,
    pub return_repr: PickledArgReprInfo,
}

/// The model of a [`PickledValReprInfo`].
pub struct PickledValReprInfoModel {
    pub typar_repr: Seq<PickledTyparReprInfoModel>,
    pub arg_repr: Seq<Seq<PickledArgReprInfoModel>>,
    pub return_repr: PickledArgReprInfoModel,
}

impl DeepView for PickledValReprInfo {
    type V = PickledValReprInfoModel;

    open spec fn deep_view(&self) -> PickledValReprInfoModel {
        PickledValReprInfoModel {
            typar_repr: self.typar_repr.deep_view(),
            arg_repr: self.arg_repr.deep_view(),
            return_repr: self.return_repr.deep_view(),
        }
    }
}

impl Same for PickledValReprInfo {
    fn same(&self, other: &Self) -> (r: bool) {
        self.typar_repr.same(&other.typar_repr)
            && self.arg_repr.same(&other.arg_repr)
            && self.return_repr.same(&other.return_repr)
    }
}

/// A parameter of an abstract slot.
#[derive(Debug, Clone, PartialEq, Eq)]
pub struct PickledSlotParam {
    pub name: Option<String>,
    pub ty: PickledType,
    pub is_in_arg: bool,
    pub is_out_arg: bool,
    pub is_optional: bool,
    pub attribs: Vec<PickledAttribute>,
}

/// The model of a [`PickledSlotParam`].
pub struct PickledSlotParamModel {
    pub name: Option<Seq<char>>,
    pub ty: PickledTypeModel,
    pub is_in_arg: bool,
    pub is_out_arg: bool,
    pub is_optional: bool,
    pub attribs: Seq<PickledAttributeModel>,
}

impl DeepView for PickledSlotParam {
    type V = PickledSlotParamModel;

    open spec fn deep_view(&self) -> PickledSlotParamModel {
        PickledSlotParamModel {
            name: self.name.deep_view(),
            ty: self.ty.deep_view(),
            is_in_arg: self.is_in_arg,
            is_out_arg: self.is_out_arg,
            is_optional: self.is_optional,
            attribs: self.attribs.deep_view(),
        }
    }
}

impl Same for PickledSlotParam {
    fn same(&self, other: &Self) -> (r: bool) {
        self.name.same(&other.name)
            && self.ty.same(&other.ty)
            && self.is_in_arg.same(&other.is_in_arg)
            && self.is_out_arg.same(&other.is_out_arg)
            && self.is_optional.same(&other.is_optional)
            && self.attribs.same(&other.attribs)
    }
}

/// The signature of an abstract slot.
#[derive(Debug, Clone, PartialEq, Eq)]
pub struct PickledSlotSig {
    pub name: String,
    pub implemented_ty: PickledType,
    pub class_typars: Vec<u32>,
    pub method_typars: Vec<u32>,
    pub params: Vec<Vec<PickledSlotParam>>,
    pub return_ty: Option<PickledType>,
}

/// The model of a [`PickledSlotSig`].
pub struct PickledSlotSigModel {
    pub name: Seq<char>,
    pub implemented_ty: PickledTypeModel,
    pub class_typars: Seq<u32>,
    pub method_typars: Seq<u32>,
    pub params: Seq<Seq<PickledSlotParamModel>>,
    pub return_ty: Option<PickledTypeModel>,
}

impl DeepView for PickledSlotSig {
    type V = PickledSlotSigModel;

    open spec fn deep_view(&self) -> PickledSlotSigModel {
        PickledSlotSigModel {
            name: self.name.deep_view(),
            implemented_ty: self.implemented_ty.deep_view(),
            class_typars: self.class_typars.deep_view(),
            method_typars: self.method_typars.deep_view(),
            params: self.params.deep_view(),
            return_ty: self.return_ty.deep_view(),
        }
    }
}

impl Same for PickledSlotSig {
    fn same(&self, other: &Self) -> (r: bool) {
        self.name.same(&other.name)
            && self.implemented_ty.same(&other.implemented_ty)
            && self.class_typars.same(&other.class_typars)
            && self.method_typars.same(&other.method_typars)
            && self.params.same(&other.params)
            && self.return_ty.same(&other.return_ty)
    }
}

/// What makes a value a member.
#[derive(Debug, Clone, PartialEq, Eq)]
pub struct PickledMemberInfo {
    pub apparent_parent: PickledTcRef,
    pub flags: PickledMemberFlags,
    pub implemented_slots: Vec<PickledSlotSig>,
    pub is_implemented: bool,
}

/// The model of a [`PickledMemberInfo`].
pub struct PickledMemberInfoModel {
    pub apparent_parent: PickledTcRef,
    pub flags: PickledMemberFlags,
    pub implemented_slots: Seq<PickledSlotSigModel>,
    pub is_implemented: bool,
}

impl DeepView for PickledMemberInfo {
    type V = PickledMemberInfoModel;

    open spec fn deep_view(&self) -> PickledMemberInfoModel {
        PickledMemberInfoModel {
            apparent_parent: self.apparent_parent,
            flags: self.flags,
            implemented_slots: self.implemented_slots.deep_view(),
            is_implemented: self.is_implemented,
        }
    }
}

impl Same for PickledMemberInfo {
    fn same(&self, other: &Self) -> (r: bool) {
        self.apparent_parent.same(&other.apparent_parent)
            && self.flags.same(&other.flags)
            && self.implemented_slots.same(&other.implemented_slots)
            && self.is_implemented.same(&other.is_implemented)
    }
}

/// A value: a `let` binding or a member.
#[derive(Debug, Clone, PartialEq, Eq)]
pub struct PickledVal {
    pub logical_name: String,
    pub compiled_name: Option<String>,
    pub range: Option<PickledRange>,
    pub other_range: Option<PickledRange>,
    pub ty: PickledType,
    pub flags: i64,
    pub member_info: Option<PickledMemberInfo>,
    pub attribs: Vec<PickledAttribute>,
    pub repr_info: Option<PickledValReprInfo>,
    pub xmldoc_sig: String,
    pub access: Vec<PickledCPath>,
    pub parent: PickledParentRef,
    pub literal_value: Option<PickledConst>,
    pub xmldoc: Option<PickledXmlDoc>,
}

/// The model of a [`PickledVal`].
pub struct PickledValModel {
    pub logical_name: Seq<char>,
    pub compiled_name: Option<Seq<char>>,
    pub range: Option<PickledRange>,
    pub other_range: Option<PickledRange>,
    pub ty: PickledTypeModel,
    pub flags: i64,
    pub member_info: Option<PickledMemberInfoModel>,
    pub attribs: Seq<PickledAttributeModel>,
    pub repr_info: Option<PickledValReprInfoModel>,
    pub xmldoc_sig: Seq<char>,
    pub access: Seq<PickledCPathModel>,
    pub parent: PickledParentRef,
    pub literal_value: Option<PickledConstModel>,
    pub xmldoc: Option<PickledXmlDocModel>,
}

impl DeepView for PickledVal {
    type V = PickledValModel;

    open spec fn deep_view(&self) -> PickledValModel {
        PickledValModel {
            logical_name: self.logical_name.deep_view(),
            compiled_name: self.compiled_name.deep_view(),
            range: self.range.deep_view(),
            other_range: self.other_range.deep_view(),
            ty: self.ty.deep_view(),
            flags: self.flags,
            member_info: self.member_info.deep_view(),
            attribs: self.attribs.deep_view(),
            repr_info: self.repr_info.deep_view(),
            xmldoc_sig: self.xmldoc_sig.deep_view(),
            access: self.access.deep_view(),
            parent: self.parent,
            literal_value: self.literal_value.deep_view(),
            xmldoc: self.xmldoc.deep_view(),
        }
    }
}

impl Same for PickledVal {
    fn same(&self, other: &Self) -> (r: bool) {
        self.logical_name.same(&other.logical_name)
            && self.compiled_name.same(&other.compiled_name)
            && self.range.same(&other.range)
            && self.other_range.same(&other.other_range)
            && self.ty.same(&other.ty)
            && self.flags.same(&other.flags)
            && self.member_info.same(&other.member_info)
            && self.attribs.same(&other.attribs)
            && self.repr_info.same(&other.repr_info)
            && self.xmldoc_sig.same(&other.xmldoc_sig)
            && self.access.same(&other.access)
            && self.parent.same(&other.parent)
            && self.literal_value.same(&other.literal_value)
            && self.xmldoc.same(&other.xmldoc)
    }
}

/// A record, exception or union-case field.
#[derive(Debug, Clone, PartialEq, Eq)]
pub struct PickledRecdField {
    pub is_mutable: bool,
    pub is_volatile: bool,
    pub ty: PickledType,
    pub is_static: bool,
    pub is_secret: bool,
    pub literal_value: Option<PickledConst>,
    pub ident: PickledIdent,
    pub property_attribs: Vec<PickledAttribute>,
    pub field_attribs: Vec<PickledAttribute>,
    pub xmldoc: Option<PickledXmlDoc>,
    pub xmldoc_sig: String,
    pub access: Vec<PickledCPath>,
}

/// The model of a [`PickledRecdField`].
pub struct PickledRecdFieldModel {
    pub is_mutable: bool,
    pub is_volatile: bool,
    pub ty: PickledTypeModel,
    pub is_static: bool,
    pub is_secret: bool,
    pub literal_value: Option<PickledConstModel>,
    pub ident: PickledIdentModel,
    pub property_attribs: Seq<PickledAttributeModel>,
    pub field_attribs: Seq<PickledAttributeModel>,
    pub xmldoc: Option<PickledXmlDocModel>,
    pub xmldoc_sig: Seq<char>,
    pub access: Seq<PickledCPathModel>,
}

impl DeepView for PickledRecdField {
    type V = PickledRecdFieldModel;

    open spec fn deep_view(&self) -> PickledRecdFieldModel {
        PickledRecdFieldModel {
            is_mutable: self.is_mutable,
            is_volatile: self.is_volatile,
            ty: self.ty.deep_view(),
            is_static: self.is_static,
            is_secret: self.is_secret,
            literal_value: self.literal_value.deep_view(),
            ident: self.ident.deep_view(),
            property_attribs: self.property_attribs.deep_view(),
            field_attribs: self.field_attribs.deep_view(),
            xmldoc: self.xmldoc.deep_view(),
            xmldoc_sig: self.xmldoc_sig.deep_view(),
            access: self.access.deep_view(),
        }
    }
}

impl Same for PickledRecdField {
    fn same(&self, other: &Self) -> (r: bool) {
        self.is_mutable.same(&other.is_mutable)
            && self.is_volatile.same(&other.is_volatile)
            && self.ty.same(&other.ty)
            && self.is_static.same(&other.is_static)
            && self.is_secret.same(&other.is_secret)
            && self.literal_value.same(&other.literal_value)
            && self.ident.same(&other.ident)
            && self.property_attribs.same(&other.property_attribs)
            && self.field_attribs.same(&other.field_attribs)
            && self.xmldoc.same(&other.xmldoc)
            && self.xmldoc_sig.same(&other.xmldoc_sig)
            && self.access.same(&other.access)
    }
}

/// A union case.
#[derive(Debug, Clone, PartialEq, Eq)]
pub struct PickledUnionCase {
    pub fields: Vec<PickledRecdField>,
    pub return_ty: PickledType,
    pub ident: PickledIdent,
    pub attribs: Vec<PickledAttribute>,
    pub xmldoc: Option<PickledXmlDoc>,
    pub xmldoc_sig: String,
    pub access: Vec<PickledCPath>,
}

/// The model of a [`PickledUnionCase`].
pub struct PickledUnionCaseModel {
    pub fields: Seq<PickledRecdFieldModel>,
    pub return_ty: PickledTypeModel,
    pub ident: PickledIdentModel,
    pub attribs: Seq<PickledAttributeModel>,
    pub xmldoc: Option<PickledXmlDocModel>,
    pub xmldoc_sig: Seq<char>,
    pub access: Seq<PickledCPathModel>,
}

impl DeepView for PickledUnionCase {
    type V = PickledUnionCaseModel;

    open spec fn deep_view(&self) -> PickledUnionCaseModel {
        PickledUnionCaseModel {
            fields: self.fields.deep_view(),
            return_ty: self.return_ty.deep_view(),
            ident: self.ident.deep_view(),
            attribs: self.attribs.deep_view(),
            xmldoc: self.xmldoc.deep_view(),
            xmldoc_sig: self.xmldoc_sig.deep_view(),
            access: self.access.deep_view(),
        }
    }
}

impl Same for PickledUnionCase {
    fn same(&self, other: &Self) -> (r: bool) {
        self.fields.same(&other.fields)
            && self.return_ty.same(&other.return_ty)
            && self.ident.same(&other.ident)
            && self.attribs.same(&other.attribs)
            && self.xmldoc.same(&other.xmldoc)
            && self.xmldoc_sig.same(&other.xmldoc_sig)
            && self.access.same(&other.access)
    }
}

/// The kind of an object-model type.
#[derive(Debug, Clone, PartialEq, Eq)]
pub enum PickledTyconObjModelKind {
    Class,
    Interface,
    Struct,
    Delegate(Box<PickledSlotSig>),
    Enum,
    Union,
    Record,
}

/// The model of a [`PickledTyconObjModelKind`].
pub enum PickledTyconObjModelKindModel {
    Class,
    Interface,
    Struct,
    Delegate(PickledSlotSigModel),
    Enum,
    Union,
    Record,
}

impl DeepView for PickledTyconObjModelKind {
    type V = PickledTyconObjModelKindModel;

    open spec fn deep_view(&self) -> PickledTyconObjModelKindModel {
        match self {
            PickledTyconObjModelKind::Class => PickledTyconObjModelKindModel::Class,
            PickledTyconObjModelKind::Interface => PickledTyconObjModelKindModel::Interface,
            PickledTyconObjModelKind::Struct => PickledTyconObjModelKindModel::Struct,
            PickledTyconObjModelKind::Delegate(a) => {
                PickledTyconObjModelKindModel::Delegate(a.deep_view())
            },
            PickledTyconObjModelKind::Enum => PickledTyconObjModelKindModel::Enum,
            PickledTyconObjModelKind::Union => PickledTyconObjModelKindModel::Union,
            PickledTyconObjModelKind::Record => PickledTyconObjModelKindModel::Record,
        }
    }
}

impl Same for PickledTyconObjModelKind {
    fn same(&self, other: &Self) -> (r: bool) {
        match (self, other) {
            (PickledTyconObjModelKind::Class, PickledTyconObjModelKind::Class) => true,
            (PickledTyconObjModelKind::Interface, PickledTyconObjModelKind::Interface) => true,
            (PickledTyconObjModelKind::Struct, PickledTyconObjModelKind::Struct) => true,
            (PickledTyconObjModelKind::Delegate(xa), PickledTyconObjModelKind::Delegate(ya)) => {
                xa.same(ya)
            },
            (PickledTyconObjModelKind::Enum, PickledTyconObjModelKind::Enum) => true,
            (PickledTyconObjModelKind::Union, PickledTyconObjModelKind::Union) => true,
            (PickledTyconObjModelKind::Record, PickledTyconObjModelKind::Record) => true,
            _ => false,
        }
    }
}

/// An object-model representation: its kind, its virtual slots and its fields.
#[derive(Debug, Clone, PartialEq, Eq)]
pub struct PickledTyconObjModelData {
    pub kind: PickledTyconObjModelKind,
    pub vslots: Vec<PickledVRef>,
    pub rfields: Vec<PickledRecdField>,
}

/// The model of a [`PickledTyconObjModelData`].
pub struct PickledTyconObjModelDataModel {
    pub kind: PickledTyconObjModelKindModel,
    pub vslots: Seq<PickledVRefModel>,
    pub rfields: Seq<PickledRecdFieldModel>,
}

impl DeepView for PickledTyconObjModelData {
    type V = PickledTyconObjModelDataModel;

    open spec fn deep_view(&self) -> PickledTyconObjModelDataModel {
        PickledTyconObjModelDataModel {
            kind: self.kind.deep_view(),
            vslots: self.vslots.deep_view(),
            rfields: self.rfields.deep_view(),
        }
    }
}

impl Same for PickledTyconObjModelData {
    fn same(&self, other: &Self) -> (r: bool) {
        self.kind.same(&other.kind)
            && self.vslots.same(&other.vslots)
            && self.rfields.same(&other.rfields)
    }
}

/// The representation of a type.
#[derive(Debug, Clone, PartialEq, Eq)]
pub enum PickledTyconRepr {
    NoRepr,
    Record(Vec<PickledRecdField>),
    Union(Vec<PickledUnionCase>),
    AsmRepr(PickledILType),
    FSharpObjectModel(PickledTyconObjModelData),
    Measureable(PickledType),
    UnionWithStaticFields { cases: Vec<PickledUnionCase>, objmodel: PickledTyconObjModelData },
}

/// The model of a [`PickledTyconRepr`].
pub enum PickledTyconReprModel {
    NoRepr,
    Record(Seq<PickledRecdFieldModel>),
    Union(Seq<PickledUnionCaseModel>),
    AsmRepr(PickledILType),
    FSharpObjectModel(PickledTyconObjModelDataModel),
    Measureable(PickledTypeModel),
    UnionWithStaticFields {
        cases: Seq<PickledUnionCaseModel>,
        objmodel: PickledTyconObjModelDataModel,
    },
}

impl DeepView for PickledTyconRepr {
    type V = PickledTyconReprModel;

    open spec fn deep_view(&self) -> PickledTyconReprModel {
        match self {
            PickledTyconRepr::NoRepr => PickledTyconReprModel::NoRepr,
            PickledTyconRepr::Record(a) => PickledTyconReprModel::Record(a.deep_view()),
            PickledTyconRepr::Union(a) => PickledTyconReprModel::Union(a.deep_view()),
            PickledTyconRepr::AsmRepr(a) => PickledTyconReprModel::AsmRepr(*a),
            PickledTyconRepr::FSharpObjectModel(a) => {
                PickledTyconReprModel::FSharpObjectModel(a.deep_view())
            },
            PickledTyconRepr::Measureable(a) => PickledTyconReprModel::Measureable(a.deep_view()),
            PickledTyconRepr::UnionWithStaticFields { cases, objmodel } => {
                PickledTyconReprModel::UnionWithStaticFields {
                    cases: cases.deep_view(),
                    objmodel: objmodel.deep_view(),
                }
            },
        }
    }
}

impl Same for PickledTyconRepr {
    fn same(&self, other: &Self) -> (r: bool) {
        match (self, other) {
            (PickledTyconRepr::NoRepr, PickledTyconRepr::NoRepr) => true,
            (PickledTyconRepr::Record(xa), PickledTyconRepr::Record(ya)) => xa.same(ya),
            (PickledTyconRepr::Union(xa), PickledTyconRepr::Union(ya)) => xa.same(ya),
            (PickledTyconRepr::AsmRepr(xa), PickledTyconRepr::AsmRepr(ya)) => xa.same(ya),
            (PickledTyconRepr::FSharpObjectModel(xa), PickledTyconRepr::FSharpObjectModel(ya)) => {
                xa.same(ya)
            },
            (PickledTyconRepr::Measureable(xa), PickledTyconRepr::Measureable(ya)) => xa.same(ya),
            (
                PickledTyconRepr::UnionWithStaticFields { cases, objmodel },
                PickledTyconRepr::UnionWithStaticFields { cases: y_cases, objmodel: y_objmodel },
            ) => cases.same(y_cases) && objmodel.same(y_objmodel),
            _ => false,
        }
    }
}

/// A representation as it is read, before the format flag of the entity decides
/// between an IL representation and a provided type.
#[derive(Debug, Clone, PartialEq, Eq)]
pub enum PickledTyconReprClosure {
    NoRepr,
    Record(Vec<PickledRecdField>),
    Union(Vec<PickledUnionCase>),
    ILTypeOrProvider(PickledILType),
    FSharpObjectModel(PickledTyconObjModelData),
    Measureable(PickledType),
    UnionWithStaticFields { cases: Vec<PickledUnionCase>, objmodel: PickledTyconObjModelData },
}

/// The model of a [`PickledTyconReprClosure`].
pub enum PickledTyconReprClosureModel {
    NoRepr,
    Record(Seq<PickledRecdFieldModel>),
    Union(Seq<PickledUnionCaseModel>),
    ILTypeOrProvider(PickledILType),
    FSharpObjectModel(PickledTyconObjModelDataModel),
    Measureable(PickledTypeModel),
    UnionWithStaticFields {
        cases: Seq<PickledUnionCaseModel>,
        objmodel: PickledTyconObjModelDataModel,
    },
}

impl DeepView for PickledTyconReprClosure {
    type V = PickledTyconReprClosureModel;

    open spec fn deep_view(&self) -> PickledTyconReprClosureModel {
        match self {
            PickledTyconReprClosure::NoRepr => PickledTyconReprClosureModel::NoRepr,
            PickledTyconReprClosure::Record(a) => {
                PickledTyconReprClosureModel::Record(a.deep_view())
            },
            PickledTyconReprClosure::Union(a) => PickledTyconReprClosureModel::Union(a.deep_view()),
            PickledTyconReprClosure::ILTypeOrProvider(a) => {
                PickledTyconReprClosureModel::ILTypeOrProvider(*a)
            },
            PickledTyconReprClosure::FSharpObjectModel(a) => {
                PickledTyconReprClosureModel::FSharpObjectModel(a.deep_view())
            },
            PickledTyconReprClosure::Measureable(a) => {
                PickledTyconReprClosureModel::Measureable(a.deep_view())
            },
            PickledTyconReprClosure::UnionWithStaticFields { cases, objmodel } => {
                PickledTyconReprClosureModel::UnionWithStaticFields {
                    cases: cases.deep_view(),
                    objmodel: objmodel.deep_view(),
                }
            },
        }
    }
}

impl Same for PickledTyconReprClosure {
    fn same(&self, other: &Self) -> (r: bool) {
        match (self, other) {
            (PickledTyconReprClosure::NoRepr, PickledTyconReprClosure::NoRepr) => true,
            (PickledTyconReprClosure::Record(xa), PickledTyconReprClosure::Record(ya)) => {
                xa.same(ya)
            },
            (PickledTyconReprClosure::Union(xa), PickledTyconReprClosure::Union(ya)) => xa.same(ya),
            (
                PickledTyconReprClosure::ILTypeOrProvider(xa),
                PickledTyconReprClosure::ILTypeOrProvider(ya),
            ) => xa.same(ya),
            (
                PickledTyconReprClosure::FSharpObjectModel(xa),
                PickledTyconReprClosure::FSharpObjectModel(ya),
            ) => xa.same(ya),
            (
                PickledTyconReprClosure::Measureable(xa),
                PickledTyconReprClosure::Measureable(ya),
            ) => xa.same(ya),
            (
                PickledTyconReprClosure::UnionWithStaticFields { cases, objmodel },
                PickledTyconReprClosure::UnionWithStaticFields {
                    cases: y_cases,
                    objmodel: y_objmodel,
                },
            ) => cases.same(y_cases) && objmodel.same(y_objmodel),
            _ => false,
        }
    }
}

/// The representation of an exception.
#[derive(Debug, Clone, PartialEq, Eq)]
pub enum PickledExnRepr {
    Abbrev(PickledTcRef),
    Asm(PickledILTypeRef),
    Fresh(Vec<PickledRecdField>),
    NotException,
}

/// The model of a [`PickledExnRepr`].
pub enum PickledExnReprModel {
    Abbrev(PickledTcRef),
    Asm(PickledILTypeRefModel),
    Fresh(Seq<PickledRecdFieldModel>),
    NotException,
}

impl DeepView for PickledExnRepr {
    type V = PickledExnReprModel;

    open spec fn deep_view(&self) -> PickledExnReprModel {
        match self {
            PickledExnRepr::Abbrev(a) => PickledExnReprModel::Abbrev(*a),
            PickledExnRepr::Asm(a) => PickledExnReprModel::Asm(a.deep_view()),
            PickledExnRepr::Fresh(a) => PickledExnReprModel::Fresh(a.deep_view()),
            PickledExnRepr::NotException => PickledExnReprModel::NotException,
        }
    }
}

impl Same for PickledExnRepr {
    fn same(&self, other: &Self) -> (r: bool) {
        match (self, other) {
            (PickledExnRepr::Abbrev(xa), PickledExnRepr::Abbrev(ya)) => xa.same(ya),
            (PickledExnRepr::Asm(xa), PickledExnRepr::Asm(ya)) => xa.same(ya),
            (PickledExnRepr::Fresh(xa), PickledExnRepr::Fresh(ya)) => xa.same(ya),
            (PickledExnRepr::NotException, PickledExnRepr::NotException) => true,
            _ => false,
        }
    }
}

/// The accessibility of a value or an entity: the paths it is restricted to,
/// none for a public one.
pub type PickledAccess = Vec<PickledCPath>;

/// The body of an entity: what it is, its values and its child entities, by
/// stamp and in declaration order.
#[derive(Debug, Clone, PartialEq, Eq)]
pub struct PickledModulType {
    pub is_type: IsType,
    pub vals: Vec<u32>,
    pub entities: Vec<u32>,
}

/// The augmentation of a type: the generated equality and comparison members,
/// its own members, its interfaces and its base type.
#[derive(Debug, Clone, PartialEq, Eq)]
pub struct PickledTcAug {
    pub compare: Option<u32>,
    pub compare_withc: Option<u32>,
    pub hash_and_equals_withc: Option<u32>,
    pub equals: Option<u32>,
    pub adhoc: Vec<u32>,
    pub interfaces: Vec<PickledType>,
    pub super_type: Option<PickledType>,
    pub is_abstract: bool,
}

/// An entity: a namespace fragment, a module, a type or an exception.
#[derive(Debug, Clone, PartialEq, Eq)]
pub struct PickledEntity {
    pub typars: Vec<u32>,
    pub logical_name: String,
    pub compiled_name: Option<String>,
    pub range: PickledRange,
    pub pub_path: Option<Vec<u32>>,
    pub access: PickledAccess,
    pub repr_access: PickledAccess,
    pub attribs: Vec<PickledAttribute>,
    pub repr: PickledTyconRepr,
    pub type_abbrev: Option<PickledType>,
    pub tcaug: PickledTcAug,
    pub typar_kind: TyparKind,
    pub flags: i64,
    pub cpath: Option<PickledCPath>,
    pub module_type: PickledModulType,
    pub exn_repr: PickledExnRepr,
    pub xmldoc: Option<PickledXmlDoc>,
}

/// A referenced assembly, by name.
#[derive(Debug, Clone, PartialEq, Eq)]
pub struct CcuRef {
    pub name: String,
}

/// A non-local entity reference: the index of its assembly and the string
/// indices of its path.
#[derive(Debug, Clone, PartialEq, Eq)]
pub struct PickledNleRef {
    pub ccu: u32,
    pub path: Vec<u32>,
}

/// The header of a pickle: the interning tables and the table sizes.
#[derive(Debug, Clone, PartialEq, Eq)]
pub struct PickledHeader {
    pub ccu_refs: Vec<CcuRef>,
    pub ntycons: u32,
    pub ntypars: u32,
    pub nvals: u32,
    pub nanoninfos: u32,
    pub strings: Vec<String>,
    pub pubpaths: Vec<Vec<u32>>,
    pub nlerefs: Vec<PickledNleRef>,
    pub simpletys: Vec<u32>,
    pub phase1_bytes: Vec<u8>,
}

/// The declarations of a pickle, by stamp.
#[derive(Debug, Clone, PartialEq, Eq)]
pub struct PickledOsgnTables {
    pub tycons: Vec<PickledEntity>,
    pub typars: Vec<PickledTyparSpecData>,
    pub vals: Vec<PickledVal>,
}

/// A decoded pickle.
#[derive(Debug, Clone, PartialEq, Eq)]
pub struct PickledCcu {
    pub header: PickledHeader,
    pub root_entity: u32,
    pub compile_time_working_dir: String,
    pub uses_quotations: bool,
    pub tables: PickledOsgnTables,
}

} // verus!
