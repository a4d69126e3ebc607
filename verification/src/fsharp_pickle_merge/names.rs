//! Names and source ranges of pickled entities and values.
use crate::fsharp_pickle::model::{
    IsType, PickledAttribute, PickledCcu, PickledEntity, PickledNleRef, PickledRange, PickledTcRef,
    PickledVal,
};
use crate::model::{FsharpSourceRange, FsharpSourceRangeModel};
use crate::text;
use crate::text::{same_text, strip_arity, strip_suffix};
use vstd::prelude::*;

verus! {

/// The flag of an extension member among the flags of a value.
pub const VAL_FLAGS_IS_EXTENSION_MEMBER: i64 = 0b1_0000_0000;

/// The flag of a module or namespace among the flags of an entity; it is clear
/// on every type.
pub const ENTITY_FLAGS_IS_MODULE_OR_NAMESPACE: i64 = 0b1;

/// The bits of the kind among the flags of a type parameter.
pub const TYPAR_KIND_MASK: i64 = 0b00001000100000000;

/// The kind bits of a measure parameter.
pub const TYPAR_KIND_MEASURE: i64 = 0b00000000100000000;

/// The CLR name of an entity: its compiled name, or its logical name where it has
/// none, without the generic arity.
pub open spec fn clr_name_of(e: PickledEntity) -> Seq<char> {
    text::without_arity(
        match e.compiled_name {
            Some(c) => c@,
            None => e.logical_name@,
        },
    )
}

/// Whether the body of an entity is that of a module or type.
pub open spec fn is_module_or_type(e: PickledEntity) -> bool {
    e.module_type.is_type == IsType::ModuleOrType || e.module_type.is_type
        == IsType::FSharpModuleWithSuffix
}

/// The logical name, without its arity, where a different compiled name is given.
pub open spec fn renamed_from(e: PickledEntity) -> Option<Seq<char>> {
    match e.compiled_name {
        Some(c) => if c@ != e.logical_name@ {
            Some(text::without_arity(e.logical_name@))
        } else {
            None
        },
        None => None,
    }
}

/// The F# name of an entity, where it differs from its CLR name: a module with
/// the `Module` suffix loses it, and a renamed module or type has its logical
/// name.
pub open spec fn source_name_of(e: PickledEntity) -> Option<Seq<char>> {
    match e.module_type.is_type {
        IsType::FSharpModuleWithSuffix => text::without_suffix(e.logical_name@, "Module"@),
        IsType::ModuleOrType => renamed_from(e),
        IsType::Namespace => None,
    }
}

/// The type parameter under `ti` exists and is not a measure.
pub open spec fn is_type_typar(ccu: PickledCcu, ti: u32) -> bool {
    ti < ccu.tables.typars@.len() && ccu.tables.typars@[ti as int].flags & TYPAR_KIND_MASK
        != TYPAR_KIND_MEASURE
}

/// No type parameter of the entity is a measure.
pub open spec fn measure_free(ccu: PickledCcu, e: PickledEntity) -> bool {
    forall|i: int| 0 <= i < e.typars@.len() ==> is_type_typar(ccu, #[trigger] e.typars@[i])
}

/// A pickled range with its file name.
pub open spec fn source_range(file: Seq<char>, r: PickledRange) -> FsharpSourceRangeModel {
    FsharpSourceRangeModel {
        file,
        start_line: r.start.line,
        start_column: r.start.column,
        end_line: r.end.line,
        end_column: r.end.column,
    }
}

/// A pickled range, where its file is in the strings table.
pub open spec fn resolved_range(ccu: PickledCcu, r: PickledRange) -> Option<
    FsharpSourceRangeModel,
> {
    if r.file < ccu.header.strings@.len() {
        Some(source_range(ccu.header.strings@[r.file as int]@, r))
    } else {
        None
    }
}

/// Where a value is defined: its definition range, or else its primary range.
pub open spec fn val_range_of(ccu: PickledCcu, v: PickledVal) -> Option<FsharpSourceRangeModel> {
    match v.other_range {
        Some(r) => resolved_range(ccu, r),
        None => match v.range {
            Some(r) => resolved_range(ccu, r),
            None => None,
        },
    }
}

/// Where an entity is declared, unless its file is the placeholder of a synthetic
/// entity.
pub open spec fn entity_range_of(ccu: PickledCcu, e: PickledEntity) -> Option<
    FsharpSourceRangeModel,
> {
    match resolved_range(ccu, e.range) {
        Some(r) => if r.file == "unknown"@ {
            None
        } else {
            Some(r)
        },
        None => None,
    }
}

/// The path of a non-local entity, without the indices that dangle, from the
/// `i`-th on.
pub open spec fn nle_path_from(ccu: PickledCcu, path: Seq<u32>, i: int) -> Seq<Seq<char>>
    decreases path.len() - i,
{
    if i < 0 || i >= path.len() {
        Seq::empty()
    } else if path[i] < ccu.header.strings@.len() {
        seq![ccu.header.strings@[path[i] as int]@] + nle_path_from(ccu, path, i + 1)
    } else {
        nle_path_from(ccu, path, i + 1)
    }
}

/// The path of the attribute class `AutoOpenAttribute`.
pub open spec fn auto_open_path() -> Seq<Seq<char>> {
    seq!["Microsoft"@, "FSharp"@, "Core"@, "AutoOpenAttribute"@]
}

/// The attribute's class is `Microsoft.FSharp.Core.AutoOpenAttribute`.
pub open spec fn is_auto_open(ccu: PickledCcu, a: PickledAttribute) -> bool {
    match a.tcref {
        PickledTcRef::NonLocal(idx) => idx < ccu.header.nlerefs@.len() && nle_path_from(
            ccu,
            ccu.header.nlerefs@[idx as int].path@,
            0,
        ) == auto_open_path(),
        PickledTcRef::Local(_) => false,
    }
}

/// One of the attributes is `AutoOpenAttribute`.
pub open spec fn has_auto_open(ccu: PickledCcu, attribs: Seq<PickledAttribute>) -> bool {
    exists|i: int| 0 <= i < attribs.len() && is_auto_open(ccu, #[trigger] attribs[i])
}

/// The CLR name of an entity.
pub fn clr_name(entity: &PickledEntity) -> (r: String)
    ensures
        r@ == clr_name_of(*entity),
{
    match &entity.compiled_name {
        Some(c) => strip_arity(c.as_str()),
        None => strip_arity(entity.logical_name.as_str()),
    }
}

/// The logical name, without its arity, where a different compiled name is given.
pub fn renamed_source_name(entity: &PickledEntity) -> (r: Option<String>)
    ensures
        r.deep_view() == renamed_from(*entity),
{
    match &entity.compiled_name {
        Some(compiled) => if *compiled != entity.logical_name {
            Some(strip_arity(entity.logical_name.as_str()))
        } else {
            None
        },
        None => None,
    }
}

/// The F# name of an entity, where it differs from its CLR name.
pub fn entity_source_name(entity: &PickledEntity) -> (r: Option<String>)
    ensures
        r.deep_view() == source_name_of(*entity),
{
    match entity.module_type.is_type {
        IsType::FSharpModuleWithSuffix => strip_suffix(entity.logical_name.as_str(), "Module"),
        IsType::ModuleOrType => renamed_source_name(entity),
        IsType::Namespace => None,
    }
}

/// Whether no type parameter of the entity is a measure, which the metadata
/// erases. A type parameter that does not exist counts as a measure.
pub fn is_measure_free(pickled: &PickledCcu, entity: &PickledEntity) -> (r: bool)
    ensures
        r == measure_free(*pickled, *entity),
{
    let mut i: usize = 0;
    while i < entity.typars.len()
        invariant
            i <= entity.typars.len(),
            forall|j: int| 0 <= j < i ==> is_type_typar(*pickled, #[trigger] entity.typars@[j]),
        decreases entity.typars.len() - i,
    {
        let ti: usize = entity.typars[i] as usize;
        if ti >= pickled.tables.typars.len() || pickled.tables.typars[ti].flags & TYPAR_KIND_MASK
            == TYPAR_KIND_MEASURE {
            assert(!is_type_typar(*pickled, entity.typars@[i as int]));
            return false;
        }
        i = i + 1;
    }
    true
}

/// A pickled range, where its file is in the strings table.
fn resolve_range(pickled: &PickledCcu, r: &PickledRange) -> (out: Option<FsharpSourceRange>)
    ensures
        out.deep_view() == resolved_range(*pickled, *r),
{
    if (r.file as usize) < pickled.header.strings.len() {
        Some(
            FsharpSourceRange {
                file: pickled.header.strings[r.file as usize].clone(),
                start_line: r.start.line,
                start_column: r.start.column,
                end_line: r.end.line,
                end_column: r.end.column,
            },
        )
    } else {
        None
    }
}

/// Where a value is defined.
pub fn resolve_definition_range(pickled: &PickledCcu, v: &PickledVal) -> (r: Option<
    FsharpSourceRange,
>)
    ensures
        r.deep_view() == val_range_of(*pickled, *v),
{
    match &v.other_range {
        Some(r) => resolve_range(pickled, r),
        None => match &v.range {
            Some(r) => resolve_range(pickled, r),
            None => None,
        },
    }
}

/// Where an entity is declared.
pub fn resolve_entity_range(pickled: &PickledCcu, entity: &PickledEntity) -> (r: Option<
    FsharpSourceRange,
>)
    ensures
        r.deep_view() == entity_range_of(*pickled, *entity),
{
    match resolve_range(pickled, &entity.range) {
        Some(r) => if same_text(r.file.as_str(), "unknown") {
            None
        } else {
            Some(r)
        },
        None => None,
    }
}

/// The path of a non-local entity, without the indices that dangle.
fn nle_path(pickled: &PickledCcu, nle: &PickledNleRef) -> (r: Vec<String>)
    ensures
        r.deep_view() == nle_path_from(*pickled, nle.path@, 0),
{
    let mut out: Vec<String> = Vec::new();
    let mut i: usize = 0;
    assert(out.deep_view() + nle_path_from(*pickled, nle.path@, 0) =~= nle_path_from(
        *pickled,
        nle.path@,
        0,
    ));
    while i < nle.path.len()
        invariant
            i <= nle.path.len(),
            nle_path_from(*pickled, nle.path@, 0) == out.deep_view() + nle_path_from(
                *pickled,
                nle.path@,
                i as int,
            ),
        decreases nle.path.len() - i,
    {
        let idx: usize = nle.path[i] as usize;
        let ghost before = out.deep_view();
        if idx < pickled.header.strings.len() {
            let segment = pickled.header.strings[idx].clone();
            out.push(segment);
            assert(out.deep_view() =~= before.push(segment@));
            assert(before + (seq![segment@] + nle_path_from(*pickled, nle.path@, i + 1))
                =~= out.deep_view() + nle_path_from(*pickled, nle.path@, i + 1));
        }
        i = i + 1;
    }
    assert(nle_path_from(*pickled, nle.path@, i as int) =~= Seq::empty());
    assert(out.deep_view() + Seq::empty() =~= out.deep_view());
    out
}

/// Whether a path is that of `AutoOpenAttribute`.
fn is_auto_open_path(path: &Vec<String>) -> (r: bool)
    ensures
        r == (path.deep_view() == auto_open_path()),
{
    if path.len() != 4 {
        assert(path.deep_view().len() != auto_open_path().len());
        return false;
    }
    let r: bool = same_text(path[0].as_str(), "Microsoft") && same_text(path[1].as_str(), "FSharp")
        && same_text(path[2].as_str(), "Core") && same_text(path[3].as_str(), "AutoOpenAttribute");
    proof {
        assert(path.deep_view().len() == 4);
        if r {
            assert(path.deep_view() =~= auto_open_path());
        } else if path.deep_view() == auto_open_path() {
            assert(path.deep_view()[0] == auto_open_path()[0]);
            assert(path.deep_view()[1] == auto_open_path()[1]);
            assert(path.deep_view()[2] == auto_open_path()[2]);
            assert(path.deep_view()[3] == auto_open_path()[3]);
        }
    }
    r
}

/// Whether an attribute list holds `AutoOpenAttribute`.
pub fn has_auto_open_attribute(pickled: &PickledCcu, attribs: &Vec<PickledAttribute>) -> (r: bool)
    ensures
        r == has_auto_open(*pickled, attribs@),
{
    let mut i: usize = 0;
    while i < attribs.len()
        invariant
            i <= attribs.len(),
            forall|j: int| 0 <= j < i ==> !is_auto_open(*pickled, #[trigger] attribs@[j]),
        decreases attribs.len() - i,
    {
        match attribs[i].tcref {
            PickledTcRef::NonLocal(idx) => {
                if (idx as usize) < pickled.header.nlerefs.len() {
                    let path = nle_path(pickled, &pickled.header.nlerefs[idx as usize]);
                    if is_auto_open_path(&path) {
                        assert(is_auto_open(*pickled, attribs@[i as int]));
                        return true;
                    }
                }
            },
            PickledTcRef::Local(_) => {},
        }
        i = i + 1;
    }
    false
}

} // verus!
