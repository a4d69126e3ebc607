//! Turning an image into a shape that a projection has to refuse.
use crate::image::{
    Image, ImageModel, ModifiedType, ModifiedTypeModel, TypeDef, TypeDefModel, TypeSig,
    TypeSigModel, TypedRow, TypedRowModel,
};
use vstd::prelude::*;

verus! {

/// What becomes of an image before its modifiers are looked at. That the shape is
/// refused is not the point; that it is refused with an optional modifier just as
/// without is.
#[derive(Debug, Clone, Copy, PartialEq, Eq, Structural)]
pub enum HostileShape {
    /// The image as it is.
    Plain,
    /// The type of every event is a reference.
    ByRefEventTypes,
    /// The type of every field is a reference.
    ByRefFieldTypes,
    /// The type of every property is a reference.
    ByRefPropertyTypes,
}

impl HostileShape {
    /// Every shape.
    pub fn all() -> (r: [HostileShape; 4])
        ensures
            forall|s: HostileShape| #[trigger] r@.contains(s),
    {
        let r: [HostileShape; 4] = [
            HostileShape::Plain,
            HostileShape::ByRefEventTypes,
            HostileShape::ByRefFieldTypes,
            HostileShape::ByRefPropertyTypes,
        ];
        assert forall|s: HostileShape| #[trigger] r@.contains(s) by {
            let at: int = match s {
                HostileShape::Plain => 0,
                HostileShape::ByRefEventTypes => 1,
                HostileShape::ByRefFieldTypes => 2,
                HostileShape::ByRefPropertyTypes => 3,
            };
            assert(r@[at] == s);
        }
        r
    }
}

/// The position as a reference to the type, with its modifiers outermost. A reference
/// to a reference is malformed, so a reference stays what it is.
pub open spec fn referred(p: ModifiedTypeModel) -> ModifiedTypeModel {
    if p.ty is ByRef {
        p
    } else {
        ModifiedTypeModel {
            mods: p.mods,
            ty: TypeSigModel::ByRef(
                Box::new(ModifiedTypeModel { mods: Seq::empty(), ty: p.ty }),
            ),
        }
    }
}

/// The rows, each as a reference.
pub open spec fn referred_rows(rs: Seq<TypedRowModel>) -> Seq<TypedRowModel> {
    rs.map_values(
        |r: TypedRowModel|
            TypedRowModel {
                signature: match r.signature {
                    Some(p) => Some(referred(p)),
                    None => None,
                },
                ..r
            },
    )
}

/// The type definition in the shape.
pub open spec fn hostile_type_def(t: TypeDefModel, shape: HostileShape) -> TypeDefModel {
    match shape {
        HostileShape::Plain => t,
        HostileShape::ByRefEventTypes => TypeDefModel { events: referred_rows(t.events), ..t },
        HostileShape::ByRefFieldTypes => TypeDefModel { fields: referred_rows(t.fields), ..t },
        HostileShape::ByRefPropertyTypes => TypeDefModel {
            properties: referred_rows(t.properties),
            ..t
        },
    }
}

/// The image in the shape.
pub open spec fn hostile_image(i: ImageModel, shape: HostileShape) -> ImageModel {
    ImageModel {
        type_defs: i.type_defs.map_values(|t: TypeDefModel| hostile_type_def(t, shape)),
        ..i
    }
}

/// An image in a shape stays as it is when it is turned into the shape again.
pub proof fn law_hostile_is_idempotent(i: ImageModel, shape: HostileShape)
    ensures
        hostile_image(hostile_image(i, shape), shape) == hostile_image(i, shape),
{
    let once = hostile_image(i, shape);
    let twice = hostile_image(once, shape);
    assert forall|k: int| 0 <= k < i.type_defs.len() implies #[trigger] twice.type_defs[k]
        == once.type_defs[k] by {
        let t = once.type_defs[k];
        assert(t == hostile_type_def(i.type_defs[k], shape));
        match shape {
            HostileShape::Plain => {},
            HostileShape::ByRefEventTypes => {
                lemma_rows_idempotent(i.type_defs[k].events);
            },
            HostileShape::ByRefFieldTypes => {
                lemma_rows_idempotent(i.type_defs[k].fields);
            },
            HostileShape::ByRefPropertyTypes => {
                lemma_rows_idempotent(i.type_defs[k].properties);
            },
        }
    }
    assert(twice.type_defs =~= once.type_defs);
}

/// Rows that are references stay as they are.
proof fn lemma_rows_idempotent(rs: Seq<TypedRowModel>)
    ensures
        referred_rows(referred_rows(rs)) == referred_rows(rs),
{
    assert(referred_rows(referred_rows(rs)) =~= referred_rows(rs));
}

/// Make a row a reference.
fn by_ref(row: &mut TypedRow)
    ensures
        final(row).deep_view() == (TypedRowModel {
            signature: match old(row).deep_view().signature {
                Some(p) => Some(referred(p)),
                None => None,
            },
            ..old(row).deep_view()
        }),
{
    match &mut row.signature {
        Some(mt) => {
            let is_reference: bool = match &mt.ty {
                TypeSig::ByRef(_) => true,
                _ => false,
            };
            if !is_reference {
                let mut referent = TypeSig::TypedByRef;
                std::mem::swap(&mut referent, &mut mt.ty);
                mt.ty = TypeSig::ByRef(Box::new(ModifiedType::plain(referent)));
            }
        },
        None => {},
    }
}

/// Make each of the rows a reference.
fn by_ref_rows(rows: &mut Vec<TypedRow>)
    ensures
        final(rows).deep_view() == referred_rows(old(rows).deep_view()),
{
    let ghost start = rows.deep_view();
    let mut i: usize = 0;
    while i < rows.len()
        invariant
            i <= rows.len(),
            rows@.len() == start.len(),
            start == old(rows).deep_view(),
            forall|j: int|
                0 <= j < i ==> (#[trigger] rows@[j]).deep_view() == referred_rows(start)[j],
            forall|j: int| i <= j < rows@.len() ==> (#[trigger] rows@[j]).deep_view() == start[j],
        decreases rows.len() - i,
    {
        by_ref(&mut rows[i]);
        i = i + 1;
    }
    assert(rows.deep_view() =~= referred_rows(start));
}

/// Turn a type definition into the shape.
fn make_type_def_hostile(td: &mut TypeDef, shape: HostileShape)
    ensures
        final(td).deep_view() == hostile_type_def(old(td).deep_view(), shape),
{
    match shape {
        HostileShape::Plain => {},
        HostileShape::ByRefEventTypes => by_ref_rows(&mut td.events),
        HostileShape::ByRefFieldTypes => by_ref_rows(&mut td.fields),
        HostileShape::ByRefPropertyTypes => by_ref_rows(&mut td.properties),
    }
}

/// Turn an image into the shape.
pub fn make_hostile(image: &mut Image, shape: HostileShape)
    ensures
        final(image).deep_view() == hostile_image(old(image).deep_view(), shape),
{
    let ghost start = image.type_defs.deep_view();
    let ghost want = hostile_image(image.deep_view(), shape).type_defs;
    let mut i: usize = 0;
    while i < image.type_defs.len()
        invariant
            i <= image.type_defs.len(),
            image.type_defs@.len() == start.len(),
            start == old(image).type_defs.deep_view(),
            want == hostile_image(old(image).deep_view(), shape).type_defs,
            image.member_refs == old(image).member_refs,
            forall|j: int| 0 <= j < i ==> (#[trigger] image.type_defs@[j]).deep_view() == want[j],
            forall|j: int|
                i <= j < image.type_defs@.len() ==> (#[trigger] image.type_defs@[j]).deep_view()
                    == start[j],
        decreases image.type_defs.len() - i,
    {
        make_type_def_hostile(&mut image.type_defs[i], shape);
        i = i + 1;
    }
    assert(image.type_defs.deep_view() =~= want);
}

} // verus!
