//! The leaf decoders: ranges, identifiers, documentation, accessibility,
//! constants and IL types. None of them touches a declaration table.
use crate::error::{Fault, ImportError};
use crate::fsharp_pickle::model::{
    IsType, PickledAccess, PickledCPath, PickledCPathModel, PickledConst, PickledConstModel,
    PickledILScopeRef, PickledILType, PickledILTypeRef, PickledILTypeRefModel, PickledIdent,
    PickledIdentModel, PickledPos, PickledRange, PickledXmlDoc, PickledXmlDocModel, TyparKind,
};
use crate::fsharp_pickle::reader;
use crate::fsharp_pickle::reader::{Decoded, PickleReader, Tape};
use vstd::prelude::*;

verus! {

/// A source position: line, then column.
pub open spec fn pos_at(s: Tape) -> Decoded<PickledPos> {
    match reader::uint32_at(s, "u_pos line") {
        Err(e) => Err(e),
        Ok((line, s)) => match reader::uint32_at(s, "u_pos column") {
            Err(e) => Err(e),
            Ok((column, s)) => Ok((PickledPos { line, column }, s)),
        },
    }
}

/// A source range: the file's string index, the start and the end.
pub open spec fn range_at(s: Tape) -> Decoded<PickledRange> {
    match reader::string_index_at(s, "u_range file") {
        Err(e) => Err(e),
        Ok((file, s)) => match pos_at(s) {
            Err(e) => Err(e),
            Ok((start, s)) => match pos_at(s) {
                Err(e) => Err(e),
                Ok((end, s)) => Ok((PickledRange { file, start, end }, s)),
            },
        },
    }
}

/// An identifier: its name, then its range.
pub open spec fn ident_at(s: Tape) -> Decoded<PickledIdentModel> {
    match reader::string_at(s, "u_ident name") {
        Err(e) => Err(e),
        Ok((name, s)) => match range_at(s) {
            Err(e) => Err(e),
            Ok((range, s)) => Ok((PickledIdentModel { name, range }, s)),
        },
    }
}

/// The lines of a documentation comment.
pub open spec fn xmldoc_at(s: Tape) -> Decoded<PickledXmlDocModel> {
    match reader::array_at(
        s,
        "u_xmldoc lines",
        |s: Tape| reader::string_at(s, "u_xmldoc line"),
    ) {
        Err(e) => Err(e),
        Ok((lines, s)) => Ok((PickledXmlDocModel { lines }, s)),
    }
}

/// The kind of a type parameter.
pub open spec fn kind_at(s: Tape) -> Decoded<TyparKind> {
    match reader::byte_at(s, "u_kind tag") {
        Err(e) => Err(e),
        Ok((tag, s)) => if tag == 0 {
            Ok((TyparKind::Type, s))
        } else if tag == 1 {
            Ok((TyparKind::Measure, s))
        } else {
            Err((Fault::UnsupportedPickleTag { context: "u_kind", tag: tag as u32 }, s))
        },
    }
}

/// What the body of an entity is.
pub open spec fn istype_at(s: Tape) -> Decoded<IsType> {
    match reader::byte_at(s, "u_istype tag") {
        Err(e) => Err(e),
        Ok((tag, s)) => if tag == 0 {
            Ok((IsType::FSharpModuleWithSuffix, s))
        } else if tag == 1 {
            Ok((IsType::ModuleOrType, s))
        } else if tag == 2 {
            Ok((IsType::Namespace, s))
        } else {
            Err((Fault::UnsupportedPickleTag { context: "u_istype", tag: tag as u32 }, s))
        },
    }
}

/// The scope of an IL type.
pub open spec fn scope_at(s: Tape) -> Decoded<PickledILScopeRef> {
    match reader::byte_at(s, "u_ILScopeRef tag") {
        Err(e) => Err(e),
        Ok((tag, s)) => if tag == 0 {
            Ok((PickledILScopeRef::Local, s))
        } else {
            Err((Fault::UnsupportedPickleTag { context: "u_ILScopeRef", tag: tag as u32 }, s))
        },
    }
}

/// One fragment of a compilation path.
pub open spec fn fragment_at(s: Tape) -> Decoded<(Seq<char>, IsType)> {
    match reader::string_at(s, "u_cpath fragment") {
        Err(e) => Err(e),
        Ok((name, s)) => match istype_at(s) {
            Err(e) => Err(e),
            Ok((kind, s)) => Ok(((name, kind), s)),
        },
    }
}

/// A compilation path.
pub open spec fn cpath_at(s: Tape) -> Decoded<PickledCPathModel> {
    match scope_at(s) {
        Err(e) => Err(e),
        Ok((scope, s)) => match reader::array_at(
            s,
            "u_cpath path",
            |s: Tape| fragment_at(s),
        ) {
            Err(e) => Err(e),
            Ok((path, s)) => Ok((PickledCPathModel { scope, path }, s)),
        },
    }
}

/// An accessibility: the paths it is restricted to.
pub open spec fn access_at(s: Tape) -> Decoded<Seq<PickledCPathModel>> {
    reader::array_at(s, "u_access paths", |s: Tape| cpath_at(s))
}

/// A constant: a tag byte, then the payload of its kind.
pub open spec fn const_at(s: Tape) -> Decoded<PickledConstModel> {
    match reader::byte_at(s, "u_const tag") {
        Err(e) => Err(e),
        Ok((tag, s)) => if tag == 0 {
            match reader::bool_at(s, "u_const bool") {
                Err(e) => Err(e),
                Ok((v, s)) => Ok((PickledConstModel::Bool(v), s)),
            }
        } else if tag == 2 {
            match reader::byte_at(s, "u_const byte") {
                Err(e) => Err(e),
                Ok((v, s)) => Ok((PickledConstModel::Byte(v), s)),
            }
        } else if tag == 6 {
            match reader::uint32_at(s, "u_const uint32") {
                Err(e) => Err(e),
                Ok((v, s)) => Ok((PickledConstModel::UInt32(v), s)),
            }
        } else if tag == 1 || tag == 3 || tag == 4 || tag == 5 || tag == 11 || tag == 13 {
            match reader::int32_at(s, "u_const int32") {
                Err(e) => Err(e),
                Ok((v, s)) => Ok(
                    (
                        if tag == 1 {
                            PickledConstModel::SByte(v)
                        } else if tag == 3 {
                            PickledConstModel::Int16(v)
                        } else if tag == 4 {
                            PickledConstModel::UInt16(v)
                        } else if tag == 5 {
                            PickledConstModel::Int32(v)
                        } else if tag == 11 {
                            PickledConstModel::Single(v)
                        } else {
                            PickledConstModel::Char(v)
                        },
                        s,
                    ),
                ),
            }
        } else if tag == 7 || tag == 8 || tag == 9 || tag == 10 || tag == 12 {
            match reader::int64_at(s, "u_const int64") {
                Err(e) => Err(e),
                Ok((v, s)) => Ok(
                    (
                        if tag == 7 {
                            PickledConstModel::Int64(v)
                        } else if tag == 8 {
                            PickledConstModel::UInt64(v)
                        } else if tag == 9 {
                            PickledConstModel::IntPtr(v)
                        } else if tag == 10 {
                            PickledConstModel::UIntPtr(v)
                        } else {
                            PickledConstModel::Double(v)
                        },
                        s,
                    ),
                ),
            }
        } else if tag == 14 {
            match reader::string_at(s, "u_const string") {
                Err(e) => Err(e),
                Ok((v, s)) => Ok((PickledConstModel::String(v), s)),
            }
        } else if tag == 15 {
            Ok((PickledConstModel::Unit, s))
        } else if tag == 16 {
            Ok((PickledConstModel::Zero, s))
        } else if tag == 17 {
            match reader::array_at(
                s,
                "u_const decimal",
                |s: Tape| reader::int32_at(s, "u_const decimal word"),
            ) {
                Err(e) => Err(e),
                Ok((v, s)) => Ok((PickledConstModel::Decimal(v), s)),
            }
        } else {
            Err((Fault::UnsupportedPickleTag { context: "u_const", tag: tag as u32 }, s))
        },
    }
}

/// A reference to an IL type: scope, enclosing types, name.
pub open spec fn il_type_ref_at(s: Tape) -> Decoded<PickledILTypeRefModel> {
    match scope_at(s) {
        Err(e) => Err(e),
        Ok((scope, s)) => match reader::array_at(
            s,
            "u_ILTypeRef enclosing",
            |s: Tape| reader::string_at(s, "u_ILTypeRef enclosing name"),
        ) {
            Err(e) => Err(e),
            Ok((enclosing, s)) => match reader::string_at(
                s,
                "u_ILTypeRef name",
            ) {
                Err(e) => Err(e),
                Ok((name, s)) => Ok((PickledILTypeRefModel { scope, enclosing, name }, s)),
            },
        },
    }
}

/// An IL type.
pub open spec fn il_type_at(s: Tape) -> Decoded<PickledILType> {
    match reader::byte_at(s, "u_ILType tag") {
        Err(e) => Err(e),
        Ok((tag, s)) => if tag == 0 {
            Ok((PickledILType::Void, s))
        } else if tag == 7 {
            match reader::uint32_at(s, "u_ILType type variable") {
                Err(e) => Err(e),
                Ok((i, s)) => Ok((PickledILType::TypeVar(i), s)),
            }
        } else {
            Err((Fault::UnsupportedPickleTag { context: "u_ILType", tag: tag as u32 }, s))
        },
    }
}

/// Read a source position.
pub fn read_pos(reader: &mut PickleReader<'_>) -> (r: Result<PickledPos, ImportError>)
    requires
        old(reader)@.wf(),
    ensures
        final(reader)@.wf(),
        final(reader)@.depth == old(reader)@.depth,
        reader::agrees(r, final(reader)@, pos_at(old(reader)@)),
{
    let line: u32 = reader.read_uint32("u_pos line")?;
    let column: u32 = reader.read_uint32("u_pos column")?;
    Ok(PickledPos { line, column })
}

/// Read a source range.
pub fn read_range(reader: &mut PickleReader<'_>) -> (r: Result<PickledRange, ImportError>)
    requires
        old(reader)@.wf(),
    ensures
        final(reader)@.wf(),
        final(reader)@.depth == old(reader)@.depth,
        reader::agrees(r, final(reader)@, range_at(old(reader)@)),
{
    let file: u32 = reader.read_string_index("u_range file")?;
    let start = read_pos(reader)?;
    let end = read_pos(reader)?;
    Ok(PickledRange { file, start, end })
}

/// Read an identifier.
pub fn read_ident(reader: &mut PickleReader<'_>) -> (r: Result<PickledIdent, ImportError>)
    requires
        old(reader)@.wf(),
    ensures
        final(reader)@.wf(),
        final(reader)@.depth == old(reader)@.depth,
        reader::agrees(r, final(reader)@, ident_at(old(reader)@)),
{
    let name = reader.read_string("u_ident name")?;
    let range = read_range(reader)?;
    Ok(PickledIdent { name, range })
}

/// Read the lines of a documentation comment.
pub fn read_xmldoc<'a>(reader: &mut PickleReader<'a>) -> (r: Result<PickledXmlDoc, ImportError>)
    requires
        old(reader)@.wf(),
    ensures
        final(reader)@.wf(),
        final(reader)@.depth == old(reader)@.depth,
        reader::agrees(r, final(reader)@, xmldoc_at(old(reader)@)),
{
    let line = |x: &mut PickleReader<'a>| -> (o: Result<String, ImportError>)
        requires
            x@.wf(),
        ensures
            final(x)@.wf(),
            final(x)@.depth == old(x)@.depth,
            reader::agrees(o, final(x)@, reader::string_at(old(x)@, "u_xmldoc line")),
        { x.read_string("u_xmldoc line") };
    let ghost step = |s: Tape| reader::string_at(s, "u_xmldoc line");
    let ghost want = reader::array_at(reader@, "u_xmldoc lines", step);
    let lines = reader.read_array("u_xmldoc lines", line)?;
    Ok(PickledXmlDoc { lines })
}

/// Read the kind of a type parameter.
pub fn read_kind(reader: &mut PickleReader<'_>) -> (r: Result<TyparKind, ImportError>)
    requires
        old(reader)@.wf(),
    ensures
        final(reader)@.wf(),
        final(reader)@.depth == old(reader)@.depth,
        reader::agrees(r, final(reader)@, kind_at(old(reader)@)),
{
    match reader.read_byte("u_kind tag")? {
        0 => Ok(TyparKind::Type),
        1 => Ok(TyparKind::Measure),
        other => Err(ImportError::UnsupportedPickleTag { context: "u_kind", tag: other as u32 }),
    }
}

/// Read what the body of an entity is.
pub fn read_istype(reader: &mut PickleReader<'_>) -> (r: Result<IsType, ImportError>)
    requires
        old(reader)@.wf(),
    ensures
        final(reader)@.wf(),
        final(reader)@.depth == old(reader)@.depth,
        reader::agrees(r, final(reader)@, istype_at(old(reader)@)),
{
    match reader.read_byte("u_istype tag")? {
        0 => Ok(IsType::FSharpModuleWithSuffix),
        1 => Ok(IsType::ModuleOrType),
        2 => Ok(IsType::Namespace),
        other => Err(ImportError::UnsupportedPickleTag { context: "u_istype", tag: other as u32 }),
    }
}

/// Read the scope of an IL type.
pub fn read_scope(reader: &mut PickleReader<'_>) -> (r: Result<PickledILScopeRef, ImportError>)
    requires
        old(reader)@.wf(),
    ensures
        final(reader)@.wf(),
        final(reader)@.depth == old(reader)@.depth,
        reader::agrees(r, final(reader)@, scope_at(old(reader)@)),
{
    match reader.read_byte("u_ILScopeRef tag")? {
        0 => Ok(PickledILScopeRef::Local),
        other => Err(
            ImportError::UnsupportedPickleTag { context: "u_ILScopeRef", tag: other as u32 },
        ),
    }
}

/// Read one fragment of a compilation path.
pub fn read_fragment(reader: &mut PickleReader<'_>) -> (r: Result<(String, IsType), ImportError>)
    requires
        old(reader)@.wf(),
    ensures
        final(reader)@.wf(),
        final(reader)@.depth == old(reader)@.depth,
        reader::agrees(r, final(reader)@, fragment_at(old(reader)@)),
{
    let name = reader.read_string("u_cpath fragment")?;
    let kind = read_istype(reader)?;
    Ok((name, kind))
}

/// Read a compilation path.
pub fn read_cpath<'a>(reader: &mut PickleReader<'a>) -> (r: Result<PickledCPath, ImportError>)
    requires
        old(reader)@.wf(),
    ensures
        final(reader)@.wf(),
        final(reader)@.depth == old(reader)@.depth,
        reader::agrees(r, final(reader)@, cpath_at(old(reader)@)),
{
    let scope = read_scope(reader)?;
    let fragment = |x: &mut PickleReader<'a>| -> (o: Result<(String, IsType), ImportError>)
        requires
            x@.wf(),
        ensures
            final(x)@.wf(),
            final(x)@.depth == old(x)@.depth,
            reader::agrees(o, final(x)@, fragment_at(old(x)@)),
        { read_fragment(x) };
    let ghost step = |s: Tape| fragment_at(s);
    let ghost want = reader::array_at(reader@, "u_cpath path", step);
    let path = reader.read_array("u_cpath path", fragment)?;
    Ok(PickledCPath { scope, path })
}

/// Read an accessibility.
pub fn read_access<'a>(reader: &mut PickleReader<'a>) -> (r: Result<PickledAccess, ImportError>)
    requires
        old(reader)@.wf(),
    ensures
        final(reader)@.wf(),
        final(reader)@.depth == old(reader)@.depth,
        reader::agrees(r, final(reader)@, access_at(old(reader)@)),
{
    let path = |x: &mut PickleReader<'a>| -> (o: Result<PickledCPath, ImportError>)
        requires
            x@.wf(),
        ensures
            final(x)@.wf(),
            final(x)@.depth == old(x)@.depth,
            reader::agrees(o, final(x)@, cpath_at(old(x)@)),
        { read_cpath(x) };
    let ghost step = |s: Tape| cpath_at(s);
    let ghost want = reader::array_at(reader@, "u_access paths", step);
    reader.read_array("u_access paths", path)
}

/// Read a constant.
pub fn read_const<'a>(reader: &mut PickleReader<'a>) -> (r: Result<PickledConst, ImportError>)
    requires
        old(reader)@.wf(),
    ensures
        final(reader)@.wf(),
        final(reader)@.depth == old(reader)@.depth,
        reader::agrees(r, final(reader)@, const_at(old(reader)@)),
{
    let tag: u8 = reader.read_byte("u_const tag")?;
    match tag {
        0 => {
            let v: bool = reader.read_bool("u_const bool")?;
            Ok(PickledConst::Bool(v))
        },
        2 => {
            let v: u8 = reader.read_byte("u_const byte")?;
            Ok(PickledConst::Byte(v))
        },
        6 => {
            let v: u32 = reader.read_uint32("u_const uint32")?;
            Ok(PickledConst::UInt32(v))
        },
        1 | 3 | 4 | 5 | 11 | 13 => {
            let v: i32 = reader.read_int32("u_const int32")?;
            Ok(
                match tag {
                    1 => PickledConst::SByte(v),
                    3 => PickledConst::Int16(v),
                    4 => PickledConst::UInt16(v),
                    5 => PickledConst::Int32(v),
                    11 => PickledConst::Single(v),
                    _ => PickledConst::Char(v),
                },
            )
        },
        7 | 8 | 9 | 10 | 12 => {
            let v: i64 = reader.read_int64("u_const int64")?;
            Ok(
                match tag {
                    7 => PickledConst::Int64(v),
                    8 => PickledConst::UInt64(v),
                    9 => PickledConst::IntPtr(v),
                    10 => PickledConst::UIntPtr(v),
                    _ => PickledConst::Double(v),
                },
            )
        },
        14 => {
            let v = reader.read_string("u_const string")?;
            Ok(PickledConst::String(v))
        },
        15 => Ok(PickledConst::Unit),
        16 => Ok(PickledConst::Zero),
        17 => {
            let word = |x: &mut PickleReader<'a>| -> (o: Result<i32, ImportError>)
                requires
                    x@.wf(),
                ensures
                    final(x)@.wf(),
                    final(x)@.depth == old(x)@.depth,
                    reader::agrees(o, final(x)@, reader::int32_at(old(x)@, "u_const decimal word")),
                { x.read_int32("u_const decimal word") };
            let ghost step = |s: Tape| reader::int32_at(s, "u_const decimal word");
            let ghost want = reader::array_at(reader@, "u_const decimal", step);
            let words = reader.read_array("u_const decimal", word)?;
            Ok(PickledConst::Decimal(words))
        },
        other => Err(ImportError::UnsupportedPickleTag { context: "u_const", tag: other as u32 }),
    }
}

/// Read a reference to an IL type.
pub fn read_il_type_ref<'a>(reader: &mut PickleReader<'a>) -> (r: Result<
    PickledILTypeRef,
    ImportError,
>)
    requires
        old(reader)@.wf(),
    ensures
        final(reader)@.wf(),
        final(reader)@.depth == old(reader)@.depth,
        reader::agrees(r, final(reader)@, il_type_ref_at(old(reader)@)),
{
    let scope = read_scope(reader)?;
    let outer = |x: &mut PickleReader<'a>| -> (o: Result<String, ImportError>)
        requires
            x@.wf(),
        ensures
            final(x)@.wf(),
            final(x)@.depth == old(x)@.depth,
            reader::agrees(o, final(x)@, reader::string_at(old(x)@, "u_ILTypeRef enclosing name")),
        { x.read_string("u_ILTypeRef enclosing name") };
    let ghost step = |s: Tape| reader::string_at(s, "u_ILTypeRef enclosing name");
    let ghost want = reader::array_at(reader@, "u_ILTypeRef enclosing", step);
    let enclosing = reader.read_array("u_ILTypeRef enclosing", outer)?;
    let name = reader.read_string("u_ILTypeRef name")?;
    Ok(PickledILTypeRef { scope, enclosing, name })
}

/// Read an IL type.
pub fn read_il_type(reader: &mut PickleReader<'_>) -> (r: Result<PickledILType, ImportError>)
    requires
        old(reader)@.wf(),
    ensures
        final(reader)@.wf(),
        final(reader)@.depth == old(reader)@.depth,
        reader::agrees(r, final(reader)@, il_type_at(old(reader)@)),
{
    match reader.read_byte("u_ILType tag")? {
        0 => Ok(PickledILType::Void),
        7 => {
            let i: u32 = reader.read_uint32("u_ILType type variable")?;
            Ok(PickledILType::TypeVar(i))
        },
        other => Err(ImportError::UnsupportedPickleTag { context: "u_ILType", tag: other as u32 }),
    }
}

} // verus!
