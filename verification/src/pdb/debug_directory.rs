//! The debug directory of an executable.
use crate::fsharp_resource;
use crate::fsharp_resource::{
    decompress_deflate_limited, InflateError, InflateErrorKind, InflateFault,
    MAX_DEFLATE_OUTPUT_BYTES,
};
use crate::pdb::error::{PdbError, PdbFault};
use crate::reader;
use crate::reader::{read_u16_at, read_u32_at, rva_to_slice, slice_at, Section};
use crate::text;
use crate::text::text_of_bytes;
use vstd::prelude::*;
use vstd::slice::*;
use vstd::string::*;

verus! {

/// The number of the debug directory among the data directories.
pub const DEBUG_DIRECTORY: usize = 6;

/// The size of an entry of the debug directory.
pub const DEBUG_ENTRY_SIZE: usize = 28;

/// The kind of the entry of an embedded portable database.
pub const EMBEDDED_PORTABLE_PDB: u32 = 17;

/// The kind of the entry that points to a separate database.
pub const CODEVIEW: u32 = 2;

/// What is read of an executable on the way to its debug directory.
struct PeDebug {
    sections: Vec<Section>,
    debug_rva: u32,
    debug_size: u32,
}

/// The model of what is read of an executable.
pub struct PeDebugModel {
    pub sections: Seq<Section>,
    pub debug_rva: u32,
    pub debug_size: u32,
}

impl View for PeDebug {
    type V = PeDebugModel;

    closed spec fn view(&self) -> PeDebugModel {
        PeDebugModel {
            sections: self.sections@,
            debug_rva: self.debug_rva,
            debug_size: self.debug_size,
        }
    }
}

/// The section whose header is at `pos`.
pub open spec fn section_at(image: Seq<u8>, pos: int) -> Section {
    Section {
        virtual_size: reader::u32_at(image, pos + 8)->0,
        virtual_address: reader::u32_at(image, pos + 12)->0,
        raw_data_size: reader::u32_at(image, pos + 16)->0,
        raw_data_ptr: reader::u32_at(image, pos + 20)->0,
    }
}

/// The place of the data directories in the optional header, by its magic number.
pub open spec fn data_directories_at(magic: u16) -> Option<int> {
    if magic == 0x10B {
        Some(96)
    } else if magic == 0x20B {
        Some(112)
    } else {
        None
    }
}

/// What is read of an executable whose file header, of 24 bytes, is at `pe`.
pub open spec fn pe_debug_at(image: Seq<u8>, pe: int) -> Result<PeDebugModel, PdbFault> {
    let optional = pe + 24;
    if image.len() < optional + 2 || image.subrange(pe, pe + 4) != seq![0x50u8, 0x45, 0, 0] {
        Err(PdbFault::NotPortableExecutable)
    } else {
        let count = reader::u16_at(image, pe + 6)->0 as int;
        let headers = optional + reader::u16_at(image, pe + 20)->0;
        match data_directories_at(reader::u16_at(image, optional)->0) {
            None => Err(PdbFault::NotPortableExecutable),
            Some(directories) => {
                let entry = optional + directories + DEBUG_DIRECTORY * 8;
                if image.len() < entry + 8 {
                    Err(PdbFault::MalformedDebugDirectory)
                } else if count > 0 && image.len() < headers + count * 40 {
                    Err(PdbFault::NotPortableExecutable)
                } else {
                    Ok(
                        PeDebugModel {
                            sections: Seq::new(
                                count as nat,
                                |k: int| section_at(image, headers + k * 40),
                            ),
                            debug_rva: reader::u32_at(image, entry)->0,
                            debug_size: reader::u32_at(image, entry + 4)->0,
                        },
                    )
                }
            },
        }
    }
}

/// What is read of an executable.
pub open spec fn pe_debug(image: Seq<u8>) -> Result<PeDebugModel, PdbFault> {
    if reader::bytes_at(image, 0, 2) != Some(seq![0x4Du8, 0x5A]) {
        Err(PdbFault::NotPortableExecutable)
    } else {
        match reader::u32_at(image, 0x3C) {
            None => Err(PdbFault::NotPortableExecutable),
            Some(pe) => pe_debug_at(image, pe as int),
        }
    }
}

/// The entries of the debug directory, if there is one. It has to lie within one
/// section and to hold whole entries.
pub open spec fn directory(
    image: Seq<u8>,
    sections: Seq<Section>,
    debug_rva: u32,
    debug_size: u32,
) -> Result<Option<Seq<u8>>, PdbFault> {
    if debug_rva == 0 || debug_size == 0 {
        Ok(None)
    } else {
        match reader::mapped(image, sections, debug_rva) {
            None => Err(PdbFault::MalformedDebugDirectory),
            Some(region) => if debug_size > region.len() || debug_size as int % DEBUG_ENTRY_SIZE
                as int != 0 {
                Err(PdbFault::MalformedDebugDirectory)
            } else {
                Ok(Some(region.take(debug_size as int)))
            },
        }
    }
}

/// The number at the place `at` of the `k`-th entry.
pub open spec fn field(dir: Seq<u8>, k: nat, at: int) -> u32 {
    reader::u32_at(dir, k * DEBUG_ENTRY_SIZE + at)->0
}

/// The first entry of a kind, from the `k`-th on.
pub open spec fn entry_from(dir: Seq<u8>, kind: u32, k: nat) -> Option<nat>
    decreases dir.len() - k,
{
    if (k + 1) * DEBUG_ENTRY_SIZE > dir.len() {
        None
    } else if field(dir, k, 12) == kind {
        Some(k)
    } else {
        entry_from(dir, kind, k + 1)
    }
}

/// The data of an entry: at a place of the file if it gives one, else at an address.
pub open spec fn entry_data(image: Seq<u8>, sections: Seq<Section>, dir: Seq<u8>, k: nat) -> Result<
    Seq<u8>,
    PdbFault,
> {
    let size = field(dir, k, 16);
    let address = field(dir, k, 20);
    let pointer = field(dir, k, 24);
    let data = if pointer != 0 {
        reader::bytes_at(image, pointer as int, pointer + size)
    } else {
        match reader::mapped(image, sections, address) {
            Some(region) => reader::bytes_at(region, 0, size as int),
            None => None,
        }
    };
    match data {
        Some(d) => Ok(d),
        None => Err(PdbFault::MalformedDebugDirectory),
    }
}

/// The data of the entry of an embedded database, if there is one.
pub open spec fn embedded_payload(
    image: Seq<u8>,
    sections: Seq<Section>,
    debug_rva: u32,
    debug_size: u32,
) -> Result<Option<Seq<u8>>, PdbFault> {
    match directory(image, sections, debug_rva, debug_size) {
        Err(e) => Err(e),
        Ok(None) => Ok(None),
        Ok(Some(dir)) => match entry_from(dir, EMBEDDED_PORTABLE_PDB, 0) {
            None => Ok(None),
            Some(k) => match entry_data(image, sections, dir, k) {
                Err(e) => Err(e),
                Ok(d) => Ok(Some(d)),
            },
        },
    }
}

/// What becomes of the outcome of inflating a database of this announced size.
pub open spec fn accepted(
    outcome: Result<Seq<u8>, InflateFault>,
    uncompressed: usize,
) -> Result<Seq<u8>, PdbFault> {
    match outcome {
        Err(e) => if e.kind == InflateErrorKind::InvalidData {
            Err(PdbFault::BadEmbeddedPdb)
        } else {
            Err(PdbFault::Decompress(e))
        },
        Ok(out) => if out.len() != uncompressed {
            Err(PdbFault::BadEmbeddedPdb)
        } else {
            Ok(out)
        },
    }
}

/// The database in the data of an entry: a magic, the size, and a deflate stream.
pub open spec fn inflated_pdb(data: Seq<u8>) -> Result<Seq<u8>, PdbFault> {
    if reader::bytes_at(data, 0, 4) != Some(seq![0x4Du8, 0x50, 0x44, 0x42]) {
        Err(PdbFault::BadEmbeddedPdb)
    } else {
        match reader::u32_at(data, 4) {
            None => Err(PdbFault::BadEmbeddedPdb),
            Some(size) => if size > MAX_DEFLATE_OUTPUT_BYTES {
                Err(PdbFault::BadEmbeddedPdb)
            } else {
                accepted(
                    fsharp_resource::decompressed(data.skip(8), size as usize),
                    size as usize,
                )
            },
        }
    }
}

/// The embedded database of an executable, if it has one.
pub open spec fn embedded_pdb(image: Seq<u8>) -> Result<Option<Seq<u8>>, PdbFault> {
    match pe_debug(image) {
        Err(e) => Err(e),
        Ok(pe) => match embedded_payload(image, pe.sections, pe.debug_rva, pe.debug_size) {
            Err(e) => Err(e),
            Ok(None) => Ok(None),
            Ok(Some(data)) => match inflated_pdb(data) {
                Err(e) => Err(e),
                Ok(out) => Ok(Some(out)),
            },
        },
    }
}

/// The pointer of an executable to its separate debug database.
#[derive(Debug, Clone, PartialEq, Eq)]
pub struct PdbReference {
    /// The path that the compiler recorded. It is that of the build machine; only
    /// the file name helps to find the database.
    pub path: String,
    /// The identifier that the database has to have: a GUID and a stamp.
    pub id: [u8; 20],
}

/// The model of a [`PdbReference`].
pub struct PdbReferenceModel {
    pub path: Seq<char>,
    pub id: Seq<u8>,
}

impl View for PdbReference {
    type V = PdbReferenceModel;

    open spec fn view(&self) -> PdbReferenceModel {
        PdbReferenceModel { path: self.path@, id: self.id@ }
    }
}

/// The place of the first zero from `i` on, or the length.
pub open spec fn zero_from(data: Seq<u8>, i: nat) -> nat
    decreases data.len() - i,
{
    if i >= data.len() {
        data.len()
    } else if data[i as int] == 0 {
        i
    } else {
        zero_from(data, i + 1)
    }
}

/// The pointer in the data of an entry with this stamp: a magic, the GUID, the age
/// and a path that ends at a zero. Another magic is that of an older format, which
/// points to no portable database.
pub open spec fn reference_in(data: Seq<u8>, stamp: Seq<u8>) -> Result<
    Option<PdbReferenceModel>,
    PdbFault,
> {
    if reader::bytes_at(data, 0, 4) != Some(seq![0x52u8, 0x53, 0x44, 0x53]) {
        Ok(None)
    } else if data.len() < 24 {
        Err(PdbFault::MalformedDebugDirectory)
    } else {
        match text::utf8_text(data.subrange(24, zero_from(data, 24) as int)) {
            None => Err(PdbFault::MalformedDebugDirectory),
            Some(path) => Ok(
                Some(PdbReferenceModel { path, id: data.subrange(4, 20) + stamp }),
            ),
        }
    }
}

/// The pointer in the debug directory, if there is one.
pub open spec fn codeview_in(
    image: Seq<u8>,
    sections: Seq<Section>,
    debug_rva: u32,
    debug_size: u32,
) -> Result<Option<PdbReferenceModel>, PdbFault> {
    match directory(image, sections, debug_rva, debug_size) {
        Err(e) => Err(e),
        Ok(None) => Ok(None),
        Ok(Some(dir)) => match entry_from(dir, CODEVIEW, 0) {
            None => Ok(None),
            Some(k) => match entry_data(image, sections, dir, k) {
                Err(e) => Err(e),
                Ok(d) => reference_in(
                    d,
                    dir.subrange(k * DEBUG_ENTRY_SIZE + 4, k * DEBUG_ENTRY_SIZE + 8),
                ),
            },
        },
    }
}

/// The pointer of an executable to its separate database, if it has one.
pub open spec fn codeview_of(image: Seq<u8>) -> Result<Option<PdbReferenceModel>, PdbFault> {
    match pe_debug(image) {
        Err(e) => Err(e),
        Ok(pe) => codeview_in(image, pe.sections, pe.debug_rva, pe.debug_size),
    }
}

/// The character separates the components of a path.
pub open spec fn is_separator(c: char) -> bool {
    c == '/' || c == '\\'
}

/// The last component of `path` is `name`.
pub open spec fn is_last_component(path: Seq<char>, name: Seq<char>) -> bool {
    let at = path.len() - name.len();
    &&& 0 <= at
    &&& path.skip(at) == name
    &&& at > 0 ==> is_separator(path[at - 1])
    &&& forall|i: int| 0 <= i < name.len() ==> !is_separator(#[trigger] name[i])
}

/// A path has one last component.
pub proof fn law_last_component_is_unique(path: Seq<char>, a: Seq<char>, b: Seq<char>)
    requires
        is_last_component(path, a),
        is_last_component(path, b),
    ensures
        a == b,
{
    let i = path.len() - a.len();
    let j = path.len() - b.len();
    if i < j {
        assert(a[j - 1 - i] == path[j - 1]);
    }
    if j < i {
        assert(b[i - 1 - j] == path[i - 1]);
    }
}

impl PdbReference {
    /// The file name of the recorded path, whose components are separated as on any
    /// build machine; none if the path ends in a separator.
    pub fn file_name(&self) -> (r: Option<&str>)
        ensures
            match r {
                Some(name) => name@.len() > 0 && is_last_component(self.path@, name@),
                None => is_last_component(self.path@, Seq::empty()),
            },
    {
        let path = self.path.as_str();
        let len: usize = path.unicode_len();
        let mut i: usize = len;
        while i > 0
            invariant_except_break
                i <= len,
            invariant
                len == path@.len(),
                path@ == self.path@,
                forall|j: int| i <= j < len ==> !is_separator(#[trigger] path@[j]),
            ensures
                i <= len,
                i > 0 ==> is_separator(path@[i - 1]),
            decreases i,
        {
            let c: char = path.get_char(i - 1);
            if c == '/' || c == '\\' {
                break;
            }
            i = i - 1;
        }
        let name = path.substring_char(i, len);
        assert(self.path@.skip(i as int) =~= name@);
        if i == len {
            assert(self.path@.skip(i as int) =~= Seq::empty());
            return None;
        }
        Some(name)
    }
}

/// Whether `data` starts with these four bytes.
fn starts_with(data: &[u8], a: u8, b: u8, c: u8, d: u8) -> (r: bool)
    ensures
        r == (reader::bytes_at(data@, 0, 4) == Some(seq![a, b, c, d])),
{
    if data.len() < 4 {
        return false;
    }
    let r: bool = data[0] == a && data[1] == b && data[2] == c && data[3] == d;
    proof {
        let head = data@.subrange(0, 4);
        if r {
            assert(head =~= seq![a, b, c, d]);
        } else if head == seq![a, b, c, d] {
            assert(head[0] == a && head[1] == b && head[2] == c && head[3] == d);
        }
    }
    r
}

/// The headers of the sections.
fn section_headers(image: &[u8], headers: usize, count: usize) -> (r: Option<Vec<Section>>)
    requires
        count <= 0xFFFF,
    ensures
        count > 0 && image@.len() < headers + count * 40 ==> r is None,
        !(count > 0 && image@.len() < headers + count * 40) ==> r is Some && r->0@ == Seq::new(
            count as nat,
            |k: int| section_at(image@, headers + k * 40),
        ),
{
    let mut sections: Vec<Section> = Vec::new();
    let mut i: usize = 0;
    let mut pos: usize = headers;
    while i < count
        invariant
            i <= count,
            count <= 0xFFFF,
            pos == headers + i * 40,
            i > 0 ==> pos <= image@.len(),
            sections@ == Seq::new(i as nat, |k: int| section_at(image@, headers + k * 40)),
        decreases count - i,
    {
        if pos > image.len() || image.len() - pos < 40 {
            return None;
        }
        match (
            read_u32_at(image, pos + 8),
            read_u32_at(image, pos + 12),
            read_u32_at(image, pos + 16),
            read_u32_at(image, pos + 20),
        ) {
            (
                Some(virtual_size),
                Some(virtual_address),
                Some(raw_data_size),
                Some(raw_data_ptr),
            ) => {
                let ghost before = sections@;
                let s = Section { virtual_address, virtual_size, raw_data_ptr, raw_data_size };
                sections.push(s);
                assert(s == section_at(image@, headers + i * 40));
                assert(sections@ =~= Seq::new(
                    (i + 1) as nat,
                    |k: int| section_at(image@, headers + k * 40),
                ));
            },
            _ => {
                return None;
            },
        }
        pos = pos + 40;
        i = i + 1;
    }
    Some(sections)
}

/// Read an executable as far as its debug directory: the file header, the data
/// directories of the optional header, and the section headers.
fn parse_pe_debug(image: &[u8]) -> (r: Result<PeDebug, PdbError>)
    ensures
        match pe_debug(image@) {
            Ok(pe) => r is Ok && r->Ok_0@ == pe,
            Err(e) => r is Err && r->Err_0.deep_view() == e,
        },
{
    if image.len() < 2 {
        return Err(PdbError::NotPortableExecutable);
    }
    proof {
        let head = image@.subrange(0, 2);
        if head == seq![0x4Du8, 0x5A] {
            assert(head[0] == 0x4D && head[1] == 0x5A);
        }
        if image@[0] == 0x4D && image@[1] == 0x5A {
            assert(head =~= seq![0x4Du8, 0x5A]);
        }
    }
    if image[0] != 0x4D || image[1] != 0x5A {
        return Err(PdbError::NotPortableExecutable);
    }
    let pe: usize = match read_u32_at(image, 0x3C) {
        Some(pe) => pe as usize,
        None => {
            return Err(PdbError::NotPortableExecutable);
        },
    };
    if image.len() < 26 || pe > image.len() - 26 {
        return Err(PdbError::NotPortableExecutable);
    }
    let header = slice_subrange(image, pe, pe + 26);
    assert(header@.subrange(0, 4) =~= image@.subrange(pe as int, pe + 4));
    if !starts_with(header, 0x50, 0x45, 0, 0) {
        return Err(PdbError::NotPortableExecutable);
    }
    let optional: usize = pe + 24;
    match (
        read_u16_at(image, pe + 6),
        read_u16_at(image, pe + 20),
        read_u16_at(image, optional),
    ) {
        (Some(num_sections), Some(size_optional), Some(magic)) => {
            let directories: usize = match magic {
                0x10B => 96,
                0x20B => 112,
                _ => {
                    return Err(PdbError::NotPortableExecutable);
                },
            };
            let skipped: usize = directories + DEBUG_DIRECTORY * 8;
            if image.len() - optional < skipped + 8 {
                return Err(PdbError::MalformedDebugDirectory);
            }
            let entry: usize = optional + skipped;
            match (read_u32_at(image, entry), read_u32_at(image, entry + 4)) {
                (Some(debug_rva), Some(debug_size)) => {
                    let headers: usize = match optional.checked_add(size_optional as usize) {
                        Some(h) => h,
                        None => image.len(),
                    };
                    proof {
                        if optional + size_optional > usize::MAX && num_sections == 0 {
                            assert(Seq::new(
                                0,
                                |k: int| section_at(image@, optional + size_optional + k * 40),
                            ) =~= Seq::new(0, |k: int| section_at(image@, headers + k * 40)));
                        }
                    }
                    match section_headers(image, headers, num_sections as usize) {
                        Some(sections) => Ok(PeDebug { sections, debug_rva, debug_size }),
                        None => Err(PdbError::NotPortableExecutable),
                    }
                },
                _ => Err(PdbError::MalformedDebugDirectory),
            }
        },
        _ => Err(PdbError::NotPortableExecutable),
    }
}

/// The entries of the debug directory, if there is one.
fn debug_directory<'a>(
    image: &'a [u8],
    sections: &[Section],
    debug_rva: u32,
    debug_size: u32,
) -> (r: Result<Option<&'a [u8]>, PdbError>)
    ensures
        match directory(image@, sections@, debug_rva, debug_size) {
            Ok(Some(d)) => r is Ok && r->Ok_0 is Some && r->Ok_0->0@ == d,
            Ok(None) => r is Ok && r->Ok_0 is None,
            Err(e) => r is Err && r->Err_0.deep_view() == e,
        },
{
    if debug_rva == 0 || debug_size == 0 {
        return Ok(None);
    }
    match rva_to_slice(image, sections, debug_rva) {
        None => Err(PdbError::MalformedDebugDirectory),
        Some(region) => {
            let size: usize = debug_size as usize;
            if size > region.len() || size % DEBUG_ENTRY_SIZE != 0 {
                return Err(PdbError::MalformedDebugDirectory);
            }
            let dir = slice_subrange(region, 0, size);
            assert(dir@ =~= region@.take(size as int));
            Ok(Some(dir))
        },
    }
}

/// The first entry of a kind.
fn find_entry(dir: &[u8], kind: u32) -> (r: Option<usize>)
    ensures
        match entry_from(dir@, kind, 0) {
            Some(k) => r is Some && r->0 == k && (k + 1) * DEBUG_ENTRY_SIZE <= dir@.len(),
            None => r is None,
        },
{
    let mut k: usize = 0;
    let mut pos: usize = 0;
    while dir.len() - pos >= DEBUG_ENTRY_SIZE
        invariant
            pos == k * DEBUG_ENTRY_SIZE,
            pos <= dir@.len(),
            k <= pos,
            entry_from(dir@, kind, 0) == entry_from(dir@, kind, k as nat),
        decreases dir.len() - pos,
    {
        match read_u32_at(dir, pos + 12) {
            Some(found) => {
                if found == kind {
                    return Some(k);
                }
            },
            None => {
                return None;
            },
        }
        pos = pos + DEBUG_ENTRY_SIZE;
        k = k + 1;
    }
    None
}

/// The data of an entry.
fn debug_entry_data<'a>(
    image: &'a [u8],
    sections: &[Section],
    dir: &[u8],
    k: usize,
) -> (r: Result<&'a [u8], PdbError>)
    requires
        (k + 1) * DEBUG_ENTRY_SIZE <= dir@.len(),
    ensures
        match entry_data(image@, sections@, dir@, k as nat) {
            Ok(d) => r is Ok && r->Ok_0@ == d,
            Err(e) => r is Err && r->Err_0.deep_view() == e,
        },
{
    assert(dir.len() <= usize::MAX && image.len() <= usize::MAX);
    let pos: usize = k * DEBUG_ENTRY_SIZE;
    match (
        read_u32_at(dir, pos + 16),
        read_u32_at(dir, pos + 20),
        read_u32_at(dir, pos + 24),
    ) {
        (Some(size), Some(address), Some(pointer)) => {
            let data: Option<&'a [u8]> = if pointer != 0 {
                match (pointer as usize).checked_add(size as usize) {
                    Some(end) => slice_at(image, pointer as usize, end),
                    None => None,
                }
            } else {
                match rva_to_slice(image, sections, address) {
                    Some(region) => slice_at(region, 0, size as usize),
                    None => None,
                }
            };
            match data {
                Some(d) => Ok(d),
                None => Err(PdbError::MalformedDebugDirectory),
            }
        },
        _ => Err(PdbError::MalformedDebugDirectory),
    }
}

/// The data of the entry of an embedded database, if there is one.
pub fn find_embedded_pdb_payload<'a>(
    image: &'a [u8],
    sections: &[Section],
    debug_rva: u32,
    debug_size: u32,
) -> (r: Result<Option<&'a [u8]>, PdbError>)
    ensures
        match embedded_payload(image@, sections@, debug_rva, debug_size) {
            Ok(Some(d)) => r is Ok && r->Ok_0 is Some && r->Ok_0->0@ == d,
            Ok(None) => r is Ok && r->Ok_0 is None,
            Err(e) => r is Err && r->Err_0.deep_view() == e,
        },
{
    let dir = match debug_directory(image, sections, debug_rva, debug_size)? {
        Some(dir) => dir,
        None => {
            return Ok(None);
        },
    };
    match find_entry(dir, EMBEDDED_PORTABLE_PDB) {
        None => Ok(None),
        Some(k) => {
            let data = debug_entry_data(image, sections, dir, k)?;
            Ok(Some(data))
        },
    }
}

/// Accept the outcome of inflating a database of this announced size.
pub fn accept_inflated(outcome: Result<Vec<u8>, InflateError>, uncompressed: usize) -> (r: Result<
    Vec<u8>,
    PdbError,
>)
    ensures
        ({
            let want = match outcome {
                Ok(out) => accepted(Ok(out@), uncompressed),
                Err(e) => accepted(Err(e.deep_view()), uncompressed),
            };
            match want {
                Ok(out) => r is Ok && r->Ok_0@ == out,
                Err(e) => r is Err && r->Err_0.deep_view() == e,
            }
        }),
{
    match outcome {
        Err(e) => {
            if e.kind() == InflateErrorKind::InvalidData {
                Err(PdbError::BadEmbeddedPdb)
            } else {
                Err(PdbError::Decompress(e))
            }
        },
        Ok(out) => {
            if out.len() != uncompressed {
                Err(PdbError::BadEmbeddedPdb)
            } else {
                Ok(out)
            }
        },
    }
}

/// The database in the data of an entry.
fn inflate_embedded_pdb(data: &[u8]) -> (r: Result<Vec<u8>, PdbError>)
    ensures
        match inflated_pdb(data@) {
            Ok(out) => r is Ok && r->Ok_0@ == out,
            Err(e) => r is Err && r->Err_0.deep_view() == e,
        },
{
    if !starts_with(data, 0x4D, 0x50, 0x44, 0x42) {
        return Err(PdbError::BadEmbeddedPdb);
    }
    let uncompressed: usize = match read_u32_at(data, 4) {
        Some(n) => n as usize,
        None => {
            return Err(PdbError::BadEmbeddedPdb);
        },
    };
    if uncompressed > MAX_DEFLATE_OUTPUT_BYTES {
        return Err(PdbError::BadEmbeddedPdb);
    }
    let deflated = slice_subrange(data, 8, data.len());
    assert(deflated@ =~= data@.skip(8));
    accept_inflated(decompress_deflate_limited(deflated, uncompressed), uncompressed)
}

/// Find and inflate the embedded debug database of an executable. One without an
/// embedded database is well formed too.
pub fn embedded_portable_pdb(image: &[u8]) -> (r: Result<Option<Vec<u8>>, PdbError>)
    ensures
        match embedded_pdb(image@) {
            Ok(Some(d)) => r is Ok && r->Ok_0 is Some && r->Ok_0->0@ == d,
            Ok(None) => r is Ok && r->Ok_0 is None,
            Err(e) => r is Err && r->Err_0.deep_view() == e,
        },
{
    let pe = parse_pe_debug(image)?;
    match find_embedded_pdb_payload(
        image,
        pe.sections.as_slice(),
        pe.debug_rva,
        pe.debug_size,
    )? {
        Some(payload) => {
            let out = inflate_embedded_pdb(payload)?;
            Ok(Some(out))
        },
        None => Ok(None),
    }
}

/// The place of the first zero from `start` on, or the length.
fn find_zero(data: &[u8], start: usize) -> (r: usize)
    requires
        start <= data@.len(),
    ensures
        r == zero_from(data@, start as nat),
        start <= r <= data@.len(),
{
    let mut i: usize = start;
    while i < data.len()
        invariant
            start <= i <= data@.len(),
            zero_from(data@, start as nat) == zero_from(data@, i as nat),
        decreases data.len() - i,
    {
        if data[i] == 0 {
            return i;
        }
        i = i + 1;
    }
    i
}

/// The pointer in the data of an entry with this stamp.
fn parse_reference(data: &[u8], stamp: &[u8]) -> (r: Result<Option<PdbReference>, PdbError>)
    requires
        stamp@.len() == 4,
    ensures
        match reference_in(data@, stamp@) {
            Ok(Some(m)) => r is Ok && r->Ok_0 is Some && r->Ok_0->0@ == m,
            Ok(None) => r is Ok && r->Ok_0 is None,
            Err(e) => r is Err && r->Err_0.deep_view() == e,
        },
{
    if !starts_with(data, 0x52, 0x53, 0x44, 0x53) {
        return Ok(None);
    }
    if data.len() < 24 {
        return Err(PdbError::MalformedDebugDirectory);
    }
    let end: usize = find_zero(data, 24);
    let path = match text_of_bytes(slice_to_vec(slice_subrange(data, 24, end))) {
        Some(path) => path,
        None => {
            return Err(PdbError::MalformedDebugDirectory);
        },
    };
    let mut id: [u8; 20] = [0u8; 20];
    let mut i: usize = 0;
    while i < 20
        invariant
            i <= 20,
            data@.len() >= 24,
            stamp@.len() == 4,
            forall|j: int|
                0 <= j < i ==> #[trigger] id@[j] == (if j < 16 {
                    data@[4 + j]
                } else {
                    stamp@[j - 16]
                }),
        decreases 20 - i,
    {
        let b: u8 = if i < 16 {
            data[4 + i]
        } else {
            stamp[i - 16]
        };
        id[i] = b;
        i = i + 1;
    }
    assert(id@ =~= data@.subrange(4, 20) + stamp@);
    Ok(Some(PdbReference { path, id }))
}

/// The pointer in the debug directory, if there is one.
pub fn find_codeview_reference(
    image: &[u8],
    sections: &[Section],
    debug_rva: u32,
    debug_size: u32,
) -> (r: Result<Option<PdbReference>, PdbError>)
    ensures
        match codeview_in(image@, sections@, debug_rva, debug_size) {
            Ok(Some(m)) => r is Ok && r->Ok_0 is Some && r->Ok_0->0@ == m,
            Ok(None) => r is Ok && r->Ok_0 is None,
            Err(e) => r is Err && r->Err_0.deep_view() == e,
        },
{
    let dir = match debug_directory(image, sections, debug_rva, debug_size)? {
        Some(dir) => dir,
        None => {
            return Ok(None);
        },
    };
    match find_entry(dir, CODEVIEW) {
        None => Ok(None),
        Some(k) => {
            let data = debug_entry_data(image, sections, dir, k)?;
            let pos: usize = k * DEBUG_ENTRY_SIZE;
            let stamp = slice_subrange(dir, pos + 4, pos + 8);
            parse_reference(data, stamp)
        },
    }
}

/// Read the pointer of an executable to its separate debug database. The database
/// itself is not opened: to find it and to compare its identifier is up to the
/// caller.
pub fn codeview_pdb_reference(image: &[u8]) -> (r: Result<Option<PdbReference>, PdbError>)
    ensures
        match codeview_of(image@) {
            Ok(Some(m)) => r is Ok && r->Ok_0 is Some && r->Ok_0->0@ == m,
            Ok(None) => r is Ok && r->Ok_0 is None,
            Err(e) => r is Err && r->Err_0.deep_view() == e,
        },
{
    let pe = parse_pe_debug(image)?;
    find_codeview_reference(image, pe.sections.as_slice(), pe.debug_rva, pe.debug_size)
}

} // verus!
