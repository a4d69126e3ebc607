//! Executables as a linker writes them, and that they are read back.
use crate::fsharp_resource;
use crate::pdb::bytes;
use crate::pdb::bytes::{has, le16, le32, le64};
use crate::pdb::debug_directory;
use crate::pdb::debug_directory::{PdbReferenceModel, PeDebugModel};
use crate::pdb::error::PdbFault;
use crate::reader;
use crate::reader::Section;
use crate::text;
use vstd::prelude::*;

verus! {

broadcast use {bytes::lemma_le16_len, bytes::lemma_le32_len, bytes::lemma_le64_len};

/// A data directory: where something lies in memory, and how long it is.
pub struct DataDirectory {
    pub rva: u32,
    pub size: u32,
}

/// The data directories, in the order in which they are written.
pub struct DataDirectories {
    pub export: DataDirectory,
    pub import: DataDirectory,
    pub resource: DataDirectory,
    pub exception: DataDirectory,
    pub certificate: DataDirectory,
    pub base_relocation: DataDirectory,
    pub debug: DataDirectory,
    /// Architecture, global pointer, thread storage and so on.
    pub others: Seq<DataDirectory>,
}

/// The header of a section.
pub struct SectionHeader {
    /// The name, filled up to eight bytes.
    pub name: Seq<u8>,
    pub virtual_size: u32,
    pub virtual_address: u32,
    pub size_of_raw_data: u32,
    pub pointer_to_raw_data: u32,
    pub pointer_to_relocations: u32,
    pub pointer_to_line_numbers: u32,
    pub number_of_relocations: u16,
    pub number_of_line_numbers: u16,
    pub characteristics: u32,
}

/// What a linker writes: an executable for 32 or, if it is `plus`, for 64 bits.
pub struct Executable {
    pub plus: bool,
    /// The 58 bytes between the magic number and the pointer to the file header.
    pub dos_header: Seq<u8>,
    pub dos_stub: Seq<u8>,
    pub machine: u16,
    pub time_stamp: u32,
    pub pointer_to_symbols: u32,
    pub number_of_symbols: u32,
    pub characteristics: u16,
    pub linker_major: u8,
    pub linker_minor: u8,
    pub size_of_code: u32,
    pub size_of_initialized_data: u32,
    pub size_of_uninitialized_data: u32,
    pub entry_point: u32,
    pub base_of_code: u32,
    pub base_of_data: u32,
    pub image_base: u64,
    pub section_alignment: u32,
    pub file_alignment: u32,
    pub os_major: u16,
    pub os_minor: u16,
    pub image_major: u16,
    pub image_minor: u16,
    pub subsystem_major: u16,
    pub subsystem_minor: u16,
    pub size_of_image: u32,
    pub size_of_headers: u32,
    pub checksum: u32,
    pub subsystem: u16,
    pub dll_characteristics: u16,
    pub stack_reserve: u64,
    pub stack_commit: u64,
    pub heap_reserve: u64,
    pub heap_commit: u64,
    pub directories: DataDirectories,
    pub sections: Seq<SectionHeader>,
    /// What follows the headers.
    pub rest: Seq<u8>,
}

/// A data directory as it is written.
#[verifier::opaque]
pub open spec fn directory_bytes(d: DataDirectory) -> Seq<u8> {
    le32(d.rva) + le32(d.size)
}

/// The first `n` data directories as they are written.
pub open spec fn directories_from(ds: Seq<DataDirectory>, n: nat) -> Seq<u8>
    decreases n,
{
    if n == 0 {
        Seq::empty()
    } else {
        directories_from(ds, (n - 1) as nat) + directory_bytes(ds[n - 1])
    }
}

/// The data directories before that of the debug data.
#[verifier::opaque]
pub open spec fn directories_before(d: DataDirectories) -> Seq<u8> {
    directory_bytes(d.export) + directory_bytes(d.import) + directory_bytes(d.resource)
        + directory_bytes(d.exception) + directory_bytes(d.certificate) + directory_bytes(
        d.base_relocation,
    )
}

/// The data directories as they are written.
pub open spec fn all_directories(d: DataDirectories) -> Seq<u8> {
    directories_before(d) + (directory_bytes(d.debug) + directories_from(
        d.others,
        d.others.len(),
    ))
}

/// The header of a section as it is written: forty bytes.
#[verifier::opaque]
pub open spec fn section_bytes(s: SectionHeader) -> Seq<u8> {
    s.name + (le32(s.virtual_size) + (le32(s.virtual_address) + (le32(s.size_of_raw_data) + (le32(
        s.pointer_to_raw_data,
    ) + (le32(s.pointer_to_relocations) + le32(s.pointer_to_line_numbers) + le16(
        s.number_of_relocations,
    ) + le16(s.number_of_line_numbers) + le32(s.characteristics))))))
}

/// The headers of the first `n` sections as they are written.
pub open spec fn sections_from(ss: Seq<SectionHeader>, n: nat) -> Seq<u8>
    decreases n,
{
    if n == 0 {
        Seq::empty()
    } else {
        sections_from(ss, (n - 1) as nat) + section_bytes(ss[n - 1])
    }
}

impl Executable {
    /// A number as wide as an address.
    pub open spec fn word(self, v: u64) -> Seq<u8> {
        if self.plus {
            le64(v)
        } else {
            le32(v as u32)
        }
    }

    /// The fields of the optional header that are the same in every system. The base of
    /// the data is there for 32 bits only.
    #[verifier::opaque]
    pub open spec fn standard_fields(self) -> Seq<u8> {
        seq![self.linker_major, self.linker_minor] + le32(self.size_of_code) + le32(
            self.size_of_initialized_data,
        ) + le32(self.size_of_uninitialized_data) + le32(self.entry_point) + le32(
            self.base_of_code,
        ) + (if self.plus {
            Seq::empty()
        } else {
            le32(self.base_of_data)
        })
    }

    /// The fields of the optional header that one system alone has, first part.
    #[verifier::opaque]
    pub open spec fn versions(self) -> Seq<u8> {
        self.word(self.image_base) + le32(self.section_alignment) + le32(self.file_alignment)
            + le16(self.os_major) + le16(self.os_minor) + le16(self.image_major) + le16(
            self.image_minor,
        ) + le16(self.subsystem_major) + le16(self.subsystem_minor)
    }

    /// The fields of the optional header that one system alone has, second part.
    #[verifier::opaque]
    pub open spec fn memory(self) -> Seq<u8> {
        le32(0) + le32(self.size_of_image) + le32(self.size_of_headers) + le32(self.checksum)
            + le16(self.subsystem) + le16(self.dll_characteristics) + self.word(
            self.stack_reserve,
        ) + self.word(self.stack_commit) + self.word(self.heap_reserve) + self.word(
            self.heap_commit,
        ) + le32(0) + le32((7 + self.directories.others.len()) as u32)
    }

    /// The optional header: its magic number, its fields and the data directories.
    #[verifier::opaque]
    pub open spec fn optional_header(self) -> Seq<u8> {
        le16(
            if self.plus {
                0x20B
            } else {
                0x10B
            },
        ) + (self.standard_fields() + self.versions() + self.memory() + all_directories(
            self.directories,
        ))
    }

    /// The signature, the file header, the optional header and the sections.
    #[verifier::opaque]
    pub open spec fn headers(self) -> Seq<u8> {
        seq![0x50u8, 0x45, 0, 0] + (le16(self.machine) + (le16(self.sections.len() as u16) + (le32(
            self.time_stamp,
        ) + le32(self.pointer_to_symbols) + le32(self.number_of_symbols) + (le16(
            self.optional_header().len() as u16,
        ) + (le16(self.characteristics) + (self.optional_header() + (sections_from(
            self.sections,
            self.sections.len(),
        ) + self.rest)))))))
    }

    /// The executable as it is written.
    #[verifier::opaque]
    pub open spec fn written(self) -> Seq<u8> {
        seq![0x4Du8, 0x5A] + (self.dos_header + (le32((64 + self.dos_stub.len()) as u32) + (
        self.dos_stub + self.headers())))
    }

    /// Each part has the size that the format gives it, and counts fit their fields.
    pub open spec fn valid(self) -> bool {
        &&& self.dos_header.len() == 58
        &&& self.dos_stub.len() < 0x1000_0000
        &&& self.sections.len() < 0x1_0000
        &&& self.directories.others.len() < 0x1000
        &&& forall|i: int| 0 <= i < self.sections.len() ==> (#[trigger] self.sections[i]).name.len()
            == 8
    }
}

/// What is read of the header of a section.
pub open spec fn placed(s: SectionHeader) -> Section {
    Section {
        virtual_address: s.virtual_address,
        virtual_size: s.virtual_size,
        raw_data_ptr: s.pointer_to_raw_data,
        raw_data_size: s.size_of_raw_data,
    }
}

/// The headers of `n` sections take forty bytes each, and the `k`-th stands at its
/// place.
proof fn lemma_sections(ss: Seq<SectionHeader>, n: nat, k: int)
    requires
        0 <= k < n <= ss.len(),
        forall|i: int| 0 <= i < ss.len() ==> (#[trigger] ss[i]).name.len() == 8,
    ensures
        sections_from(ss, n).len() == n * 40,
        has(sections_from(ss, n), k * 40, section_bytes(ss[k])),
    decreases n,
{
    let before = sections_from(ss, (n - 1) as nat);
    let last = section_bytes(ss[n - 1]);
    lemma_sections_len(ss, n);
    lemma_sections_len(ss, (n - 1) as nat);
    bytes::lemma_has_whole(before + last);
    bytes::lemma_has_both(before + last, 0, before, last);
    if k < n - 1 {
        lemma_sections(ss, (n - 1) as nat, k);
        bytes::lemma_has_within(before + last, 0, before, k * 40, section_bytes(ss[k]));
    }
}

/// The headers of `n` sections take forty bytes each.
proof fn lemma_sections_len(ss: Seq<SectionHeader>, n: nat)
    requires
        n <= ss.len(),
        forall|i: int| 0 <= i < ss.len() ==> (#[trigger] ss[i]).name.len() == 8,
    ensures
        sections_from(ss, n).len() == n * 40,
    decreases n,
{
    reveal(section_bytes);
    if n > 0 {
        lemma_sections_len(ss, (n - 1) as nat);
        assert(section_bytes(ss[n - 1]).len() == 40);
    }
}

/// The data directories take eight bytes each.
proof fn lemma_directories_len(ds: Seq<DataDirectory>, n: nat)
    ensures
        directories_from(ds, n).len() == n * 8,
    decreases n,
{
    reveal(directory_bytes);
    if n > 0 {
        lemma_directories_len(ds, (n - 1) as nat);
    }
}

/// The header of a section is read as it was written.
proof fn lemma_section_read(image: Seq<u8>, pos: int, s: SectionHeader)
    requires
        has(image, pos, section_bytes(s)),
        s.name.len() == 8,
    ensures
        debug_directory::section_at(image, pos) == placed(s),
{
    reveal(section_bytes);
    let e = le32(s.pointer_to_relocations) + le32(s.pointer_to_line_numbers) + le16(
        s.number_of_relocations,
    ) + le16(s.number_of_line_numbers) + le32(s.characteristics);
    let d = le32(s.pointer_to_raw_data) + e;
    let c = le32(s.size_of_raw_data) + d;
    let b = le32(s.virtual_address) + c;
    let a = le32(s.virtual_size) + b;
    bytes::lemma_has_both(image, pos, s.name, a);
    bytes::lemma_has_both(image, pos + 8, le32(s.virtual_size), b);
    bytes::lemma_has_both(image, pos + 12, le32(s.virtual_address), c);
    bytes::lemma_has_both(image, pos + 16, le32(s.size_of_raw_data), d);
    bytes::lemma_has_both(image, pos + 20, le32(s.pointer_to_raw_data), e);
    bytes::law_u32_round_trip(image, pos + 8, s.virtual_size);
    bytes::law_u32_round_trip(image, pos + 12, s.virtual_address);
    bytes::law_u32_round_trip(image, pos + 16, s.size_of_raw_data);
    bytes::law_u32_round_trip(image, pos + 20, s.pointer_to_raw_data);
}

/// How long the parts of the optional header are.
proof fn lemma_field_lengths(x: Executable)
    ensures
        x.standard_fields().len() + x.versions().len() + x.memory().len() == (if x.plus {
            110int
        } else {
            94
        }),
        directories_before(x.directories).len() == 48,
        directory_bytes(x.directories.debug).len() == 8,
{
    reveal(Executable::standard_fields);
    reveal(Executable::versions);
    reveal(Executable::memory);
    reveal(directories_before);
    reveal(directory_bytes);
}

/// The optional header is as long as its parts, and its magic number and the directory of
/// the debug data are read as they were written.
proof fn lemma_optional(image: Seq<u8>, pos: int, x: Executable)
    requires
        has(image, pos, x.optional_header()),
        x.valid(),
    ensures
        x.optional_header().len() == (if x.plus {
            112int
        } else {
            96
        }) + 8 * (7 + x.directories.others.len()),
        reader::u16_at(image, pos) == Some(
            if x.plus {
                0x20Bu16
            } else {
                0x10B
            },
        ),
        ({
            let entry = pos + (if x.plus {
                112int
            } else {
                96
            }) + 48;
            &&& entry + 8 <= image.len()
            &&& reader::u32_at(image, entry) == Some(x.directories.debug.rva)
            &&& reader::u32_at(image, entry + 4) == Some(x.directories.debug.size)
        }),
{
    let d = x.directories;
    let magic: u16 = if x.plus {
        0x20B
    } else {
        0x10B
    };
    let fields = x.standard_fields() + x.versions() + x.memory();
    let others = directories_from(d.others, d.others.len());
    let tail = directory_bytes(d.debug) + others;
    let dirs = directories_before(d) + tail;
    lemma_directories_len(d.others, d.others.len());
    lemma_field_lengths(x);
    reveal(Executable::optional_header);
    bytes::lemma_has_both(image, pos, le16(magic), fields + dirs);
    bytes::law_u16_round_trip(image, pos, magic);
    bytes::lemma_has_both(image, pos + 2, fields, dirs);
    let at = pos + 2 + fields.len();
    bytes::lemma_has_both(image, at, directories_before(d), tail);
    bytes::lemma_has_both(image, at + 48, directory_bytes(d.debug), others);
    reveal(directory_bytes);
    bytes::lemma_has_both(image, at + 48, le32(d.debug.rva), le32(d.debug.size));
    bytes::law_u32_round_trip(image, at + 48, d.debug.rva);
    bytes::law_u32_round_trip(image, at + 52, d.debug.size);
}

/// What is read of an executable is what the linker wrote, for 32 bits and for 64: its
/// sections, and the place and the size of its debug directory.
pub proof fn law_executable_is_read_as_written(x: Executable)
    requires
        x.valid(),
    ensures
        debug_directory::pe_debug(x.written()) == Ok::<PeDebugModel, PdbFault>(
            PeDebugModel {
                sections: x.sections.map_values(|s: SectionHeader| placed(s)),
                debug_rva: x.directories.debug.rva,
                debug_size: x.directories.debug.size,
            },
        ),
{
    reveal(Executable::written);
    let image = x.written();
    let pe = 64 + x.dos_stub.len();
    let h3 = x.dos_stub + x.headers();
    let h2 = le32(pe as u32) + h3;
    let h1 = x.dos_header + h2;
    bytes::lemma_has_whole(image);
    bytes::lemma_has_both(image, 0, seq![0x4Du8, 0x5A], h1);
    bytes::lemma_has_both(image, 2, x.dos_header, h2);
    bytes::lemma_has_both(image, 60, le32(pe as u32), h3);
    bytes::law_u32_round_trip(image, 60, pe as u32);
    bytes::lemma_has_both(image, 64, x.dos_stub, x.headers());
    lemma_headers(x, image, pe as int);
}

/// The same, of the headers at `pe`.
proof fn lemma_headers(x: Executable, image: Seq<u8>, pe: int)
    requires
        x.valid(),
        has(image, pe, x.headers()),
    ensures
        debug_directory::pe_debug_at(image, pe) == Ok::<PeDebugModel, PdbFault>(
            PeDebugModel {
                sections: x.sections.map_values(|s: SectionHeader| placed(s)),
                debug_rva: x.directories.debug.rva,
                debug_size: x.directories.debug.size,
            },
        ),
{
    reveal(Executable::headers);
    let n = x.sections.len();
    let tables = sections_from(x.sections, n);
    let opt = x.optional_header();
    let p6 = tables + x.rest;
    let p5 = opt + p6;
    let p4 = le16(x.characteristics) + p5;
    let p3 = le16(opt.len() as u16) + p4;
    let symbols = le32(x.time_stamp) + le32(x.pointer_to_symbols) + le32(x.number_of_symbols);
    let p2 = symbols + p3;
    let p1 = le16(n as u16) + p2;
    let p0 = le16(x.machine) + p1;
    bytes::lemma_has_both(image, pe, seq![0x50u8, 0x45, 0, 0], p0);
    bytes::lemma_has_both(image, pe + 4, le16(x.machine), p1);
    bytes::lemma_has_both(image, pe + 6, le16(n as u16), p2);
    bytes::law_u16_round_trip(image, pe + 6, n as u16);
    bytes::lemma_has_both(image, pe + 8, symbols, p3);
    bytes::lemma_has_both(image, pe + 20, le16(opt.len() as u16), p4);
    bytes::law_u16_round_trip(image, pe + 20, opt.len() as u16);
    bytes::lemma_has_both(image, pe + 22, le16(x.characteristics), p5);
    bytes::lemma_has_both(image, pe + 24, opt, p6);
    lemma_optional(image, pe + 24, x);
    let headers = pe + 24 + opt.len();
    bytes::lemma_has_both(image, headers, tables, x.rest);
    lemma_sections_len(x.sections, n);
    let want = x.sections.map_values(|s: SectionHeader| placed(s));
    let got = Seq::new(n, |k: int| debug_directory::section_at(image, headers + k * 40));
    assert forall|k: int| 0 <= k < n implies #[trigger] got[k] == want[k] by {
        lemma_sections(x.sections, n, k);
        bytes::lemma_has_within(image, headers, tables, k * 40, section_bytes(x.sections[k]));
        lemma_section_read(image, headers + k * 40, x.sections[k]);
    }
    assert(got =~= want);
}

/// An entry of the debug directory.
pub struct DebugEntry {
    pub characteristics: u32,
    pub time_stamp: u32,
    pub major: u16,
    pub minor: u16,
    pub kind: u32,
    pub size: u32,
    pub address: u32,
    pub pointer: u32,
}

/// An entry as it is written: 28 bytes.
#[verifier::opaque]
pub open spec fn entry_bytes(e: DebugEntry) -> Seq<u8> {
    le32(e.characteristics) + (le32(e.time_stamp) + (le16(e.major) + (le16(e.minor) + (le32(e.kind)
        + (le32(e.size) + (le32(e.address) + le32(e.pointer)))))))
}

/// The first `n` entries as they are written.
pub open spec fn entries_from(es: Seq<DebugEntry>, n: nat) -> Seq<u8>
    decreases n,
{
    if n == 0 {
        Seq::empty()
    } else {
        entries_from(es, (n - 1) as nat) + entry_bytes(es[n - 1])
    }
}

/// The debug directory as it is written.
#[verifier::opaque]
pub open spec fn entries_written(es: Seq<DebugEntry>) -> Seq<u8> {
    entries_from(es, es.len())
}

/// So many entries take 28 bytes each, and each stands at its place.
proof fn lemma_entries(es: Seq<DebugEntry>, n: nat)
    requires
        n <= es.len(),
    ensures
        entries_from(es, n).len() == n * 28,
        forall|k: int| 0 <= k < n ==> #[trigger] has(entries_from(es, n), k * 28, entry_bytes(es[k])),
    decreases n,
{
    reveal(entry_bytes);
    if n > 0 {
        lemma_entries(es, (n - 1) as nat);
        let before = entries_from(es, (n - 1) as nat);
        let last = entry_bytes(es[n - 1]);
        bytes::lemma_has_whole(before + last);
        bytes::lemma_has_both(before + last, 0, before, last);
        assert forall|k: int| 0 <= k < n implies #[trigger] has(
            entries_from(es, n),
            k * 28,
            entry_bytes(es[k]),
        ) by {
            if k < n - 1 {
                assert(has(before, k * 28, entry_bytes(es[k])));
                bytes::lemma_has_within(before + last, 0, before, k * 28, entry_bytes(es[k]));
            }
        }
    }
}

/// The fields of an entry stand in the directory as they were written.
proof fn lemma_entry_read(dir: Seq<u8>, pos: int, e: DebugEntry)
    requires
        has(dir, pos, entry_bytes(e)),
    ensures
        has(dir, pos + 4, le32(e.time_stamp)),
        reader::u32_at(dir, pos + 12) == Some(e.kind),
        reader::u32_at(dir, pos + 16) == Some(e.size),
        reader::u32_at(dir, pos + 20) == Some(e.address),
        reader::u32_at(dir, pos + 24) == Some(e.pointer),
{
    reveal(entry_bytes);
    let g = le32(e.address) + le32(e.pointer);
    let f = le32(e.size) + g;
    let k = le32(e.kind) + f;
    let d = le16(e.minor) + k;
    let c = le16(e.major) + d;
    let b = le32(e.time_stamp) + c;
    bytes::lemma_has_both(dir, pos, le32(e.characteristics), b);
    bytes::lemma_has_both(dir, pos + 4, le32(e.time_stamp), c);
    bytes::lemma_has_both(dir, pos + 8, le16(e.major), d);
    bytes::lemma_has_both(dir, pos + 10, le16(e.minor), k);
    bytes::lemma_has_both(dir, pos + 12, le32(e.kind), f);
    bytes::law_u32_round_trip(dir, pos + 12, e.kind);
    bytes::lemma_has_both(dir, pos + 16, le32(e.size), g);
    bytes::law_u32_round_trip(dir, pos + 16, e.size);
    bytes::lemma_has_both(dir, pos + 20, le32(e.address), le32(e.pointer));
    bytes::law_u32_round_trip(dir, pos + 20, e.address);
    bytes::law_u32_round_trip(dir, pos + 24, e.pointer);
}

/// The first entry of a kind, from `k` on, is found.
proof fn lemma_entry_found(es: Seq<DebugEntry>, kind: u32, k: nat, i: int)
    requires
        k <= i < es.len(),
        es[i].kind == kind,
        forall|j: int| k <= j < i ==> (#[trigger] es[j]).kind != kind,
    ensures
        debug_directory::entry_from(entries_written(es), kind, k) == Some(i as nat),
    decreases i - k,
{
    reveal(entries_written);
    lemma_entries(es, es.len());
    let dir = entries_written(es);
    assert(has(dir, k as int * 28, entry_bytes(es[k as int])));
    lemma_entry_read(dir, k as int * 28, es[k as int]);
    if k < i {
        assert(es[k as int].kind != kind);
        lemma_entry_found(es, kind, k + 1, i);
    }
}

/// No entry of a kind is found where none was written.
proof fn lemma_entry_not_found(es: Seq<DebugEntry>, kind: u32, k: nat)
    requires
        k <= es.len(),
        forall|j: int| k <= j < es.len() ==> (#[trigger] es[j]).kind != kind,
    ensures
        debug_directory::entry_from(entries_written(es), kind, k) is None,
    decreases es.len() - k,
{
    reveal(entries_written);
    lemma_entries(es, es.len());
    if k < es.len() {
        let dir = entries_written(es);
        assert(has(dir, k as int * 28, entry_bytes(es[k as int])));
        lemma_entry_read(dir, k as int * 28, es[k as int]);
        lemma_entry_not_found(es, kind, k + 1);
    }
}

/// The section holds the address: in memory, or in the file.
pub open spec fn lies_in(rva: u32, s: Section) -> bool {
    s.virtual_address <= rva < s.virtual_address + s.virtual_size || s.virtual_address <= rva
        < s.virtual_address + s.raw_data_size
}

/// The part is what lies at the address: it stands in the file where the first section
/// that holds the address has its bytes, and within those.
#[verifier::opaque]
pub open spec fn lies_at(
    image: Seq<u8>,
    sections: Seq<Section>,
    rva: u32,
    part: Seq<u8>,
) -> bool {
    exists|i: int|
        {
            &&& 0 <= i < sections.len()
            &&& lies_in(rva, #[trigger] sections[i])
            &&& forall|j: int| 0 <= j < i ==> !lies_in(rva, #[trigger] sections[j])
            &&& rva - sections[i].virtual_address + part.len() <= sections[i].raw_data_size
            &&& sections[i].raw_data_ptr + sections[i].raw_data_size <= image.len()
            &&& has(image, sections[i].raw_data_ptr + (rva - sections[i].virtual_address), part)
        }
}

/// What lies at an address is found there.
proof fn lemma_lies_at(image: Seq<u8>, sections: Seq<Section>, rva: u32, part: Seq<u8>)
    requires
        lies_at(image, sections, rva, part),
    ensures
        reader::mapped(image, sections, rva) is Some,
        part.len() <= reader::mapped(image, sections, rva)->0.len(),
        reader::mapped(image, sections, rva)->0.take(part.len() as int) == part,
{
    reveal(lies_at);
    let i = choose|i: int|
        {
            &&& 0 <= i < sections.len()
            &&& lies_in(rva, #[trigger] sections[i])
            &&& forall|j: int| 0 <= j < i ==> !lies_in(rva, #[trigger] sections[j])
            &&& rva - sections[i].virtual_address + part.len() <= sections[i].raw_data_size
            &&& sections[i].raw_data_ptr + sections[i].raw_data_size <= image.len()
            &&& has(image, sections[i].raw_data_ptr + (rva - sections[i].virtual_address), part)
        };
    let p = reader::holds(rva);
    assert forall|j: int| 0 <= j < i implies !p(#[trigger] sections[j]) by {
        assert(!lies_in(rva, sections[j]));
    }
    crate::fsharp_pickle_merge::lookup::lemma_first_is(sections, 0, i, p);
    let start = sections[i].raw_data_ptr + (rva - sections[i].virtual_address);
    let region = reader::mapped(image, sections, rva)->0;
    assert(region.take(part.len() as int) =~= image.subrange(start, start + part.len()));
}

/// The data of an entry: where the pointer says, or at the address if there is none.
pub open spec fn has_data(
    image: Seq<u8>,
    sections: Seq<Section>,
    e: DebugEntry,
    data: Seq<u8>,
) -> bool {
    &&& data.len() == e.size
    &&& e.pointer != 0 ==> has(image, e.pointer as int, data)
    &&& e.pointer == 0 ==> lies_at(image, sections, e.address, data)
}

/// The data of an entry is found.
proof fn lemma_entry_data(
    image: Seq<u8>,
    sections: Seq<Section>,
    es: Seq<DebugEntry>,
    i: int,
    data: Seq<u8>,
)
    requires
        0 <= i < es.len(),
        has_data(image, sections, es[i], data),
    ensures
        debug_directory::entry_data(image, sections, entries_written(es), i as nat) == Ok::<
            Seq<u8>,
            PdbFault,
        >(data),
        entries_written(es).subrange(i * 28 + 4, i * 28 + 8) == le32(es[i].time_stamp),
{
    reveal(entries_written);
    lemma_entries(es, es.len());
    let dir = entries_written(es);
    assert(has(dir, i * 28, entry_bytes(es[i])));
    lemma_entry_read(dir, i * 28, es[i]);
    if es[i].pointer == 0 {
        lemma_lies_at(image, sections, es[i].address, data);
        let region = reader::mapped(image, sections, es[i].address)->0;
        assert(region.subrange(0, data.len() as int) =~= region.take(data.len() as int));
    }
}

/// The debug directory that was written at an address is found there.
proof fn lemma_directory(
    image: Seq<u8>,
    sections: Seq<Section>,
    rva: u32,
    size: u32,
    es: Seq<DebugEntry>,
)
    requires
        rva != 0,
        size != 0,
        size == entries_written(es).len(),
        lies_at(image, sections, rva, entries_written(es)),
    ensures
        debug_directory::directory(image, sections, rva, size) == Ok::<
            Option<Seq<u8>>,
            PdbFault,
        >(Some(entries_written(es))),
{
    reveal(entries_written);
    lemma_entries(es, es.len());
    lemma_lies_at(image, sections, rva, entries_written(es));
    assert((es.len() * 28) % 28 == 0) by {
        vstd::arithmetic::div_mod::lemma_mod_multiples_basic(es.len() as int, 28);
    }
}

/// Of the entries that were written, the data of the first of kind 17 is that of the
/// embedded database; where there is none, there is no embedded database.
pub proof fn law_embedded_entry_is_found(
    image: Seq<u8>,
    sections: Seq<Section>,
    rva: u32,
    size: u32,
    es: Seq<DebugEntry>,
    i: int,
    data: Seq<u8>,
)
    requires
        rva != 0,
        size != 0,
        size == entries_written(es).len(),
        lies_at(image, sections, rva, entries_written(es)),
        0 <= i <= es.len(),
        forall|j: int| 0 <= j < i ==> (#[trigger] es[j]).kind != 17,
        i < es.len() ==> es[i].kind == 17 && has_data(image, sections, es[i], data),
    ensures
        debug_directory::embedded_payload(image, sections, rva, size) == Ok::<
            Option<Seq<u8>>,
            PdbFault,
        >(
            if i < es.len() {
                Some(data)
            } else {
                None
            },
        ),
{
    lemma_directory(image, sections, rva, size, es);
    if i < es.len() {
        lemma_entry_found(es, 17, 0, i);
        lemma_entry_data(image, sections, es, i, data);
    } else {
        lemma_entry_not_found(es, 17, 0);
    }
}

/// The data of an embedded database as it is written: the letters `MPDB`, the size of the
/// database and the deflated database.
#[verifier::opaque]
pub open spec fn embedded_bytes(size: u32, deflated: Seq<u8>) -> Seq<u8> {
    seq![0x4Du8, 0x50, 0x44, 0x42] + (le32(size) + deflated)
}

/// An embedded database is inflated from what follows its size, and is accepted if and
/// only if that inflates to so many bytes.
pub proof fn law_embedded_database_is_inflated(size: u32, deflated: Seq<u8>)
    requires
        size <= 0x400_0000,
    ensures
        match fsharp_resource::decompressed(deflated, size as usize) {
            Ok(out) => debug_directory::inflated_pdb(embedded_bytes(size, deflated)) == (if out.len()
                == size {
                Ok::<Seq<u8>, PdbFault>(out)
            } else {
                Err(PdbFault::BadEmbeddedPdb)
            }),
            Err(_) => debug_directory::inflated_pdb(embedded_bytes(size, deflated)) is Err,
        },
{
    reveal(embedded_bytes);
    let data = embedded_bytes(size, deflated);
    let magic = seq![0x4Du8, 0x50, 0x44, 0x42];
    bytes::lemma_has_whole(data);
    bytes::lemma_has_both(data, 0, magic, le32(size) + deflated);
    bytes::lemma_has_both(data, 4, le32(size), deflated);
    bytes::law_u32_round_trip(data, 4, size);
    assert(data.skip(8) =~= deflated);
}

/// The embedded database of an executable is what the linker embedded: for 32 bits and
/// for 64, wherever its sections and its debug directory lie.
pub proof fn law_embedded_database_is_found(
    x: Executable,
    es: Seq<DebugEntry>,
    i: int,
    deflated: Seq<u8>,
    pdb: Seq<u8>,
)
    requires
        x.valid(),
        x.directories.debug.rva != 0,
        x.directories.debug.size != 0,
        x.directories.debug.size == entries_written(es).len(),
        lies_at(
            x.written(),
            x.sections.map_values(|s: SectionHeader| placed(s)),
            x.directories.debug.rva,
            entries_written(es),
        ),
        0 <= i < es.len(),
        es[i].kind == 17,
        forall|j: int| 0 <= j < i ==> (#[trigger] es[j]).kind != 17,
        pdb.len() <= 0x400_0000,
        has_data(
            x.written(),
            x.sections.map_values(|s: SectionHeader| placed(s)),
            es[i],
            embedded_bytes(pdb.len() as u32, deflated),
        ),
        fsharp_resource::decompressed(deflated, pdb.len() as usize) == Ok::<
            Seq<u8>,
            fsharp_resource::InflateFault,
        >(pdb),
    ensures
        debug_directory::embedded_pdb(x.written()) == Ok::<Option<Seq<u8>>, PdbFault>(Some(pdb)),
{
    law_executable_is_read_as_written(x);
    law_embedded_entry_is_found(
        x.written(),
        x.sections.map_values(|s: SectionHeader| placed(s)),
        x.directories.debug.rva,
        x.directories.debug.size,
        es,
        i,
        embedded_bytes(pdb.len() as u32, deflated),
    );
    law_embedded_database_is_inflated(pdb.len() as u32, deflated);
}

/// The pointer to a separate database as it is written: the letters `RSDS`, a GUID, an
/// age and a path that ends at a zero.
#[verifier::opaque]
pub open spec fn codeview_bytes(
    guid: Seq<u8>,
    age: u32,
    path: Seq<u8>,
    filling: Seq<u8>,
) -> Seq<u8> {
    seq![0x52u8, 0x53, 0x44, 0x53] + (guid + (le32(age) + (path + (seq![0u8] + filling))))
}

/// The path ends at the first zero.
proof fn lemma_zero(data: Seq<u8>, i: nat, n: nat)
    requires
        i <= n < data.len(),
        data[n as int] == 0,
        forall|j: int| i <= j < n ==> data[j] != 0,
    ensures
        debug_directory::zero_from(data, i) == n,
    decreases n - i,
{
    if i < n {
        lemma_zero(data, i + 1, n);
    }
}

/// The pointer to a separate database is read as it was written: its path, and as its
/// identifier the GUID and the time stamp of the entry.
pub proof fn law_codeview_is_read_as_written(
    guid: Seq<u8>,
    age: u32,
    path: Seq<u8>,
    filling: Seq<u8>,
    stamp: u32,
)
    requires
        guid.len() == 16,
        vstd::utf8::valid_utf8(path),
        forall|j: int| 0 <= j < path.len() ==> path[j] != 0,
    ensures
        debug_directory::reference_in(codeview_bytes(guid, age, path, filling), le32(stamp)) == Ok::<
            Option<PdbReferenceModel>,
            PdbFault,
        >(
            Some(
                PdbReferenceModel {
                    path: vstd::utf8::decode_utf8(path),
                    id: guid + le32(stamp),
                },
            ),
        ),
{
    reveal(codeview_bytes);
    let data = codeview_bytes(guid, age, path, filling);
    let magic = seq![0x52u8, 0x53, 0x44, 0x53];
    let end = seq![0u8] + filling;
    bytes::lemma_has_whole(data);
    bytes::lemma_has_both(data, 0, magic, guid + (le32(age) + (path + end)));
    bytes::lemma_has_both(data, 4, guid, le32(age) + (path + end));
    bytes::lemma_has_both(data, 20, le32(age), path + end);
    bytes::lemma_has_both(data, 24, path, end);
    bytes::lemma_has_byte(data, 24 + path.len() as int, end, 0);
    let n = 24 + path.len();
    assert forall|j: int| 24 <= j < n implies data[j] != 0 by {
        bytes::lemma_has_byte(data, 24, path, j - 24);
    }
    lemma_zero(data, 24, n);
    assert(data.subrange(24, n as int) =~= path);
    assert(text::utf8_text(path) == Some(vstd::utf8::decode_utf8(path)));
}

/// The pointer to its separate database that an executable holds is found: that in the
/// data of the first entry of kind 2.
pub proof fn law_codeview_is_found(
    x: Executable,
    es: Seq<DebugEntry>,
    i: int,
    guid: Seq<u8>,
    age: u32,
    path: Seq<u8>,
    filling: Seq<u8>,
)
    requires
        x.valid(),
        x.directories.debug.rva != 0,
        x.directories.debug.size != 0,
        x.directories.debug.size == entries_written(es).len(),
        lies_at(
            x.written(),
            x.sections.map_values(|s: SectionHeader| placed(s)),
            x.directories.debug.rva,
            entries_written(es),
        ),
        0 <= i < es.len(),
        es[i].kind == 2,
        forall|j: int| 0 <= j < i ==> (#[trigger] es[j]).kind != 2,
        has_data(
            x.written(),
            x.sections.map_values(|s: SectionHeader| placed(s)),
            es[i],
            codeview_bytes(guid, age, path, filling),
        ),
        guid.len() == 16,
        vstd::utf8::valid_utf8(path),
        forall|j: int| 0 <= j < path.len() ==> path[j] != 0,
    ensures
        debug_directory::codeview_of(x.written()) == Ok::<Option<PdbReferenceModel>, PdbFault>(
            Some(
                PdbReferenceModel {
                    path: vstd::utf8::decode_utf8(path),
                    id: guid + le32(es[i].time_stamp),
                },
            ),
        ),
{
    let sections = x.sections.map_values(|s: SectionHeader| placed(s));
    law_executable_is_read_as_written(x);
    lemma_directory(
        x.written(),
        sections,
        x.directories.debug.rva,
        x.directories.debug.size,
        es,
    );
    lemma_entry_found(es, 2, 0, i);
    lemma_entry_data(x.written(), sections, es, i, codeview_bytes(guid, age, path, filling));
    law_codeview_is_read_as_written(guid, age, path, filling, es[i].time_stamp);
}

} // verus!
