//! The tables of a debug database as a compiler writes them, and that they are read
//! back.
//!
//! The writer follows the description of metadata tables: an index into a heap is two
//! bytes wide unless the heap-sizes byte widens it (bit 0 for the strings, bit 1 for the
//! GUIDs, bit 2 for the blobs), an index into a table is two bytes wide unless the table
//! has too many rows for that, and so is an index into one of several tables, of which
//! five bits tell which one it is.
use crate::pdb::bytes;
use crate::pdb::bytes::{has, le16, le32, le64};
use crate::pdb::error::PdbFault;
use crate::pdb::metadata;
use crate::pdb::tables;
use crate::pdb::tables::TablesModel;
use crate::reader;
use vstd::prelude::*;

verus! {

broadcast use {bytes::lemma_le16_len, bytes::lemma_le32_len, bytes::lemma_le64_len};

/// A row of the documents.
pub struct DocumentRow {
    pub name: u32,
    pub hash_algorithm: u32,
    pub hash: u32,
    pub language: u32,
}

/// A row of the debug information of methods.
pub struct MethodDebugInformationRow {
    pub document: u32,
    pub sequence_points: u32,
}

/// A row of the local scopes.
pub struct LocalScopeRow {
    pub method: u32,
    pub import_scope: u32,
    pub variable_list: u32,
    pub constant_list: u32,
    pub start_offset: u32,
    pub length: u32,
}

/// A row of the local variables.
pub struct LocalVariableRow {
    pub attributes: u16,
    pub index: u16,
    pub name: u32,
}

/// A row of the local constants.
pub struct LocalConstantRow {
    pub name: u32,
    pub signature: u32,
}

/// A row of the import scopes.
pub struct ImportScopeRow {
    pub parent: u32,
    pub imports: u32,
}

/// A row of the methods of state machines.
pub struct StateMachineMethodRow {
    pub move_next_method: u32,
    pub kickoff_method: u32,
}

/// A row of the custom debug information. The tag says in which table the parent is.
pub struct CustomDebugInformationRow {
    pub parent_tag: u32,
    pub parent_row: u32,
    pub kind: u32,
    pub value: u32,
}

/// What a compiler writes into the tables of a database.
pub struct Database {
    pub heap_sizes: u8,
    pub documents: Seq<DocumentRow>,
    pub methods: Seq<MethodDebugInformationRow>,
    pub scopes: Seq<LocalScopeRow>,
    pub variables: Seq<LocalVariableRow>,
    pub constants: Seq<LocalConstantRow>,
    pub imports: Seq<ImportScopeRow>,
    pub state_machines: Seq<StateMachineMethodRow>,
    pub custom: Seq<CustomDebugInformationRow>,
    /// How many rows the tables of the assembly have, by the number of the table.
    pub assembly_rows: Seq<u32>,
    pub major: u8,
    pub minor: u8,
    /// The tables of debug data that are there, a bit each.
    pub present: u64,
    pub sorted: u64,
    /// The tables of the assembly whose rows are counted, a bit each.
    pub referenced: u64,
    pub id: Seq<u8>,
    pub entry_point: u32,
}

/// A cell: a number of two bytes, or of four if it is wide.
pub struct Cell {
    pub value: u32,
    pub wide: bool,
}

/// A cell as it is written.
#[verifier::opaque]
pub open spec fn cell_bytes(c: Cell) -> Seq<u8> {
    if c.wide {
        le32(c.value)
    } else {
        le16(c.value as u16)
    }
}

/// The first `n` cells of a row as they are written.
pub open spec fn cells_from(cells: Seq<Cell>, n: nat) -> Seq<u8>
    decreases n,
{
    if n == 0 {
        Seq::empty()
    } else {
        cells_from(cells, (n - 1) as nat) + cell_bytes(cells[n - 1])
    }
}

impl Database {
    /// How many rows a table has.
    pub open spec fn count(self, t: usize) -> nat {
        if t == 0x30 {
            self.documents.len()
        } else if t == 0x31 {
            self.methods.len()
        } else if t == 0x32 {
            self.scopes.len()
        } else if t == 0x33 {
            self.variables.len()
        } else if t == 0x34 {
            self.constants.len()
        } else if t == 0x35 {
            self.imports.len()
        } else if t == 0x36 {
            self.state_machines.len()
        } else if t == 0x37 {
            self.custom.len()
        } else {
            self.assembly_rows[t as int] as nat
        }
    }

    /// An index into the string heap.
    pub open spec fn string(self, v: u32) -> Cell {
        Cell { value: v, wide: self.heap_sizes & 0x01 != 0 }
    }

    /// An index into the GUID heap.
    pub open spec fn guid(self, v: u32) -> Cell {
        Cell { value: v, wide: self.heap_sizes & 0x02 != 0 }
    }

    /// An index into the blob heap.
    pub open spec fn blob(self, v: u32) -> Cell {
        Cell { value: v, wide: self.heap_sizes & 0x04 != 0 }
    }

    /// A row of the table `t`.
    pub open spec fn row_of(self, t: usize, v: u32) -> Cell {
        Cell { value: v, wide: self.count(t) >= 0x1_0000 }
    }

    /// No table whose rows may have custom debug information has too many rows for
    /// eleven bits.
    pub open spec fn all_small(self) -> bool {
        // Methods, fields, type references, type definitions, parameters, interface
        // implementations, member references and the module.
        &&& self.count(0x06) < 0x800
        &&& self.count(0x04) < 0x800
        &&& self.count(0x01) < 0x800
        &&& self.count(0x02) < 0x800
        &&& self.count(0x08) < 0x800
        &&& self.count(0x09) < 0x800
        &&& self.count(0x0A) < 0x800
        &&& self.count(0x00) < 0x800
        // Security declarations, properties, events, stand-alone signatures, module
        // references and type specifications.
        &&& self.count(0x0E) < 0x800
        &&& self.count(0x17) < 0x800
        &&& self.count(0x14) < 0x800
        &&& self.count(0x11) < 0x800
        &&& self.count(0x1A) < 0x800
        &&& self.count(0x1B) < 0x800
        // The assembly, assembly references, files, exported types, resources, generic
        // parameters, their constraints and method specifications.
        &&& self.count(0x20) < 0x800
        &&& self.count(0x23) < 0x800
        &&& self.count(0x26) < 0x800
        &&& self.count(0x27) < 0x800
        &&& self.count(0x28) < 0x800
        &&& self.count(0x2A) < 0x800
        &&& self.count(0x2C) < 0x800
        &&& self.count(0x2B) < 0x800
        // Documents, local scopes, variables and constants, and import scopes.
        &&& self.count(0x30) < 0x800
        &&& self.count(0x32) < 0x800
        &&& self.count(0x33) < 0x800
        &&& self.count(0x34) < 0x800
        &&& self.count(0x35) < 0x800
    }

    /// The cells of a row of a table.
    pub open spec fn cells(self, t: usize, i: int) -> Seq<Cell> {
        if t == 0x30 {
            let r = self.documents[i];
            seq![
                self.blob(r.name),
                self.guid(r.hash_algorithm),
                self.blob(r.hash),
                self.guid(r.language),
            ]
        } else if t == 0x31 {
            let r = self.methods[i];
            seq![self.row_of(0x30, r.document), self.blob(r.sequence_points)]
        } else if t == 0x32 {
            let r = self.scopes[i];
            seq![
                self.row_of(0x06, r.method),
                self.row_of(0x35, r.import_scope),
                self.row_of(0x33, r.variable_list),
                self.row_of(0x34, r.constant_list),
                Cell { value: r.start_offset, wide: true },
                Cell { value: r.length, wide: true },
            ]
        } else if t == 0x33 {
            let r = self.variables[i];
            seq![
                Cell { value: r.attributes as u32, wide: false },
                Cell { value: r.index as u32, wide: false },
                self.string(r.name),
            ]
        } else if t == 0x34 {
            let r = self.constants[i];
            seq![self.string(r.name), self.blob(r.signature)]
        } else if t == 0x35 {
            let r = self.imports[i];
            seq![self.row_of(0x35, r.parent), self.blob(r.imports)]
        } else if t == 0x36 {
            let r = self.state_machines[i];
            seq![self.row_of(0x06, r.move_next_method), self.row_of(0x06, r.kickoff_method)]
        } else {
            let r = self.custom[i];
            seq![
                Cell {
                    value: (r.parent_row * 32 + r.parent_tag) as u32,
                    wide: !self.all_small(),
                },
                self.guid(r.kind),
                self.blob(r.value),
            ]
        }
    }

    /// The first `n` rows of a table as they are written.
    pub open spec fn rows_from(self, t: usize, n: nat) -> Seq<u8>
        decreases n,
    {
        if n == 0 {
            Seq::empty()
        } else {
            self.rows_from(t, (n - 1) as nat) + cells_from(
                self.cells(t, n - 1),
                self.cells(t, n - 1).len(),
            )
        }
    }

    /// The tables of debug data before `t` as they are written, one after the other.
    pub open spec fn tables_before(self, t: usize) -> Seq<u8>
        decreases t,
    {
        if t <= 0x30 {
            Seq::empty()
        } else {
            let before = (t - 1) as usize;
            self.tables_before(before) + self.rows_from(before, self.count(before))
        }
    }

    /// The row counts of the tables from the `i`-th on whose bit is set.
    pub open spec fn counts_from(self, bits: u64, i: nat) -> Seq<u8>
        decreases 64 - i,
    {
        if i >= 64 {
            Seq::empty()
        } else if bits & (1u64 << i as u64) != 0 {
            le32(self.count(i as usize) as u32) + self.counts_from(bits, i + 1)
        } else {
            self.counts_from(bits, i + 1)
        }
    }

    /// The stream of tables as it is written.
    #[verifier::opaque]
    pub open spec fn table_stream(self) -> Seq<u8> {
        le32(0) + (seq![self.major, self.minor, self.heap_sizes, 1u8] + (le64(self.present) + (le64(
            self.sorted,
        ) + (self.counts_from(self.present, 0) + self.tables_before(0x38)))))
    }

    /// The stream that is that of a debug database alone, as it is written.
    #[verifier::opaque]
    pub open spec fn pdb_stream(self) -> Seq<u8> {
        self.id + (le32(self.entry_point) + (le64(self.referenced) + self.counts_from(
            self.referenced,
            0,
        )))
    }

    /// The numbers fit the cells, the counts fit their fields, and the bits say which
    /// tables are there.
    pub open spec fn valid(self) -> bool {
        &&& self.heap_sizes & 0x40 == 0
        &&& self.id.len() == 20
        &&& self.assembly_rows.len() == 64
        &&& forall|t: usize| 0x30 <= t <= 0x37 ==> #[trigger] self.count(t) <= u32::MAX
        &&& forall|i: u64|
            i < 64 && #[trigger] (self.present & (1u64 << i)) != 0 ==> 0x30 <= i <= 0x37
        &&& forall|i: u64|
            #![trigger self.present & (1u64 << i)]
            0x30 <= i <= 0x37 && self.count(i as usize) > 0 ==> self.present & (1u64 << i) != 0
        &&& forall|i: u64|
            #![trigger self.referenced & (1u64 << i)]
            i < 0x30 && self.count(i as usize) > 0 ==> self.referenced & (1u64 << i) != 0
        &&& forall|t: usize, i: int, c: int|
            #![trigger self.cells(t, i)[c]]
            0x30 <= t <= 0x37 && 0 <= i < self.count(t) && 0 <= c < self.cells(t, i).len()
                && !self.cells(t, i)[c].wide ==> self.cells(t, i)[c].value < 0x1_0000
    }
}

/// What is read of the tables agrees with what was written as to the sizes.
spec fn sized(m: TablesModel, db: Database) -> bool {
    &&& m.rows.len() == 64
    &&& m.heap == metadata::heap_widths(db.heap_sizes)
    &&& forall|t: usize| 0 <= t <= 0x37 ==> m.rows[t as int] == #[trigger] db.count(t)
}

/// Where all tables are small, the reader finds them small, and the other way round.
proof fn lemma_small(m: TablesModel, db: Database)
    requires
        sized(m, db),
    ensures
        db.all_small() <==> forall|i: int|
            0 <= i < tables::custom_debug_info_tables().len() ==> m.rows[(
            #[trigger] tables::custom_debug_info_tables()[i]) as int] < 0x800,
{
    let s = tables::custom_debug_info_tables();
    let small = forall|i: int| 0 <= i < s.len() ==> m.rows[(#[trigger] s[i]) as int] < 0x800;
    if small {
        assert(s[0] == 0x06 && s[1] == 0x04 && s[2] == 0x01 && s[3] == 0x02);
        assert(s[4] == 0x08 && s[5] == 0x09 && s[6] == 0x0A && s[7] == 0x00);
        assert(s[8] == 0x0E && s[9] == 0x17 && s[10] == 0x14 && s[11] == 0x11);
        assert(s[12] == 0x1A && s[13] == 0x1B && s[14] == 0x20 && s[15] == 0x23);
        assert(s[16] == 0x26 && s[17] == 0x27 && s[18] == 0x28 && s[19] == 0x2A);
        assert(s[20] == 0x2C && s[21] == 0x2B && s[22] == 0x30 && s[23] == 0x32);
        assert(s[24] == 0x33 && s[25] == 0x34 && s[26] == 0x35);
    }
    if db.all_small() {
        assert forall|i: int| 0 <= i < s.len() implies m.rows[(#[trigger] s[i]) as int] < 0x800 by {
            assert(m.rows[s[i] as int] == db.count(s[i]));
        }
    }
}

/// Each column is read as wide as its cells were written.
proof fn lemma_widths(m: TablesModel, db: Database, t: usize, i: int, c: int)
    requires
        sized(m, db),
        0x30 <= t <= 0x37,
        0 <= i < db.count(t),
    ensures
        tables::columns(t).len() == db.cells(t, i).len(),
        0 <= c < tables::columns(t).len() ==> m.width(tables::columns(t)[c]) == (if db.cells(
            t,
            i,
        )[c].wide {
            4nat
        } else {
            2
        }),
{
    if t == 0x37 {
        lemma_small(m, db);
    }
    assert(m.rows[0x06] == db.count(0x06));
    assert(m.rows[0x30] == db.count(0x30));
    assert(m.rows[0x33] == db.count(0x33));
    assert(m.rows[0x34] == db.count(0x34));
    assert(m.rows[0x35] == db.count(0x35));
}

/// A cell is as long as it is wide, and is read as it was written.
proof fn lemma_cell(data: Seq<u8>, at: int, c: Cell)
    requires
        !c.wide ==> c.value < 0x1_0000,
    ensures
        cell_bytes(c).len() == (if c.wide {
            4nat
        } else {
            2
        }),
        has(data, at, cell_bytes(c)) && c.wide ==> reader::u32_at(data, at) == Some(c.value),
        has(data, at, cell_bytes(c)) && !c.wide ==> reader::u16_at(data, at) == Some(
            c.value as u16,
        ),
{
    reveal(cell_bytes);
    if has(data, at, cell_bytes(c)) {
        if c.wide {
            bytes::law_u32_round_trip(data, at, c.value);
        } else {
            bytes::law_u16_round_trip(data, at, c.value as u16);
        }
    }
}

/// The first `n` cells of a row are as long as the columns are wide, and each of them
/// stands at its place.
proof fn lemma_row(m: TablesModel, db: Database, t: usize, i: int, n: nat)
    requires
        db.valid(),
        sized(m, db),
        0x30 <= t <= 0x37,
        0 <= i < db.count(t),
        n <= db.cells(t, i).len(),
    ensures
        cells_from(db.cells(t, i), n).len() == m.columns_width(t, n),
        forall|c: int|
            0 <= c < n ==> #[trigger] has(
                cells_from(db.cells(t, i), n),
                m.columns_width(t, c as nat) as int,
                cell_bytes(db.cells(t, i)[c]),
            ),
    decreases n,
{
    let cells = db.cells(t, i);
    if n > 0 {
        lemma_row(m, db, t, i, (n - 1) as nat);
        lemma_widths(m, db, t, i, n - 1);
        let before = cells_from(cells, (n - 1) as nat);
        let last = cell_bytes(cells[n - 1]);
        lemma_cell(last, 0, cells[n - 1]);
        bytes::lemma_has_whole(before + last);
        bytes::lemma_has_both(before + last, 0, before, last);
        assert forall|c: int| 0 <= c < n implies #[trigger] has(
            cells_from(cells, n),
            m.columns_width(t, c as nat) as int,
            cell_bytes(cells[c]),
        ) by {
            if c < n - 1 {
                let at = m.columns_width(t, c as nat) as int;
                assert(has(before, at, cell_bytes(cells[c])));
                bytes::lemma_has_within(before + last, 0, before, at, cell_bytes(cells[c]));
            }
        }
    }
}

/// The first `n` rows of a table take the width of a row each, and each of them stands at
/// its place.
proof fn lemma_rows(m: TablesModel, db: Database, t: usize, n: nat)
    requires
        db.valid(),
        sized(m, db),
        0x30 <= t <= 0x37,
        n <= db.count(t),
    ensures
        db.rows_from(t, n).len() == n * m.row_width(t),
        forall|i: int|
            0 <= i < n ==> #[trigger] has(
                db.rows_from(t, n),
                i * m.row_width(t),
                cells_from(db.cells(t, i), db.cells(t, i).len()),
            ),
    decreases n,
{
    if n > 0 {
        let k = (n - 1) as nat;
        let w = m.row_width(t);
        lemma_rows(m, db, t, k);
        lemma_widths(m, db, t, k as int, 0);
        lemma_row(m, db, t, k as int, db.cells(t, k as int).len());
        let before = db.rows_from(t, k);
        let last = cells_from(db.cells(t, k as int), db.cells(t, k as int).len());
        assert(k * w + w == n * w) by (nonlinear_arith)
            requires
                k + 1 == n,
        ;
        bytes::lemma_has_whole(before + last);
        bytes::lemma_has_both(before + last, 0, before, last);
        assert forall|i: int| 0 <= i < n implies #[trigger] has(
            db.rows_from(t, n),
            i * w,
            cells_from(db.cells(t, i), db.cells(t, i).len()),
        ) by {
            let row = cells_from(db.cells(t, i), db.cells(t, i).len());
            if i < k {
                assert(has(before, i * w, row));
                bytes::lemma_has_within(before + last, 0, before, i * w, row);
            }
        }
    }
}

/// The tables before `u` end where `u` starts, and each of them stands at its place.
proof fn lemma_tables(m: TablesModel, db: Database, u: usize)
    requires
        db.valid(),
        sized(m, db),
        0x30 <= u <= 0x38,
    ensures
        db.tables_before(u).len() == m.table_start(u),
        forall|t: usize|
            0x30 <= t < u ==> #[trigger] has(
                db.tables_before(u),
                m.table_start(t) as int,
                db.rows_from(t, db.count(t)),
            ),
    decreases u,
{
    if u > 0x30 {
        let p = (u - 1) as usize;
        lemma_tables(m, db, p);
        lemma_rows(m, db, p, db.count(p));
        let before = db.tables_before(p);
        let last = db.rows_from(p, db.count(p));
        assert(m.rows[p as int] == db.count(p));
        bytes::lemma_has_whole(before + last);
        bytes::lemma_has_both(before + last, 0, before, last);
        assert forall|t: usize| 0x30 <= t < u implies #[trigger] has(
            db.tables_before(u),
            m.table_start(t) as int,
            db.rows_from(t, db.count(t)),
        ) by {
            if t < p {
                let table = db.rows_from(t, db.count(t));
                assert(has(before, m.table_start(t) as int, table));
                bytes::lemma_has_within(before + last, 0, before, m.table_start(t) as int, table);
            }
        }
    }
}

/// Every cell is read as it was written.
proof fn lemma_cells(m: TablesModel, db: Database, t: usize, i: int, c: int)
    requires
        db.valid(),
        sized(m, db),
        m.data == db.tables_before(0x38),
        0x30 <= t <= 0x37,
        0 <= i < db.count(t),
        0 <= c < db.cells(t, i).len(),
    ensures
        m.cell(t, i as nat, c as nat) == db.cells(t, i)[c].value,
{
    let cells = db.cells(t, i);
    let row = cells_from(cells, cells.len());
    let table = db.rows_from(t, db.count(t));
    lemma_tables(m, db, 0x38);
    lemma_rows(m, db, t, db.count(t));
    lemma_row(m, db, t, i, cells.len());
    lemma_widths(m, db, t, i, c);
    let start = m.table_start(t) as int;
    let at_row = i * m.row_width(t);
    let at_cell = m.columns_width(t, c as nat) as int;
    assert(has(m.data, start, table));
    assert(has(table, at_row, row));
    assert(has(row, at_cell, cell_bytes(cells[c])));
    bytes::lemma_has_within(m.data, start, table, at_row, row);
    bytes::lemma_has_within(m.data, start + at_row, row, at_cell, cell_bytes(cells[c]));
    assert(!cells[c].wide ==> cells[c].value < 0x1_0000);
    lemma_cell(m.data, start + at_row + at_cell, cells[c]);
}

/// The row counts of the tables of debug data are read as they were written.
proof fn lemma_own_counts(
    db: Database,
    tilde: Seq<u8>,
    i: nat,
    pos: int,
    rest: Seq<u8>,
    rows: Seq<u32>,
)
    requires
        db.valid(),
        i <= 64,
        rows.len() == 64,
        has(tilde, pos, db.counts_from(db.present, i) + rest),
        forall|k: usize| i <= k < 64 ==> #[trigger] rows[k as int] == 0,
        forall|k: usize| k < i && k < 0x30 ==> #[trigger] rows[k as int] == 0,
        forall|k: usize| 0x30 <= k < i && k <= 0x37 ==> rows[k as int] == #[trigger] db.count(k),
    ensures
        metadata::own_rows_from(tilde, db.present, i, pos, rows) matches Ok((own, after))
            && own.len() == 64 && after == pos + db.counts_from(db.present, i).len() && has(
            tilde,
            after,
            rest,
        ) && (forall|k: usize| k < 0x30 ==> #[trigger] own[k as int] == 0) && (forall|k: usize|
            0x30 <= k <= 0x37 ==> own[k as int] == #[trigger] db.count(k)),
    decreases 64 - i,
{
    if i >= 64 {
        assert(db.counts_from(db.present, i) + rest =~= rest);
    } else {
        let bit = db.present & (1u64 << i as u64) != 0;
        if bit {
            let n = db.count(i as usize) as u32;
            let tail = db.counts_from(db.present, i + 1);
            assert((le32(n) + tail) + rest =~= le32(n) + (tail + rest));
            bytes::lemma_has_both(tilde, pos, le32(n), tail + rest);
            bytes::law_u32_round_trip(tilde, pos, n);
            let next = rows.update(i as int, n);
            assert(0x30 <= i <= 0x37);
            assert(db.count(i as usize) <= u32::MAX);
            assert forall|k: usize| 0x30 <= k < i + 1 && k <= 0x37 implies next[k as int]
                == #[trigger] db.count(k) by {
                if k < i {
                    assert(rows[k as int] == db.count(k));
                }
            }
            assert forall|k: usize| i + 1 <= k < 64 implies #[trigger] next[k as int] == 0 by {
                assert(rows[k as int] == 0);
            }
            assert forall|k: usize| k < i + 1 && k < 0x30 implies #[trigger] next[k as int]
                == 0 by {
                assert(rows[k as int] == 0);
            }
            lemma_own_counts(db, tilde, i + 1, pos + 4, rest, next);
        } else {
            assert forall|k: usize| 0x30 <= k < i + 1 && k <= 0x37 implies rows[k as int]
                == #[trigger] db.count(k) by {
                if k == i {
                    assert(rows[k as int] == 0);
                    let j = i as u64;
                    assert(db.present & (1u64 << j) == 0);
                }
            }
            assert forall|k: usize| k < i + 1 && k < 0x30 implies #[trigger] rows[k as int]
                == 0 by {}
            lemma_own_counts(db, tilde, i + 1, pos, rest, rows);
        }
    }
}

/// The row counts of the tables of the assembly are read as they were written.
proof fn lemma_referenced_counts(
    db: Database,
    pdb: Seq<u8>,
    i: nat,
    pos: int,
    rows: Seq<u32>,
)
    requires
        db.valid(),
        i <= 64,
        rows.len() == 64,
        has(pdb, pos, db.counts_from(db.referenced, i)),
        forall|k: usize| i <= k < 0x30 ==> #[trigger] rows[k as int] == 0,
        forall|k: usize| k < i && k < 0x30 ==> rows[k as int] == #[trigger] db.count(k),
        forall|k: usize| 0x30 <= k <= 0x37 ==> rows[k as int] == #[trigger] db.count(k),
    ensures
        metadata::referenced_rows_from(pdb, db.referenced, i, pos, rows) matches Ok(all)
            && all.len() == 64 && (forall|k: usize|
            0 <= k <= 0x37 ==> all[k as int] == #[trigger] db.count(k)),
    decreases 64 - i,
{
    if i < 64 {
        let bit = db.referenced & (1u64 << i as u64) != 0;
        if bit {
            let n = db.count(i as usize) as u32;
            bytes::lemma_has_both(pdb, pos, le32(n), db.counts_from(db.referenced, i + 1));
            bytes::law_u32_round_trip(pdb, pos, n);
            let next = if i < 0x30 {
                rows.update(i as int, n)
            } else {
                rows
            };
            assert forall|k: usize| k < i + 1 && k < 0x30 implies next[k as int]
                == #[trigger] db.count(k) by {
                if k < i {
                    assert(rows[k as int] == db.count(k));
                }
            }
            assert forall|k: usize| 0x30 <= k <= 0x37 implies next[k as int] == #[trigger] db.count(
                k,
            ) by {
                assert(rows[k as int] == db.count(k));
            }
            assert forall|k: usize| i + 1 <= k < 0x30 implies #[trigger] next[k as int] == 0 by {
                assert(rows[k as int] == 0);
            }
            lemma_referenced_counts(db, pdb, i + 1, pos + 4, next);
        } else {
            assert forall|k: usize| k < i + 1 && k < 0x30 implies rows[k as int]
                == #[trigger] db.count(k) by {
                if k == i {
                    assert(rows[k as int] == 0);
                    let j = i as u64;
                    assert(db.referenced & (1u64 << j) == 0);
                }
            }
            lemma_referenced_counts(db, pdb, i + 1, pos, rows);
        }
    }
}

/// The tables are read as they were written, whatever the heap-sizes byte is: each table
/// has as many rows, and each cell of each row holds the number that was written into it.
pub proof fn law_tables_are_read_as_written(db: Database)
    requires
        db.valid(),
    ensures
        metadata::tables_of(db.table_stream(), db.pdb_stream()) is Ok,
        ({
            let m = metadata::tables_of(db.table_stream(), db.pdb_stream())->Ok_0;
            &&& forall|t: usize| 0 <= t <= 0x37 ==> m.rows[t as int] == #[trigger] db.count(t)
            &&& forall|t: usize, i: int, c: int|
                #![trigger m.cell(t, i as nat, c as nat)]
                0x30 <= t <= 0x37 && 0 <= i < db.count(t) && 0 <= c < db.cells(t, i).len()
                    ==> m.cell(t, i as nat, c as nat) == db.cells(t, i)[c].value
        }),
{
    reveal(Database::table_stream);
    reveal(Database::pdb_stream);
    let tilde = db.table_stream();
    let rows = db.tables_before(0x38);
    let a4 = db.counts_from(db.present, 0) + rows;
    let a3 = le64(db.sorted) + a4;
    let a2 = le64(db.present) + a3;
    let head = seq![db.major, db.minor, db.heap_sizes, 1u8];
    bytes::lemma_has_whole(tilde);
    bytes::lemma_has_both(tilde, 0, le32(0), head + a2);
    bytes::lemma_has_both(tilde, 4, head, a2);
    bytes::lemma_has_byte(tilde, 4, head, 2);
    bytes::lemma_has_both(tilde, 8, le64(db.present), a3);
    bytes::law_u64_round_trip(tilde, 8, db.present);
    bytes::lemma_has_both(tilde, 16, le64(db.sorted), a4);
    let none = Seq::new(64, |i: int| 0u32);
    lemma_own_counts(db, tilde, 0, 24, rows, none);
    let (own, after) = metadata::own_rows_from(tilde, db.present, 0, 24, none)->Ok_0;
    assert(tilde.skip(after) =~= rows);
    let pdb = db.pdb_stream();
    let b2 = le64(db.referenced) + db.counts_from(db.referenced, 0);
    bytes::lemma_has_whole(pdb);
    bytes::lemma_has_both(pdb, 0, db.id, le32(db.entry_point) + b2);
    bytes::lemma_has_both(pdb, 20, le32(db.entry_point), b2);
    bytes::lemma_has_both(pdb, 24, le64(db.referenced), db.counts_from(db.referenced, 0));
    bytes::law_u64_round_trip(pdb, 24, db.referenced);
    lemma_referenced_counts(db, pdb, 0, 32, own);
    let all = metadata::referenced_rows_from(pdb, db.referenced, 0, 32, own)->Ok_0;
    let m = TablesModel { rows: all, heap: metadata::heap_widths(tilde[6]), data: rows };
    assert(sized(m, db));
    lemma_tables(m, db, 0x38);
    assert(metadata::tables_of(tilde, pdb) == Ok::<TablesModel, PdbFault>(m));
    assert forall|t: usize, i: int, c: int|
        #![trigger m.cell(t, i as nat, c as nat)]
        0x30 <= t <= 0x37 && 0 <= i < db.count(t) && 0 <= c < db.cells(t, i).len() implies m.cell(
        t,
        i as nat,
        c as nat,
    ) == db.cells(t, i)[c].value by {
        lemma_cells(m, db, t, i, c);
    }
}

} // verus!
