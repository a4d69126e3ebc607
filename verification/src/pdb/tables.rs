//! The layout of the tables of a debug database.
//!
//! The tables stand one after the other, without gaps, in the order of their
//! numbers. How wide a column is depends on the sizes of the heaps and tables that
//! it points into.
use crate::reader;
use crate::reader::{read_u16_at, read_u32_at};
use vstd::prelude::*;

verus! {

pub const TABLE_DOCUMENT: usize = 0x30;

pub const TABLE_METHOD_DEBUG_INFO: usize = 0x31;

pub const TABLE_LOCAL_SCOPE: usize = 0x32;

pub const TABLE_LOCAL_VARIABLE: usize = 0x33;

pub const TABLE_LOCAL_CONSTANT: usize = 0x34;

pub const TABLE_IMPORT_SCOPE: usize = 0x35;

pub const TABLE_STATE_MACHINE_METHOD: usize = 0x36;

pub const TABLE_CUSTOM_DEBUG_INFO: usize = 0x37;

/// A table of the assembly: its rows are counted by the database.
pub const TABLE_METHOD_DEF: usize = 0x06;

/// How wide an index into each heap is: two or four bytes.
#[derive(Debug, Clone, Copy)]
pub struct HeapWidths {
    pub string: usize,
    pub guid: usize,
    pub blob: usize,
}

/// What a column holds.
#[derive(Debug, Clone, Copy, PartialEq, Eq, Structural)]
pub enum Col {
    /// A number of two bytes.
    U16,
    /// A number of four bytes.
    U32,
    /// An index into the string heap.
    Str,
    /// An index into the GUID heap.
    Guid,
    /// An index into the blob heap.
    Blob,
    /// A row of this table.
    Simple(usize),
    /// A row of one of the tables that may have custom debug information.
    HasCustomDebugInfo,
}

/// The columns of a table of debug data.
pub open spec fn columns(t: usize) -> Seq<Col> {
    if t == TABLE_DOCUMENT {
        seq![Col::Blob, Col::Guid, Col::Blob, Col::Guid]
    } else if t == TABLE_METHOD_DEBUG_INFO {
        seq![Col::Simple(TABLE_DOCUMENT), Col::Blob]
    } else if t == TABLE_LOCAL_SCOPE {
        seq![
            Col::Simple(TABLE_METHOD_DEF),
            Col::Simple(TABLE_IMPORT_SCOPE),
            Col::Simple(TABLE_LOCAL_VARIABLE),
            Col::Simple(TABLE_LOCAL_CONSTANT),
            Col::U32,
            Col::U32,
        ]
    } else if t == TABLE_LOCAL_VARIABLE {
        seq![Col::U16, Col::U16, Col::Str]
    } else if t == TABLE_LOCAL_CONSTANT {
        seq![Col::Str, Col::Blob]
    } else if t == TABLE_IMPORT_SCOPE {
        seq![Col::Simple(TABLE_IMPORT_SCOPE), Col::Blob]
    } else if t == TABLE_STATE_MACHINE_METHOD {
        seq![Col::Simple(TABLE_METHOD_DEF), Col::Simple(TABLE_METHOD_DEF)]
    } else if t == TABLE_CUSTOM_DEBUG_INFO {
        seq![Col::HasCustomDebugInfo, Col::Guid, Col::Blob]
    } else {
        Seq::empty()
    }
}

/// The tables whose rows may have custom debug information.
pub open spec fn custom_debug_info_tables() -> Seq<usize> {
    seq![
        0x06usize, 0x04, 0x01, 0x02, 0x08, 0x09, 0x0A, 0x00, 0x0E, 0x17, 0x14, 0x11, 0x1A, 0x1B,
        0x20, 0x23, 0x26, 0x27, 0x28, 0x2A, 0x2C, 0x2B, 0x30, 0x32, 0x33, 0x34, 0x35,
    ]
}

/// The row counts, heap widths and rows of a database.
pub struct TablesModel {
    pub rows: Seq<u32>,
    pub heap: HeapWidths,
    pub data: Seq<u8>,
}

impl TablesModel {
    /// How wide a column is. The row of one of several tables leaves eleven of
    /// sixteen bits for the number of the row.
    pub open spec fn width(self, c: Col) -> nat {
        match c {
            Col::U16 => 2,
            Col::U32 => 4,
            Col::Str => self.heap.string as nat,
            Col::Guid => self.heap.guid as nat,
            Col::Blob => self.heap.blob as nat,
            Col::Simple(t) => if self.rows[t as int] < 0x1_0000 {
                2
            } else {
                4
            },
            Col::HasCustomDebugInfo => if forall|i: int|
                0 <= i < custom_debug_info_tables().len() ==> self.rows[(
                #[trigger] custom_debug_info_tables()[i]) as int] < 0x800 {
                2
            } else {
                4
            },
        }
    }

    /// How wide the first `n` columns of a table are together.
    pub open spec fn columns_width(self, t: usize, n: nat) -> nat
        decreases n,
    {
        if n == 0 {
            0
        } else {
            self.columns_width(t, (n - 1) as nat) + self.width(columns(t)[n - 1])
        }
    }

    /// How wide a row of a table is.
    pub open spec fn row_width(self, t: usize) -> nat {
        self.columns_width(t, columns(t).len())
    }

    /// Where a table starts.
    pub open spec fn table_start(self, t: usize) -> nat
        decreases t,
    {
        if t <= TABLE_DOCUMENT {
            0
        } else {
            let before = (t - 1) as usize;
            self.table_start(before) + self.rows[before as int] as nat * self.row_width(before)
        }
    }

    /// The tables lie within the data.
    pub open spec fn wf(self) -> bool {
        &&& self.rows.len() == 64
        &&& self.heap.string == 2 || self.heap.string == 4
        &&& self.heap.guid == 2 || self.heap.guid == 4
        &&& self.heap.blob == 2 || self.heap.blob == 4
        &&& self.table_start((TABLE_CUSTOM_DEBUG_INFO + 1) as usize) <= self.data.len()
    }

    /// Where a cell starts.
    pub open spec fn cell_start(self, t: usize, row: nat, col: nat) -> nat {
        self.table_start(t) + row * self.row_width(t) + self.columns_width(t, col)
    }

    /// The number in a cell.
    pub open spec fn cell(self, t: usize, row: nat, col: nat) -> u32 {
        let at = self.cell_start(t, row, col) as int;
        if self.width(columns(t)[col as int]) == 2 {
            reader::u16_at(self.data, at)->0 as u32
        } else {
            reader::u32_at(self.data, at)->0
        }
    }
}

/// A table of debug data.
pub open spec fn is_debug_table(t: usize) -> bool {
    TABLE_DOCUMENT <= t <= TABLE_CUSTOM_DEBUG_INFO
}

/// A column is two or four bytes wide.
proof fn lemma_width(m: TablesModel, t: usize, n: nat)
    requires
        m.heap.string == 2 || m.heap.string == 4,
        m.heap.guid == 2 || m.heap.guid == 4,
        m.heap.blob == 2 || m.heap.blob == 4,
        n <= columns(t).len(),
    ensures
        m.columns_width(t, n) <= 4 * n,
        m.columns_width(t, n) <= m.row_width(t),
        n < columns(t).len() ==> m.width(columns(t)[n as int]) == 2 || m.width(
            columns(t)[n as int],
        ) == 4,
        n < columns(t).len() ==> m.columns_width(t, n) + m.width(columns(t)[n as int])
            <= m.row_width(t),
        m.row_width(t) <= 24,
    decreases columns(t).len() - n,
{
    lemma_columns_bound(m, t, n);
    lemma_columns_bound(m, t, columns(t).len());
    if n < columns(t).len() {
        lemma_width(m, t, n + 1);
    }
}

/// The first `n` columns take at most four bytes each.
proof fn lemma_columns_bound(m: TablesModel, t: usize, n: nat)
    requires
        m.heap.string == 2 || m.heap.string == 4,
        m.heap.guid == 2 || m.heap.guid == 4,
        m.heap.blob == 2 || m.heap.blob == 4,
        n <= columns(t).len(),
    ensures
        m.columns_width(t, n) <= 4 * n,
    decreases n,
{
    if n > 0 {
        lemma_columns_bound(m, t, (n - 1) as nat);
    }
}

/// A table ends where the next one starts, and not after the last one ends.
proof fn lemma_table_end(m: TablesModel, t: usize)
    requires
        m.wf(),
        is_debug_table(t),
    ensures
        m.table_start(t) + m.rows[t as int] * m.row_width(t) <= m.data.len(),
    decreases TABLE_CUSTOM_DEBUG_INFO - t,
{
    assert(m.table_start((t + 1) as usize) == m.table_start(t) + m.rows[t as int] * m.row_width(t));
    if t < TABLE_CUSTOM_DEBUG_INFO {
        lemma_table_end(m, (t + 1) as usize);
        let next = (t + 1) as usize;
        assert(m.rows[next as int] * m.row_width(next) >= 0) by (nonlinear_arith);
    }
}

/// A cell of a row of a table lies within the data.
pub proof fn law_cells_are_there(m: TablesModel, t: usize, row: nat, col: nat)
    requires
        m.wf(),
        is_debug_table(t),
        row < m.rows[t as int],
        col < columns(t).len(),
    ensures
        m.width(columns(t)[col as int]) == 2 || m.width(columns(t)[col as int]) == 4,
        m.cell_start(t, row, col) + m.width(columns(t)[col as int]) <= m.data.len(),
{
    lemma_width(m, t, col);
    lemma_table_end(m, t);
    let w = m.row_width(t);
    let n = m.rows[t as int] as nat;
    assert(row * w + w <= n * w) by (nonlinear_arith)
        requires
            row + 1 <= n,
    ;
}

/// The `i`-th column of a table.
pub fn pdb_column(t: usize, i: usize) -> (r: Option<Col>)
    ensures
        match r {
            Some(c) => i < columns(t).len() && c == columns(t)[i as int],
            None => i >= columns(t).len(),
        },
{
    match (t, i) {
        (TABLE_DOCUMENT, 0) => Some(Col::Blob),
        (TABLE_DOCUMENT, 1) => Some(Col::Guid),
        (TABLE_DOCUMENT, 2) => Some(Col::Blob),
        (TABLE_DOCUMENT, 3) => Some(Col::Guid),
        (TABLE_METHOD_DEBUG_INFO, 0) => Some(Col::Simple(TABLE_DOCUMENT)),
        (TABLE_METHOD_DEBUG_INFO, 1) => Some(Col::Blob),
        (TABLE_LOCAL_SCOPE, 0) => Some(Col::Simple(TABLE_METHOD_DEF)),
        (TABLE_LOCAL_SCOPE, 1) => Some(Col::Simple(TABLE_IMPORT_SCOPE)),
        (TABLE_LOCAL_SCOPE, 2) => Some(Col::Simple(TABLE_LOCAL_VARIABLE)),
        (TABLE_LOCAL_SCOPE, 3) => Some(Col::Simple(TABLE_LOCAL_CONSTANT)),
        (TABLE_LOCAL_SCOPE, 4) => Some(Col::U32),
        (TABLE_LOCAL_SCOPE, 5) => Some(Col::U32),
        (TABLE_LOCAL_VARIABLE, 0) => Some(Col::U16),
        (TABLE_LOCAL_VARIABLE, 1) => Some(Col::U16),
        (TABLE_LOCAL_VARIABLE, 2) => Some(Col::Str),
        (TABLE_LOCAL_CONSTANT, 0) => Some(Col::Str),
        (TABLE_LOCAL_CONSTANT, 1) => Some(Col::Blob),
        (TABLE_IMPORT_SCOPE, 0) => Some(Col::Simple(TABLE_IMPORT_SCOPE)),
        (TABLE_IMPORT_SCOPE, 1) => Some(Col::Blob),
        (TABLE_STATE_MACHINE_METHOD, 0) => Some(Col::Simple(TABLE_METHOD_DEF)),
        (TABLE_STATE_MACHINE_METHOD, 1) => Some(Col::Simple(TABLE_METHOD_DEF)),
        (TABLE_CUSTOM_DEBUG_INFO, 0) => Some(Col::HasCustomDebugInfo),
        (TABLE_CUSTOM_DEBUG_INFO, 1) => Some(Col::Guid),
        (TABLE_CUSTOM_DEBUG_INFO, 2) => Some(Col::Blob),
        _ => None,
    }
}

/// The tables of a database.
pub struct Tables<'a> {
    pub rows: Vec<u32>,
    pub heap: HeapWidths,
    pub data: &'a [u8],
}

impl<'a> View for Tables<'a> {
    type V = TablesModel;

    open spec fn view(&self) -> TablesModel {
        TablesModel { rows: self.rows@, heap: self.heap, data: self.data@ }
    }
}

/// How wide the row of one of the tables with custom debug information is.
fn hcdi_width(rows: &Vec<u32>) -> (r: usize)
    requires
        rows@.len() == 64,
    ensures
        r == (if forall|i: int|
            0 <= i < custom_debug_info_tables().len() ==> rows@[(
            #[trigger] custom_debug_info_tables()[i]) as int] < 0x800 {
            2int
        } else {
            4
        }),
{
    let tables: [usize; 27] = [
        0x06, 0x04, 0x01, 0x02, 0x08, 0x09, 0x0A, 0x00, 0x0E, 0x17, 0x14, 0x11, 0x1A, 0x1B, 0x20,
        0x23, 0x26, 0x27, 0x28, 0x2A, 0x2C, 0x2B, 0x30, 0x32, 0x33, 0x34, 0x35,
    ];
    assert(tables@ =~= custom_debug_info_tables());
    let mut i: usize = 0;
    while i < 27
        invariant
            i <= 27,
            rows@.len() == 64,
            tables@ == custom_debug_info_tables(),
            forall|j: int|
                0 <= j < i ==> rows@[(#[trigger] custom_debug_info_tables()[j]) as int] < 0x800,
        decreases 27 - i,
    {
        let t: usize = tables[i];
        assert(t == custom_debug_info_tables()[i as int]);
        if rows[t] >= 0x800 {
            return 4;
        }
        i = i + 1;
    }
    2
}

/// How wide an index into a table with so many rows is.
fn simple_index_width(row_count: u32) -> (r: usize)
    ensures
        r == (if row_count < 0x1_0000 {
            2int
        } else {
            4
        }),
{
    if row_count < 0x1_0000 {
        2
    } else {
        4
    }
}

impl<'a> Tables<'a> {
    /// How wide a column is.
    fn col_width(&self, c: Col) -> (r: usize)
        requires
            self@.rows.len() == 64,
            c matches Col::Simple(t) ==> t < 64,
        ensures
            r == self@.width(c),
    {
        match c {
            Col::U16 => 2,
            Col::U32 => 4,
            Col::Str => self.heap.string,
            Col::Guid => self.heap.guid,
            Col::Blob => self.heap.blob,
            Col::Simple(t) => simple_index_width(self.rows[t]),
            Col::HasCustomDebugInfo => hcdi_width(&self.rows),
        }
    }

    /// How wide the columns of a table are together, at most the first `n`.
    fn columns_width(&self, t: usize, n: usize) -> (r: usize)
        requires
            self@.rows.len() == 64,
            self.heap.string == 2 || self.heap.string == 4,
            self.heap.guid == 2 || self.heap.guid == 4,
            self.heap.blob == 2 || self.heap.blob == 4,
        ensures
            n <= columns(t).len() ==> r == self@.columns_width(t, n as nat),
            n > columns(t).len() ==> r == self@.row_width(t),
            r <= 24,
    {
        let mut total: usize = 0;
        let mut i: usize = 0;
        while i < n
            invariant
                i <= n,
                i <= columns(t).len(),
                self@.rows.len() == 64,
                self.heap.string == 2 || self.heap.string == 4,
                self.heap.guid == 2 || self.heap.guid == 4,
                self.heap.blob == 2 || self.heap.blob == 4,
                total == self@.columns_width(t, i as nat),
                total <= 4 * i,
            decreases n - i,
        {
            match pdb_column(t, i) {
                Some(c) => {
                    proof {
                        lemma_width(self@, t, i as nat);
                    }
                    total = total + self.col_width(c);
                },
                None => {
                    return total;
                },
            }
            i = i + 1;
        }
        total
    }

    /// How wide a row of a table is.
    fn stride(&self, t: usize) -> (r: usize)
        requires
            self@.rows.len() == 64,
            self.heap.string == 2 || self.heap.string == 4,
            self.heap.guid == 2 || self.heap.guid == 4,
            self.heap.blob == 2 || self.heap.blob == 4,
        ensures
            r == self@.row_width(t),
            r <= 24,
    {
        self.columns_width(t, 7)
    }

    /// Where a table starts, unless that is more than can be counted.
    pub fn offset(&self, t: usize) -> (r: Option<usize>)
        requires
            TABLE_DOCUMENT <= t <= TABLE_CUSTOM_DEBUG_INFO + 1,
            self@.rows.len() == 64,
            self.heap.string == 2 || self.heap.string == 4,
            self.heap.guid == 2 || self.heap.guid == 4,
            self.heap.blob == 2 || self.heap.blob == 4,
        ensures
            match r {
                Some(n) => n == self@.table_start(t),
                None => self@.table_start(t) > usize::MAX,
            },
    {
        let mut running: usize = 0;
        let mut u: usize = TABLE_DOCUMENT;
        while u < t
            invariant
                TABLE_DOCUMENT <= u <= t <= TABLE_CUSTOM_DEBUG_INFO + 1,
                self@.rows.len() == 64,
                self.heap.string == 2 || self.heap.string == 4,
                self.heap.guid == 2 || self.heap.guid == 4,
                self.heap.blob == 2 || self.heap.blob == 4,
                running == self@.table_start(u),
            decreases t - u,
        {
            let stride: usize = self.stride(u);
            assert(self@.table_start((u + 1) as usize) == running + self.rows@[u as int]
                * self@.row_width(u));
            proof {
                lemma_start_grows(self@, (u + 1) as usize, t);
            }
            let bytes: usize = match (self.rows[u] as usize).checked_mul(stride) {
                Some(b) => b,
                None => {
                    return None;
                },
            };
            running = match running.checked_add(bytes) {
                Some(n) => n,
                None => {
                    return None;
                },
            };
            u = u + 1;
        }
        Some(running)
    }

    /// The number in a cell.
    pub fn col_value(&self, t: usize, row: u32, col: usize) -> (r: u32)
        requires
            self@.wf(),
            is_debug_table(t),
            row < self@.rows[t as int],
            col < columns(t).len(),
        ensures
            r == self@.cell(t, row as nat, col as nat),
    {
        proof {
            law_cells_are_there(self@, t, row as nat, col as nat);
            lemma_table_end(self@, t);
            lemma_width(self@, t, col as nat);
            let w = self@.row_width(t);
            let n = self@.rows[t as int] as nat;
            assert(row * w <= n * w && 0 <= row * w) by (nonlinear_arith)
                requires
                    0 <= row <= n,
                    0 <= w,
            ;
            assert(self.data.len() <= usize::MAX);
        }
        let start: usize = match self.offset(t) {
            Some(n) => n,
            None => {
                return 0;
            },
        };
        let stride: usize = self.stride(t);
        let at: usize = start + row as usize * stride + self.columns_width(t, col);
        let width: usize = match pdb_column(t, col) {
            Some(c) => self.col_width(c),
            None => {
                return 0;
            },
        };
        if width == 2 {
            match read_u16_at(self.data, at) {
                Some(n) => n as u32,
                None => 0,
            }
        } else {
            match read_u32_at(self.data, at) {
                Some(n) => n,
                None => 0,
            }
        }
    }
}

/// A later table starts later.
proof fn lemma_start_grows(m: TablesModel, t: usize, u: usize)
    requires
        TABLE_DOCUMENT <= t <= u,
    ensures
        m.table_start(t) <= m.table_start(u),
    decreases u,
{
    if t < u {
        lemma_start_grows(m, t, (u - 1) as usize);
        let before = (u - 1) as usize;
        assert(m.rows[before as int] * m.row_width(before) >= 0) by (nonlinear_arith);
    }
}

} // verus!
