use vstd::prelude::*;

verus! {

/// The key of a row: an opaque byte string.
pub type RowKey = Vec<u8>;

/// What a chunk says about the row it belongs to.
#[derive(Clone, Copy, Debug, PartialEq, Eq, Structural)]
pub enum RowStatus {
    /// More chunks of this row follow.
    Continue,
    /// The row is complete and is to be emitted.
    Commit,
    /// The server drops what it sent of this row so far; it will send it again.
    Reset,
}

/// One fragment of a `ReadRows` response.
#[derive(Clone, Debug, PartialEq, Eq)]
pub struct CellChunk {
    /// A non-empty key starts a new row; an empty one continues the open row.
    pub row_key: Vec<u8>,
    /// Sent on the first chunk of a cell only.
    pub family_name: Option<String>,
    /// Present exactly on the first chunk of a cell.
    pub qualifier: Option<Vec<u8>>,
    pub timestamp_micros: i64,
    /// A fragment of the cell's value, appended to what came before.
    pub value: Vec<u8>,
    pub row_status: RowStatus,
}

/// A complete cell of a row.
#[derive(Clone, Debug, PartialEq, Eq)]
pub struct RowCell {
    pub family_name: String,
    pub qualifier: Vec<u8>,
    pub value: Vec<u8>,
    pub timestamp_micros: i64,
}

/// The mathematical value of a `RowCell`.
pub struct CellView {
    pub family_name: Seq<char>,
    pub qualifier: Seq<u8>,
    pub value: Seq<u8>,
    pub timestamp_micros: i64,
}

impl View for RowCell {
    type V = CellView;

    open spec fn view(&self) -> CellView {
        CellView {
            family_name: self.family_name@,
            qualifier: self.qualifier@,
            value: self.value@,
            timestamp_micros: self.timestamp_micros,
        }
    }
}

/// The value of a row: its key and its cells in arrival order.
pub open spec fn row_view(row: (RowKey, Vec<RowCell>)) -> (Seq<u8>, Seq<CellView>) {
    (row.0@, cells_view(row.1@))
}

pub open spec fn cells_view(cells: Seq<RowCell>) -> Seq<CellView> {
    cells.map_values(|c: RowCell| c@)
}

pub open spec fn rows_view(rows: Seq<(RowKey, Vec<RowCell>)>) -> Seq<(Seq<u8>, Seq<CellView>)> {
    rows.map_values(|r: (RowKey, Vec<RowCell>)| row_view(r))
}

/// A protocol irregularity that decoding tolerates and reports.
#[derive(Clone, Copy, Debug, PartialEq, Eq, Structural)]
pub enum Anomaly {
    /// A commit arrived while no cell was being accumulated.
    CommitWithoutCell,
    /// A commit arrived while no row key was known; its cells were dropped.
    CommitWithoutRowKey,
}

/// A length of time, as whole seconds and the nanoseconds beyond them.
#[derive(Clone, Copy, Debug, PartialEq, Eq, Structural)]
pub struct TimeSpan {
    pub secs: u64,
    pub subsec_nanos: u32,
}

pub const NANOS_PER_SEC: u32 = 1_000_000_000;

impl TimeSpan {
    pub open spec fn wf(&self) -> bool {
        self.subsec_nanos < NANOS_PER_SEC
    }

    /// The span in nanoseconds.
    pub open spec fn nanos(&self) -> int {
        self.secs * NANOS_PER_SEC + self.subsec_nanos
    }

    pub fn new(secs: u64, subsec_nanos: u32) -> (r: TimeSpan)
        requires
            subsec_nanos < NANOS_PER_SEC,
        ensures
            r.wf(),
            r.secs == secs,
            r.subsec_nanos == subsec_nanos,
    {
        TimeSpan { secs, subsec_nanos }
    }

    /// Whether this span is strictly longer than `other`.
    pub fn exceeds(&self, other: &TimeSpan) -> (r: bool)
        requires
            self.wf(),
            other.wf(),
        ensures
            r == (self.nanos() > other.nanos()),
    {
        proof {
            let (a, b, c, d) = (self.secs as int, self.subsec_nanos as int, other.secs as int, other.subsec_nanos as int);
            let n = NANOS_PER_SEC as int;
            assert(a > c ==> a * n + b > c * n + d) by (nonlinear_arith)
                requires 0 <= b < n, 0 <= d < n, n > 0;
            assert(a < c ==> a * n + b < c * n + d) by (nonlinear_arith)
                requires 0 <= b < n, 0 <= d < n, n > 0;
        }
        self.secs > other.secs || (self.secs == other.secs && self.subsec_nanos > other.subsec_nanos)
    }
}

} // verus!
