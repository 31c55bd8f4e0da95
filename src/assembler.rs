use vstd::prelude::*;
use crate::types::{Anomaly, CellChunk, CellView, RowCell, RowKey, RowStatus, cells_view, row_view, rows_view};

verus! {

/// The partial row and the partial cell that the assembler holds between chunks.
///
/// A pending qualifier is the one sign that a cell is being accumulated; the
/// family name, timestamp and value buffer then belong to that cell.
pub struct AssemblyState {
    pub row_key: Option<RowKey>,
    pub row_cells: Vec<RowCell>,
    pub family_name: Option<String>,
    pub qualifier: Option<Vec<u8>>,
    pub timestamp_micros: i64,
    pub value: Vec<u8>,
}

/// The mathematical value of an `AssemblyState`.
pub struct StateView {
    pub row_key: Option<Seq<u8>>,
    pub cells: Seq<CellView>,
    pub family_name: Option<Seq<char>>,
    pub qualifier: Option<Seq<u8>>,
    pub timestamp_micros: i64,
    pub value: Seq<u8>,
}

impl View for AssemblyState {
    type V = StateView;

    open spec fn view(&self) -> StateView {
        StateView {
            row_key: bytes_opt_view(self.row_key),
            cells: cells_view(self.row_cells@),
            family_name: string_opt_view(self.family_name),
            qualifier: bytes_opt_view(self.qualifier),
            timestamp_micros: self.timestamp_micros,
            value: self.value@,
        }
    }
}

pub open spec fn bytes_opt_view(o: Option<Vec<u8>>) -> Option<Seq<u8>> {
    match o {
        Some(v) => Some(v@),
        None => None,
    }
}

pub open spec fn string_opt_view(o: Option<String>) -> Option<Seq<char>> {
    match o {
        Some(s) => Some(s@),
        None => None,
    }
}

/// The state in which decoding starts: no row open, no cell pending.
pub open spec fn empty_state() -> StateView {
    StateView {
        row_key: None,
        cells: Seq::empty(),
        family_name: None,
        qualifier: None,
        timestamp_micros: 0,
        value: Seq::empty(),
    }
}

/// Closes the pending cell, if there is one: it joins the row's cells, with an
/// empty family name where none was sent, and the value buffer starts afresh.
pub open spec fn close_pending(s: StateView) -> StateView {
    match s.qualifier {
        Some(q) => StateView {
            cells: s.cells.push(
                CellView {
                    family_name: match s.family_name {
                        Some(f) => f,
                        None => Seq::empty(),
                    },
                    qualifier: q,
                    value: s.value,
                    timestamp_micros: s.timestamp_micros,
                },
            ),
            family_name: None,
            qualifier: None,
            value: Seq::empty(),
            ..s
        },
        None => s,
    }
}

/// The state once the row key, the cell start and the value fragment of `c`
/// are taken in, before its row status is acted on.
pub open spec fn absorb(s: StateView, c: CellChunk) -> StateView {
    let keyed = if c.row_key@.len() > 0 {
        StateView { row_key: Some(c.row_key@), ..s }
    } else {
        s
    };
    let started = match c.qualifier {
        Some(q) => StateView {
            family_name: string_opt_view(c.family_name),
            qualifier: Some(q@),
            timestamp_micros: c.timestamp_micros,
            ..close_pending(keyed)
        },
        None => keyed,
    };
    StateView { value: started.value + c.value@, ..started }
}

/// One transition of the assembler: the next state, and the row that `c`
/// completes, if any.
///
/// A commit closes the pending cell and emits the open row; with no row key
/// known, the row's cells are dropped. A reset drops everything assembled for
/// the open row, the pending cell and its value buffer included, so nothing of
/// it can reach the row that follows.
pub open spec fn step(s: StateView, c: CellChunk) -> (StateView, Option<(Seq<u8>, Seq<CellView>)>) {
    let a = absorb(s, c);
    match c.row_status {
        RowStatus::Continue => (a, None),
        RowStatus::Commit => {
            let closed = close_pending(a);
            (
                StateView { row_key: None, cells: Seq::empty(), ..closed },
                match closed.row_key {
                    Some(k) => Some((k, closed.cells)),
                    None => None,
                },
            )
        },
        RowStatus::Reset => (empty_state(), None),
    }
}

/// The irregularities that `c` shows when it arrives in state `s`.
pub open spec fn anomalies(s: StateView, c: CellChunk) -> Seq<Anomaly> {
    let a = absorb(s, c);
    if c.row_status == RowStatus::Commit {
        (if a.qualifier is None {
            seq![Anomaly::CommitWithoutCell]
        } else {
            Seq::empty()
        }) + (if a.row_key is None {
            seq![Anomaly::CommitWithoutRowKey]
        } else {
            Seq::empty()
        })
    } else {
        Seq::empty()
    }
}

pub open spec fn opt_seq<T>(o: Option<T>) -> Seq<T> {
    match o {
        Some(x) => seq![x],
        None => Seq::empty(),
    }
}

/// Folds the chunks `cs` into state `s`, in order: the final state, the rows
/// completed, and the irregularities met on the way.
pub open spec fn run(s: StateView, cs: Seq<CellChunk>) -> (
    StateView,
    Seq<(Seq<u8>, Seq<CellView>)>,
    Seq<Anomaly>,
)
    decreases cs.len(),
{
    if cs.len() == 0 {
        (s, Seq::empty(), Seq::empty())
    } else {
        let (s1, rows, found) = run(s, cs.drop_last());
        let (s2, row) = step(s1, cs.last());
        (s2, rows + opt_seq(row), found + anomalies(s1, cs.last()))
    }
}

impl AssemblyState {
    pub fn new() -> (r: AssemblyState)
        ensures
            r@ == empty_state(),
    {
        let r = AssemblyState {
            row_key: None,
            row_cells: Vec::new(),
            family_name: None,
            qualifier: None,
            timestamp_micros: 0,
            value: Vec::new(),
        };
        assert(r@.cells =~= Seq::<CellView>::empty());
        r
    }

    fn close_pending_cell(&mut self)
        ensures
            final(self)@ == close_pending(old(self)@),
    {
        if let Some(q) = self.qualifier.take() {
            let family_name = match self.family_name.take() {
                Some(f) => f,
                None => String::new(),
            };
            let mut value = Vec::new();
            std::mem::swap(&mut value, &mut self.value);
            let cell = RowCell { family_name, qualifier: q, value, timestamp_micros: self.timestamp_micros };
            self.row_cells.push(cell);
            assert(self@.cells =~= close_pending(old(self)@).cells);
        }
    }

    /// Takes in one chunk. A completed row is returned; irregularities are
    /// appended to `found`.
    pub fn push_chunk(&mut self, chunk: CellChunk, found: &mut Vec<Anomaly>) -> (r: Option<(RowKey, Vec<RowCell>)>)
        ensures
            (final(self)@, match r {
                Some(row) => Some(row_view(row)),
                None => None,
            }) == step(old(self)@, chunk),
            final(found)@ == old(found)@ + anomalies(old(self)@, chunk),
    {
        let ghost c = chunk;
        let CellChunk { row_key, family_name, qualifier, timestamp_micros, mut value, row_status } = chunk;
        if row_key.len() > 0 {
            self.row_key = Some(row_key);
        }
        if let Some(q) = qualifier {
            self.close_pending_cell();
            self.qualifier = Some(q);
            self.family_name = family_name;
            self.timestamp_micros = timestamp_micros;
        }
        self.value.append(&mut value);
        assert(self@ == absorb(old(self)@, c));
        match row_status {
            RowStatus::Continue => {
                assert(found@ =~= old(found)@ + anomalies(old(self)@, c));
                None
            },
            RowStatus::Commit => {
                if self.qualifier.is_none() {
                    found.push(Anomaly::CommitWithoutCell);
                }
                if self.row_key.is_none() {
                    found.push(Anomaly::CommitWithoutRowKey);
                }
                assert(found@ =~= old(found)@ + anomalies(old(self)@, c));
                self.close_pending_cell();
                let mut cells = Vec::new();
                std::mem::swap(&mut cells, &mut self.row_cells);
                assert(self@.cells =~= Seq::<CellView>::empty());
                match self.row_key.take() {
                    Some(k) => Some((k, cells)),
                    None => None,
                }
            },
            RowStatus::Reset => {
                assert(found@ =~= old(found)@ + anomalies(old(self)@, c));
                *self = AssemblyState::new();
                None
            },
        }
    }

    /// Takes in a batch of chunks, in order. Completed rows are appended to
    /// `rows`, irregularities to `found`.
    pub fn push_batch(&mut self, chunks: Vec<CellChunk>, rows: &mut Vec<(RowKey, Vec<RowCell>)>, found: &mut Vec<Anomaly>)
        ensures
            final(self)@ == run(old(self)@, chunks@).0,
            rows_view(final(rows)@) == rows_view(old(rows)@) + run(old(self)@, chunks@).1,
            final(found)@ == old(found)@ + run(old(self)@, chunks@).2,
    {
        let ghost s0 = self@;
        let ghost rows0 = rows_view(rows@);
        let ghost found0 = found@;
        let ghost all = chunks@;
        for chunk in it: chunks.into_iter()
            invariant
                it.seq() == all,
                self@ == run(s0, all.take(it.index() as int)).0,
                rows_view(rows@) == rows0 + run(s0, all.take(it.index() as int)).1,
                found@ == found0 + run(s0, all.take(it.index() as int)).2,
        {
            let ghost i = it.index() as int;
            assert(all.take(i + 1).drop_last() =~= all.take(i));
            let ghost prev = rows@;
            let row = self.push_chunk(chunk, found);
            if let Some(r) = row {
                rows.push(r);
                assert(rows_view(rows@) =~= rows_view(prev).push(row_view(r)));
            } else {
                assert(rows_view(rows@) =~= rows_view(prev));
            }
            assert(rows_view(rows@) =~= rows0 + run(s0, all.take(i + 1)).1);
            assert(found@ =~= found0 + run(s0, all.take(i + 1)).2);
        }
        assert(all.take(all.len() as int) =~= all);
    }
}

/// Assembles the rows of a whole stream of chunks, from the empty state. What
/// is still open when the chunks run out is dropped.
pub fn assemble(chunks: Vec<CellChunk>) -> (rows: Vec<(RowKey, Vec<RowCell>)>)
    ensures
        rows_view(rows@) == run(empty_state(), chunks@).1,
{
    let mut state = AssemblyState::new();
    let mut rows = Vec::new();
    let mut found = Vec::new();
    state.push_batch(chunks, &mut rows, &mut found);
    assert(rows_view(Seq::<(RowKey, Vec<RowCell>)>::empty()) =~= Seq::empty());
    assert(rows_view(rows@) =~= run(empty_state(), chunks@).1);
    rows
}

} // verus!
