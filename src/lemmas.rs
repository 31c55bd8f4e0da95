use vstd::prelude::*;
use crate::assembler::{StateView, absorb, anomalies, close_pending, empty_state, run, step};
use crate::types::{Anomaly, CellChunk, RowStatus};

verus! {

/// The number of chunks in `cs` that commit a row.
pub open spec fn commit_count(cs: Seq<CellChunk>) -> nat
    decreases cs.len(),
{
    if cs.len() == 0 {
        0
    } else {
        commit_count(cs.drop_last()) + if cs.last().row_status == RowStatus::Commit {
            1nat
        } else {
            0nat
        }
    }
}

/// Every commit in `cs`, folded from state `s`, finds a row key to file its
/// row under.
pub open spec fn commits_find_row(s: StateView, cs: Seq<CellChunk>) -> bool {
    forall|i: int|
        0 <= i < cs.len() && (#[trigger] cs[i]).row_status == RowStatus::Commit ==> absorb(
            run(s, cs.take(i)).0,
            cs[i],
        ).row_key is Some
}

proof fn lemma_commits_find_row_prefix(s: StateView, cs: Seq<CellChunk>, j: int)
    requires
        0 <= j <= cs.len(),
        commits_find_row(s, cs),
    ensures
        commits_find_row(s, cs.take(j)),
{
    let p = cs.take(j);
    assert forall|i: int| 0 <= i < p.len() && (#[trigger] p[i]).row_status == RowStatus::Commit implies absorb(
        run(s, p.take(i)).0,
        p[i],
    ).row_key is Some by {
        assert(p.take(i) =~= cs.take(i));
        assert(p[i] == cs[i]);
    }
}

/// The rows of a prefix of the chunks are a prefix of the rows of all of them.
proof fn lemma_run_prefix(s: StateView, cs: Seq<CellChunk>, j: int)
    requires
        0 <= j <= cs.len(),
    ensures
        run(s, cs.take(j)).1.len() <= run(s, cs).1.len(),
        run(s, cs.take(j)).1 == run(s, cs).1.take(run(s, cs.take(j)).1.len() as int),
    decreases cs.len(),
{
    if j == cs.len() {
        assert(cs.take(j) =~= cs);
        assert(run(s, cs).1.take(run(s, cs).1.len() as int) =~= run(s, cs).1);
    } else {
        let p = cs.drop_last();
        lemma_run_prefix(s, p, j);
        assert(p.take(j) =~= cs.take(j));
        let short = run(s, cs.take(j)).1;
        assert(run(s, cs).1.take(short.len() as int) =~= run(s, p).1.take(short.len() as int));
    }
}

proof fn lemma_row_count(s: StateView, cs: Seq<CellChunk>)
    requires
        commits_find_row(s, cs),
    ensures
        run(s, cs).1.len() == commit_count(cs),
    decreases cs.len(),
{
    if cs.len() > 0 {
        let p = cs.drop_last();
        let i = cs.len() - 1;
        assert(cs.take(cs.len() - 1) =~= p);
        lemma_commits_find_row_prefix(s, cs, cs.len() - 1);
        lemma_row_count(s, p);
        if cs[i].row_status == RowStatus::Commit {
            assert(absorb(run(s, cs.take(i)).0, cs[i]).row_key is Some);
        }
    }
}

/// Each commit yields one row, and the rows come out in the order of their
/// commits: where every commit finds a row key, there are as many rows as
/// commits, and the row that the commit at index `i` completes stands at the
/// index given by the number of commits before `i`.
pub proof fn lemma_rows_follow_commits(s: StateView, cs: Seq<CellChunk>)
    requires
        commits_find_row(s, cs),
    ensures
        run(s, cs).1.len() == commit_count(cs),
        forall|i: int|
            0 <= i < cs.len() && (#[trigger] cs[i]).row_status == RowStatus::Commit ==> step(
                run(s, cs.take(i)).0,
                cs[i],
            ).1 == Some(run(s, cs).1[commit_count(cs.take(i)) as int]),
{
    lemma_row_count(s, cs);
    assert forall|i: int|
        0 <= i < cs.len() && (#[trigger] cs[i]).row_status == RowStatus::Commit implies step(
            run(s, cs.take(i)).0,
            cs[i],
        ).1 == Some(run(s, cs).1[commit_count(cs.take(i)) as int]) by {
        let q = cs.take(i + 1);
        assert(q.drop_last() =~= cs.take(i));
        assert(q.last() == cs[i]);
        lemma_commits_find_row_prefix(s, cs, i);
        lemma_row_count(s, cs.take(i));
        lemma_run_prefix(s, cs, i + 1);
        let pre = run(s, cs.take(i));
        let row = step(pre.0, cs[i]).1;
        assert(absorb(pre.0, cs[i]).row_key is Some);
        assert(close_pending(absorb(pre.0, cs[i])).row_key is Some);
        assert(row is Some);
        assert(run(s, q).1 == pre.1 + seq![row.unwrap()]);
        let k = commit_count(cs.take(i)) as int;
        assert(run(s, q).1[k] == row.unwrap());
        assert(run(s, cs).1.take(run(s, q).1.len() as int)[k] == run(s, cs).1[k]);
    }
}

/// Decoding is deterministic: the same chunks, folded from the empty state,
/// give the same rows, the same final state and the same irregularities.
pub proof fn lemma_decoding_deterministic(a: Seq<CellChunk>, b: Seq<CellChunk>)
    requires
        a == b,
    ensures
        run(empty_state(), a) == run(empty_state(), b),
{
}

/// A commit that finds no cell pending still emits the open row, with the
/// cells closed before it, and records the irregularity.
pub proof fn lemma_commit_without_cell(s: StateView, c: CellChunk)
    requires
        c.row_status == RowStatus::Commit,
        absorb(s, c).qualifier is None,
        absorb(s, c).row_key is Some,
    ensures
        step(s, c).1 == Some((absorb(s, c).row_key.unwrap(), absorb(s, c).cells)),
        anomalies(s, c) == seq![Anomaly::CommitWithoutCell],
{
    assert(close_pending(absorb(s, c)) == absorb(s, c));
    assert(anomalies(s, c) =~= seq![Anomaly::CommitWithoutCell]);
}

/// Folding two runs of chunks one after the other is folding their
/// concatenation.
pub proof fn lemma_run_concat(s: StateView, a: Seq<CellChunk>, b: Seq<CellChunk>)
    ensures
        run(s, a + b).0 == run(run(s, a).0, b).0,
        run(s, a + b).1 == run(s, a).1 + run(run(s, a).0, b).1,
        run(s, a + b).2 == run(s, a).2 + run(run(s, a).0, b).2,
    decreases b.len(),
{
    if b.len() == 0 {
        assert(a + b =~= a);
        assert(run(s, a).1 + run(run(s, a).0, b).1 =~= run(s, a).1);
        assert(run(s, a).2 + run(run(s, a).0, b).2 =~= run(s, a).2);
    } else {
        lemma_run_concat(s, a, b.drop_last());
        assert((a + b).drop_last() =~= a + b.drop_last());
        assert((a + b).last() == b.last());
        let mid = run(s, a).0;
        assert(run(s, a + b).1 =~= run(s, a).1 + run(mid, b).1);
        assert(run(s, a + b).2 =~= run(s, a).2 + run(mid, b).2);
    }
}

/// A reset discards all progress on the open row: whatever came before it, the
/// chunks after a reset give the rows they would give from the empty state.
pub proof fn lemma_reset_discards_progress(
    s: StateView,
    before: Seq<CellChunk>,
    reset: CellChunk,
    after: Seq<CellChunk>,
)
    requires
        reset.row_status == RowStatus::Reset,
    ensures
        run(s, before.push(reset) + after).1 == run(s, before).1 + run(empty_state(), after).1,
{
    lemma_run_concat(s, before.push(reset), after);
    assert(before.push(reset).drop_last() =~= before);
    assert(run(s, before.push(reset)).0 == empty_state());
    assert(run(s, before.push(reset)).1 =~= run(s, before).1);
}

} // verus!
