//! Rows as runs of consecutive weight indices.

use vstd::prelude::*;

verus! {

/// Number of weights that the rows hold altogether.
pub open spec fn covered(rows: Seq<usize>) -> int
    decreases rows.len(),
{
    if rows.len() == 0 {
        0
    } else {
        covered(rows.drop_last()) + rows.last()
    }
}

/// Every row holds at least one weight.
pub open spec fn rows_nonempty(rows: Seq<usize>) -> bool {
    forall|k: int| 0 <= k < rows.len() ==> rows[k] >= 1
}

/// The indices `lo, lo + 1, ..., hi - 1`.
pub open spec fn index_range(lo: int, hi: int) -> Seq<int> {
    Seq::new((hi - lo) as nat, |i: int| lo + i)
}

/// The weight index of each rectangle, in the order in which the rows
/// produce them: row after row, each row's weights in turn.
pub open spec fn laid_out(rows: Seq<usize>) -> Seq<int>
    decreases rows.len(),
{
    if rows.len() == 0 {
        Seq::empty()
    } else {
        let before = rows.drop_last();
        laid_out(before) + index_range(covered(before), covered(rows))
    }
}

/// The rows hold no fewer weights as more rows are added.
pub proof fn lemma_covered_nonneg(rows: Seq<usize>)
    ensures
        covered(rows) >= 0,
    decreases rows.len(),
{
    if rows.len() > 0 {
        lemma_covered_nonneg(rows.drop_last());
    }
}

/// Rows laid out one after another produce one rectangle per weight, and the
/// i-th rectangle belongs to the i-th weight: the layout neither drops,
/// repeats nor reorders weights.
pub proof fn lemma_rows_follow_weights(rows: Seq<usize>)
    ensures
        laid_out(rows) == index_range(0, covered(rows)),
        laid_out(rows).len() == covered(rows),
    decreases rows.len(),
{
    lemma_covered_nonneg(rows);
    if rows.len() > 0 {
        let before = rows.drop_last();
        lemma_rows_follow_weights(before);
        lemma_covered_nonneg(before);
        assert(laid_out(rows) =~= index_range(0, covered(rows)));
    } else {
        assert(laid_out(rows) =~= index_range(0, covered(rows)));
    }
}

} // verus!
