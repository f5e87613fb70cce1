//! The row-by-row partitioning as a state machine.
//!
//! A caller drives the planner in a loop: it asks for the next [`Action`],
//! performs it on its own geometry, and reports back. A comparison is
//! answered with [`RowPlanner::record_comparison`]; a committed row is
//! acknowledged with [`RowPlanner::commit_row`]. Every report brings the
//! planner strictly closer to [`Action::Finish`].

use vstd::prelude::*;
use crate::rows::{covered, rows_nonempty, laid_out, index_range, lemma_rows_follow_weights};

verus! {

/// What the caller is to do next.
#[derive(Clone, Copy, Debug, PartialEq, Eq, Structural)]
pub enum Action {
    /// Compare the worst aspect ratio of the weights `start..candidate_end`,
    /// laid out as one row on the current strip, with that of the weights
    /// `start..baseline_end` (the row's first weight alone), and report
    /// whether the candidate's is no larger.
    Compare { start: usize, candidate_end: usize, baseline_end: usize },
    /// Lay the weights `start..end` out as one row on the current strip, and
    /// continue on the strip that is left over.
    Commit { start: usize, end: usize },
    /// Every weight has its rectangle.
    Finish,
}

/// The planner's state as plain values.
pub ghost struct PlanView {
    /// Number of weights to lay out.
    pub len: usize,
    /// Index of the first weight of the row being grown.
    pub start: usize,
    /// Length of the candidate row.
    pub row_len: usize,
    /// Whether the candidate row has stopped growing.
    pub fixed: bool,
    /// Lengths of the rows committed so far, in order.
    pub rows: Seq<usize>,
}

impl PlanView {
    pub open spec fn wf(self) -> bool {
        &&& self.start <= self.len
        &&& self.row_len >= 1
        &&& self.start < self.len ==> self.start + self.row_len <= self.len
        &&& self.fixed ==> self.start < self.len
        &&& self.start == self.len ==> self.row_len == 1
        &&& covered(self.rows) == self.start
        &&& rows_nonempty(self.rows)
    }

    /// The action that the state calls for.
    pub open spec fn action(self) -> Action {
        if self.start == self.len {
            Action::Finish
        } else if self.fixed || self.start + self.row_len == self.len {
            Action::Commit { start: self.start, end: (self.start + self.row_len) as usize }
        } else {
            Action::Compare {
                start: self.start,
                candidate_end: (self.start + self.row_len + 1) as usize,
                baseline_end: (self.start + 1) as usize,
            }
        }
    }

    /// An upper bound on the number of reports before the plan finishes.
    pub open spec fn steps_left(self) -> int {
        3 * (self.len - self.start) - self.row_len + if self.fixed {
            0int
        } else {
            1int
        }
    }
}

/// Plans the rows of a squarified layout of `len` weights.
pub struct RowPlanner {
    len: usize,
    start: usize,
    row_len: usize,
    fixed: bool,
    rows: Vec<usize>,
}

impl View for RowPlanner {
    type V = PlanView;

    closed spec fn view(&self) -> PlanView {
        PlanView {
            len: self.len,
            start: self.start,
            row_len: self.row_len,
            fixed: self.fixed,
            rows: self.rows@,
        }
    }
}

impl RowPlanner {
    /// A planner for `len` weights, about to grow the first row from its
    /// first weight.
    pub fn new(len: usize) -> (r: RowPlanner)
        ensures
            r@.wf(),
            r@.len == len,
            r@.start == 0,
            r@.row_len == 1,
            !r@.fixed,
            r@.rows == Seq::<usize>::empty(),
    {
        RowPlanner { len, start: 0, row_len: 1, fixed: false, rows: Vec::new() }
    }

    /// The action that the current state calls for.
    pub fn next_action(&self) -> (a: Action)
        requires
            self@.wf(),
        ensures
            a == self@.action(),
    {
        if self.start == self.len {
            Action::Finish
        } else if self.fixed || self.row_len == self.len - self.start {
            Action::Commit { start: self.start, end: self.start + self.row_len }
        } else {
            Action::Compare {
                start: self.start,
                candidate_end: self.start + self.row_len + 1,
                baseline_end: self.start + 1,
            }
        }
    }

    /// Reports the outcome of the comparison that [`Action::Compare`] asked
    /// for: `not_worse` tells whether the row extended by its next weight has
    /// a worst ratio no larger than its first weight alone. If so the row
    /// grows by that weight (ties grow it); else it is fixed at its current
    /// length.
    pub fn record_comparison(&mut self, not_worse: bool)
        requires
            old(self)@.wf(),
            old(self)@.action() is Compare,
        ensures
            final(self)@.wf(),
            final(self)@ == (if not_worse {
                PlanView { row_len: (old(self)@.row_len + 1) as usize, ..old(self)@ }
            } else {
                PlanView { fixed: true, ..old(self)@ }
            }),
            final(self)@.steps_left() < old(self)@.steps_left(),
    {
        if not_worse {
            self.row_len = self.row_len + 1;
        } else {
            self.fixed = true;
        }
    }

    /// Acknowledges that the row that [`Action::Commit`] named has been laid
    /// out. The next row starts with the weight after it.
    pub fn commit_row(&mut self)
        requires
            old(self)@.wf(),
            old(self)@.action() is Commit,
        ensures
            final(self)@.wf(),
            final(self)@ == (PlanView {
                start: (old(self)@.start + old(self)@.row_len) as usize,
                row_len: 1,
                fixed: false,
                rows: old(self)@.rows.push(old(self)@.row_len),
                ..old(self)@
            }),
            final(self)@.steps_left() < old(self)@.steps_left(),
    {
        let ghost before = self.rows@;
        self.rows.push(self.row_len);
        assert(self.rows@.drop_last() =~= before);
        self.start = self.start + self.row_len;
        self.row_len = 1;
        self.fixed = false;
    }

    /// The lengths of the rows committed so far, in order.
    pub fn rows(&self) -> (r: &Vec<usize>)
        ensures
            r@ == self@.rows,
    {
        &self.rows
    }
}

/// A finished plan lays out every weight exactly once, in input order: the
/// i-th rectangle belongs to the i-th weight, and there are as many
/// rectangles as weights.
pub proof fn lemma_finished_plan_in_order(p: PlanView)
    requires
        p.wf(),
        p.action() is Finish,
    ensures
        laid_out(p.rows) == index_range(0, p.len as int),
        laid_out(p.rows).len() == p.len,
{
    lemma_rows_follow_weights(p.rows);
}

/// At every step the committed rows have produced one rectangle per weight
/// before `start`, the i-th rectangle for the i-th weight.
pub proof fn lemma_plan_in_order(p: PlanView)
    requires
        p.wf(),
    ensures
        laid_out(p.rows) == index_range(0, p.start as int),
        laid_out(p.rows).len() == p.start,
{
    lemma_rows_follow_weights(p.rows);
}

/// The count of reports left never drops below zero, and reaches zero
/// exactly when the plan is finished. As each report lowers it, a caller that
/// follows the actions reaches [`Action::Finish`].
pub proof fn lemma_plan_terminates(p: PlanView)
    requires
        p.wf(),
    ensures
        p.steps_left() >= 0,
        p.steps_left() == 0 <==> p.action() is Finish,
{
}

} // verus!
