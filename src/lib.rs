//! Squarified treemap layout: the decisions of the recursive row partitioning.
//!
//! The squarified algorithm lays a sequence of weights out as rows (or
//! columns) of rectangles. Each row is a run of consecutive weights: the row
//! grows one weight at a time for as long as the worst aspect ratio of the
//! grown row is no larger than that of its first weight alone; then it is
//! committed and the next row starts on the leftover strip.
//!
//! The geometry itself is arithmetic on real numbers that the caller carries
//! out. This crate holds the partitioning logic as a verified state machine:
//! [`planner::RowPlanner`] says which prefixes to compare and which rows to
//! commit, and proves that the committed rows cover every weight exactly once
//! and in input order, and that the process ends.

pub mod rows;
pub mod planner;
