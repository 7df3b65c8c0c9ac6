//! The cursor over the sub-columns of one row of a table or of a struct
//! column: a key, then its value, column after column.

use crate::column::{
    ColumnView, frame_columns, frame_view, rows_in, series_clone, series_len, series_name, views,
};
use crate::deser_root::SeriesDeserItem;
use polars::frame::DataFrame;
use polars::series::Series;
use std::rc::Rc;
use vstd::prelude::*;

verus! {

/// A cursor over an ordered list of named sub-columns at one fixed row.
/// The list is shared, never copied: cursors made from one `Rc` read the
/// same columns, and each keeps its own position. A value is given only
/// for a key that was given before it, and once.
pub struct PlRowImplMapAccess {
    stack: Rc<Vec<Series>>,
    map_value_idx: usize,
    row_idx: usize,
    key_given: bool,
}

impl PlRowImplMapAccess {
    /// The sub-columns, in their order.
    pub closed spec fn columns(&self) -> Seq<ColumnView> {
        views(self.stack@)
    }

    /// The index of the sub-column that `next_key` names.
    pub closed spec fn position(&self) -> int {
        self.map_value_idx as int
    }

    /// The row that every value is read at.
    pub closed spec fn row(&self) -> int {
        self.row_idx as int
    }

    /// Whether a key was given whose value was not asked for yet.
    pub closed spec fn key_pending(&self) -> bool {
        self.key_given
    }

    /// The position is at most the number of sub-columns, and a key is
    /// pending only for a sub-column that is there.
    pub closed spec fn wf(&self) -> bool {
        &&& self.map_value_idx <= self.stack.len()
        &&& self.key_given ==> self.map_value_idx < self.stack.len()
    }

    /// The fixed row is a row of every sub-column.
    pub open spec fn rows_valid(&self) -> bool {
        rows_in(self.columns(), self.row())
    }

    /// Whether the fixed row is a row of every sub-column. The storage
    /// does not promise that the columns of a table or of a struct are
    /// of one length, so each is asked.
    pub fn rows_present(&self) -> (r: bool)
        ensures
            r == self.rows_valid(),
    {
        let mut i: usize = 0;
        while i < self.stack.len()
            invariant
                i <= self.stack.len(),
                forall|j: int| 0 <= j < i ==> self.row() < (#[trigger] self.columns()[j]).cells.len(),
            decreases self.stack.len() - i,
        {
            if self.row_idx >= series_len(&self.stack[i]) {
                assert(!(self.row() < self.columns()[i as int].cells.len()));
                return false;
            }
            i += 1;
        }
        true
    }

    /// A cursor over the columns of `df` at `row_idx`, before the first
    /// column.
    pub fn new(df: &DataFrame, row_idx: usize) -> (r: Self)
        ensures
            r.wf(),
            r.columns() == frame_view(*df),
            r.position() == 0,
            r.row() == row_idx,
            !r.key_pending(),
    {
        let stack = frame_columns(df);
        PlRowImplMapAccess { stack: Rc::new(stack), map_value_idx: 0, row_idx, key_given: false }
    }

    /// A cursor over `stack` at row 0, before the first column.
    pub fn from_series_vec(stack: Rc<Vec<Series>>) -> (r: Self)
        ensures
            r.wf(),
            r.columns() == views(stack@),
            r.position() == 0,
            r.row() == 0,
            !r.key_pending(),
    {
        PlRowImplMapAccess { stack, map_value_idx: 0, row_idx: 0, key_given: false }
    }

    /// A cursor over `stack` at `row_idx`, before the first column.
    pub fn at_row(stack: Rc<Vec<Series>>, row_idx: usize) -> (r: Self)
        ensures
            r.wf(),
            r.columns() == views(stack@),
            r.position() == 0,
            r.row() == row_idx,
            !r.key_pending(),
    {
        PlRowImplMapAccess { stack, map_value_idx: 0, row_idx, key_given: false }
    }

    /// Whether a sub-column is left.
    pub fn has_next(&self) -> (more: bool)
        requires
            self.wf(),
        ensures
            more == (self.position() < self.columns().len()),
    {
        self.map_value_idx < self.stack.len()
    }

    /// Whether a key was given whose value was not asked for yet:
    /// `next_value` may be called exactly where this holds.
    pub fn has_key(&self) -> (pending: bool)
        ensures
            pending == self.key_pending(),
    {
        self.key_given
    }

    /// The fixed row.
    pub fn row_idx(&self) -> (row: usize)
        ensures
            row == self.row(),
    {
        self.row_idx
    }

    /// The number of sub-columns.
    pub fn len(&self) -> (n: usize)
        ensures
            n == self.columns().len(),
    {
        self.stack.len()
    }

    /// The name of the sub-column at the position, or `None` behind the
    /// last. The cursor does not move; it notes that a key was given.
    pub fn next_key(&mut self) -> (r: Option<String>)
        requires
            old(self).wf(),
        ensures
            final(self).wf(),
            final(self).columns() == old(self).columns(),
            final(self).row() == old(self).row(),
            final(self).position() == old(self).position(),
            final(self).key_pending() == (r is Some),
            old(self).position() < old(self).columns().len() ==> r is Some && r->0@
                == old(self).columns()[old(self).position()].name,
            old(self).position() >= old(self).columns().len() ==> r is None,
    {
        if self.map_value_idx < self.stack.len() {
            self.key_given = true;
            Some(series_name(&self.stack[self.map_value_idx]))
        } else {
            self.key_given = false;
            None
        }
    }

    /// The row view of the sub-column at the position, whose key was
    /// given; the cursor moves on by one and waits for the next key. A
    /// caller that asks for a value without its key, or a second time,
    /// breaks the contract.
    pub fn next_value(&mut self) -> (r: SeriesDeserItem)
        requires
            old(self).wf(),
            old(self).key_pending(),
        ensures
            final(self).wf(),
            !final(self).key_pending(),
            old(self).position() < old(self).columns().len(),
            final(self).columns() == old(self).columns(),
            final(self).row() == old(self).row(),
            final(self).position() == old(self).position() + 1,
            r.column() == old(self).columns()[old(self).position()],
            r.row_idx == old(self).row(),
    {
        let idx = self.map_value_idx;
        self.map_value_idx = idx + 1;
        self.key_given = false;
        SeriesDeserItem { series: series_clone(&self.stack[idx]), row_idx: self.row_idx }
    }
}

} // verus!
