//! The row of a whole table: the root that a record is read from.

use crate::column::{
    ColumnView, frame_columns, frame_height, frame_view, row_count, rows_in, share_columns, views,
};
use crate::deser_map::PlRowImplMapAccess;
use crate::deser_model::{Answer, answers, spec_pull};
use crate::deser_root::collect_fields;
use crate::pl_row_error::PlRowSerdeErrorTypes;
use crate::request::FieldRequest;
use crate::value::{Value, ValueView};
use polars::frame::DataFrame;
use std::rc::Rc;
use vstd::prelude::*;

verus! {

/// The record that row `row` of a table with these columns answers to
/// `schema`: the columns in their order, each column that the schema
/// names read by the request of that name. A column that is too short
/// to have the row is a mismatch of shape.
pub open spec fn spec_row(columns: Seq<ColumnView>, row: int, schema: Vec<FieldRequest>) -> Answer {
    if !rows_in(columns, row) {
        Err(PlRowSerdeErrorTypes::ShapeMismatch)
    } else {
        match spec_pull(columns, row, schema, columns.len() as int) {
            Ok(fields) => Ok(ValueView::Record(fields)),
            Err(e) => Err(e),
        }
    }
}

/// The number of rows of `df`: that of its first column.
pub fn height(df: &DataFrame) -> (rows: usize)
    ensures
        rows == row_count(frame_view(*df)),
{
    frame_height(df)
}

/// A table and the index of one of its rows.
pub struct SeriesDeser {
    pub df: DataFrame,
    pub row_idx: usize,
}

impl SeriesDeser {
    /// The index is a row of the table, which has as many as its first
    /// column.
    pub open spec fn wf(&self) -> bool {
        self.row_idx < row_count(frame_view(self.df))
    }

    /// Whether the index is a row of the table: the reads below ask for
    /// it.
    pub fn in_bounds(&self) -> (r: bool)
        ensures
            r == self.wf(),
    {
        self.row_idx < height(&self.df)
    }

    /// The view of row `row_idx` of `df`.
    pub fn new(df: DataFrame, row_idx: usize) -> (r: Self)
        ensures
            r.df == df,
            r.row_idx == row_idx,
    {
        SeriesDeser { df, row_idx }
    }

    /// The cursor over the columns of the table, at the row of this
    /// view. A column that is too short to have the row is a mismatch
    /// of shape.
    pub fn deserialize_struct(&self) -> (r: Result<PlRowImplMapAccess, PlRowSerdeErrorTypes>)
        requires
            self.wf(),
        ensures
            r is Ok <==> rows_in(frame_view(self.df), self.row_idx as int),
            r matches Err(e) ==> e == PlRowSerdeErrorTypes::ShapeMismatch,
            r matches Ok(cursor) ==> {
                &&& cursor.wf()
                &&& !cursor.key_pending()
                &&& cursor.rows_valid()
                &&& cursor.columns() == frame_view(self.df)
                &&& cursor.position() == 0
                &&& cursor.row() == self.row_idx
            },
    {
        let cursor = PlRowImplMapAccess::new(&self.df, self.row_idx);
        if cursor.rows_present() {
            Ok(cursor)
        } else {
            Err(PlRowSerdeErrorTypes::ShapeMismatch)
        }
    }

    /// The record that the row answers to `schema`.
    pub fn extract(&self, schema: &Vec<FieldRequest>) -> (r: Result<Value, PlRowSerdeErrorTypes>)
        requires
            self.wf(),
        ensures
            answers(r, spec_row(frame_view(self.df), self.row_idx as int, *schema)),
    {
        let cursor = match self.deserialize_struct() {
            Ok(cursor) => cursor,
            Err(e) => {
                return Err(e);
            },
        };
        match collect_fields(cursor, schema) {
            Ok(fields) => Ok(Value::Record(fields)),
            Err(e) => Err(e),
        }
    }
}

/// The record that each row of `df` answers to `schema`, row after row.
/// A row that fails keeps its error and the others are read all the
/// same.
pub fn read_rows(df: &DataFrame, schema: &Vec<FieldRequest>) -> (r: Vec<
    Result<Value, PlRowSerdeErrorTypes>,
>)
    ensures
        r.len() == row_count(frame_view(*df)),
        forall|i: int|
            0 <= i < r.len() ==> answers(#[trigger] r[i], spec_row(frame_view(*df), i, *schema)),
{
    let rows = frame_height(df);
    let stack = Rc::new(frame_columns(df));
    let ghost columns = frame_view(*df);
    let mut out: Vec<Result<Value, PlRowSerdeErrorTypes>> = Vec::new();
    let mut row: usize = 0;
    while row < rows
        invariant
            row <= rows,
            rows == row_count(columns),
            columns == frame_view(*df),
            columns == views(stack@),
            out.len() == row,
            forall|i: int| 0 <= i < row ==> answers(#[trigger] out[i], spec_row(columns, i, *schema)),
        decreases rows - row,
    {
        let cursor = PlRowImplMapAccess::at_row(share_columns(&stack), row);
        let one = if !cursor.rows_present() {
            Err(PlRowSerdeErrorTypes::ShapeMismatch)
        } else {
            match collect_fields(cursor, schema) {
                Ok(fields) => Ok(Value::Record(fields)),
                Err(e) => Err(e),
            }
        };
        out.push(one);
        row += 1;
    }
    out
}

} // verus!
