//! Rows out of a columnar table, and records into one.
//!
//! A polars `DataFrame` keeps its data column by column. This library
//! reads one row of it as a record, guided by what the consumer asks for
//! field by field, and builds a table from a run of records, settling
//! the type of each column when its first value arrives.

pub mod column;
pub mod deser_map;
pub mod deser_model;
pub mod deser_root;
pub mod deser_seq;
pub mod deser_series;
pub mod laws;
pub mod pl_row_error;
pub mod request;
pub mod ser_model;
pub mod ser_root;
pub mod value;

use crate::column::{ColumnView, frame_view, row_count};
use crate::deser_model::answers;
use crate::deser_series::{SeriesDeser, read_rows, spec_row};
use crate::pl_row_error::PlRowSerdeErrorTypes;
use crate::request::FieldRequest;
use crate::ser_model::{
    all_plain, at_risk_at, at_risk_in, build_at_risk, lemma_accumulate_error, plain_record,
    spec_accumulate, spec_build,
};
use crate::ser_root::PlRowSerStruct;
use crate::value::{Value, values_view};
use polars::frame::DataFrame;
use vstd::prelude::*;

verus! {

/// Deserialize a row from given dataframe.
///
/// The row is read as a record: the columns are taken in their order,
/// a column that `schema` names is read by the request of that name,
/// and a column that it does not name is passed over. The first column
/// that cannot answer ends the row with its error. `height` tells
/// which rows there are.
pub fn deserialize_single_row(df: DataFrame, row_idx: usize, schema: &Vec<FieldRequest>) -> (r:
    Result<Value, PlRowSerdeErrorTypes>)
    requires
        row_idx < row_count(frame_view(df)),
    ensures
        answers(r, spec_row(frame_view(df), row_idx as int, *schema)),
{
    SeriesDeser::new(df, row_idx).extract(schema)
}

/// Deserialize whole dataframe.
///
/// Every row is read as `deserialize_single_row` reads it, and each has
/// a result of its own: a row that fails does not stop the others.
pub fn deserialize_all(df: DataFrame, schema: &Vec<FieldRequest>) -> (r: Vec<
    Result<Value, PlRowSerdeErrorTypes>,
>)
    ensures
        r.len() == row_count(frame_view(df)),
        forall|i: int|
            0 <= i < r.len() ==> answers(#[trigger] r[i], spec_row(frame_view(df), i, *schema)),
{
    read_rows(&df, schema)
}

/// Serialize rust iterator into a dataframe.
///
/// Every record is written in order, field by field, and the columns
/// are then finished into one table; the first error ends the build and
/// no table is made. Without categories the outcome is settled by the
/// records alone. With them the storage has a say in some writes, and
/// where it refuses a value whose write was owed the error carries its
/// word.
pub fn serialize_into_dataframe(records: Vec<Value>) -> (r: Result<DataFrame, PlRowSerdeErrorTypes>)
    ensures
        match r {
            Ok(df) => spec_build(values_view(records)) == Ok::<
                Seq<ColumnView>,
                PlRowSerdeErrorTypes,
            >(frame_view(df)),
            Err(PlRowSerdeErrorTypes::Custom(_)) => !all_plain(values_view(records))
                && build_at_risk(values_view(records)),
            Err(e) => spec_build(values_view(records)) == Err::<
                Seq<ColumnView>,
                PlRowSerdeErrorTypes,
            >(e),
        },
{
    let ghost all = values_view(records);
    let mut plr = PlRowSerStruct::default();
    let mut i: usize = 0;
    while i < records.len()
        invariant
            plr.wf(),
            i <= records.len(),
            all == values_view(records),
            all.len() == records.len(),
            spec_accumulate(all, i as int) == Ok::<Seq<ColumnView>, PlRowSerdeErrorTypes>(plr@),
        decreases records.len() - i,
    {
        assert(all[i as int] == records[i as int]@);
        let ghost before = plr@;
        match plr.serialize_record(&records[i]) {
            Ok(()) => {},
            Err(e) => {
                proof {
                    if !(e is Custom) {
                        lemma_accumulate_error(all, i + 1, records.len() as int);
                    } else {
                        let fields = all[i as int]->Record_0;
                        let k = choose|k: int|
                            #![trigger at_risk_in(before, fields, k)]
                            at_risk_in(before, fields, k);
                        assert(at_risk_at(all, i as int, k));
                    }
                }
                return Err(e);
            },
        }
        i += 1;
    }
    plr.into_dataframe()
}

/// Serialize a rust type into a dataframe.
///
/// The table of the one record `item`: one row, and a column for each
/// of its fields.
pub fn serialize_item_into_dataframe(item: Value) -> (r: Result<DataFrame, PlRowSerdeErrorTypes>)
    ensures
        match r {
            Ok(df) => spec_build(seq![item@]) == Ok::<Seq<ColumnView>, PlRowSerdeErrorTypes>(
                frame_view(df),
            ),
            Err(PlRowSerdeErrorTypes::Custom(_)) => !plain_record(item@) && build_at_risk(
                seq![item@],
            ),
            Err(e) => spec_build(seq![item@]) == Err::<Seq<ColumnView>, PlRowSerdeErrorTypes>(e),
        },
{
    let mut records: Vec<Value> = Vec::new();
    records.push(item);
    assert(values_view(records) =~= seq![item@]);
    serialize_into_dataframe(records)
}

} // verus!
