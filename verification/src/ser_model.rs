//! What writing means: for a column and a value, the column that the
//! builder owes, and for a table and a record, the table. The functions
//! here are mathematics only; the writers in `ser_root` are proved to
//! compute them.

use crate::column::{
    Cell, ColumnView, MAX_ROWS, PhysicalType, is_writable, null_column, same_length,
};
use crate::pl_row_error::PlRowSerdeErrorTypes;
use crate::value::{FieldView, ValueView};
use vstd::prelude::*;

verus! {

/// The column `c` with `cell` behind its last row.
pub open spec fn with_cell(c: ColumnView, cell: Cell) -> ColumnView {
    ColumnView { name: c.name, kind: c.kind, cells: c.cells.push(cell), fields: c.fields }
}

/// The column `c` with a value `cell` of physical type `kind` behind its
/// last row. A column of the null type takes the type of its first
/// value and keeps its nulls in front of it; a column of another type
/// takes no value but of its own type.
pub open spec fn spec_write_cell(c: ColumnView, kind: PhysicalType, cell: Cell) -> Result<
    ColumnView,
    PlRowSerdeErrorTypes,
> {
    if c.cells.len() >= MAX_ROWS {
        Err(PlRowSerdeErrorTypes::ShapeMismatch)
    } else if c.kind == PhysicalType::Null {
        Ok(ColumnView { name: c.name, kind, cells: c.cells.push(cell), fields: c.fields })
    } else if c.kind == kind {
        Ok(with_cell(c, cell))
    } else {
        Err(PlRowSerdeErrorTypes::TypeMisMatch)
    }
}

/// The column `c` with a row of nothing behind its last row: a null,
/// and for a struct column, which has no slot of its own, a row of
/// nothing in each of its sub-columns.
pub open spec fn null_row(c: ColumnView) -> ColumnView
    decreases c, 1int,
{
    if c.kind == PhysicalType::Struct {
        ColumnView {
            name: c.name,
            kind: c.kind,
            cells: c.cells.push(Cell::Row),
            fields: Seq::new(c.fields.len(), |i: int| null_row_at(c.fields, i)),
        }
    } else {
        with_cell(c, Cell::Null)
    }
}

/// The `i`-th of `columns` with a row of nothing behind its last row.
pub open spec fn null_row_at(columns: Seq<ColumnView>, i: int) -> ColumnView
    decreases columns, 0int,
{
    if 0 <= i < columns.len() {
        null_row(columns[i])
    } else {
        null_column(Seq::empty(), PhysicalType::Null, 0)
    }
}

/// Each of `columns` with a row of nothing behind its last row.
pub open spec fn null_rows(columns: Seq<ColumnView>) -> Seq<ColumnView> {
    Seq::new(columns.len(), |i: int| null_row_at(columns, i))
}

/// The column `c` with a null behind its last row. The type of the
/// column stays as it is.
pub open spec fn spec_write_null(c: ColumnView) -> Result<ColumnView, PlRowSerdeErrorTypes> {
    if c.cells.len() >= MAX_ROWS {
        Err(PlRowSerdeErrorTypes::ShapeMismatch)
    } else {
        Ok(null_row(c))
    }
}

/// The physical type and the cell that a value is stored as; `None` for
/// a value that has no place in a single slot. An absent value is
/// stored as a null, which has no type of its own.
pub open spec fn stored_as(v: ValueView) -> Option<(PhysicalType, Cell)>
    decreases v,
{
    match v {
        ValueView::Unit => Some((PhysicalType::Boolean, Cell::Bool(true))),
        ValueView::Absent => Some((PhysicalType::Null, Cell::Null)),
        ValueView::Present(inner) => stored_as(*inner),
        ValueView::Bool(b) => Some((PhysicalType::Boolean, Cell::Bool(b))),
        ValueView::I8(x) => Some((PhysicalType::Int8, Cell::Int8(x))),
        ValueView::I16(x) => Some((PhysicalType::Int16, Cell::Int16(x))),
        ValueView::I32(x) => Some((PhysicalType::Int32, Cell::Int32(x))),
        ValueView::I64(x) => Some((PhysicalType::Int64, Cell::Int64(x))),
        ValueView::U8(x) => Some((PhysicalType::UInt8, Cell::UInt8(x))),
        ValueView::U16(x) => Some((PhysicalType::UInt16, Cell::UInt16(x))),
        ValueView::U32(x) => Some((PhysicalType::UInt32, Cell::UInt32(x))),
        ValueView::U64(x) => Some((PhysicalType::UInt64, Cell::UInt64(x))),
        ValueView::Char(c) => Some((PhysicalType::String, Cell::Text(seq![c]))),
        ValueView::Text(t) => Some((PhysicalType::String, Cell::Text(t))),
        ValueView::Bytes(b) => Some((PhysicalType::Binary, Cell::Bytes(b))),
        ValueView::Variant(t) => Some((PhysicalType::Categorical, Cell::Category(t))),
        ValueView::UnitStruct(t) => Some((PhysicalType::String, Cell::Text(t))),
        ValueView::Sequence(_) => None,
        ValueView::Record(_) => None,
    }
}

/// The physical type that a value is stored as; the null type for a
/// value that has no place in a single slot.
pub open spec fn stored_kind(v: ValueView) -> PhysicalType {
    match stored_as(v) {
        Some((kind, _)) => kind,
        None => PhysicalType::Null,
    }
}

/// The cell that a value is stored as; a null for a value that has no
/// place in a single slot.
pub open spec fn stored_cell(v: ValueView) -> Cell {
    match stored_as(v) {
        Some((_, cell)) => cell,
        None => Cell::Null,
    }
}

/// All of `columns` have `rows` rows.
pub open spec fn all_of_length(columns: Seq<ColumnView>, rows: nat) -> bool {
    forall|i: int| 0 <= i < columns.len() ==> (#[trigger] columns[i]).cells.len() == rows
}

/// The column `c` with the value `v` behind its last row.
///
/// A record is a row of a struct column: each of its fields is written
/// to the sub-column of its name, as the fields of a record are written
/// to the columns of a table, and every sub-column must then have the
/// row. A column without a type becomes a struct column with its first
/// record, and each sub-column of that record starts with the nulls
/// that the column had. A struct column takes nothing but records with
/// a field, and nulls. A sequence has no place in a column.
pub open spec fn spec_write(c: ColumnView, v: ValueView) -> Result<ColumnView, PlRowSerdeErrorTypes>
    decreases v, 0int, 0int,
{
    match v {
        ValueView::Present(inner) => spec_write(c, *inner),
        ValueView::Record(fields) => if c.cells.len() >= MAX_ROWS {
            Err(PlRowSerdeErrorTypes::ShapeMismatch)
        } else if fields.len() == 0 || !(c.kind == PhysicalType::Struct || c.kind
            == PhysicalType::Null) {
            Err(PlRowSerdeErrorTypes::TypeMisMatch)
        } else {
            let base = if c.kind == PhysicalType::Struct {
                c.fields
            } else {
                spec_reserved(Seq::empty(), fields, fields.len() as int, c.cells.len())
            };
            match spec_put_fields(base, fields, fields.len() as int) {
                Err(e) => Err(e),
                Ok(subs) => if all_of_length(subs, c.cells.len() + 1) {
                    Ok(
                        ColumnView {
                            name: c.name,
                            kind: PhysicalType::Struct,
                            cells: Seq::new(c.cells.len() + 1, |i: int| Cell::Row),
                            fields: subs,
                        },
                    )
                } else {
                    Err(PlRowSerdeErrorTypes::ShapeMismatch)
                },
            }
        },
        ValueView::Sequence(_) => Err(PlRowSerdeErrorTypes::TypeMisMatch),
        _ => match stored_as(v) {
            None => Err(PlRowSerdeErrorTypes::TypeMisMatch),
            Some((kind, cell)) => if kind == PhysicalType::Null {
                spec_write_null(c)
            } else {
                spec_write_cell(c, kind, cell)
            },
        },
    }
}

/// The column `c` once its type is settled as `kind`: a column of the
/// null type takes the type and keeps its nulls, any other column stays
/// as it is, and so does every column where `kind` is the null type.
pub open spec fn spec_settle(c: ColumnView, kind: PhysicalType) -> ColumnView {
    if c.kind == PhysicalType::Null && kind != PhysicalType::Null {
        ColumnView { name: c.name, kind, cells: c.cells, fields: c.fields }
    } else {
        c
    }
}

/// The types that a column can be settled as ahead of its first value:
/// those that their tag alone tells the storage how to make, and the
/// null type, which settles nothing.
pub open spec fn can_settle(kind: PhysicalType) -> bool {
    is_writable(kind) || kind == PhysicalType::Null
}

/// The index of the first of `columns`, from `from` on, that is named
/// `name`, or the number of columns where none is.
pub open spec fn first_column_from(columns: Seq<ColumnView>, name: Seq<char>, from: int) -> int
    decreases columns.len() - from,
{
    if from < 0 || from >= columns.len() {
        columns.len() as int
    } else if columns[from].name == name {
        from
    } else {
        first_column_from(columns, name, from + 1)
    }
}

/// The index of the column named `name`, or the number of columns where
/// none is.
pub open spec fn column_position(columns: Seq<ColumnView>, name: Seq<char>) -> int {
    first_column_from(columns, name, 0)
}

/// The table `columns` with a column for `name`: as it is where it has
/// one, and else with a column of `fill` nulls behind the others.
pub open spec fn spec_with_filled(columns: Seq<ColumnView>, name: Seq<char>, fill: nat) -> Seq<
    ColumnView,
> {
    if column_position(columns, name) < columns.len() {
        columns
    } else {
        columns.push(null_column(name, PhysicalType::Null, fill))
    }
}

/// The table `columns` with a column for `name`: as it is where it has
/// one, and else with an empty column of the null type behind the
/// others.
pub open spec fn spec_with_column(columns: Seq<ColumnView>, name: Seq<char>) -> Seq<ColumnView> {
    spec_with_filled(columns, name, 0)
}

/// The table `columns` with a column of `fill` nulls for each of the
/// first `k` of `fields` whose name had none.
pub open spec fn spec_reserved(
    columns: Seq<ColumnView>,
    fields: Seq<FieldView>,
    k: int,
    fill: nat,
) -> Seq<ColumnView>
    decreases k,
{
    if k <= 0 {
        columns
    } else {
        spec_with_filled(spec_reserved(columns, fields, k - 1, fill), fields[k - 1].name, fill)
    }
}

/// The table `columns` after the field `name` of a record was written
/// with `v`: the column of that name takes the value, and a name that is
/// seen for the first time gets its column first.
pub open spec fn spec_put(columns: Seq<ColumnView>, name: Seq<char>, v: ValueView) -> Result<
    Seq<ColumnView>,
    PlRowSerdeErrorTypes,
>
    decreases v, 1int, 0int,
{
    let k = column_position(columns, name);
    let base = spec_with_column(columns, name);
    match spec_write(base[k], v) {
        Ok(c) => Ok(base.update(k, c)),
        Err(e) => Err(e),
    }
}

/// The table `columns` after the field `name` of a record was written
/// with a value `cell` of physical type `kind`; see `spec_put`.
pub open spec fn spec_put_cell(
    columns: Seq<ColumnView>,
    name: Seq<char>,
    kind: PhysicalType,
    cell: Cell,
) -> Result<Seq<ColumnView>, PlRowSerdeErrorTypes> {
    let k = column_position(columns, name);
    let base = spec_with_column(columns, name);
    match spec_write_cell(base[k], kind, cell) {
        Ok(c) => Ok(base.update(k, c)),
        Err(e) => Err(e),
    }
}

/// The table `columns` after the first `n` of `fields` were written, in
/// order; the first error ends the writing.
pub open spec fn spec_put_fields(columns: Seq<ColumnView>, fields: Seq<FieldView>, n: int) -> Result<
    Seq<ColumnView>,
    PlRowSerdeErrorTypes,
>
    decreases fields, 2int, n,
{
    if n <= 0 {
        Ok(columns)
    } else if n > fields.len() {
        spec_put_fields(columns, fields, n - 1)
    } else {
        match spec_put_fields(columns, fields, n - 1) {
            Err(e) => Err(e),
            Ok(so_far) => spec_put(so_far, fields[n - 1].name, fields[n - 1].value),
        }
    }
}

/// The table `columns` after `record` was written: a record gives each
/// of its fields to the column of that name; anything but a record is
/// refused.
pub open spec fn spec_put_record(columns: Seq<ColumnView>, record: ValueView) -> Result<
    Seq<ColumnView>,
    PlRowSerdeErrorTypes,
> {
    match record {
        ValueView::Record(fields) => spec_put_fields(columns, fields, fields.len() as int),
        _ => Err(PlRowSerdeErrorTypes::TypeMisMatch),
    }
}

/// The columns after the first `n` of `records` were written, starting
/// from no column at all; the first error ends the writing.
pub open spec fn spec_accumulate(records: Seq<ValueView>, n: int) -> Result<
    Seq<ColumnView>,
    PlRowSerdeErrorTypes,
>
    decreases n,
{
    if n <= 0 {
        Ok(Seq::empty())
    } else {
        match spec_accumulate(records, n - 1) {
            Err(e) => Err(e),
            Ok(so_far) => spec_put_record(so_far, records[n - 1]),
        }
    }
}

/// The columns as a finished table: they must be of one length.
pub open spec fn spec_finish(columns: Seq<ColumnView>) -> Result<
    Seq<ColumnView>,
    PlRowSerdeErrorTypes,
> {
    if same_length(columns) {
        Ok(columns)
    } else {
        Err(PlRowSerdeErrorTypes::ShapeMismatch)
    }
}

/// The table that `records` build: every record written in order, then
/// the columns finished.
pub open spec fn spec_build(records: Seq<ValueView>) -> Result<
    Seq<ColumnView>,
    PlRowSerdeErrorTypes,
> {
    match spec_accumulate(records, records.len() as int) {
        Err(e) => Err(e),
        Ok(columns) => spec_finish(columns),
    }
}

/// Whether a value is a record, present or bare.
pub open spec fn bears_record(v: ValueView) -> bool
    decreases v,
{
    match v {
        ValueView::Present(inner) => bears_record(*inner),
        ValueView::Record(_) => true,
        _ => false,
    }
}

/// Whether a value is the variant of an enum or holds one in a field,
/// however deep.
pub open spec fn holds_variant(v: ValueView) -> bool
    decreases v,
{
    match v {
        ValueView::Variant(_) => true,
        ValueView::Present(inner) => holds_variant(*inner),
        ValueView::Record(fields) => exists|i: int|
            0 <= i < fields.len() && holds_variant((#[trigger] fields[i]).value),
        _ => false,
    }
}

/// Whether the record holds no variant of an enum, however deep.
pub open spec fn plain_record(record: ValueView) -> bool {
    !holds_variant(record)
}

/// Whether none of the records holds a variant of an enum.
pub open spec fn all_plain(records: Seq<ValueView>) -> bool {
    forall|j: int| 0 <= j < records.len() ==> plain_record(#[trigger] records[j])
}

/// Whether `one` is a column of one row under the name `name`, of a
/// type that a builder can grow.
pub open spec fn one_row_for(one: ColumnView, name: Seq<char>) -> bool {
    &&& is_writable(one.kind)
    &&& one.cells.len() == 1
    &&& one.name == name
}

/// Whether the storage has a say in a write of a value of type `kind`
/// to the column `before`: it has where a category comes to a column
/// that has rows already, for it may not be able to join the
/// categories. A column without rows and without a type takes whatever
/// comes first, and a null is taken by every column.
pub open spec fn may_refuse(before: ColumnView, kind: PhysicalType) -> bool {
    kind == PhysicalType::Categorical && !(before.kind == PhysicalType::Null && before.cells.len()
        == 0)
}

/// Whether writing `cell` of type `kind` to the column `before` ended as
/// it must: with the column that the write owes, or with its error and
/// the column untouched. The one freedom is a write that is owed but in
/// which the storage has a say: it may refuse, and then the error
/// carries the storage's word and the column is untouched.
pub open spec fn cell_written(
    before: ColumnView,
    after: ColumnView,
    r: Result<(), PlRowSerdeErrorTypes>,
    kind: PhysicalType,
    cell: Cell,
) -> bool {
    match r {
        Ok(()) => spec_write_cell(before, kind, cell) == Ok::<ColumnView, PlRowSerdeErrorTypes>(
            after,
        ),
        Err(PlRowSerdeErrorTypes::Custom(_)) => may_refuse(before, kind) && spec_write_cell(
            before,
            kind,
            cell,
        ) is Ok && after == before,
        Err(e) => spec_write_cell(before, kind, cell) == Err::<ColumnView, PlRowSerdeErrorTypes>(e)
            && after == before,
    }
}

/// Whether writing a null to the column `before` ended as it must:
/// with the null behind the last row, or, where the column is full,
/// with that error and the column untouched.
pub open spec fn null_written(
    before: ColumnView,
    after: ColumnView,
    r: Result<(), PlRowSerdeErrorTypes>,
) -> bool {
    match r {
        Ok(()) => spec_write_null(before) == Ok::<ColumnView, PlRowSerdeErrorTypes>(after),
        Err(e) => spec_write_null(before) == Err::<ColumnView, PlRowSerdeErrorTypes>(e) && after
            == before,
    }
}

/// Whether writing the value `v` to the column `before` ended as it
/// must; see `cell_written`. Where `v` is a record the storage has a
/// say as soon as a variant is held in it somewhere: the refusal leaves
/// the column untouched, but a later field of the record might have
/// been refused by the library all the same.
pub open spec fn value_written(
    before: ColumnView,
    after: ColumnView,
    r: Result<(), PlRowSerdeErrorTypes>,
    v: ValueView,
) -> bool {
    match r {
        Ok(()) => spec_write(before, v) == Ok::<ColumnView, PlRowSerdeErrorTypes>(after),
        Err(PlRowSerdeErrorTypes::Custom(_)) => after == before && holds_variant(v) && (
        !bears_record(v) ==> may_refuse(before, stored_kind(v)) && spec_write(before, v) is Ok),
        Err(e) => spec_write(before, v) == Err::<ColumnView, PlRowSerdeErrorTypes>(e) && after
            == before,
    }
}

/// Whether the storage has a say in the write of the field `name` with
/// `v` to the table `before`: the write is owed and is that of a
/// category to a column with rows, or `v` is a record that holds a
/// category somewhere.
pub open spec fn put_at_risk(before: Seq<ColumnView>, name: Seq<char>, v: ValueView) -> bool {
    if bears_record(v) {
        holds_variant(v)
    } else {
        &&& spec_put(before, name, v) is Ok
        &&& may_refuse(
            spec_with_column(before, name)[column_position(before, name)],
            stored_kind(v),
        )
    }
}

/// Whether the write of the field `name` with a value of type `kind` to
/// the table `before` is owed and the storage has a say in it.
pub open spec fn put_cell_at_risk(
    before: Seq<ColumnView>,
    name: Seq<char>,
    kind: PhysicalType,
    cell: Cell,
) -> bool {
    &&& spec_put_cell(before, name, kind, cell) is Ok
    &&& may_refuse(spec_with_column(before, name)[column_position(before, name)], kind)
}

/// Whether writing the field `name` with `v` to the table `before` ended
/// as it must: with the table that the write owes, or with its error
/// and nothing written, though the column for `name` is there by then.
/// A write that is owed but in which the storage has a say may be
/// refused, and the error then carries the storage's word.
pub open spec fn field_written(
    before: Seq<ColumnView>,
    after: Seq<ColumnView>,
    r: Result<(), PlRowSerdeErrorTypes>,
    name: Seq<char>,
    v: ValueView,
) -> bool {
    match r {
        Ok(()) => spec_put(before, name, v) == Ok::<Seq<ColumnView>, PlRowSerdeErrorTypes>(after),
        Err(PlRowSerdeErrorTypes::Custom(_)) => put_at_risk(before, name, v) && after
            == spec_with_column(before, name),
        Err(e) => spec_put(before, name, v) == Err::<Seq<ColumnView>, PlRowSerdeErrorTypes>(e)
            && after == spec_with_column(before, name),
    }
}

/// Whether `after` is the table that a record leaves behind whose
/// writing stopped at an error: one of the `fields` failed, those in
/// front of it are written, and the column of the one that failed is
/// there.
pub open spec fn record_stopped(
    before: Seq<ColumnView>,
    after: Seq<ColumnView>,
    fields: Seq<FieldView>,
) -> bool {
    exists|k: int|
        0 <= k < fields.len() && (#[trigger] spec_put_fields(before, fields, k)) is Ok && after
            == spec_with_column(spec_put_fields(before, fields, k)->Ok_0, fields[k].name)
}

/// Whether the first `k` of `fields` can be written to the table
/// `before` and the write of the next is owed, with the storage having
/// a say in it.
pub open spec fn at_risk_in(before: Seq<ColumnView>, fields: Seq<FieldView>, k: int) -> bool {
    &&& 0 <= k < fields.len()
    &&& spec_put_fields(before, fields, k) is Ok
    &&& put_at_risk(spec_put_fields(before, fields, k)->Ok_0, fields[k].name, fields[k].value)
}

/// Whether `after` is the table that a record leaves behind in which
/// the storage refused a field: those in front of it are written, its
/// own write was owed, and its column is there.
pub open spec fn record_refused(
    before: Seq<ColumnView>,
    after: Seq<ColumnView>,
    fields: Seq<FieldView>,
) -> bool {
    exists|k: int|
        #![trigger at_risk_in(before, fields, k)]
        at_risk_in(before, fields, k) && after == spec_with_column(
            spec_put_fields(before, fields, k)->Ok_0,
            fields[k].name,
        )
}

/// Whether the storage can have refused a field while `records` were
/// written: the records in front of the `j`-th can be written, it is a
/// record, and the write of one of its fields is owed, with the storage
/// having a say in it.
pub open spec fn at_risk_at(records: Seq<ValueView>, j: int, k: int) -> bool {
    &&& 0 <= j < records.len()
    &&& spec_accumulate(records, j) is Ok
    &&& records[j] is Record
    &&& at_risk_in(spec_accumulate(records, j)->Ok_0, records[j]->Record_0, k)
}

/// Whether the storage can have refused a field while `records` were
/// written.
pub open spec fn build_at_risk(records: Seq<ValueView>) -> bool {
    exists|j: int, k: int| #![trigger at_risk_at(records, j, k)] at_risk_at(records, j, k)
}

/// Where no column from `from` on is named `name`, the position of
/// `name` is the number of columns.
pub proof fn lemma_position_absent(columns: Seq<ColumnView>, name: Seq<char>, from: int)
    requires
        0 <= from <= columns.len(),
    ensures
        from <= first_column_from(columns, name, from) <= columns.len(),
        first_column_from(columns, name, from) == columns.len() ==> forall|i: int|
            from <= i < columns.len() ==> (#[trigger] columns[i]).name != name,
        first_column_from(columns, name, from) < columns.len() ==> columns[first_column_from(
            columns,
            name,
            from,
        )].name == name,
    decreases columns.len() - from,
{
    if from < columns.len() && columns[from].name != name {
        lemma_position_absent(columns, name, from + 1);
    }
}

/// A value that is stored as a category holds a variant.
pub proof fn lemma_category_is_variant(v: ValueView)
    requires
        stored_kind(v) == PhysicalType::Categorical,
    ensures
        holds_variant(v),
        !bears_record(v),
    decreases v,
{
    if let ValueView::Present(inner) = v {
        lemma_category_is_variant(*inner);
    }
}

/// The storage has a say in a write only where a variant is written.
pub proof fn lemma_risk_needs_category(before: Seq<ColumnView>, name: Seq<char>, v: ValueView)
    requires
        put_at_risk(before, name, v),
    ensures
        holds_variant(v),
{
    if !bears_record(v) {
        lemma_category_is_variant(v);
    }
}

/// A record one of whose fields holds a variant holds a variant.
pub proof fn lemma_field_variant(fields: Seq<FieldView>, i: int)
    requires
        0 <= i < fields.len(),
        holds_variant(fields[i].value),
    ensures
        holds_variant(ValueView::Record(fields)),
{
    assert(holds_variant(fields[i].value));
}

/// Writing a field leaves at least its column.
pub proof fn lemma_put_fields_width(columns: Seq<ColumnView>, fields: Seq<FieldView>, n: int)
    requires
        1 <= n <= fields.len(),
        spec_put_fields(columns, fields, n) is Ok,
    ensures
        spec_put_fields(columns, fields, n)->Ok_0.len() > 0,
{
    let so_far = spec_put_fields(columns, fields, n - 1);
    assert(so_far is Ok);
    let before = so_far->Ok_0;
    let name = fields[n - 1].name;
    lemma_position_absent(before, name, 0);
    let k = column_position(before, name);
    let base = spec_with_column(before, name);
    assert(0 <= k < base.len());
    assert(spec_put_fields(columns, fields, n) == spec_put(before, name, fields[n - 1].value));
    let written = spec_write(base[k], fields[n - 1].value);
    assert(written is Ok);
    assert(spec_put(before, name, fields[n - 1].value)->Ok_0 == base.update(k, written->Ok_0));
}

/// A row of nothing leaves the name of the column as it is and makes
/// it one row longer.
pub proof fn lemma_null_row_name(c: ColumnView)
    ensures
        null_row(c).name == c.name,
        null_row(c).kind == c.kind,
        null_row(c).cells.len() == c.cells.len() + 1,
{
}

/// A value that has a place in a single slot is written as the null or
/// as the cell that it is stored as.
pub proof fn lemma_write_scalar(c: ColumnView, v: ValueView)
    requires
        stored_as(v) is Some,
    ensures
        spec_write(c, v) == if stored_kind(v) == PhysicalType::Null {
            spec_write_null(c)
        } else {
            spec_write_cell(c, stored_kind(v), stored_cell(v))
        },
    decreases v,
{
    if let ValueView::Present(inner) = v {
        lemma_write_scalar(c, *inner);
    }
}

/// A write leaves the name of the column as it is.
pub proof fn lemma_write_name(c: ColumnView, v: ValueView)
    ensures
        spec_write(c, v) matches Ok(after) ==> after.name == c.name,
    decreases v,
{
    if let ValueView::Present(inner) = v {
        lemma_write_name(c, *inner);
    }
}

/// A write leaves the name of the column as it is.
pub proof fn lemma_write_keeps_name(
    before: ColumnView,
    after: ColumnView,
    r: Result<(), PlRowSerdeErrorTypes>,
    v: ValueView,
)
    requires
        value_written(before, after, r, v),
    ensures
        after.name == before.name,
{
    lemma_write_name(before, v);
}

/// Once the first `k` fields give an error, any longer run of them gives
/// the same error.
pub proof fn lemma_put_fields_error(
    columns: Seq<ColumnView>,
    fields: Seq<FieldView>,
    k: int,
    n: int,
)
    requires
        0 <= k <= n,
        spec_put_fields(columns, fields, k) is Err,
    ensures
        spec_put_fields(columns, fields, n) == spec_put_fields(columns, fields, k),
    decreases n - k,
{
    if k < n {
        lemma_put_fields_error(columns, fields, k, n - 1);
    }
}

/// Once the first `k` records give an error, any longer run of them
/// gives the same error.
pub proof fn lemma_accumulate_error(records: Seq<ValueView>, k: int, n: int)
    requires
        0 <= k <= n,
        spec_accumulate(records, k) is Err,
    ensures
        spec_accumulate(records, n) == spec_accumulate(records, k),
    decreases n - k,
{
    if k < n {
        lemma_accumulate_error(records, k, n - 1);
    }
}

} // verus!
