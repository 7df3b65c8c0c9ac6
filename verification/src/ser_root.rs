//! Records into columns.
//!
//! `SerdeItemAnyValueBuffer` builds one column whose type is not known
//! until its first value arrives. `PlRowSerStruct` keeps one such
//! builder per field name and turns them into a table at the end. A
//! field that is a record itself is built in the same way one level
//! down: its builder keeps an accumulator for the sub-columns.

use crate::column::{
    Cell, ColumnView, MAX_ROWS, PhysicalType, distinct_names, frame_new, frame_view, is_number,
    is_writable, null_column, same_length, series_append, series_cast_category,
    series_cast_number, series_cast_other, series_clone, series_from_bool, series_from_bytes,
    series_from_char, series_from_i16, series_from_i32, series_from_i64, series_from_i8,
    series_from_str, series_from_u16, series_from_u32, series_from_u64, series_from_u8,
    series_from_fields, series_kind, series_len, series_name, series_new_null,
    series_struct_fields, series_view, unit_column, views,
};
use crate::pl_row_error::PlRowSerdeErrorTypes;
use crate::ser_model::{
    all_of_length, at_risk_in, lemma_null_row_name, null_row, null_rows, can_settle, cell_written, column_position, field_written,
    first_column_from, lemma_field_variant, lemma_position_absent, lemma_put_fields_error,
    lemma_put_fields_width, lemma_risk_needs_category, lemma_write_keeps_name, null_written,
    one_row_for, plain_record, put_cell_at_risk, record_refused, record_stopped, spec_finish,
    spec_put_cell, spec_put_fields, spec_put_record, spec_reserved, spec_settle,
    spec_with_column, spec_with_filled, value_written,
};
use crate::value::{Value, ValueView, fields_view};
use polars::frame::DataFrame;
use polars::series::Series;
use vstd::prelude::*;

verus! {

/// The writer of the compound shapes that a table cannot hold: a field
/// of a record is a single value or a record, never a tuple, a
/// sequence or a map.
pub struct PlSerPlaceHolder2;

/// The builder of one column. Until the first value arrives the column
/// has no type and the builder only counts the nulls it was given; the
/// first value settles the type once and for all, the counted nulls go
/// in front of it, and from then on only values of that type and nulls
/// are taken. Where the first value is a record the column is a struct:
/// the builder then counts the rows and keeps a builder for each
/// sub-column.
pub struct SerdeItemAnyValueBuffer {
    anyval_buffer: Option<Series>,
    name: String,
    datatype: PhysicalType,
    null_count: usize,
    nested: PlRowSerStruct,
}

/// The column that `b` has built so far.
pub closed spec fn buffer_view(b: SerdeItemAnyValueBuffer) -> ColumnView
    decreases b, 1int,
{
    match b.anyval_buffer {
        Some(s) => series_view(s),
        None => if b.datatype == PhysicalType::Struct {
            ColumnView {
                name: b.name@,
                kind: PhysicalType::Struct,
                cells: Seq::new(b.null_count as nat, |i: int| Cell::Row),
                fields: table_view(b.nested),
            }
        } else {
            null_column(b.name@, PhysicalType::Null, b.null_count as nat)
        },
    }
}

/// The columns that the builders of `p` have built so far.
pub closed spec fn table_view(p: PlRowSerStruct) -> Seq<ColumnView>
    decreases p, 1int,
{
    Seq::new(p.pl_ser_map.len() as nat, |i: int| buffer_view_at(p.pl_ser_map, i))
}

/// The column that the `i`-th of `builders` has built so far.
pub closed spec fn buffer_view_at(builders: Vec<SerdeItemAnyValueBuffer>, i: int) -> ColumnView
    decreases builders, 0int,
{
    if 0 <= i < builders.len() {
        buffer_view(builders[i])
    } else {
        null_column(Seq::empty(), PhysicalType::Null, 0)
    }
}

/// Whether `b` is in order: its own record of name, type and rows
/// agrees with what is stored, the column fits the storage, and the
/// sub-columns of a struct column all have its rows.
pub closed spec fn buffer_wf(b: SerdeItemAnyValueBuffer) -> bool
    decreases b, 1int,
{
    match b.anyval_buffer {
        Some(s) => {
            &&& series_view(s).kind == b.datatype
            &&& is_writable(b.datatype)
            &&& series_view(s).name == b.name@
            &&& series_view(s).cells.len() <= MAX_ROWS
            &&& b.null_count == 0
            &&& b.nested.pl_ser_map.len() == 0
        },
        None => {
            &&& b.null_count <= MAX_ROWS
            &&& if b.datatype == PhysicalType::Struct {
                &&& table_wf(b.nested)
                &&& b.nested.pl_ser_map.len() > 0
                &&& all_of_length(table_view(b.nested), b.null_count as nat)
            } else {
                b.datatype == PhysicalType::Null && b.nested.pl_ser_map.len() == 0
            }
        },
    }
}

/// Whether the builders of `p` are in order and no two are for one
/// name.
pub closed spec fn table_wf(p: PlRowSerStruct) -> bool
    decreases p, 1int,
{
    &&& forall|i: int| 0 <= i < p.pl_ser_map.len() ==> buffer_wf(#[trigger] p.pl_ser_map[i])
    &&& distinct_names(table_view(p))
}

impl View for SerdeItemAnyValueBuffer {
    type V = ColumnView;

    /// The column built so far.
    closed spec fn view(&self) -> ColumnView {
        buffer_view(*self)
    }
}

impl SerdeItemAnyValueBuffer {
    /// The builder's own record of name, type and rows agrees with what
    /// is stored, and the column fits the storage.
    pub closed spec fn wf(&self) -> bool {
        buffer_wf(*self)
    }

    /// A builder for the column `name`: no rows, no type.
    pub fn new(name: &str) -> (r: Self)
        ensures
            r.wf(),
            r@ == null_column(name@, PhysicalType::Null, 0),
    {
        Self::with_nulls(name, 0)
    }

    /// A builder for the column `name` that has counted `nulls` nulls
    /// and has no type yet.
    pub fn with_nulls(name: &str, nulls: usize) -> (r: Self)
        requires
            nulls <= MAX_ROWS,
        ensures
            r.wf(),
            r@ == null_column(name@, PhysicalType::Null, nulls as nat),
    {
        SerdeItemAnyValueBuffer {
            anyval_buffer: None,
            name: name.to_owned(),
            datatype: PhysicalType::Null,
            null_count: nulls,
            nested: PlRowSerStruct { pl_ser_map: Vec::new() },
        }
    }

    /// A second builder that has built the same column. Nothing of the
    /// storage is copied but handles.
    pub fn duplicate(&self) -> (r: Self)
        requires
            self.wf(),
        ensures
            r.wf(),
            r@ == self@,
        decreases self, 1int,
    {
        let storage = match &self.anyval_buffer {
            Some(s) => Some(series_clone(s)),
            None => None,
        };
        proof {
            lemma_table(self.nested);
        }
        let nested = if self.datatype == PhysicalType::Struct && self.anyval_buffer.is_none() {
            self.nested.duplicate()
        } else {
            PlRowSerStruct { pl_ser_map: Vec::new() }
        };
        proof {
            lemma_table(nested);
        }
        let r = SerdeItemAnyValueBuffer {
            anyval_buffer: storage,
            name: self.name.clone(),
            datatype: self.datatype,
            null_count: self.null_count,
            nested,
        };
        assert(r@.cells =~= self@.cells);
        proof {
            reveal_with_fuel(buffer_wf, 2);
            assert(r.nested.pl_ser_map.len() == self.nested.pl_ser_map.len() || self.datatype
                != PhysicalType::Struct || self.anyval_buffer is Some) by {
                assert(r.nested@.len() == r.nested.pl_ser_map.len());
                assert(self.nested@.len() == self.nested.pl_ser_map.len());
            }
        }
        r
    }

    /// The number of rows so far.
    pub fn len(&self) -> (n: usize)
        requires
            self.wf(),
        ensures
            n == self@.cells.len(),
            n <= MAX_ROWS,
    {
        match &self.anyval_buffer {
            None => self.null_count,
            Some(s) => series_len(s),
        }
    }

    /// The type of the column so far; the null type until the first
    /// value.
    pub fn datatype(&self) -> (kind: PhysicalType)
        requires
            self.wf(),
        ensures
            kind == self@.kind,
    {
        self.datatype
    }

    /// The name of the column.
    pub fn name(&self) -> (name: &String)
        requires
            self.wf(),
        ensures
            name@ == self@.name,
    {
        &self.name
    }

    /// Whether a column of this type holds booleans or numbers.
    fn holds_numbers(kind: PhysicalType) -> (r: bool)
        ensures
            r == is_number(kind),
    {
        match kind {
            PhysicalType::Boolean => true,
            PhysicalType::UInt8 => true,
            PhysicalType::UInt16 => true,
            PhysicalType::UInt32 => true,
            PhysicalType::UInt64 => true,
            PhysicalType::Int8 => true,
            PhysicalType::Int16 => true,
            PhysicalType::Int32 => true,
            PhysicalType::Int64 => true,
            PhysicalType::Float32 => true,
            PhysicalType::Float64 => true,
            _ => false,
        }
    }

    /// Whether the builder can grow a column of this type.
    pub fn can_write(kind: PhysicalType) -> (r: bool)
        ensures
            r == is_writable(kind),
    {
        match kind {
            PhysicalType::String => true,
            PhysicalType::Binary => true,
            PhysicalType::Date => true,
            PhysicalType::Time => true,
            PhysicalType::Categorical => true,
            _ => Self::holds_numbers(kind),
        }
    }

    /// Gives the column the type `kind` and puts the counted nulls into
    /// it.
    fn resolve(&mut self, kind: PhysicalType)
        requires
            old(self).wf(),
            old(self)@.kind == PhysicalType::Null,
            is_writable(kind),
        ensures
            final(self).wf(),
            final(self)@ == spec_settle(old(self)@, kind),
    {
        if self.anyval_buffer.is_some() {
            return ;
        }
        let nulls = series_new_null(self.name.as_str(), self.null_count);
        let typed = if Self::holds_numbers(kind) {
            series_cast_number(&nulls, kind)
        } else {
            series_cast_other(&nulls, kind)
        };
        match typed {
            Ok(base) => {
                assert(series_view(base).cells =~= old(self)@.cells);
                assert(series_view(base).fields =~= old(self)@.fields);
                self.anyval_buffer = Some(base);
                self.datatype = kind;
                self.null_count = 0;
            },
            Err(_) => {},
        }
    }

    /// Settles the type of a column that has none yet, ahead of its
    /// first value: as `variant_dt` where one is given, and the counted
    /// nulls go into the typed column. A column that has its type is
    /// left alone. A type whose tag does not say all of it (what a list
    /// holds, the unit of a duration) cannot be settled from the tag and
    /// is refused.
    pub fn change_not_null_anyvalue_buffer(&mut self, variant_dt: Option<PhysicalType>) -> (r:
        Result<(), PlRowSerdeErrorTypes>)
        requires
            old(self).wf(),
        ensures
            final(self).wf(),
            match r {
                Ok(()) => final(self)@ == spec_settle(
                    old(self)@,
                    match variant_dt {
                        Some(kind) => kind,
                        None => old(self)@.kind,
                    },
                ),
                Err(e) => e == PlRowSerdeErrorTypes::TypeMisMatch && final(self)@ == old(self)@,
            },
            r is Err <==> old(self)@.kind == PhysicalType::Null && variant_dt is Some
                && !can_settle(variant_dt->0),
    {
        if self.anyval_buffer.is_some() || self.datatype == PhysicalType::Struct {
            return Ok(());
        }
        let kind = match variant_dt {
            Some(kind) => kind,
            None => self.datatype,
        };
        if kind == PhysicalType::Null {
            return Ok(());
        }
        if !Self::can_write(kind) {
            return Err(PlRowSerdeErrorTypes::TypeMisMatch);
        }
        self.resolve(kind);
        Ok(())
    }

    /// Appends the one row of `one`, a column that the caller has made
    /// for a value of its own: the first value settles the type, a later
    /// value of another type is a mismatch, and a full column takes
    /// nothing. A column that does not have exactly one row, the
    /// builder's name and a type that the builder can grow is refused
    /// as a mismatch.
    pub fn serialize_series(&mut self, one: &Series) -> (r: Result<(), PlRowSerdeErrorTypes>)
        requires
            old(self).wf(),
        ensures
            final(self).wf(),
            if one_row_for(series_view(*one), old(self)@.name) {
                cell_written(
                    old(self)@,
                    final(self)@,
                    r,
                    series_view(*one).kind,
                    series_view(*one).cells[0],
                )
            } else {
                r == Err::<(), PlRowSerdeErrorTypes>(PlRowSerdeErrorTypes::TypeMisMatch)
                    && final(self)@ == old(self)@
            },
    {
        let kind = series_kind(one);
        if !Self::can_write(kind) || series_len(one) != 1 || series_name(one) != self.name {
            return Err(PlRowSerdeErrorTypes::TypeMisMatch);
        }
        match series_struct_fields(one) {
            Ok(_) => {
                return Err(PlRowSerdeErrorTypes::TypeMisMatch);
            },
            Err(_) => {},
        }
        assert(series_view(*one) =~= unit_column(
            old(self)@.name,
            kind,
            series_view(*one).cells[0],
        )) by {
            assert(series_view(*one).cells =~= seq![series_view(*one).cells[0]]);
        }
        self.append_one(one, kind)
    }

    /// Appends the one row of `one`, a column of type `kind` under the
    /// builder's name. A column without rows and without a type becomes
    /// `one` itself.
    fn append_one(&mut self, one: &Series, kind: PhysicalType) -> (r: Result<
        (),
        PlRowSerdeErrorTypes,
    >)
        requires
            old(self).wf(),
            is_writable(kind),
            series_view(*one) == unit_column(old(self)@.name, kind, series_view(*one).cells[0]),
        ensures
            final(self).wf(),
            cell_written(old(self)@, final(self)@, r, kind, series_view(*one).cells[0]),
    {
        if self.len() >= MAX_ROWS {
            return Err(PlRowSerdeErrorTypes::ShapeMismatch);
        }
        let fresh = self.anyval_buffer.is_none();
        if fresh && self.datatype == PhysicalType::Struct {
            return Err(PlRowSerdeErrorTypes::TypeMisMatch);
        }
        let queued = self.null_count;
        if fresh && queued == 0 {
            assert(series_view(*one).cells =~= old(self)@.cells.push(series_view(*one).cells[0]));
            self.anyval_buffer = Some(series_clone(one));
            self.datatype = kind;
            return Ok(());
        }
        if fresh {
            self.resolve(kind);
        } else if self.datatype != kind {
            return Err(PlRowSerdeErrorTypes::TypeMisMatch);
        }
        let mut storage = match self.anyval_buffer.take() {
            Some(s) => s,
            None => {
                return Err(PlRowSerdeErrorTypes::TypeMisMatch);
            },
        };
        let ghost base = series_view(storage);
        match series_append(&mut storage, one) {
            Ok(()) => {
                assert(series_view(storage).cells =~= old(self)@.cells.push(
                    series_view(*one).cells[0],
                ));
                self.anyval_buffer = Some(storage);
                Ok(())
            },
            Err(_) => {
                if fresh {
                    self.datatype = PhysicalType::Null;
                    self.null_count = queued;
                } else {
                    self.anyval_buffer = Some(storage);
                }
                Err(PlRowSerdeErrorTypes::Custom("the storage refused the value".to_owned()))
            },
        }
    }

    /// Writes a boolean.
    pub fn serialize_bool(&mut self, v: bool) -> (r: Result<(), PlRowSerdeErrorTypes>)
        requires
            old(self).wf(),
        ensures
            final(self).wf(),
            cell_written(old(self)@, final(self)@, r, PhysicalType::Boolean, Cell::Bool(v)),
    {
        let one = series_from_bool(self.name.as_str(), v);
        self.append_one(&one, PhysicalType::Boolean)
    }

    /// Writes an 8-bit signed integer.
    pub fn serialize_i8(&mut self, v: i8) -> (r: Result<(), PlRowSerdeErrorTypes>)
        requires
            old(self).wf(),
        ensures
            final(self).wf(),
            cell_written(old(self)@, final(self)@, r, PhysicalType::Int8, Cell::Int8(v)),
    {
        let one = series_from_i8(self.name.as_str(), v);
        self.append_one(&one, PhysicalType::Int8)
    }

    /// Writes a 16-bit signed integer.
    pub fn serialize_i16(&mut self, v: i16) -> (r: Result<(), PlRowSerdeErrorTypes>)
        requires
            old(self).wf(),
        ensures
            final(self).wf(),
            cell_written(old(self)@, final(self)@, r, PhysicalType::Int16, Cell::Int16(v)),
    {
        let one = series_from_i16(self.name.as_str(), v);
        self.append_one(&one, PhysicalType::Int16)
    }

    /// Writes a 32-bit signed integer.
    pub fn serialize_i32(&mut self, v: i32) -> (r: Result<(), PlRowSerdeErrorTypes>)
        requires
            old(self).wf(),
        ensures
            final(self).wf(),
            cell_written(old(self)@, final(self)@, r, PhysicalType::Int32, Cell::Int32(v)),
    {
        let one = series_from_i32(self.name.as_str(), v);
        self.append_one(&one, PhysicalType::Int32)
    }

    /// Writes a 64-bit signed integer.
    pub fn serialize_i64(&mut self, v: i64) -> (r: Result<(), PlRowSerdeErrorTypes>)
        requires
            old(self).wf(),
        ensures
            final(self).wf(),
            cell_written(old(self)@, final(self)@, r, PhysicalType::Int64, Cell::Int64(v)),
    {
        let one = series_from_i64(self.name.as_str(), v);
        self.append_one(&one, PhysicalType::Int64)
    }

    /// Writes an 8-bit unsigned integer.
    pub fn serialize_u8(&mut self, v: u8) -> (r: Result<(), PlRowSerdeErrorTypes>)
        requires
            old(self).wf(),
        ensures
            final(self).wf(),
            cell_written(old(self)@, final(self)@, r, PhysicalType::UInt8, Cell::UInt8(v)),
    {
        let one = series_from_u8(self.name.as_str(), v);
        self.append_one(&one, PhysicalType::UInt8)
    }

    /// Writes a 16-bit unsigned integer.
    pub fn serialize_u16(&mut self, v: u16) -> (r: Result<(), PlRowSerdeErrorTypes>)
        requires
            old(self).wf(),
        ensures
            final(self).wf(),
            cell_written(old(self)@, final(self)@, r, PhysicalType::UInt16, Cell::UInt16(v)),
    {
        let one = series_from_u16(self.name.as_str(), v);
        self.append_one(&one, PhysicalType::UInt16)
    }

    /// Writes a 32-bit unsigned integer.
    pub fn serialize_u32(&mut self, v: u32) -> (r: Result<(), PlRowSerdeErrorTypes>)
        requires
            old(self).wf(),
        ensures
            final(self).wf(),
            cell_written(old(self)@, final(self)@, r, PhysicalType::UInt32, Cell::UInt32(v)),
    {
        let one = series_from_u32(self.name.as_str(), v);
        self.append_one(&one, PhysicalType::UInt32)
    }

    /// Writes a 64-bit unsigned integer.
    pub fn serialize_u64(&mut self, v: u64) -> (r: Result<(), PlRowSerdeErrorTypes>)
        requires
            old(self).wf(),
        ensures
            final(self).wf(),
            cell_written(old(self)@, final(self)@, r, PhysicalType::UInt64, Cell::UInt64(v)),
    {
        let one = series_from_u64(self.name.as_str(), v);
        self.append_one(&one, PhysicalType::UInt64)
    }

    /// Writes a character, as the text that holds it alone.
    pub fn serialize_char(&mut self, v: char) -> (r: Result<(), PlRowSerdeErrorTypes>)
        requires
            old(self).wf(),
        ensures
            final(self).wf(),
            cell_written(old(self)@, final(self)@, r, PhysicalType::String, Cell::Text(seq![v])),
    {
        let one = series_from_char(self.name.as_str(), v);
        self.append_one(&one, PhysicalType::String)
    }

    /// Writes a text.
    pub fn serialize_str(&mut self, v: &str) -> (r: Result<(), PlRowSerdeErrorTypes>)
        requires
            old(self).wf(),
        ensures
            final(self).wf(),
            cell_written(old(self)@, final(self)@, r, PhysicalType::String, Cell::Text(v@)),
    {
        let one = series_from_str(self.name.as_str(), v);
        self.append_one(&one, PhysicalType::String)
    }

    /// Writes a byte string.
    pub fn serialize_bytes(&mut self, v: &Vec<u8>) -> (r: Result<(), PlRowSerdeErrorTypes>)
        requires
            old(self).wf(),
        ensures
            final(self).wf(),
            cell_written(old(self)@, final(self)@, r, PhysicalType::Binary, Cell::Bytes(v@)),
    {
        let one = series_from_bytes(self.name.as_str(), v);
        self.append_one(&one, PhysicalType::Binary)
    }

    /// Writes the unit value, as the boolean `true`.
    pub fn serialize_unit(&mut self) -> (r: Result<(), PlRowSerdeErrorTypes>)
        requires
            old(self).wf(),
        ensures
            final(self).wf(),
            cell_written(old(self)@, final(self)@, r, PhysicalType::Boolean, Cell::Bool(true)),
    {
        self.serialize_bool(true)
    }

    /// Writes a unit struct, as the text of its name.
    pub fn serialize_unit_struct(&mut self, name: &str) -> (r: Result<(), PlRowSerdeErrorTypes>)
        requires
            old(self).wf(),
        ensures
            final(self).wf(),
            cell_written(old(self)@, final(self)@, r, PhysicalType::String, Cell::Text(name@)),
    {
        self.serialize_str(name)
    }

    /// Writes the variant of an enum, as a category.
    pub fn serialize_unit_variant(&mut self, variant: &str) -> (r: Result<
        (),
        PlRowSerdeErrorTypes,
    >)
        requires
            old(self).wf(),
        ensures
            final(self).wf(),
            cell_written(
                old(self)@,
                final(self)@,
                r,
                PhysicalType::Categorical,
                Cell::Category(variant@),
            ),
    {
        if self.len() >= MAX_ROWS {
            return Err(PlRowSerdeErrorTypes::ShapeMismatch);
        }
        if self.anyval_buffer.is_some() && self.datatype != PhysicalType::Categorical {
            return Err(PlRowSerdeErrorTypes::TypeMisMatch);
        }
        let text = series_from_str(self.name.as_str(), variant);
        match series_cast_category(&text) {
            Ok(one) => self.append_one(&one, PhysicalType::Categorical),
            Err(_) => Err(
                PlRowSerdeErrorTypes::Custom("the storage refused the category".to_owned()),
            ),
        }
    }

    /// Writes a null: counted while the column has no type, stored in
    /// the column once it has one. A struct column has no slot of its
    /// own: each of its sub-columns takes the null.
    pub fn serialize_none(&mut self) -> (r: Result<(), PlRowSerdeErrorTypes>)
        requires
            old(self).wf(),
        ensures
            final(self).wf(),
            null_written(old(self)@, final(self)@, r),
        decreases *old(self), 1int,
    {
        if self.len() >= MAX_ROWS {
            return Err(PlRowSerdeErrorTypes::ShapeMismatch);
        }
        if self.anyval_buffer.is_none() && self.datatype == PhysicalType::Struct {
            proof {
                lemma_table(self.nested);
            }
            let ghost before = self.nested@;
            self.nested.null_row();
            self.null_count = self.null_count + 1;
            proof {
                lemma_table(self.nested);
                assert(self.nested@.len() == self.nested.pl_ser_map.len());
                assert(self@.cells =~= old(self)@.cells.push(Cell::Row));
                assert(self@.fields =~= null_row(old(self)@).fields);
                assert forall|i: int| 0 <= i < self.nested@.len() implies (
                #[trigger] self.nested@[i]).cells.len() == self.null_count by {
                    assert(before[i].cells.len() == old(self).null_count);
                }
            }
            return Ok(());
        }
        let mut storage = match self.anyval_buffer.take() {
            Some(s) => s,
            None => {
                self.null_count = self.null_count + 1;
                assert(final(self)@.cells =~= old(self)@.cells.push(Cell::Null)) by {
                    assert(self@.cells =~= old(self)@.cells.push(Cell::Null));
                }
                return Ok(());
            },
        };
        let null = series_new_null(self.name.as_str(), 1);
        let appended = series_append(&mut storage, &null);
        assert(appended is Ok ==> series_view(storage).cells =~= old(self)@.cells.push(Cell::Null));
        self.anyval_buffer = Some(storage);
        match appended {
            Ok(()) => Ok(()),
            Err(_) => Err(PlRowSerdeErrorTypes::Custom("the storage refused the null".to_owned())),
        }
    }

    /// Writes a value that is there: the value itself.
    pub fn serialize_some(&mut self, value: &Value) -> (r: Result<(), PlRowSerdeErrorTypes>)
        requires
            old(self).wf(),
        ensures
            final(self).wf(),
            value_written(old(self)@, final(self)@, r, value@),
    {
        self.write(value)
    }

    /// Writes `value`, whatever it is. A record becomes a row of a
    /// struct column: its fields go to the sub-columns of their names,
    /// and each sub-column must get the row, else nothing is written. A
    /// sequence has no place in a column and is refused as a mismatch.
    pub fn write(&mut self, value: &Value) -> (r: Result<(), PlRowSerdeErrorTypes>)
        requires
            old(self).wf(),
        ensures
            final(self).wf(),
            value_written(old(self)@, final(self)@, r, value@),
        decreases *value, 2int,
    {
        match value {
            Value::Unit => self.serialize_unit(),
            Value::Absent => self.serialize_none(),
            Value::Present(inner) => self.write(inner),
            Value::Bool(v) => self.serialize_bool(*v),
            Value::I8(v) => self.serialize_i8(*v),
            Value::I16(v) => self.serialize_i16(*v),
            Value::I32(v) => self.serialize_i32(*v),
            Value::I64(v) => self.serialize_i64(*v),
            Value::U8(v) => self.serialize_u8(*v),
            Value::U16(v) => self.serialize_u16(*v),
            Value::U32(v) => self.serialize_u32(*v),
            Value::U64(v) => self.serialize_u64(*v),
            Value::Char(v) => self.serialize_char(*v),
            Value::Text(v) => self.serialize_str(v.as_str()),
            Value::Bytes(v) => self.serialize_bytes(v),
            Value::Variant(v) => self.serialize_unit_variant(v.as_str()),
            Value::UnitStruct(v) => self.serialize_unit_struct(v.as_str()),
            Value::Sequence(_) => Err(PlRowSerdeErrorTypes::TypeMisMatch),
            Value::Record(fields) => {
                let rows = self.len();
                if rows >= MAX_ROWS {
                    return Err(PlRowSerdeErrorTypes::ShapeMismatch);
                }
                let nested = self.anyval_buffer.is_none() && self.datatype
                    == PhysicalType::Struct;
                let untyped = self.anyval_buffer.is_none() && self.datatype
                    == PhysicalType::Null;
                proof {
                    lemma_table(self.nested);
                }
                let ghost entries = fields_view(*fields);
                assert(value@ == ValueView::Record(entries));
                assert(entries.len() == fields.len());
                assert(old(self)@.cells.len() == rows);
                if fields.len() == 0 || !(nested || untyped) {
                    return Err(PlRowSerdeErrorTypes::TypeMisMatch);
                }
                let backup = self.nested.duplicate();
                if untyped {
                    assert(self.nested@ =~= Seq::<ColumnView>::empty());
                    let mut i: usize = 0;
                    while i < fields.len()
                        invariant
                            i <= fields.len(),
                            rows <= MAX_ROWS,
                            self.nested.wf(),
                            self.anyval_buffer == old(self).anyval_buffer,
                            self.datatype == old(self).datatype,
                            self.name == old(self).name,
                            self.null_count == old(self).null_count,
                            entries == fields_view(*fields),
                            entries.len() == fields.len(),
                            self.nested@ == spec_reserved(
                                Seq::empty(),
                                entries,
                                i as int,
                                rows as nat,
                            ),
                        decreases fields.len() - i,
                    {
                        assert(entries[i as int].name == fields[i as int].name@);
                        let _at = self.nested.reserve_filled(fields[i].name.as_str(), rows);
                        i += 1;
                    }
                } else {
                    assert(self.nested@ =~= old(self)@.fields);
                }
                let ghost before = self.nested@;
                let written = self.nested.serialize_record(value);
                let complete = match written {
                    Ok(()) => self.nested.all_have_rows(rows + 1),
                    Err(_) => false,
                };
                if !complete {
                    self.nested = backup;
                    proof {
                        lemma_table(self.nested);
                        lemma_table(old(self).nested);
                        assert(self.nested@.len() == self.nested.pl_ser_map.len());
                        assert(old(self).nested@.len() == old(self).nested.pl_ser_map.len());
                        assert(self@.cells =~= old(self)@.cells);
                    }
                    return match written {
                        Ok(()) => Err(PlRowSerdeErrorTypes::ShapeMismatch),
                        Err(e) => Err(e),
                    };
                }
                proof {
                    lemma_table(self.nested);
                    lemma_put_fields_width(before, entries, entries.len() as int);
                }
                self.datatype = PhysicalType::Struct;
                self.null_count = rows + 1;
                assert(self@.cells =~= Seq::new((rows + 1) as nat, |i: int| Cell::Row));
                Ok(())
            },
        }
    }

    /// The column as it would be finished now: the typed column with
    /// its nulls in place, the struct column over its sub-columns, or,
    /// where no value ever arrived, a column of the null type with the
    /// counted nulls.
    pub fn snapshot(&self) -> (r: Series)
        requires
            self.wf(),
        ensures
            series_view(r) == self@,
        decreases self, 1int,
    {
        match &self.anyval_buffer {
            Some(s) => series_clone(s),
            None => {
                if self.datatype == PhysicalType::Struct {
                    proof {
                        lemma_table(self.nested);
                    }
                    let fields = self.nested.snapshots();
                    assert(views(fields@).len() == fields.len());
                    assert(self.nested@.len() == self.nested.pl_ser_map.len());
                    assert(views(fields@)[0].cells.len() == self.null_count);
                    match series_from_fields(self.name.as_str(), &fields) {
                        Ok(s) => {
                            assert(series_view(s).cells =~= self@.cells);
                            s
                        },
                        Err(_) => series_new_null(self.name.as_str(), 0),
                    }
                } else {
                    series_new_null(self.name.as_str(), self.null_count)
                }
            },
        }
    }

    /// The finished column: the typed column with its nulls in place,
    /// the struct column over its sub-columns, or, where no value ever
    /// arrived, a column of the null type with the counted nulls.
    pub fn finish(self) -> (r: Series)
        requires
            self.wf(),
        ensures
            series_view(r) == self@,
    {
        self.snapshot()
    }
}

/// The two ways of saying what an accumulator has built, and that it is
/// in order, say the same.
pub proof fn lemma_table(p: PlRowSerStruct)
    ensures
        table_view(p) == p@,
        table_wf(p) == p.wf(),
{
    assert(table_view(p) =~= p@);
}

/// The columns that `builders` have built so far, one for one.
pub open spec fn built(builders: Seq<SerdeItemAnyValueBuffer>) -> Seq<ColumnView> {
    Seq::new(builders.len(), |i: int| builders[i]@)
}

/// The field accumulator: one column builder per field name, in the
/// order in which the names were first seen, and no name twice.
pub struct PlRowSerStruct {
    pl_ser_map: Vec<SerdeItemAnyValueBuffer>,
}

impl View for PlRowSerStruct {
    type V = Seq<ColumnView>;

    /// The columns built so far.
    closed spec fn view(&self) -> Seq<ColumnView> {
        built(self.pl_ser_map@)
    }
}

impl Default for PlRowSerStruct {
    fn default() -> (r: Self)
        ensures
            r.wf(),
            r@ == Seq::<ColumnView>::empty(),
    {
        PlRowSerStruct::new()
    }
}

impl PlRowSerStruct {
    /// Every builder is in order, and no two are for one name.
    pub closed spec fn wf(&self) -> bool {
        &&& forall|i: int| 0 <= i < self.pl_ser_map.len() ==> (#[trigger] self.pl_ser_map[i]).wf()
        &&& distinct_names(self@)
    }

    /// An accumulator without columns.
    pub fn new() -> (r: Self)
        ensures
            r.wf(),
            r@ == Seq::<ColumnView>::empty(),
    {
        let r = PlRowSerStruct { pl_ser_map: Vec::new() };
        assert(r@ =~= Seq::<ColumnView>::empty());
        r
    }

    /// A second accumulator that has built the same columns. Nothing
    /// of the storage is copied but handles.
    pub fn duplicate(&self) -> (r: Self)
        requires
            self.wf(),
        ensures
            r.wf(),
            r@ == self@,
        decreases self, 1int,
    {
        let mut copies: Vec<SerdeItemAnyValueBuffer> = Vec::new();
        let mut i: usize = 0;
        while i < self.pl_ser_map.len()
            invariant
                self.wf(),
                i <= self.pl_ser_map.len(),
                copies.len() == i,
                forall|j: int| 0 <= j < i ==> (#[trigger] copies[j]).wf() && copies[j]@
                    == self.pl_ser_map[j]@,
            decreases self.pl_ser_map.len() - i,
        {
            let copy = self.pl_ser_map[i].duplicate();
            copies.push(copy);
            i += 1;
        }
        let r = PlRowSerStruct { pl_ser_map: copies };
        assert(r@ =~= self@);
        r
    }

    /// Puts a row of nothing behind the last row of every column.
    pub fn null_row(&mut self)
        requires
            old(self).wf(),
            forall|i: int| 0 <= i < old(self)@.len() ==> (#[trigger] old(self)@[i]).cells.len()
                < MAX_ROWS,
        ensures
            final(self).wf(),
            final(self)@ == null_rows(old(self)@),
            forall|i: int|
                0 <= i < final(self)@.len() ==> (#[trigger] final(self)@[i]).cells.len() == old(
                    self,
                )@[i].cells.len() + 1,
        decreases *old(self), 1int,
    {
        let n = self.pl_ser_map.len();
        let mut i: usize = 0;
        while i < n
            invariant
                i <= n,
                n == self.pl_ser_map.len(),
                n == old(self).pl_ser_map.len(),
                forall|j: int| 0 <= j < n ==> (#[trigger] self.pl_ser_map[j]).wf(),
                forall|j: int| i <= j < n ==> self.pl_ser_map[j] == old(self).pl_ser_map[j],
                forall|j: int| 0 <= j < i ==> (#[trigger] self.pl_ser_map[j])@ == null_row(
                    old(self).pl_ser_map[j]@,
                ),
                forall|j: int| 0 <= j < n ==> (#[trigger] old(self)@[j]).cells.len() < MAX_ROWS,
                old(self)@.len() == n,
                old(self).wf(),
            decreases n - i,
        {
            let ghost before = self.pl_ser_map@;
            let mut builder = self.pl_ser_map.remove(i);
            assert(builder == old(self).pl_ser_map[i as int]);
            assert(builder@ == old(self)@[i as int]);
            let _done = builder.serialize_none();
            self.pl_ser_map.insert(i, builder);
            assert(self.pl_ser_map@ =~= before.update(i as int, builder));
            i += 1;
        }
        assert(self@ =~= null_rows(old(self)@));
        assert forall|a: int, b: int| 0 <= a < b < self@.len() implies (#[trigger] self@[a]).name != (
        #[trigger] self@[b]).name by {
            lemma_null_row_name(old(self)@[a]);
            lemma_null_row_name(old(self)@[b]);
            assert(old(self)@[a].name != old(self)@[b].name);
        }
        assert forall|j: int| 0 <= j < self@.len() implies (#[trigger] self@[j]).cells.len() == old(
            self,
        )@[j].cells.len() + 1 by {
            lemma_null_row_name(old(self)@[j]);
        }
    }

    /// Whether every column has exactly `rows` rows.
    pub fn all_have_rows(&self, rows: usize) -> (r: bool)
        requires
            self.wf(),
        ensures
            r == all_of_length(self@, rows as nat),
    {
        let mut i: usize = 0;
        while i < self.pl_ser_map.len()
            invariant
                self.wf(),
                i <= self.pl_ser_map.len(),
                self@.len() == self.pl_ser_map.len(),
                forall|j: int| 0 <= j < i ==> (#[trigger] self@[j]).cells.len() == rows,
            decreases self.pl_ser_map.len() - i,
        {
            if self.pl_ser_map[i].len() != rows {
                assert(self@[i as int].cells.len() != rows);
                return false;
            }
            i += 1;
        }
        true
    }

    /// The columns as they would be finished now, in their order.
    pub fn snapshots(&self) -> (r: Vec<Series>)
        requires
            self.wf(),
        ensures
            views(r@) == self@,
        decreases self, 1int,
    {
        let mut columns: Vec<Series> = Vec::new();
        let mut i: usize = 0;
        while i < self.pl_ser_map.len()
            invariant
                self.wf(),
                i <= self.pl_ser_map.len(),
                columns.len() == i,
                forall|j: int| 0 <= j < i ==> series_view(#[trigger] columns[j])
                    == self.pl_ser_map[j]@,
            decreases self.pl_ser_map.len() - i,
        {
            let column = self.pl_ser_map[i].snapshot();
            columns.push(column);
            i += 1;
        }
        assert(views(columns@) =~= self@);
        columns
    }

    /// The index of the builder for `key`, or the number of builders
    /// where there is none.
    fn position(&self, key: &String) -> (k: usize)
        requires
            self.wf(),
        ensures
            k == column_position(self@, key@),
            k <= self@.len(),
            k < self@.len() ==> self@[k as int].name == key@,
    {
        let mut i: usize = 0;
        while i < self.pl_ser_map.len()
            invariant
                self.wf(),
                i <= self.pl_ser_map.len(),
                self@.len() == self.pl_ser_map.len(),
                column_position(self@, key@) == first_column_from(self@, key@, i as int),
            decreases self.pl_ser_map.len() - i,
        {
            if *self.pl_ser_map[i].name() == *key {
                return i;
            }
            i += 1;
        }
        i
    }

    /// Makes sure that there is a column for `key` and says where: a
    /// name that is new gets an empty column behind the others.
    pub fn reserve(&mut self, key: &str) -> (k: usize)
        requires
            old(self).wf(),
        ensures
            final(self).wf(),
            final(self)@ == spec_with_column(old(self)@, key@),
            k == column_position(old(self)@, key@),
            k < final(self)@.len(),
            final(self)@[k as int].name == key@,
    {
        self.reserve_filled(key, 0)
    }

    /// Makes sure that there is a column for `key` and says where: a
    /// name that is new gets a column of `fill` nulls behind the others.
    pub fn reserve_filled(&mut self, key: &str, fill: usize) -> (k: usize)
        requires
            old(self).wf(),
            fill <= MAX_ROWS,
        ensures
            final(self).wf(),
            final(self)@ == spec_with_filled(old(self)@, key@, fill as nat),
            k == column_position(old(self)@, key@),
            k < final(self)@.len(),
            final(self)@[k as int].name == key@,
    {
        let name = key.to_owned();
        let k = self.position(&name);
        if k == self.pl_ser_map.len() {
            self.pl_ser_map.push(SerdeItemAnyValueBuffer::with_nulls(key, fill));
        }
        assert(self@ =~= spec_with_filled(old(self)@, key@, fill as nat));
        assert(distinct_names(self@)) by {
            lemma_position_absent(old(self)@, key@, 0);
        }
        k
    }

    /// Writes the field `key` of a record: into the column of that name,
    /// which is made first where the name is new.
    pub fn serialize_field(&mut self, key: &str, value: &Value) -> (r: Result<
        (),
        PlRowSerdeErrorTypes,
    >)
        requires
            old(self).wf(),
        ensures
            final(self).wf(),
            field_written(old(self)@, final(self)@, r, key@, value@),
        decreases *value, 3int,
    {
        let k = self.reserve(key);
        let ghost base = self@;
        let mut builder = self.pl_ser_map.remove(k);
        assert(builder@ == base[k as int]);
        let r = builder.write(value);
        proof {
            lemma_write_keeps_name(base[k as int], builder@, r, value@);
        }
        self.pl_ser_map.insert(k, builder);
        assert(self@ =~= base.update(k as int, builder@));
        assert(r is Err ==> self@ =~= base);
        r
    }

    /// Writes the field `key` of a record with the one row of `one`, a
    /// column that the caller has made for a value of its own: what
    /// `serialize_field` does for a value of the library. A column that
    /// does not have exactly one row, the name `key` and a type that a
    /// builder can grow is refused as a mismatch.
    pub fn serialize_field_series(&mut self, key: &str, one: &Series) -> (r: Result<
        (),
        PlRowSerdeErrorTypes,
    >)
        requires
            old(self).wf(),
        ensures
            final(self).wf(),
            r is Err ==> final(self)@ == spec_with_column(old(self)@, key@),
            if one_row_for(series_view(*one), key@) {
                match r {
                    Ok(()) => spec_put_cell(
                        old(self)@,
                        key@,
                        series_view(*one).kind,
                        series_view(*one).cells[0],
                    ) == Ok::<Seq<ColumnView>, PlRowSerdeErrorTypes>(final(self)@),
                    Err(PlRowSerdeErrorTypes::Custom(_)) => put_cell_at_risk(
                        old(self)@,
                        key@,
                        series_view(*one).kind,
                        series_view(*one).cells[0],
                    ),
                    Err(e) => spec_put_cell(
                        old(self)@,
                        key@,
                        series_view(*one).kind,
                        series_view(*one).cells[0],
                    ) == Err::<Seq<ColumnView>, PlRowSerdeErrorTypes>(e),
                }
            } else {
                r == Err::<(), PlRowSerdeErrorTypes>(PlRowSerdeErrorTypes::TypeMisMatch)
            },
    {
        let k = self.reserve(key);
        let ghost base = self@;
        let mut builder = self.pl_ser_map.remove(k);
        assert(builder@ == base[k as int]);
        let r = builder.serialize_series(one);
        self.pl_ser_map.insert(k, builder);
        assert(self@ =~= base.update(k as int, builder@));
        assert(r is Err ==> self@ =~= base);
        r
    }

    /// Writes one record: each of its fields in order. Anything but a
    /// record is refused as a mismatch.
    pub fn serialize_record(&mut self, record: &Value) -> (r: Result<(), PlRowSerdeErrorTypes>)
        requires
            old(self).wf(),
        ensures
            final(self).wf(),
            match r {
                Ok(()) => spec_put_record(old(self)@, record@) == Ok::<
                    Seq<ColumnView>,
                    PlRowSerdeErrorTypes,
                >(final(self)@),
                Err(PlRowSerdeErrorTypes::Custom(_)) => !plain_record(record@) && record@ is Record
                    && record_refused(
                    old(self)@,
                    final(self)@,
                    record@->Record_0,
                ),
                Err(e) => spec_put_record(old(self)@, record@) == Err::<
                    Seq<ColumnView>,
                    PlRowSerdeErrorTypes,
                >(e),
            },
            r is Err ==> match record@ {
                ValueView::Record(fields) => record_stopped(old(self)@, final(self)@, fields),
                _ => final(self)@ == old(self)@,
            },
        decreases *record, 1int,
    {
        let fields = match record {
            Value::Record(fields) => fields,
            _ => {
                return Err(PlRowSerdeErrorTypes::TypeMisMatch);
            },
        };
        let ghost entries = fields_view(*fields);
        let mut i: usize = 0;
        while i < fields.len()
            invariant
                self.wf(),
                i <= fields.len(),
                entries == fields_view(*fields),
                entries.len() == fields.len(),
                record@ == ValueView::Record(entries),
                *record == Value::Record(*fields),
                spec_put_fields(old(self)@, entries, i as int) == Ok::<
                    Seq<ColumnView>,
                    PlRowSerdeErrorTypes,
                >(self@),
            decreases fields.len() - i,
        {
            assert(entries[i as int].name == fields[i as int].name@);
            assert(entries[i as int].value == fields[i as int].value@);
            let ghost before = self@;
            match self.serialize_field(fields[i].name.as_str(), &fields[i].value) {
                Ok(()) => {},
                Err(e) => {
                    proof {
                        if !(e is Custom) {
                            lemma_put_fields_error(old(self)@, entries, i + 1, fields.len() as int);
                        }
                        assert(spec_put_fields(old(self)@, entries, i as int) is Ok);
                        assert(record_stopped(old(self)@, self@, entries));
                        if e is Custom {
                            assert(at_risk_in(old(self)@, entries, i as int));
                            lemma_risk_needs_category(
                                before,
                                entries[i as int].name,
                                entries[i as int].value,
                            );
                            lemma_field_variant(entries, i as int);
                        }
                    }
                    return Err(e);
                },
            }
            i += 1;
        }
        Ok(())
    }

    /// The finished table. The columns must all have the same number of
    /// rows: a field that some record left out makes its column short,
    /// and nothing is padded.
    pub fn into_dataframe(self) -> (r: Result<DataFrame, PlRowSerdeErrorTypes>)
        requires
            self.wf(),
        ensures
            match r {
                Ok(df) => spec_finish(self@) == Ok::<Seq<ColumnView>, PlRowSerdeErrorTypes>(
                    frame_view(df),
                ),
                Err(e) => spec_finish(self@) == Err::<Seq<ColumnView>, PlRowSerdeErrorTypes>(e),
            },
    {
        let ghost target = self@;
        let mut builders = self.pl_ser_map;
        let mut columns: Vec<Series> = Vec::new();
        let mut rows: usize = 0;
        let mut even = true;
        while builders.len() > 0
            invariant
                forall|i: int| 0 <= i < builders.len() ==> (#[trigger] builders[i]).wf(),
                target == views(columns@) + built(builders@),
                even ==> forall|i: int|
                    0 <= i < columns.len() ==> (#[trigger] series_view(columns[i])).cells.len()
                        == rows,
                !even ==> !same_length(target),
            decreases builders.len(),
        {
            let ghost before_columns = columns@;
            let ghost before_builders = builders@;
            let builder = builders.remove(0);
            let n = builder.len();
            let column = builder.finish();
            if columns.len() == 0 {
                rows = n;
            } else if even && n != rows {
                even = false;
                assert(target[0] == series_view(columns[0]));
                assert(target[columns.len() as int] == series_view(column));
            }
            columns.push(column);
            assert(views(columns@) + built(builders@) =~= views(before_columns) + built(
                before_builders,
            ));
        }
        assert(target =~= views(columns@));
        if !even {
            return Err(PlRowSerdeErrorTypes::ShapeMismatch);
        }
        assert(same_length(target));
        match frame_new(columns) {
            Ok(df) => Ok(df),
            Err(_) => Err(PlRowSerdeErrorTypes::ShapeMismatch),
        }
    }
}

/// The accumulator for records that come as maps: a key names the
/// column, and the value that follows it is written there.
pub struct PlRowSerMap {
    pl_ser_map: PlRowSerStruct,
    curr_key: String,
}

impl View for PlRowSerMap {
    type V = Seq<ColumnView>;

    /// The columns built so far.
    closed spec fn view(&self) -> Seq<ColumnView> {
        self.pl_ser_map@
    }
}

impl Default for PlRowSerMap {
    fn default() -> (r: Self)
        ensures
            r.wf(),
            r@ == Seq::<ColumnView>::empty(),
            r.key() == Seq::<char>::empty(),
    {
        PlRowSerMap { pl_ser_map: PlRowSerStruct::new(), curr_key: String::new() }
    }
}

impl PlRowSerMap {
    /// The key that the next value belongs to.
    pub closed spec fn key(&self) -> Seq<char> {
        self.curr_key@
    }

    /// The columns are in order.
    pub closed spec fn wf(&self) -> bool {
        self.pl_ser_map.wf()
    }

    /// Takes the key of an entry: the next value goes to the column of
    /// that name, which is made now where the name is new.
    pub fn serialize_key(&mut self, key: &str)
        requires
            old(self).wf(),
        ensures
            final(self).wf(),
            final(self).key() == key@,
            final(self)@ == spec_with_column(old(self)@, key@),
    {
        self.curr_key = key.to_owned();
        let _at = self.pl_ser_map.reserve(key);
    }

    /// Writes the value of an entry to the column of the key that came
    /// before it. The key is used up: what is left is the empty name.
    pub fn serialize_value(&mut self, value: &Value) -> (r: Result<(), PlRowSerdeErrorTypes>)
        requires
            old(self).wf(),
        ensures
            final(self).wf(),
            final(self).key() == Seq::<char>::empty(),
            field_written(old(self)@, final(self)@, r, old(self).key(), value@),
    {
        let r = self.pl_ser_map.serialize_field(self.curr_key.as_str(), value);
        self.curr_key = String::new();
        r
    }

    /// The accumulator of the columns, once all entries are written.
    pub fn end(self) -> (r: PlRowSerStruct)
        requires
            self.wf(),
        ensures
            r.wf(),
            r@ == self@,
    {
        self.pl_ser_map
    }
}

} // verus!
