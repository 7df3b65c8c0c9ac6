//! The row view: one column at one row, and what it answers.
//!
//! The typed reads at the top are the column cursor. `extract` is the
//! value extractor: it answers a whole request, entering nested columns
//! through the sequence cursor and the map cursor.

use crate::column::{
    Cell, ColumnView, Layout, PhysicalType, layout_of, rows_in, series_clone, series_get_array,
    series_get_binary, series_get_binary_offset, series_get_bool, series_get_category,
    series_get_i16, series_get_i32, series_get_i64, series_get_i8, series_get_list,
    series_get_str, series_get_u16, series_get_u32, series_get_u64, series_get_u8,
    series_is_null_at, series_layout, series_len, series_null_count, series_struct_fields,
    series_view,
};
use crate::deser_map::PlRowImplMapAccess;
use crate::deser_model::{
    SeqItemView, answers, byte_items, category_items, lemma_byte_elements_error,
    lemma_collect_error, lemma_pull_all_error, lemma_pull_error, row_items, spec_answer_byte,
    spec_answer_text, spec_byte_elements, spec_bytes, spec_char,
    spec_collect, spec_element, spec_extract, spec_present, spec_pull, spec_pull_all,
    spec_seq_items, spec_variant,
};
use crate::deser_seq::{
    ChunkedArrayDeserializer, NoneDeserializer, SeqItem, item_view_at, items_view, items_wf,
};
use crate::pl_row_error::PlRowSerdeErrorTypes;
use crate::request::{FieldRequest, Request, find_field};
use crate::value::{Field, FieldView, Value, ValueView, fields_view, values_view};
use polars::series::Series;
use std::rc::Rc;
use vstd::prelude::*;

verus! {

/// A column and the index of one of its rows.
pub struct SeriesDeserItem {
    pub series: Series,
    pub row_idx: usize,
}

/// The elements of a sequence that is made of the bytes `bytes`.
fn byte_cursor(bytes: &Vec<u8>) -> (r: ChunkedArrayDeserializer)
    ensures
        r.wf(),
        r.items() == byte_items(bytes@),
        r.position() == 0,
        r.hint() == bytes.len(),
{
    let mut chunked: Vec<Option<SeqItem>> = Vec::new();
    let mut i: usize = 0;
    while i < bytes.len()
        invariant
            i <= bytes.len(),
            chunked.len() == i,
            items_wf(chunked@),
            forall|j: int| 0 <= j < i ==> (#[trigger] chunked[j]) == Some(SeqItem::Byte(bytes[j])),
        decreases bytes.len() - i,
    {
        chunked.push(Some(SeqItem::Byte(bytes[i])));
        i += 1;
    }
    assert(items_view(chunked@) =~= byte_items(bytes@));
    ChunkedArrayDeserializer::new(chunked, bytes.len())
}

/// The elements of a sequence that is made of the rows of `src`.
fn row_cursor(src: &Series) -> (r: ChunkedArrayDeserializer)
    ensures
        r.wf(),
        r.items() == row_items(series_view(*src)),
        r.position() == 0,
        r.hint() == series_view(*src).cells.len(),
{
    let n = series_len(src);
    let mut chunked: Vec<Option<SeqItem>> = Vec::new();
    let mut j: usize = 0;
    while j < n
        invariant
            j <= n,
            n == series_view(*src).cells.len(),
            chunked.len() == j,
            items_wf(chunked@),
            forall|i: int|
                0 <= i < j ==> item_view_at(chunked@, i) == #[trigger] row_items(
                    series_view(*src),
                )[i],
        decreases n - j,
    {
        let absent = match series_is_null_at(src, j) {
            Ok(b) => b,
            Err(_) => false,
        };
        if absent {
            chunked.push(None);
        } else {
            chunked.push(Some(SeqItem::Row(SeriesDeserItem { series: series_clone(src), row_idx: j })));
        }
        j += 1;
    }
    assert(items_view(chunked@) =~= row_items(series_view(*src)));
    ChunkedArrayDeserializer::new(chunked, n)
}

/// The elements of a sequence that is made of the decoded categories
/// of `src`.
fn category_cursor(src: &Series) -> (r: ChunkedArrayDeserializer)
    requires
        layout_of(series_view(*src).kind) == Layout::Categorical,
    ensures
        r.wf(),
        r.items() == category_items(series_view(*src)),
        r.position() == 0,
        r.hint() == series_view(*src).cells.len(),
{
    let n = series_len(src);
    let mut chunked: Vec<Option<SeqItem>> = Vec::new();
    let mut j: usize = 0;
    while j < n
        invariant
            j <= n,
            n == series_view(*src).cells.len(),
            layout_of(series_view(*src).kind) == Layout::Categorical,
            chunked.len() == j,
            items_wf(chunked@),
            forall|i: int|
                0 <= i < j ==> item_view_at(chunked@, i) == #[trigger] category_items(
                    series_view(*src),
                )[i],
        decreases n - j,
    {
        match series_get_category(src, j) {
            Ok(Some(t)) => {
                chunked.push(Some(SeqItem::Text(t)));
            },
            _ => {
                chunked.push(None);
            },
        }
        j += 1;
    }
    assert(items_view(chunked@) =~= category_items(series_view(*src)));
    ChunkedArrayDeserializer::new(chunked, n)
}

/// What a decoded category, handed out as an element of a sequence,
/// answers to `request`.
pub fn answer_text(t: String, request: &Request) -> (r: Result<Value, PlRowSerdeErrorTypes>)
    ensures
        answers(r, spec_answer_text(t@, *request)),
    decreases *request,
{
    match request {
        Request::Text => Ok(Value::Text(t)),
        Request::Enum => Ok(Value::Variant(t)),
        Request::Optional(inner) => match answer_text(t, inner) {
            Ok(v) => Ok(Value::Present(Box::new(v))),
            Err(e) => Err(e),
        },
        Request::Identifier => Ok(Value::Unit),
        Request::Ignored => Ok(Value::Unit),
        _ => Err(PlRowSerdeErrorTypes::TypeMisMatch),
    }
}

/// What a byte, handed out as an element of a sequence, answers to
/// `request`.
pub fn answer_byte(b: u8, request: &Request) -> (r: Result<Value, PlRowSerdeErrorTypes>)
    ensures
        answers(r, spec_answer_byte(b, *request)),
    decreases *request,
{
    match request {
        Request::U8 => Ok(Value::U8(b)),
        Request::Char => Ok(Value::Char(b as char)),
        Request::Optional(inner) => match answer_byte(b, inner) {
            Ok(v) => Ok(Value::Present(Box::new(v))),
            Err(e) => Err(e),
        },
        Request::Identifier => Ok(Value::Unit),
        Request::Ignored => Ok(Value::Unit),
        _ => Err(PlRowSerdeErrorTypes::TypeMisMatch),
    }
}

impl SeriesDeserItem {
    /// The column that is read.
    pub open spec fn column(&self) -> ColumnView {
        series_view(self.series)
    }

    /// The index is a row of the column.
    pub open spec fn wf(&self) -> bool {
        self.row_idx < self.column().cells.len()
    }

    /// The view of row `row_idx` of `series`.
    pub fn new(series: Series, row_idx: usize) -> (r: Self)
        ensures
            r.series == series,
            r.row_idx == row_idx,
    {
        SeriesDeserItem { series, row_idx }
    }

    /// Whether the index is a row of the column: the reads below ask
    /// for it.
    pub fn in_bounds(&self) -> (r: bool)
        ensures
            r == self.wf(),
    {
        self.row_idx < series_len(&self.series)
    }

    /// A second view of the same row.
    pub fn duplicate(&self) -> (r: Self)
        ensures
            r.column() == self.column(),
            r.row_idx == self.row_idx,
    {
        SeriesDeserItem { series: series_clone(&self.series), row_idx: self.row_idx }
    }

    /// The slot as a boolean.
    pub fn deserialize_bool(&self) -> (r: Result<bool, PlRowSerdeErrorTypes>)
        requires
            self.wf(),
        ensures
            match r {
                Ok(v) => spec_extract(self.column(), self.row_idx as int, Request::Bool) == Ok::<
                    ValueView,
                    PlRowSerdeErrorTypes,
                >(ValueView::Bool(v)),
                Err(e) => spec_extract(self.column(), self.row_idx as int, Request::Bool) == Err::<
                    ValueView,
                    PlRowSerdeErrorTypes,
                >(e),
            },
            r is Ok <==> self.column().kind == PhysicalType::Boolean && !(self.column().cells[self.row_idx as int] is Null),
    {
        match series_get_bool(&self.series, self.row_idx) {
            Ok(Some(v)) => Ok(v),
            Ok(None) => Err(PlRowSerdeErrorTypes::Null),
            Err(_) => Err(PlRowSerdeErrorTypes::TypeMisMatch),
        }
    }

    /// The slot as an 8-bit signed integer.
    pub fn deserialize_i8(&self) -> (r: Result<i8, PlRowSerdeErrorTypes>)
        requires
            self.wf(),
        ensures
            match r {
                Ok(v) => spec_extract(self.column(), self.row_idx as int, Request::I8) == Ok::<
                    ValueView,
                    PlRowSerdeErrorTypes,
                >(ValueView::I8(v)),
                Err(e) => spec_extract(self.column(), self.row_idx as int, Request::I8) == Err::<
                    ValueView,
                    PlRowSerdeErrorTypes,
                >(e),
            },
            r is Ok <==> self.column().kind == PhysicalType::Int8 && !(self.column().cells[self.row_idx as int] is Null),
    {
        match series_get_i8(&self.series, self.row_idx) {
            Ok(Some(v)) => Ok(v),
            Ok(None) => Err(PlRowSerdeErrorTypes::Null),
            Err(_) => Err(PlRowSerdeErrorTypes::TypeMisMatch),
        }
    }

    /// The slot as a 16-bit signed integer.
    pub fn deserialize_i16(&self) -> (r: Result<i16, PlRowSerdeErrorTypes>)
        requires
            self.wf(),
        ensures
            match r {
                Ok(v) => spec_extract(self.column(), self.row_idx as int, Request::I16) == Ok::<
                    ValueView,
                    PlRowSerdeErrorTypes,
                >(ValueView::I16(v)),
                Err(e) => spec_extract(self.column(), self.row_idx as int, Request::I16) == Err::<
                    ValueView,
                    PlRowSerdeErrorTypes,
                >(e),
            },
            r is Ok <==> self.column().kind == PhysicalType::Int16 && !(self.column().cells[self.row_idx as int] is Null),
    {
        match series_get_i16(&self.series, self.row_idx) {
            Ok(Some(v)) => Ok(v),
            Ok(None) => Err(PlRowSerdeErrorTypes::Null),
            Err(_) => Err(PlRowSerdeErrorTypes::TypeMisMatch),
        }
    }

    /// The slot as a 32-bit signed integer.
    pub fn deserialize_i32(&self) -> (r: Result<i32, PlRowSerdeErrorTypes>)
        requires
            self.wf(),
        ensures
            match r {
                Ok(v) => spec_extract(self.column(), self.row_idx as int, Request::I32) == Ok::<
                    ValueView,
                    PlRowSerdeErrorTypes,
                >(ValueView::I32(v)),
                Err(e) => spec_extract(self.column(), self.row_idx as int, Request::I32) == Err::<
                    ValueView,
                    PlRowSerdeErrorTypes,
                >(e),
            },
            r is Ok <==> self.column().kind == PhysicalType::Int32 && !(self.column().cells[self.row_idx as int] is Null),
    {
        match series_get_i32(&self.series, self.row_idx) {
            Ok(Some(v)) => Ok(v),
            Ok(None) => Err(PlRowSerdeErrorTypes::Null),
            Err(_) => Err(PlRowSerdeErrorTypes::TypeMisMatch),
        }
    }

    /// The slot as a 64-bit signed integer.
    pub fn deserialize_i64(&self) -> (r: Result<i64, PlRowSerdeErrorTypes>)
        requires
            self.wf(),
        ensures
            match r {
                Ok(v) => spec_extract(self.column(), self.row_idx as int, Request::I64) == Ok::<
                    ValueView,
                    PlRowSerdeErrorTypes,
                >(ValueView::I64(v)),
                Err(e) => spec_extract(self.column(), self.row_idx as int, Request::I64) == Err::<
                    ValueView,
                    PlRowSerdeErrorTypes,
                >(e),
            },
            r is Ok <==> self.column().kind == PhysicalType::Int64 && !(self.column().cells[self.row_idx as int] is Null),
    {
        match series_get_i64(&self.series, self.row_idx) {
            Ok(Some(v)) => Ok(v),
            Ok(None) => Err(PlRowSerdeErrorTypes::Null),
            Err(_) => Err(PlRowSerdeErrorTypes::TypeMisMatch),
        }
    }

    /// The slot as an 8-bit unsigned integer.
    pub fn deserialize_u8(&self) -> (r: Result<u8, PlRowSerdeErrorTypes>)
        requires
            self.wf(),
        ensures
            match r {
                Ok(v) => spec_extract(self.column(), self.row_idx as int, Request::U8) == Ok::<
                    ValueView,
                    PlRowSerdeErrorTypes,
                >(ValueView::U8(v)),
                Err(e) => spec_extract(self.column(), self.row_idx as int, Request::U8) == Err::<
                    ValueView,
                    PlRowSerdeErrorTypes,
                >(e),
            },
            r is Ok <==> self.column().kind == PhysicalType::UInt8 && !(self.column().cells[self.row_idx as int] is Null),
    {
        match series_get_u8(&self.series, self.row_idx) {
            Ok(Some(v)) => Ok(v),
            Ok(None) => Err(PlRowSerdeErrorTypes::Null),
            Err(_) => Err(PlRowSerdeErrorTypes::TypeMisMatch),
        }
    }

    /// The slot as a 16-bit unsigned integer.
    pub fn deserialize_u16(&self) -> (r: Result<u16, PlRowSerdeErrorTypes>)
        requires
            self.wf(),
        ensures
            match r {
                Ok(v) => spec_extract(self.column(), self.row_idx as int, Request::U16) == Ok::<
                    ValueView,
                    PlRowSerdeErrorTypes,
                >(ValueView::U16(v)),
                Err(e) => spec_extract(self.column(), self.row_idx as int, Request::U16) == Err::<
                    ValueView,
                    PlRowSerdeErrorTypes,
                >(e),
            },
            r is Ok <==> self.column().kind == PhysicalType::UInt16 && !(self.column().cells[self.row_idx as int] is Null),
    {
        match series_get_u16(&self.series, self.row_idx) {
            Ok(Some(v)) => Ok(v),
            Ok(None) => Err(PlRowSerdeErrorTypes::Null),
            Err(_) => Err(PlRowSerdeErrorTypes::TypeMisMatch),
        }
    }

    /// The slot as a 32-bit unsigned integer.
    pub fn deserialize_u32(&self) -> (r: Result<u32, PlRowSerdeErrorTypes>)
        requires
            self.wf(),
        ensures
            match r {
                Ok(v) => spec_extract(self.column(), self.row_idx as int, Request::U32) == Ok::<
                    ValueView,
                    PlRowSerdeErrorTypes,
                >(ValueView::U32(v)),
                Err(e) => spec_extract(self.column(), self.row_idx as int, Request::U32) == Err::<
                    ValueView,
                    PlRowSerdeErrorTypes,
                >(e),
            },
            r is Ok <==> self.column().kind == PhysicalType::UInt32 && !(self.column().cells[self.row_idx as int] is Null),
    {
        match series_get_u32(&self.series, self.row_idx) {
            Ok(Some(v)) => Ok(v),
            Ok(None) => Err(PlRowSerdeErrorTypes::Null),
            Err(_) => Err(PlRowSerdeErrorTypes::TypeMisMatch),
        }
    }

    /// The slot as a 64-bit unsigned integer.
    pub fn deserialize_u64(&self) -> (r: Result<u64, PlRowSerdeErrorTypes>)
        requires
            self.wf(),
        ensures
            match r {
                Ok(v) => spec_extract(self.column(), self.row_idx as int, Request::U64) == Ok::<
                    ValueView,
                    PlRowSerdeErrorTypes,
                >(ValueView::U64(v)),
                Err(e) => spec_extract(self.column(), self.row_idx as int, Request::U64) == Err::<
                    ValueView,
                    PlRowSerdeErrorTypes,
                >(e),
            },
            r is Ok <==> self.column().kind == PhysicalType::UInt64 && !(self.column().cells[self.row_idx as int] is Null),
    {
        match series_get_u64(&self.series, self.row_idx) {
            Ok(Some(v)) => Ok(v),
            Ok(None) => Err(PlRowSerdeErrorTypes::Null),
            Err(_) => Err(PlRowSerdeErrorTypes::TypeMisMatch),
        }
    }

    /// The slot as a single character: the byte of an 8-bit unsigned
    /// column first, else the only byte of a text of byte length one.
    pub fn deserialize_char(&self) -> (r: Result<char, PlRowSerdeErrorTypes>)
        requires
            self.wf(),
        ensures
            r == spec_char(self.column(), self.row_idx as int),
    {
        match series_get_u8(&self.series, self.row_idx) {
            Ok(Some(b)) => {
                return Ok(b as char);
            },
            _ => {},
        }
        match series_get_str(&self.series, self.row_idx) {
            Ok(Some(text)) => {
                let s = text.as_str();
                if s.len() == 1 {
                    let bytes = s.as_bytes();
                    Ok(bytes[0] as char)
                } else {
                    Err(PlRowSerdeErrorTypes::CharLength)
                }
            },
            Ok(None) => Err(PlRowSerdeErrorTypes::Null),
            Err(_) => Err(PlRowSerdeErrorTypes::TypeMisMatch),
        }
    }

    /// The slot as text.
    pub fn deserialize_str(&self) -> (r: Result<String, PlRowSerdeErrorTypes>)
        requires
            self.wf(),
        ensures
            match r {
                Ok(v) => spec_extract(self.column(), self.row_idx as int, Request::Text) == Ok::<
                    ValueView,
                    PlRowSerdeErrorTypes,
                >(ValueView::Text(v@)),
                Err(e) => spec_extract(self.column(), self.row_idx as int, Request::Text) == Err::<
                    ValueView,
                    PlRowSerdeErrorTypes,
                >(e),
            },
            r is Ok <==> self.column().kind == PhysicalType::String && !(self.column().cells[self.row_idx as int] is Null),
    {
        match series_get_str(&self.series, self.row_idx) {
            Ok(Some(v)) => Ok(v),
            Ok(None) => Err(PlRowSerdeErrorTypes::Null),
            Err(_) => Err(PlRowSerdeErrorTypes::TypeMisMatch),
        }
    }

    /// The slot as text; the same as `deserialize_str`.
    pub fn deserialize_string(&self) -> (r: Result<String, PlRowSerdeErrorTypes>)
        requires
            self.wf(),
        ensures
            match r {
                Ok(v) => spec_extract(self.column(), self.row_idx as int, Request::Text) == Ok::<
                    ValueView,
                    PlRowSerdeErrorTypes,
                >(ValueView::Text(v@)),
                Err(e) => spec_extract(self.column(), self.row_idx as int, Request::Text) == Err::<
                    ValueView,
                    PlRowSerdeErrorTypes,
                >(e),
            },
            r is Ok <==> self.column().kind == PhysicalType::String && !(self.column().cells[self.row_idx as int] is Null),
    {
        self.deserialize_str()
    }

    /// The elements of a list slot as bytes.
    fn maybe_list_or_bytes(sub: &Series) -> (r: Result<Vec<u8>, PlRowSerdeErrorTypes>)
        ensures
            match r {
                Ok(v) => spec_byte_elements(
                    series_view(*sub),
                    series_view(*sub).cells.len() as int,
                ) == Ok::<Seq<u8>, PlRowSerdeErrorTypes>(v@),
                Err(e) => spec_byte_elements(
                    series_view(*sub),
                    series_view(*sub).cells.len() as int,
                ) == Err::<Seq<u8>, PlRowSerdeErrorTypes>(e),
            },
    {
        let n = series_len(sub);
        let mut out: Vec<u8> = Vec::new();
        let mut j: usize = 0;
        while j < n
            invariant
                j <= n,
                n == series_view(*sub).cells.len(),
                spec_byte_elements(series_view(*sub), j as int) == Ok::<
                    Seq<u8>,
                    PlRowSerdeErrorTypes,
                >(out@),
            decreases n - j,
        {
            match series_get_u8(sub, j) {
                Ok(Some(v)) => {
                    out.push(v);
                },
                Ok(None) => {
                    proof {
                        lemma_byte_elements_error(series_view(*sub), j + 1, n as int);
                    }
                    return Err(PlRowSerdeErrorTypes::Null);
                },
                Err(_) => {
                    proof {
                        lemma_byte_elements_error(series_view(*sub), j + 1, n as int);
                    }
                    return Err(PlRowSerdeErrorTypes::TypeMisMatch);
                },
            }
            j += 1;
        }
        Ok(out)
    }

    /// The slot as a byte string: the value of a binary column, or the
    /// elements of a list slot, each an 8-bit unsigned integer.
    pub fn deserialize_bytes(&self) -> (r: Result<Vec<u8>, PlRowSerdeErrorTypes>)
        requires
            self.wf(),
        ensures
            match r {
                Ok(v) => spec_bytes(self.column(), self.row_idx as int) == Ok::<
                    Seq<u8>,
                    PlRowSerdeErrorTypes,
                >(v@),
                Err(e) => spec_bytes(self.column(), self.row_idx as int) == Err::<
                    Seq<u8>,
                    PlRowSerdeErrorTypes,
                >(e),
            },
    {
        match series_layout(&self.series) {
            Layout::Binary => match series_get_binary(&self.series, self.row_idx) {
                Ok(Some(v)) => Ok(v),
                Ok(None) => Err(PlRowSerdeErrorTypes::Null),
                Err(_) => Err(PlRowSerdeErrorTypes::TypeMisMatch),
            },
            Layout::BinaryOffset => match series_get_binary_offset(&self.series, self.row_idx) {
                Ok(Some(v)) => Ok(v),
                Ok(None) => Err(PlRowSerdeErrorTypes::Null),
                Err(_) => Err(PlRowSerdeErrorTypes::TypeMisMatch),
            },
            Layout::List => match series_get_list(&self.series, self.row_idx) {
                Ok(Some(sub)) => Self::maybe_list_or_bytes(&sub),
                Ok(None) => Err(PlRowSerdeErrorTypes::Null),
                Err(_) => Err(PlRowSerdeErrorTypes::TypeMisMatch),
            },
            _ => Err(PlRowSerdeErrorTypes::TypeMisMatch),
        }
    }

    /// The slot as a byte string of a binary column.
    pub fn deserialize_byte_buf(&self) -> (r: Result<Vec<u8>, PlRowSerdeErrorTypes>)
        requires
            self.wf(),
        ensures
            match r {
                Ok(v) => self.column().kind == PhysicalType::Binary && self.column().cells[self.row_idx as int]
                    == Cell::Bytes(v@),
                Err(e) => if self.column().kind != PhysicalType::Binary {
                    e == PlRowSerdeErrorTypes::TypeMisMatch
                } else {
                    e == PlRowSerdeErrorTypes::Null && self.column().cells[self.row_idx as int]
                        == Cell::Null
                },
            },
    {
        match series_get_binary(&self.series, self.row_idx) {
            Ok(Some(v)) => Ok(v),
            Ok(None) => Err(PlRowSerdeErrorTypes::Null),
            Err(_) => Err(PlRowSerdeErrorTypes::TypeMisMatch),
        }
    }

    /// Whether the slot holds a value. Where the column counts no null
    /// at all the slot is not looked at; the answer is the one that
    /// looking would give.
    pub fn deserialize_option(&self) -> (present: bool)
        requires
            self.wf(),
        ensures
            present == spec_present(self.column(), self.row_idx as int),
    {
        match series_layout(&self.series) {
            Layout::Null => {
                return false;
            },
            _ => {},
        }
        if series_null_count(&self.series) == 0 {
            true
        } else {
            match series_is_null_at(&self.series, self.row_idx) {
                Ok(is_null) => !is_null,
                Err(_) => false,
            }
        }
    }

    /// The cursor over the elements that a sequence request finds at the
    /// slot, chosen by the layout of the column. Its declared length is
    /// the number of the elements.
    pub fn deserialize_seq(&self) -> (r: Result<ChunkedArrayDeserializer, PlRowSerdeErrorTypes>)
        requires
            self.wf(),
        ensures
            match r {
                Ok(cursor) => cursor.wf() && cursor.position() == 0 && cursor.hint()
                    == cursor.items().len() && spec_seq_items(self.column(), self.row_idx as int)
                    == Ok::<Seq<Option<SeqItemView>>, PlRowSerdeErrorTypes>(
                    cursor.items(),
                ),
                Err(e) => spec_seq_items(self.column(), self.row_idx as int) == Err::<
                    Seq<Option<SeqItemView>>,
                    PlRowSerdeErrorTypes,
                >(e),
            },
    {
        match series_layout(&self.series) {
            Layout::Binary => match series_get_binary(&self.series, self.row_idx) {
                Ok(Some(v)) => Ok(byte_cursor(&v)),
                _ => {
                    let r = ChunkedArrayDeserializer::new(Vec::new(), 0);
                    assert(r.items() =~= Seq::empty());
                    Ok(r)
                },
            },
            Layout::BinaryOffset => match series_get_binary_offset(&self.series, self.row_idx) {
                Ok(Some(v)) => Ok(byte_cursor(&v)),
                _ => {
                    let r = ChunkedArrayDeserializer::new(Vec::new(), 0);
                    assert(r.items() =~= Seq::empty());
                    Ok(r)
                },
            },
            Layout::Null => {
                let r = ChunkedArrayDeserializer::new(Vec::new(), 0);
                assert(r.items() =~= Seq::empty());
                Ok(r)
            },
            Layout::Text => match series_get_str(&self.series, self.row_idx) {
                Ok(Some(text)) => {
                    let bytes = text.as_str().as_bytes_vec();
                    Ok(byte_cursor(&bytes))
                },
                Ok(None) => Err(PlRowSerdeErrorTypes::Null),
                Err(_) => Err(PlRowSerdeErrorTypes::TypeMisMatch),
            },
            Layout::List => match series_get_list(&self.series, self.row_idx) {
                Ok(Some(sub)) => Ok(row_cursor(&sub)),
                Ok(None) => Err(PlRowSerdeErrorTypes::Null),
                Err(_) => Err(PlRowSerdeErrorTypes::TypeMisMatch),
            },
            Layout::Array => match series_get_array(&self.series, self.row_idx) {
                Ok(Some(sub)) => Ok(row_cursor(&sub)),
                Ok(None) => Err(PlRowSerdeErrorTypes::Null),
                Err(_) => Err(PlRowSerdeErrorTypes::TypeMisMatch),
            },
            Layout::Struct => Ok(row_cursor(&self.series)),
            Layout::Categorical => Ok(category_cursor(&self.series)),
            Layout::Object => Err(PlRowSerdeErrorTypes::ObjectNotSupported),
            Layout::Unknown => Err(PlRowSerdeErrorTypes::UnknownNotSupported),
            Layout::Scalar => Err(PlRowSerdeErrorTypes::TypeMisMatch),
        }
    }

    /// The cursor over the sub-columns of a struct column, at the row of
    /// this view. A sub-column that is too short to have the row is a
    /// mismatch of shape.
    pub fn deserialize_map(&self) -> (r: Result<PlRowImplMapAccess, PlRowSerdeErrorTypes>)
        requires
            self.wf(),
        ensures
            r is Ok <==> self.column().kind == PhysicalType::Struct && rows_in(
                self.column().fields,
                self.row_idx as int,
            ),
            r matches Err(e) ==> e == if self.column().kind == PhysicalType::Struct {
                PlRowSerdeErrorTypes::ShapeMismatch
            } else {
                PlRowSerdeErrorTypes::TypeMisMatch
            },
            r matches Ok(cursor) ==> {
                &&& cursor.wf()
                &&& !cursor.key_pending()
                &&& cursor.rows_valid()
                &&& cursor.columns() == self.column().fields
                &&& cursor.position() == 0
                &&& cursor.row() == self.row_idx
            },
    {
        match series_struct_fields(&self.series) {
            Ok(fields) => {
                let cursor = PlRowImplMapAccess::at_row(Rc::new(fields), self.row_idx);
                if cursor.rows_present() {
                    Ok(cursor)
                } else {
                    Err(PlRowSerdeErrorTypes::ShapeMismatch)
                }
            },
            Err(_) => Err(PlRowSerdeErrorTypes::TypeMisMatch),
        }
    }

    /// The cursor over the sub-columns of a struct column, at the row of
    /// this view; the same as `deserialize_map`.
    pub fn deserialize_struct(&self) -> (r: Result<PlRowImplMapAccess, PlRowSerdeErrorTypes>)
        requires
            self.wf(),
        ensures
            r is Ok <==> self.column().kind == PhysicalType::Struct && rows_in(
                self.column().fields,
                self.row_idx as int,
            ),
            r matches Err(e) ==> e == if self.column().kind == PhysicalType::Struct {
                PlRowSerdeErrorTypes::ShapeMismatch
            } else {
                PlRowSerdeErrorTypes::TypeMisMatch
            },
            r matches Ok(cursor) ==> {
                &&& cursor.wf()
                &&& !cursor.key_pending()
                &&& cursor.rows_valid()
                &&& cursor.columns() == self.column().fields
                &&& cursor.position() == 0
                &&& cursor.row() == self.row_idx
            },
    {
        self.deserialize_map()
    }

    /// The variant tag of the slot: the decoded category of a
    /// categorical column. A null category is no variant.
    pub fn deserialize_enum(&self) -> (r: Result<String, PlRowSerdeErrorTypes>)
        requires
            self.wf(),
        ensures
            match r {
                Ok(v) => spec_variant(self.column(), self.row_idx as int) == Ok::<
                    Seq<char>,
                    PlRowSerdeErrorTypes,
                >(v@),
                Err(e) => spec_variant(self.column(), self.row_idx as int) == Err::<
                    Seq<char>,
                    PlRowSerdeErrorTypes,
                >(e),
            },
    {
        match series_get_category(&self.series, self.row_idx) {
            Ok(Some(v)) => Ok(v),
            Ok(None) => Err(PlRowSerdeErrorTypes::Null),
            Err(_) => Err(PlRowSerdeErrorTypes::TypeMisMatch),
        }
    }

    /// An identifier is asked for to be named, not to be read: nothing
    /// is consumed.
    pub fn deserialize_identifier(&self) -> (r: Value)
        ensures
            spec_extract(self.column(), self.row_idx as int, Request::Identifier) == Ok::<
                ValueView,
                PlRowSerdeErrorTypes,
            >(r@),
    {
        Value::Unit
    }

    /// A value that the consumer passes over: nothing is consumed.
    pub fn deserialize_ignored_any(&self) -> (r: Value)
        ensures
            spec_extract(self.column(), self.row_idx as int, Request::Ignored) == Ok::<
                ValueView,
                PlRowSerdeErrorTypes,
            >(r@),
    {
        Value::Unit
    }

    /// A tuple of no elements is the unit value.
    pub fn deserialize_tuple(&self, len: usize) -> (r: Value)
        requires
            len == 0,
        ensures
            r == Value::Unit,
    {
        Value::Unit
    }

    /// What the slot answers to `request`.
    pub fn extract(&self, request: &Request) -> (r: Result<Value, PlRowSerdeErrorTypes>)
        requires
            self.wf(),
        ensures
            answers(r, spec_extract(self.column(), self.row_idx as int, *request)),
        decreases *request, 0int,
    {
        match request {
            Request::Bool => match self.deserialize_bool() {
                Ok(v) => Ok(Value::Bool(v)),
                Err(e) => Err(e),
            },
            Request::I8 => match self.deserialize_i8() {
                Ok(v) => Ok(Value::I8(v)),
                Err(e) => Err(e),
            },
            Request::I16 => match self.deserialize_i16() {
                Ok(v) => Ok(Value::I16(v)),
                Err(e) => Err(e),
            },
            Request::I32 => match self.deserialize_i32() {
                Ok(v) => Ok(Value::I32(v)),
                Err(e) => Err(e),
            },
            Request::I64 => match self.deserialize_i64() {
                Ok(v) => Ok(Value::I64(v)),
                Err(e) => Err(e),
            },
            Request::U8 => match self.deserialize_u8() {
                Ok(v) => Ok(Value::U8(v)),
                Err(e) => Err(e),
            },
            Request::U16 => match self.deserialize_u16() {
                Ok(v) => Ok(Value::U16(v)),
                Err(e) => Err(e),
            },
            Request::U32 => match self.deserialize_u32() {
                Ok(v) => Ok(Value::U32(v)),
                Err(e) => Err(e),
            },
            Request::U64 => match self.deserialize_u64() {
                Ok(v) => Ok(Value::U64(v)),
                Err(e) => Err(e),
            },
            Request::Char => match self.deserialize_char() {
                Ok(v) => Ok(Value::Char(v)),
                Err(e) => Err(e),
            },
            Request::Text => match self.deserialize_str() {
                Ok(v) => Ok(Value::Text(v)),
                Err(e) => Err(e),
            },
            Request::Bytes => match self.deserialize_bytes() {
                Ok(v) => Ok(Value::Bytes(v)),
                Err(e) => Err(e),
            },
            Request::Optional(inner) => {
                if self.deserialize_option() {
                    match self.extract(inner) {
                        Ok(v) => Ok(Value::Present(Box::new(v))),
                        Err(e) => Err(e),
                    }
                } else {
                    Ok(Value::Absent)
                }
            },
            Request::Sequence(elem) => match self.deserialize_seq() {
                Err(e) => Err(e),
                Ok(cursor) => match collect_sequence(cursor, elem) {
                    Ok(values) => Ok(Value::Sequence(values)),
                    Err(e) => Err(e),
                },
            },
            Request::Mapping(inner) => match self.deserialize_map() {
                Err(e) => Err(e),
                Ok(cursor) => match collect_all(cursor, inner) {
                    Ok(fields) => Ok(Value::Record(fields)),
                    Err(e) => Err(e),
                },
            },
            Request::Struct(fields) => match self.deserialize_struct() {
                Err(e) => Err(e),
                Ok(cursor) => match collect_fields(cursor, fields) {
                    Ok(fields) => Ok(Value::Record(fields)),
                    Err(e) => Err(e),
                },
            },
            Request::Enum => match self.deserialize_enum() {
                Ok(v) => Ok(Value::Variant(v)),
                Err(e) => Err(e),
            },
            Request::Identifier => Ok(Value::Unit),
            Request::Ignored => Ok(Value::Unit),
        }
    }
}

/// The answers of all elements of `cursor` to `request`, in order. The
/// first error ends the sequence.
pub fn collect_sequence(cursor: ChunkedArrayDeserializer, request: &Request) -> (r: Result<
    Vec<Value>,
    PlRowSerdeErrorTypes,
>)
    requires
        cursor.wf(),
        cursor.position() == 0,
    ensures
        match r {
            Ok(values) => spec_collect(cursor.items(), cursor.items().len() as int, *request)
                == Ok::<Seq<ValueView>, PlRowSerdeErrorTypes>(values_view(values)),
            Err(e) => spec_collect(cursor.items(), cursor.items().len() as int, *request) == Err::<
                Seq<ValueView>,
                PlRowSerdeErrorTypes,
            >(e),
        },
    decreases *request, 2int,
{
    let ghost items = cursor.items();
    let mut cur = cursor;
    let mut out: Vec<Value> = Vec::new();
    assert(values_view(out) =~= Seq::empty());
    loop
        invariant
            cur.wf(),
            cur.items() == items,
            items == cursor.items(),
            0 <= cur.position() <= items.len(),
            spec_collect(items, cur.position(), *request) == Ok::<
                Seq<ValueView>,
                PlRowSerdeErrorTypes,
            >(values_view(out)),
        decreases items.len() - cur.position(),
    {
        let ghost k = cur.position();
        let ghost before = values_view(out);
        let answer = match cur.next_element() {
            None => {
                return Ok(out);
            },
            Some(None) => NoneDeserializer::<PlRowSerdeErrorTypes>::new().answer(request),
            Some(Some(SeqItem::Byte(b))) => answer_byte(b, request),
            Some(Some(SeqItem::Text(t))) => answer_text(t, request),
            Some(Some(SeqItem::Row(item))) => item.extract(request),
        };
        assert(answers(answer, spec_element(items[k], *request)));
        match answer {
            Ok(v) => {
                out.push(v);
                assert(values_view(out) =~= before.push(v@));
            },
            Err(e) => {
                proof {
                    lemma_collect_error(items, k + 1, items.len() as int, *request);
                }
                return Err(e);
            },
        }
    }
}

/// The record of all sub-columns of `cursor`, each answering `request`.
/// The first error ends it.
pub fn collect_all(cursor: PlRowImplMapAccess, request: &Request) -> (r: Result<
    Vec<Field>,
    PlRowSerdeErrorTypes,
>)
    requires
        cursor.wf(),
        !cursor.key_pending(),
        cursor.rows_valid(),
        cursor.position() == 0,
    ensures
        match r {
            Ok(fields) => spec_pull_all(
                cursor.columns(),
                cursor.row(),
                *request,
                cursor.columns().len() as int,
            ) == Ok::<Seq<FieldView>, PlRowSerdeErrorTypes>(fields_view(fields)),
            Err(e) => spec_pull_all(
                cursor.columns(),
                cursor.row(),
                *request,
                cursor.columns().len() as int,
            ) == Err::<Seq<FieldView>, PlRowSerdeErrorTypes>(e),
        },
    decreases *request, 2int,
{
    let ghost columns = cursor.columns();
    let ghost row = cursor.row();
    let mut cur = cursor;
    let mut out: Vec<Field> = Vec::new();
    assert(fields_view(out) =~= Seq::empty());
    loop
        invariant
            cur.wf(),
            !cur.key_pending(),
            cur.rows_valid(),
            cur.columns() == columns,
            cur.row() == row,
            columns == cursor.columns(),
            row == cursor.row(),
            0 <= cur.position() <= columns.len(),
            spec_pull_all(columns, row, *request, cur.position()) == Ok::<
                Seq<FieldView>,
                PlRowSerdeErrorTypes,
            >(fields_view(out)),
        decreases columns.len() - cur.position(),
    {
        let ghost k = cur.position();
        let ghost before = fields_view(out);
        let name = match cur.next_key() {
            None => {
                return Ok(out);
            },
            Some(name) => name,
        };
        let item = cur.next_value();
        match item.extract(request) {
            Ok(value) => {
                let ghost entry = FieldView { name: name@, value: value@ };
                out.push(Field { name, value });
                assert(fields_view(out) =~= before.push(entry));
            },
            Err(e) => {
                proof {
                    lemma_pull_all_error(columns, row, *request, k + 1, columns.len() as int);
                }
                return Err(e);
            },
        }
    }
}

/// The record of the sub-columns of `cursor` that `schema` names, each
/// answering the request of the first field of its name. A sub-column
/// that `schema` does not name is passed over; the first error ends the
/// record.
pub fn collect_fields(cursor: PlRowImplMapAccess, schema: &Vec<FieldRequest>) -> (r: Result<
    Vec<Field>,
    PlRowSerdeErrorTypes,
>)
    requires
        cursor.wf(),
        !cursor.key_pending(),
        cursor.rows_valid(),
        cursor.position() == 0,
    ensures
        match r {
            Ok(fields) => spec_pull(
                cursor.columns(),
                cursor.row(),
                *schema,
                cursor.columns().len() as int,
            ) == Ok::<Seq<FieldView>, PlRowSerdeErrorTypes>(fields_view(fields)),
            Err(e) => spec_pull(
                cursor.columns(),
                cursor.row(),
                *schema,
                cursor.columns().len() as int,
            ) == Err::<Seq<FieldView>, PlRowSerdeErrorTypes>(e),
        },
    decreases *schema, 2int,
{
    let ghost columns = cursor.columns();
    let ghost row = cursor.row();
    let mut cur = cursor;
    let mut out: Vec<Field> = Vec::new();
    assert(fields_view(out) =~= Seq::empty());
    loop
        invariant
            cur.wf(),
            !cur.key_pending(),
            cur.rows_valid(),
            cur.columns() == columns,
            cur.row() == row,
            columns == cursor.columns(),
            row == cursor.row(),
            0 <= cur.position() <= columns.len(),
            spec_pull(columns, row, *schema, cur.position()) == Ok::<
                Seq<FieldView>,
                PlRowSerdeErrorTypes,
            >(fields_view(out)),
        decreases columns.len() - cur.position(),
    {
        let ghost k = cur.position();
        let ghost before = fields_view(out);
        let name = match cur.next_key() {
            None => {
                return Ok(out);
            },
            Some(name) => name,
        };
        let item = cur.next_value();
        let at = find_field(schema, &name);
        if at < schema.len() {
            match item.extract(&schema[at].request) {
                Ok(value) => {
                    let ghost entry = FieldView { name: name@, value: value@ };
                    out.push(Field { name, value });
                    assert(fields_view(out) =~= before.push(entry));
                },
                Err(e) => {
                    proof {
                        lemma_pull_error(columns, row, *schema, k + 1, columns.len() as int);
                    }
                    return Err(e);
                },
            }
        }
    }
}

} // verus!
