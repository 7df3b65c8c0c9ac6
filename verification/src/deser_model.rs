//! What reading means: for a column, a row and a request, the value or
//! the error that the reader owes. The functions here are mathematics
//! only; the readers in `deser_root`, `deser_map` and `deser_seq` are
//! proved to compute them.

use crate::column::{Cell, ColumnView, Layout, PhysicalType, layout_of, rows_in};
use crate::pl_row_error::PlRowSerdeErrorTypes;
use crate::request::{FieldRequest, Request, field_position};
use crate::value::{FieldView, Value, ValueView};
use vstd::prelude::*;
use vstd::utf8::encode_utf8;

verus! {

/// What a reader answers: a value, or why there is none.
pub type Answer = Result<ValueView, PlRowSerdeErrorTypes>;

/// Whether the result `r` is the answer `a`: the same error, or a value
/// with that content.
pub open spec fn answers(r: Result<Value, PlRowSerdeErrorTypes>, a: Answer) -> bool {
    match r {
        Ok(v) => a == Ok::<ValueView, PlRowSerdeErrorTypes>(v@),
        Err(e) => a == Err::<ValueView, PlRowSerdeErrorTypes>(e),
    }
}

/// One element that a sequence cursor hands out: a byte, a decoded
/// category, or a row of a column.
pub ghost enum SeqItemView {
    Byte(u8),
    Text(Seq<char>),
    Row(ColumnView, int),
}

/// The cell at `row`, where the column has physical type `kind` and the
/// slot is not null.
pub open spec fn spec_read(c: ColumnView, row: int, kind: PhysicalType) -> Result<
    Cell,
    PlRowSerdeErrorTypes,
> {
    if c.kind != kind {
        Err(PlRowSerdeErrorTypes::TypeMisMatch)
    } else if c.cells[row] is Null {
        Err(PlRowSerdeErrorTypes::Null)
    } else {
        Ok(c.cells[row])
    }
}

/// Whether the slot holds a value: a column of nulls only never does.
pub open spec fn spec_present(c: ColumnView, row: int) -> bool {
    c.kind != PhysicalType::Null && !(c.cells[row] is Null)
}

/// The slot as a single character: the byte of an 8-bit unsigned column,
/// else the only byte of a text of byte length one.
pub open spec fn spec_char(c: ColumnView, row: int) -> Result<char, PlRowSerdeErrorTypes> {
    if c.kind == PhysicalType::UInt8 && c.cells[row] is UInt8 {
        Ok(c.cells[row]->UInt8_0 as char)
    } else if c.kind == PhysicalType::String {
        match c.cells[row] {
            Cell::Text(t) => if encode_utf8(t).len() == 1 {
                Ok(encode_utf8(t)[0] as char)
            } else {
                Err(PlRowSerdeErrorTypes::CharLength)
            },
            _ => Err(PlRowSerdeErrorTypes::Null),
        }
    } else {
        Err(PlRowSerdeErrorTypes::TypeMisMatch)
    }
}

/// The first `n` elements of a list slot as bytes: each must be a
/// non-null cell of an 8-bit unsigned column.
pub open spec fn spec_byte_elements(sub: ColumnView, n: int) -> Result<
    Seq<u8>,
    PlRowSerdeErrorTypes,
>
    decreases n,
{
    if n <= 0 {
        Ok(Seq::empty())
    } else {
        match spec_byte_elements(sub, n - 1) {
            Err(e) => Err(e),
            Ok(prefix) => match spec_read(sub, n - 1, PhysicalType::UInt8) {
                Ok(Cell::UInt8(v)) => Ok(prefix.push(v)),
                Ok(_) => Err(PlRowSerdeErrorTypes::TypeMisMatch),
                Err(e) => Err(e),
            },
        }
    }
}

/// The slot as a byte string: the value of a binary column, or the
/// elements of a list slot taken as bytes.
pub open spec fn spec_bytes(c: ColumnView, row: int) -> Result<Seq<u8>, PlRowSerdeErrorTypes> {
    match layout_of(c.kind) {
        Layout::Binary | Layout::BinaryOffset => match c.cells[row] {
            Cell::Bytes(b) => Ok(b),
            _ => Err(PlRowSerdeErrorTypes::Null),
        },
        Layout::List => match c.cells[row] {
            Cell::List(sub) => spec_byte_elements(sub, sub.cells.len() as int),
            _ => Err(PlRowSerdeErrorTypes::Null),
        },
        _ => Err(PlRowSerdeErrorTypes::TypeMisMatch),
    }
}

/// The variant tag of the slot: the decoded category of a categorical
/// column.
pub open spec fn spec_variant(c: ColumnView, row: int) -> Result<Seq<char>, PlRowSerdeErrorTypes> {
    if layout_of(c.kind) != Layout::Categorical {
        Err(PlRowSerdeErrorTypes::TypeMisMatch)
    } else {
        match c.cells[row] {
            Cell::Category(t) => Ok(t),
            _ => Err(PlRowSerdeErrorTypes::Null),
        }
    }
}

/// The bytes `b` as the elements of a sequence.
pub open spec fn byte_items(b: Seq<u8>) -> Seq<Option<SeqItemView>> {
    Seq::new(b.len(), |i: int| Some(SeqItemView::Byte(b[i])))
}

/// The rows of `src` as the elements of a sequence, a null slot being an
/// absent element.
pub open spec fn row_items(src: ColumnView) -> Seq<Option<SeqItemView>> {
    Seq::new(
        src.cells.len(),
        |j: int|
            if src.cells[j] is Null {
                None
            } else {
                Some(SeqItemView::Row(src, j))
            },
    )
}

/// The decoded categories of `src` as the elements of a sequence, a
/// null slot being an absent element.
pub open spec fn category_items(src: ColumnView) -> Seq<Option<SeqItemView>> {
    Seq::new(
        src.cells.len(),
        |j: int|
            match src.cells[j] {
                Cell::Category(t) => Some(SeqItemView::Text(t)),
                _ => None,
            },
    )
}

/// The elements that a sequence request finds at a slot, by the layout
/// of the column.
pub open spec fn spec_seq_items(c: ColumnView, row: int) -> Result<
    Seq<Option<SeqItemView>>,
    PlRowSerdeErrorTypes,
> {
    match layout_of(c.kind) {
        Layout::Binary | Layout::BinaryOffset => match c.cells[row] {
            Cell::Bytes(b) => Ok(byte_items(b)),
            _ => Ok(Seq::empty()),
        },
        Layout::Null => Ok(Seq::empty()),
        Layout::Text => match c.cells[row] {
            Cell::Text(t) => Ok(byte_items(encode_utf8(t))),
            _ => Err(PlRowSerdeErrorTypes::Null),
        },
        Layout::List | Layout::Array => match c.cells[row] {
            Cell::List(sub) => Ok(row_items(sub)),
            _ => Err(PlRowSerdeErrorTypes::Null),
        },
        Layout::Struct => Ok(row_items(c)),
        Layout::Categorical => Ok(category_items(c)),
        Layout::Object => Err(PlRowSerdeErrorTypes::ObjectNotSupported),
        Layout::Unknown => Err(PlRowSerdeErrorTypes::UnknownNotSupported),
        Layout::Scalar => Err(PlRowSerdeErrorTypes::TypeMisMatch),
    }
}

/// What an absent element of a sequence answers.
pub open spec fn spec_absent(req: Request) -> Answer {
    match req {
        Request::Optional(_) => Ok(ValueView::Absent),
        Request::Identifier | Request::Ignored => Ok(ValueView::Unit),
        _ => Err(PlRowSerdeErrorTypes::Null),
    }
}

/// What a byte, handed out as an element of a sequence, answers.
pub open spec fn spec_answer_byte(b: u8, req: Request) -> Answer
    decreases req,
{
    match req {
        Request::U8 => Ok(ValueView::U8(b)),
        Request::Char => Ok(ValueView::Char(b as char)),
        Request::Optional(inner) => match spec_answer_byte(b, *inner) {
            Ok(v) => Ok(ValueView::Present(Box::new(v))),
            Err(e) => Err(e),
        },
        Request::Identifier | Request::Ignored => Ok(ValueView::Unit),
        _ => Err(PlRowSerdeErrorTypes::TypeMisMatch),
    }
}

/// What a decoded category, handed out as an element of a sequence,
/// answers: it is the text that a text request asks for and the tag
/// that an enum request asks for.
pub open spec fn spec_answer_text(t: Seq<char>, req: Request) -> Answer
    decreases req,
{
    match req {
        Request::Text => Ok(ValueView::Text(t)),
        Request::Enum => Ok(ValueView::Variant(t)),
        Request::Optional(inner) => match spec_answer_text(t, *inner) {
            Ok(v) => Ok(ValueView::Present(Box::new(v))),
            Err(e) => Err(e),
        },
        Request::Identifier | Request::Ignored => Ok(ValueView::Unit),
        _ => Err(PlRowSerdeErrorTypes::TypeMisMatch),
    }
}

/// What the slot at `row` of `c` answers to `req`.
pub open spec fn spec_extract(c: ColumnView, row: int, req: Request) -> Answer
    decreases req, 0int, 0int,
{
    match req {
        Request::Bool => match spec_read(c, row, PhysicalType::Boolean) {
            Ok(Cell::Bool(v)) => Ok(ValueView::Bool(v)),
            Ok(_) => Err(PlRowSerdeErrorTypes::TypeMisMatch),
            Err(e) => Err(e),
        },
        Request::I8 => match spec_read(c, row, PhysicalType::Int8) {
            Ok(Cell::Int8(v)) => Ok(ValueView::I8(v)),
            Ok(_) => Err(PlRowSerdeErrorTypes::TypeMisMatch),
            Err(e) => Err(e),
        },
        Request::I16 => match spec_read(c, row, PhysicalType::Int16) {
            Ok(Cell::Int16(v)) => Ok(ValueView::I16(v)),
            Ok(_) => Err(PlRowSerdeErrorTypes::TypeMisMatch),
            Err(e) => Err(e),
        },
        Request::I32 => match spec_read(c, row, PhysicalType::Int32) {
            Ok(Cell::Int32(v)) => Ok(ValueView::I32(v)),
            Ok(_) => Err(PlRowSerdeErrorTypes::TypeMisMatch),
            Err(e) => Err(e),
        },
        Request::I64 => match spec_read(c, row, PhysicalType::Int64) {
            Ok(Cell::Int64(v)) => Ok(ValueView::I64(v)),
            Ok(_) => Err(PlRowSerdeErrorTypes::TypeMisMatch),
            Err(e) => Err(e),
        },
        Request::U8 => match spec_read(c, row, PhysicalType::UInt8) {
            Ok(Cell::UInt8(v)) => Ok(ValueView::U8(v)),
            Ok(_) => Err(PlRowSerdeErrorTypes::TypeMisMatch),
            Err(e) => Err(e),
        },
        Request::U16 => match spec_read(c, row, PhysicalType::UInt16) {
            Ok(Cell::UInt16(v)) => Ok(ValueView::U16(v)),
            Ok(_) => Err(PlRowSerdeErrorTypes::TypeMisMatch),
            Err(e) => Err(e),
        },
        Request::U32 => match spec_read(c, row, PhysicalType::UInt32) {
            Ok(Cell::UInt32(v)) => Ok(ValueView::U32(v)),
            Ok(_) => Err(PlRowSerdeErrorTypes::TypeMisMatch),
            Err(e) => Err(e),
        },
        Request::U64 => match spec_read(c, row, PhysicalType::UInt64) {
            Ok(Cell::UInt64(v)) => Ok(ValueView::U64(v)),
            Ok(_) => Err(PlRowSerdeErrorTypes::TypeMisMatch),
            Err(e) => Err(e),
        },
        Request::Char => match spec_char(c, row) {
            Ok(v) => Ok(ValueView::Char(v)),
            Err(e) => Err(e),
        },
        Request::Text => match spec_read(c, row, PhysicalType::String) {
            Ok(Cell::Text(t)) => Ok(ValueView::Text(t)),
            Ok(_) => Err(PlRowSerdeErrorTypes::TypeMisMatch),
            Err(e) => Err(e),
        },
        Request::Bytes => match spec_bytes(c, row) {
            Ok(b) => Ok(ValueView::Bytes(b)),
            Err(e) => Err(e),
        },
        Request::Optional(inner) => if spec_present(c, row) {
            match spec_extract(c, row, *inner) {
                Ok(v) => Ok(ValueView::Present(Box::new(v))),
                Err(e) => Err(e),
            }
        } else {
            Ok(ValueView::Absent)
        },
        Request::Sequence(elem) => match spec_seq_items(c, row) {
            Err(e) => Err(e),
            Ok(items) => match spec_collect(items, items.len() as int, *elem) {
                Ok(values) => Ok(ValueView::Sequence(values)),
                Err(e) => Err(e),
            },
        },
        Request::Mapping(inner) => if c.kind != PhysicalType::Struct {
            Err(PlRowSerdeErrorTypes::TypeMisMatch)
        } else if !rows_in(c.fields, row) {
            Err(PlRowSerdeErrorTypes::ShapeMismatch)
        } else {
            match spec_pull_all(c.fields, row, *inner, c.fields.len() as int) {
                Ok(fields) => Ok(ValueView::Record(fields)),
                Err(e) => Err(e),
            }
        },
        Request::Struct(fields) => if c.kind != PhysicalType::Struct {
            Err(PlRowSerdeErrorTypes::TypeMisMatch)
        } else if !rows_in(c.fields, row) {
            Err(PlRowSerdeErrorTypes::ShapeMismatch)
        } else {
            match spec_pull(c.fields, row, fields, c.fields.len() as int) {
                Ok(fields) => Ok(ValueView::Record(fields)),
                Err(e) => Err(e),
            }
        },
        Request::Enum => match spec_variant(c, row) {
            Ok(t) => Ok(ValueView::Variant(t)),
            Err(e) => Err(e),
        },
        Request::Identifier => Ok(ValueView::Unit),
        Request::Ignored => Ok(ValueView::Unit),
    }
}

/// What one element of a sequence answers to `req`.
pub open spec fn spec_element(item: Option<SeqItemView>, req: Request) -> Answer
    decreases req, 1int, 0int,
{
    match item {
        None => spec_absent(req),
        Some(SeqItemView::Byte(b)) => spec_answer_byte(b, req),
        Some(SeqItemView::Text(t)) => spec_answer_text(t, req),
        Some(SeqItemView::Row(src, j)) => spec_extract(src, j, req),
    }
}

/// The answers of the first `n` of `items` to `req`, in order; the first
/// error ends the sequence.
pub open spec fn spec_collect(items: Seq<Option<SeqItemView>>, n: int, req: Request) -> Result<
    Seq<ValueView>,
    PlRowSerdeErrorTypes,
>
    decreases req, 2int, n,
{
    if n <= 0 {
        Ok(Seq::empty())
    } else {
        match spec_collect(items, n - 1, req) {
            Err(e) => Err(e),
            Ok(prefix) => match spec_element(items[n - 1], req) {
                Ok(v) => Ok(prefix.push(v)),
                Err(e) => Err(e),
            },
        }
    }
}

/// The record of the first `n` of `columns` at `row`, each answering
/// `req`; the first error ends it.
pub open spec fn spec_pull_all(columns: Seq<ColumnView>, row: int, req: Request, n: int) -> Result<
    Seq<FieldView>,
    PlRowSerdeErrorTypes,
>
    decreases req, 1int, n,
{
    if n <= 0 {
        Ok(Seq::empty())
    } else {
        match spec_pull_all(columns, row, req, n - 1) {
            Err(e) => Err(e),
            Ok(prefix) => match spec_extract(columns[n - 1], row, req) {
                Ok(v) => Ok(prefix.push(FieldView { name: columns[n - 1].name, value: v })),
                Err(e) => Err(e),
            },
        }
    }
}

/// The record of the first `n` of `columns` at `row`: a column that
/// `schema` names answers the request of the first field of that name,
/// a column that it does not name is passed over; the first error ends
/// it.
pub open spec fn spec_pull(
    columns: Seq<ColumnView>,
    row: int,
    schema: Vec<FieldRequest>,
    n: int,
) -> Result<Seq<FieldView>, PlRowSerdeErrorTypes>
    decreases schema, 1int, n,
{
    if n <= 0 {
        Ok(Seq::empty())
    } else {
        match spec_pull(columns, row, schema, n - 1) {
            Err(e) => Err(e),
            Ok(prefix) => {
                let k = field_position(schema@, columns[n - 1].name);
                if 0 <= k < schema.len() {
                    match spec_extract(columns[n - 1], row, schema[k].request) {
                        Ok(v) => Ok(prefix.push(FieldView { name: columns[n - 1].name, value: v })),
                        Err(e) => Err(e),
                    }
                } else {
                    Ok(prefix)
                }
            },
        }
    }
}

/// Once the first `k` elements give an error, any longer run of them
/// gives the same error.
pub proof fn lemma_collect_error(
    items: Seq<Option<SeqItemView>>,
    k: int,
    n: int,
    req: Request,
)
    requires
        0 <= k <= n,
        spec_collect(items, k, req) is Err,
    ensures
        spec_collect(items, n, req) == spec_collect(items, k, req),
    decreases n - k,
{
    if k < n {
        lemma_collect_error(items, k, n - 1, req);
    }
}

/// Once the first `k` columns give an error, any longer run of them
/// gives the same error.
pub proof fn lemma_pull_all_error(columns: Seq<ColumnView>, row: int, req: Request, k: int, n: int)
    requires
        0 <= k <= n,
        spec_pull_all(columns, row, req, k) is Err,
    ensures
        spec_pull_all(columns, row, req, n) == spec_pull_all(columns, row, req, k),
    decreases n - k,
{
    if k < n {
        lemma_pull_all_error(columns, row, req, k, n - 1);
    }
}

/// Once the first `k` columns give an error, any longer run of them
/// gives the same error.
pub proof fn lemma_pull_error(
    columns: Seq<ColumnView>,
    row: int,
    schema: Vec<FieldRequest>,
    k: int,
    n: int,
)
    requires
        0 <= k <= n,
        spec_pull(columns, row, schema, k) is Err,
    ensures
        spec_pull(columns, row, schema, n) == spec_pull(columns, row, schema, k),
    decreases n - k,
{
    if k < n {
        lemma_pull_error(columns, row, schema, k, n - 1);
    }
}

/// Once the first `k` list elements fail to be bytes, any longer run of
/// them fails in the same way.
pub proof fn lemma_byte_elements_error(sub: ColumnView, k: int, n: int)
    requires
        0 <= k <= n,
        spec_byte_elements(sub, k) is Err,
    ensures
        spec_byte_elements(sub, n) == spec_byte_elements(sub, k),
    decreases n - k,
{
    if k < n {
        lemma_byte_elements_error(sub, k, n - 1);
    }
}

} // verus!
