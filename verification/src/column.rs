//! The columnar storage as this library sees it.
//!
//! Columns and tables are kept by polars. Verus cannot look inside a
//! `Series` or a `DataFrame`, so this module gives each of them a
//! mathematical view and states, for every polars call the library
//! makes, what that call does to the view. These statements are trusted:
//! each doc comment says which polars function is called and what is
//! claimed of it.

use polars::error::PolarsError;
use polars::frame::DataFrame;
use polars::prelude::{AnyValue, DataType, IntoSeries, NamedFrom, StructChunked};
use polars::series::Series;
use std::rc::Rc;
use vstd::prelude::*;

verus! {

/// polars' `Series`, a named column; nothing inside it is visible
/// here.
#[verifier::external_type_specification]
#[verifier::external_body]
pub struct ExSeries(Series);

/// polars' `DataFrame`, a table of columns; nothing inside it is visible
/// here.
#[verifier::external_type_specification]
#[verifier::external_body]
pub struct ExDataFrame(DataFrame);

/// polars' `PolarsError`; it is passed on and never looked into.
#[verifier::external_type_specification]
#[verifier::external_body]
pub struct ExPolarsError(PolarsError);

/// The physical type tag of a column.
#[derive(Debug, Clone, Copy, PartialEq, Eq, Structural)]
pub enum PhysicalType {
    Boolean,
    UInt8,
    UInt16,
    UInt32,
    UInt64,
    Int8,
    Int16,
    Int32,
    Int64,
    Float32,
    Float64,
    Decimal,
    String,
    Binary,
    BinaryOffset,
    Date,
    Datetime,
    Duration,
    Time,
    Array,
    List,
    Struct,
    Categorical,
    Enum,
    Object,
    Null,
    Unknown,
}

/// How a column's slots are laid out, as far as reading a sequence from
/// it needs to know.
#[derive(Debug, Clone, Copy, PartialEq, Eq, Structural)]
pub enum Layout {
    Scalar,
    Text,
    Binary,
    BinaryOffset,
    List,
    Array,
    Struct,
    Categorical,
    Null,
    Object,
    Unknown,
}

/// What one slot of a column holds.
pub ghost enum Cell {
    Null,
    Bool(bool),
    Int8(i8),
    Int16(i16),
    Int32(i32),
    Int64(i64),
    UInt8(u8),
    UInt16(u16),
    UInt32(u32),
    UInt64(u64),
    Text(Seq<char>),
    Bytes(Seq<u8>),
    Category(Seq<char>),
    /// The slot of a list or array column: a column of its own.
    List(ColumnView),
    /// The slot of a struct column: what it holds is in the sub-columns.
    Row,
    /// A value of a kind that this library does not read.
    Other,
}

/// A column: its name, its physical type, one cell per row and, for a
/// struct column, the sub-columns in their order.
pub ghost struct ColumnView {
    pub name: Seq<char>,
    pub kind: PhysicalType,
    pub cells: Seq<Cell>,
    pub fields: Seq<ColumnView>,
}

/// The layout that belongs to a physical type.
pub open spec fn layout_of(kind: PhysicalType) -> Layout {
    match kind {
        PhysicalType::String => Layout::Text,
        PhysicalType::Binary => Layout::Binary,
        PhysicalType::BinaryOffset => Layout::BinaryOffset,
        PhysicalType::List => Layout::List,
        PhysicalType::Array => Layout::Array,
        PhysicalType::Struct => Layout::Struct,
        PhysicalType::Categorical => Layout::Categorical,
        PhysicalType::Enum => Layout::Categorical,
        PhysicalType::Null => Layout::Null,
        PhysicalType::Object => Layout::Object,
        PhysicalType::Unknown => Layout::Unknown,
        _ => Layout::Scalar,
    }
}

/// How many of `cells` are null.
pub open spec fn null_cells(cells: Seq<Cell>) -> nat
    decreases cells.len(),
{
    if cells.len() == 0 {
        0
    } else {
        null_cells(cells.drop_last()) + if cells.last() is Null { 1nat } else { 0nat }
    }
}

/// A column of `n` nulls.
pub open spec fn null_column(name: Seq<char>, kind: PhysicalType, n: nat) -> ColumnView {
    ColumnView { name, kind, cells: Seq::new(n, |i: int| Cell::Null), fields: Seq::empty() }
}

/// A column of one cell.
pub open spec fn unit_column(name: Seq<char>, kind: PhysicalType, cell: Cell) -> ColumnView {
    ColumnView { name, kind, cells: seq![cell], fields: Seq::empty() }
}

/// The struct column `name` over the sub-columns `fields`: as many
/// rows as the first of them has.
pub open spec fn struct_column(name: Seq<char>, fields: Seq<ColumnView>) -> ColumnView {
    ColumnView {
        name,
        kind: PhysicalType::Struct,
        cells: Seq::new(row_count(fields), |i: int| Cell::Row),
        fields,
    }
}

/// The column `a` with the cells of `b` after its own.
pub open spec fn appended(a: ColumnView, b: ColumnView) -> ColumnView {
    ColumnView { name: a.name, kind: a.kind, cells: a.cells + b.cells, fields: a.fields }
}

/// Whether a column of this type holds booleans or numbers.
pub open spec fn is_number(kind: PhysicalType) -> bool {
    match kind {
        PhysicalType::Boolean
        | PhysicalType::UInt8
        | PhysicalType::UInt16
        | PhysicalType::UInt32
        | PhysicalType::UInt64
        | PhysicalType::Int8
        | PhysicalType::Int16
        | PhysicalType::Int32
        | PhysicalType::Int64
        | PhysicalType::Float32
        | PhysicalType::Float64 => true,
        _ => false,
    }
}

/// Whether a column of this type holds plain values: booleans, numbers,
/// text, byte strings, dates or times of day.
pub open spec fn is_plain(kind: PhysicalType) -> bool {
    match kind {
        PhysicalType::String
        | PhysicalType::Binary
        | PhysicalType::Date
        | PhysicalType::Time => true,
        _ => is_number(kind),
    }
}

/// Whether the column builder can grow a column of this type: a plain
/// one, or a categorical one. These are the types that their tag alone
/// tells the storage how to make.
pub open spec fn is_writable(kind: PhysicalType) -> bool {
    is_plain(kind) || kind == PhysicalType::Categorical
}

/// The tag itself where it is that of booleans or numbers.
pub open spec fn number_tag(kind: PhysicalType) -> Option<PhysicalType> {
    if is_number(kind) {
        Some(kind)
    } else {
        None
    }
}

/// The tag itself where it is that of text, byte strings, times, or
/// the null type.
pub open spec fn flat_tag(kind: PhysicalType) -> Option<PhysicalType> {
    match kind {
        PhysicalType::String
        | PhysicalType::Binary
        | PhysicalType::BinaryOffset
        | PhysicalType::Date
        | PhysicalType::Datetime
        | PhysicalType::Duration
        | PhysicalType::Time
        | PhysicalType::Decimal
        | PhysicalType::Null => Some(kind),
        _ => None,
    }
}

/// The tag itself where it is that of a nested, categorical, object or
/// undecided type.
pub open spec fn nested_tag(kind: PhysicalType) -> Option<PhysicalType> {
    match kind {
        PhysicalType::Array
        | PhysicalType::List
        | PhysicalType::Struct
        | PhysicalType::Categorical
        | PhysicalType::Enum
        | PhysicalType::Object
        | PhysicalType::Unknown => Some(kind),
        _ => None,
    }
}

/// Whether all of `columns` have the same number of rows.
pub open spec fn same_length(columns: Seq<ColumnView>) -> bool {
    forall|i: int, j: int|
        0 <= i < columns.len() && 0 <= j < columns.len() ==> (#[trigger] columns[i]).cells.len() == (
        #[trigger] columns[j]).cells.len()
}

/// Whether no two of `columns` have the same name.
pub open spec fn distinct_names(columns: Seq<ColumnView>) -> bool {
    forall|i: int, j: int|
        0 <= i < j < columns.len() ==> (#[trigger] columns[i]).name != (#[trigger] columns[j]).name
}

/// The largest number of rows that a polars column holds: it counts
/// rows in 32 bits and keeps the largest number for itself.
pub const MAX_ROWS: usize = 0xFFFF_FFFE;

/// The column that a polars `Series` holds: its name, its type and its
/// slots. Nothing is known of it but what the functions below state.
pub uninterp spec fn series_view(s: Series) -> ColumnView;

/// The columns that a polars `DataFrame` holds, in their order. Nothing
/// is known of them but what the functions below state.
pub uninterp spec fn frame_view(df: DataFrame) -> Seq<ColumnView>;

/// The number of rows of a table with these columns: that of the
/// first column, and 0 without columns.
pub open spec fn row_count(columns: Seq<ColumnView>) -> nat {
    if columns.len() == 0 {
        0
    } else {
        columns[0].cells.len()
    }
}

/// Whether `row` is a row of every one of `columns`.
pub open spec fn rows_in(columns: Seq<ColumnView>, row: int) -> bool {
    forall|i: int| 0 <= i < columns.len() ==> row < (#[trigger] columns[i]).cells.len()
}

/// Whether `columns` can be the columns of one table: all of one
/// length, and no name twice.
pub open spec fn makes_table(columns: Seq<ColumnView>) -> bool {
    same_length(columns) && distinct_names(columns)
}

/// The columns that `series` stand for, one for one.
pub open spec fn views(series: Seq<Series>) -> Seq<ColumnView> {
    Seq::new(series.len(), |i: int| series_view(series[i]))
}

/// `Series::len`: the number of rows.
#[verifier::external_body]
pub(crate) fn series_len(s: &Series) -> (n: usize)
    ensures
        n == series_view(*s).cells.len(),
{
    s.len()
}

/// `Series::name`, copied into a `String`.
#[verifier::external_body]
pub(crate) fn series_name(s: &Series) -> (name: String)
    ensures
        name@ == series_view(*s).name,
{
    s.name().to_string()
}

/// `Series::clone`: a second handle on the same column.
#[verifier::external_body]
pub(crate) fn series_clone(s: &Series) -> (r: Series)
    ensures
        series_view(r) == series_view(*s),
{
    s.clone()
}

/// `Series::dtype`, where the type is that of booleans or numbers: its
/// tag, and `None` for every other type.
#[verifier::external_body]
pub(crate) fn series_number_tag(s: &Series) -> (r: Option<PhysicalType>)
    ensures
        r == number_tag(series_view(*s).kind),
{
    match s.dtype() {
        DataType::Boolean => Some(PhysicalType::Boolean),
        DataType::UInt8 => Some(PhysicalType::UInt8),
        DataType::UInt16 => Some(PhysicalType::UInt16),
        DataType::UInt32 => Some(PhysicalType::UInt32),
        DataType::UInt64 => Some(PhysicalType::UInt64),
        DataType::Int8 => Some(PhysicalType::Int8),
        DataType::Int16 => Some(PhysicalType::Int16),
        DataType::Int32 => Some(PhysicalType::Int32),
        DataType::Int64 => Some(PhysicalType::Int64),
        DataType::Float32 => Some(PhysicalType::Float32),
        DataType::Float64 => Some(PhysicalType::Float64),
        _ => None,
    }
}

/// `Series::dtype`, where the type is that of text, byte strings,
/// times, decimals or the null type: its tag, and `None` for every other
/// type.
#[verifier::external_body]
pub(crate) fn series_flat_tag(s: &Series) -> (r: Option<PhysicalType>)
    ensures
        r == flat_tag(series_view(*s).kind),
{
    match s.dtype() {
        DataType::String => Some(PhysicalType::String),
        DataType::Binary => Some(PhysicalType::Binary),
        DataType::BinaryOffset => Some(PhysicalType::BinaryOffset),
        DataType::Date => Some(PhysicalType::Date),
        DataType::Datetime(_, _) => Some(PhysicalType::Datetime),
        DataType::Duration(_) => Some(PhysicalType::Duration),
        DataType::Time => Some(PhysicalType::Time),
        DataType::Decimal(_, _) => Some(PhysicalType::Decimal),
        DataType::Null => Some(PhysicalType::Null),
        _ => None,
    }
}

/// `Series::dtype`, where the type is nested, categorical, an object or
/// undecided: its tag, and `None` for every other type.
#[verifier::external_body]
pub(crate) fn series_nested_tag(s: &Series) -> (r: Option<PhysicalType>)
    ensures
        r == nested_tag(series_view(*s).kind),
{
    match s.dtype() {
        DataType::Array(_, _) => Some(PhysicalType::Array),
        DataType::List(_) => Some(PhysicalType::List),
        DataType::Struct(_) => Some(PhysicalType::Struct),
        DataType::Categorical(_, _) => Some(PhysicalType::Categorical),
        DataType::Enum(_, _) => Some(PhysicalType::Enum),
        DataType::Object(_, _) => Some(PhysicalType::Object),
        DataType::Unknown(_) => Some(PhysicalType::Unknown),
        _ => None,
    }
}

/// The physical type tag of the column.
pub fn series_kind(s: &Series) -> (kind: PhysicalType)
    ensures
        kind == series_view(*s).kind,
{
    if let Some(kind) = series_number_tag(s) {
        return kind;
    }
    if let Some(kind) = series_flat_tag(s) {
        return kind;
    }
    match series_nested_tag(s) {
        Some(kind) => kind,
        None => PhysicalType::Unknown,
    }
}

/// The layout that belongs to a physical type.
pub fn layout(kind: PhysicalType) -> (r: Layout)
    ensures
        r == layout_of(kind),
{
    match kind {
        PhysicalType::String => Layout::Text,
        PhysicalType::Binary => Layout::Binary,
        PhysicalType::BinaryOffset => Layout::BinaryOffset,
        PhysicalType::List => Layout::List,
        PhysicalType::Array => Layout::Array,
        PhysicalType::Struct => Layout::Struct,
        PhysicalType::Categorical => Layout::Categorical,
        PhysicalType::Enum => Layout::Categorical,
        PhysicalType::Null => Layout::Null,
        PhysicalType::Object => Layout::Object,
        PhysicalType::Unknown => Layout::Unknown,
        _ => Layout::Scalar,
    }
}

/// The layout of the slots of the column.
pub fn series_layout(s: &Series) -> (r: Layout)
    ensures
        r == layout_of(series_view(*s).kind),
{
    layout(series_kind(s))
}

/// `Series::null_count`: zero only where no slot is null, and outside
/// struct columns the exact number of null slots.
#[verifier::external_body]
pub(crate) fn series_null_count(s: &Series) -> (n: usize)
    ensures
        n == 0 ==> forall|i: int|
            0 <= i < series_view(*s).cells.len() ==> !(#[trigger] series_view(*s).cells[i] is Null),
        series_view(*s).kind != PhysicalType::Struct ==> n == null_cells(series_view(*s).cells),
{
    s.null_count()
}

/// `Series::get`, asked only whether the slot is null. polars answers
/// with an error where `idx` is not a row of the column.
#[verifier::external_body]
pub(crate) fn series_is_null_at(s: &Series, idx: usize) -> (r: Result<bool, PolarsError>)
    ensures
        r is Ok <==> idx < series_view(*s).cells.len(),
        r matches Ok(b) ==> b == (series_view(*s).cells[idx as int] is Null),
{
    s.get(idx).map(|v| matches!(v, AnyValue::Null))
}

/// `Series::bool`, then `ChunkedArray::get`. The first fails unless the
/// column is boolean; the second gives the slot, `None` for a null.
#[verifier::external_body]
pub(crate) fn series_get_bool(s: &Series, idx: usize) -> (r: Result<Option<bool>, PolarsError>)
    requires
        idx < series_view(*s).cells.len(),
    ensures
        r is Ok <==> series_view(*s).kind == PhysicalType::Boolean,
        r matches Ok(Some(v)) ==> series_view(*s).cells[idx as int] == Cell::Bool(v),
        r matches Ok(None) ==> series_view(*s).cells[idx as int] == Cell::Null,
{
    s.bool().map(|ca| ca.get(idx))
}

/// `Series::i8`, then `ChunkedArray::get`. The first fails unless the
/// column holds 8-bit signed integers; the second gives the slot.
#[verifier::external_body]
pub(crate) fn series_get_i8(s: &Series, idx: usize) -> (r: Result<Option<i8>, PolarsError>)
    requires
        idx < series_view(*s).cells.len(),
    ensures
        r is Ok <==> series_view(*s).kind == PhysicalType::Int8,
        r matches Ok(Some(v)) ==> series_view(*s).cells[idx as int] == Cell::Int8(v),
        r matches Ok(None) ==> series_view(*s).cells[idx as int] == Cell::Null,
{
    s.i8().map(|ca| ca.get(idx))
}

/// `Series::i16`, then `ChunkedArray::get`. The first fails unless the
/// column holds 16-bit signed integers; the second gives the slot.
#[verifier::external_body]
pub(crate) fn series_get_i16(s: &Series, idx: usize) -> (r: Result<Option<i16>, PolarsError>)
    requires
        idx < series_view(*s).cells.len(),
    ensures
        r is Ok <==> series_view(*s).kind == PhysicalType::Int16,
        r matches Ok(Some(v)) ==> series_view(*s).cells[idx as int] == Cell::Int16(v),
        r matches Ok(None) ==> series_view(*s).cells[idx as int] == Cell::Null,
{
    s.i16().map(|ca| ca.get(idx))
}

/// `Series::i32`, then `ChunkedArray::get`. The first fails unless the
/// column holds 32-bit signed integers; the second gives the slot.
#[verifier::external_body]
pub(crate) fn series_get_i32(s: &Series, idx: usize) -> (r: Result<Option<i32>, PolarsError>)
    requires
        idx < series_view(*s).cells.len(),
    ensures
        r is Ok <==> series_view(*s).kind == PhysicalType::Int32,
        r matches Ok(Some(v)) ==> series_view(*s).cells[idx as int] == Cell::Int32(v),
        r matches Ok(None) ==> series_view(*s).cells[idx as int] == Cell::Null,
{
    s.i32().map(|ca| ca.get(idx))
}

/// `Series::i64`, then `ChunkedArray::get`. The first fails unless the
/// column holds 64-bit signed integers; the second gives the slot.
#[verifier::external_body]
pub(crate) fn series_get_i64(s: &Series, idx: usize) -> (r: Result<Option<i64>, PolarsError>)
    requires
        idx < series_view(*s).cells.len(),
    ensures
        r is Ok <==> series_view(*s).kind == PhysicalType::Int64,
        r matches Ok(Some(v)) ==> series_view(*s).cells[idx as int] == Cell::Int64(v),
        r matches Ok(None) ==> series_view(*s).cells[idx as int] == Cell::Null,
{
    s.i64().map(|ca| ca.get(idx))
}

/// `Series::u8`, then `ChunkedArray::get`. The first fails unless the
/// column holds 8-bit unsigned integers; the second gives the slot.
#[verifier::external_body]
pub(crate) fn series_get_u8(s: &Series, idx: usize) -> (r: Result<Option<u8>, PolarsError>)
    requires
        idx < series_view(*s).cells.len(),
    ensures
        r is Ok <==> series_view(*s).kind == PhysicalType::UInt8,
        r matches Ok(Some(v)) ==> series_view(*s).cells[idx as int] == Cell::UInt8(v),
        r matches Ok(None) ==> series_view(*s).cells[idx as int] == Cell::Null,
{
    s.u8().map(|ca| ca.get(idx))
}

/// `Series::u16`, then `ChunkedArray::get`. The first fails unless the
/// column holds 16-bit unsigned integers; the second gives the slot.
#[verifier::external_body]
pub(crate) fn series_get_u16(s: &Series, idx: usize) -> (r: Result<Option<u16>, PolarsError>)
    requires
        idx < series_view(*s).cells.len(),
    ensures
        r is Ok <==> series_view(*s).kind == PhysicalType::UInt16,
        r matches Ok(Some(v)) ==> series_view(*s).cells[idx as int] == Cell::UInt16(v),
        r matches Ok(None) ==> series_view(*s).cells[idx as int] == Cell::Null,
{
    s.u16().map(|ca| ca.get(idx))
}

/// `Series::u32`, then `ChunkedArray::get`. The first fails unless the
/// column holds 32-bit unsigned integers; the second gives the slot.
#[verifier::external_body]
pub(crate) fn series_get_u32(s: &Series, idx: usize) -> (r: Result<Option<u32>, PolarsError>)
    requires
        idx < series_view(*s).cells.len(),
    ensures
        r is Ok <==> series_view(*s).kind == PhysicalType::UInt32,
        r matches Ok(Some(v)) ==> series_view(*s).cells[idx as int] == Cell::UInt32(v),
        r matches Ok(None) ==> series_view(*s).cells[idx as int] == Cell::Null,
{
    s.u32().map(|ca| ca.get(idx))
}

/// `Series::u64`, then `ChunkedArray::get`. The first fails unless the
/// column holds 64-bit unsigned integers; the second gives the slot.
#[verifier::external_body]
pub(crate) fn series_get_u64(s: &Series, idx: usize) -> (r: Result<Option<u64>, PolarsError>)
    requires
        idx < series_view(*s).cells.len(),
    ensures
        r is Ok <==> series_view(*s).kind == PhysicalType::UInt64,
        r matches Ok(Some(v)) ==> series_view(*s).cells[idx as int] == Cell::UInt64(v),
        r matches Ok(None) ==> series_view(*s).cells[idx as int] == Cell::Null,
{
    s.u64().map(|ca| ca.get(idx))
}

/// `Series::str`, then `ChunkedArray::get`. The first fails unless the
/// column holds text; the second gives the slot, here copied into a
/// `String`.
#[verifier::external_body]
pub(crate) fn series_get_str(s: &Series, idx: usize) -> (r: Result<Option<String>, PolarsError>)
    requires
        idx < series_view(*s).cells.len(),
    ensures
        r is Ok <==> series_view(*s).kind == PhysicalType::String,
        r matches Ok(Some(v)) ==> series_view(*s).cells[idx as int] == Cell::Text(v@),
        r matches Ok(None) ==> series_view(*s).cells[idx as int] == Cell::Null,
{
    s.str().map(|ca| ca.get(idx).map(|v| v.to_string()))
}

/// `Series::binary`, then `ChunkedArray::get`. The first fails unless
/// the column is binary; the second gives the slot, here copied into a
/// `Vec`.
#[verifier::external_body]
pub(crate) fn series_get_binary(s: &Series, idx: usize) -> (r: Result<Option<Vec<u8>>, PolarsError>)
    requires
        idx < series_view(*s).cells.len(),
    ensures
        r is Ok <==> series_view(*s).kind == PhysicalType::Binary,
        r matches Ok(Some(v)) ==> series_view(*s).cells[idx as int] == Cell::Bytes(v@),
        r matches Ok(None) ==> series_view(*s).cells[idx as int] == Cell::Null,
{
    s.binary().map(|ca| ca.get(idx).map(|v| v.to_vec()))
}

/// `Series::binary_offset`, then `ChunkedArray::get`. The first fails
/// unless the column is binary with offsets; the second gives the slot,
/// here copied into a `Vec`.
#[verifier::external_body]
pub(crate) fn series_get_binary_offset(s: &Series, idx: usize) -> (r: Result<
    Option<Vec<u8>>,
    PolarsError,
>)
    requires
        idx < series_view(*s).cells.len(),
    ensures
        r is Ok <==> series_view(*s).kind == PhysicalType::BinaryOffset,
        r matches Ok(Some(v)) ==> series_view(*s).cells[idx as int] == Cell::Bytes(v@),
        r matches Ok(None) ==> series_view(*s).cells[idx as int] == Cell::Null,
{
    s.binary_offset().map(|ca| ca.get(idx).map(|v| v.to_vec()))
}

/// `Series::categorical`, then `CategoricalChunked::iter_str`, walked to
/// the slot. The first fails unless the column is categorical or an
/// enum; the iterator gives the decoded category of each slot, `None`
/// for a null.
#[verifier::external_body]
pub(crate) fn series_get_category(s: &Series, idx: usize) -> (r: Result<
    Option<String>,
    PolarsError,
>)
    requires
        idx < series_view(*s).cells.len(),
    ensures
        r is Ok <==> layout_of(series_view(*s).kind) == Layout::Categorical,
        r matches Ok(Some(v)) ==> series_view(*s).cells[idx as int] == Cell::Category(v@),
        r matches Ok(None) ==> series_view(*s).cells[idx as int] == Cell::Null,
{
    s.categorical().map(|ca| ca.iter_str().nth(idx).flatten().map(|v| v.to_string()))
}

/// `Series::list`, then `ListChunked::get_as_series`. The first fails
/// unless the column is a list; the second gives the slot as a column of
/// its own, `None` for a null.
#[verifier::external_body]
pub(crate) fn series_get_list(s: &Series, idx: usize) -> (r: Result<Option<Series>, PolarsError>)
    requires
        idx < series_view(*s).cells.len(),
    ensures
        r is Ok <==> series_view(*s).kind == PhysicalType::List,
        r matches Ok(Some(sub)) ==> series_view(*s).cells[idx as int] == Cell::List(
            series_view(sub),
        ),
        r matches Ok(None) ==> series_view(*s).cells[idx as int] == Cell::Null,
{
    s.list().map(|ca| ca.get_as_series(idx))
}

/// `Series::array`, then `ArrayChunked::get_as_series`. The first fails
/// unless the column is a fixed-size array; the second gives the slot as
/// a column of its own, `None` for a null.
#[verifier::external_body]
pub(crate) fn series_get_array(s: &Series, idx: usize) -> (r: Result<Option<Series>, PolarsError>)
    requires
        idx < series_view(*s).cells.len(),
    ensures
        r is Ok <==> series_view(*s).kind == PhysicalType::Array,
        r matches Ok(Some(sub)) ==> series_view(*s).cells[idx as int] == Cell::List(
            series_view(sub),
        ),
        r matches Ok(None) ==> series_view(*s).cells[idx as int] == Cell::Null,
{
    s.array().map(|ca| ca.get_as_series(idx))
}

/// `Series::struct_`, then `StructChunked::fields`. The first fails
/// unless the column is a struct; the second gives its sub-columns. A
/// column that is no struct has no sub-columns.
#[verifier::external_body]
pub(crate) fn series_struct_fields(s: &Series) -> (r: Result<Vec<Series>, PolarsError>)
    ensures
        r is Ok <==> series_view(*s).kind == PhysicalType::Struct,
        r matches Ok(v) ==> series_view(*s).fields == views(v@),
        r is Err ==> series_view(*s).fields == Seq::<ColumnView>::empty(),
{
    s.struct_().map(|ca| ca.fields().to_vec())
}

/// `Rc::clone`: another pointer to the same list of columns; nothing is
/// copied but the pointer.
#[verifier::external_body]
pub(crate) fn share_columns(stack: &Rc<Vec<Series>>) -> (r: Rc<Vec<Series>>)
    ensures
        r == *stack,
{
    Rc::clone(stack)
}

/// `DataFrame::height`: the number of rows of the first column; 0 for
/// a table without columns.
#[verifier::external_body]
pub(crate) fn frame_height(df: &DataFrame) -> (h: usize)
    ensures
        h == row_count(frame_view(*df)),
{
    df.height()
}

/// `DataFrame::get_columns`, the handles copied into a `Vec`.
#[verifier::external_body]
pub(crate) fn frame_columns(df: &DataFrame) -> (r: Vec<Series>)
    ensures
        frame_view(*df) == views(r@),
{
    df.get_columns().to_vec()
}

/// `Series::new_null`: a column of the null type with `n` rows, all of
/// them null. polars keeps the length in 32 bits.
#[verifier::external_body]
pub(crate) fn series_new_null(name: &str, n: usize) -> (r: Series)
    requires
        n <= MAX_ROWS,
    ensures
        series_view(r) == null_column(name@, PhysicalType::Null, n as nat),
{
    Series::new_null(name, n)
}

/// `Series::cast` of a column of the null type to the type of booleans
/// or numbers that `kind` names. Where every slot is null, as here,
/// polars answers with a column of the same name and length and of the
/// new type, all of it null, and does not fail; it stops the program
/// where the column is longer than it can count.
#[verifier::external_body]
pub(crate) fn series_cast_number(nulls: &Series, kind: PhysicalType) -> (r: Result<
    Series,
    PolarsError,
>)
    requires
        series_view(*nulls).kind == PhysicalType::Null,
        series_view(*nulls).cells.len() <= MAX_ROWS,
        is_number(kind),
    ensures
        r is Ok,
        r matches Ok(c) ==> series_view(c) == null_column(
            series_view(*nulls).name,
            kind,
            series_view(*nulls).cells.len(),
        ),
{
    let dtype = match kind {
        PhysicalType::Boolean => DataType::Boolean,
        PhysicalType::UInt8 => DataType::UInt8,
        PhysicalType::UInt16 => DataType::UInt16,
        PhysicalType::UInt32 => DataType::UInt32,
        PhysicalType::UInt64 => DataType::UInt64,
        PhysicalType::Int8 => DataType::Int8,
        PhysicalType::Int16 => DataType::Int16,
        PhysicalType::Int32 => DataType::Int32,
        PhysicalType::Int64 => DataType::Int64,
        PhysicalType::Float32 => DataType::Float32,
        _ => DataType::Float64,
    };
    nulls.cast(&dtype)
}

/// `Series::cast` of a column of the null type to the type of text,
/// byte strings, dates, times of day or categories that `kind` names.
/// Where every slot is null, as here, polars answers with a column of
/// the same name and length and of the new type, all of it null, and
/// does not fail; it stops the program where the column is longer than
/// it can count.
#[verifier::external_body]
pub(crate) fn series_cast_other(nulls: &Series, kind: PhysicalType) -> (r: Result<
    Series,
    PolarsError,
>)
    requires
        series_view(*nulls).kind == PhysicalType::Null,
        series_view(*nulls).cells.len() <= MAX_ROWS,
        is_writable(kind),
        !is_number(kind),
    ensures
        r is Ok,
        r matches Ok(c) ==> series_view(c) == null_column(
            series_view(*nulls).name,
            kind,
            series_view(*nulls).cells.len(),
        ),
{
    let dtype = match kind {
        PhysicalType::String => DataType::String,
        PhysicalType::Binary => DataType::Binary,
        PhysicalType::Date => DataType::Date,
        PhysicalType::Time => DataType::Time,
        _ => DataType::Categorical(None, Default::default()),
    };
    nulls.cast(&dtype)
}

/// `Series::append`, for a column that the builder can grow and another
/// of the same type or of the null type. On success the rows of `other`
/// stand behind those of `s`, nulls where `other` is of the null type;
/// a failure leaves `s` as it was. Between plain columns polars does
/// not fail, nor where `other` is of the null type: it is cast to the
/// type of `s`, categories and all, before it is appended. It counts
/// rows in 32 bits, does not check the sum, and
/// stops the program where it casts a null column longer than it can
/// count.
#[verifier::external_body]
pub(crate) fn series_append(s: &mut Series, other: &Series) -> (r: Result<(), PolarsError>)
    requires
        is_writable(series_view(*old(s)).kind),
        series_view(*other).kind == series_view(*old(s)).kind || series_view(*other).kind
            == PhysicalType::Null,
        series_view(*old(s)).cells.len() + series_view(*other).cells.len() <= MAX_ROWS,
    ensures
        r is Ok ==> series_view(*final(s)) == appended(series_view(*old(s)), series_view(*other)),
        r is Err ==> series_view(*final(s)) == series_view(*old(s)),
        is_plain(series_view(*old(s)).kind) || series_view(*other).kind == PhysicalType::Null
            ==> r is Ok,
{
    s.append(other).map(|_| ())
}

/// `Series::new` on one boolean: a boolean column of one row.
#[verifier::external_body]
pub(crate) fn series_from_bool(name: &str, v: bool) -> (r: Series)
    ensures
        series_view(r) == unit_column(name@, PhysicalType::Boolean, Cell::Bool(v)),
{
    Series::new(name, [v])
}

/// `Series::new` on one `i8`: an 8-bit signed column of one row.
#[verifier::external_body]
pub(crate) fn series_from_i8(name: &str, v: i8) -> (r: Series)
    ensures
        series_view(r) == unit_column(name@, PhysicalType::Int8, Cell::Int8(v)),
{
    Series::new(name, [v])
}

/// `Series::new` on one `i16`: a 16-bit signed column of one row.
#[verifier::external_body]
pub(crate) fn series_from_i16(name: &str, v: i16) -> (r: Series)
    ensures
        series_view(r) == unit_column(name@, PhysicalType::Int16, Cell::Int16(v)),
{
    Series::new(name, [v])
}

/// `Series::new` on one `i32`: a 32-bit signed column of one row.
#[verifier::external_body]
pub(crate) fn series_from_i32(name: &str, v: i32) -> (r: Series)
    ensures
        series_view(r) == unit_column(name@, PhysicalType::Int32, Cell::Int32(v)),
{
    Series::new(name, [v])
}

/// `Series::new` on one `i64`: a 64-bit signed column of one row.
#[verifier::external_body]
pub(crate) fn series_from_i64(name: &str, v: i64) -> (r: Series)
    ensures
        series_view(r) == unit_column(name@, PhysicalType::Int64, Cell::Int64(v)),
{
    Series::new(name, [v])
}

/// `Series::new` on one `u8`: an 8-bit unsigned column of one row.
#[verifier::external_body]
pub(crate) fn series_from_u8(name: &str, v: u8) -> (r: Series)
    ensures
        series_view(r) == unit_column(name@, PhysicalType::UInt8, Cell::UInt8(v)),
{
    Series::new(name, [v])
}

/// `Series::new` on one `u16`: a 16-bit unsigned column of one row.
#[verifier::external_body]
pub(crate) fn series_from_u16(name: &str, v: u16) -> (r: Series)
    ensures
        series_view(r) == unit_column(name@, PhysicalType::UInt16, Cell::UInt16(v)),
{
    Series::new(name, [v])
}

/// `Series::new` on one `u32`: a 32-bit unsigned column of one row.
#[verifier::external_body]
pub(crate) fn series_from_u32(name: &str, v: u32) -> (r: Series)
    ensures
        series_view(r) == unit_column(name@, PhysicalType::UInt32, Cell::UInt32(v)),
{
    Series::new(name, [v])
}

/// `Series::new` on one `u64`: a 64-bit unsigned column of one row.
#[verifier::external_body]
pub(crate) fn series_from_u64(name: &str, v: u64) -> (r: Series)
    ensures
        series_view(r) == unit_column(name@, PhysicalType::UInt64, Cell::UInt64(v)),
{
    Series::new(name, [v])
}

/// `Series::new` on one string slice: a text column of one row.
#[verifier::external_body]
pub(crate) fn series_from_str(name: &str, v: &str) -> (r: Series)
    ensures
        series_view(r) == unit_column(name@, PhysicalType::String, Cell::Text(v@)),
{
    Series::new(name, [v])
}

/// `Series::new` on the string that holds one character: a text column
/// of one row.
#[verifier::external_body]
pub(crate) fn series_from_char(name: &str, v: char) -> (r: Series)
    ensures
        series_view(r) == unit_column(name@, PhysicalType::String, Cell::Text(seq![v])),
{
    Series::new(name, [v.to_string()])
}

/// `Series::new` on one byte slice: a binary column of one row.
#[verifier::external_body]
pub(crate) fn series_from_bytes(name: &str, v: &Vec<u8>) -> (r: Series)
    ensures
        series_view(r) == unit_column(name@, PhysicalType::Binary, Cell::Bytes(v@)),
{
    Series::new(name, [v.as_slice()])
}

/// `Series::cast` of a text column of one row to the categorical type
/// without given categories: polars does not fail on text, and the
/// column it makes has the same name, is categorical, and its one row
/// decodes to the text.
#[verifier::external_body]
pub(crate) fn series_cast_category(text: &Series) -> (r: Result<Series, PolarsError>)
    requires
        series_view(*text).kind == PhysicalType::String,
        series_view(*text).cells.len() == 1,
        series_view(*text).cells[0] is Text,
    ensures
        r is Ok,
        r matches Ok(c) ==> series_view(c) == unit_column(
            series_view(*text).name,
            PhysicalType::Categorical,
            Cell::Category(series_view(*text).cells[0]->Text_0),
        ),
{
    text.cast(&DataType::Categorical(None, Default::default()))
}

/// `StructChunked::new`, then `into_series`: the struct column over the
/// given sub-columns. Where these are of one length and no two share a
/// name polars does not fail, keeps them as they are and gives the
/// column as many rows as they have.
#[verifier::external_body]
pub(crate) fn series_from_fields(name: &str, fields: &Vec<Series>) -> (r: Result<
    Series,
    PolarsError,
>)
    requires
        fields.len() > 0,
        makes_table(views(fields@)),
        row_count(views(fields@)) <= MAX_ROWS,
    ensures
        r is Ok,
        r matches Ok(s) ==> series_view(s) == struct_column(name@, views(fields@)),
{
    StructChunked::new(name, fields).map(|ca| ca.into_series())
}

/// `DataFrame::new`: polars makes the table exactly where the columns
/// are of one length and no two of them share a name, and then the
/// table holds these columns in this order.
#[verifier::external_body]
pub(crate) fn frame_new(columns: Vec<Series>) -> (r: Result<DataFrame, PolarsError>)
    ensures
        r is Ok <==> makes_table(views(columns@)),
        r matches Ok(df) ==> frame_view(df) == views(columns@),
{
    DataFrame::new(columns)
}

} // verus!
