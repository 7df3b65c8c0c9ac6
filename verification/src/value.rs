use vstd::prelude::*;

verus! {

/// A value of a record: what a row yields on reading and what a record
/// supplies on writing.
#[derive(Debug, PartialEq, Eq)]
pub enum Value {
    Unit,
    Absent,
    Present(Box<Value>),
    Bool(bool),
    I8(i8),
    I16(i16),
    I32(i32),
    I64(i64),
    U8(u8),
    U16(u16),
    U32(u32),
    U64(u64),
    Char(char),
    Text(String),
    Bytes(Vec<u8>),
    Sequence(Vec<Value>),
    Record(Vec<Field>),
    Variant(String),
    UnitStruct(String),
}

/// A named entry of a record.
#[derive(Debug, PartialEq, Eq)]
pub struct Field {
    pub name: String,
    pub value: Value,
}

/// The mathematical content of a [`Value`].
pub ghost enum ValueView {
    Unit,
    Absent,
    Present(Box<ValueView>),
    Bool(bool),
    I8(i8),
    I16(i16),
    I32(i32),
    I64(i64),
    U8(u8),
    U16(u16),
    U32(u32),
    U64(u64),
    Char(char),
    Text(Seq<char>),
    Bytes(Seq<u8>),
    Sequence(Seq<ValueView>),
    Record(Seq<FieldView>),
    Variant(Seq<char>),
    UnitStruct(Seq<char>),
}

/// The mathematical content of a [`Field`].
pub ghost struct FieldView {
    pub name: Seq<char>,
    pub value: ValueView,
}

/// The content of `v`.
pub open spec fn value_view(v: Value) -> ValueView
    decreases v, 1int,
{
    match v {
        Value::Unit => ValueView::Unit,
        Value::Absent => ValueView::Absent,
        Value::Present(inner) => ValueView::Present(Box::new(value_view(*inner))),
        Value::Bool(v) => ValueView::Bool(v),
        Value::I8(v) => ValueView::I8(v),
        Value::I16(v) => ValueView::I16(v),
        Value::I32(v) => ValueView::I32(v),
        Value::I64(v) => ValueView::I64(v),
        Value::U8(v) => ValueView::U8(v),
        Value::U16(v) => ValueView::U16(v),
        Value::U32(v) => ValueView::U32(v),
        Value::U64(v) => ValueView::U64(v),
        Value::Char(v) => ValueView::Char(v),
        Value::Text(v) => ValueView::Text(v@),
        Value::Bytes(v) => ValueView::Bytes(v@),
        Value::Sequence(items) => ValueView::Sequence(values_view(items)),
        Value::Record(fields) => ValueView::Record(fields_view(fields)),
        Value::Variant(v) => ValueView::Variant(v@),
        Value::UnitStruct(v) => ValueView::UnitStruct(v@),
    }
}

/// The contents of `items`, in order.
pub open spec fn values_view(items: Vec<Value>) -> Seq<ValueView>
    decreases items, 1int,
{
    Seq::new(items.len() as nat, |i: int| values_at(items, i))
}

/// The contents of `fields`, in order.
pub open spec fn fields_view(fields: Vec<Field>) -> Seq<FieldView>
    decreases fields, 1int,
{
    Seq::new(fields.len() as nat, |i: int| fields_at(fields, i))
}

/// The content of the `i`-th of `items`.
pub open spec fn values_at(items: Vec<Value>, i: int) -> ValueView
    decreases items, 0int,
{
    if 0 <= i < items.len() {
        value_view(items[i])
    } else {
        ValueView::Unit
    }
}

/// The content of the `i`-th of `fields`.
pub open spec fn fields_at(fields: Vec<Field>, i: int) -> FieldView
    decreases fields, 0int,
{
    if 0 <= i < fields.len() {
        FieldView { name: fields[i].name@, value: value_view(fields[i].value) }
    } else {
        FieldView { name: Seq::empty(), value: ValueView::Unit }
    }
}

impl View for Value {
    type V = ValueView;

    open spec fn view(&self) -> ValueView {
        value_view(*self)
    }
}

impl View for Field {
    type V = FieldView;

    open spec fn view(&self) -> FieldView {
        FieldView { name: self.name@, value: self.value@ }
    }
}

} // verus!
