use polars::datatypes::{BinaryOffsetChunked, DataType, StructChunked, TimeUnit};
use polars::frame::DataFrame;
use polars::prelude::{ChunkFull, ChunkFullNull, IntoSeries, NamedFrom};
use polars::series::Series;
use polars_deser_row::column::{layout, series_kind, series_layout, Layout, PhysicalType};
use polars_deser_row::deser_map::PlRowImplMapAccess;
use polars_deser_row::deser_root::{answer_byte, answer_text, SeriesDeserItem};
use polars_deser_row::deser_seq::{NoneDeserializer, SeqItem};
use polars_deser_row::deser_series::{height, SeriesDeser};
use polars_deser_row::pl_row_error::PlRowSerdeErrorTypes;
use polars_deser_row::request::{find_field, FieldRequest, Request};
use polars_deser_row::ser_root::{PlRowSerMap, PlRowSerStruct, SerdeItemAnyValueBuffer};
use polars_deser_row::value::{Field, Value};
use polars_deser_row::{
    deserialize_all, deserialize_single_row, serialize_into_dataframe,
    serialize_item_into_dataframe,
};
use std::rc::Rc;

fn field(name: &str, request: Request) -> FieldRequest {
    FieldRequest { name: name.to_string(), request }
}

fn entry(name: &str, value: Value) -> Field {
    Field { name: name.to_string(), value }
}

fn record_of(name: &str, value: Value) -> Value {
    Value::Record(vec![entry(name, value)])
}

fn optional(inner: Request) -> Request {
    Request::Optional(Box::new(inner))
}

fn sequence(inner: Request) -> Request {
    Request::Sequence(Box::new(inner))
}

fn some(value: Value) -> Value {
    Value::Present(Box::new(value))
}

fn at(series: &Series, row: usize) -> SeriesDeserItem {
    SeriesDeserItem::new(series.clone(), row)
}

#[test]
fn two_columns_row_one_and_all_rows() {
    let df = DataFrame::new(vec![
        Series::new("int8", [1i8, 2, 3]),
        Series::new("flag", [false, true, false]),
    ])
    .unwrap();
    let schema = vec![field("int8", Request::I8), field("flag", Request::Bool)];
    assert_eq!(
        deserialize_single_row(df.clone(), 1, &schema),
        Ok(Value::Record(vec![entry("int8", Value::I8(2)), entry("flag", Value::Bool(true))]))
    );
    let all = deserialize_all(df, &schema);
    assert_eq!(
        all,
        vec![
            Ok(Value::Record(vec![entry("int8", Value::I8(1)), entry("flag", Value::Bool(false))])),
            Ok(Value::Record(vec![entry("int8", Value::I8(2)), entry("flag", Value::Bool(true))])),
            Ok(Value::Record(vec![entry("int8", Value::I8(3)), entry("flag", Value::Bool(false))])),
        ]
    );
}

#[test]
fn some_none_some_builds_integer_column_with_null() {
    let records = vec![
        record_of("x", some(Value::I32(5))),
        record_of("x", Value::Absent),
        record_of("x", some(Value::I32(7))),
    ];
    let df = serialize_into_dataframe(records).unwrap();
    assert_eq!(df.height(), 3);
    assert_eq!(df.get_columns().len(), 1);
    let x = &df["x"];
    assert_eq!(x.dtype(), &DataType::Int32);
    assert_eq!(x, &Series::new("x", [Some(5i32), None, Some(7)]));
    let schema = vec![field("x", optional(Request::I32))];
    assert_eq!(
        deserialize_single_row(df.clone(), 1, &schema),
        Ok(record_of("x", Value::Absent))
    );
    assert_eq!(
        deserialize_single_row(df.clone(), 0, &schema),
        Ok(record_of("x", some(Value::I32(5))))
    );
    let strict = vec![field("x", Request::I32)];
    assert_eq!(
        deserialize_single_row(df, 1, &strict),
        Err(PlRowSerdeErrorTypes::Null)
    );
}

fn round_trip(value: fn() -> Value, request: Request) {
    let df = serialize_item_into_dataframe(record_of("f", value())).unwrap();
    let schema = vec![field("f", request)];
    assert_eq!(deserialize_single_row(df, 0, &schema), Ok(record_of("f", value())));
}

#[test]
fn scalars_round_trip() {
    round_trip(|| Value::Bool(true), Request::Bool);
    round_trip(|| Value::I8(i8::MIN), Request::I8);
    round_trip(|| Value::I16(i16::MIN), Request::I16);
    round_trip(|| Value::I32(i32::MIN), Request::I32);
    round_trip(|| Value::I64(i64::MIN), Request::I64);
    round_trip(|| Value::U8(u8::MAX), Request::U8);
    round_trip(|| Value::U16(u16::MAX), Request::U16);
    round_trip(|| Value::U32(u32::MAX), Request::U32);
    round_trip(|| Value::U64(u64::MAX), Request::U64);
    round_trip(|| Value::Char('c'), Request::Char);
    round_trip(|| Value::Text("héllo".to_string()), Request::Text);
    round_trip(|| Value::Bytes(vec![0, 255, 7]), Request::Bytes);
}

#[test]
fn character_outside_one_byte_does_not_read_back() {
    let df = serialize_item_into_dataframe(record_of("f", Value::Char('é'))).unwrap();
    let schema = vec![field("f", Request::Char)];
    assert_eq!(
        deserialize_single_row(df, 0, &schema),
        Err(PlRowSerdeErrorTypes::CharLength)
    );
}

#[test]
fn all_absent_builds_null_column_that_reads_absent() {
    let records = vec![record_of("x", Value::Absent), record_of("x", Value::Absent)];
    let df = serialize_into_dataframe(records).unwrap();
    assert_eq!(df["x"].dtype(), &DataType::Null);
    assert_eq!(df.height(), 2);
    let schema = vec![field("x", optional(Request::I64))];
    let all = deserialize_all(df, &schema);
    assert_eq!(
        all,
        vec![Ok(record_of("x", Value::Absent)), Ok(record_of("x", Value::Absent))]
    );
}

#[test]
fn nulls_are_kept_in_front_of_the_first_value() {
    let mut ser = SerdeItemAnyValueBuffer::new("x");
    ser.serialize_none().unwrap();
    ser.serialize_none().unwrap();
    assert_eq!(ser.datatype(), PhysicalType::Null);
    assert_eq!(ser.len(), 2);
    ser.serialize_str("a").unwrap();
    assert_eq!(ser.datatype(), PhysicalType::String);
    ser.serialize_none().unwrap();
    assert_eq!(ser.len(), 4);
    assert_eq!(ser.name(), "x");
    let column = ser.finish();
    assert_eq!(column, Series::new("x", [None, None, Some("a"), None]));
}

#[test]
fn column_without_values_finishes_as_null_column() {
    let empty = SerdeItemAnyValueBuffer::new("x").finish();
    assert_eq!(empty.len(), 0);
    assert_eq!(empty.dtype(), &DataType::Null);
    assert_eq!(empty.name(), "x");
}

#[test]
fn settled_type_takes_no_other_type() {
    let mut ser = SerdeItemAnyValueBuffer::new("x");
    ser.serialize_i64(1).unwrap();
    assert_eq!(ser.serialize_i8(2), Err(PlRowSerdeErrorTypes::TypeMisMatch));
    assert_eq!(ser.serialize_str("no"), Err(PlRowSerdeErrorTypes::TypeMisMatch));
    assert_eq!(ser.serialize_bool(true), Err(PlRowSerdeErrorTypes::TypeMisMatch));
    assert_eq!(
        ser.serialize_unit_variant("no"),
        Err(PlRowSerdeErrorTypes::TypeMisMatch)
    );
    assert_eq!(ser.len(), 1);
    ser.serialize_i64(3).unwrap();
    assert_eq!(ser.finish(), Series::new("x", [1i64, 3]));
}

#[test]
fn type_can_be_settled_ahead_of_the_first_value() {
    let mut ser = SerdeItemAnyValueBuffer::new("x");
    ser.serialize_none().unwrap();
    ser.change_not_null_anyvalue_buffer(None).unwrap();
    assert_eq!(ser.datatype(), PhysicalType::Null);
    assert_eq!(
        ser.change_not_null_anyvalue_buffer(Some(PhysicalType::List)),
        Err(PlRowSerdeErrorTypes::TypeMisMatch)
    );
    ser.change_not_null_anyvalue_buffer(Some(PhysicalType::UInt16)).unwrap();
    assert_eq!(ser.datatype(), PhysicalType::UInt16);
    assert_eq!(ser.len(), 1);
    ser.change_not_null_anyvalue_buffer(Some(PhysicalType::Boolean)).unwrap();
    assert_eq!(ser.datatype(), PhysicalType::UInt16);
    assert_eq!(ser.serialize_u8(1), Err(PlRowSerdeErrorTypes::TypeMisMatch));
    ser.serialize_u16(9).unwrap();
    assert_eq!(ser.finish(), Series::new("x", [None, Some(9u16)]));
}

#[test]
fn narrow_request_on_wide_column_is_a_mismatch() {
    let df = serialize_item_into_dataframe(record_of("f", Value::I64(300))).unwrap();
    let schema = vec![field("f", Request::I8)];
    assert_eq!(
        deserialize_single_row(df, 0, &schema),
        Err(PlRowSerdeErrorTypes::TypeMisMatch)
    );
    let wide = Series::new("w", [1i16]);
    assert_eq!(at(&wide, 0).deserialize_i32(), Err(PlRowSerdeErrorTypes::TypeMisMatch));
    assert_eq!(at(&wide, 0).deserialize_i16(), Ok(1));
}

#[test]
fn empty_list_reads_as_empty_sequence() {
    let none: [i32; 0] = [];
    let lists = Series::new("l", [Series::new("", none), Series::new("", [4i32])]);
    assert_eq!(at(&lists, 0).extract(&sequence(Request::I32)), Ok(Value::Sequence(vec![])));
    assert_eq!(
        at(&lists, 0).extract(&optional(sequence(Request::I32))),
        Ok(some(Value::Sequence(vec![])))
    );
    assert_eq!(
        at(&lists, 1).extract(&sequence(Request::I32)),
        Ok(Value::Sequence(vec![Value::I32(4)]))
    );
    let cursor = at(&lists, 1).deserialize_seq().unwrap();
    assert_eq!(cursor.size_hint(), Some(1));
}

#[test]
fn null_elements_of_a_list_are_absent_not_the_end() {
    let inner = Series::new("", [Some(1i64), None, Some(3)]);
    let lists = Series::new("l", [inner]);
    assert_eq!(
        at(&lists, 0).extract(&sequence(optional(Request::I64))),
        Ok(Value::Sequence(vec![some(Value::I64(1)), Value::Absent, some(Value::I64(3))]))
    );
    assert_eq!(
        at(&lists, 0).extract(&sequence(Request::I64)),
        Err(PlRowSerdeErrorTypes::Null)
    );
    let mut cursor = at(&lists, 0).deserialize_seq().unwrap();
    assert!(matches!(cursor.next_element(), Some(Some(SeqItem::Row(_)))));
    assert!(matches!(cursor.next_element(), Some(None)));
    assert!(matches!(cursor.next_element(), Some(Some(SeqItem::Row(_)))));
    assert!(matches!(cursor.next_element(), None));
    assert!(matches!(cursor.next_element(), None));
}

#[test]
fn null_list_slot_is_absent_and_no_sequence() {
    let lists = Series::new("l", [Some(Series::new("", [1i32])), None]);
    assert_eq!(lists.null_count(), 1);
    assert_eq!(
        at(&lists, 0).extract(&optional(sequence(Request::I32))),
        Ok(some(Value::Sequence(vec![Value::I32(1)])))
    );
    assert_eq!(at(&lists, 1).extract(&optional(sequence(Request::I32))), Ok(Value::Absent));
    assert_eq!(
        at(&lists, 1).extract(&sequence(Request::I32)),
        Err(PlRowSerdeErrorTypes::Null)
    );
    assert_eq!(at(&lists, 1).deserialize_bytes(), Err(PlRowSerdeErrorTypes::Null));
}

#[test]
fn list_of_lists_reads_as_nested_sequences() {
    let a = Series::new("", [Series::new("", [1u8, 2]), Series::new("", [3u8])]);
    let outer = Series::new("o", [a]);
    assert_eq!(
        at(&outer, 0).extract(&sequence(sequence(Request::U8))),
        Ok(Value::Sequence(vec![
            Value::Sequence(vec![Value::U8(1), Value::U8(2)]),
            Value::Sequence(vec![Value::U8(3)]),
        ]))
    );
    assert_eq!(
        at(&outer, 0).extract(&sequence(Request::Bytes)),
        Ok(Value::Sequence(vec![Value::Bytes(vec![1, 2]), Value::Bytes(vec![3])]))
    );
}

#[test]
fn fixed_size_array_reads_as_sequence() {
    let lists = Series::new("a", [Series::new("", [1i32, 2]), Series::new("", [3i32, 4])]);
    let arrays = lists
        .cast(&DataType::Array(Box::new(DataType::Int32), 2))
        .unwrap();
    assert_eq!(
        at(&arrays, 1).extract(&sequence(Request::I32)),
        Ok(Value::Sequence(vec![Value::I32(3), Value::I32(4)]))
    );
}

#[test]
fn binary_and_text_read_as_bytes_of_a_sequence() {
    let binary = Series::new("b", [Some(&b"hi"[..]), None]);
    assert_eq!(
        at(&binary, 0).extract(&sequence(Request::U8)),
        Ok(Value::Sequence(vec![Value::U8(b'h'), Value::U8(b'i')]))
    );
    assert_eq!(at(&binary, 1).extract(&sequence(Request::U8)), Ok(Value::Sequence(vec![])));
    assert_eq!(at(&binary, 0).deserialize_bytes(), Ok(b"hi".to_vec()));
    assert_eq!(at(&binary, 0).deserialize_byte_buf(), Ok(b"hi".to_vec()));
    assert_eq!(at(&binary, 1).deserialize_bytes(), Err(PlRowSerdeErrorTypes::Null));

    let offsets = BinaryOffsetChunked::full("o", &b"hi"[..], 2).into_series();
    assert_eq!(offsets.dtype(), &DataType::BinaryOffset);
    assert_eq!(at(&offsets, 1).deserialize_bytes(), Ok(b"hi".to_vec()));
    assert_eq!(
        at(&offsets, 0).deserialize_byte_buf(),
        Err(PlRowSerdeErrorTypes::TypeMisMatch)
    );
    assert_eq!(
        at(&offsets, 0).extract(&sequence(Request::U8)),
        Ok(Value::Sequence(vec![Value::U8(b'h'), Value::U8(b'i')]))
    );
    let no_offsets = BinaryOffsetChunked::full_null("o", 1).into_series();
    assert_eq!(at(&no_offsets, 0).deserialize_bytes(), Err(PlRowSerdeErrorTypes::Null));
    assert_eq!(at(&no_offsets, 0).extract(&sequence(Request::U8)), Ok(Value::Sequence(vec![])));

    let text = Series::new("t", [Some("é"), None]);
    assert_eq!(
        at(&text, 0).extract(&sequence(Request::U8)),
        Ok(Value::Sequence(vec![Value::U8(0xC3), Value::U8(0xA9)]))
    );
    assert_eq!(
        at(&text, 0).extract(&sequence(Request::Char)),
        Ok(Value::Sequence(vec![Value::Char(0xC3 as char), Value::Char(0xA9 as char)]))
    );
    assert_eq!(
        at(&text, 0).extract(&sequence(Request::Text)),
        Err(PlRowSerdeErrorTypes::TypeMisMatch)
    );
    assert_eq!(
        at(&text, 1).extract(&sequence(Request::U8)),
        Err(PlRowSerdeErrorTypes::Null)
    );
    assert_eq!(at(&text, 0).deserialize_bytes(), Err(PlRowSerdeErrorTypes::TypeMisMatch));

    let bytes_in_list = Series::new("l", [Series::new("", [104u8, 105])]);
    assert_eq!(at(&bytes_in_list, 0).deserialize_bytes(), Ok(b"hi".to_vec()));
    let wide_in_list = Series::new("l", [Series::new("", [104u16, 105])]);
    assert_eq!(
        at(&wide_in_list, 0).deserialize_bytes(),
        Err(PlRowSerdeErrorTypes::TypeMisMatch)
    );
    let null_in_list = Series::new("l", [Series::new("", [Some(104u8), None])]);
    assert_eq!(at(&null_in_list, 0).deserialize_bytes(), Err(PlRowSerdeErrorTypes::Null));
}

#[test]
fn null_column_reads_as_empty_sequence_and_scalar_column_as_mismatch() {
    let nulls = Series::new_null("n", 2);
    assert_eq!(at(&nulls, 1).extract(&sequence(Request::I8)), Ok(Value::Sequence(vec![])));
    assert_eq!(at(&nulls, 1).extract(&optional(Request::I8)), Ok(Value::Absent));
    assert_eq!(at(&nulls, 1).extract(&Request::I8), Err(PlRowSerdeErrorTypes::TypeMisMatch));
    let ints = Series::new("i", [1i32]);
    assert_eq!(
        at(&ints, 0).extract(&sequence(Request::I32)),
        Err(PlRowSerdeErrorTypes::TypeMisMatch)
    );
}

#[test]
fn character_comes_from_byte_column_or_one_byte_text() {
    let bytes = Series::new("c", [Some(b'a'), None]);
    assert_eq!(at(&bytes, 0).deserialize_char(), Ok('a'));
    assert_eq!(at(&bytes, 1).deserialize_char(), Err(PlRowSerdeErrorTypes::TypeMisMatch));
    let text = Series::new("t", [Some("c"), Some("cc"), Some(""), None]);
    assert_eq!(at(&text, 0).deserialize_char(), Ok('c'));
    assert_eq!(at(&text, 1).deserialize_char(), Err(PlRowSerdeErrorTypes::CharLength));
    assert_eq!(at(&text, 2).deserialize_char(), Err(PlRowSerdeErrorTypes::CharLength));
    assert_eq!(at(&text, 3).deserialize_char(), Err(PlRowSerdeErrorTypes::Null));
    assert_eq!(at(&text, 0).deserialize_str(), Ok("c".to_string()));
    assert_eq!(at(&text, 1).deserialize_string(), Ok("cc".to_string()));
    assert_eq!(at(&text, 3).deserialize_str(), Err(PlRowSerdeErrorTypes::Null));
    let ints = Series::new("i", [7i64]);
    assert_eq!(at(&ints, 0).deserialize_char(), Err(PlRowSerdeErrorTypes::TypeMisMatch));
    assert_eq!(at(&ints, 0).deserialize_str(), Err(PlRowSerdeErrorTypes::TypeMisMatch));
}

#[test]
fn optional_consults_the_slot_only_where_nulls_are_counted() {
    let full = Series::new("f", [1u32, 2]);
    assert!(at(&full, 0).deserialize_option());
    let holes = Series::new("h", [Some(1u32), None]);
    assert!(at(&holes, 0).deserialize_option());
    assert!(!at(&holes, 1).deserialize_option());
    assert_eq!(at(&holes, 1).extract(&optional(Request::U32)), Ok(Value::Absent));
    assert_eq!(at(&holes, 0).extract(&optional(Request::U32)), Ok(some(Value::U32(1))));
    assert_eq!(
        at(&holes, 0).extract(&optional(Request::U64)),
        Err(PlRowSerdeErrorTypes::TypeMisMatch)
    );
    assert_eq!(at(&holes, 1).deserialize_u32(), Err(PlRowSerdeErrorTypes::Null));
    assert_eq!(at(&holes, 0).deserialize_u64(), Err(PlRowSerdeErrorTypes::TypeMisMatch));
    assert_eq!(at(&holes, 0).deserialize_u16(), Err(PlRowSerdeErrorTypes::TypeMisMatch));
    assert_eq!(at(&holes, 0).deserialize_u8(), Err(PlRowSerdeErrorTypes::TypeMisMatch));
    assert_eq!(at(&holes, 0).deserialize_i64(), Err(PlRowSerdeErrorTypes::TypeMisMatch));
    assert_eq!(at(&holes, 0).deserialize_i8(), Err(PlRowSerdeErrorTypes::TypeMisMatch));
    assert_eq!(at(&holes, 0).deserialize_bool(), Err(PlRowSerdeErrorTypes::TypeMisMatch));
}

#[test]
fn categories_read_as_variants() {
    let df = serialize_into_dataframe(vec![
        record_of("kind", Value::Variant("Lol".to_string())),
        record_of("kind", Value::Absent),
        record_of("kind", Value::Variant("Wow".to_string())),
        record_of("kind", Value::Variant("Lol".to_string())),
    ])
    .unwrap();
    assert!(matches!(df["kind"].dtype(), DataType::Categorical(_, _)));
    let schema = vec![field("kind", Request::Enum)];
    assert_eq!(
        deserialize_single_row(df.clone(), 2, &schema),
        Ok(record_of("kind", Value::Variant("Wow".to_string())))
    );
    assert_eq!(
        deserialize_single_row(df.clone(), 3, &schema),
        Ok(record_of("kind", Value::Variant("Lol".to_string())))
    );
    assert_eq!(
        deserialize_single_row(df.clone(), 1, &schema),
        Err(PlRowSerdeErrorTypes::Null)
    );
    let kind = df["kind"].clone();
    assert_eq!(at(&kind, 0).deserialize_enum(), Ok("Lol".to_string()));
    assert_eq!(at(&kind, 0).deserialize_str(), Err(PlRowSerdeErrorTypes::TypeMisMatch));
    assert_eq!(
        at(&kind, 0).extract(&sequence(optional(Request::Enum))),
        Ok(Value::Sequence(vec![
            some(Value::Variant("Lol".to_string())),
            Value::Absent,
            some(Value::Variant("Wow".to_string())),
            some(Value::Variant("Lol".to_string())),
        ]))
    );
    assert_eq!(
        at(&kind, 0).extract(&sequence(optional(Request::Text))),
        Ok(Value::Sequence(vec![
            some(Value::Text("Lol".to_string())),
            Value::Absent,
            some(Value::Text("Wow".to_string())),
            some(Value::Text("Lol".to_string())),
        ]))
    );
    assert_eq!(
        at(&kind, 0).extract(&sequence(Request::Text)),
        Err(PlRowSerdeErrorTypes::Null)
    );
    assert_eq!(
        at(&kind, 0).extract(&sequence(Request::Ignored)),
        Ok(Value::Sequence(vec![Value::Unit, Value::Unit, Value::Unit, Value::Unit]))
    );
    assert_eq!(
        at(&kind, 0).extract(&sequence(optional(Request::I8))),
        Err(PlRowSerdeErrorTypes::TypeMisMatch)
    );
    let mut cursor = at(&kind, 0).deserialize_seq().unwrap();
    assert_eq!(cursor.size_hint(), Some(4));
    assert!(matches!(cursor.next_element(), Some(Some(SeqItem::Text(t))) if t == "Lol"));
    assert!(matches!(cursor.next_element(), Some(None)));
    assert_eq!(answer_text("x".to_string(), &Request::Enum), Ok(Value::Variant("x".to_string())));
    assert_eq!(answer_text("x".to_string(), &Request::U8), Err(PlRowSerdeErrorTypes::TypeMisMatch));
    assert_eq!(answer_byte(7, &optional(Request::U8)), Ok(some(Value::U8(7))));
    let ints = Series::new("i", [1i32]);
    assert_eq!(at(&ints, 0).deserialize_enum(), Err(PlRowSerdeErrorTypes::TypeMisMatch));
}

#[test]
fn first_category_on_a_fresh_column_is_taken() {
    let mut ser = SerdeItemAnyValueBuffer::new("k");
    assert_eq!(ser.serialize_unit_variant("Lol"), Ok(()));
    assert_eq!(ser.datatype(), PhysicalType::Categorical);
    assert_eq!(ser.serialize_i8(1), Err(PlRowSerdeErrorTypes::TypeMisMatch));
    let column = ser.finish();
    assert!(matches!(column.dtype(), DataType::Categorical(_, _)));
    assert_eq!(at(&column, 0).deserialize_enum(), Ok("Lol".to_string()));
}

#[test]
fn every_type_that_its_tag_fixes_can_be_settled() {
    let tags = [
        (PhysicalType::Boolean, DataType::Boolean),
        (PhysicalType::UInt8, DataType::UInt8),
        (PhysicalType::UInt16, DataType::UInt16),
        (PhysicalType::UInt32, DataType::UInt32),
        (PhysicalType::UInt64, DataType::UInt64),
        (PhysicalType::Int8, DataType::Int8),
        (PhysicalType::Int16, DataType::Int16),
        (PhysicalType::Int32, DataType::Int32),
        (PhysicalType::Int64, DataType::Int64),
        (PhysicalType::Float32, DataType::Float32),
        (PhysicalType::Float64, DataType::Float64),
        (PhysicalType::String, DataType::String),
        (PhysicalType::Binary, DataType::Binary),
        (PhysicalType::Date, DataType::Date),
        (PhysicalType::Time, DataType::Time),
    ];
    for (tag, dtype) in tags {
        assert!(SerdeItemAnyValueBuffer::can_write(tag));
        let mut ser = SerdeItemAnyValueBuffer::new("c");
        ser.serialize_none().unwrap();
        ser.serialize_none().unwrap();
        assert_eq!(ser.change_not_null_anyvalue_buffer(Some(tag)), Ok(()));
        assert_eq!(ser.datatype(), tag);
        assert_eq!(ser.len(), 2);
        ser.serialize_none().unwrap();
        let column = ser.finish();
        assert_eq!(column.dtype(), &dtype);
        assert_eq!(column.name(), "c");
        assert_eq!(column.len(), 3);
        assert_eq!(column.null_count(), 3);
        assert_eq!(series_kind(&column), tag);
    }
    let mut ser = SerdeItemAnyValueBuffer::new("c");
    ser.serialize_none().unwrap();
    assert_eq!(ser.change_not_null_anyvalue_buffer(Some(PhysicalType::Categorical)), Ok(()));
    assert_eq!(ser.serialize_unit_variant("a"), Ok(()));
    let column = ser.finish();
    assert!(matches!(column.dtype(), DataType::Categorical(_, _)));
    assert_eq!(series_kind(&column), PhysicalType::Categorical);
    assert_eq!(at(&column, 1).deserialize_enum(), Ok("a".to_string()));
    assert_eq!(at(&column, 0).deserialize_enum(), Err(PlRowSerdeErrorTypes::Null));
    for tag in [
        PhysicalType::List,
        PhysicalType::Array,
        PhysicalType::Struct,
        PhysicalType::Datetime,
        PhysicalType::Duration,
        PhysicalType::Decimal,
        PhysicalType::BinaryOffset,
        PhysicalType::Enum,
        PhysicalType::Object,
        PhysicalType::Unknown,
    ] {
        assert!(!SerdeItemAnyValueBuffer::can_write(tag));
        let mut ser = SerdeItemAnyValueBuffer::new("c");
        assert_eq!(
            ser.change_not_null_anyvalue_buffer(Some(tag)),
            Err(PlRowSerdeErrorTypes::TypeMisMatch)
        );
        assert_eq!(ser.datatype(), PhysicalType::Null);
    }
}

fn outer(id: i32, a: i8, b: i16) -> Value {
    Value::Record(vec![
        entry("id", Value::I32(id)),
        entry("inner", Value::Record(vec![entry("a", Value::I8(a)), entry("b", Value::I16(b))])),
    ])
}

#[test]
fn nested_record_is_written_as_a_struct_column_and_reads_back() {
    let df = serialize_into_dataframe(vec![outer(1, 2, 3), outer(4, 5, 6)]).unwrap();
    assert_eq!(df.height(), 2);
    assert!(matches!(df["inner"].dtype(), DataType::Struct(_)));
    let inner = df["inner"].struct_().unwrap();
    assert_eq!(inner.fields()[0], Series::new("a", [2i8, 5]));
    assert_eq!(inner.fields()[1], Series::new("b", [3i16, 6]));
    let schema = || {
        vec![
            field("id", Request::I32),
            field(
                "inner",
                Request::Struct(vec![field("a", Request::I8), field("b", Request::I16)]),
            ),
        ]
    };
    assert_eq!(deserialize_single_row(df.clone(), 0, &schema()), Ok(outer(1, 2, 3)));
    assert_eq!(deserialize_single_row(df.clone(), 1, &schema()), Ok(outer(4, 5, 6)));

    let flat = serialize_item_into_dataframe(Value::Record(vec![
        entry("id", Value::I32(1)),
        entry("a", Value::I8(2)),
        entry("b", Value::I16(3)),
    ]))
    .unwrap();
    let flat_schema =
        vec![field("id", Request::I32), field("a", Request::I8), field("b", Request::I16)];
    assert_eq!(
        deserialize_single_row(flat, 0, &flat_schema),
        Ok(Value::Record(vec![
            entry("id", Value::I32(1)),
            entry("a", Value::I8(2)),
            entry("b", Value::I16(3)),
        ]))
    );

    let deep = || {
        record_of("x", record_of("y", record_of("z", some(Value::Text("deep".to_string())))))
    };
    let df = serialize_item_into_dataframe(deep()).unwrap();
    let deep_schema = vec![field(
        "x",
        Request::Struct(vec![field(
            "y",
            Request::Struct(vec![field("z", optional(Request::Text))]),
        )]),
    )];
    assert_eq!(deserialize_single_row(df, 0, &deep_schema), Ok(deep()));
}

#[test]
fn a_struct_column_takes_records_that_give_each_field_once() {
    let mut ser = SerdeItemAnyValueBuffer::new("inner");
    let pair = |a: i8, b: i16| Value::Record(vec![entry("a", Value::I8(a)), entry("b", Value::I16(b))]);
    assert_eq!(ser.write(&pair(1, 2)), Ok(()));
    assert_eq!(ser.datatype(), PhysicalType::Struct);
    assert_eq!(ser.len(), 1);
    assert_eq!(
        ser.write(&record_of("a", Value::I8(3))),
        Err(PlRowSerdeErrorTypes::ShapeMismatch)
    );
    assert_eq!(
        ser.write(&Value::Record(vec![
            entry("a", Value::I8(3)),
            entry("b", Value::I16(4)),
            entry("c", Value::Bool(true)),
        ])),
        Err(PlRowSerdeErrorTypes::ShapeMismatch)
    );
    assert_eq!(
        ser.write(&Value::Record(vec![entry("a", Value::I16(3)), entry("b", Value::I16(4))])),
        Err(PlRowSerdeErrorTypes::TypeMisMatch)
    );
    assert_eq!(ser.write(&Value::Record(vec![])), Err(PlRowSerdeErrorTypes::TypeMisMatch));
    assert_eq!(ser.write(&Value::I8(1)), Err(PlRowSerdeErrorTypes::TypeMisMatch));
    assert_eq!(ser.len(), 1);
    assert_eq!(ser.write(&some(pair(5, 6))), Ok(()));
    let copy = ser.duplicate();
    assert_eq!(copy.len(), 2);
    let column = ser.finish();
    assert_eq!(column.len(), 2);
    assert_eq!(column.name(), "inner");
    let fields = column.struct_().unwrap().fields().to_vec();
    assert_eq!(fields, vec![Series::new("a", [1i8, 5]), Series::new("b", [2i16, 6])]);
    assert_eq!(copy.snapshot(), column);

    let mut flat = SerdeItemAnyValueBuffer::new("inner");
    flat.serialize_i8(1).unwrap();
    assert_eq!(flat.write(&pair(1, 2)), Err(PlRowSerdeErrorTypes::TypeMisMatch));
    assert_eq!(flat.len(), 1);
}

#[test]
fn a_null_on_a_struct_column_is_a_row_of_nulls() {
    let pair = |a: i8, b: i16| Value::Record(vec![entry("a", Value::I8(a)), entry("b", Value::I16(b))]);
    let mut ser = SerdeItemAnyValueBuffer::new("inner");
    assert_eq!(ser.write(&pair(1, 2)), Ok(()));
    assert_eq!(ser.serialize_none(), Ok(()));
    assert_eq!(ser.write(&Value::Absent), Ok(()));
    assert_eq!(ser.len(), 3);
    assert_eq!(ser.write(&pair(7, 8)), Ok(()));
    assert_eq!(ser.datatype(), PhysicalType::Struct);
    let column = ser.finish();
    assert_eq!(column.len(), 4);
    let fields = column.struct_().unwrap().fields().to_vec();
    assert_eq!(
        fields,
        vec![
            Series::new("a", [Some(1i8), None, None, Some(7)]),
            Series::new("b", [Some(2i16), None, None, Some(8)]),
        ]
    );
    let optional = || {
        vec![
            field("a", Request::Optional(Box::new(Request::I8))),
            field("b", Request::Optional(Box::new(Request::I16))),
        ]
    };
    assert_eq!(
        at(&column, 1).extract(&Request::Struct(optional())),
        Ok(Value::Record(vec![entry("a", Value::Absent), entry("b", Value::Absent)]))
    );
    assert_eq!(
        at(&column, 3).extract(&Request::Struct(optional())),
        Ok(Value::Record(vec![
            entry("a", some(Value::I8(7))),
            entry("b", some(Value::I16(8))),
        ]))
    );
}

#[test]
fn the_first_record_of_a_column_follows_the_nulls_it_had() {
    let pair = |a: i8, b: i16| Value::Record(vec![entry("a", Value::I8(a)), entry("b", Value::I16(b))]);
    let mut late = SerdeItemAnyValueBuffer::new("inner");
    late.serialize_none().unwrap();
    late.serialize_none().unwrap();
    assert_eq!(late.datatype(), PhysicalType::Null);
    assert_eq!(
        late.write(&Value::Record(vec![entry("a", Value::I8(1)), entry("a", Value::I8(2))])),
        Err(PlRowSerdeErrorTypes::ShapeMismatch)
    );
    assert_eq!(late.datatype(), PhysicalType::Null);
    assert_eq!(late.len(), 2);
    assert_eq!(late.write(&pair(1, 2)), Ok(()));
    assert_eq!(late.datatype(), PhysicalType::Struct);
    assert_eq!(late.len(), 3);
    let column = late.finish();
    assert_eq!(column.name(), "inner");
    assert_eq!(column.len(), 3);
    let fields = column.struct_().unwrap().fields().to_vec();
    assert_eq!(
        fields,
        vec![
            Series::new("a", [None, None, Some(1i8)]),
            Series::new("b", [None, None, Some(2i16)]),
        ]
    );

    let rows = vec![
        record_of("inner", Value::Absent),
        record_of("inner", pair(3, 4)),
        record_of("inner", Value::Absent),
    ];
    let table = serialize_into_dataframe(rows).unwrap();
    assert_eq!(table.height(), 3);
    let inner = table.column("inner").unwrap();
    let fields = inner.struct_().unwrap().fields().to_vec();
    assert_eq!(
        fields,
        vec![
            Series::new("a", [None, Some(3i8), None]),
            Series::new("b", [None, Some(4i16), None]),
        ]
    );
}

#[test]
fn a_column_that_is_too_short_for_the_row_is_a_mismatch_of_shape() {
    let mut st = StructChunked::new(
        "s",
        &[Series::new("a", [1i8, 2]), Series::new("b", [1i16, 2])],
    )
    .unwrap();
    st.fields_mut()[1] = Series::new("b", [1i16]);
    let broken = st.into_series();
    let schema = || vec![field("a", Request::I8), field("b", Request::I16)];
    assert_eq!(
        at(&broken, 0).extract(&Request::Struct(schema())),
        Ok(Value::Record(vec![entry("a", Value::I8(1)), entry("b", Value::I16(1))]))
    );
    assert_eq!(
        at(&broken, 1).extract(&Request::Struct(schema())),
        Err(PlRowSerdeErrorTypes::ShapeMismatch)
    );
    assert!(matches!(
        at(&broken, 1).deserialize_struct(),
        Err(PlRowSerdeErrorTypes::ShapeMismatch)
    ));
    let cursor = PlRowImplMapAccess::at_row(Rc::new(vec![Series::new("a", [1i8])]), 1);
    assert!(!cursor.rows_present());
    let cursor = PlRowImplMapAccess::at_row(Rc::new(vec![Series::new("a", [1i8])]), 0);
    assert!(cursor.rows_present());
}

#[test]
fn tag_and_layout_of_a_column() {
    let lists = Series::new("l", [Series::new("", [1i32])]);
    assert_eq!(series_kind(&lists), PhysicalType::List);
    assert_eq!(series_layout(&lists), Layout::List);
    let nulls = Series::new_null("n", 1);
    assert_eq!(series_kind(&nulls), PhysicalType::Null);
    assert_eq!(series_layout(&nulls), Layout::Null);
    let text = Series::new("t", ["a"]);
    assert_eq!(series_kind(&text), PhysicalType::String);
    assert_eq!(series_layout(&text), Layout::Text);
    let (inner, _) = nested_frame();
    assert_eq!(series_kind(&inner), PhysicalType::Struct);
    assert_eq!(layout(PhysicalType::Enum), Layout::Categorical);
    assert_eq!(layout(PhysicalType::Int8), Layout::Scalar);
    assert_eq!(layout(PhysicalType::Datetime), Layout::Scalar);
    let stamps = Series::new("d", [1i64]).cast(&DataType::Datetime(TimeUnit::Milliseconds, None)).unwrap();
    assert_eq!(series_kind(&stamps), PhysicalType::Datetime);
    let spans = Series::new("d", [1i64]).cast(&DataType::Duration(TimeUnit::Milliseconds)).unwrap();
    assert_eq!(series_kind(&spans), PhysicalType::Duration);
}

fn nested_frame() -> (Series, DataFrame) {
    let fields = [Series::new("a", [1i8, 2]), Series::new("b", [Some("x"), None])];
    let inner = StructChunked::new("inner", &fields).unwrap().into_series();
    let flat = DataFrame::new(fields.to_vec()).unwrap();
    (inner, flat)
}

#[test]
fn struct_column_reads_like_the_table_of_its_fields() {
    let (inner, flat) = nested_frame();
    let schema = || vec![field("a", Request::I8), field("b", optional(Request::Text))];
    for row in 0..2 {
        let nested = at(&inner, row).extract(&Request::Struct(schema()));
        let top = deserialize_single_row(flat.clone(), row, &schema());
        assert_eq!(nested, top);
    }
    assert_eq!(
        at(&inner, 1).extract(&Request::Struct(schema())),
        Ok(Value::Record(vec![entry("a", Value::I8(2)), entry("b", Value::Absent)]))
    );

    let outer = DataFrame::new(vec![Series::new("id", [10u64, 11]), inner.clone()]).unwrap();
    let outer_schema = vec![field("inner", Request::Struct(schema())), field("id", Request::U64)];
    assert_eq!(
        deserialize_single_row(outer, 0, &outer_schema),
        Ok(Value::Record(vec![
            entry("id", Value::U64(10)),
            entry(
                "inner",
                Value::Record(vec![entry("a", Value::I8(1)), entry("b", some(Value::Text("x".to_string())))])
            ),
        ]))
    );

    assert_eq!(
        at(&inner, 0).extract(&Request::Mapping(Box::new(Request::Ignored))),
        Ok(Value::Record(vec![entry("a", Value::Unit), entry("b", Value::Unit)]))
    );
    assert_eq!(
        at(&inner, 0).extract(&Request::Mapping(Box::new(Request::I8))),
        Err(PlRowSerdeErrorTypes::TypeMisMatch)
    );
    assert_eq!(
        at(&inner, 0).extract(&sequence(Request::Struct(vec![field("a", Request::I8)]))),
        Ok(Value::Sequence(vec![record_of("a", Value::I8(1)), record_of("a", Value::I8(2))]))
    );
    let ints = Series::new("i", [1i32]);
    assert_eq!(
        at(&ints, 0).extract(&Request::Struct(schema())),
        Err(PlRowSerdeErrorTypes::TypeMisMatch)
    );
    assert!(at(&ints, 0).deserialize_map().is_err());
}

#[test]
fn map_cursor_gives_key_then_value_column_after_column() {
    let (inner, flat) = nested_frame();
    let mut cursor = at(&inner, 1).deserialize_struct().unwrap();
    assert_eq!(cursor.len(), 2);
    assert_eq!(cursor.row_idx(), 1);
    assert!(cursor.has_next());
    assert_eq!(cursor.next_key(), Some("a".to_string()));
    assert_eq!(cursor.next_key(), Some("a".to_string()));
    assert_eq!(cursor.next_value().deserialize_i8(), Ok(2));
    assert_eq!(cursor.next_key(), Some("b".to_string()));
    assert_eq!(cursor.next_value().deserialize_str(), Err(PlRowSerdeErrorTypes::Null));
    assert_eq!(cursor.next_key(), None);
    assert!(!cursor.has_next());
    assert!(!cursor.has_key());

    let shared = Rc::new(flat.get_columns().to_vec());
    let mut first = PlRowImplMapAccess::from_series_vec(shared.clone());
    let mut second = PlRowImplMapAccess::at_row(shared.clone(), 1);
    assert_eq!(first.row_idx(), 0);
    assert!(!first.has_key());
    assert_eq!(first.next_key(), Some("a".to_string()));
    assert!(first.has_key());
    assert_eq!(first.next_value().deserialize_i8(), Ok(1));
    assert!(!first.has_key());
    assert_eq!(second.next_key(), Some("a".to_string()));
    assert_eq!(second.next_value().deserialize_i8(), Ok(2));
    assert_eq!(first.next_key(), Some("b".to_string()));
    assert_eq!(Rc::strong_count(&shared), 3);

    let root = SeriesDeser::new(flat.clone(), 0);
    let mut top = root.deserialize_struct().unwrap();
    assert_eq!(top.next_key(), Some("a".to_string()));
    assert_eq!(top.next_value().deserialize_i8(), Ok(1));
    let top = PlRowImplMapAccess::new(&flat, 1);
    assert_eq!(top.row_idx(), 1);
    assert!(top.has_next());
}

#[test]
fn columns_that_the_schema_does_not_name_are_passed_over() {
    let df = DataFrame::new(vec![
        Series::new("a", [1i8]),
        Series::new("b", [2i16]),
        Series::new("c", [3i32]),
    ])
    .unwrap();
    let schema = vec![field("c", Request::I32), field("a", Request::I8), field("a", Request::Text)];
    assert_eq!(find_field(&schema, &"a".to_string()), 1);
    assert_eq!(find_field(&schema, &"b".to_string()), 3);
    assert_eq!(
        deserialize_single_row(df.clone(), 0, &schema),
        Ok(Value::Record(vec![entry("a", Value::I8(1)), entry("c", Value::I32(3))]))
    );
    assert_eq!(
        deserialize_single_row(df.clone(), 0, &Vec::new()),
        Ok(Value::Record(vec![]))
    );
    let root = SeriesDeser::new(df, 0);
    assert_eq!(
        root.extract(&vec![field("b", Request::Identifier)]),
        Ok(record_of("b", Value::Unit))
    );
}

#[test]
fn one_failing_row_does_not_stop_the_others() {
    let df = DataFrame::new(vec![Series::new("x", [Some(1i8), None, Some(3)])]).unwrap();
    let schema = vec![field("x", Request::I8)];
    assert_eq!(
        deserialize_all(df, &schema),
        vec![
            Ok(record_of("x", Value::I8(1))),
            Err(PlRowSerdeErrorTypes::Null),
            Ok(record_of("x", Value::I8(3))),
        ]
    );
    let empty = DataFrame::new(Vec::<Series>::new()).unwrap();
    assert_eq!(deserialize_all(empty, &schema), vec![]);
}

#[test]
fn absent_element_answers_only_optional_requests() {
    let none = NoneDeserializer::<PlRowSerdeErrorTypes>::new();
    assert_eq!(none.deserialize_any(), Value::Absent);
    assert_eq!(none.deserialize_option(), Value::Absent);
    assert_eq!(none.answer(&optional(Request::I8)), Ok(Value::Absent));
    assert_eq!(none.answer(&Request::Ignored), Ok(Value::Unit));
    assert_eq!(none.answer(&Request::Identifier), Ok(Value::Unit));
    assert_eq!(none.answer(&Request::I8), Err(PlRowSerdeErrorTypes::Null));
    assert_eq!(none.answer(&sequence(Request::I8)), Err(PlRowSerdeErrorTypes::Null));
    let copy = none;
    assert_eq!(copy, none.clone());
}

#[test]
fn columns_of_different_length_do_not_make_a_table() {
    let records = vec![
        Value::Record(vec![entry("a", Value::I8(1)), entry("b", Value::I8(1))]),
        Value::Record(vec![entry("a", Value::I8(2))]),
    ];
    assert_eq!(
        serialize_into_dataframe(records).map(|df| df.height()),
        Err(PlRowSerdeErrorTypes::ShapeMismatch)
    );
    let twice = vec![Value::Record(vec![entry("a", Value::I8(1)), entry("a", Value::I8(2))])];
    let df = serialize_into_dataframe(twice).unwrap();
    assert_eq!(df["a"], Series::new("a", [1i8, 2]));
    let none = serialize_into_dataframe(Vec::new()).unwrap();
    assert_eq!(none.get_columns().len(), 0);
}

#[test]
fn what_is_no_record_or_no_single_value_is_refused() {
    assert_eq!(
        serialize_item_into_dataframe(Value::I8(1)).map(|df| df.height()),
        Err(PlRowSerdeErrorTypes::TypeMisMatch)
    );
    assert_eq!(
        serialize_item_into_dataframe(record_of("s", Value::Sequence(vec![]))).map(|df| df.height()),
        Err(PlRowSerdeErrorTypes::TypeMisMatch)
    );
    assert_eq!(
        serialize_item_into_dataframe(record_of("r", Value::Record(vec![]))).map(|df| df.height()),
        Err(PlRowSerdeErrorTypes::TypeMisMatch)
    );
    let records = vec![record_of("x", Value::I8(1)), record_of("x", Value::I16(1))];
    assert_eq!(
        serialize_into_dataframe(records).map(|df| df.height()),
        Err(PlRowSerdeErrorTypes::TypeMisMatch)
    );
}

#[test]
fn unit_and_unit_struct_are_written_as_true_and_as_the_name() {
    let df = serialize_item_into_dataframe(Value::Record(vec![
        entry("u", Value::Unit),
        entry("n", Value::UnitStruct("Marker".to_string())),
    ]))
    .unwrap();
    assert_eq!(df["u"], Series::new("u", [true]));
    assert_eq!(df["n"], Series::new("n", ["Marker"]));
    let mut ser = SerdeItemAnyValueBuffer::new("u");
    ser.serialize_unit().unwrap();
    ser.serialize_some(&Value::Bool(false)).unwrap();
    assert_eq!(ser.serialize_unit_struct("x"), Err(PlRowSerdeErrorTypes::TypeMisMatch));
    assert_eq!(ser.finish(), Series::new("u", [true, false]));
}

#[test]
fn field_can_be_written_from_a_column_of_one_row() {
    let mut plr = PlRowSerStruct::new();
    plr.serialize_field("w", &Value::Absent).unwrap();
    plr.serialize_field_series("w", &Series::new("w", [1.5f64])).unwrap();
    assert_eq!(
        plr.serialize_field_series("w", &Series::new("w", [1i64])),
        Err(PlRowSerdeErrorTypes::TypeMisMatch)
    );
    assert_eq!(
        plr.serialize_field_series("w", &Series::new("other", [1.5f64])),
        Err(PlRowSerdeErrorTypes::TypeMisMatch)
    );
    assert_eq!(
        plr.serialize_field_series("w", &Series::new("w", [1.5f64, 2.5])),
        Err(PlRowSerdeErrorTypes::TypeMisMatch)
    );
    assert_eq!(
        plr.serialize_field_series("w", &Series::new("w", [Series::new("", [1.5f64])])),
        Err(PlRowSerdeErrorTypes::TypeMisMatch)
    );
    plr.serialize_field("k", &Value::U8(1)).unwrap();
    plr.serialize_field("k", &Value::U8(2)).unwrap();
    let df = plr.into_dataframe().unwrap();
    assert_eq!(df["w"], Series::new("w", [None, Some(1.5f64)]));
    assert_eq!(df["k"], Series::new("k", [1u8, 2]));
    assert_eq!(df.get_column_names(), vec!["w", "k"]);
}

#[test]
fn errors_describe_themselves() {
    assert_eq!(PlRowSerdeErrorTypes::TypeMisMatch.describe(), "type mismatch");
    assert_eq!(PlRowSerdeErrorTypes::Null.describe(), "null value");
    assert_eq!(
        PlRowSerdeErrorTypes::CharLength.describe(),
        "text is not a single character"
    );
    assert_eq!(
        PlRowSerdeErrorTypes::ObjectNotSupported.describe(),
        "object columns are not supported"
    );
    assert_eq!(
        PlRowSerdeErrorTypes::UnknownNotSupported.describe(),
        "columns of unknown type are not supported"
    );
    assert_eq!(PlRowSerdeErrorTypes::ShapeMismatch.describe(), "columns differ in length");
    assert_eq!(
        PlRowSerdeErrorTypes::custom("storage said no".to_string()),
        PlRowSerdeErrorTypes::Custom("storage said no".to_string())
    );
    assert_eq!(
        PlRowSerdeErrorTypes::custom("storage said no".to_string()).describe(),
        "storage said no"
    );
}

#[test]
fn rows_are_checked_before_they_are_read() {
    let ints = Series::new("i", [1i32, 2]);
    assert!(at(&ints, 1).in_bounds());
    assert!(!at(&ints, 2).in_bounds());
    let df = DataFrame::new(vec![ints]).unwrap();
    assert_eq!(height(&df), 2);
    assert!(SeriesDeser::new(df.clone(), 1).in_bounds());
    assert!(!SeriesDeser::new(df, 2).in_bounds());
    let empty = DataFrame::new(Vec::<Series>::new()).unwrap();
    assert_eq!(height(&empty), 0);
    assert!(!SeriesDeser::new(empty, 0).in_bounds());
}

#[test]
fn map_accumulator_takes_key_then_value() {
    let mut map = PlRowSerMap::default();
    map.serialize_key("a");
    map.serialize_value(&Value::I8(1)).unwrap();
    map.serialize_key("b");
    map.serialize_value(&Value::Absent).unwrap();
    map.serialize_key("a");
    assert_eq!(
        map.serialize_value(&Value::Text("no".to_string())),
        Err(PlRowSerdeErrorTypes::TypeMisMatch)
    );
    map.serialize_key("b");
    map.serialize_value(&Value::Bool(true)).unwrap();
    map.serialize_key("a");
    map.serialize_value(&Value::I8(2)).unwrap();
    let df = map.end().into_dataframe().unwrap();
    assert_eq!(df["a"], Series::new("a", [1i8, 2]));
    assert_eq!(df["b"], Series::new("b", [None, Some(true)]));
    let mut plr = PlRowSerStruct::default();
    assert_eq!(plr.reserve("z"), 0);
    assert_eq!(plr.reserve("y"), 1);
    assert_eq!(plr.reserve("z"), 0);
    assert_eq!(plr.into_dataframe().unwrap().get_column_names(), vec!["z", "y"]);
}

#[test]
fn tuple_of_nothing_is_unit() {
    let ints = Series::new("i", [1i32]);
    assert_eq!(at(&ints, 0).deserialize_tuple(0), Value::Unit);
    assert_eq!(at(&ints, 0).deserialize_identifier(), Value::Unit);
    assert_eq!(at(&ints, 0).deserialize_ignored_any(), Value::Unit);
    assert_eq!(at(&ints, 0).extract(&Request::Ignored), Ok(Value::Unit));
    assert_eq!(at(&ints, 0).duplicate().deserialize_i32(), Ok(1));
}

#[test]
fn a_nested_field_that_is_never_given_a_value_stays_a_column_of_nulls() {
    let row = |a: Value| record_of("inner", Value::Record(vec![entry("a", a), entry("b", Value::U8(9))]));
    let table = serialize_into_dataframe(vec![row(Value::Absent), row(Value::Absent)]).unwrap();
    assert_eq!(table.height(), 2);
    let inner = table.column("inner").unwrap();
    assert_eq!(series_kind(inner), PhysicalType::Struct);
    let fields = inner.struct_().unwrap().fields().to_vec();
    assert_eq!(fields.len(), 2);
    assert_eq!(fields[0].name(), "a");
    assert_eq!(series_kind(&fields[0]), PhysicalType::Null);
    assert_eq!(fields[0].len(), 2);
    assert_eq!(fields[1], Series::new("b", [9u8, 9]));
    let schema = vec![field(
        "inner",
        Request::Struct(vec![
            field("a", Request::Optional(Box::new(Request::I8))),
            field("b", Request::U8),
        ]),
    )];
    assert_eq!(
        deserialize_single_row(table, 1, &schema),
        Ok(record_of(
            "inner",
            Value::Record(vec![entry("a", Value::Absent), entry("b", Value::U8(9))])
        ))
    );
}
