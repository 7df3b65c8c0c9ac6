use polars::datatypes::StructChunked;
use polars::frame::DataFrame;
use polars::prelude::NamedFrom;
use polars::series::Series;
use polars_deser_row::deserialize_all;
use polars_deser_row::deserialize_single_row;
use polars_deser_row::request::{FieldRequest, Request};
use polars_deser_row::value::{Field, Value};

fn field(name: &str, request: Request) -> FieldRequest {
    FieldRequest { name: name.to_string(), request }
}

fn entry(name: &str, value: Value) -> Field {
    Field { name: name.to_string(), value }
}

fn primitive_schema() -> Vec<FieldRequest> {
    vec![
        field("bool", Request::Bool),
        field("int8", Request::I8),
        field("int16", Request::I16),
        field("int32", Request::I32),
        field("int64", Request::I64),
        field("uint8", Request::U8),
        field("uint16", Request::U16),
        field("uint32", Request::U32),
        field("uint64", Request::U64),
    ]
}

fn primitive_row(flag: bool, n: u8) -> Value {
    Value::Record(vec![
        entry("bool", Value::Bool(flag)),
        entry("int8", Value::I8(n as i8)),
        entry("int16", Value::I16(n as i16)),
        entry("int32", Value::I32(n as i32)),
        entry("int64", Value::I64(n as i64)),
        entry("uint8", Value::U8(n)),
        entry("uint16", Value::U16(n as u16)),
        entry("uint32", Value::U32(n as u32)),
        entry("uint64", Value::U64(n as u64)),
    ])
}

#[test]
fn deser_primitive_integers() {
    let df = DataFrame::new(vec![
        Series::new("bool", [false, true, false]),
        Series::new("int8", [1i8, 2, 3]),
        Series::new("int16", [1i16, 2, 3]),
        Series::new("int32", [1i32, 2, 3]),
        Series::new("int64", [1i64, 2, 3]),
        Series::new("uint8", [1u8, 2, 3]),
        Series::new("uint16", [1u16, 2, 3]),
        Series::new("uint32", [1u32, 2, 3]),
        Series::new("uint64", [1u64, 2, 3]),
    ])
    .unwrap();
    let schema = primitive_schema();

    let ty = deserialize_single_row(df.clone(), 0, &schema).unwrap();
    assert_eq!(ty, primitive_row(false, 1));
    let ty = deserialize_single_row(df.clone(), 1, &schema).unwrap();
    assert_eq!(ty, primitive_row(true, 2));
    let ty = deserialize_single_row(df.clone(), 2, &schema).unwrap();
    assert_eq!(ty, primitive_row(false, 3));

    let ty_stack = deserialize_all(df.clone(), &schema)
        .into_iter()
        .map(|i| i.unwrap())
        .collect::<Vec<_>>();
    assert_eq!(
        ty_stack,
        vec![primitive_row(false, 1), primitive_row(true, 2), primitive_row(false, 3)]
    );
}

fn seq_schema(elem: fn() -> Request) -> Vec<FieldRequest> {
    vec![
        field("veced", Request::Sequence(Box::new(elem()))),
        field("boxed", Request::Sequence(Box::new(elem()))),
    ]
}

fn seq_frame(first: Series, second: Series) -> DataFrame {
    let veced = Series::new("veced", [first, second]);
    let boxed = veced.clone().with_name("boxed");
    DataFrame::new(vec![veced, boxed]).unwrap()
}

fn seq_row(items: fn() -> Vec<Value>) -> Value {
    Value::Record(vec![
        entry("veced", Value::Sequence(items())),
        entry("boxed", Value::Sequence(items())),
    ])
}

#[test]
fn deser_seq() {
    // int
    let df = seq_frame(Series::new("", [1i8, 2, 3]), Series::new("", [1i8, 2, 3]));
    let want = || vec![Value::I8(1), Value::I8(2), Value::I8(3)];
    assert_eq!(deserialize_single_row(df.clone(), 0, &seq_schema(|| Request::I8)).unwrap(), seq_row(want));
    assert_eq!(deserialize_single_row(df.clone(), 1, &seq_schema(|| Request::I8)).unwrap(), seq_row(want));

    let df = seq_frame(Series::new("", [1i16, 2, 3]), Series::new("", [1i16, 2, 3]));
    let want = || vec![Value::I16(1), Value::I16(2), Value::I16(3)];
    assert_eq!(deserialize_single_row(df.clone(), 0, &seq_schema(|| Request::I16)).unwrap(), seq_row(want));
    assert_eq!(deserialize_single_row(df.clone(), 1, &seq_schema(|| Request::I16)).unwrap(), seq_row(want));

    let df = seq_frame(Series::new("", [1i32, 2, 3]), Series::new("", [1i32, 2, 3]));
    let want = || vec![Value::I32(1), Value::I32(2), Value::I32(3)];
    assert_eq!(deserialize_single_row(df.clone(), 0, &seq_schema(|| Request::I32)).unwrap(), seq_row(want));
    assert_eq!(deserialize_single_row(df.clone(), 1, &seq_schema(|| Request::I32)).unwrap(), seq_row(want));

    let df = seq_frame(Series::new("", [1i64, 2, 3]), Series::new("", [1i64, 2, 3]));
    let want = || vec![Value::I64(1), Value::I64(2), Value::I64(3)];
    assert_eq!(deserialize_single_row(df.clone(), 0, &seq_schema(|| Request::I64)).unwrap(), seq_row(want));
    assert_eq!(deserialize_single_row(df.clone(), 1, &seq_schema(|| Request::I64)).unwrap(), seq_row(want));

    // unsigned
    let df = seq_frame(Series::new("", [1u8, 2, 3]), Series::new("", [1u8, 2, 3]));
    let want = || vec![Value::U8(1), Value::U8(2), Value::U8(3)];
    assert_eq!(deserialize_single_row(df.clone(), 0, &seq_schema(|| Request::U8)).unwrap(), seq_row(want));
    assert_eq!(deserialize_single_row(df.clone(), 1, &seq_schema(|| Request::U8)).unwrap(), seq_row(want));

    let df = seq_frame(Series::new("", [1u16, 2, 3]), Series::new("", [1u16, 2, 3]));
    let want = || vec![Value::U16(1), Value::U16(2), Value::U16(3)];
    assert_eq!(deserialize_single_row(df.clone(), 0, &seq_schema(|| Request::U16)).unwrap(), seq_row(want));
    assert_eq!(deserialize_single_row(df.clone(), 1, &seq_schema(|| Request::U16)).unwrap(), seq_row(want));

    let df = seq_frame(Series::new("", [1u32, 2, 3]), Series::new("", [1u32, 2, 3]));
    let want = || vec![Value::U32(1), Value::U32(2), Value::U32(3)];
    assert_eq!(deserialize_single_row(df.clone(), 0, &seq_schema(|| Request::U32)).unwrap(), seq_row(want));
    assert_eq!(deserialize_single_row(df.clone(), 1, &seq_schema(|| Request::U32)).unwrap(), seq_row(want));

    let df = seq_frame(Series::new("", [1u64, 2, 3]), Series::new("", [1u64, 2, 3]));
    let want = || vec![Value::U64(1), Value::U64(2), Value::U64(3)];
    assert_eq!(deserialize_single_row(df.clone(), 0, &seq_schema(|| Request::U64)).unwrap(), seq_row(want));
    assert_eq!(deserialize_single_row(df.clone(), 1, &seq_schema(|| Request::U64)).unwrap(), seq_row(want));

    // zero length
    let none: [f64; 0] = [];
    let df = seq_frame(Series::new("", none), Series::new("", none));
    let want = || Vec::new();
    assert_eq!(deserialize_single_row(df.clone(), 0, &seq_schema(|| Request::I64)).unwrap(), seq_row(want));
    assert_eq!(deserialize_single_row(df.clone(), 1, &seq_schema(|| Request::I64)).unwrap(), seq_row(want));
}

#[test]
fn deser_nested_seq() {
    let s = StructChunked::new(
        "name",
        &[
            Series::new("int8", [1i8, 2, 3]),
            Series::new("int16", [1i16, 2, 3]),
        ],
    )
    .unwrap();
    println!("{}", s.len());
    println!("{:#?}", s.fields());

    let df = DataFrame::new(s.fields().to_vec()).unwrap();
    let schema = vec![field("int8", Request::I8), field("int16", Request::I16)];
    let ty = deserialize_all(df, &schema);
    println!("{:#?}", ty);
    assert_eq!(ty.len(), 3);
    assert_eq!(
        ty[1],
        Ok(Value::Record(vec![entry("int8", Value::I8(2)), entry("int16", Value::I16(2))]))
    );
}
