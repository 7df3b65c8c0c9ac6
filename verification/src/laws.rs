//! What holds of reading and writing together.

use crate::column::{
    Cell, ColumnView, MAX_ROWS, PhysicalType, null_column, row_count, rows_in,
};
use crate::deser_model::{
    SeqItemView, row_items, spec_collect, spec_extract, spec_pull, spec_seq_items,
};
use crate::deser_series::spec_row;
use crate::pl_row_error::PlRowSerdeErrorTypes;
use crate::request::{FieldRequest, Request, field_position, first_named_from};
use crate::ser_model::{
    all_of_length, column_position, first_column_from, lemma_write_scalar, spec_accumulate,
    spec_build, spec_finish, spec_put, spec_put_fields, spec_put_record, spec_reserved,
    spec_with_column, spec_write, stored_as, stored_cell, stored_kind, with_cell,
};
use crate::value::{FieldView, ValueView};
use vstd::prelude::*;
use vstd::utf8::encode_utf8;

verus! {

/// The request that reads a scalar back as what it was written as;
/// `None` for a value that is no scalar.
pub open spec fn request_of(v: ValueView) -> Option<Request> {
    match v {
        ValueView::Bool(_) => Some(Request::Bool),
        ValueView::I8(_) => Some(Request::I8),
        ValueView::I16(_) => Some(Request::I16),
        ValueView::I32(_) => Some(Request::I32),
        ValueView::I64(_) => Some(Request::I64),
        ValueView::U8(_) => Some(Request::U8),
        ValueView::U16(_) => Some(Request::U16),
        ValueView::U32(_) => Some(Request::U32),
        ValueView::U64(_) => Some(Request::U64),
        ValueView::Char(_) => Some(Request::Char),
        ValueView::Text(_) => Some(Request::Text),
        ValueView::Bytes(_) => Some(Request::Bytes),
        _ => None,
    }
}

/// The physical type that a scalar request reads; `None` for a request
/// that is no scalar or reads more than one type.
pub open spec fn kind_of(req: Request) -> Option<PhysicalType> {
    match req {
        Request::Bool => Some(PhysicalType::Boolean),
        Request::I8 => Some(PhysicalType::Int8),
        Request::I16 => Some(PhysicalType::Int16),
        Request::I32 => Some(PhysicalType::Int32),
        Request::I64 => Some(PhysicalType::Int64),
        Request::U8 => Some(PhysicalType::UInt8),
        Request::U16 => Some(PhysicalType::UInt16),
        Request::U32 => Some(PhysicalType::UInt32),
        Request::U64 => Some(PhysicalType::UInt64),
        Request::Text => Some(PhysicalType::String),
        _ => None,
    }
}

/// The record of the one field `name` with the value `v`.
pub open spec fn single(name: Seq<char>, v: ValueView) -> ValueView {
    ValueView::Record(seq![FieldView { name, value: v }])
}

/// A character below 128 is its own single byte in UTF-8.
pub proof fn lemma_ascii_is_one_byte(c: char)
    requires
        (c as u32) < 128,
    ensures
        encode_utf8(seq![c]).len() == 1,
        encode_utf8(seq![c])[0] as char == c,
{
    let chars = seq![c];
    assert(chars.drop_first() =~= Seq::<char>::empty());
    assert(encode_utf8(chars.drop_first()) =~= Seq::<u8>::empty()) by {
        reveal_with_fuel(encode_utf8, 1);
    }
    let scalar = c as u32;
    assert(vstd::utf8::has_width_1_encoding(scalar));
    assert(vstd::utf8::leading_byte_width_1(scalar) == scalar as u8) by (bit_vector)
        requires
            scalar < 128,
    ;
    assert(encode_utf8(chars) =~= seq![scalar as u8]) by {
        reveal_with_fuel(encode_utf8, 2);
    }
}

/// Round trip: a table built from the one record `{name: v}`, where `v`
/// is a boolean, an integer, a text, a byte string or a character below
/// 128, has one row, and that row read with the request that belongs to
/// `v` is `{name: v}` again.
pub proof fn law_round_trip(name: Seq<char>, v: ValueView, schema: Vec<FieldRequest>)
    requires
        request_of(v) is Some,
        v matches ValueView::Char(c) ==> (c as u32) < 128,
        schema.len() == 1,
        schema[0].name@ == name,
        schema[0].request == request_of(v)->0,
    ensures
        spec_build(seq![single(name, v)]) is Ok,
        row_count(spec_build(seq![single(name, v)])->Ok_0) == 1,
        spec_row(spec_build(seq![single(name, v)])->Ok_0, 0, schema) == Ok::<
            ValueView,
            PlRowSerdeErrorTypes,
        >(single(name, v)),
{
    let fields = seq![FieldView { name, value: v }];
    let records = seq![single(name, v)];
    let none = Seq::<ColumnView>::empty();
    let (kind, cell) = stored_as(v)->0;
    let column = ColumnView { name, kind, cells: seq![cell], fields: Seq::empty() };
    let table = seq![column];

    assert(column_position(none, name) == 0);
    let base = none.push(null_column(name, PhysicalType::Null, 0));
    assert(base[0].cells.push(cell) =~= seq![cell]);
    assert(spec_write(base[0], v) == Ok::<ColumnView, PlRowSerdeErrorTypes>(column));
    assert(base.update(0, column) =~= table);
    assert(spec_put(none, name, v) == Ok::<Seq<ColumnView>, PlRowSerdeErrorTypes>(table));
    assert(spec_put_fields(none, fields, 1) == spec_put(none, name, v)) by {
        reveal_with_fuel(spec_put_fields, 2);
    }
    assert(spec_accumulate(records, 1) == spec_put_record(none, records[0])) by {
        reveal_with_fuel(spec_accumulate, 2);
    }
    assert(spec_build(records) == Ok::<Seq<ColumnView>, PlRowSerdeErrorTypes>(table));

    assert(field_position(schema@, name) == 0);
    if v is Char {
        lemma_ascii_is_one_byte(v->Char_0);
    }
    let answer = spec_extract(column, 0, schema[0].request);
    assert(answer == Ok::<ValueView, PlRowSerdeErrorTypes>(v));
    assert(spec_pull(table, 0, schema, 1) == Ok::<Seq<FieldView>, PlRowSerdeErrorTypes>(
        Seq::<FieldView>::empty().push(FieldView { name, value: v }),
    )) by {
        reveal_with_fuel(spec_pull, 2);
    }
    assert(Seq::<FieldView>::empty().push(FieldView { name, value: v }) =~= fields);
}

/// Null round trip, first half: a batch of `n` records that each give
/// the field `name` as absent builds one column of the null type with
/// `n` nulls.
pub proof fn law_all_absent_builds_nulls(name: Seq<char>, records: Seq<ValueView>)
    requires
        records.len() <= MAX_ROWS,
        forall|j: int| 0 <= j < records.len() ==> #[trigger] records[j] == single(
            name,
            ValueView::Absent,
        ),
    ensures
        records.len() == 0 ==> spec_build(records) == Ok::<Seq<ColumnView>, PlRowSerdeErrorTypes>(
            Seq::empty(),
        ),
        records.len() > 0 ==> spec_build(records) == Ok::<Seq<ColumnView>, PlRowSerdeErrorTypes>(
            seq![null_column(name, PhysicalType::Null, records.len())],
        ),
{
    lemma_absent_prefix(name, records, records.len() as int);
    if records.len() > 0 {
        let table = seq![null_column(name, PhysicalType::Null, records.len())];
        assert(spec_finish(table) == Ok::<Seq<ColumnView>, PlRowSerdeErrorTypes>(table));
    } else {
        let table = Seq::<ColumnView>::empty();
        assert(spec_finish(table) == Ok::<Seq<ColumnView>, PlRowSerdeErrorTypes>(table));
    }
}

/// The columns after the first `n` of a batch of records that each give
/// the field `name` as absent.
pub proof fn lemma_absent_prefix(name: Seq<char>, records: Seq<ValueView>, n: int)
    requires
        0 <= n <= records.len() <= MAX_ROWS,
        forall|j: int| 0 <= j < n ==> #[trigger] records[j] == single(name, ValueView::Absent),
    ensures
        n == 0 ==> spec_accumulate(records, n) == Ok::<Seq<ColumnView>, PlRowSerdeErrorTypes>(
            Seq::empty(),
        ),
        n > 0 ==> spec_accumulate(records, n) == Ok::<Seq<ColumnView>, PlRowSerdeErrorTypes>(
            seq![null_column(name, PhysicalType::Null, n as nat)],
        ),
    decreases n,
{
    if n > 0 {
        lemma_absent_prefix(name, records, n - 1);
        let fields = seq![FieldView { name, value: ValueView::Absent }];
        let before = spec_accumulate(records, n - 1)->Ok_0;
        let k = column_position(before, name);
        let base = if k < before.len() {
            before
        } else {
            before.push(null_column(name, PhysicalType::Null, 0))
        };
        assert(k == 0);
        assert(base =~= seq![null_column(name, PhysicalType::Null, (n - 1) as nat)]);
        let after = null_column(name, PhysicalType::Null, n as nat);
        assert(with_cell(base[0], Cell::Null).cells =~= after.cells);
        assert(spec_write(base[0], ValueView::Absent) == Ok::<ColumnView, PlRowSerdeErrorTypes>(
            after,
        ));
        assert(base.update(0, after) =~= seq![after]);
        assert(spec_put(before, name, ValueView::Absent) == Ok::<
            Seq<ColumnView>,
            PlRowSerdeErrorTypes,
        >(seq![after]));
        assert(spec_put_fields(before, fields, 1) == spec_put(before, name, ValueView::Absent))
            by {
            reveal_with_fuel(spec_put_fields, 2);
        }
        assert(records[n - 1] == single(name, ValueView::Absent));
    }
}

/// Null round trip in one: a batch that gives the field `name` as
/// absent `k` times and then as the value `v` builds one column of the
/// type of `v`, with `k` nulls in front of `v`.
pub proof fn law_nulls_then_value_builds_typed_column(
    name: Seq<char>,
    records: Seq<ValueView>,
    v: ValueView,
)
    requires
        1 <= records.len() <= MAX_ROWS,
        forall|j: int|
            0 <= j < records.len() - 1 ==> #[trigger] records[j] == single(
                name,
                ValueView::Absent,
            ),
        records[records.len() - 1] == single(name, v),
        stored_as(v) is Some,
        stored_kind(v) != PhysicalType::Null,
    ensures
        spec_build(records) == Ok::<Seq<ColumnView>, PlRowSerdeErrorTypes>(
            seq![
                ColumnView {
                    name,
                    kind: stored_kind(v),
                    cells: Seq::new((records.len() - 1) as nat, |i: int| Cell::Null).push(
                        stored_cell(v),
                    ),
                    fields: Seq::empty(),
                },
            ],
        ),
{
    let k = records.len() - 1;
    lemma_absent_prefix(name, records, k);
    let before = spec_accumulate(records, k)->Ok_0;
    let queued = null_column(name, PhysicalType::Null, k as nat);
    let column = ColumnView {
        name,
        kind: stored_kind(v),
        cells: Seq::new(k as nat, |i: int| Cell::Null).push(stored_cell(v)),
        fields: Seq::empty(),
    };
    lemma_write_scalar(queued, v);
    assert(spec_write(queued, v) == Ok::<ColumnView, PlRowSerdeErrorTypes>(column));
    let fields = seq![FieldView { name, value: v }];
    if k == 0 {
        lemma_put_first(name, v, column);
    } else {
        assert(before =~= seq![queued]);
        assert(column_position(before, name) == 0);
        assert(spec_with_column(before, name) == before);
        assert(before.update(0, column) =~= seq![column]);
    }
    assert(spec_put(before, name, v) == Ok::<Seq<ColumnView>, PlRowSerdeErrorTypes>(
        seq![column],
    ));
    assert(spec_put_fields(before, fields, 1) == spec_put(before, name, v)) by {
        reveal_with_fuel(spec_put_fields, 2);
    }
    assert(records[k] == ValueView::Record(fields));
    assert(spec_accumulate(records, k + 1) == spec_put_record(before, records[k]));
    let table = seq![column];
    assert(spec_finish(table) == Ok::<Seq<ColumnView>, PlRowSerdeErrorTypes>(table));
}

/// Null round trip, second half of the first: every row of a column of
/// nulls, whatever its type, read as an optional value is absent.
pub proof fn law_nulls_read_absent(name: Seq<char>, kind: PhysicalType, n: nat, row: int, req: Request)
    requires
        0 <= row < n,
    ensures
        spec_extract(null_column(name, kind, n), row, Request::Optional(Box::new(req))) == Ok::<
            ValueView,
            PlRowSerdeErrorTypes,
        >(ValueView::Absent),
{
}

/// Null round trip, second half: the first value that is written to a
/// column of `n` queued nulls gives the column the type of that value
/// and stands behind the nulls, which are all kept.
pub proof fn law_first_value_backfills(name: Seq<char>, n: nat, v: ValueView)
    requires
        n < MAX_ROWS,
        stored_as(v) is Some,
        stored_kind(v) != PhysicalType::Null,
    ensures
        spec_write(null_column(name, PhysicalType::Null, n), v) is Ok,
        ({
            let column = spec_write(null_column(name, PhysicalType::Null, n), v)->Ok_0;
            &&& column.name == name
            &&& column.kind == stored_kind(v)
            &&& column.cells.len() == n + 1
            &&& forall|i: int| 0 <= i < n ==> column.cells[i] == Cell::Null
            &&& column.cells[n as int] == stored_cell(v)
        }),
{
    lemma_write_scalar(null_column(name, PhysicalType::Null, n), v);
}

/// A value that is stored without a type of its own is stored as a
/// null.
pub proof fn lemma_only_null_has_null_type(v: ValueView)
    ensures
        stored_kind(v) == PhysicalType::Null ==> stored_cell(v) == Cell::Null,
    decreases v,
{
    if let ValueView::Present(inner) = v {
        lemma_only_null_has_null_type(*inner);
    }
}

/// The type of a column never changes once it is settled: a write to a
/// column of a type other than the null type either fails or leaves the
/// type as it was and adds one row, which for a value with a slot of
/// its own, in a column that has slots, is that value.
pub proof fn law_type_is_settled_once(c: ColumnView, v: ValueView)
    requires
        c.kind != PhysicalType::Null,
    ensures
        spec_write(c, v) matches Ok(after) ==> after.kind == c.kind && after.cells.len()
            == c.cells.len() + 1,
        stored_as(v) is Some && c.kind != PhysicalType::Struct ==> (spec_write(c, v) matches Ok(
            after,
        ) ==> after.cells == c.cells.push(stored_cell(v))),
        stored_as(v) matches Some((kind, _)) && kind != PhysicalType::Null && kind != c.kind
            ==> spec_write(c, v) is Err,
    decreases v,
{
    if let ValueView::Present(inner) = v {
        law_type_is_settled_once(c, *inner);
    }
    if stored_as(v) is Some {
        lemma_write_scalar(c, v);
        lemma_only_null_has_null_type(v);
    }
}

/// Nested idempotence: a struct column read as a record at `row` is the
/// table of its sub-columns read as a record at `row`.
pub proof fn law_struct_reads_as_table(c: ColumnView, row: int, schema: Vec<FieldRequest>)
    requires
        c.kind == PhysicalType::Struct,
    ensures
        spec_extract(c, row, Request::Struct(schema)) == spec_row(c.fields, row, schema),
{
}

/// Sequence boundary: a list slot that holds no element, read as a
/// sequence, is the empty sequence, and read as an optional sequence it
/// is present.
pub proof fn law_empty_list_is_empty_sequence(c: ColumnView, row: int, req: Request)
    requires
        c.kind == PhysicalType::List,
        c.cells[row] matches Cell::List(sub) && sub.cells.len() == 0,
    ensures
        spec_extract(c, row, Request::Sequence(Box::new(req))) == Ok::<
            ValueView,
            PlRowSerdeErrorTypes,
        >(ValueView::Sequence(Seq::empty())),
        spec_extract(c, row, Request::Optional(Box::new(Request::Sequence(Box::new(req)))))
            == Ok::<ValueView, PlRowSerdeErrorTypes>(
            ValueView::Present(Box::new(ValueView::Sequence(Seq::empty()))),
        ),
{
    let sub = c.cells[row]->List_0;
    assert(row_items(sub) =~= Seq::empty());
    assert(spec_seq_items(c, row) == Ok::<
        Seq<Option<SeqItemView>>,
        PlRowSerdeErrorTypes,
    >(Seq::empty()));
    assert(spec_collect(Seq::empty(), 0, req) == Ok::<Seq<ValueView>, PlRowSerdeErrorTypes>(
        Seq::empty(),
    ));
}

/// Type mismatch detection: a scalar request against a column of any
/// other physical type than its own is a mismatch, whatever the slot
/// holds.
pub proof fn law_other_type_is_mismatch(c: ColumnView, row: int, req: Request)
    requires
        kind_of(req) is Some,
        c.kind != kind_of(req)->0,
    ensures
        spec_extract(c, row, req) == Err::<ValueView, PlRowSerdeErrorTypes>(
            PlRowSerdeErrorTypes::TypeMisMatch,
        ),
{
}

/// The column that a first value `cell` of type `kind` makes under
/// `name`.
pub open spec fn first_column(name: Seq<char>, kind: PhysicalType, cell: Cell) -> ColumnView {
    ColumnView { name, kind, cells: seq![cell], fields: Seq::empty() }
}

/// The first field that is written to a table without columns makes its
/// column.
pub proof fn lemma_put_first(name: Seq<char>, v: ValueView, c: ColumnView)
    requires
        spec_write(null_column(name, PhysicalType::Null, 0), v) == Ok::<
            ColumnView,
            PlRowSerdeErrorTypes,
        >(c),
    ensures
        spec_put(Seq::empty(), name, v) == Ok::<Seq<ColumnView>, PlRowSerdeErrorTypes>(seq![c]),
{
    let none = Seq::<ColumnView>::empty();
    assert(column_position(none, name) == 0);
    let base = none.push(null_column(name, PhysicalType::Null, 0));
    assert(spec_with_column(none, name) == base);
    assert(base.update(0, c) =~= seq![c]);
}

/// A field of another name that is written to a table of one column
/// makes its column behind it.
pub proof fn lemma_put_second(first: ColumnView, name: Seq<char>, v: ValueView, c: ColumnView)
    requires
        first.name != name,
        spec_write(null_column(name, PhysicalType::Null, 0), v) == Ok::<
            ColumnView,
            PlRowSerdeErrorTypes,
        >(c),
    ensures
        spec_put(seq![first], name, v) == Ok::<Seq<ColumnView>, PlRowSerdeErrorTypes>(
            seq![first, c],
        ),
{
    let one = seq![first];
    assert(column_position(one, name) == 1) by {
        reveal_with_fuel(first_column_from, 3);
    }
    let base = one.push(null_column(name, PhysicalType::Null, 0));
    assert(spec_with_column(one, name) == base);
    assert(base.update(1, c) =~= seq![first, c]);
}

/// Two fields of different names that are written to a table without
/// columns make their two columns.
pub proof fn lemma_put_pair(f1: FieldView, f2: FieldView, c1: ColumnView, c2: ColumnView)
    requires
        f1.name != f2.name,
        c1.name == f1.name,
        spec_write(null_column(f1.name, PhysicalType::Null, 0), f1.value) == Ok::<
            ColumnView,
            PlRowSerdeErrorTypes,
        >(c1),
        spec_write(null_column(f2.name, PhysicalType::Null, 0), f2.value) == Ok::<
            ColumnView,
            PlRowSerdeErrorTypes,
        >(c2),
    ensures
        spec_put_fields(Seq::empty(), seq![f1, f2], 2) == Ok::<
            Seq<ColumnView>,
            PlRowSerdeErrorTypes,
        >(seq![c1, c2]),
{
    let fields = seq![f1, f2];
    let none = Seq::<ColumnView>::empty();
    lemma_put_first(f1.name, f1.value, c1);
    lemma_put_second(c1, f2.name, f2.value, c2);
    assert(spec_put_fields(none, fields, 0) == Ok::<Seq<ColumnView>, PlRowSerdeErrorTypes>(none));
    assert(spec_put_fields(none, fields, 1) == spec_put(none, f1.name, f1.value)) by {
        reveal_with_fuel(spec_put_fields, 2);
    }
    assert(spec_put_fields(none, fields, 2) == spec_put(seq![c1], f2.name, f2.value)) by {
        reveal_with_fuel(spec_put_fields, 3);
    }
}

/// Two fields of different names that are written as the first record
/// of a column that had `fill` nulls make their two sub-columns, each
/// started with those nulls.
pub proof fn lemma_put_pair_filled(
    f1: FieldView,
    f2: FieldView,
    fill: nat,
    c1: ColumnView,
    c2: ColumnView,
)
    requires
        f1.name != f2.name,
        c1.name == f1.name,
        spec_write(null_column(f1.name, PhysicalType::Null, fill), f1.value) == Ok::<
            ColumnView,
            PlRowSerdeErrorTypes,
        >(c1),
        spec_write(null_column(f2.name, PhysicalType::Null, fill), f2.value) == Ok::<
            ColumnView,
            PlRowSerdeErrorTypes,
        >(c2),
    ensures
        spec_put_fields(spec_reserved(Seq::empty(), seq![f1, f2], 2, fill), seq![f1, f2], 2)
            == Ok::<Seq<ColumnView>, PlRowSerdeErrorTypes>(seq![c1, c2]),
{
    let fields = seq![f1, f2];
    let none = Seq::<ColumnView>::empty();
    let n1 = null_column(f1.name, PhysicalType::Null, fill);
    let n2 = null_column(f2.name, PhysicalType::Null, fill);
    assert(column_position(none, f1.name) == 0);
    assert(spec_reserved(none, fields, 1, fill) =~= seq![n1]) by {
        reveal_with_fuel(spec_reserved, 2);
    }
    assert(column_position(seq![n1], f2.name) == 1) by {
        reveal_with_fuel(first_column_from, 3);
    }
    let base = seq![n1, n2];
    assert(spec_reserved(none, fields, 2, fill) =~= base) by {
        reveal_with_fuel(spec_reserved, 3);
        assert(seq![n1].push(n2) =~= base);
    }
    assert(column_position(base, f1.name) == 0);
    assert(spec_with_column(base, f1.name) == base);
    assert(base.update(0, c1) =~= seq![c1, n2]);
    assert(spec_put(base, f1.name, f1.value) == Ok::<Seq<ColumnView>, PlRowSerdeErrorTypes>(
        seq![c1, n2],
    ));
    let half = seq![c1, n2];
    assert(column_position(half, f2.name) == 1) by {
        reveal_with_fuel(first_column_from, 3);
    }
    assert(spec_with_column(half, f2.name) == half);
    assert(half.update(1, c2) =~= seq![c1, c2]);
    assert(spec_put(half, f2.name, f2.value) == Ok::<Seq<ColumnView>, PlRowSerdeErrorTypes>(
        seq![c1, c2],
    ));
    assert(spec_put_fields(base, fields, 0) == Ok::<Seq<ColumnView>, PlRowSerdeErrorTypes>(base));
    assert(spec_put_fields(base, fields, 1) == spec_put(base, f1.name, f1.value)) by {
        reveal_with_fuel(spec_put_fields, 2);
    }
    assert(spec_put_fields(base, fields, 2) == spec_put(half, f2.name, f2.value)) by {
        reveal_with_fuel(spec_put_fields, 3);
    }
}

/// A row of two columns that the schema names in their order reads as
/// the record of their two answers.
pub proof fn lemma_pull_pair(
    c1: ColumnView,
    c2: ColumnView,
    row: int,
    schema: Vec<FieldRequest>,
    v1: ValueView,
    v2: ValueView,
)
    requires
        c1.name != c2.name,
        schema.len() == 2,
        schema[0].name@ == c1.name,
        schema[1].name@ == c2.name,
        spec_extract(c1, row, schema[0].request) == Ok::<ValueView, PlRowSerdeErrorTypes>(v1),
        spec_extract(c2, row, schema[1].request) == Ok::<ValueView, PlRowSerdeErrorTypes>(v2),
    ensures
        spec_pull(seq![c1, c2], row, schema, 2) == Ok::<Seq<FieldView>, PlRowSerdeErrorTypes>(
            seq![FieldView { name: c1.name, value: v1 }, FieldView { name: c2.name, value: v2 }],
        ),
{
    let columns = seq![c1, c2];
    assert(field_position(schema@, c1.name) == 0);
    assert(field_position(schema@, c2.name) == 1) by {
        reveal_with_fuel(first_named_from, 3);
    }
    let e1 = FieldView { name: c1.name, value: v1 };
    let e2 = FieldView { name: c2.name, value: v2 };
    assert(spec_pull(columns, row, schema, 0) == Ok::<Seq<FieldView>, PlRowSerdeErrorTypes>(
        Seq::empty(),
    ));
    assert(spec_pull(columns, row, schema, 1) == Ok::<Seq<FieldView>, PlRowSerdeErrorTypes>(
        Seq::<FieldView>::empty().push(e1),
    )) by {
        reveal_with_fuel(spec_pull, 2);
    }
    assert(spec_pull(columns, row, schema, 2) == Ok::<Seq<FieldView>, PlRowSerdeErrorTypes>(
        Seq::<FieldView>::empty().push(e1).push(e2),
    )) by {
        reveal_with_fuel(spec_pull, 3);
    }
    assert(Seq::<FieldView>::empty().push(e1).push(e2) =~= seq![e1, e2]);
}

/// The column `name` of the type of `v` that holds `n` nulls and then
/// `v`.
pub open spec fn backfilled(name: Seq<char>, n: nat, v: ValueView) -> ColumnView {
    ColumnView {
        name,
        kind: stored_kind(v),
        cells: Seq::new(n, |i: int| Cell::Null).push(stored_cell(v)),
        fields: Seq::empty(),
    }
}

/// The first record that is written to a column of `n` queued nulls
/// makes it a struct column of `n + 1` rows, and each of its two
/// sub-columns holds `n` nulls and then the value of its field.
pub proof fn law_first_record_backfills(name: Seq<char>, n: nat, f1: FieldView, f2: FieldView)
    requires
        n < MAX_ROWS,
        f1.name != f2.name,
        stored_as(f1.value) is Some,
        stored_kind(f1.value) != PhysicalType::Null,
        stored_as(f2.value) is Some,
        stored_kind(f2.value) != PhysicalType::Null,
    ensures
        spec_write(null_column(name, PhysicalType::Null, n), ValueView::Record(seq![f1, f2]))
            == Ok::<ColumnView, PlRowSerdeErrorTypes>(
            ColumnView {
                name,
                kind: PhysicalType::Struct,
                cells: Seq::new(n + 1, |i: int| Cell::Row),
                fields: seq![
                    backfilled(f1.name, n, f1.value),
                    backfilled(f2.name, n, f2.value),
                ],
            },
        ),
{
    let c1 = backfilled(f1.name, n, f1.value);
    let c2 = backfilled(f2.name, n, f2.value);
    lemma_write_scalar(null_column(f1.name, PhysicalType::Null, n), f1.value);
    lemma_write_scalar(null_column(f2.name, PhysicalType::Null, n), f2.value);
    lemma_put_pair_filled(f1, f2, n, c1, c2);
    assert(all_of_length(seq![c1, c2], n + 1));
}

/// The record `{id, inner: {a, b}}` with a 32-bit `id`, an 8-bit `a`
/// and a 16-bit `b`, under the given names.
pub open spec fn nested_pair(
    id_name: Seq<char>,
    inner_name: Seq<char>,
    a_name: Seq<char>,
    b_name: Seq<char>,
    id: i32,
    a: i8,
    b: i16,
) -> ValueView {
    ValueView::Record(
        seq![
            FieldView { name: id_name, value: ValueView::I32(id) },
            FieldView {
                name: inner_name,
                value: ValueView::Record(
                    seq![
                        FieldView { name: a_name, value: ValueView::I8(a) },
                        FieldView { name: b_name, value: ValueView::I16(b) },
                    ],
                ),
            },
        ],
    )
}

/// Nested round trip: a table built from the one record
/// `{id, inner: {a, b}}` has one row, with `inner` as a struct column,
/// and that row read with the schema of the record is the record again.
pub proof fn law_nested_round_trip(
    id_name: Seq<char>,
    inner_name: Seq<char>,
    a_name: Seq<char>,
    b_name: Seq<char>,
    id: i32,
    a: i8,
    b: i16,
    schema: Vec<FieldRequest>,
    inner_schema: Vec<FieldRequest>,
)
    requires
        id_name != inner_name,
        a_name != b_name,
        schema.len() == 2,
        schema[0].name@ == id_name,
        schema[0].request == Request::I32,
        schema[1].name@ == inner_name,
        schema[1].request == Request::Struct(inner_schema),
        inner_schema.len() == 2,
        inner_schema[0].name@ == a_name,
        inner_schema[0].request == Request::I8,
        inner_schema[1].name@ == b_name,
        inner_schema[1].request == Request::I16,
    ensures
        spec_build(seq![nested_pair(id_name, inner_name, a_name, b_name, id, a, b)]) is Ok,
        row_count(
            spec_build(seq![nested_pair(id_name, inner_name, a_name, b_name, id, a, b)])->Ok_0,
        ) == 1,
        spec_row(
            spec_build(seq![nested_pair(id_name, inner_name, a_name, b_name, id, a, b)])->Ok_0,
            0,
            schema,
        ) == Ok::<ValueView, PlRowSerdeErrorTypes>(
            nested_pair(id_name, inner_name, a_name, b_name, id, a, b),
        ),
{
    let o = nested_pair(id_name, inner_name, a_name, b_name, id, a, b);
    let fa = FieldView { name: a_name, value: ValueView::I8(a) };
    let fb = FieldView { name: b_name, value: ValueView::I16(b) };
    let inner_fields = seq![fa, fb];
    let inner_value = ValueView::Record(inner_fields);
    let fid = FieldView { name: id_name, value: ValueView::I32(id) };
    let finner = FieldView { name: inner_name, value: inner_value };
    let outer_fields = seq![fid, finner];
    assert(o == ValueView::Record(outer_fields));

    let ca = first_column(a_name, PhysicalType::Int8, Cell::Int8(a));
    let cb = first_column(b_name, PhysicalType::Int16, Cell::Int16(b));
    let cid = first_column(id_name, PhysicalType::Int32, Cell::Int32(id));
    assert(null_column(a_name, PhysicalType::Null, 0).cells.push(Cell::Int8(a)) =~= seq![
        Cell::Int8(a),
    ]);
    assert(null_column(b_name, PhysicalType::Null, 0).cells.push(Cell::Int16(b)) =~= seq![
        Cell::Int16(b),
    ]);
    assert(null_column(id_name, PhysicalType::Null, 0).cells.push(Cell::Int32(id)) =~= seq![
        Cell::Int32(id),
    ]);
    assert(spec_write(null_column(a_name, PhysicalType::Null, 0), fa.value) == Ok::<
        ColumnView,
        PlRowSerdeErrorTypes,
    >(ca));
    assert(spec_write(null_column(b_name, PhysicalType::Null, 0), fb.value) == Ok::<
        ColumnView,
        PlRowSerdeErrorTypes,
    >(cb));
    assert(spec_write(null_column(id_name, PhysicalType::Null, 0), fid.value) == Ok::<
        ColumnView,
        PlRowSerdeErrorTypes,
    >(cid));
    lemma_put_pair_filled(fa, fb, 0, ca, cb);

    let subs = seq![ca, cb];
    let fresh = null_column(inner_name, PhysicalType::Null, 0);
    let cinner = ColumnView {
        name: inner_name,
        kind: PhysicalType::Struct,
        cells: seq![Cell::Row],
        fields: subs,
    };
    assert(Seq::new(1, |i: int| Cell::Row) =~= seq![Cell::Row]);
    assert(all_of_length(subs, 1));
    assert(spec_write(fresh, inner_value) == Ok::<ColumnView, PlRowSerdeErrorTypes>(cinner));
    lemma_put_pair(fid, finner, cid, cinner);

    let table = seq![cid, cinner];
    let records = seq![o];
    assert(spec_accumulate(records, 1) == spec_put_record(Seq::empty(), records[0])) by {
        reveal_with_fuel(spec_accumulate, 2);
    }
    assert(spec_build(records) == Ok::<Seq<ColumnView>, PlRowSerdeErrorTypes>(table));

    lemma_pull_pair(ca, cb, 0, inner_schema, ValueView::I8(a), ValueView::I16(b));
    assert(rows_in(subs, 0));
    assert(spec_extract(cinner, 0, schema[1].request) == Ok::<ValueView, PlRowSerdeErrorTypes>(
        inner_value,
    ));
    lemma_pull_pair(cid, cinner, 0, schema, ValueView::I32(id), inner_value);
    assert(rows_in(table, 0));
}

} // verus!
