use vstd::prelude::*;

verus! {

/// What the consumer of a row asks of one slot.
#[derive(Debug, PartialEq, Eq)]
pub enum Request {
    Bool,
    I8,
    I16,
    I32,
    I64,
    U8,
    U16,
    U32,
    U64,
    Char,
    Text,
    Bytes,
    /// A value that may be missing: the inner request is put where it is
    /// there.
    Optional(Box<Request>),
    /// A sequence whose elements each answer the inner request.
    Sequence(Box<Request>),
    /// A record of every sub-column, each answering the inner request.
    Mapping(Box<Request>),
    /// A record of the named sub-columns, each answering its own request.
    Struct(Vec<FieldRequest>),
    /// The variant tag of an enum.
    Enum,
    Identifier,
    Ignored,
}

/// The request for one named field of a record.
#[derive(Debug, PartialEq, Eq)]
pub struct FieldRequest {
    pub name: String,
    pub request: Request,
}

/// The index of the first of `fields`, from `from` on, that is named
/// `name`, or the number of fields where none is.
pub open spec fn first_named_from(fields: Seq<FieldRequest>, name: Seq<char>, from: int) -> int
    decreases fields.len() - from,
{
    if from < 0 || from >= fields.len() {
        fields.len() as int
    } else if fields[from].name@ == name {
        from
    } else {
        first_named_from(fields, name, from + 1)
    }
}

/// The index of the first of `fields` that is named `name`, or the
/// number of fields where none is.
pub open spec fn field_position(fields: Seq<FieldRequest>, name: Seq<char>) -> int {
    first_named_from(fields, name, 0)
}

/// The index of the first field of `schema` that is named `name`, or the
/// length of `schema` where none is.
pub fn find_field(schema: &Vec<FieldRequest>, name: &String) -> (k: usize)
    ensures
        k == field_position(schema@, name@),
        k <= schema.len(),
        k < schema.len() ==> schema[k as int].name@ == name@,
{
    let mut i: usize = 0;
    while i < schema.len()
        invariant
            i <= schema.len(),
            field_position(schema@, name@) == first_named_from(schema@, name@, i as int),
        decreases schema.len() - i,
    {
        if schema[i].name == *name {
            return i;
        }
        i += 1;
    }
    i
}

} // verus!
