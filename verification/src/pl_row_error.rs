use vstd::prelude::*;

verus! {

/// Why a row could not be read from a table, or a record could not be
/// written into one.
#[derive(Debug, PartialEq, Eq)]
pub enum PlRowSerdeErrorTypes {
    /// The column's physical type cannot answer the request.
    TypeMisMatch,
    /// The slot is null where a value was required.
    Null,
    /// A text value of a byte length other than one was asked for as a
    /// single character.
    CharLength,
    /// Object columns have no mapping to a value.
    ObjectNotSupported,
    /// Columns of an undecided type have no mapping to a value.
    UnknownNotSupported,
    /// The columns of a finished table differ in length.
    ShapeMismatch,
    /// A message of the storage layer or of the caller.
    Custom(String),
}

impl PlRowSerdeErrorTypes {
    /// The text that `describe` gives for this error.
    pub open spec fn message(self) -> Seq<char> {
        match self {
            PlRowSerdeErrorTypes::TypeMisMatch => "type mismatch"@,
            PlRowSerdeErrorTypes::Null => "null value"@,
            PlRowSerdeErrorTypes::CharLength => "text is not a single character"@,
            PlRowSerdeErrorTypes::ObjectNotSupported => "object columns are not supported"@,
            PlRowSerdeErrorTypes::UnknownNotSupported => "columns of unknown type are not supported"@,
            PlRowSerdeErrorTypes::ShapeMismatch => "columns differ in length"@,
            PlRowSerdeErrorTypes::Custom(msg) => msg@,
        }
    }

    /// An error that carries the caller's own message.
    pub fn custom(msg: String) -> (r: Self)
        ensures
            r == PlRowSerdeErrorTypes::Custom(msg),
    {
        PlRowSerdeErrorTypes::Custom(msg)
    }

    /// The error as a line of text.
    pub fn describe(&self) -> (r: String)
        ensures
            r@ == self.message(),
    {
        match self {
            PlRowSerdeErrorTypes::TypeMisMatch => "type mismatch".to_owned(),
            PlRowSerdeErrorTypes::Null => "null value".to_owned(),
            PlRowSerdeErrorTypes::CharLength => "text is not a single character".to_owned(),
            PlRowSerdeErrorTypes::ObjectNotSupported => "object columns are not supported".to_owned(),
            PlRowSerdeErrorTypes::UnknownNotSupported => "columns of unknown type are not supported".to_owned(),
            PlRowSerdeErrorTypes::ShapeMismatch => "columns differ in length".to_owned(),
            PlRowSerdeErrorTypes::Custom(msg) => msg.clone(),
        }
    }
}

} // verus!
