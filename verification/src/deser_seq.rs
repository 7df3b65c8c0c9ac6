//! The cursor over the elements of a sequence, and the stand-in for an
//! element that is not there.

use crate::deser_model::{SeqItemView, answers, spec_absent};
use crate::deser_root::SeriesDeserItem;
use crate::pl_row_error::PlRowSerdeErrorTypes;
use crate::request::Request;
use crate::value::Value;
use core::marker::PhantomData;
use vstd::prelude::*;

verus! {

/// One element that a sequence cursor hands out.
pub enum SeqItem {
    /// A byte of a binary or text slot.
    Byte(u8),
    /// A decoded category of a categorical column.
    Text(String),
    /// A row of the nested column.
    Row(SeriesDeserItem),
}

impl SeqItem {
    /// The element as mathematics.
    pub open spec fn view(&self) -> SeqItemView {
        match self {
            SeqItem::Byte(b) => SeqItemView::Byte(*b),
            SeqItem::Text(t) => SeqItemView::Text(t@),
            SeqItem::Row(item) => SeqItemView::Row(item.column(), item.row_idx as int),
        }
    }

    /// A row element points at a row of its column.
    pub open spec fn wf(&self) -> bool {
        match self {
            SeqItem::Byte(_) => true,
            SeqItem::Text(_) => true,
            SeqItem::Row(item) => item.wf(),
        }
    }

    /// A second handle on the same element.
    pub fn duplicate(&self) -> (r: Self)
        ensures
            r@ == self@,
    {
        match self {
            SeqItem::Byte(b) => SeqItem::Byte(*b),
            SeqItem::Text(t) => SeqItem::Text(t.clone()),
            SeqItem::Row(item) => SeqItem::Row(item.duplicate()),
        }
    }
}

/// The element at `i` of `items` as mathematics; `None` is an absent
/// element.
pub open spec fn item_view_at(items: Seq<Option<SeqItem>>, i: int) -> Option<SeqItemView> {
    match items[i] {
        None => None,
        Some(item) => Some(item@),
    }
}

/// The elements `items` as mathematics.
pub open spec fn items_view(items: Seq<Option<SeqItem>>) -> Seq<Option<SeqItemView>> {
    Seq::new(items.len(), |i: int| item_view_at(items, i))
}

/// Every row element of `items` points at a row of its column.
pub open spec fn items_wf(items: Seq<Option<SeqItem>>) -> bool {
    forall|i: int| 0 <= i < items.len() ==> (#[trigger] items[i] matches Some(item) ==> item.wf())
}

/// A forward-only cursor over the elements of a sequence. An absent
/// element stands for a null, not for the end: the end is where the
/// elements run out. The declared length is a hint for the consumer and
/// bounds nothing.
pub struct ChunkedArrayDeserializer {
    chunked: Vec<Option<SeqItem>>,
    consumed: usize,
    len: usize,
}

impl ChunkedArrayDeserializer {
    /// All elements, those handed out already included.
    pub closed spec fn items(&self) -> Seq<Option<SeqItemView>> {
        items_view(self.chunked@)
    }

    /// How many elements were handed out.
    pub closed spec fn position(&self) -> int {
        self.consumed as int
    }

    /// The declared length.
    pub closed spec fn hint(&self) -> usize {
        self.len
    }

    /// The position is at most the number of elements, and every row
    /// element points at a row of its column.
    pub closed spec fn wf(&self) -> bool {
        &&& self.consumed <= self.chunked.len()
        &&& items_wf(self.chunked@)
    }

    /// A cursor before the first of `chunked`, with `len` as its
    /// declared length.
    pub fn new(chunked: Vec<Option<SeqItem>>, len: usize) -> (r: Self)
        requires
            items_wf(chunked@),
        ensures
            r.wf(),
            r.items() == items_view(chunked@),
            r.position() == 0,
            r.hint() == len,
    {
        ChunkedArrayDeserializer { chunked, consumed: 0, len }
    }

    /// The next element: `None` behind the last, `Some(None)` for an
    /// absent element, else the element itself. The cursor moves on by
    /// one unless it is behind the last.
    pub fn next_element(&mut self) -> (r: Option<Option<SeqItem>>)
        requires
            old(self).wf(),
        ensures
            final(self).wf(),
            final(self).items() == old(self).items(),
            final(self).hint() == old(self).hint(),
            old(self).position() >= old(self).items().len() ==> r is None && final(self).position()
                == old(self).position(),
            old(self).position() < old(self).items().len() ==> {
                &&& r is Some
                &&& final(self).position() == old(self).position() + 1
                &&& match r->0 {
                    None => old(self).items()[old(self).position()] is None,
                    Some(item) => item.wf() && old(self).items()[old(self).position()] == Some(
                        item@,
                    ),
                }
            },
    {
        if self.consumed >= self.chunked.len() {
            return None;
        }
        let idx = self.consumed;
        self.consumed = idx + 1;
        match &self.chunked[idx] {
            None => Some(None),
            Some(item) => Some(Some(item.duplicate())),
        }
    }

    /// The declared length.
    pub fn size_hint(&self) -> (r: Option<usize>)
        ensures
            r == Some(self.hint()),
    {
        Some(self.len)
    }
}

/// The stand-in for a sequence element that is not there.
#[derive(Debug, PartialEq, Eq, PartialOrd, Ord, Hash)]
pub struct NoneDeserializer<E> {
    marker: PhantomData<E>,
}

impl<E> Clone for NoneDeserializer<E> {
    fn clone(&self) -> (r: Self) {
        NoneDeserializer { marker: PhantomData }
    }
}

impl<E> Copy for NoneDeserializer<E> {

}

impl<E> NoneDeserializer<E> {
    /// The stand-in; there is but one.
    pub fn new() -> (r: Self) {
        NoneDeserializer { marker: PhantomData }
    }

    /// Asked for anything at all it answers that nothing is there.
    pub fn deserialize_any(&self) -> (r: Value)
        ensures
            r == Value::Absent,
    {
        Value::Absent
    }

    /// Asked for an optional value it answers that nothing is there.
    pub fn deserialize_option(&self) -> (r: Value)
        ensures
            r == Value::Absent,
    {
        Value::Absent
    }

    /// What an absent element answers to `request`: an optional value is
    /// absent, an identifier or an ignored value is passed over, and any
    /// other request finds a null.
    pub fn answer(&self, request: &Request) -> (r: Result<Value, PlRowSerdeErrorTypes>)
        ensures
            answers(r, spec_absent(*request)),
    {
        match request {
            Request::Optional(_) => Ok(self.deserialize_option()),
            Request::Identifier => Ok(Value::Unit),
            Request::Ignored => Ok(Value::Unit),
            _ => Err(PlRowSerdeErrorTypes::Null),
        }
    }
}

} // verus!
