//! Reading typed values out of JSON documents.
//!
//! A type that can be read from a document says which documents have its
//! shape (`fits`) and when a value holds what a document says (`reflects`).
//! Reading succeeds exactly on the documents that fit, and what it returns
//! reflects the document.

use vstd::prelude::*;
use crate::json::{document, documents, member, Json};

verus! {

pub trait Decode: Sized {
    /// Whether a document has the shape of this type.
    spec fn fits(doc: Json) -> bool;

    /// Whether this value holds what the document says.
    spec fn reflects(&self, doc: Json) -> bool;

    fn decode(value: &serde_json::Value) -> (r: Option<Self>)
        ensures
            r is Some <==> Self::fits(document(*value)),
            r matches Some(read) ==> read.reflects(document(*value)),
    ;
}

/// A member that has to be there: the object has it and it fits.
pub open spec fn fits_required<T: Decode>(doc: Json, key: Seq<char>) -> bool {
    doc.member(key) matches Some(found) && T::fits(found)
}

/// A member that may be absent or `null`: if it is neither, it fits.
pub open spec fn fits_optional<T: Decode>(doc: Json, key: Seq<char>) -> bool {
    match doc.member(key) {
        None => true,
        Some(Json::Null) => true,
        Some(found) => T::fits(found),
    }
}

/// The value read for a member that has to be there.
pub open spec fn reflects_required<T: Decode>(read: T, doc: Json, key: Seq<char>) -> bool {
    doc.member(key) matches Some(found) && read.reflects(found)
}

/// The value read for a member that may be absent or `null`.
pub open spec fn reflects_optional<T: Decode>(read: Option<T>, doc: Json, key: Seq<char>) -> bool {
    match doc.member(key) {
        None => read is None,
        Some(Json::Null) => read is None,
        Some(found) => read matches Some(inner) && inner.reflects(found),
    }
}

/// Reads a member that has to be there.
pub fn required<T: Decode>(value: &serde_json::Value, key: &str) -> (r: Option<T>)
    ensures
        r is Some <==> fits_required::<T>(document(*value), key@),
        r matches Some(read) ==> reflects_required(read, document(*value), key@),
{
    match member(value, key) {
        Some(found) => T::decode(found),
        None => None,
    }
}

/// Reads a member that may be absent or `null`. The outer `None` says that
/// the member is there and does not fit.
pub fn optional<T: Decode>(value: &serde_json::Value, key: &str) -> (r: Option<Option<T>>)
    ensures
        r is Some <==> fits_optional::<T>(document(*value), key@),
        r matches Some(read) ==> reflects_optional(read, document(*value), key@),
{
    match member(value, key) {
        None => Some(None),
        Some(found) => {
            if found.is_null() {
                Some(None)
            } else {
                match T::decode(found) {
                    Some(inner) => Some(Some(inner)),
                    None => None,
                }
            }
        },
    }
}

impl Decode for String {
    open spec fn fits(doc: Json) -> bool {
        doc is Text
    }

    open spec fn reflects(&self, doc: Json) -> bool {
        doc == Json::Text(self@)
    }

    fn decode(value: &serde_json::Value) -> (r: Option<Self>) {
        match value.as_str() {
            Some(text) => Some(text.to_owned()),
            None => None,
        }
    }
}

impl Decode for bool {
    open spec fn fits(doc: Json) -> bool {
        doc is Bool
    }

    open spec fn reflects(&self, doc: Json) -> bool {
        doc == Json::Bool(*self)
    }

    fn decode(value: &serde_json::Value) -> (r: Option<Self>) {
        value.as_bool()
    }
}

impl Decode for i64 {
    open spec fn fits(doc: Json) -> bool {
        doc.signed() is Some
    }

    open spec fn reflects(&self, doc: Json) -> bool {
        doc.signed() == Some(*self)
    }

    fn decode(value: &serde_json::Value) -> (r: Option<Self>) {
        value.as_i64()
    }
}

impl Decode for u64 {
    open spec fn fits(doc: Json) -> bool {
        doc.unsigned() is Some
    }

    open spec fn reflects(&self, doc: Json) -> bool {
        doc.unsigned() == Some(*self)
    }

    fn decode(value: &serde_json::Value) -> (r: Option<Self>) {
        value.as_u64()
    }
}

impl Decode for u8 {
    open spec fn fits(doc: Json) -> bool {
        doc.unsigned() matches Some(n) && n <= u8::MAX
    }

    open spec fn reflects(&self, doc: Json) -> bool {
        doc.unsigned() == Some(*self as u64)
    }

    fn decode(value: &serde_json::Value) -> (r: Option<Self>) {
        match value.as_u64() {
            Some(n) => if n <= 255 {
                Some(n as u8)
            } else {
                None
            },
            None => None,
        }
    }
}

/// Any document is kept as it is.
impl Decode for serde_json::Value {
    open spec fn fits(doc: Json) -> bool {
        true
    }

    open spec fn reflects(&self, doc: Json) -> bool {
        document(*self) == doc
    }

    fn decode(value: &serde_json::Value) -> (r: Option<Self>) {
        Some(value.clone())
    }
}

/// Reads the items of an array one by one, and gives up at the first that
/// does not fit.
pub fn decode_items<T: Decode>(values: &Vec<serde_json::Value>) -> (r: Option<Vec<T>>)
    ensures
        r is Some <==> forall|i: int|
            0 <= i < values@.len() ==> T::fits(#[trigger] documents(values@)[i]),
        r matches Some(read) ==> read@.len() == values@.len() && forall|i: int|
            0 <= i < values@.len() ==> (#[trigger] read@[i]).reflects(documents(values@)[i]),
{
    let ghost items = documents(values@);
    let mut out: Vec<T> = Vec::new();
    let mut i: usize = 0;
    while i < values.len()
        invariant
            i <= values.len(),
            items == documents(values@),
            out@.len() == i,
            forall|k: int| 0 <= k < i ==> T::fits(#[trigger] items[k]),
            forall|k: int| 0 <= k < i ==> (#[trigger] out@[k]).reflects(items[k]),
        decreases values.len() - i,
    {
        assert(items[i as int] == document(values@[i as int]));
        match T::decode(&values[i]) {
            Some(read) => {
                out.push(read);
            },
            None => {
                return None;
            },
        }
        i += 1;
    }
    Some(out)
}

/// An array whose items all fit is read item by item.
impl<T: Decode> Decode for Vec<T> {
    open spec fn fits(doc: Json) -> bool {
        match doc {
            Json::Array(items) => forall|i: int| 0 <= i < items.len() ==> T::fits(#[trigger] items[i]),
            _ => false,
        }
    }

    open spec fn reflects(&self, doc: Json) -> bool {
        match doc {
            Json::Array(items) => self@.len() == items.len() && forall|i: int|
                0 <= i < items.len() ==> (#[trigger] self@[i]).reflects(items[i]),
            _ => false,
        }
    }

    fn decode(value: &serde_json::Value) -> (r: Option<Self>) {
        match value.as_array() {
            None => None,
            Some(values) => decode_items(values),
        }
    }
}

impl<T: Decode> Decode for Box<T> {
    open spec fn fits(doc: Json) -> bool {
        T::fits(doc)
    }

    open spec fn reflects(&self, doc: Json) -> bool {
        (**self).reflects(doc)
    }

    fn decode(value: &serde_json::Value) -> (r: Option<Self>) {
        match T::decode(value) {
            Some(read) => Some(Box::new(read)),
            None => None,
        }
    }
}

} // verus!
