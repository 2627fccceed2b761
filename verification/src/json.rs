//! JSON documents as the decoders of this crate read them.
//!
//! Documents are held as `serde_json::Value`. Verus sees nothing inside such a
//! value, so this module gives its content a mathematical model, [`Json`], and
//! states for each accessor of `serde_json` what it returns in terms of that
//! model. Those statements are believed, not proved; everything built on them
//! in this crate is proved.

use vstd::prelude::*;

verus! {

/// A JSON number: an integer that was written without fraction or exponent
/// and fits in 64 bits, or anything else.
pub enum Number {
    Integer(int),
    Real,
}

/// The mathematical content of a JSON document.
pub enum Json {
    Null,
    Bool(bool),
    Number(Number),
    Text(Seq<char>),
    Array(Seq<Json>),
    Object(Map<Seq<char>, Json>),
}

impl Json {
    /// The member `key` of an object; `None` for a missing member and for
    /// anything that is not an object.
    pub open spec fn member(self, key: Seq<char>) -> Option<Json> {
        match self {
            Json::Object(members) => if members.contains_key(key) {
                Some(members[key])
            } else {
                None
            },
            _ => None,
        }
    }

    /// The text of a string document.
    pub open spec fn text(self) -> Option<Seq<char>> {
        match self {
            Json::Text(s) => Some(s),
            _ => None,
        }
    }

    /// The truth value of a boolean document.
    pub open spec fn truth(self) -> Option<bool> {
        match self {
            Json::Bool(b) => Some(b),
            _ => None,
        }
    }

    /// The value of an integer document that fits in an `i64`.
    pub open spec fn signed(self) -> Option<i64> {
        match self {
            Json::Number(Number::Integer(n)) => if i64::MIN <= n <= i64::MAX {
                Some(n as i64)
            } else {
                None
            },
            _ => None,
        }
    }

    /// The value of an integer document that fits in a `u64`.
    pub open spec fn unsigned(self) -> Option<u64> {
        match self {
            Json::Number(Number::Integer(n)) => if 0 <= n <= u64::MAX {
                Some(n as u64)
            } else {
                None
            },
            _ => None,
        }
    }

    /// The items of an array document.
    pub open spec fn items(self) -> Option<Seq<Json>> {
        match self {
            Json::Array(items) => Some(items),
            _ => None,
        }
    }
}

/// `serde_json::Value`: a JSON document, of which nothing is known but what
/// the items below say.
#[verifier::external_type_specification]
#[verifier::external_body]
pub struct ExValue(serde_json::Value);

/// `serde_json::Error`: why a text is no JSON document. It is carried, not
/// read.
#[verifier::external_type_specification]
#[verifier::external_body]
pub struct ExError(serde_json::Error);

/// The content of a `serde_json::Value`.
pub uninterp spec fn document(value: serde_json::Value) -> Json;

/// The document that `serde_json` reads from a text, `None` where it reports
/// an error.
pub uninterp spec fn parsed(text: Seq<char>) -> Option<Json>;

/// The documents of a sequence of values, item by item.
pub open spec fn documents(values: Seq<serde_json::Value>) -> Seq<Json> {
    values.map_values(|v: serde_json::Value| document(v))
}

/// `serde_json::from_str` at the type `Value`: the outcome depends on the
/// text alone, and a returned value holds the document read from it.
#[verifier::external_body]
pub(crate) fn parse(text: &str) -> (r: Result<serde_json::Value, serde_json::Error>)
    ensures
        match r {
            Ok(value) => parsed(text@) == Some(document(value)),
            Err(_) => parsed(text@) is None,
        },
{
    serde_json::from_str::<serde_json::Value>(text)
}

/// `Error::to_string`: what the error says of itself.
#[verifier::external_body]
pub(crate) fn error_text(error: &serde_json::Error) -> String {
    error.to_string()
}

/// `Value::get` with a string index: the named member of an object, and
/// `None` for a missing member or a value that is no object.
#[verifier::external_body]
pub(crate) fn member<'a>(value: &'a serde_json::Value, key: &str) -> (r: Option<
    &'a serde_json::Value,
>)
    ensures
        match r {
            Some(found) => document(*value).member(key@) == Some(document(*found)),
            None => document(*value).member(key@) is None,
        },
{
    value.get(key)
}

/// Whether a list holds the members of an object: each entry is a member
/// with its content, no name comes twice, and no member is left out.
pub open spec fn lists(list: Seq<(String, serde_json::Value)>, object: Map<Seq<char>, Json>) -> bool {
    &&& forall|i: int|
        0 <= i < list.len() ==> object.contains_key((#[trigger] list[i]).0@) && object[list[i].0@]
            == document(list[i].1)
    &&& forall|i: int, j: int|
        0 <= i < j < list.len() ==> (#[trigger] list[i]).0@ != (#[trigger] list[j]).0@
    &&& forall|key: Seq<char>| #[trigger]
        object.contains_key(key) ==> exists|i: int|
            0 <= i < list.len() && (#[trigger] list[i]).0@ == key
}

/// `Value::as_object` and the iterator of `Map`: the members of an object,
/// each once with its name, in an order that is left open; `None` for every
/// other value.
#[verifier::external_body]
pub(crate) fn members(value: &serde_json::Value) -> (r: Option<Vec<(String, serde_json::Value)>>)
    ensures
        match r {
            Some(list) => document(*value) matches Json::Object(object) && lists(list@, object),
            None => !(document(*value) is Object),
        },
{
    match value.as_object() {
        Some(object) => Some(object.clone().into_iter().collect()),
        None => None,
    }
}

/// `Value::as_str`: the text of a string, `None` for every other value.
pub assume_specification<'a>[ serde_json::Value::as_str ](value: &'a serde_json::Value) -> (r:
    Option<&'a str>)
    ensures
        match r {
            Some(s) => document(*value).text() == Some(s@),
            None => document(*value).text() is None,
        },
;

/// `Value::as_bool`: the truth value of a boolean, `None` for every other
/// value.
pub assume_specification[ serde_json::Value::as_bool ](value: &serde_json::Value) -> (r: Option<
    bool,
>)
    ensures
        r == document(*value).truth(),
;

/// `Value::as_i64`: an integer that fits in an `i64`, `None` for every
/// other value.
pub assume_specification[ serde_json::Value::as_i64 ](value: &serde_json::Value) -> (r: Option<
    i64,
>)
    ensures
        r == document(*value).signed(),
;

/// `Value::as_u64`: an integer that fits in a `u64`, `None` for every other
/// value.
pub assume_specification[ serde_json::Value::as_u64 ](value: &serde_json::Value) -> (r: Option<
    u64,
>)
    ensures
        r == document(*value).unsigned(),
;

/// `Value::as_array`: the items of an array, `None` for every other value.
pub assume_specification<'a>[ serde_json::Value::as_array ](value: &'a serde_json::Value) -> (r:
    Option<&'a Vec<serde_json::Value>>)
    ensures
        match r {
            Some(items) => document(*value).items() == Some(documents(items@)),
            None => document(*value).items() is None,
        },
;

/// `Value::is_null`: whether the value is `null`.
pub assume_specification[ serde_json::Value::is_null ](value: &serde_json::Value) -> (r: bool)
    ensures
        r == (document(*value) is Null),
;

/// `Value::is_object`: whether the value is an object.
pub assume_specification[ serde_json::Value::is_object ](value: &serde_json::Value) -> (r: bool)
    ensures
        r == (document(*value) is Object),
;

/// `Value::clone`: a value with the same content.
pub assume_specification[ <serde_json::Value as Clone>::clone ](
    value: &serde_json::Value,
) -> (r: serde_json::Value)
    ensures
        r == *value,
;

} // verus!
