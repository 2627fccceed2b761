//! What the remote service says of a table.

use vstd::prelude::*;
use crate::decode::{fits_required, reflects_required, required, Decode};
use crate::json::{document, lists, members, Json};

verus! {

/// The structure of a table: the names of its columns, and the whole
/// structure as it came.
#[derive(Debug, Clone, PartialEq)]
pub struct TableStructure {
    pub columns: Vec<String>,
    pub document: serde_json::Value,
}

impl Decode for TableStructure {
    open spec fn fits(doc: Json) -> bool {
        fits_required::<Vec<String>>(doc, "columns"@)
    }

    open spec fn reflects(&self, doc: Json) -> bool {
        &&& reflects_required(self.columns, doc, "columns"@)
        &&& document(self.document) == doc
    }

    fn decode(value: &serde_json::Value) -> (r: Option<Self>) {
        let columns = required::<Vec<String>>(value, "columns")?;
        Some(TableStructure { columns, document: value.clone() })
    }
}

/// The data of a table: its columns by name, each with its values.
#[derive(Debug, Clone, PartialEq)]
pub struct Table {
    pub columns: Vec<(String, Vec<serde_json::Value>)>,
}

/// Whether every member of an object is an array.
pub open spec fn all_arrays(object: Map<Seq<char>, Json>) -> bool {
    forall|key: Seq<char>| #[trigger] object.contains_key(key) ==> object[key] is Array
}

/// Whether the columns are the members of an object: each column is a
/// member and holds its items, no name comes twice, and no member is left
/// out.
pub open spec fn columns_of(
    columns: Seq<(String, Vec<serde_json::Value>)>,
    object: Map<Seq<char>, Json>,
) -> bool {
    &&& forall|i: int|
        0 <= i < columns.len() ==> object.contains_key((#[trigger] columns[i]).0@)
            && columns[i].1.reflects(object[columns[i].0@])
    &&& forall|i: int, j: int|
        0 <= i < j < columns.len() ==> (#[trigger] columns[i]).0@ != (#[trigger] columns[j]).0@
    &&& forall|key: Seq<char>| #[trigger]
        object.contains_key(key) ==> exists|i: int|
            0 <= i < columns.len() && (#[trigger] columns[i]).0@ == key
}

/// Reads the columns of a table from the members of an object.
fn read_columns(list: Vec<(String, serde_json::Value)>, Ghost(object): Ghost<Map<Seq<char>, Json>>) -> (r:
    Option<Vec<(String, Vec<serde_json::Value>)>>)
    requires
        lists(list@, object),
    ensures
        r is Some <==> all_arrays(object),
        r matches Some(columns) ==> columns_of(columns@, object),
{
    let mut out: Vec<(String, Vec<serde_json::Value>)> = Vec::new();
    let mut i: usize = 0;
    while i < list.len()
        invariant
            i <= list.len(),
            lists(list@, object),
            out@.len() == i,
            forall|k: int| 0 <= k < i ==> (#[trigger] out@[k]).0@ == list@[k].0@,
            forall|k: int|
                0 <= k < i ==> (#[trigger] out@[k]).1.reflects(document(list@[k].1)),
        decreases list.len() - i,
    {
        match Vec::<serde_json::Value>::decode(&list[i].1) {
            Some(values) => {
                out.push((list[i].0.clone(), values));
            },
            None => {
                return None;
            },
        }
        i += 1;
    }
    proof {
        assert forall|key: Seq<char>| #[trigger] object.contains_key(key) implies object[key] is Array by {
            let k = choose|k: int| 0 <= k < list@.len() && (#[trigger] list@[k]).0@ == key;
            assert(out@[k].1.reflects(document(list@[k].1)));
        }
        assert forall|key: Seq<char>| #[trigger] object.contains_key(key) implies exists|k: int|
            0 <= k < out@.len() && (#[trigger] out@[k]).0@ == key by {
            let k = choose|k: int| 0 <= k < list@.len() && (#[trigger] list@[k]).0@ == key;
            assert(out@[k].0@ == key);
        }
    }
    Some(out)
}

impl Decode for Table {
    open spec fn fits(doc: Json) -> bool {
        doc matches Json::Object(object) && all_arrays(object)
    }

    open spec fn reflects(&self, doc: Json) -> bool {
        doc matches Json::Object(object) && columns_of(self.columns@, object)
    }

    fn decode(value: &serde_json::Value) -> (r: Option<Self>) {
        match members(value) {
            Some(list) => {
                let ghost object = document(*value)->Object_0;
                match read_columns(list, Ghost(object)) {
                    Some(columns) => Some(Table { columns }),
                    None => None,
                }
            },
            None => None,
        }
    }
}

} // verus!
