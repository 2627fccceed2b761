//! What the remote service says of an array.

use vstd::prelude::*;
use crate::decode::Decode;
use crate::json::{document, Json};

verus! {

/// A JSON object kept as it came: free-form metadata and parameters, which
/// this crate hands on and does not read.
#[derive(Debug, Clone, PartialEq)]
pub struct Members {
    pub document: serde_json::Value,
}

/// The structure of an array, kept as it came.
#[derive(Debug, Clone, PartialEq)]
pub struct ArrayStructure {
    pub document: serde_json::Value,
}

impl Decode for Members {
    open spec fn fits(doc: Json) -> bool {
        doc is Object
    }

    open spec fn reflects(&self, doc: Json) -> bool {
        document(self.document) == doc
    }

    fn decode(value: &serde_json::Value) -> (r: Option<Self>) {
        if value.is_object() {
            Some(Members { document: value.clone() })
        } else {
            None
        }
    }
}

impl Decode for ArrayStructure {
    open spec fn fits(doc: Json) -> bool {
        doc is Object
    }

    open spec fn reflects(&self, doc: Json) -> bool {
        document(self.document) == doc
    }

    fn decode(value: &serde_json::Value) -> (r: Option<Self>) {
        if value.is_object() {
            Some(ArrayStructure { document: value.clone() })
        } else {
            None
        }
    }
}

} // verus!
