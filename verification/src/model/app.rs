//! What the remote service says of itself.

use vstd::prelude::*;
use crate::decode::{fits_required, reflects_required, required, Decode};
use crate::json::{document, Json};

verus! {

/// The description that the remote service gives of itself: the version of
/// its interface, and the whole description as it came.
#[derive(Debug, Clone, PartialEq)]
pub struct AppMetadata {
    pub api_version: i64,
    pub document: serde_json::Value,
}

impl Decode for AppMetadata {
    open spec fn fits(doc: Json) -> bool {
        fits_required::<i64>(doc, "api_version"@)
    }

    open spec fn reflects(&self, doc: Json) -> bool {
        &&& reflects_required(self.api_version, doc, "api_version"@)
        &&& document(self.document) == doc
    }

    fn decode(value: &serde_json::Value) -> (r: Option<Self>) {
        let api_version = required::<i64>(value, "api_version")?;
        Some(AppMetadata { api_version, document: value.clone() })
    }
}

} // verus!
