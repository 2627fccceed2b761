//! What the remote service says of a container: a run, a stream, or any other
//! node that groups others.

use vstd::prelude::*;
use crate::decode::{fits_required, reflects_required, required, Decode};
use crate::json::{document, Json};

verus! {

/// The metadata of a container, kept as it came. That of a run holds the
/// document with which the run started.
#[derive(Debug, Clone, PartialEq)]
pub struct ContainerMetadata {
    pub document: serde_json::Value,
}

/// The structure of a container, kept as it came.
#[derive(Debug, Clone, PartialEq)]
pub struct ContainerStructure {
    pub document: serde_json::Value,
}

/// What this crate reads of a run's start document.
#[derive(Debug, Clone, Copy, PartialEq, Eq, Structural)]
pub struct StartDoc {
    pub scan_id: i64,
}

impl Decode for StartDoc {
    open spec fn fits(doc: Json) -> bool {
        fits_required::<i64>(doc, "scan_id"@)
    }

    open spec fn reflects(&self, doc: Json) -> bool {
        reflects_required(self.scan_id, doc, "scan_id"@)
    }

    fn decode(value: &serde_json::Value) -> (r: Option<Self>) {
        let scan_id = required::<i64>(value, "scan_id")?;
        Some(StartDoc { scan_id })
    }
}

impl ContainerMetadata {
    /// The member `start` of the metadata, where it has the shape of a start
    /// document.
    pub open spec fn start_doc_of(self) -> Option<Json> {
        if fits_required::<StartDoc>(document(self.document), "start"@) {
            document(self.document).member("start"@)
        } else {
            None
        }
    }

    /// The start document of a run: the member `start` of the metadata, where
    /// it has the shape of one.
    pub fn start_doc(&self) -> (r: Option<StartDoc>)
        ensures
            r is Some <==> fits_required::<StartDoc>(document(self.document), "start"@),
            r matches Some(start) ==> reflects_required(start, document(self.document), "start"@),
    {
        required::<StartDoc>(&self.document, "start")
    }
}

impl Decode for ContainerMetadata {
    open spec fn fits(doc: Json) -> bool {
        doc is Object
    }

    open spec fn reflects(&self, doc: Json) -> bool {
        document(self.document) == doc
    }

    fn decode(value: &serde_json::Value) -> (r: Option<Self>) {
        if value.is_object() {
            Some(ContainerMetadata { document: value.clone() })
        } else {
            None
        }
    }
}

impl Decode for ContainerStructure {
    open spec fn fits(doc: Json) -> bool {
        doc is Object
    }

    open spec fn reflects(&self, doc: Json) -> bool {
        document(self.document) == doc
    }

    fn decode(value: &serde_json::Value) -> (r: Option<Self>) {
        if value.is_object() {
            Some(ContainerStructure { document: value.clone() })
        } else {
            None
        }
    }
}

} // verus!
