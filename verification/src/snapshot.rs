//! The document snapshot as this core sees it.

use vstd::prelude::*;

verus! {

/// The application's in-memory document snapshot, held in its serialized
/// form.
///
/// The document's semantic schema is out of this core's scope: the snapshot
/// is an opaque value that only has to round-trip through the serialization
/// method declared in the container header. The caller that owns the real
/// in-memory document converts it to and from these serialized bytes.
#[derive(Clone, Debug, PartialEq, Eq)]
pub struct EngineSnapshot {
    /// The serialized form of the document.
    pub data: Vec<u8>,
}

impl EngineSnapshot {
    /// Wraps serialized snapshot bytes.
    pub fn new(data: Vec<u8>) -> (r: EngineSnapshot)
        ensures
            r.data@ == data@,
    {
        EngineSnapshot { data }
    }
}

} // verus!
