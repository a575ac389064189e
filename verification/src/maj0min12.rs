//! The current container format revision.

use vstd::prelude::*;
use crate::methods::{CompM, SerM};

verus! {

/// The metadata record that opens a container: which codecs encoded the body,
/// and the exact byte length of the payload after decompression.
#[derive(Clone, Copy, Debug, PartialEq, Eq, Structural)]
pub struct RnoteHeaderMaj0Min12 {
    /// The compression method applied to the serialized snapshot.
    pub compression: CompM,
    /// The serialization method applied to the snapshot.
    pub serialization: SerM,
    /// The byte length of the body after decompression and before
    /// deserialization; a decompression cap, never trusted blindly.
    pub uc_size: u64,
}

/// One encoded document in the current format: a header and the compressed,
/// serialized body.
#[derive(Clone, Debug, PartialEq, Eq)]
pub struct RnoteFileMaj0Min12 {
    /// The metadata record.
    pub head: RnoteHeaderMaj0Min12,
    /// The compressed form of the serialized snapshot.
    pub body: Vec<u8>,
}

/// The three-byte semantic version (major, minor, patch) written after the
/// magic number; informational in this revision.
pub open spec fn spec_version() -> Seq<u8> {
    seq![0u8, 12u8, 0u8]
}

/// The format version as a byte vector.
pub fn version() -> (r: Vec<u8>)
    ensures
        r@ == spec_version(),
{
    let mut v: Vec<u8> = Vec::new();
    v.push(0);
    v.push(12);
    v.push(0);
    proof {
        assert(v@ =~= spec_version());
    }
    v
}

} // verus!
