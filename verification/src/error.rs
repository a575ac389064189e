use vstd::prelude::*;

verus! {

/// The failures a load or save of the container format can surface.
///
/// Every failure is typed; none is retried internally and none yields a
/// partial document.
#[derive(Clone, Copy, Debug, PartialEq, Eq, Structural)]
pub enum FileFormatError {
    /// The buffer ended before a required field could be read.
    TruncatedInput,
    /// Neither the current magic number nor a known legacy signature matched.
    UnknownFormat,
    /// Decompression failed, the declared size cap was exceeded, or the
    /// header bytes did not decode structurally.
    CorruptPayload,
    /// The payload bytes do not form a well-formed serialized snapshot.
    SchemaError,
    /// A legacy-to-current conversion step failed.
    MigrationError,
    /// An internal invariant was violated while encoding.
    EncodingError,
}

impl FileFormatError {
    /// A short human-readable description of the failure.
    pub fn message(&self) -> (r: &'static str)
        ensures
            r@.len() > 0,
    {
        let s = match self {
            FileFormatError::TruncatedInput => "buffer shorter than a required field",
            FileFormatError::UnknownFormat => "no magic number or legacy signature matched",
            FileFormatError::CorruptPayload => "payload or header is structurally corrupt",
            FileFormatError::SchemaError => "bytes do not fit the snapshot schema",
            FileFormatError::MigrationError => "a legacy conversion step failed",
            FileFormatError::EncodingError => "an encoding invariant was violated",
        };
        proof {
            reveal_strlit("buffer shorter than a required field");
            reveal_strlit("no magic number or legacy signature matched");
            reveal_strlit("payload or header is structurally corrupt");
            reveal_strlit("bytes do not fit the snapshot schema");
            reveal_strlit("a legacy conversion step failed");
            reveal_strlit("an encoding invariant was violated");
        }
        s
    }
}

} // verus!
