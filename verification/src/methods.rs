//! The codec registry: the closed enumerations of compression and
//! serialization methods, and their byte-level transforms.

use vstd::prelude::*;
use crate::error::FileFormatError;
use crate::snapshot::EngineSnapshot;

verus! {

/// The closed enumeration of compression methods a container may declare.
#[derive(Clone, Copy, Debug, PartialEq, Eq, Structural)]
pub enum CompM {
    /// The body is stored as-is.
    Uncompressed,
    /// The body is one zstd frame.
    Zstd,
}

/// The closed enumeration of serialization methods a container may declare.
#[derive(Clone, Copy, Debug, PartialEq, Eq, Structural)]
pub enum SerM {
    /// The snapshot is serialized as one JSON document.
    Json,
}

/// The bytes that zstd compression produces for `b`.
pub uninterp spec fn zstd_deflate(b: Seq<u8>) -> Seq<u8>;

/// The content of the zstd frame `b`, or `None` when `b` is not a
/// well-formed frame.
pub uninterp spec fn zstd_inflate(b: Seq<u8>) -> Option<Seq<u8>>;

/// Whether `b` is one well-formed JSON document.
pub uninterp spec fn json_ok(b: Seq<u8>) -> bool;

/// Relies on `zstd::bulk::compress` at level 0 (the library's default level):
/// on success it returns one zstd frame holding exactly the input, which
/// `zstd::bulk::decompress` decodes back to that input. For the linked
/// library version and fixed level the produced frame is a function of the
/// input alone, which is what lets its bytes carry the name `zstd_deflate`.
#[verifier::external_body]
fn zstd_compress(data: &[u8]) -> (r: Result<Vec<u8>, ()>)
    ensures
        r is Ok ==> r->Ok_0@ == zstd_deflate(data@) && zstd_inflate(r->Ok_0@) == Some(data@),
{
    match zstd::bulk::compress(data, 0) {
        Ok(v) => Ok(v),
        Err(_) => Err(()),
    }
}

/// Relies on `zstd::bulk::decompress`: it decodes one zstd frame, allocating
/// at most `capacity` bytes of output, and errors exactly when the frame is
/// malformed or its content exceeds `capacity` — those are the only error
/// paths of its decompression context.
#[verifier::external_body]
fn zstd_decompress(data: &[u8], capacity: usize) -> (r: Result<Vec<u8>, ()>)
    ensures
        r is Ok <==> (zstd_inflate(data@) is Some && zstd_inflate(data@)->Some_0.len()
            <= capacity),
        r is Ok ==> r->Ok_0@ == zstd_inflate(data@)->Some_0,
{
    match zstd::bulk::decompress(data, capacity) {
        Ok(v) => Ok(v),
        Err(_) => Err(()),
    }
}

/// Relies on `serde_json::from_slice::<serde_json::Value>`: it accepts
/// exactly the byte sequences that form one well-formed JSON document, a
/// judgment that depends on the bytes alone, which is what lets it carry
/// the name `json_ok`.
#[verifier::external_body]
pub(crate) fn json_is_valid(data: &[u8]) -> (r: bool)
    ensures
        r == json_ok(data@),
{
    serde_json::from_slice::<serde_json::Value>(data).is_ok()
}

/// What decompressing `b` under method `m` yields when the output is capped
/// at `cap` bytes: `None` marks a malformed stream or a content that would
/// overrun the cap.
pub open spec fn spec_decompress(m: CompM, cap: nat, b: Seq<u8>) -> Option<Seq<u8>> {
    match m {
        CompM::Uncompressed => Some(b),
        CompM::Zstd => match zstd_inflate(b) {
            Some(s) => if s.len() <= cap {
                Some(s)
            } else {
                None
            },
            None => None,
        },
    }
}

impl CompM {
    /// Compresses `data` under this method.
    ///
    /// `Uncompressed` never fails. `Zstd` fails only on an internal failure
    /// of the compressor, surfaced as `EncodingError`; on success the result
    /// is the zstd frame of `data`, and decompressing it under any cap of at
    /// least `data.len()` gives `data` back.
    pub fn compress(&self, data: Vec<u8>) -> (r: Result<Vec<u8>, FileFormatError>)
        ensures
            *self is Uncompressed ==> r is Ok && r->Ok_0@ == data@,
            *self is Zstd && r is Ok ==> r->Ok_0@ == zstd_deflate(data@) && zstd_inflate(
                r->Ok_0@,
            ) == Some(data@),
            r is Err ==> r == Err::<Vec<u8>, FileFormatError>(FileFormatError::EncodingError)
                && *self is Zstd,
    {
        match self {
            CompM::Uncompressed => Ok(data),
            CompM::Zstd => match zstd_compress(data.as_slice()) {
                Ok(v) => Ok(v),
                Err(_) => Err(FileFormatError::EncodingError),
            },
        }
    }

    /// Decompresses `data` under this method, treating `uc_size` as a hard
    /// cap on the decompressed size.
    ///
    /// `Uncompressed` hands the bytes back unchanged. `Zstd` fails with
    /// `CorruptPayload` when the frame is malformed or its content exceeds
    /// the cap, so a lying header can never force an allocation beyond the
    /// size it declared. A content *smaller* than the declared size passes
    /// through: that disagreement is left for deserialization to catch,
    /// while an overrun is hardened into a hard failure.
    pub fn decompress(&self, uc_size: usize, data: Vec<u8>) -> (r: Result<
        Vec<u8>,
        FileFormatError,
    >)
        ensures
            (match spec_decompress(*self, uc_size as nat, data@) {
                Some(s) => r is Ok && r->Ok_0@ == s,
                None => r == Err::<Vec<u8>, FileFormatError>(FileFormatError::CorruptPayload),
            }),
    {
        match self {
            CompM::Uncompressed => Ok(data),
            CompM::Zstd => match zstd_decompress(data.as_slice(), uc_size) {
                Ok(v) => Ok(v),
                Err(_) => Err(FileFormatError::CorruptPayload),
            },
        }
    }
}

impl SerM {
    /// Serializes a snapshot into payload bytes.
    ///
    /// Succeeds exactly when the snapshot's bytes conform to this method's
    /// schema (one well-formed JSON document); otherwise `SchemaError`.
    pub fn serialize(&self, snapshot: &EngineSnapshot) -> (r: Result<Vec<u8>, FileFormatError>)
        ensures
            r is Ok <==> json_ok(snapshot.data@),
            r is Ok ==> r->Ok_0@ == snapshot.data@,
            r is Err ==> r == Err::<Vec<u8>, FileFormatError>(FileFormatError::SchemaError),
    {
        match self {
            SerM::Json => {
                if json_is_valid(snapshot.data.as_slice()) {
                    Ok(vstd::slice::slice_to_vec(snapshot.data.as_slice()))
                } else {
                    Err(FileFormatError::SchemaError)
                }
            },
        }
    }

    /// Deserializes payload bytes into a snapshot.
    ///
    /// Succeeds exactly when the bytes conform to this method's schema (one
    /// well-formed JSON document); otherwise `SchemaError`.
    pub fn deserialize(&self, data: &[u8]) -> (r: Result<EngineSnapshot, FileFormatError>)
        ensures
            r is Ok <==> json_ok(data@),
            r is Ok ==> r->Ok_0.data@ == data@,
            r is Err ==> r == Err::<EngineSnapshot, FileFormatError>(FileFormatError::SchemaError),
    {
        match self {
            SerM::Json => {
                if json_is_valid(data) {
                    Ok(EngineSnapshot { data: vstd::slice::slice_to_vec(data) })
                } else {
                    Err(FileFormatError::SchemaError)
                }
            },
        }
    }
}

} // verus!
