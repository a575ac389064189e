//! The legacy format adapter.
//!
//! Before the current container existed, a document was written as one
//! gzip-compressed serialized snapshot, so a legacy file is recognized by
//! the two-byte gzip signature. The adapter fully decodes that layout on its
//! own and converts one-way into the current revision.

use vstd::prelude::*;
use crate::error::FileFormatError;
use crate::maj0min12::{RnoteFileMaj0Min12, RnoteHeaderMaj0Min12};
use crate::methods::{json_is_valid, json_ok, zstd_deflate, zstd_inflate, CompM, SerM};

verus! {

/// The two-byte signature that opens every gzip stream.
pub open spec fn spec_gzip_signature() -> Seq<u8> {
    seq![0x1fu8, 0x8bu8]
}

/// The gzip signature as a byte vector.
pub fn gzip_signature() -> (r: Vec<u8>)
    ensures
        r@ == spec_gzip_signature(),
{
    let mut v: Vec<u8> = Vec::new();
    v.push(0x1f);
    v.push(0x8b);
    proof {
        assert(v@ =~= spec_gzip_signature());
    }
    v
}

/// The content of the gzip stream `b`, or `None` when `b` is not a
/// well-formed gzip stream.
pub uninterp spec fn gunzip(b: Seq<u8>) -> Option<Seq<u8>>;

/// Relies on `flate2::read::GzDecoder`: reading it to the end inflates one
/// gzip member, erroring when the stream is truncated or malformed. The
/// decode is a function of the input bytes alone, which is what lets its
/// outcome carry the name `gunzip`.
#[verifier::external_body]
fn gzip_decompress(data: &[u8]) -> (r: Result<Vec<u8>, ()>)
    ensures
        r is Ok <==> gunzip(data@) is Some,
        r is Ok ==> r->Ok_0@ == gunzip(data@)->Some_0,
{
    let mut out: Vec<u8> = Vec::new();
    let mut dec = flate2::read::GzDecoder::new(data);
    match std::io::Read::read_to_end(&mut dec, &mut out) {
        Ok(_) => Ok(out),
        Err(_) => Err(()),
    }
}

/// A document in the legacy layout: the decoded serialized snapshot.
#[derive(Clone, Debug)]
pub struct LegacyRnoteFile {
    /// The serialized snapshot that the legacy file carried.
    pub engine_snapshot: Vec<u8>,
}

impl LegacyRnoteFile {
    /// Decodes a legacy byte buffer.
    ///
    /// Fails with `CorruptPayload` when the gzip stream is malformed, and
    /// with `SchemaError` when its content is not one well-formed JSON
    /// document.
    pub fn load_from_bytes(bytes: &[u8]) -> (r: Result<Self, FileFormatError>)
        ensures
            (match gunzip(bytes@) {
                Some(j) => {
                    &&& json_ok(j) ==> r is Ok && r->Ok_0.engine_snapshot@ == j
                    &&& !json_ok(j) ==> r == Err::<Self, FileFormatError>(
                        FileFormatError::SchemaError,
                    )
                },
                None => r == Err::<Self, FileFormatError>(FileFormatError::CorruptPayload),
            }),
    {
        match gzip_decompress(bytes) {
            Ok(j) => {
                if json_is_valid(j.as_slice()) {
                    Ok(LegacyRnoteFile { engine_snapshot: j })
                } else {
                    Err(FileFormatError::SchemaError)
                }
            },
            Err(_) => Err(FileFormatError::CorruptPayload),
        }
    }

    /// Converts this legacy document into the current revision, under the
    /// current default codecs.
    ///
    /// Fails only with `MigrationError`, when the compressor itself fails;
    /// on success the produced container declares zstd compression, JSON
    /// serialization, and the exact decompressed size of its body.
    pub fn upgrade(self) -> (r: Result<RnoteFileMaj0Min12, FileFormatError>)
        ensures
            r is Ok ==> r->Ok_0.head == (RnoteHeaderMaj0Min12 {
                compression: CompM::Zstd,
                serialization: SerM::Json,
                uc_size: self.engine_snapshot@.len() as u64,
            }),
            r is Ok ==> r->Ok_0.body@ == zstd_deflate(self.engine_snapshot@) && zstd_inflate(
                r->Ok_0.body@,
            ) == Some(self.engine_snapshot@),
            r is Err ==> r == Err::<RnoteFileMaj0Min12, FileFormatError>(
                FileFormatError::MigrationError,
            ),
    {
        let uc_size = self.engine_snapshot.len() as u64;
        match CompM::Zstd.compress(self.engine_snapshot) {
            Ok(body) => Ok(
                RnoteFileMaj0Min12 {
                    head: RnoteHeaderMaj0Min12 {
                        compression: CompM::Zstd,
                        serialization: SerM::Json,
                        uc_size,
                    },
                    body,
                },
            ),
            Err(_) => Err(FileFormatError::MigrationError),
        }
    }
}

} // verus!
