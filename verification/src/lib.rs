//! Loading and saving a versioned, self-describing binary container format.
//!
//! A document snapshot is persisted as: a fixed magic number, a format
//! version, a length-prefixed self-describing header naming the codecs that
//! encoded the payload, and the compressed serialized body. Loading first
//! matches the nine-byte magic number exactly; on mismatch it probes for the
//! two-byte legacy gzip signature and routes the buffer through the legacy
//! adapter, which converts one-way into the current revision.

pub mod byteops;
pub mod error;
pub mod header;
pub mod laws;
pub mod legacy;
pub mod maj0min12;
pub mod methods;
pub mod numenc;
pub mod shaperconfig;
pub mod snapshot;

use vstd::prelude::*;
use vstd::slice::{slice_subrange, slice_to_vec};
use crate::byteops::{bytes_eq, push_all};
use crate::error::FileFormatError;
use crate::header::{encode_header, lemma_header_roundtrip, parse_header, spec_header_bytes,
    spec_parse_header};
use crate::legacy::{gunzip, spec_gzip_signature, LegacyRnoteFile};
use crate::maj0min12::{spec_version, version};
use crate::methods::{json_ok, spec_decompress, zstd_deflate, zstd_inflate, CompM, SerM};
use crate::numenc::{spec_le32, spec_le32_value, le_bytes_to_u32, u32_to_le_vec};
use crate::snapshot::EngineSnapshot;

pub use crate::maj0min12::RnoteFileMaj0Min12;
pub use crate::maj0min12::RnoteHeaderMaj0Min12;

verus! {

/// The current container format revision.
pub type RnoteFile = RnoteFileMaj0Min12;

/// The current header revision.
pub type RnoteHeader = RnoteHeaderMaj0Min12;

/// The fixed nine-byte magic number that opens every file in the current
/// container format family.
pub open spec fn spec_magic_number() -> Seq<u8> {
    seq![0x52u8, 0x4eu8, 0x4fu8, 0x54u8, 0x45u8, 0xceu8, 0xa6u8, 0xceu8, 0x9bu8]
}

/// The magic number as a byte vector.
pub fn magic_number() -> (r: Vec<u8>)
    ensures
        r@ == spec_magic_number(),
{
    let mut v: Vec<u8> = Vec::new();
    v.push(0x52);
    v.push(0x4e);
    v.push(0x4f);
    v.push(0x54);
    v.push(0x45);
    v.push(0xce);
    v.push(0xa6);
    v.push(0xce);
    v.push(0x9b);
    proof {
        assert(v@ =~= spec_magic_number());
    }
    v
}

/// The full byte layout of a saved container: magic number, version,
/// four-byte little-endian header length, canonical header bytes, body.
pub open spec fn spec_save_bytes(head: RnoteHeaderMaj0Min12, body: Seq<u8>) -> Seq<u8> {
    spec_magic_number() + spec_version() + spec_le32(spec_header_bytes(head).len() as u32)
        + spec_header_bytes(head) + body
}

/// What parsing a current-format buffer (one whose magic number already
/// matched) yields: the header and body, or the exact failure.
pub open spec fn spec_parse_current(b: Seq<u8>) -> Result<
    (RnoteHeaderMaj0Min12, Seq<u8>),
    FileFormatError,
> {
    if b.len() < 16 {
        Err(FileFormatError::TruncatedInput)
    } else {
        let hs = spec_le32_value(b.subrange(12, 16));
        if b.len() < 16 + hs {
            Err(FileFormatError::TruncatedInput)
        } else {
            match spec_parse_header(b.subrange(16, 16 + hs)) {
                Some(h) => Ok((h, b.subrange(16 + hs, b.len() as int))),
                None => Err(FileFormatError::CorruptPayload),
            }
        }
    }
}

/// The decompression cap a header's declared size imposes: the declared
/// size, clamped to what this machine can address.
pub open spec fn spec_cap(uc_size: u64) -> nat {
    if uc_size as nat <= usize::MAX as nat {
        uc_size as nat
    } else {
        usize::MAX as nat
    }
}

impl RnoteFileMaj0Min12 {
    /// Flattens this container into its on-disk byte layout.
    ///
    /// The header length always fits the four-byte prefix (a canonical
    /// header spans at most 76 bytes), so saving never fails; the `Result`
    /// shape is kept so that a future revision may surface `EncodingError`
    /// for an unrepresentable header.
    pub fn save_as_bytes(&self, _file_name: &str) -> (r: Result<Vec<u8>, FileFormatError>)
        ensures
            r is Ok,
            r->Ok_0@ == spec_save_bytes(self.head, self.body@),
    {
        let json_header = encode_header(&self.head);
        proof {
            lemma_header_roundtrip(self.head);
        }
        let header_size = json_header.len() as u32;
        let mut buffer = magic_number();
        let v = version();
        push_all(&mut buffer, v.as_slice());
        let ls = u32_to_le_vec(header_size);
        push_all(&mut buffer, ls.as_slice());
        push_all(&mut buffer, json_header.as_slice());
        push_all(&mut buffer, self.body.as_slice());
        proof {
            assert(buffer@ =~= spec_save_bytes(self.head, self.body@));
        }
        Ok(buffer)
    }

    /// Determines which format revision produced `bytes` and decodes it,
    /// chaining a legacy document forward into the current revision.
    ///
    /// The current magic number is matched first, over all nine bytes; only
    /// on mismatch is the shorter legacy signature probed, so a current-format
    /// file can never be misread as legacy. Every failure is exact:
    /// `TruncatedInput` when a required field overruns the buffer,
    /// `UnknownFormat` when no signature matches, `CorruptPayload` when the
    /// header region does not decode, and the legacy adapter's failures on
    /// the legacy path.
    pub fn load_from_bytes(bytes: &[u8]) -> (r: Result<Self, FileFormatError>)
        ensures
            bytes@.len() < 9 ==> r == Err::<Self, FileFormatError>(
                FileFormatError::TruncatedInput,
            ),
            (bytes@.len() >= 9 && bytes@.subrange(0, 9) == spec_magic_number()) ==> (
            match spec_parse_current(bytes@) {
                Ok(p) => r is Ok && r->Ok_0.head == p.0 && r->Ok_0.body@ == p.1,
                Err(e) => r == Err::<Self, FileFormatError>(e),
            }),
            (bytes@.len() >= 9 && bytes@.subrange(0, 9) != spec_magic_number()
                && bytes@.subrange(0, 2) == spec_gzip_signature()) ==> (match gunzip(bytes@) {
                Some(j) => {
                    &&& !json_ok(j) ==> r == Err::<Self, FileFormatError>(
                        FileFormatError::SchemaError,
                    )
                    &&& (json_ok(j) && r is Err) ==> r == Err::<Self, FileFormatError>(
                        FileFormatError::MigrationError,
                    )
                    &&& (json_ok(j) && r is Ok) ==> (r->Ok_0.head == (RnoteHeaderMaj0Min12 {
                        compression: CompM::Zstd,
                        serialization: SerM::Json,
                        uc_size: j.len() as u64,
                    }) && r->Ok_0.body@ == zstd_deflate(j) && zstd_inflate(r->Ok_0.body@)
                        == Some(j))
                },
                None => r == Err::<Self, FileFormatError>(FileFormatError::CorruptPayload),
            }),
            (bytes@.len() >= 9 && bytes@.subrange(0, 9) != spec_magic_number()
                && bytes@.subrange(0, 2) != spec_gzip_signature()) ==> r == Err::<
                Self,
                FileFormatError,
            >(FileFormatError::UnknownFormat),
    {
        if bytes.len() < 9 {
            return Err(FileFormatError::TruncatedInput);
        }
        let mv = magic_number();
        if !bytes_eq(slice_subrange(bytes, 0, 9), mv.as_slice()) {
            let gs = legacy::gzip_signature();
            if bytes_eq(slice_subrange(bytes, 0, 2), gs.as_slice()) {
                return match LegacyRnoteFile::load_from_bytes(bytes) {
                    Ok(lf) => lf.upgrade(),
                    Err(e) => Err(e),
                };
            } else {
                return Err(FileFormatError::UnknownFormat);
            }
        }
        if bytes.len() < 16 {
            return Err(FileFormatError::TruncatedInput);
        }
        let hs = le_bytes_to_u32(slice_subrange(bytes, 12, 16));
        let hs_usize = hs as usize;
        if bytes.len() - 16 < hs_usize {
            return Err(FileFormatError::TruncatedInput);
        }
        let header_slice = slice_subrange(bytes, 16, 16 + hs_usize);
        match parse_header(header_slice) {
            Some(head) => {
                let body_slice = slice_subrange(bytes, 16 + hs_usize, bytes.len());
                Ok(Self { head, body: slice_to_vec(body_slice) })
            },
            None => Err(FileFormatError::CorruptPayload),
        }
    }

    /// Builds a container from a snapshot under the current default codecs:
    /// JSON serialization, then zstd compression, with the exact
    /// pre-compression byte length recorded in the header.
    ///
    /// Fails with `SchemaError` exactly when the snapshot's bytes do not
    /// conform to the serialization schema, and with `EncodingError` only
    /// when the compressor itself fails.
    pub fn try_from(value: &EngineSnapshot) -> (r: Result<Self, FileFormatError>)
        ensures
            !json_ok(value.data@) ==> r == Err::<Self, FileFormatError>(
                FileFormatError::SchemaError,
            ),
            json_ok(value.data@) ==> {
                &&& (r is Err ==> r == Err::<Self, FileFormatError>(FileFormatError::EncodingError))
                &&& (r is Ok ==> r->Ok_0.head == (RnoteHeaderMaj0Min12 {
                    compression: CompM::Zstd,
                    serialization: SerM::Json,
                    uc_size: value.data@.len() as u64,
                }) && r->Ok_0.body@ == zstd_deflate(value.data@) && zstd_inflate(r->Ok_0.body@)
                    == Some(value.data@))
            },
    {
        let serialization = SerM::Json;
        let compression = CompM::Zstd;
        let uc_data = match serialization.serialize(value) {
            Ok(d) => d,
            Err(e) => {
                return Err(e);
            },
        };
        let uc_size = uc_data.len() as u64;
        let data = match compression.compress(uc_data) {
            Ok(d) => d,
            Err(e) => {
                return Err(e);
            },
        };
        Ok(
            Self {
                head: RnoteHeaderMaj0Min12 { compression, serialization, uc_size },
                body: data,
            },
        )
    }
}

impl EngineSnapshot {
    /// Unpacks a container into the snapshot it carries, using the codecs
    /// the header declares — never hardcoded defaults, so a file saved
    /// under another compression method still loads.
    ///
    /// The header's declared size caps decompression: a body whose content
    /// would overrun it fails with `CorruptPayload`, and bytes that do not
    /// conform to the serialization schema fail with `SchemaError`.
    pub fn try_from(value: RnoteFileMaj0Min12) -> (r: Result<Self, FileFormatError>)
        ensures
            (match spec_decompress(
                value.head.compression,
                spec_cap(value.head.uc_size),
                value.body@,
            ) {
                Some(s) => {
                    &&& json_ok(s) ==> r is Ok && r->Ok_0.data@ == s
                    &&& !json_ok(s) ==> r == Err::<Self, FileFormatError>(
                        FileFormatError::SchemaError,
                    )
                },
                None => r == Err::<Self, FileFormatError>(FileFormatError::CorruptPayload),
            }),
    {
        let uc_size: usize = if value.head.uc_size <= usize::MAX as u64 {
            value.head.uc_size as usize
        } else {
            usize::MAX
        };
        let uc_body = match value.head.compression.decompress(uc_size, value.body) {
            Ok(d) => d,
            Err(e) => {
                return Err(e);
            },
        };
        value.head.serialization.deserialize(uc_body.as_slice())
    }
}

} // verus!
