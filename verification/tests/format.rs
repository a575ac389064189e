use std::io::Write;

use rnoteformat::error::FileFormatError;
use rnoteformat::methods::{CompM, SerM};
use rnoteformat::snapshot::EngineSnapshot;
use rnoteformat::{magic_number, RnoteFile, RnoteHeader};

fn snapshot_from(bytes: &[u8]) -> EngineSnapshot {
    EngineSnapshot::new(bytes.to_vec())
}

fn save_snapshot(json: &[u8]) -> Vec<u8> {
    let snap = snapshot_from(json);
    let file = RnoteFile::try_from(&snap).expect("building a container must succeed");
    file.save_as_bytes("doc.rnote").expect("saving must succeed")
}

#[test]
fn round_trip_preserves_snapshot() {
    let json: &[u8] = b"{\"strokes\":[1,2,3],\"title\":\"sketch\"}";
    let snap = snapshot_from(json);
    let file = RnoteFile::try_from(&snap).expect("building a container must succeed");
    assert_eq!(file.head.compression, CompM::Zstd);
    assert_eq!(file.head.serialization, SerM::Json);
    assert_eq!(file.head.uc_size, json.len() as u64);
    let bytes = file.save_as_bytes("doc.rnote").expect("saving must succeed");
    let loaded = RnoteFile::load_from_bytes(&bytes).expect("loading must succeed");
    assert_eq!(loaded.head, file.head);
    assert_eq!(loaded.body, file.body);
    let decoded = EngineSnapshot::try_from(loaded).expect("decoding must succeed");
    assert_eq!(decoded.data, json.to_vec());
}

#[test]
fn round_trip_large_compressible_snapshot() {
    let mut json: Vec<u8> = Vec::new();
    json.extend_from_slice(b"{\"strokes\":[");
    for i in 0..2000 {
        if i > 0 {
            json.push(b',');
        }
        json.extend_from_slice(b"7");
    }
    json.extend_from_slice(b"]}");
    let snap = snapshot_from(&json);
    let file = RnoteFile::try_from(&snap).expect("building a container must succeed");
    // zstd really transformed the payload: a compressible body shrinks.
    assert!(file.body.len() < json.len());
    assert_ne!(file.body, json);
    let bytes = file.save_as_bytes("doc.rnote").expect("saving must succeed");
    let loaded = RnoteFile::load_from_bytes(&bytes).expect("loading must succeed");
    let decoded = EngineSnapshot::try_from(loaded).expect("decoding must succeed");
    assert_eq!(decoded.data, json);
}

#[test]
fn magic_number_exactness() {
    let bytes = save_snapshot(b"{}");
    // Flipping any single bit of the nine magic bytes must defeat
    // current-format detection.
    for byte in 0..9 {
        for bit in 0..8 {
            let mut corrupt = bytes.clone();
            corrupt[byte] ^= 1u8 << bit;
            let r = RnoteFile::load_from_bytes(&corrupt);
            match r {
                Err(FileFormatError::UnknownFormat) | Err(FileFormatError::CorruptPayload) => {}
                other => panic!("corrupt magic accepted: {:?}", other.map(|f| f.head)),
            }
        }
    }
}

#[test]
fn zeros_buffer_is_unknown_format() {
    let zeros = [0u8; 16];
    assert_eq!(
        RnoteFile::load_from_bytes(&zeros),
        Err(FileFormatError::UnknownFormat)
    );
}

#[test]
fn short_buffers_are_truncated_input() {
    let magic = magic_number();
    for n in 0..9 {
        assert_eq!(
            RnoteFile::load_from_bytes(&magic[..n]),
            Err(FileFormatError::TruncatedInput)
        );
    }
}

#[test]
fn truncation_within_header_region_fails() {
    let bytes = save_snapshot(b"{\"layers\":[]}");
    let body_start = {
        let l = u32::from_le_bytes([bytes[12], bytes[13], bytes[14], bytes[15]]) as usize;
        16 + l
    };
    // Any cut before the end of the declared header region must surface
    // TruncatedInput, never a partial parse.
    for n in 0..body_start {
        assert_eq!(
            RnoteFile::load_from_bytes(&bytes[..n]),
            Err(FileFormatError::TruncatedInput),
            "cut at {n}"
        );
    }
    // Cutting only the body still parses the container.
    let r = RnoteFile::load_from_bytes(&bytes[..body_start]);
    assert!(r.is_ok());
}

#[test]
fn header_region_must_decode_canonically() {
    let bytes = save_snapshot(b"{}");
    let l = u32::from_le_bytes([bytes[12], bytes[13], bytes[14], bytes[15]]) as usize;
    // Corrupt one byte inside the header region.
    let mut corrupt = bytes.clone();
    corrupt[16] = b' ';
    assert_eq!(
        RnoteFile::load_from_bytes(&corrupt),
        Err(FileFormatError::CorruptPayload)
    );
    // Sanity: the header region really is canonical JSON.
    let head = &bytes[16..16 + l];
    assert!(head.starts_with(b"{\"compression\":\"zstd\",\"serialization\":\"json\",\"uc_size\":"));
    assert!(head.ends_with(b"}"));
}

#[test]
fn saved_layout_has_magic_version_and_header() {
    // Concrete scenario: saving an empty document.
    let empty: &[u8] = b"{}";
    let bytes = save_snapshot(empty);
    assert_eq!(&bytes[..9], magic_number().as_slice());
    assert_eq!(&bytes[9..12], &[0, 12, 0]);
    let l = u32::from_le_bytes([bytes[12], bytes[13], bytes[14], bytes[15]]) as usize;
    assert!(l >= 57);
    // The body decompresses back to the empty serialized document.
    let loaded = RnoteFile::load_from_bytes(&bytes).expect("loading must succeed");
    let body = loaded.body.clone();
    let inflated = zstd::bulk::decompress(&body, empty.len()).expect("body must inflate");
    assert_eq!(inflated, empty.to_vec());
    let decoded = EngineSnapshot::try_from(loaded).expect("decoding must succeed");
    assert_eq!(decoded.data, empty.to_vec());
}

#[test]
fn legacy_gzip_file_loads_like_a_current_save() {
    let json: &[u8] = b"{\"strokes\":[],\"title\":\"old\"}";
    // A supported legacy writer: one gzip stream holding the serialized
    // document.
    let legacy_bytes = {
        let mut enc = flate2::write::GzEncoder::new(Vec::new(), flate2::Compression::default());
        enc.write_all(json).unwrap();
        enc.finish().unwrap()
    };
    assert_eq!(&legacy_bytes[..2], &[0x1f, 0x8b]);
    let migrated = RnoteFile::load_from_bytes(&legacy_bytes).expect("legacy load must succeed");
    // The migrated container equals the one a direct current-format save of
    // the same document produces.
    let direct = RnoteFile::try_from(&snapshot_from(json)).expect("direct save must succeed");
    assert_eq!(migrated.head, direct.head);
    assert_eq!(migrated.body, direct.body);
    let from_legacy = EngineSnapshot::try_from(migrated).expect("decode must succeed");
    assert_eq!(from_legacy.data, json.to_vec());
    // Once migrated, the document round-trips through the current format
    // without legacy detection triggering again.
    let resaved = RnoteFile::try_from(&from_legacy)
        .unwrap()
        .save_as_bytes("doc.rnote")
        .unwrap();
    assert_eq!(&resaved[..9], magic_number().as_slice());
    let reloaded = RnoteFile::load_from_bytes(&resaved).expect("reload must succeed");
    assert_eq!(
        EngineSnapshot::try_from(reloaded).unwrap().data,
        json.to_vec()
    );
}

#[test]
fn corrupt_gzip_stream_is_corrupt_payload() {
    let mut bad = vec![0x1f, 0x8b];
    bad.extend_from_slice(&[0xff; 14]);
    assert_eq!(
        RnoteFile::load_from_bytes(&bad),
        Err(FileFormatError::CorruptPayload)
    );
}

#[test]
fn legacy_payload_must_be_json() {
    let not_json: &[u8] = b"strokes=3";
    let legacy_bytes = {
        let mut enc = flate2::write::GzEncoder::new(Vec::new(), flate2::Compression::default());
        enc.write_all(not_json).unwrap();
        enc.finish().unwrap()
    };
    assert_eq!(
        RnoteFile::load_from_bytes(&legacy_bytes),
        Err(FileFormatError::SchemaError)
    );
}

#[test]
fn declared_size_caps_decompression() {
    // A header declaring uc_size = 0 over a body that inflates to nonzero
    // bytes must fail deterministically, not allocate past the cap.
    let payload: &[u8] = b"{\"strokes\":[1,2,3]}";
    let body = CompM::Zstd.compress(payload.to_vec()).expect("compress must succeed");
    let file = RnoteFile {
        head: RnoteHeader {
            compression: CompM::Zstd,
            serialization: SerM::Json,
            uc_size: 0,
        },
        body,
    };
    assert_eq!(
        EngineSnapshot::try_from(file),
        Err(FileFormatError::CorruptPayload)
    );
}

#[test]
fn corrupt_zstd_body_is_corrupt_payload() {
    let file = RnoteFile {
        head: RnoteHeader {
            compression: CompM::Zstd,
            serialization: SerM::Json,
            uc_size: 100,
        },
        body: vec![0xde, 0xad, 0xbe, 0xef],
    };
    assert_eq!(
        EngineSnapshot::try_from(file),
        Err(FileFormatError::CorruptPayload)
    );
}

#[test]
fn body_must_deserialize_to_the_schema() {
    let not_json: &[u8] = b"not a document";
    let body = CompM::Zstd.compress(not_json.to_vec()).expect("compress must succeed");
    let file = RnoteFile {
        head: RnoteHeader {
            compression: CompM::Zstd,
            serialization: SerM::Json,
            uc_size: not_json.len() as u64,
        },
        body,
    };
    assert_eq!(
        EngineSnapshot::try_from(file),
        Err(FileFormatError::SchemaError)
    );
    let snap = snapshot_from(not_json);
    assert_eq!(
        RnoteFile::try_from(&snap),
        Err(FileFormatError::SchemaError)
    );
}

#[test]
fn uncompressed_method_round_trips_identically() {
    let payload: &[u8] = b"{\"a\":true}";
    let body = CompM::Uncompressed
        .compress(payload.to_vec())
        .expect("identity compress never fails");
    assert_eq!(body, payload.to_vec());
    let file = RnoteFile {
        head: RnoteHeader {
            compression: CompM::Uncompressed,
            serialization: SerM::Json,
            uc_size: payload.len() as u64,
        },
        body,
    };
    let bytes = file.save_as_bytes("doc.rnote").expect("saving must succeed");
    let loaded = RnoteFile::load_from_bytes(&bytes).expect("loading must succeed");
    assert_eq!(loaded.head.compression, CompM::Uncompressed);
    let decoded = EngineSnapshot::try_from(loaded).expect("decoding must succeed");
    assert_eq!(decoded.data, payload.to_vec());
}

#[test]
fn serde_agrees_with_the_canonical_header_encoding() {
    // The canonical header grammar matches what a serde writer of the same
    // record emits.
    let bytes = save_snapshot(b"{\"x\":0}");
    let l = u32::from_le_bytes([bytes[12], bytes[13], bytes[14], bytes[15]]) as usize;
    let head: serde_json::Value = serde_json::from_slice(&bytes[16..16 + l]).unwrap();
    assert_eq!(head["compression"], serde_json::Value::String("zstd".into()));
    assert_eq!(head["serialization"], serde_json::Value::String("json".into()));
    assert_eq!(head["uc_size"], serde_json::Value::from(7u64));
}

#[test]
fn error_messages_are_nonempty() {
    let errors = [
        FileFormatError::TruncatedInput,
        FileFormatError::UnknownFormat,
        FileFormatError::CorruptPayload,
        FileFormatError::SchemaError,
        FileFormatError::MigrationError,
        FileFormatError::EncodingError,
    ];
    for e in errors {
        assert!(!e.message().is_empty());
    }
}
