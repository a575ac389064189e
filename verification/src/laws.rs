//! The format's global laws, proved over the byte-layout model that the
//! save and load contracts are stated against.

use vstd::prelude::*;
use crate::error::FileFormatError;
use crate::header::{lemma_header_roundtrip, spec_header_bytes};
use crate::legacy::gunzip;
use crate::maj0min12::RnoteHeaderMaj0Min12;
use crate::methods::{json_ok, spec_decompress, zstd_deflate, zstd_inflate, CompM, SerM};
use crate::numenc::{lemma_le32_value, spec_le32, spec_le32_value};
use crate::{spec_cap, spec_magic_number, spec_parse_current, spec_save_bytes};

verus! {

/// Saving is inverted exactly by loading: the byte layout written for any
/// container opens with the magic number and parses back to precisely that
/// container's header and body.
pub proof fn lemma_save_load(head: RnoteHeaderMaj0Min12, body: Seq<u8>)
    ensures
        spec_save_bytes(head, body).len() >= 16,
        spec_save_bytes(head, body).subrange(0, 9) == spec_magic_number(),
        spec_parse_current(spec_save_bytes(head, body)) == Ok::<
            (RnoteHeaderMaj0Min12, Seq<u8>),
            FileFormatError,
        >((head, body)),
{
    let s = spec_save_bytes(head, body);
    let hb = spec_header_bytes(head);
    lemma_header_roundtrip(head);
    lemma_le32_value(hb.len() as u32);
    assert(s.len() == 16 + hb.len() + body.len());
    assert(s.subrange(0, 9) =~= spec_magic_number());
    assert(s.subrange(12, 16) =~= spec_le32(hb.len() as u32));
    assert(spec_le32_value(s.subrange(12, 16)) == hb.len());
    assert(s.subrange(16, 16 + hb.len() as int) =~= hb);
    assert(s.subrange(16 + hb.len() as int, s.len() as int) =~= body);
}

/// The saved layout is injective: two containers that flatten to the same
/// bytes are the same container, so no saved document can be confused with
/// another at load time.
pub proof fn lemma_save_injective(
    head1: RnoteHeaderMaj0Min12,
    body1: Seq<u8>,
    head2: RnoteHeaderMaj0Min12,
    body2: Seq<u8>,
)
    requires
        spec_save_bytes(head1, body1) == spec_save_bytes(head2, body2),
    ensures
        head1 == head2,
        body1 == body2,
{
    lemma_save_load(head1, body1);
    lemma_save_load(head2, body2);
}

/// Magic number exactness: a buffer that does not begin with the full
/// nine-byte magic number is not the saved layout of any container, so it is
/// never parsed as current-format.
pub proof fn lemma_magic_exactness(b: Seq<u8>, head: RnoteHeaderMaj0Min12, body: Seq<u8>)
    requires
        b.len() < 9 || b.subrange(0, 9) != spec_magic_number(),
    ensures
        b != spec_save_bytes(head, body),
{
    lemma_save_load(head, body);
    if b == spec_save_bytes(head, body) {
        assert(b.subrange(0, 9) == spec_magic_number());
        assert(false);
    }
}

/// Round trip: a container whose header records the current default codecs
/// and the exact decompressed size of its body — the shape every container
/// built from a snapshot has — saves to bytes that load back to the same
/// container, whose body then decompresses under the header's own cap to
/// exactly the original snapshot bytes.
pub proof fn lemma_round_trip(data: Seq<u8>, head: RnoteHeaderMaj0Min12, body: Seq<u8>)
    requires
        head.compression == CompM::Zstd,
        head.serialization == SerM::Json,
        head.uc_size == data.len() as u64,
        data.len() <= u64::MAX,
        data.len() <= usize::MAX,
        zstd_inflate(body) == Some(data),
        json_ok(data),
    ensures
        spec_parse_current(spec_save_bytes(head, body)) == Ok::<
            (RnoteHeaderMaj0Min12, Seq<u8>),
            FileFormatError,
        >((head, body)),
        spec_save_bytes(head, body).subrange(0, 9) == spec_magic_number(),
        spec_decompress(head.compression, spec_cap(head.uc_size), body) == Some(data),
{
    lemma_save_load(head, body);
}

/// Legacy chain totality: the container that loading a legacy buffer
/// produces is the very container that saving its decoded document directly
/// in the current format produces, so both decode to the same snapshot.
pub proof fn lemma_legacy_chain_totality(
    b: Seq<u8>,
    lhead: RnoteHeaderMaj0Min12,
    lbody: Seq<u8>,
    dhead: RnoteHeaderMaj0Min12,
    dbody: Seq<u8>,
)
    requires
        gunzip(b) is Some,
        json_ok(gunzip(b)->Some_0),
        lhead == (RnoteHeaderMaj0Min12 {
            compression: CompM::Zstd,
            serialization: SerM::Json,
            uc_size: gunzip(b)->Some_0.len() as u64,
        }),
        lbody == zstd_deflate(gunzip(b)->Some_0),
        dhead == (RnoteHeaderMaj0Min12 {
            compression: CompM::Zstd,
            serialization: SerM::Json,
            uc_size: gunzip(b)->Some_0.len() as u64,
        }),
        dbody == zstd_deflate(gunzip(b)->Some_0),
    ensures
        lhead == dhead,
        lbody == dbody,
        spec_decompress(lhead.compression, spec_cap(lhead.uc_size), lbody) == spec_decompress(
            dhead.compression,
            spec_cap(dhead.uc_size),
            dbody,
        ),
{
}

} // verus!
