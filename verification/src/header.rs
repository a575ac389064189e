//! The canonical encoding of the container header.
//!
//! The header is written as one JSON object with a fixed field order and no
//! interior whitespace, for example
//! `{"compression":"zstd","serialization":"json","uc_size":42}`.
//! Keeping the encoding canonical makes it self-describing to outside
//! readers while giving this core an exact, invertible grammar: every field
//! sits at a fixed offset except the size digits, whose extent the
//! surrounding length prefix delimits.

use vstd::prelude::*;
use vstd::arithmetic::div_mod::lemma_fundamental_div_mod;
use vstd::slice::{slice_index_get, slice_subrange};
use crate::byteops::{bytes_eq, push_all};
use crate::maj0min12::RnoteHeaderMaj0Min12;
use crate::methods::{CompM, SerM};
use crate::numenc::{
    lemma_dec_digits_canonical, lemma_dec_digits_len_u64, lemma_dec_digits_value,
    lemma_dec_value_prefix_le, lemma_dec_value_take_step, push_dec_digits, spec_all_digits,
    spec_canonical_digits, spec_dec_digits, spec_dec_value,
};

verus! {

/// The literal `{"compression":"` of the canonical header encoding.
pub open spec fn spec_lit_compression_key() -> Seq<u8> {
    seq![123u8, 34u8, 99u8, 111u8, 109u8, 112u8, 114u8, 101u8, 115u8, 115u8, 105u8, 111u8, 110u8, 34u8, 58u8, 34u8]
}

fn lit_compression_key() -> (r: Vec<u8>)
    ensures
        r@ == spec_lit_compression_key(),
{
    let mut v: Vec<u8> = Vec::new();
    v.push(123);
    v.push(34);
    v.push(99);
    v.push(111);
    v.push(109);
    v.push(112);
    v.push(114);
    v.push(101);
    v.push(115);
    v.push(115);
    v.push(105);
    v.push(111);
    v.push(110);
    v.push(34);
    v.push(58);
    v.push(34);
    proof {
        assert(v@ =~= spec_lit_compression_key());
    }
    v
}

/// The literal `none` of the canonical header encoding.
pub open spec fn spec_lit_none_tag() -> Seq<u8> {
    seq![110u8, 111u8, 110u8, 101u8]
}

fn lit_none_tag() -> (r: Vec<u8>)
    ensures
        r@ == spec_lit_none_tag(),
{
    let mut v: Vec<u8> = Vec::new();
    v.push(110);
    v.push(111);
    v.push(110);
    v.push(101);
    proof {
        assert(v@ =~= spec_lit_none_tag());
    }
    v
}

/// The literal `zstd` of the canonical header encoding.
pub open spec fn spec_lit_zstd_tag() -> Seq<u8> {
    seq![122u8, 115u8, 116u8, 100u8]
}

fn lit_zstd_tag() -> (r: Vec<u8>)
    ensures
        r@ == spec_lit_zstd_tag(),
{
    let mut v: Vec<u8> = Vec::new();
    v.push(122);
    v.push(115);
    v.push(116);
    v.push(100);
    proof {
        assert(v@ =~= spec_lit_zstd_tag());
    }
    v
}

/// The literal `","serialization":"` of the canonical header encoding.
pub open spec fn spec_lit_serialization_key() -> Seq<u8> {
    seq![34u8, 44u8, 34u8, 115u8, 101u8, 114u8, 105u8, 97u8, 108u8, 105u8, 122u8, 97u8, 116u8, 105u8, 111u8, 110u8, 34u8, 58u8, 34u8]
}

fn lit_serialization_key() -> (r: Vec<u8>)
    ensures
        r@ == spec_lit_serialization_key(),
{
    let mut v: Vec<u8> = Vec::new();
    v.push(34);
    v.push(44);
    v.push(34);
    v.push(115);
    v.push(101);
    v.push(114);
    v.push(105);
    v.push(97);
    v.push(108);
    v.push(105);
    v.push(122);
    v.push(97);
    v.push(116);
    v.push(105);
    v.push(111);
    v.push(110);
    v.push(34);
    v.push(58);
    v.push(34);
    proof {
        assert(v@ =~= spec_lit_serialization_key());
    }
    v
}

/// The literal `json` of the canonical header encoding.
pub open spec fn spec_lit_json_tag() -> Seq<u8> {
    seq![106u8, 115u8, 111u8, 110u8]
}

fn lit_json_tag() -> (r: Vec<u8>)
    ensures
        r@ == spec_lit_json_tag(),
{
    let mut v: Vec<u8> = Vec::new();
    v.push(106);
    v.push(115);
    v.push(111);
    v.push(110);
    proof {
        assert(v@ =~= spec_lit_json_tag());
    }
    v
}

/// The literal `","uc_size":` of the canonical header encoding.
pub open spec fn spec_lit_uc_size_key() -> Seq<u8> {
    seq![34u8, 44u8, 34u8, 117u8, 99u8, 95u8, 115u8, 105u8, 122u8, 101u8, 34u8, 58u8]
}

fn lit_uc_size_key() -> (r: Vec<u8>)
    ensures
        r@ == spec_lit_uc_size_key(),
{
    let mut v: Vec<u8> = Vec::new();
    v.push(34);
    v.push(44);
    v.push(34);
    v.push(117);
    v.push(99);
    v.push(95);
    v.push(115);
    v.push(105);
    v.push(122);
    v.push(101);
    v.push(34);
    v.push(58);
    proof {
        assert(v@ =~= spec_lit_uc_size_key());
    }
    v
}

/// The tag naming a compression method in the header.
pub open spec fn spec_comp_tag(m: CompM) -> Seq<u8> {
    match m {
        CompM::Uncompressed => spec_lit_none_tag(),
        CompM::Zstd => spec_lit_zstd_tag(),
    }
}

/// The tag naming a serialization method in the header.
pub open spec fn spec_ser_tag(m: SerM) -> Seq<u8> {
    match m {
        SerM::Json => spec_lit_json_tag(),
    }
}

/// The canonical header encoding of `h`.
pub open spec fn spec_header_bytes(h: RnoteHeaderMaj0Min12) -> Seq<u8> {
    spec_lit_compression_key() + spec_comp_tag(h.compression) + spec_lit_serialization_key()
        + spec_ser_tag(h.serialization) + spec_lit_uc_size_key() + spec_dec_digits(
        h.uc_size as nat,
    ) + seq![125u8]
}

/// What decoding a header region yields: the header whose canonical encoding
/// the bytes are, or `None` when they are no such encoding.
pub open spec fn spec_parse_header(s: Seq<u8>) -> Option<RnoteHeaderMaj0Min12> {
    if s.len() < 57 {
        None
    } else if s.subrange(0, 16) != spec_lit_compression_key() {
        None
    } else if s.subrange(16, 20) != spec_lit_none_tag() && s.subrange(16, 20)
        != spec_lit_zstd_tag() {
        None
    } else if s.subrange(20, 39) != spec_lit_serialization_key() {
        None
    } else if s.subrange(39, 43) != spec_lit_json_tag() {
        None
    } else if s.subrange(43, 55) != spec_lit_uc_size_key() {
        None
    } else if s[s.len() - 1] != 125 {
        None
    } else if !spec_canonical_digits(s.subrange(55, s.len() - 1)) {
        None
    } else if spec_dec_value(s.subrange(55, s.len() - 1)) > u64::MAX {
        None
    } else {
        Some(
            RnoteHeaderMaj0Min12 {
                compression: if s.subrange(16, 20) == spec_lit_none_tag() {
                    CompM::Uncompressed
                } else {
                    CompM::Zstd
                },
                serialization: SerM::Json,
                uc_size: spec_dec_value(s.subrange(55, s.len() - 1)) as u64,
            },
        )
    }
}

/// Encodes a header canonically.
pub fn encode_header(h: &RnoteHeaderMaj0Min12) -> (r: Vec<u8>)
    ensures
        r@ == spec_header_bytes(*h),
{
    let mut out: Vec<u8> = Vec::new();
    let ck = lit_compression_key();
    push_all(&mut out, ck.as_slice());
    match h.compression {
        CompM::Uncompressed => {
            let t = lit_none_tag();
            push_all(&mut out, t.as_slice());
        },
        CompM::Zstd => {
            let t = lit_zstd_tag();
            push_all(&mut out, t.as_slice());
        },
    }
    let sk = lit_serialization_key();
    push_all(&mut out, sk.as_slice());
    match h.serialization {
        SerM::Json => {
            let t = lit_json_tag();
            push_all(&mut out, t.as_slice());
        },
    }
    let uk = lit_uc_size_key();
    push_all(&mut out, uk.as_slice());
    push_dec_digits(h.uc_size, &mut out);
    out.push(125);
    proof {
        assert(out@ =~= spec_header_bytes(*h));
    }
    out
}

/// Decodes a header region; returns `None` exactly when the bytes are not
/// the canonical encoding of any header.
pub fn parse_header(s: &[u8]) -> (r: Option<RnoteHeaderMaj0Min12>)
    ensures
        r == spec_parse_header(s@),
{
    if s.len() < 57 {
        return None;
    }
    let ck = lit_compression_key();
    if !bytes_eq(slice_subrange(s, 0, 16), ck.as_slice()) {
        return None;
    }
    let nt = lit_none_tag();
    let zt = lit_zstd_tag();
    let comp_is_none = bytes_eq(slice_subrange(s, 16, 20), nt.as_slice());
    let comp_is_zstd = bytes_eq(slice_subrange(s, 16, 20), zt.as_slice());
    if !comp_is_none && !comp_is_zstd {
        return None;
    }
    let sk = lit_serialization_key();
    if !bytes_eq(slice_subrange(s, 20, 39), sk.as_slice()) {
        return None;
    }
    let jt = lit_json_tag();
    if !bytes_eq(slice_subrange(s, 39, 43), jt.as_slice()) {
        return None;
    }
    let uk = lit_uc_size_key();
    if !bytes_eq(slice_subrange(s, 43, 55), uk.as_slice()) {
        return None;
    }
    if *slice_index_get(s, s.len() - 1) != 125 {
        return None;
    }
    let dend = s.len() - 1;
    let ghost ds = s@.subrange(55, s@.len() - 1);
    if dend - 55 > 1 && *slice_index_get(s, 55) == 48 {
        proof {
            assert(ds.len() > 1 && ds[0] == 48);
            assert(!spec_canonical_digits(ds));
        }
        return None;
    }
    let mut i: usize = 55;
    let mut value: u64 = 0;
    while i < dend
        invariant
            55 <= i <= dend,
            dend == s@.len() - 1,
            s@.len() >= 57,
            ds == s@.subrange(55, s@.len() - 1),
            spec_all_digits(ds.subrange(0, i - 55)),
            value == spec_dec_value(ds.subrange(0, i - 55)),
        decreases dend - i,
    {
        let c = *slice_index_get(s, i);
        proof {
            assert(ds[i - 55] == s@[i as int]);
        }
        if c < 48 || c > 57 {
            proof {
                assert(!spec_all_digits(ds));
                assert(!spec_canonical_digits(ds));
            }
            return None;
        }
        let d = (c - 48) as u64;
        if value > (u64::MAX - d) / 10 {
            proof {
                if spec_all_digits(ds) {
                    lemma_dec_value_take_step(ds, i - 55);
                    lemma_fundamental_div_mod((u64::MAX - d) as int, 10);
                    assert(spec_dec_value(ds.subrange(0, i - 55 + 1)) > u64::MAX);
                    lemma_dec_value_prefix_le(ds, i - 55 + 1);
                    assert(spec_dec_value(ds) > u64::MAX);
                }
            }
            return None;
        }
        proof {
            lemma_dec_value_take_step(ds, i - 55);
            lemma_fundamental_div_mod((u64::MAX - d) as int, 10);
            assert(forall|j: int|
                0 <= j < (i - 55 + 1) ==> 48 <= #[trigger] ds.subrange(0, i - 55 + 1)[j] <= 57);
        }
        value = value * 10 + d;
        i += 1;
    }
    proof {
        assert(ds.subrange(0, dend - 55) =~= ds);
        assert(spec_canonical_digits(ds));
        assert(spec_dec_value(ds) == value);
    }
    Some(
        RnoteHeaderMaj0Min12 {
            compression: if comp_is_none {
                CompM::Uncompressed
            } else {
                CompM::Zstd
            },
            serialization: SerM::Json,
            uc_size: value,
        },
    )
}

/// Decoding inverts encoding: the canonical header bytes of `h` decode to
/// `h`, and their length always sits between 57 and 76 bytes.
pub proof fn lemma_header_roundtrip(h: RnoteHeaderMaj0Min12)
    ensures
        spec_parse_header(spec_header_bytes(h)) == Some(h),
        57 <= spec_header_bytes(h).len() <= 76,
{
    let s = spec_header_bytes(h);
    let d = spec_dec_digits(h.uc_size as nat);
    lemma_dec_digits_len_u64(h.uc_size);
    lemma_dec_digits_canonical(h.uc_size as nat);
    lemma_dec_digits_value(h.uc_size as nat);
    assert(spec_comp_tag(h.compression).len() == 4);
    assert(spec_ser_tag(h.serialization).len() == 4);
    assert(s.len() == 56 + d.len());
    assert(s.subrange(0, 16) =~= spec_lit_compression_key());
    assert(s.subrange(16, 20) =~= spec_comp_tag(h.compression));
    assert(s.subrange(20, 39) =~= spec_lit_serialization_key());
    assert(s.subrange(39, 43) =~= spec_ser_tag(h.serialization));
    assert(s.subrange(43, 55) =~= spec_lit_uc_size_key());
    assert(s.subrange(55, s.len() - 1) =~= d);
    assert(s[s.len() - 1] == 125);
    assert(spec_lit_none_tag()[0] != spec_lit_zstd_tag()[0]);
    assert(h.serialization == SerM::Json);
    match h.compression {
        CompM::Uncompressed => {
            assert(s.subrange(16, 20) == spec_lit_none_tag());
        },
        CompM::Zstd => {
            assert(s.subrange(16, 20) == spec_lit_zstd_tag());
            assert(s.subrange(16, 20) != spec_lit_none_tag());
        },
    }
    assert(spec_dec_value(s.subrange(55, s.len() - 1)) == h.uc_size);
}

} // verus!
