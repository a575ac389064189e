//! Verified numeric encodings used by the container layout: unsigned decimal
//! digit strings (for the header's size field) and four-byte little-endian
//! integers (for the header-length prefix).

use vstd::prelude::*;
use vstd::arithmetic::div_mod::{lemma_div_denominator, lemma_fundamental_div_mod};
use vstd::slice::slice_index_get;

verus! {

// ---------------------------------------------------------------------------
// Decimal digit strings
// ---------------------------------------------------------------------------

/// The canonical decimal digit string of `n` (most significant digit first,
/// no leading zeros, `0` written as a single `0`).
pub open spec fn spec_dec_digits(n: nat) -> Seq<u8>
    decreases n,
{
    if n < 10 {
        seq![(48 + n) as u8]
    } else {
        spec_dec_digits(n / 10).push((48 + n % 10) as u8)
    }
}

/// Every byte of `s` is an ASCII digit.
pub open spec fn spec_all_digits(s: Seq<u8>) -> bool {
    forall|i: int| 0 <= i < s.len() ==> 48 <= #[trigger] s[i] <= 57
}

/// The value of a decimal digit string, most significant digit first.
pub open spec fn spec_dec_value(s: Seq<u8>) -> int
    decreases s.len(),
{
    if s.len() == 0 {
        0
    } else {
        spec_dec_value(s.drop_last()) * 10 + (s.last() - 48)
    }
}

/// A digit string is canonical when it is nonempty, all digits, and free of
/// leading zeros.
pub open spec fn spec_canonical_digits(s: Seq<u8>) -> bool {
    &&& spec_all_digits(s)
    &&& s.len() >= 1
    &&& (s.len() > 1 ==> s[0] != 48)
}

pub proof fn lemma_dec_digits_value(n: nat)
    ensures
        spec_dec_value(spec_dec_digits(n)) == n,
    decreases n,
{
    if n < 10 {
        let s = spec_dec_digits(n);
        assert(s == seq![(48 + n) as u8]);
        assert(s.drop_last() =~= Seq::<u8>::empty());
        assert(spec_dec_value(Seq::<u8>::empty()) == 0);
        assert(s.last() == (48 + n) as u8);
        assert(spec_dec_value(s) == spec_dec_value(s.drop_last()) * 10 + (s.last() - 48));
    } else {
        lemma_dec_digits_value(n / 10);
        let s = spec_dec_digits(n / 10);
        let t = s.push((48 + n % 10) as u8);
        assert(t.drop_last() =~= s);
        assert(t.last() == (48 + n % 10) as u8);
        lemma_fundamental_div_mod(n as int, 10);
    }
}

pub proof fn lemma_dec_digits_canonical(n: nat)
    ensures
        spec_canonical_digits(spec_dec_digits(n)),
        n >= 1 ==> spec_dec_digits(n)[0] != 48,
    decreases n,
{
    if n < 10 {
        assert(spec_dec_digits(n) == seq![(48 + n) as u8]);
    } else {
        lemma_dec_digits_canonical(n / 10);
        let s = spec_dec_digits(n / 10);
        let t = s.push((48 + n % 10) as u8);
        assert(spec_dec_digits(n) == t);
        assert(t[0] == s[0]);
        assert(forall|i: int| 0 <= i < t.len() ==> 48 <= #[trigger] t[i] <= 57) by {
            assert(forall|i: int| 0 <= i < s.len() ==> 48 <= #[trigger] s[i] <= 57);
            assert(t[t.len() - 1] == (48 + n % 10) as u8);
            assert(48 + n % 10 <= 57);
        }
    }
}

/// Ten to the `k`.
pub open spec fn pow10(k: nat) -> nat
    decreases k,
{
    if k == 0 {
        1
    } else {
        10 * pow10((k - 1) as nat)
    }
}

pub proof fn lemma_dec_digits_len(n: nat, k: nat)
    requires
        n < pow10(k),
        k >= 1,
    ensures
        spec_dec_digits(n).len() <= k,
    decreases n,
{
    if n < 10 {
    } else {
        if k == 1 {
            assert(pow10(1) == 10) by {
                reveal_with_fuel(pow10, 2);
            }
            assert(false);
        }
        assert(pow10(k) == 10 * pow10((k - 1) as nat));
        lemma_fundamental_div_mod(n as int, 10);
        assert(10 * (n as int / 10) <= n as int);
        assert(n as int / 10 < pow10((k - 1) as nat));
        lemma_dec_digits_len(n / 10, (k - 1) as nat);
    }
}

pub proof fn lemma_dec_digits_len_u64(n: u64)
    ensures
        1 <= spec_dec_digits(n as nat).len() <= 20,
{
    reveal_with_fuel(pow10, 21);
    assert(pow10(20) == 100000000000000000000);
    lemma_dec_digits_len(n as nat, 20);
    assert(spec_dec_digits(n as nat).len() >= 1) by {
        reveal_with_fuel(spec_dec_digits, 1);
    }
}

pub proof fn lemma_dec_value_take_step(s: Seq<u8>, i: int)
    requires
        0 <= i < s.len(),
    ensures
        spec_dec_value(s.subrange(0, i + 1)) == spec_dec_value(s.subrange(0, i)) * 10 + (s[i]
            - 48),
{
    assert(s.subrange(0, i + 1).drop_last() =~= s.subrange(0, i));
    assert(s.subrange(0, i + 1).last() == s[i]);
}

pub proof fn lemma_dec_value_nonneg(s: Seq<u8>)
    requires
        spec_all_digits(s),
    ensures
        spec_dec_value(s) >= 0,
    decreases s.len(),
{
    if s.len() == 0 {
    } else {
        assert(spec_all_digits(s.drop_last())) by {
            assert(forall|i: int|
                0 <= i < s.drop_last().len() ==> 48 <= #[trigger] s.drop_last()[i] <= 57);
        }
        lemma_dec_value_nonneg(s.drop_last());
        assert(s.last() >= 48);
    }
}

pub proof fn lemma_dec_value_prefix_le(s: Seq<u8>, i: int)
    requires
        spec_all_digits(s),
        0 <= i <= s.len(),
    ensures
        spec_dec_value(s.subrange(0, i)) <= spec_dec_value(s),
    decreases s.len() - i,
{
    if i == s.len() {
        assert(s.subrange(0, s.len() as int) =~= s);
    } else {
        lemma_dec_value_take_step(s, i);
        assert(spec_all_digits(s.subrange(0, i))) by {
            assert(forall|j: int|
                0 <= j < s.subrange(0, i).len() ==> 48 <= #[trigger] s.subrange(0, i)[j] <= 57);
        }
        lemma_dec_value_nonneg(s.subrange(0, i));
        lemma_dec_value_prefix_le(s, i + 1);
    }
}

/// Appends the canonical decimal digits of `n` to `out`.
pub fn push_dec_digits(n: u64, out: &mut Vec<u8>)
    ensures
        final(out)@ == old(out)@ + spec_dec_digits(n as nat),
    decreases n,
{
    if n < 10 {
        out.push(48 + (n as u8));
        proof {
            assert(out@ =~= old(out)@ + spec_dec_digits(n as nat));
        }
    } else {
        push_dec_digits(n / 10, out);
        out.push(48 + ((n % 10) as u8));
        proof {
            assert(out@ =~= old(out)@ + spec_dec_digits(n as nat));
        }
    }
}

// ---------------------------------------------------------------------------
// Four-byte little-endian integers
// ---------------------------------------------------------------------------

/// The four-byte little-endian encoding of `n`.
pub open spec fn spec_le32(n: u32) -> Seq<u8> {
    seq![
        (n % 256) as u8,
        ((n / 256) % 256) as u8,
        ((n / 65536) % 256) as u8,
        ((n / 16777216) % 256) as u8,
    ]
}

/// The value of a four-byte little-endian encoding.
pub open spec fn spec_le32_value(s: Seq<u8>) -> int
    recommends
        s.len() == 4,
{
    s[0] + s[1] * 256 + s[2] * 65536 + s[3] * 16777216
}

pub proof fn lemma_le32_value(n: u32)
    ensures
        spec_le32_value(spec_le32(n)) == n,
{
    let i = n as int;
    lemma_fundamental_div_mod(i, 256);
    lemma_fundamental_div_mod(i / 256, 256);
    lemma_fundamental_div_mod(i / 65536, 256);
    lemma_fundamental_div_mod(i, 16777216);
    lemma_div_denominator(i, 256, 256);
    assert((i / 256) / 256 == i / 65536);
    lemma_div_denominator(i, 65536, 256);
    assert((i / 65536) / 256 == i / 16777216);
    assert(i < 4294967296);
    assert(16777216 * (i / 16777216) <= i);
    assert(i / 16777216 < 256);
    assert(i / 16777216 >= 0) by {
        assert(16777216 * (i / 16777216) + (i % 16777216) == i);
        assert(0 <= i % 16777216 < 16777216);
    }
    assert((i / 16777216) % 256 == i / 16777216) by {
        vstd::arithmetic::div_mod::lemma_small_mod((i / 16777216) as nat, 256);
    }
}

/// Encodes `n` as four little-endian bytes.
pub fn u32_to_le_vec(n: u32) -> (r: Vec<u8>)
    ensures
        r@ == spec_le32(n),
{
    let mut v: Vec<u8> = Vec::new();
    v.push((n % 256) as u8);
    v.push(((n / 256) % 256) as u8);
    v.push(((n / 65536) % 256) as u8);
    v.push(((n / 16777216) % 256) as u8);
    proof {
        assert(v@ =~= spec_le32(n));
    }
    v
}

/// Reads a four-byte little-endian integer.
pub fn le_bytes_to_u32(s: &[u8]) -> (r: u32)
    requires
        s@.len() == 4,
    ensures
        r as int == spec_le32_value(s@),
{
    let b0 = *slice_index_get(s, 0) as u32;
    let b1 = *slice_index_get(s, 1) as u32;
    let b2 = *slice_index_get(s, 2) as u32;
    let b3 = *slice_index_get(s, 3) as u32;
    b0 + b1 * 256 + b2 * 65536 + b3 * 16777216
}

} // verus!
