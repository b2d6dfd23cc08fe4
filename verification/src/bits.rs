//! Big-endian bit expansion of multi-limb integers.
//!
//! The subgroup verifier multiplies a point by the scalar field's
//! characteristic, which the field reports as a sequence of 64-bit limbs,
//! least-significant limb first.  Scalar multiplication consumes bits
//! most-significant first, so this module converts a limb sequence into its
//! full big-endian bit expansion (leading zeros included) and proves that the
//! expansion denotes the same integer.

use vstd::prelude::*;
use vstd::arithmetic::power2::{pow2, lemma2_to64, lemma_pow2_adds};

verus! {

/// The integer denoted by a bit sequence read most-significant bit first.
pub open spec fn bits_be_value(s: Seq<bool>) -> nat
    decreases s.len(),
{
    if s.len() == 0 {
        0
    } else {
        2 * bits_be_value(s.drop_last()) + (if s.last() {
            1nat
        } else {
            0nat
        })
    }
}

/// The integer denoted by a sequence of 64-bit limbs, least-significant
/// limb first.
pub open spec fn limbs_value(s: Seq<u64>) -> nat
    decreases s.len(),
{
    if s.len() == 0 {
        0
    } else {
        s[0] as nat + pow2(64) * limbs_value(s.skip(1))
    }
}

/// Appending a bit doubles the value and adds the bit.
pub proof fn lemma_bits_be_value_push(s: Seq<bool>, b: bool)
    ensures
        bits_be_value(s.push(b)) == 2 * bits_be_value(s) + (if b {
            1nat
        } else {
            0nat
        }),
{
    assert(s.push(b).drop_last() =~= s);
}

/// A single limb denotes itself.
pub proof fn lemma_limbs_value_singleton(s: Seq<u64>)
    requires
        s.len() == 1,
    ensures
        limbs_value(s) == s[0],
{
    assert(s.skip(1) =~= Seq::<u64>::empty());
    assert(limbs_value(Seq::<u64>::empty()) == 0);
    assert(limbs_value(s) == s[0] as nat + pow2(64) * limbs_value(s.skip(1)));
}

/// Peeling the limb at index `j` off the tail of the sequence.
proof fn lemma_limbs_value_skip(s: Seq<u64>, j: int)
    requires
        0 <= j < s.len(),
    ensures
        limbs_value(s.skip(j)) == s[j] + pow2(64) * limbs_value(s.skip(j + 1)),
{
    assert(s.skip(j)[0] == s[j]);
    assert(s.skip(j).skip(1) =~= s.skip(j + 1));
}

/// The top `k` bits of `w`, as an integer (0 when `k == 0`).
spec fn hi_bits(w: u64, k: nat) -> nat {
    if k == 0 {
        0
    } else {
        (w >> ((64 - k) as u64)) as nat
    }
}

/// Shifting one position less reveals exactly one more low-order bit.
proof fn lemma_shr_step(w: u64, s: u64)
    requires
        1 <= s <= 63,
    ensures
        (w >> ((s - 1) as u64)) as nat == 2 * ((w >> s) as nat) + (((w >> ((s - 1) as u64))
            & 1) as nat),
        ((w >> ((s - 1) as u64)) & 1) <= 1,
{
    assert((w >> ((s - 1) as u64)) & 1 <= 1) by (bit_vector);
    assert(w >> s < 0x8000000000000000u64) by (bit_vector)
        requires
            1 <= s <= 63,
    ;
    assert(w >> ((s - 1) as u64) == 2 * (w >> s) + ((w >> ((s - 1) as u64)) & 1)) by (bit_vector)
        requires
            1 <= s <= 63,
    ;
}

/// Expand limbs (least-significant limb first) into the big-endian bit
/// sequence of the integer they denote, 64 bits per limb.
pub fn bits_be(limbs: &Vec<u64>) -> (r: Vec<bool>)
    ensures
        r@.len() == 64 * limbs@.len(),
        bits_be_value(r@) == limbs_value(limbs@),
{
    let mut out: Vec<bool> = Vec::new();
    let mut j: usize = limbs.len();
    proof {
        assert(limbs@.skip(limbs@.len() as int) =~= Seq::<u64>::empty());
    }
    while j > 0
        invariant
            j <= limbs@.len(),
            out@.len() == 64 * (limbs@.len() - j),
            bits_be_value(out@) == limbs_value(limbs@.skip(j as int)),
        decreases j,
    {
        j = j - 1;
        let w = limbs[j];
        let ghost entry_val = bits_be_value(out@);
        let ghost entry_len = out@.len();
        let mut k: usize = 0;
        proof {
            lemma2_to64();
        }
        while k < 64
            invariant
                k <= 64,
                out@.len() == entry_len + k,
                bits_be_value(out@) == entry_val * pow2(k as nat) + hi_bits(w, k as nat),
            decreases 64 - k,
        {
            let bit = ((w >> ((63 - k) as u64)) & 1) == 1;
            proof {
                let ghost kn = k as nat;
                lemma_bits_be_value_push(out@, bit);
                lemma2_to64();
                lemma_pow2_adds(1, kn);
                assert(entry_val * pow2(kn + 1) == 2 * (entry_val * pow2(kn))) by (nonlinear_arith)
                    requires
                        pow2(kn + 1) == pow2(1) * pow2(kn),
                        pow2(1) == 2,
                ;
                if k == 0 {
                    assert((w >> 63u64) & 1 == w >> 63u64 && w >> 63u64 <= 1) by (bit_vector);
                } else {
                    lemma_shr_step(w, (64 - k) as u64);
                }
            }
            out.push(bit);
            k = k + 1;
        }
        proof {
            lemma_limbs_value_skip(limbs@, j as int);
            assert(w >> 0u64 == w) by (bit_vector);
            assert(bits_be_value(out@) == entry_val * pow2(64) + w);
        }
    }
    proof {
        assert(limbs@.skip(0) =~= limbs@);
    }
    out
}

} // verus!
