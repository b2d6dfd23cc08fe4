//! Small reference instantiations of the model framework.
//!
//! `Fp<M>` is a field of integers modulo `M` held in a single limb, and
//! `CyclicPoint<N>` is a point engine for a curve group that is cyclic of
//! order `N`, with the group written additively on residues.  On top of
//! them, toy parameter sets instantiate each of the three curve models, so
//! the generic coefficient operators and the subgroup verifier can be
//! exercised end to end: one short Weierstrass curve with cofactor 1 and one
//! with cofactor 4, plus a linked twisted Edwards / Montgomery pair.

use vstd::prelude::*;
use vstd::arithmetic::div_mod::{
    lemma_add_mod_noop,
    lemma_mul_mod_noop_right,
    lemma_small_mod,
};
use crate::bits::{bits_be_value, lemma_bits_be_value_push, lemma_limbs_value_singleton};
use crate::fields::{Field, PrimeField, SquareRootField};
use crate::models::{
    ModelParameters,
    MontgomeryModelParameters,
    SWModelParameters,
    TEModelParameters,
};
use crate::points::AffinePoint;

verus! {

/// An element of the field of integers modulo `M`, reduced below `M`.
#[derive(Clone, Copy, PartialEq, Eq, Debug)]
pub struct Fp<const M: u64> {
    pub v: u64,
}

impl<const M: u64> Fp<M> {
    /// The element standing for `x`, reduced modulo `M`.
    pub fn new(x: u64) -> (r: Fp<M>)
        requires
            M >= 1,
        ensures
            r.v == x as int % M as int,
            r.wf(),
    {
        Fp { v: x % M }
    }
}

impl<const M: u64> Field for Fp<M> {
    open spec fn wf(self) -> bool {
        self.v < M
    }

    open spec fn spec_zero() -> Self {
        Fp { v: 0 }
    }

    open spec fn spec_add(self, other: Self) -> Self {
        Fp { v: ((self.v + other.v) % (M as int)) as u64 }
    }

    open spec fn spec_mul(self, other: Self) -> Self {
        Fp { v: ((self.v as int * other.v as int) % (M as int)) as u64 }
    }

    proof fn lemma_add_zero(self) {
        lemma_small_mod(self.v as nat, M as nat);
    }

    fn zero() -> (r: Self) {
        Fp { v: 0 }
    }

    fn is_zero(&self) -> (r: bool) {
        self.v == 0
    }

    fn add(&self, other: &Self) -> (r: Self) {
        let s = ((self.v as u128 + other.v as u128) % (M as u128)) as u64;
        Fp { v: s }
    }

    fn mul(&self, other: &Self) -> (r: Self) {
        proof {
            assert(self.v as int * other.v as int <= 0xffffffffffffffffu64 as int
                * 0xffffffffffffffffu64 as int) by (nonlinear_arith)
                requires
                    self.v <= 0xffffffffffffffffu64,
                    other.v <= 0xffffffffffffffffu64,
            ;
        }
        let p = ((self.v as u128 * other.v as u128) % (M as u128)) as u64;
        Fp { v: p }
    }
}

impl<const M: u64> SquareRootField for Fp<M> {
    fn sqrt(&self) -> (r: Option<Self>) {
        let mut i: u64 = 0;
        while i < M
            invariant
                i <= M,
                self.wf(),
                forall|s: Fp<M>| s.wf() && s.v < i ==> #[trigger] s.spec_mul(s) != *self,
            decreases M - i,
        {
            proof {
                assert(i as int * i as int <= 0xffffffffffffffffu64 as int
                    * 0xffffffffffffffffu64 as int) by (nonlinear_arith)
                    requires
                        i <= 0xffffffffffffffffu64,
                ;
            }
            let c = ((i as u128 * i as u128) % (M as u128)) as u64;
            if c == self.v {
                return Some(Fp { v: i });
            }
            i = i + 1;
        }
        None
    }
}

impl<const M: u64> PrimeField for Fp<M> {
    open spec fn spec_characteristic() -> nat {
        M as nat
    }

    open spec fn spec_value(self) -> nat {
        self.v as nat
    }

    proof fn lemma_value_canonical(self) {
    }

    fn characteristic() -> (r: Vec<u64>) {
        let mut r: Vec<u64> = Vec::new();
        r.push(M);
        proof {
            lemma_limbs_value_singleton(r@);
        }
        r
    }

    fn into_repr(&self) -> (r: Vec<u64>) {
        let mut r: Vec<u64> = Vec::new();
        r.push(self.v);
        proof {
            lemma_limbs_value_singleton(r@);
        }
        r
    }
}

/// A point of a curve group that is cyclic of order `N`, written
/// additively: the residue `v` stands for the `v`-th multiple of a fixed
/// generator of the full group, and `v == 0` is the identity.
#[derive(Clone, Copy, PartialEq, Eq, Debug)]
pub struct CyclicPoint<const N: u64> {
    pub v: u64,
}

/// One double-and-add step on residues: scalar `k` becomes `2·k + b`.
proof fn lemma_double_add_step(p: int, k: int, b: int, n: int)
    requires
        n >= 1,
        0 <= p < n,
        0 <= b <= 1,
        k >= 0,
    ensures
        (2 * ((p * k) % n) + b * p) % n == (p * (2 * k + b)) % n,
{
    let x = 2 * ((p * k) % n);
    let y = 2 * (p * k);
    lemma_mul_mod_noop_right(2, p * k, n);
    assert(x % n == y % n);
    lemma_add_mod_noop(x, b * p, n);
    lemma_add_mod_noop(y, b * p, n);
    assert(2 * (p * k) + b * p == p * (2 * k + b)) by (nonlinear_arith);
}

impl<const N: u64> AffinePoint for CyclicPoint<N> {
    open spec fn wf(self) -> bool {
        self.v < N
    }

    open spec fn spec_is_zero(self) -> bool {
        self.v == 0
    }

    open spec fn spec_scalar_mul(self, n: nat) -> Self {
        CyclicPoint { v: ((self.v as int * n as int) % (N as int)) as u64 }
    }

    proof fn lemma_zero_scalar_mul(self, n: nat) {
        if self.wf() && self.spec_is_zero() {
            lemma_small_mod(0, N as nat);
        }
    }

    fn is_zero(&self) -> (r: bool) {
        self.v == 0
    }

    fn mul_bits(&self, bits: &Vec<bool>) -> (r: Self) {
        let mut acc: u64 = 0;
        let mut i: usize = 0;
        proof {
            assert(bits@.take(0) =~= Seq::<bool>::empty());
            assert(bits_be_value(Seq::<bool>::empty()) == 0);
            lemma_small_mod(0, N as nat);
        }
        while i < bits.len()
            invariant
                i <= bits@.len(),
                self.wf(),
                acc < N,
                acc as int == (self.v as int * bits_be_value(bits@.take(i as int)) as int) % (
                N as int),
            decreases bits@.len() - i,
        {
            let ghost k = bits_be_value(bits@.take(i as int)) as int;
            let bit = bits[i];
            let mut next: u64 = ((2 * (acc as u128)) % (N as u128)) as u64;
            if bit {
                next = (((next as u128) + (self.v as u128)) % (N as u128)) as u64;
            }
            proof {
                assert(bits@.take(i + 1) =~= bits@.take(i as int).push(bits@[i as int]));
                lemma_bits_be_value_push(bits@.take(i as int), bits@[i as int]);
                let b: int = if bit {
                    1
                } else {
                    0
                };
                lemma_double_add_step(self.v as int, k, b, N as int);
                if bit {
                    lemma_add_mod_noop(2 * ((self.v as int * k) % (N as int)), self.v as int,
                        N as int);
                    lemma_small_mod(self.v as nat, N as nat);
                }
            }
            acc = next;
            i = i + 1;
        }
        proof {
            assert(bits@.take(bits@.len() as int) =~= bits@);
        }
        CyclicPoint { v: acc }
    }
}

/// A short Weierstrass toy curve over `Fp<101>`: `y^2 = x^3 + x`, whose
/// group is cyclic of prime order 13, so the cofactor is 1 and every point
/// on the curve lies in the designated subgroup.
pub struct ToyCurve;

impl ModelParameters for ToyCurve {
    type BaseField = Fp<101>;

    type ScalarField = Fp<13>;
}

impl SWModelParameters for ToyCurve {
    type Affine = CyclicPoint<13>;

    open spec fn spec_coeff_a() -> Fp<101> {
        Fp { v: 1 }
    }

    open spec fn spec_coeff_b() -> Fp<101> {
        Fp { v: 0 }
    }

    open spec fn spec_cofactor() -> Seq<u64> {
        seq![1u64]
    }

    open spec fn spec_cofactor_inv() -> Fp<13> {
        Fp { v: 1 }
    }

    open spec fn spec_affine_generator_coeffs() -> (Fp<101>, Fp<101>) {
        (Fp { v: 3 }, Fp { v: 63 })
    }

    fn coeff_a() -> (r: Fp<101>) {
        let r = Fp { v: 1 };
        proof {
            assert(r.wf());
        }
        r
    }

    fn coeff_b() -> (r: Fp<101>) {
        let r = Fp { v: 0 };
        proof {
            assert(r.wf());
        }
        r
    }

    fn cofactor() -> (r: Vec<u64>) {
        let mut r: Vec<u64> = Vec::new();
        r.push(1u64);
        proof {
            assert(r@ =~= seq![1u64]);
        }
        r
    }

    fn cofactor_inv() -> (r: Fp<13>) {
        let r = Fp { v: 1 };
        proof {
            assert(r.wf());
        }
        r
    }

    fn affine_generator_coeffs() -> (r: (Fp<101>, Fp<101>)) {
        let r = (Fp { v: 3 }, Fp { v: 63 });
        proof {
            assert(r.0.wf() && r.1.wf());
        }
        r
    }

    /// `a` is 1 on this curve, so multiplying by it changes nothing; the
    /// inherited contract obliges this override to agree with the general
    /// formula.
    fn mul_by_a(elem: &Fp<101>) -> (r: Fp<101>) {
        proof {
            lemma_small_mod(elem.v as nat, 101);
        }
        *elem
    }
}

/// A short Weierstrass toy curve over `Fp<101>`: `y^2 = x^3 + 2x + 5`,
/// whose group is cyclic of order 12 = 4 · 3: cofactor 4 with a designated
/// subgroup of prime order 3, so the curve carries points outside that
/// subgroup.
pub struct ToyCofactorCurve;

impl ModelParameters for ToyCofactorCurve {
    type BaseField = Fp<101>;

    type ScalarField = Fp<3>;
}

impl SWModelParameters for ToyCofactorCurve {
    type Affine = CyclicPoint<12>;

    open spec fn spec_coeff_a() -> Fp<101> {
        Fp { v: 2 }
    }

    open spec fn spec_coeff_b() -> Fp<101> {
        Fp { v: 5 }
    }

    open spec fn spec_cofactor() -> Seq<u64> {
        seq![4u64]
    }

    open spec fn spec_cofactor_inv() -> Fp<3> {
        Fp { v: 1 }
    }

    open spec fn spec_affine_generator_coeffs() -> (Fp<101>, Fp<101>) {
        (Fp { v: 0 }, Fp { v: 56 })
    }

    fn coeff_a() -> (r: Fp<101>) {
        let r = Fp { v: 2 };
        proof {
            assert(r.wf());
        }
        r
    }

    fn coeff_b() -> (r: Fp<101>) {
        let r = Fp { v: 5 };
        proof {
            assert(r.wf());
        }
        r
    }

    fn cofactor() -> (r: Vec<u64>) {
        let mut r: Vec<u64> = Vec::new();
        r.push(4u64);
        proof {
            assert(r@ =~= seq![4u64]);
        }
        r
    }

    fn cofactor_inv() -> (r: Fp<3>) {
        let r = Fp { v: 1 };
        proof {
            assert(r.wf());
        }
        r
    }

    fn affine_generator_coeffs() -> (r: (Fp<101>, Fp<101>)) {
        let r = (Fp { v: 0 }, Fp { v: 56 });
        proof {
            assert(r.0.wf() && r.1.wf());
        }
        r
    }
}

/// A twisted Edwards toy model over `Fp<101>`: `3x^2 + y^2 = 1 + 2x^2y^2`,
/// linked to its birationally equivalent Montgomery form `ToyMontgomery`.
pub struct ToyEdwards;

impl ModelParameters for ToyEdwards {
    type BaseField = Fp<101>;

    type ScalarField = Fp<13>;
}

impl TEModelParameters for ToyEdwards {
    type MontgomeryModelParameters = ToyMontgomery;

    open spec fn spec_coeff_a() -> Fp<101> {
        Fp { v: 3 }
    }

    open spec fn spec_coeff_d() -> Fp<101> {
        Fp { v: 2 }
    }

    open spec fn spec_cofactor() -> Seq<u64> {
        seq![4u64]
    }

    open spec fn spec_cofactor_inv() -> Fp<13> {
        Fp { v: 10 }
    }

    open spec fn spec_affine_generator_coeffs() -> (Fp<101>, Fp<101>) {
        (Fp { v: 0 }, Fp { v: 1 })
    }

    fn coeff_a() -> (r: Fp<101>) {
        let r = Fp { v: 3 };
        proof {
            assert(r.wf());
        }
        r
    }

    fn coeff_d() -> (r: Fp<101>) {
        let r = Fp { v: 2 };
        proof {
            assert(r.wf());
        }
        r
    }

    fn cofactor() -> (r: Vec<u64>) {
        let mut r: Vec<u64> = Vec::new();
        r.push(4u64);
        proof {
            assert(r@ =~= seq![4u64]);
        }
        r
    }

    fn cofactor_inv() -> (r: Fp<13>) {
        let r = Fp { v: 10 };
        proof {
            assert(r.wf());
        }
        r
    }

    fn affine_generator_coeffs() -> (r: (Fp<101>, Fp<101>)) {
        let r = (Fp { v: 0 }, Fp { v: 1 });
        proof {
            assert(r.0.wf() && r.1.wf());
        }
        r
    }
}

/// The Montgomery form of `ToyEdwards` over the same base field:
/// `4y^2 = x^3 + 10x^2 + x`, with coefficients derived from the Edwards
/// ones by the standard birational map, and linking back to `ToyEdwards`.
pub struct ToyMontgomery;

impl ModelParameters for ToyMontgomery {
    type BaseField = Fp<101>;

    type ScalarField = Fp<13>;
}

impl MontgomeryModelParameters for ToyMontgomery {
    type TEModelParameters = ToyEdwards;

    open spec fn spec_coeff_a() -> Fp<101> {
        Fp { v: 10 }
    }

    open spec fn spec_coeff_b() -> Fp<101> {
        Fp { v: 4 }
    }

    fn coeff_a() -> (r: Fp<101>) {
        let r = Fp { v: 10 };
        proof {
            assert(r.wf());
        }
        r
    }

    fn coeff_b() -> (r: Fp<101>) {
        let r = Fp { v: 4 };
        proof {
            assert(r.wf());
        }
        r
    }
}

/// The generator of `ToyCurve`'s point engine lies in the designated
/// subgroup: its multiple by the scalar field's characteristic is the
/// identity, so the subgroup verifier is bound by its contract to accept
/// it.
pub proof fn lemma_toy_generator_in_subgroup()
    ensures
        (CyclicPoint::<13> { v: 1 }).spec_scalar_mul(
            <<ToyCurve as ModelParameters>::ScalarField as PrimeField>::spec_characteristic(),
        ).spec_is_zero(),
{
}

/// A point of `ToyCofactorCurve`'s full group order 12 is not in the
/// designated subgroup of order 3: its multiple by the scalar field's
/// characteristic is not the identity, so the subgroup verifier is bound
/// by its contract to reject it.
pub proof fn lemma_toy_full_order_point_outside_subgroup()
    ensures
        !(CyclicPoint::<12> { v: 1 }).spec_scalar_mul(
            <<ToyCofactorCurve as ModelParameters>::ScalarField
                as PrimeField>::spec_characteristic(),
        ).spec_is_zero(),
{
}

} // verus!
