//! Affine point capability contract.
//!
//! The framework treats the concrete point representation and its group law
//! as an external engine; it only needs an identity test and
//! multiplication by a big-endian bit sequence.  The contract ties the
//! bit-driven multiplication to the engine's own specification-level scalar
//! multiple, so the subgroup verifier can state its result over the scalar
//! itself rather than over a particular bit expansion.

use vstd::prelude::*;
use crate::bits::bits_be_value;

verus! {

/// An affine curve point with an identity test and bit-driven scalar
/// multiplication.
///
/// `wf` distinguishes the values the engine's operations are specified on
/// (for a coordinate representation: points actually on the curve, plus the
/// identity).
pub trait AffinePoint: Sized + Copy {
    /// The values on which the engine's operations are specified.
    spec fn wf(self) -> bool;

    /// Whether this point is the identity (the point at infinity).
    spec fn spec_is_zero(self) -> bool;

    /// The scalar multiple `n · self`.
    spec fn spec_scalar_mul(self, n: nat) -> Self;

    /// Every scalar multiple of the identity is the identity.
    proof fn lemma_zero_scalar_mul(self, n: nat)
        ensures
            self.wf() && self.spec_is_zero() ==> self.spec_scalar_mul(n).spec_is_zero(),
    ;

    /// Whether this point is the identity.
    fn is_zero(&self) -> (r: bool)
        requires
            self.wf(),
        ensures
            r == self.spec_is_zero(),
    ;

    /// Multiply by the integer whose big-endian bit expansion is `bits`
    /// (double-and-add, most-significant bit first).
    fn mul_bits(&self, bits: &Vec<bool>) -> (r: Self)
        requires
            self.wf(),
        ensures
            r.wf(),
            r == self.spec_scalar_mul(bits_be_value(bits@)),
    ;
}

} // verus!
