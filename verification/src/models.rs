//! Curve model parameter traits.
//!
//! A concrete curve supplies constants for one of three classical equation
//! forms — short Weierstrass, twisted Edwards, or Montgomery — by
//! implementing the corresponding trait over a base/scalar field pair.  The
//! traits supply, as overridable default methods, the coefficient operators
//! and the cofactor-based subgroup membership check; any override must keep
//! the stated contract, so it stays semantically equivalent to the default.

use vstd::prelude::*;
use crate::bits::bits_be;
use crate::fields::{Field, PrimeField, SquareRootField};
use crate::points::AffinePoint;

verus! {

/// Base contract of every curve model: a base field for the coordinates and
/// a prime scalar field of the order of the designated subgroup.
pub trait ModelParameters {
    /// Base field of the model, with an efficient square-root
    /// implementation.
    type BaseField: Field + SquareRootField;

    /// Finite scalar field of the model, convertible to a canonical
    /// big-integer representation.
    type ScalarField: PrimeField + SquareRootField;
}

/// Model in short Weierstrass form.
///
/// # Definition
///
/// `y^2 = x^3 + a · x + b`
pub trait SWModelParameters: ModelParameters {
    /// The affine point engine for curves of this model.
    type Affine: AffinePoint;

    /// Coefficient `a` of the Weierstrass equation.
    spec fn spec_coeff_a() -> Self::BaseField;

    /// Coefficient `b` of the Weierstrass equation.
    spec fn spec_coeff_b() -> Self::BaseField;

    /// Cofactor of the curve, as 64-bit limbs, least-significant limb
    /// first.
    spec fn spec_cofactor() -> Seq<u64>;

    /// Inverse of the cofactor in the scalar field.
    spec fn spec_cofactor_inv() -> Self::ScalarField;

    /// Coordinates of the base point of the curve.
    spec fn spec_affine_generator_coeffs() -> (Self::BaseField, Self::BaseField);

    /// Coefficient `a` as a value.
    fn coeff_a() -> (r: Self::BaseField)
        ensures
            r == Self::spec_coeff_a(),
            r.wf(),
    ;

    /// Coefficient `b` as a value.
    fn coeff_b() -> (r: Self::BaseField)
        ensures
            r == Self::spec_coeff_b(),
            r.wf(),
    ;

    /// Cofactor limbs as a value.
    fn cofactor() -> (r: Vec<u64>)
        ensures
            r@ == Self::spec_cofactor(),
    ;

    /// Cofactor inverse as a value.
    fn cofactor_inv() -> (r: Self::ScalarField)
        ensures
            r == Self::spec_cofactor_inv(),
            r.wf(),
    ;

    /// Generator coordinates as values.
    fn affine_generator_coeffs() -> (r: (Self::BaseField, Self::BaseField))
        ensures
            r == Self::spec_affine_generator_coeffs(),
            r.0.wf(),
            r.1.wf(),
    ;

    /// Multiply the provided field element by the Weierstrass coefficient
    /// `a`.  Curves with a structured `a` may override this with a cheaper
    /// computation, under the same contract.
    fn mul_by_a(elem: &Self::BaseField) -> (r: Self::BaseField)
        requires
            elem.wf(),
        ensures
            r == elem.spec_mul(Self::spec_coeff_a()),
            r.wf(),
    {
        let copy = *elem;
        copy.mul(&Self::coeff_a())
    }

    /// Sum the provided field element with the Weierstrass coefficient `b`.
    /// When `b` is the additive identity the input is returned unchanged;
    /// the result is identical to the general formula for every `b`.
    fn add_b(elem: &Self::BaseField) -> (r: Self::BaseField)
        requires
            elem.wf(),
        ensures
            r == elem.spec_add(Self::spec_coeff_b()),
            Self::spec_coeff_b() == <Self::BaseField as Field>::spec_zero() ==> r == *elem,
            r.wf(),
    {
        let b = Self::coeff_b();
        if !b.is_zero() {
            let copy = *elem;
            return copy.add(&b);
        }
        proof {
            elem.lemma_add_zero();
        }
        *elem
    }

    /// Evaluate whether the provided affine point is in the correct
    /// subgroup relative to the cofactor of the model: the point, assumed
    /// on the curve, lies in the subgroup of the scalar field's order
    /// exactly when multiplying it by that order gives the identity.
    /// Curves with faster checks may override this, under the same
    /// contract.
    fn is_in_correct_subgroup_assuming_on_curve(item: &Self::Affine) -> (r: bool)
        requires
            item.wf(),
        ensures
            r == item.spec_scalar_mul(
                <Self::ScalarField as PrimeField>::spec_characteristic(),
            ).spec_is_zero(),
            item.spec_is_zero() ==> r,
    {
        proof {
            item.lemma_zero_scalar_mul(<Self::ScalarField as PrimeField>::spec_characteristic());
        }
        let limbs = <Self::ScalarField as PrimeField>::characteristic();
        let bits = bits_be(&limbs);
        item.mul_bits(&bits).is_zero()
    }
}

/// Model in twisted Edwards form.
///
/// # Definition
///
/// `a · x^2 + y^2 = 1 + d · x^2 · y^2`
pub trait TEModelParameters: ModelParameters {
    /// Montgomery model with birational equivalence to this model, over the
    /// same base field.  It is expected to implement
    /// `MontgomeryModelParameters` and to link back to this model; a
    /// mutually recursive bound saying so is out of reach here, so the
    /// round trip is a contract on curve authors.
    type MontgomeryModelParameters: ModelParameters<BaseField = Self::BaseField>;

    /// Coefficient `a` of the twisted Edwards equation.
    spec fn spec_coeff_a() -> Self::BaseField;

    /// Coefficient `d` of the twisted Edwards equation.
    spec fn spec_coeff_d() -> Self::BaseField;

    /// Cofactor of the curve, as 64-bit limbs, least-significant limb
    /// first.
    spec fn spec_cofactor() -> Seq<u64>;

    /// Inverse of the cofactor in the scalar field.
    spec fn spec_cofactor_inv() -> Self::ScalarField;

    /// Coordinates of the base point of the curve.
    spec fn spec_affine_generator_coeffs() -> (Self::BaseField, Self::BaseField);

    /// Coefficient `a` as a value.
    fn coeff_a() -> (r: Self::BaseField)
        ensures
            r == Self::spec_coeff_a(),
            r.wf(),
    ;

    /// Coefficient `d` as a value.
    fn coeff_d() -> (r: Self::BaseField)
        ensures
            r == Self::spec_coeff_d(),
            r.wf(),
    ;

    /// Cofactor limbs as a value.
    fn cofactor() -> (r: Vec<u64>)
        ensures
            r@ == Self::spec_cofactor(),
    ;

    /// Cofactor inverse as a value.
    fn cofactor_inv() -> (r: Self::ScalarField)
        ensures
            r == Self::spec_cofactor_inv(),
            r.wf(),
    ;

    /// Generator coordinates as values.
    fn affine_generator_coeffs() -> (r: (Self::BaseField, Self::BaseField))
        ensures
            r == Self::spec_affine_generator_coeffs(),
            r.0.wf(),
            r.1.wf(),
    ;

    /// Multiply the provided field element by the twisted Edwards
    /// coefficient `a`.  Curves with a structured `a` may override this
    /// with a cheaper computation, under the same contract.
    fn mul_by_a(elem: &Self::BaseField) -> (r: Self::BaseField)
        requires
            elem.wf(),
        ensures
            r == elem.spec_mul(Self::spec_coeff_a()),
            r.wf(),
    {
        let copy = *elem;
        copy.mul(&Self::coeff_a())
    }
}

/// Model in Montgomery form.
///
/// # Definition
///
/// `b · y^2 = x^3 + a · x^2 + x`
pub trait MontgomeryModelParameters: ModelParameters {
    /// Twisted Edwards model with birational equivalence to this model,
    /// over the same base field.  It is expected to implement
    /// `TEModelParameters` and to link back to this model; a mutually
    /// recursive bound saying so is out of reach here, so the round trip is
    /// a contract on curve authors.
    type TEModelParameters: TEModelParameters<BaseField = Self::BaseField>;

    /// Coefficient `a` of the Montgomery equation.
    spec fn spec_coeff_a() -> Self::BaseField;

    /// Coefficient `b` of the Montgomery equation.
    spec fn spec_coeff_b() -> Self::BaseField;

    /// Coefficient `a` as a value.
    fn coeff_a() -> (r: Self::BaseField)
        ensures
            r == Self::spec_coeff_a(),
            r.wf(),
    ;

    /// Coefficient `b` as a value.
    fn coeff_b() -> (r: Self::BaseField)
        ensures
            r == Self::spec_coeff_b(),
            r.wf(),
    ;
}

} // verus!
