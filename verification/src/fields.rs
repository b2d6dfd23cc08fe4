//! Field capability contracts.
//!
//! The model framework never implements field arithmetic itself; it consumes
//! it through these traits.  Each operation carries the contract the
//! framework's algorithms rely on: executable results agree with the
//! implementation's own specification-level arithmetic, and operations are
//! closed over the implementation's well-formed (canonical) values.

use vstd::prelude::*;
use crate::bits::limbs_value;

verus! {

/// A field with addition and multiplication, the capabilities the model
/// framework's coefficient operators need.
///
/// `wf` distinguishes the canonical values on which the arithmetic is
/// specified; every operation preserves it.
pub trait Field: Sized + Copy {
    /// The values on which the field's arithmetic is specified.
    spec fn wf(self) -> bool;

    /// The additive identity.
    spec fn spec_zero() -> Self;

    /// Specification-level addition.
    spec fn spec_add(self, other: Self) -> Self;

    /// Specification-level multiplication.
    spec fn spec_mul(self, other: Self) -> Self;

    /// Adding the additive identity changes nothing.
    proof fn lemma_add_zero(self)
        requires
            self.wf(),
        ensures
            self.spec_add(Self::spec_zero()) == self,
    ;

    /// The additive identity as a value.
    fn zero() -> (r: Self)
        ensures
            r == Self::spec_zero(),
    ;

    /// Whether this element is the additive identity.
    fn is_zero(&self) -> (r: bool)
        requires
            self.wf(),
        ensures
            r == (*self == Self::spec_zero()),
    ;

    /// Field addition.
    fn add(&self, other: &Self) -> (r: Self)
        requires
            self.wf(),
            other.wf(),
        ensures
            r == self.spec_add(*other),
            r.wf(),
    ;

    /// Field multiplication.
    fn mul(&self, other: &Self) -> (r: Self)
        requires
            self.wf(),
            other.wf(),
        ensures
            r == self.spec_mul(*other),
            r.wf(),
    ;
}

/// A field with an effective square-root algorithm (needed for point
/// decompression elsewhere in a curve library; the framework only demands
/// the capability).
pub trait SquareRootField: Field {
    /// A square root of this element, if one exists among the well-formed
    /// values; `None` exactly when none exists.
    fn sqrt(&self) -> (r: Option<Self>)
        requires
            self.wf(),
        ensures
            match r {
                Some(s) => s.wf() && s.spec_mul(s) == *self,
                None => forall|s: Self| s.wf() ==> #[trigger] s.spec_mul(s) != *self,
            },
    ;
}

/// A prime field: the field of integers modulo its characteristic, with a
/// canonical big-integer representation for each element.
pub trait PrimeField: Field {
    /// The field's characteristic (its order), as a mathematical integer.
    spec fn spec_characteristic() -> nat;

    /// The canonical integer a well-formed element stands for.
    spec fn spec_value(self) -> nat;

    /// Canonical values are reduced below the characteristic.
    proof fn lemma_value_canonical(self)
        requires
            self.wf(),
        ensures
            self.spec_value() < Self::spec_characteristic(),
    ;

    /// The characteristic as 64-bit limbs, least-significant limb first.
    fn characteristic() -> (r: Vec<u64>)
        ensures
            limbs_value(r@) == Self::spec_characteristic(),
    ;

    /// This element's canonical big-integer representation, as 64-bit
    /// limbs, least-significant limb first.
    fn into_repr(&self) -> (r: Vec<u64>)
        requires
            self.wf(),
        ensures
            limbs_value(r@) == self.spec_value(),
    ;
}

} // verus!
