use curve_models::bits::bits_be;
use curve_models::fields::{Field, PrimeField, SquareRootField};
use curve_models::models::{MontgomeryModelParameters, SWModelParameters, TEModelParameters};
use curve_models::points::AffinePoint;
use curve_models::toy::{CyclicPoint, Fp, ToyCofactorCurve, ToyCurve, ToyEdwards, ToyMontgomery};

#[test]
fn sw_mul_by_a_matches_field_multiplication() {
    let e = Fp::<101>::new(7);
    assert_eq!(<ToyCofactorCurve as SWModelParameters>::mul_by_a(&e).v, 14);
    let w = Fp::<101>::new(60);
    assert_eq!(<ToyCofactorCurve as SWModelParameters>::mul_by_a(&w).v, 19);
    let one = Fp::<101>::new(34);
    assert_eq!(<ToyCurve as SWModelParameters>::mul_by_a(&one).v, 34);
}

#[test]
fn te_mul_by_a_matches_field_multiplication() {
    let e = Fp::<101>::new(50);
    assert_eq!(<ToyEdwards as TEModelParameters>::mul_by_a(&e).v, 49);
    let z = Fp::<101>::new(0);
    assert_eq!(<ToyEdwards as TEModelParameters>::mul_by_a(&z).v, 0);
}

#[test]
fn add_b_short_circuits_when_b_zero() {
    for x in [0u64, 1, 50, 100] {
        let e = Fp::<101>::new(x);
        let r = <ToyCurve as SWModelParameters>::add_b(&e);
        assert_eq!(r, e);
    }
}

#[test]
fn add_b_adds_coefficient() {
    let e = Fp::<101>::new(99);
    assert_eq!(<ToyCofactorCurve as SWModelParameters>::add_b(&e).v, 3);
    let z = Fp::<101>::new(0);
    assert_eq!(<ToyCofactorCurve as SWModelParameters>::add_b(&z).v, 5);
}

#[test]
fn generators_lie_on_their_curves() {
    // y^2 == x^3 + a·x + b, evaluated through the framework's operators.
    let (x, y) = <ToyCurve as SWModelParameters>::affine_generator_coeffs();
    let rhs = <ToyCurve as SWModelParameters>::add_b(
        &x.mul(&x).mul(&x).add(&<ToyCurve as SWModelParameters>::mul_by_a(&x)),
    );
    assert_eq!(y.mul(&y), rhs);

    let (x, y) = <ToyCofactorCurve as SWModelParameters>::affine_generator_coeffs();
    let rhs = <ToyCofactorCurve as SWModelParameters>::add_b(
        &x.mul(&x).mul(&x).add(&<ToyCofactorCurve as SWModelParameters>::mul_by_a(&x)),
    );
    assert_eq!(y.mul(&y), rhs);
}

#[test]
fn edwards_generator_lies_on_its_curve() {
    // a·x^2 + y^2 == 1 + d·x^2·y^2, evaluated through the framework.
    let (x, y) = <ToyEdwards as TEModelParameters>::affine_generator_coeffs();
    let x2 = x.mul(&x);
    let y2 = y.mul(&y);
    let lhs = <ToyEdwards as TEModelParameters>::mul_by_a(&x2).add(&y2);
    let one = Fp::<101>::new(1);
    let d = <ToyEdwards as TEModelParameters>::coeff_d();
    let rhs = one.add(&d.mul(&x2).mul(&y2));
    assert_eq!(lhs, rhs);
}

#[test]
fn subgroup_verifier_accepts_generator() {
    let g = CyclicPoint::<13> { v: 1 };
    assert!(<ToyCurve as SWModelParameters>::is_in_correct_subgroup_assuming_on_curve(&g));
    let h = CyclicPoint::<12> { v: 4 };
    assert!(<ToyCofactorCurve as SWModelParameters>::is_in_correct_subgroup_assuming_on_curve(&h));
}

#[test]
fn subgroup_verifier_accepts_identity() {
    let id13 = CyclicPoint::<13> { v: 0 };
    assert!(<ToyCurve as SWModelParameters>::is_in_correct_subgroup_assuming_on_curve(&id13));
    let id12 = CyclicPoint::<12> { v: 0 };
    assert!(
        <ToyCofactorCurve as SWModelParameters>::is_in_correct_subgroup_assuming_on_curve(&id12)
    );
}

#[test]
fn subgroup_verifier_rejects_points_outside_subgroup() {
    // A point of the full order 12 is not in the subgroup of order 3.
    let p = CyclicPoint::<12> { v: 1 };
    assert!(!<ToyCofactorCurve as SWModelParameters>::is_in_correct_subgroup_assuming_on_curve(&p));
    // Order 6: also outside.
    let q = CyclicPoint::<12> { v: 2 };
    assert!(!<ToyCofactorCurve as SWModelParameters>::is_in_correct_subgroup_assuming_on_curve(&q));
    // 8 generates the same order-3 subgroup as 4: inside.
    let r = CyclicPoint::<12> { v: 8 };
    assert!(<ToyCofactorCurve as SWModelParameters>::is_in_correct_subgroup_assuming_on_curve(&r));
}

#[test]
fn montgomery_edwards_linkage_round_trips() {
    // The Montgomery partner of `ToyEdwards` links back to `ToyEdwards`
    // itself; the bindings below only compile if the types round-trip.
    let _te: <<ToyEdwards as TEModelParameters>::MontgomeryModelParameters
        as MontgomeryModelParameters>::TEModelParameters = ToyEdwards;
    let _m: <ToyEdwards as TEModelParameters>::MontgomeryModelParameters = ToyMontgomery;
}

#[test]
fn montgomery_coefficients_match_birational_map() {
    // A = 2(a + d)/(a - d), B = 4/(a - d); here a - d == 1.
    let a = <ToyEdwards as TEModelParameters>::coeff_a();
    let d = <ToyEdwards as TEModelParameters>::coeff_d();
    let two = Fp::<101>::new(2);
    assert_eq!(
        <ToyMontgomery as MontgomeryModelParameters>::coeff_a(),
        two.mul(&a.add(&d))
    );
    assert_eq!(<ToyMontgomery as MontgomeryModelParameters>::coeff_b().v, 4);
}

#[test]
fn cofactor_constants() {
    assert_eq!(<ToyCurve as SWModelParameters>::cofactor(), vec![1]);
    assert_eq!(<ToyCurve as SWModelParameters>::cofactor_inv().v, 1);
    assert_eq!(<ToyCofactorCurve as SWModelParameters>::cofactor(), vec![4]);
    assert_eq!(<ToyCofactorCurve as SWModelParameters>::cofactor_inv().v, 1);
    assert_eq!(<ToyEdwards as TEModelParameters>::cofactor(), vec![4]);
    // The cofactor inverse really inverts the cofactor in the scalar field.
    let inv = <ToyEdwards as TEModelParameters>::cofactor_inv();
    assert_eq!(Fp::<13>::new(4).mul(&inv).v, 1);
}

#[test]
fn bits_be_expands_single_limb() {
    let bits = bits_be(&vec![13]);
    assert_eq!(bits.len(), 64);
    let mut v: u128 = 0;
    for b in &bits {
        v = 2 * v + if *b { 1 } else { 0 };
    }
    assert_eq!(v, 13);
}

#[test]
fn bits_be_expands_two_limbs_big_endian() {
    let bits = bits_be(&vec![3, 1]);
    assert_eq!(bits.len(), 128);
    let mut v: u128 = 0;
    for b in &bits {
        v = 2 * v + if *b { 1 } else { 0 };
    }
    assert_eq!(v, (1u128 << 64) + 3);
    // Most significant limb comes first.
    assert!(bits[63]);
    assert!(!bits[0]);
    assert!(bits[126] && bits[127]);
}

#[test]
fn mul_bits_is_double_and_add() {
    let p = CyclicPoint::<13> { v: 2 };
    // 0b101 = 5; 2 · 5 = 10 (mod 13).
    let r = p.mul_bits(&vec![true, false, true]);
    assert_eq!(r.v, 10);
    // Leading zeros do not change the result.
    let r2 = p.mul_bits(&vec![false, false, true, false, true]);
    assert_eq!(r2.v, 10);
    assert!(p.mul_bits(&vec![]).v == 0);
}

#[test]
fn field_sqrt() {
    assert_eq!(Fp::<101>::new(4).sqrt().map(|s| s.v), Some(2));
    assert_eq!(Fp::<101>::new(0).sqrt().map(|s| s.v), Some(0));
    // 2 is not a quadratic residue modulo 101.
    assert!(Fp::<101>::new(2).sqrt().is_none());
    let s = Fp::<101>::new(30).sqrt();
    if let Some(s) = s {
        assert_eq!(s.mul(&s).v, 30);
    }
}

#[test]
fn field_basics() {
    assert!(Fp::<101>::zero().is_zero());
    assert!(!Fp::<101>::new(3).is_zero());
    assert_eq!(Fp::<101>::new(70).add(&Fp::<101>::new(40)).v, 9);
    assert_eq!(Fp::<101>::new(70).mul(&Fp::<101>::new(40)).v, 2800 % 101);
}

#[test]
fn scalar_field_representation() {
    assert_eq!(Fp::<13>::characteristic(), vec![13]);
    assert_eq!(Fp::<3>::characteristic(), vec![3]);
    assert_eq!(Fp::<13>::new(9).into_repr(), vec![9]);
}
