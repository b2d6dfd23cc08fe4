//! Generic elliptic-curve model framework.
//!
//! A concrete curve is described by implementing one of three model
//! parameter traits — short Weierstrass, twisted Edwards, or Montgomery
//! form — over a base/scalar field pair.  The framework supplies, once and
//! for all, the coefficient operators (`mul_by_a`, `add_b`) and the
//! cofactor-based subgroup membership check that every curve built on top
//! of it relies on for security.
//!
//! Field arithmetic and the affine point group law are consumed through
//! capability contracts (`fields`, `points`) rather than implemented here;
//! `toy` instantiates the whole framework on small curves so the generic
//! algorithms can be exercised end to end.

pub mod bits;
pub mod fields;
pub mod models;
pub mod points;
pub mod toy;
