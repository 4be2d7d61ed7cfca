use vstd::prelude::*;

verus! {

/// The capability a curve backend supplies to the generic layer.
///
/// Every element of the curve's prime-order group is `k * G` for exactly one
/// `k` in `[0, order)`, where `G` is the standard generator; that `k` (the
/// discrete logarithm) is the model of a raw point. A raw scalar is modelled by
/// the integer it denotes.
pub trait Curve: Sized {
    /// Low-level point representation.
    type Point: 'static;
    /// Low-level scalar representation.
    type Scalar;

    /// Order of the group generated by the standard generator.
    spec fn order() -> nat;

    /// The raw point denotes a member of the prime-order group.
    spec fn point_valid(p: &Self::Point) -> bool;

    /// Discrete logarithm of a raw point to the base of the generator.
    spec fn point_log(p: &Self::Point) -> nat;

    /// The raw scalar is in canonical form.
    spec fn scalar_valid(s: &Self::Scalar) -> bool;

    /// The integer a raw scalar denotes.
    spec fn scalar_value(s: &Self::Scalar) -> nat;

    /// The group order exceeds one.
    proof fn lemma_order_nontrivial()
        ensures
            Self::order() > 1,
    ;

    /// A valid point's logarithm lies in `[0, order)`.
    proof fn lemma_point_log_bound(p: &Self::Point)
        requires
            Self::point_valid(p),
        ensures
            Self::point_log(p) < Self::order(),
    ;

    /// A valid scalar's value lies in `[0, order)`.
    proof fn lemma_scalar_value_bound(s: &Self::Scalar)
        requires
            Self::scalar_valid(s),
        ensures
            Self::scalar_value(s) < Self::order(),
    ;

    /// The process-wide generator; the same value on every call.
    fn generator() -> (r: &'static Self::Point)
        ensures
            Self::point_valid(r),
            Self::point_log(r) == 1,
    ;

    /// The identity element.
    fn point_zero() -> (r: Self::Point)
        ensures
            Self::point_valid(&r),
            Self::point_log(&r) == 0,
    ;

    /// Group equality of two raw points.
    fn point_eq(a: &Self::Point, b: &Self::Point) -> (r: bool)
        requires
            Self::point_valid(a),
            Self::point_valid(b),
        ensures
            r == (Self::point_log(a) == Self::point_log(b)),
    ;

    /// A copy of a raw point.
    fn point_clone(a: &Self::Point) -> (r: Self::Point)
        requires
            Self::point_valid(a),
        ensures
            Self::point_valid(&r),
            Self::point_log(&r) == Self::point_log(a),
    ;

    /// The group law.
    fn point_add(a: &Self::Point, b: &Self::Point) -> (r: Self::Point)
        requires
            Self::point_valid(a),
            Self::point_valid(b),
        ensures
            Self::point_valid(&r),
            Self::point_log(&r) == (Self::point_log(a) + Self::point_log(b)) % Self::order(),
    ;

    /// The group inverse.
    fn point_neg(a: &Self::Point) -> (r: Self::Point)
        requires
            Self::point_valid(a),
        ensures
            Self::point_valid(&r),
            Self::point_log(&r) == (0 - Self::point_log(a)) % (Self::order() as int),
    ;

    /// General (variable-base) scalar multiplication.
    fn point_mul(a: &Self::Point, s: &Self::Scalar) -> (r: Self::Point)
        requires
            Self::point_valid(a),
            Self::scalar_valid(s),
        ensures
            Self::point_valid(&r),
            Self::point_log(&r) == (Self::scalar_value(s) * Self::point_log(a)) % Self::order(),
    ;

    /// Fixed-base scalar multiplication by the generator.
    fn generator_mul(s: &Self::Scalar) -> (r: Self::Point)
        requires
            Self::scalar_valid(s),
        ensures
            Self::point_valid(&r),
            Self::point_log(&r) == Self::scalar_value(s),
    ;

    /// The scalar `n mod order`.
    fn scalar_from_u64(n: u64) -> (r: Self::Scalar)
        ensures
            Self::scalar_valid(&r),
            Self::scalar_value(&r) == n as nat % Self::order(),
    ;

    /// Equality of two raw scalars.
    fn scalar_eq(a: &Self::Scalar, b: &Self::Scalar) -> (r: bool)
        requires
            Self::scalar_valid(a),
            Self::scalar_valid(b),
        ensures
            r == (Self::scalar_value(a) == Self::scalar_value(b)),
    ;

    /// A copy of a raw scalar.
    fn scalar_clone(a: &Self::Scalar) -> (r: Self::Scalar)
        requires
            Self::scalar_valid(a),
        ensures
            Self::scalar_valid(&r),
            Self::scalar_value(&r) == Self::scalar_value(a),
    ;

    /// Sum of two scalars modulo the group order.
    fn scalar_add(a: &Self::Scalar, b: &Self::Scalar) -> (r: Self::Scalar)
        requires
            Self::scalar_valid(a),
            Self::scalar_valid(b),
        ensures
            Self::scalar_valid(&r),
            Self::scalar_value(&r) == (Self::scalar_value(a) + Self::scalar_value(b)) % Self::order(),
    ;

    /// Product of two scalars modulo the group order.
    fn scalar_mul(a: &Self::Scalar, b: &Self::Scalar) -> (r: Self::Scalar)
        requires
            Self::scalar_valid(a),
            Self::scalar_valid(b),
        ensures
            Self::scalar_valid(&r),
            Self::scalar_value(&r) == (Self::scalar_value(a) * Self::scalar_value(b)) % Self::order(),
    ;
}

} // verus!
