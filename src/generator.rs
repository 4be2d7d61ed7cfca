use vstd::prelude::*;

use std::marker::PhantomData;

use crate::point::{mul_log, Point};
use crate::scalar::Scalar;
use crate::traits::Curve;

verus! {

/// The distinguished generator of curve `E`.
///
/// Carries no data: the type alone identifies the point. Multiplying it by a
/// scalar uses the backend's fixed-base path; convert it with
/// [`to_point`](Self::to_point) for an owned copy, or with
/// [`as_point`](Self::as_point) for a point that borrows the process-wide
/// generator without allocating.
pub struct Generator<E: Curve> {
    _ph: PhantomData<&'static E::Point>,
}

impl<E: Curve> View for Generator<E> {
    type V = nat;

    /// The generator's discrete logarithm, one by definition.
    open spec fn view(&self) -> nat {
        1
    }
}

impl<E: Curve> Default for Generator<E> {
    fn default() -> (r: Self)
        ensures
            r@ == 1,
    {
        Generator { _ph: PhantomData }
    }
}

impl<E: Curve> Generator<E> {
    /// Clones the generator into an owned point.
    pub fn to_point(self) -> (r: Point<E>)
        ensures
            r@ == self@,
            !r.is_static(),
    {
        Point::from_raw(E::point_clone(self.as_raw()))
    }

    /// A point that borrows the process-wide generator: no copy, no allocation.
    pub fn as_point(self) -> (r: Point<E>)
        ensures
            r@ == self@,
            r.is_static(),
    {
        Point::from_static(self.as_raw())
    }

    /// The backend's static generator value.
    pub fn as_raw(self) -> (r: &'static E::Point)
        ensures
            E::point_valid(r),
            E::point_log(r) == self@,
    {
        E::generator()
    }

    /// `s * G` by the backend's fixed-base multiplication.
    pub fn mul_scalar(self, s: &Scalar<E>) -> (r: Point<E>)
        ensures
            r@ == mul_log::<E>(s@, self@),
            !r.is_static(),
    {
        let raw = s.as_raw();
        proof {
            E::lemma_scalar_value_bound(raw);
            vstd::arithmetic::div_mod::lemma_small_mod(s@, E::order());
        }
        Point::from_raw(E::generator_mul(raw))
    }
}

impl<E: Curve> Clone for Generator<E> {
    fn clone(&self) -> (r: Self)
        ensures
            r@ == self@,
    {
        Generator { _ph: PhantomData }
    }
}

impl<E: Curve> Copy for Generator<E> {
}

} // verus!
