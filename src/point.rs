use vstd::prelude::*;

use crate::generator::Generator;
use crate::scalar::Scalar;
use crate::traits::Curve;

verus! {

/// `a + b` in the group, on discrete logarithms.
pub open spec fn add_log<E: Curve>(a: nat, b: nat) -> nat {
    (a + b) % E::order()
}

/// `-a` in the group, on discrete logarithms.
pub open spec fn neg_log<E: Curve>(a: nat) -> nat {
    ((0 - a) % (E::order() as int)) as nat
}

/// `s * a` in the group, on discrete logarithms.
pub open spec fn mul_log<E: Curve>(s: nat, a: nat) -> nat {
    (s * a) % E::order()
}

/// How a point holds its raw value.
enum PointShape<E: Curve> {
    /// Exclusively owned heap allocation.
    Owned(Box<E::Point>),
    /// The backend's process-wide generator, shared and never mutated.
    Static(&'static E::Point),
}

/// A valid element of the prime-order group of curve `E`.
///
/// The identity is a permitted value; protocols that need a non-degenerate
/// point test for it with [`Point::is_zero`].
pub struct Point<E: Curve> {
    shape: PointShape<E>,
}

impl<E: Curve> View for Point<E> {
    type V = nat;

    /// The discrete logarithm of the point to the base of the generator.
    closed spec fn view(&self) -> nat {
        E::point_log(&self.raw_spec())
    }
}

impl<E: Curve> Point<E> {
    /// The raw value, whichever way it is held.
    pub closed spec fn raw_spec(&self) -> E::Point {
        match self.shape {
            PointShape::Owned(b) => *b,
            PointShape::Static(r) => *r,
        }
    }

    /// The point borrows the process-wide generator instead of owning a copy.
    pub closed spec fn is_static(&self) -> bool {
        self.shape is Static
    }

    #[verifier::type_invariant]
    closed spec fn valid(&self) -> bool {
        E::point_valid(&self.raw_spec())
    }

    /// Takes ownership of a raw point that is known to be in the group.
    pub fn from_raw(raw: E::Point) -> (r: Self)
        requires
            E::point_valid(&raw),
        ensures
            r@ == E::point_log(&raw),
            !r.is_static(),
    {
        Point { shape: PointShape::Owned(Box::new(raw)) }
    }

    /// Views the backend's static generator as a point, without copying.
    pub(crate) fn from_static(raw: &'static E::Point) -> (r: Self)
        requires
            E::point_valid(raw),
        ensures
            r@ == E::point_log(raw),
            r.is_static(),
    {
        Point { shape: PointShape::Static(raw) }
    }

    /// The backend representation, read the same way for either shape.
    pub fn as_raw(&self) -> (r: &E::Point)
        ensures
            E::point_valid(r),
            E::point_log(r) == self@,
    {
        proof {
            use_type_invariant(self);
        }
        match &self.shape {
            PointShape::Owned(b) => &**b,
            PointShape::Static(r) => *r,
        }
    }

    /// The curve's generator handle; allocates nothing.
    pub fn generator() -> (r: Generator<E>)
        ensures
            r@ == 1,
    {
        Generator::default()
    }

    /// The identity element.
    pub fn zero() -> (r: Self)
        ensures
            r@ == 0,
            !r.is_static(),
    {
        Self::from_raw(E::point_zero())
    }

    /// Whether the point is the identity element.
    pub fn is_zero(&self) -> (r: bool)
        ensures
            r == (self@ == 0),
    {
        let z = E::point_zero();
        E::point_eq(self.as_raw(), &z)
    }

    /// `self + other`.
    pub fn add_point(&self, other: &Point<E>) -> (r: Point<E>)
        ensures
            r@ == add_log::<E>(self@, other@),
            !r.is_static(),
    {
        Self::from_raw(E::point_add(self.as_raw(), other.as_raw()))
    }

    /// `-self`.
    pub fn neg_point(&self) -> (r: Point<E>)
        ensures
            r@ == neg_log::<E>(self@),
            !r.is_static(),
    {
        Self::from_raw(E::point_neg(self.as_raw()))
    }

    /// `self - other`.
    pub fn sub_point(&self, other: &Point<E>) -> (r: Point<E>)
        ensures
            r@ == add_log::<E>(self@, neg_log::<E>(other@)),
            !r.is_static(),
    {
        let n = other.neg_point();
        self.add_point(&n)
    }

    /// `s * self` by general (variable-base) multiplication.
    pub fn mul_scalar(&self, s: &Scalar<E>) -> (r: Point<E>)
        ensures
            r@ == mul_log::<E>(s@, self@),
            !r.is_static(),
    {
        Self::from_raw(E::point_mul(self.as_raw(), s.as_raw()))
    }
}

impl<E: Curve> Clone for Point<E> {
    /// A value-equal point; an owned point gets its own allocation.
    fn clone(&self) -> (r: Self)
        ensures
            r@ == self@,
            r.is_static() == self.is_static(),
    {
        proof {
            use_type_invariant(self);
        }
        match &self.shape {
            PointShape::Owned(b) => Self::from_raw(E::point_clone(&**b)),
            PointShape::Static(r) => Self::from_static(*r),
        }
    }
}

impl<E: Curve> PartialEq for Point<E> {
    fn eq(&self, other: &Point<E>) -> (r: bool) {
        E::point_eq(self.as_raw(), other.as_raw())
    }
}

impl<E: Curve> vstd::std_specs::cmp::PartialEqSpecImpl for Point<E> {
    open spec fn obeys_eq_spec() -> bool {
        true
    }

    open spec fn eq_spec(&self, other: &Point<E>) -> bool {
        self@ == other@
    }
}

} // verus!
