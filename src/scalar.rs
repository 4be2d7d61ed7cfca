use vstd::prelude::*;

use crate::traits::Curve;

verus! {

/// A scalar of curve `E`: an integer modulo the group order.
pub struct Scalar<E: Curve> {
    raw: E::Scalar,
}

impl<E: Curve> View for Scalar<E> {
    type V = nat;

    /// The residue in `[0, order)` that the scalar denotes.
    closed spec fn view(&self) -> nat {
        E::scalar_value(&self.raw)
    }
}

impl<E: Curve> Scalar<E> {
    #[verifier::type_invariant]
    closed spec fn valid(&self) -> bool {
        E::scalar_valid(&self.raw)
    }

    /// Wraps a raw scalar that the backend produced in canonical form.
    pub fn from_raw(raw: E::Scalar) -> (r: Self)
        requires
            E::scalar_valid(&raw),
        ensures
            r@ == E::scalar_value(&raw),
    {
        Scalar { raw }
    }

    /// The backend representation of this scalar.
    pub fn as_raw(&self) -> (r: &E::Scalar)
        ensures
            E::scalar_valid(r),
            E::scalar_value(r) == self@,
    {
        proof {
            use_type_invariant(self);
        }
        &self.raw
    }

    /// The scalar `n mod order`.
    pub fn from_u64(n: u64) -> (r: Self)
        ensures
            r@ == n as nat % E::order(),
    {
        Scalar { raw: E::scalar_from_u64(n) }
    }

    /// The scalar zero.
    pub fn zero() -> (r: Self)
        ensures
            r@ == 0,
    {
        let r = Scalar { raw: E::scalar_from_u64(0) };
        proof {
            E::lemma_order_nontrivial();
            vstd::arithmetic::div_mod::lemma_small_mod(0, E::order());
        }
        r
    }

    /// Whether the scalar is zero.
    pub fn is_zero(&self) -> (r: bool)
        ensures
            r == (self@ == 0),
    {
        let z = Self::zero();
        proof {
            use_type_invariant(self);
            use_type_invariant(&z);
        }
        E::scalar_eq(&self.raw, &z.raw)
    }

    /// `self + other` modulo the group order.
    pub fn add_scalar(&self, other: &Scalar<E>) -> (r: Scalar<E>)
        ensures
            r@ == (self@ + other@) % E::order(),
    {
        proof {
            use_type_invariant(self);
            use_type_invariant(other);
        }
        Scalar { raw: E::scalar_add(&self.raw, &other.raw) }
    }

    /// `self * other` modulo the group order.
    pub fn mul_scalar(&self, other: &Scalar<E>) -> (r: Scalar<E>)
        ensures
            r@ == (self@ * other@) % E::order(),
    {
        proof {
            use_type_invariant(self);
            use_type_invariant(other);
        }
        Scalar { raw: E::scalar_mul(&self.raw, &other.raw) }
    }
}

impl<E: Curve> Clone for Scalar<E> {
    fn clone(&self) -> (r: Self)
        ensures
            r@ == self@,
    {
        proof {
            use_type_invariant(self);
        }
        Scalar { raw: E::scalar_clone(&self.raw) }
    }
}

impl<E: Curve> PartialEq for Scalar<E> {
    fn eq(&self, other: &Scalar<E>) -> (r: bool) {
        proof {
            use_type_invariant(self);
            use_type_invariant(other);
        }
        E::scalar_eq(&self.raw, &other.raw)
    }
}

impl<E: Curve> vstd::std_specs::cmp::PartialEqSpecImpl for Scalar<E> {
    open spec fn obeys_eq_spec() -> bool {
        true
    }

    open spec fn eq_spec(&self, other: &Scalar<E>) -> bool {
        self@ == other@
    }
}

} // verus!
