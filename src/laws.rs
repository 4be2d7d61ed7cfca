use vstd::prelude::*;

use vstd::arithmetic::div_mod::{
    lemma_add_mod_noop,
    lemma_add_mod_noop_right,
    lemma_mul_mod_noop_left,
    lemma_small_mod,
};
use vstd::arithmetic::mul::lemma_mul_is_distributive_add_other_way;
use vstd::std_specs::cmp::PartialEqSpec;

use crate::generator::Generator;
use crate::point::{add_log, mul_log, neg_log, Point};
use crate::scalar::Scalar;
use crate::traits::Curve;

verus! {

/// Materialising the generator gives equal points however it is done:
/// an owned copy (`to_point`) and a borrowed view (`as_point`) both denote
/// the generator, so any two of them compare equal.
pub proof fn lemma_generator_views_agree<E: Curve>(g: Generator<E>, a: Point<E>, b: Point<E>)
    requires
        a@ == g@,
        b@ == g@,
    ensures
        a.eq_spec(&b),
{
}

/// Fixed-base multiplication of the generator agrees with variable-base
/// multiplication of the generator materialised as a point, for every scalar.
pub proof fn lemma_fixed_base_matches_variable_base<E: Curve>(
    g: Generator<E>,
    base: Point<E>,
    s: Scalar<E>,
)
    requires
        base@ == g@,
    ensures
        mul_log::<E>(s@, g@) == mul_log::<E>(s@, base@),
{
}

/// Point addition is commutative: `p + q == q + p`.
pub proof fn lemma_add_commutative<E: Curve>(p: Point<E>, q: Point<E>)
    ensures
        add_log::<E>(p@, q@) == add_log::<E>(q@, p@),
{
}

/// Point addition is associative: `(p + q) + r == p + (q + r)`.
pub proof fn lemma_add_associative<E: Curve>(p: Point<E>, q: Point<E>, r: Point<E>)
    ensures
        add_log::<E>(add_log::<E>(p@, q@), r@) == add_log::<E>(p@, add_log::<E>(q@, r@)),
{
    let m = E::order() as int;
    E::lemma_order_nontrivial();
    lemma_add_mod_noop_right(r@ as int, (p@ + q@) as int, m);
    lemma_add_mod_noop_right(p@ as int, (q@ + r@) as int, m);
    assert(r@ + (p@ + q@) == p@ + (q@ + r@));
}

/// A point plus its negation is the identity: `p + (-p) == 0`.
pub proof fn lemma_add_neg_is_identity<E: Curve>(p: Point<E>)
    ensures
        add_log::<E>(p@, neg_log::<E>(p@)) == 0,
{
    let m = E::order() as int;
    E::lemma_order_nontrivial();
    lemma_add_mod_noop_right(p@ as int, 0 - p@, m);
    lemma_small_mod(0, m as nat);
}

/// Scalar multiplication distributes over scalar addition:
/// `(s1 + s2) * p == s1 * p + s2 * p`, the generator included as `p`.
pub proof fn lemma_mul_distributes_over_scalar_add<E: Curve>(
    s1: Scalar<E>,
    s2: Scalar<E>,
    p: Point<E>,
)
    ensures
        mul_log::<E>((s1@ + s2@) % E::order(), p@) == add_log::<E>(
            mul_log::<E>(s1@, p@),
            mul_log::<E>(s2@, p@),
        ),
{
    let m = E::order() as int;
    E::lemma_order_nontrivial();
    lemma_mul_mod_noop_left((s1@ + s2@) as int, p@ as int, m);
    lemma_mul_is_distributive_add_other_way(p@ as int, s1@ as int, s2@ as int);
    lemma_add_mod_noop((s1@ * p@) as int, (s2@ * p@) as int, m);
}

} // verus!
