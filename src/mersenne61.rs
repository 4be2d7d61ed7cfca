use vstd::prelude::*;

use crate::traits::Curve;

verus! {

/// Order of the group: the Mersenne prime `2^61 - 1`.
pub const MERSENNE61_ORDER: u64 = 2305843009213693951;

/// The cyclic group of prime order `2^61 - 1`, written additively.
///
/// A point is stored as its discrete logarithm, so the group law is addition
/// of residues. It has no cryptographic strength; it gives the generic layer
/// a backend whose arithmetic is proved against the capability contract.
pub struct Mersenne61;

/// Raw point of [`Mersenne61`]: the residue `k` for the element `k * G`.
pub struct Mersenne61Point {
    log: u64,
}

/// Raw scalar of [`Mersenne61`]: a residue modulo the group order.
pub struct Mersenne61Scalar {
    value: u64,
}

/// `(a * b) mod order` for residues `a`, `b`.
fn mul_mod(a: u64, b: u64) -> (r: u64)
    requires
        a < MERSENNE61_ORDER,
        b < MERSENNE61_ORDER,
    ensures
        r < MERSENNE61_ORDER,
        r as nat == (a as nat * b as nat) % (MERSENNE61_ORDER as nat),
{
    assert((a as int) * (b as int) < 0x1_0000_0000_0000_0000_0000_0000_0000_0000) by (nonlinear_arith)
        requires
            a < MERSENNE61_ORDER,
            b < MERSENNE61_ORDER,
    ;
    let wide: u128 = (a as u128) * (b as u128);
    (wide % (MERSENNE61_ORDER as u128)) as u64
}

/// `(a + b) mod order` for residues `a`, `b`.
fn add_mod(a: u64, b: u64) -> (r: u64)
    requires
        a < MERSENNE61_ORDER,
        b < MERSENNE61_ORDER,
    ensures
        r < MERSENNE61_ORDER,
        r as nat == (a as nat + b as nat) % (MERSENNE61_ORDER as nat),
{
    let s: u64 = a + b;
    if s >= MERSENNE61_ORDER {
        proof {
            vstd::arithmetic::div_mod::lemma_fundamental_div_mod_converse(
                s as int,
                MERSENNE61_ORDER as int,
                1,
                s - MERSENNE61_ORDER,
            );
        }
        s - MERSENNE61_ORDER
    } else {
        proof {
            vstd::arithmetic::div_mod::lemma_small_mod(s as nat, MERSENNE61_ORDER as nat);
        }
        s
    }
}

impl Curve for Mersenne61 {
    type Point = Mersenne61Point;

    type Scalar = Mersenne61Scalar;

    open spec fn order() -> nat {
        MERSENNE61_ORDER as nat
    }

    closed spec fn point_valid(p: &Mersenne61Point) -> bool {
        p.log < MERSENNE61_ORDER
    }

    closed spec fn point_log(p: &Mersenne61Point) -> nat {
        p.log as nat
    }

    closed spec fn scalar_valid(s: &Mersenne61Scalar) -> bool {
        s.value < MERSENNE61_ORDER
    }

    closed spec fn scalar_value(s: &Mersenne61Scalar) -> nat {
        s.value as nat
    }

    proof fn lemma_order_nontrivial() {
    }

    proof fn lemma_point_log_bound(p: &Mersenne61Point) {
    }

    proof fn lemma_scalar_value_bound(s: &Mersenne61Scalar) {
    }

    fn generator() -> (r: &'static Mersenne61Point) {
        &Mersenne61Point { log: 1 }
    }

    fn point_zero() -> (r: Mersenne61Point) {
        Mersenne61Point { log: 0 }
    }

    fn point_eq(a: &Mersenne61Point, b: &Mersenne61Point) -> (r: bool) {
        a.log == b.log
    }

    fn point_clone(a: &Mersenne61Point) -> (r: Mersenne61Point) {
        Mersenne61Point { log: a.log }
    }

    fn point_add(a: &Mersenne61Point, b: &Mersenne61Point) -> (r: Mersenne61Point) {
        Mersenne61Point { log: add_mod(a.log, b.log) }
    }

    fn point_neg(a: &Mersenne61Point) -> (r: Mersenne61Point) {
        let ghost q: int = MERSENNE61_ORDER as int;
        if a.log == 0 {
            proof {
                vstd::arithmetic::div_mod::lemma_small_mod(0, q as nat);
            }
            Mersenne61Point { log: 0 }
        } else {
            proof {
                vstd::arithmetic::div_mod::lemma_fundamental_div_mod_converse(
                    0 - a.log,
                    q,
                    -1,
                    q - a.log,
                );
            }
            Mersenne61Point { log: MERSENNE61_ORDER - a.log }
        }
    }

    fn point_mul(a: &Mersenne61Point, s: &Mersenne61Scalar) -> (r: Mersenne61Point) {
        Mersenne61Point { log: mul_mod(s.value, a.log) }
    }

    fn generator_mul(s: &Mersenne61Scalar) -> (r: Mersenne61Point) {
        Mersenne61Point { log: s.value }
    }

    fn scalar_from_u64(n: u64) -> (r: Mersenne61Scalar) {
        Mersenne61Scalar { value: n % MERSENNE61_ORDER }
    }

    fn scalar_eq(a: &Mersenne61Scalar, b: &Mersenne61Scalar) -> (r: bool) {
        a.value == b.value
    }

    fn scalar_clone(a: &Mersenne61Scalar) -> (r: Mersenne61Scalar) {
        Mersenne61Scalar { value: a.value }
    }

    fn scalar_add(a: &Mersenne61Scalar, b: &Mersenne61Scalar) -> (r: Mersenne61Scalar) {
        Mersenne61Scalar { value: add_mod(a.value, b.value) }
    }

    fn scalar_mul(a: &Mersenne61Scalar, b: &Mersenne61Scalar) -> (r: Mersenne61Scalar) {
        Mersenne61Scalar { value: mul_mod(a.value, b.value) }
    }
}

} // verus!
