use curv::{Generator, Mersenne61, Point, Scalar, MERSENNE61_ORDER};

type G = Generator<Mersenne61>;
type P = Point<Mersenne61>;
type S = Scalar<Mersenne61>;

fn point_of(k: u64) -> P {
    Point::generator().mul_scalar(&Scalar::from_u64(k))
}

fn assert_send_sync<T: Send + Sync>() {}

#[test]
fn to_point_is_value_stable() {
    let g: G = Point::generator();
    assert!(g.to_point() == g.to_point());
}

#[test]
fn to_point_matches_as_point() {
    let g: G = Point::generator();
    assert!(g.to_point() == g.as_point());
    assert!(g.as_point() == point_of(1));
}

#[test]
fn as_raw_is_the_static_generator() {
    let g: G = Point::generator();
    assert!(std::ptr::eq(g.as_raw(), G::default().as_raw()));
    assert!(std::ptr::eq(g.as_point().as_raw(), g.as_raw()));
}

#[test]
fn fixed_base_matches_variable_base() {
    let g: G = Point::generator();
    for k in [0u64, 1, 2, 7, 123_456_789, MERSENNE61_ORDER - 1, u64::MAX] {
        let s = S::from_u64(k);
        assert!(g.mul_scalar(&s) == g.to_point().mul_scalar(&s));
        assert!(g.mul_scalar(&s) == g.as_point().mul_scalar(&s));
    }
}

#[test]
fn order_minus_one_times_generator_is_its_negation() {
    let g: G = Point::generator();
    let s = S::from_u64(MERSENNE61_ORDER - 1);
    assert!(g.mul_scalar(&s) == g.to_point().neg_point());
}

#[test]
fn addition_is_commutative_and_associative() {
    let p = point_of(1_000_000_007);
    let q = point_of(MERSENNE61_ORDER - 5);
    let r = point_of(42);
    assert!(p.add_point(&q) == q.add_point(&p));
    assert!(p.add_point(&q).add_point(&r) == p.add_point(&q.add_point(&r)));
    assert!(p.add_point(&q) == point_of(1_000_000_002));
}

#[test]
fn point_plus_negation_is_identity() {
    for k in [0u64, 1, 99, MERSENNE61_ORDER - 1] {
        let p = point_of(k);
        let sum = p.add_point(&p.neg_point());
        assert!(sum.is_zero());
        assert!(sum == P::zero());
    }
}

#[test]
fn subtraction_inverts_addition() {
    let p = point_of(10);
    let q = point_of(25);
    assert!(p.sub_point(&q) == point_of(MERSENNE61_ORDER - 15));
    assert!(p.add_point(&q).sub_point(&q) == p);
}

#[test]
fn multiplication_distributes_over_scalar_addition() {
    let g: G = Point::generator();
    let s1 = S::from_u64(0x0123_4567_89ab_cdef);
    let s2 = S::from_u64(MERSENNE61_ORDER - 3);
    let lhs = g.mul_scalar(&s1.add_scalar(&s2));
    let rhs = g.mul_scalar(&s1).add_point(&g.mul_scalar(&s2));
    assert!(lhs == rhs);
    let p = point_of(987_654_321);
    assert!(p.mul_scalar(&s1.add_scalar(&s2)) == p.mul_scalar(&s1).add_point(&p.mul_scalar(&s2)));
}

#[test]
fn cloned_generator_gives_separately_owned_equal_points() {
    let g: G = Point::generator();
    let h = g.clone();
    let a = h.to_point();
    let b = h.to_point();
    assert!(a == b);
    assert!(!std::ptr::eq(a.as_raw(), b.as_raw()));
    assert!(!std::ptr::eq(a.as_raw(), g.as_raw()));
}

#[test]
fn generator_is_shareable_across_threads() {
    assert_send_sync::<G>();
    assert_send_sync::<P>();
    let views: Vec<P> = (0..16).map(|_| Point::<Mersenne61>::generator().as_point()).collect();
    for v in &views {
        assert!(*v == views[0]);
        assert!(std::ptr::eq(v.as_raw(), views[0].as_raw()));
    }
}

#[test]
fn seven_times_generator_is_sevenfold_sum() {
    let s = S::from_u64(7);
    let g: G = Point::generator();
    let gp = g.as_point();
    let mut sum = gp.clone();
    for _ in 1..7 {
        sum = sum.add_point(&gp);
    }
    assert!(g.mul_scalar(&s) == sum);
    assert!(gp.mul_scalar(&s) == sum);
}

#[test]
fn group_order_times_generator_is_identity() {
    let s = S::from_u64(MERSENNE61_ORDER);
    assert!(s.is_zero());
    let g: G = Point::generator();
    assert!(g.mul_scalar(&s).is_zero());
    assert!(g.to_point().mul_scalar(&s) == P::zero());
}

#[test]
fn scalar_arithmetic_is_modular() {
    assert!(S::from_u64(MERSENNE61_ORDER + 5) == S::from_u64(5));
    assert!(S::from_u64(u64::MAX) == S::from_u64(7));
    let a = S::from_u64(MERSENNE61_ORDER - 1);
    assert!(a.add_scalar(&S::from_u64(2)) == S::from_u64(1));
    assert!(a.mul_scalar(&a) == S::from_u64(1));
    assert!(S::from_u64(6).mul_scalar(&S::from_u64(7)) == S::from_u64(42));
    assert!(S::zero().is_zero());
    assert!(!S::from_u64(3).is_zero());
    assert!(a.clone() == a);
}

#[test]
fn variable_base_multiplication_is_exact() {
    let p = point_of(5);
    assert!(p.mul_scalar(&S::from_u64(3)) == point_of(15));
    assert!(p.mul_scalar(&S::zero()).is_zero());
    assert!(p != point_of(6));
    assert!(!p.is_zero());
    assert!(p.clone() == p);
}
