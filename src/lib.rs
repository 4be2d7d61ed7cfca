mod generator;
mod laws;
mod mersenne61;
mod point;
mod scalar;
mod traits;

pub use generator::Generator;
pub use laws::{
    lemma_add_associative, lemma_add_commutative, lemma_add_neg_is_identity,
    lemma_fixed_base_matches_variable_base, lemma_generator_views_agree,
    lemma_mul_distributes_over_scalar_add,
};
pub use mersenne61::{Mersenne61, Mersenne61Point, Mersenne61Scalar, MERSENNE61_ORDER};
pub use point::{add_log, mul_log, neg_log, Point};
pub use scalar::Scalar;
pub use traits::Curve;
