//! Wrappers that give IEEE-754 floating-point values a total order and a hash
//! consistent with equality.
//!
//! A float is carried by its bit pattern (`u64` for a double, `u32` for a
//! single), so that every property of the wrappers is stated and proved over
//! integers.
mod bits;
mod error;
mod not_nan;
mod ordered;

pub use bits::{
    canonical_bits_spec, cmp_int, lemma_cross_width, normalize_subnormal, pack_canonical,
    raw_double_bits, widen_spec, widen_to_double, FloatBits,
};
pub use error::{FloatIsNaN, ParseNotNaNError};
pub use not_nan::{
    difference_is_nan, lemma_division_by_zero, lemma_numeric_equal_hash_equal, product_is_nan,
    quotient_is_nan, remainder_is_nan, sum_is_nan, NotNaN,
};
pub use ordered::{
    lemma_equal_hash_equal, lemma_total_order, total_cmp_spec, total_eq_spec, OrderedFloat,
};
