use crate::bits::{canonical_bits_spec, cmp_int, raw_double_bits, FloatBits};
use std::cmp::Ordering;
use std::hash::{Hash, Hasher};
use vstd::prelude::*;

verus! {

/// Hashes one word into a hasher.
///
/// Relies on `<u64 as Hash>::hash`, which feeds the word to the hasher.
#[verifier::external_body]
pub(crate) fn hash_word<H: Hasher>(word: u64, state: &mut H) {
    word.hash(state)
}

/// A float, given by its bit pattern, with a total order and a hash.
///
/// NaN sorts as greater than every other value and equal to itself, in
/// contradiction with IEEE-754.
#[derive(Debug, Default, Clone, Copy)]
pub struct OrderedFloat<T: FloatBits>(pub T);

/// The total order: the IEEE order on non-NaN values, NaN above every
/// other value and equal to NaN.
pub open spec fn total_cmp_spec<T: FloatBits>(a: T, b: T) -> Ordering {
    if a.is_nan_spec() {
        if b.is_nan_spec() {
            Ordering::Equal
        } else {
            Ordering::Greater
        }
    } else if b.is_nan_spec() {
        Ordering::Less
    } else {
        cmp_int(a.key_spec(), b.key_spec())
    }
}

/// Equality under the total order: both NaN, or neither NaN and numerically
/// equal (so the two zeros are equal).
pub open spec fn total_eq_spec<T: FloatBits>(a: T, b: T) -> bool {
    total_cmp_spec(a, b) == Ordering::Equal
}

/// The order of `OrderedFloat` is a total order. Of `a < b`, `a == b` and
/// `b < a` exactly one holds; it is reflexive and transitive, in its strict
/// part and in its equality; NaN equals NaN, is not below NaN, and is above
/// every other value.
pub proof fn lemma_total_order<T: FloatBits>(a: T, b: T, c: T)
    ensures
        total_cmp_spec(a, b) == Ordering::Less <==> total_cmp_spec(b, a) == Ordering::Greater,
        total_cmp_spec(a, b) == Ordering::Equal <==> total_cmp_spec(b, a) == Ordering::Equal,
        total_cmp_spec(a, b) == Ordering::Greater <==> total_cmp_spec(b, a) == Ordering::Less,
        total_cmp_spec(a, a) == Ordering::Equal,
        total_cmp_spec(a, b) == Ordering::Less && total_cmp_spec(b, c) == Ordering::Less
            ==> total_cmp_spec(a, c) == Ordering::Less,
        total_eq_spec(a, b) && total_eq_spec(b, c) ==> total_eq_spec(a, c),
        a.is_nan_spec() && b.is_nan_spec() ==> total_eq_spec(a, b) && total_cmp_spec(a, b)
            != Ordering::Less,
        a.is_nan_spec() && !b.is_nan_spec() ==> total_cmp_spec(a, b) == Ordering::Greater,
{
}

/// Values that are equal under the total order hash alike: both zeros hash
/// as one word, and so do all NaNs, whatever their sign and payload.
pub proof fn lemma_equal_hash_equal<T: FloatBits>(a: OrderedFloat<T>, b: OrderedFloat<T>)
    requires
        total_eq_spec(a.0, b.0),
    ensures
        canonical_bits_spec(a.0) == canonical_bits_spec(b.0),
{
    if !a.0.is_nan_spec() {
        if a.0.key_spec() == 0 {
            a.0.lemma_zero_mantissa();
            b.0.lemma_zero_mantissa();
        } else {
            T::lemma_key_determines(a.0, b.0);
        }
    }
}

impl<T: FloatBits> OrderedFloat<T> {
    /// Gets the value out.
    pub fn into_inner(self) -> (r: T)
        ensures
            r == self.0,
    {
        self.0
    }

    /// Borrows the wrapped value.
    pub fn as_ref(&self) -> (r: &T)
        ensures
            *r == self.0,
    {
        &self.0
    }

    /// Compares under the total order.
    pub fn cmp(&self, other: &Self) -> (r: Ordering)
        ensures
            r == total_cmp_spec(self.0, other.0),
    {
        if self.0.is_nan() {
            if other.0.is_nan() {
                Ordering::Equal
            } else {
                Ordering::Greater
            }
        } else if other.0.is_nan() {
            Ordering::Less
        } else {
            self.0.compare_numeric(&other.0)
        }
    }

    /// The word that the value is hashed as.
    pub fn hash_bits(&self) -> (r: u64)
        ensures
            r == canonical_bits_spec(self.0),
    {
        raw_double_bits(&self.0)
    }
}

impl<T: FloatBits> PartialEq for OrderedFloat<T> {
    fn eq(&self, other: &Self) -> (r: bool) {
        if self.0.is_nan() {
            other.0.is_nan()
        } else if other.0.is_nan() {
            false
        } else {
            match self.0.compare_numeric(&other.0) {
                Ordering::Equal => true,
                _ => false,
            }
        }
    }
}

impl<T: FloatBits> vstd::std_specs::cmp::PartialEqSpecImpl for OrderedFloat<T> {
    open spec fn obeys_eq_spec() -> bool {
        true
    }

    open spec fn eq_spec(&self, other: &Self) -> bool {
        total_eq_spec(self.0, other.0)
    }
}

impl<T: FloatBits> Eq for OrderedFloat<T> {

}

impl<T: FloatBits> PartialOrd for OrderedFloat<T> {
    fn partial_cmp(&self, other: &Self) -> (r: Option<Ordering>) {
        Some(self.cmp(other))
    }
}

impl<T: FloatBits> vstd::std_specs::cmp::PartialOrdSpecImpl for OrderedFloat<T> {
    open spec fn obeys_partial_cmp_spec() -> bool {
        true
    }

    open spec fn partial_cmp_spec(&self, other: &Self) -> Option<Ordering> {
        Some(total_cmp_spec(self.0, other.0))
    }
}

impl<T: FloatBits> Hash for OrderedFloat<T> {
    fn hash<H: Hasher>(&self, state: &mut H) {
        hash_word(self.hash_bits(), state)
    }
}

impl<T: FloatBits> From<T> for OrderedFloat<T> {
    fn from(val: T) -> (r: Self) {
        OrderedFloat(val)
    }
}

impl<T: FloatBits> vstd::std_specs::convert::FromSpecImpl<T> for OrderedFloat<T> {
    open spec fn obeys_from_spec() -> bool {
        true
    }

    open spec fn from_spec(val: T) -> Self {
        OrderedFloat(val)
    }
}

} // verus!
