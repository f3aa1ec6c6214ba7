use crate::bits::{canonical_bits_spec, cmp_int, raw_double_bits, FloatBits};
use crate::error::{FloatIsNaN, ParseNotNaNError};
use crate::ordered::hash_word;
use std::cmp::Ordering;
use std::hash::{Hash, Hasher};
use vstd::prelude::*;

verus! {

/// A float, given by its bit pattern, that is never NaN; ordered and hashed
/// as a number.
#[derive(Debug, Copy)]
pub struct NotNaN<T: FloatBits>(T);

impl<T: FloatBits> View for NotNaN<T> {
    type V = T;

    closed spec fn view(&self) -> T {
        self.0
    }
}

impl<T: FloatBits> NotNaN<T> {
    #[verifier::type_invariant]
    spec fn never_nan(self) -> bool {
        !self.0.is_nan_spec()
    }

    /// Makes a `NotNaN`, or fails with `FloatIsNaN` where `val` is a NaN.
    pub fn new(val: T) -> (r: Result<Self, FloatIsNaN>)
        ensures
            r is Err <==> val.is_nan_spec(),
            r matches Ok(n) ==> n@ == val,
    {
        if val.is_nan() {
            Err(FloatIsNaN)
        } else {
            Ok(NotNaN(val))
        }
    }

    /// Makes a `NotNaN` from a value that the caller has shown is no NaN;
    /// nothing is checked at run time.
    pub fn unchecked_new(val: T) -> (r: Self)
        requires
            !val.is_nan_spec(),
        ensures
            r@ == val,
    {
        NotNaN(val)
    }

    /// Gets the value out.
    pub fn into_inner(self) -> (r: T)
        ensures
            r == self@,
            !r.is_nan_spec(),
    {
        proof {
            use_type_invariant(&self);
        }
        self.0
    }

    /// Borrows the wrapped value.
    pub fn as_ref(&self) -> (r: &T)
        ensures
            *r == self@,
            !r.is_nan_spec(),
    {
        proof {
            use_type_invariant(self);
        }
        &self.0
    }

    /// Compares as numbers, IEEE-754's order.
    pub fn cmp(&self, other: &Self) -> (r: Ordering)
        ensures
            r == cmp_int(self@.key_spec(), other@.key_spec()),
    {
        proof {
            use_type_invariant(self);
            use_type_invariant(other);
        }
        self.0.compare_numeric(&other.0)
    }

    /// The word that the value is hashed as.
    pub fn hash_bits(&self) -> (r: u64)
        ensures
            r == canonical_bits_spec(self@),
    {
        raw_double_bits(&self.0)
    }

    /// Whether `self + other` would be NaN.
    pub fn add_yields_nan(&self, other: &Self) -> (r: bool)
        ensures
            r == sum_is_nan(self@, other@),
    {
        self.0.is_infinite() && other.0.is_infinite() && self.0.is_sign_negative()
            != other.0.is_sign_negative()
    }

    /// Whether `self - other` would be NaN.
    pub fn sub_yields_nan(&self, other: &Self) -> (r: bool)
        ensures
            r == difference_is_nan(self@, other@),
    {
        self.0.is_infinite() && other.0.is_infinite() && self.0.is_sign_negative()
            == other.0.is_sign_negative()
    }

    /// Whether `self * other` would be NaN.
    pub fn mul_yields_nan(&self, other: &Self) -> (r: bool)
        ensures
            r == product_is_nan(self@, other@),
    {
        (self.0.is_zero() && other.0.is_infinite()) || (self.0.is_infinite() && other.0.is_zero())
    }

    /// Whether `self / other` would be NaN.
    pub fn div_yields_nan(&self, other: &Self) -> (r: bool)
        ensures
            r == quotient_is_nan(self@, other@),
    {
        (self.0.is_zero() && other.0.is_zero()) || (self.0.is_infinite() && other.0.is_infinite())
    }

    /// Whether `self % other` would be NaN.
    pub fn rem_yields_nan(&self, other: &Self) -> (r: bool)
        ensures
            r == remainder_is_nan(self@, other@),
    {
        other.0.is_zero() || self.0.is_infinite()
    }

    /// The negation, which is never NaN.
    pub fn neg(self) -> (r: Self)
        ensures
            r@ == self@.negate_spec(),
            r@.key_spec() == -self@.key_spec(),
    {
        proof {
            use_type_invariant(&self);
            self.0.lemma_sign_ops();
        }
        NotNaN(self.0.negate())
    }

    /// The absolute value.
    pub fn abs(&self) -> (r: Self)
        ensures
            r@ == self@.abs_spec(),
            !r@.is_sign_negative_spec(),
            r@.key_spec() == if self@.key_spec() < 0 {
                -self@.key_spec()
            } else {
                self@.key_spec()
            },
    {
        proof {
            use_type_invariant(self);
            self.0.lemma_sign_ops();
        }
        NotNaN(self.0.abs())
    }

    /// Whether the value is a zero of either sign.
    pub fn is_zero(&self) -> (r: bool)
        ensures
            r == (self@.key_spec() == 0),
    {
        self.0.is_zero()
    }

    /// `+0.0`, the additive identity.
    pub fn zero() -> (r: Self)
        ensures
            r@ == T::zero_spec(),
    {
        proof {
            T::zero_spec().lemma_constants();
        }
        NotNaN(T::zero())
    }

    /// `1.0`, the multiplicative identity.
    pub fn one() -> (r: Self)
        ensures
            r@ == T::one_spec(),
    {
        proof {
            T::zero_spec().lemma_constants();
        }
        NotNaN(T::one())
    }

    /// The least finite value.
    pub fn min_value() -> (r: Self)
        ensures
            r@ == T::min_spec(),
    {
        proof {
            T::zero_spec().lemma_constants();
        }
        NotNaN(T::min_value())
    }

    /// The greatest finite value.
    pub fn max_value() -> (r: Self)
        ensures
            r@ == T::max_spec(),
    {
        proof {
            T::zero_spec().lemma_constants();
        }
        NotNaN(T::max_value())
    }

    /// `1.0` where the sign bit is clear (`+0.0` and positive infinity
    /// included), `-1.0` where it is set.
    pub fn signum(&self) -> (r: Self)
        ensures
            r@ == self@.signum_spec(),
            r@ == if self@.is_sign_negative_spec() {
                T::one_spec().negate_spec()
            } else {
                T::one_spec()
            },
    {
        proof {
            self.0.lemma_constants();
            T::one_spec().lemma_sign_ops();
        }
        NotNaN(self.0.signum())
    }

    /// Whether the sign bit is clear: true of `+0.0` and positive infinity.
    pub fn is_positive(&self) -> (r: bool)
        ensures
            r == !self@.is_sign_negative_spec(),
    {
        !self.0.is_sign_negative()
    }

    /// Whether the sign bit is set: true of `-0.0` and negative infinity.
    pub fn is_negative(&self) -> (r: bool)
        ensures
            r == self@.is_sign_negative_spec(),
    {
        self.0.is_sign_negative()
    }

    /// Finishes a parse: a parsed value becomes a `NotNaN` unless it is a
    /// NaN, and the parser's error is passed on.
    pub fn from_parsed<E>(parsed: Result<T, E>) -> (r: Result<Self, ParseNotNaNError<E>>)
        ensures
            match parsed {
                Err(e) => r == Err::<Self, _>(ParseNotNaNError::ParseFloatError(e)),
                Ok(v) => if v.is_nan_spec() {
                    r == Err::<Self, _>(ParseNotNaNError::<E>::IsNaN)
                } else {
                    r matches Ok(n) && n@ == v
                },
            },
    {
        match parsed {
            Err(e) => Err(ParseNotNaNError::ParseFloatError(e)),
            Ok(v) => match NotNaN::new(v) {
                Ok(n) => Ok(n),
                Err(_) => Err(ParseNotNaNError::IsNaN),
            },
        }
    }
}

/// IEEE-754 gives NaN for `a + b` on non-NaN operands exactly when they are
/// infinities of opposite signs.
pub open spec fn sum_is_nan<T: FloatBits>(a: T, b: T) -> bool {
    a.is_infinite_spec() && b.is_infinite_spec() && a.is_sign_negative_spec()
        != b.is_sign_negative_spec()
}

/// `a - b` is NaN exactly when both are infinities of one sign.
pub open spec fn difference_is_nan<T: FloatBits>(a: T, b: T) -> bool {
    a.is_infinite_spec() && b.is_infinite_spec() && a.is_sign_negative_spec()
        == b.is_sign_negative_spec()
}

/// `a * b` is NaN exactly when one is a zero and the other an infinity.
pub open spec fn product_is_nan<T: FloatBits>(a: T, b: T) -> bool {
    (a.key_spec() == 0 && b.is_infinite_spec()) || (a.is_infinite_spec() && b.key_spec() == 0)
}

/// `a / b` is NaN exactly when both are zeros or both are infinities.
pub open spec fn quotient_is_nan<T: FloatBits>(a: T, b: T) -> bool {
    (a.key_spec() == 0 && b.key_spec() == 0) || (a.is_infinite_spec() && b.is_infinite_spec())
}

/// Division by a zero gives NaN exactly when the dividend is a zero too; any
/// other dividend gives a signed infinity.
pub proof fn lemma_division_by_zero<T: FloatBits>(a: T, b: T)
    requires
        !a.is_nan_spec(),
        !b.is_nan_spec(),
        b.key_spec() == 0,
    ensures
        quotient_is_nan(a, b) <==> a.key_spec() == 0,
{
    a.lemma_sign_ops();
    b.lemma_sign_ops();
}

/// `a % b` is NaN exactly when `b` is a zero or `a` an infinity.
pub open spec fn remainder_is_nan<T: FloatBits>(a: T, b: T) -> bool {
    b.key_spec() == 0 || a.is_infinite_spec()
}

/// Values that are equal as numbers hash alike: both zeros hash as one word.
pub proof fn lemma_numeric_equal_hash_equal<T: FloatBits>(a: NotNaN<T>, b: NotNaN<T>)
    requires
        !a@.is_nan_spec(),
        !b@.is_nan_spec(),
        a@.key_spec() == b@.key_spec(),
    ensures
        canonical_bits_spec(a@) == canonical_bits_spec(b@),
{
    if a@.key_spec() == 0 {
        a@.lemma_zero_mantissa();
        b@.lemma_zero_mantissa();
    } else {
        T::lemma_key_determines(a@, b@);
    }
}

impl<T: FloatBits> Clone for NotNaN<T> {
    fn clone(&self) -> (r: Self)
        ensures
            r@ == self@,
    {
        *self
    }
}

impl<T: FloatBits> PartialEq for NotNaN<T> {
    fn eq(&self, other: &Self) -> (r: bool) {
        match self.cmp(other) {
            Ordering::Equal => true,
            _ => false,
        }
    }
}

impl<T: FloatBits> vstd::std_specs::cmp::PartialEqSpecImpl for NotNaN<T> {
    open spec fn obeys_eq_spec() -> bool {
        true
    }

    open spec fn eq_spec(&self, other: &Self) -> bool {
        self@.key_spec() == other@.key_spec()
    }
}

impl<T: FloatBits> Eq for NotNaN<T> {

}

impl<T: FloatBits> PartialOrd for NotNaN<T> {
    fn partial_cmp(&self, other: &Self) -> (r: Option<Ordering>) {
        Some(self.cmp(other))
    }
}

impl<T: FloatBits> vstd::std_specs::cmp::PartialOrdSpecImpl for NotNaN<T> {
    open spec fn obeys_partial_cmp_spec() -> bool {
        true
    }

    open spec fn partial_cmp_spec(&self, other: &Self) -> Option<Ordering> {
        Some(cmp_int(self@.key_spec(), other@.key_spec()))
    }
}

impl<T: FloatBits> Hash for NotNaN<T> {
    fn hash<H: Hasher>(&self, state: &mut H) {
        hash_word(self.hash_bits(), state)
    }
}

} // verus!
