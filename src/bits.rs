use std::cmp::Ordering;
use vstd::prelude::*;

verus! {

/// Mask of the sign bit of the 64-bit IEEE layout.
pub const SIGN_MASK: u64 = 0x8000000000000000u64;

/// Mask of the exponent field of the 64-bit IEEE layout.
pub const EXP_MASK: u64 = 0x7ff0000000000000u64;

/// Mask of the mantissa field of the 64-bit IEEE layout.
pub const MAN_MASK: u64 = 0x000fffffffffffffu64;

/// The pattern that every NaN hashes as.
pub const CANONICAL_NAN_BITS: u64 = 0x7ff8000000000000u64;

/// The pattern that both zeros hash as.
pub const CANONICAL_ZERO_BITS: u64 = 0x0u64;

/// Everything but the sign bit of a double.
pub const MAG_MASK_64: u64 = 0x7fffffffffffffffu64;

/// The magnitude of a double's positive infinity.
pub const INF_MAG_64: u64 = 0x7ff0000000000000u64;

/// Everything but the sign bit of a single.
pub const MAG_MASK_32: u32 = 0x7fffffffu32;

/// The magnitude of a single's positive infinity.
pub const INF_MAG_32: u32 = 0x7f800000u32;

/// Three-way comparison of two integers.
pub open spec fn cmp_int(a: int, b: int) -> Ordering {
    if a < b {
        Ordering::Less
    } else if a == b {
        Ordering::Equal
    } else {
        Ordering::Greater
    }
}

/// The bit pattern of a floating-point value of one width.
///
/// IEEE-754 orders the non-NaN values of a width exactly as the integers
/// `+m` and `-m` order, where `m` is the pattern without its sign bit and the
/// sign is taken from the sign bit: `key_spec` is that integer. Both zeros
/// have key 0; every other non-NaN value has a key of its own.
pub trait FloatBits: Sized + Copy {
    /// The pattern encodes a NaN (any sign, any payload).
    spec fn is_nan_spec(self) -> bool;

    /// The position of a non-NaN pattern on the number line.
    spec fn key_spec(self) -> int;

    /// The sign bit is set.
    spec fn is_sign_negative_spec(self) -> bool;

    /// The pattern encodes an infinity of either sign.
    spec fn is_infinite_spec(self) -> bool;

    /// The pattern with its sign bit flipped: IEEE-754 negation.
    spec fn negate_spec(self) -> Self;

    /// The pattern with its sign bit cleared: IEEE-754 absolute value.
    spec fn abs_spec(self) -> Self;

    /// `+0.0`.
    spec fn zero_spec() -> Self;

    /// `1.0`.
    spec fn one_spec() -> Self;

    /// The greatest finite value.
    spec fn max_spec() -> Self;

    /// The least finite value, the negation of the greatest.
    spec fn min_spec() -> Self;

    /// `1.0` for a clear sign bit, `-1.0` for a set one.
    spec fn signum_spec(self) -> Self;

    /// The decomposition (mantissa, exponent, sign) of the value as a
    /// double, as `num_traits::Float::integer_decode` gives it for `f64`. A
    /// single is decoded as the double of the same value, so that both widths
    /// share one layout.
    spec fn decode_spec(self) -> (u64, i16, i8);

    /// Whether the pattern encodes a NaN.
    fn is_nan(&self) -> (r: bool)
        ensures
            r == self.is_nan_spec(),
    ;

    /// Whether the sign bit is set.
    fn is_sign_negative(&self) -> (r: bool)
        ensures
            r == self.is_sign_negative_spec(),
    ;

    /// Whether the pattern encodes an infinity.
    fn is_infinite(&self) -> (r: bool)
        ensures
            r == self.is_infinite_spec(),
    ;

    /// Whether the pattern encodes a zero of either sign.
    fn is_zero(&self) -> (r: bool)
        ensures
            r == (self.key_spec() == 0),
    ;

    /// Flips the sign bit.
    fn negate(&self) -> (r: Self)
        ensures
            r == self.negate_spec(),
    ;

    /// Clears the sign bit.
    fn abs(&self) -> (r: Self)
        ensures
            r == self.abs_spec(),
    ;

    /// `+0.0`.
    fn zero() -> (r: Self)
        ensures
            r == Self::zero_spec(),
    ;

    /// `1.0`.
    fn one() -> (r: Self)
        ensures
            r == Self::one_spec(),
    ;

    /// The greatest finite value.
    fn max_value() -> (r: Self)
        ensures
            r == Self::max_spec(),
    ;

    /// The least finite value.
    fn min_value() -> (r: Self)
        ensures
            r == Self::min_spec(),
    ;

    /// `1.0` or `-1.0`, by the sign bit.
    fn signum(&self) -> (r: Self)
        ensures
            r == self.signum_spec(),
    ;

    /// Compares two non-NaN values as IEEE-754 does.
    fn compare_numeric(&self, other: &Self) -> (r: Ordering)
        requires
            !self.is_nan_spec(),
            !other.is_nan_spec(),
        ensures
            r == cmp_int(self.key_spec(), other.key_spec()),
    ;

    /// Splits the value into mantissa, exponent and sign.
    fn integer_decode(&self) -> (r: (u64, i16, i8))
        ensures
            r == self.decode_spec(),
    ;

    /// The decoded mantissa is zero exactly for the two zeros.
    proof fn lemma_zero_mantissa(self)
        requires
            !self.is_nan_spec(),
        ensures
            (self.decode_spec().0 == 0) <==> (self.key_spec() == 0),
    ;

    /// Negation keeps a value non-NaN, flips its sign and negates its key;
    /// the absolute value keeps it non-NaN, clears its sign and takes the
    /// absolute value of its key.
    proof fn lemma_sign_ops(self)
        requires
            !self.is_nan_spec(),
        ensures
            self.is_infinite_spec() ==> self.key_spec() != 0,
            !self.negate_spec().is_nan_spec(),
            self.negate_spec().is_sign_negative_spec() != self.is_sign_negative_spec(),
            self.negate_spec().key_spec() == -self.key_spec(),
            !self.abs_spec().is_nan_spec(),
            !self.abs_spec().is_sign_negative_spec(),
            self.abs_spec().key_spec() == if self.key_spec() < 0 {
                -self.key_spec()
            } else {
                self.key_spec()
            },
    ;

    /// The constants are numbers: zero has key 0, one is positive, the
    /// bounds are finite and opposite, and a signum is one or its negation.
    proof fn lemma_constants(self)
        ensures
            !Self::zero_spec().is_nan_spec(),
            Self::zero_spec().key_spec() == 0,
            !Self::zero_spec().is_sign_negative_spec(),
            !Self::one_spec().is_nan_spec(),
            Self::one_spec().key_spec() > 0,
            !Self::max_spec().is_nan_spec(),
            !Self::max_spec().is_infinite_spec(),
            !Self::min_spec().is_nan_spec(),
            !Self::min_spec().is_infinite_spec(),
            Self::min_spec() == Self::max_spec().negate_spec(),
            self.signum_spec() == if self.is_sign_negative_spec() {
                Self::one_spec().negate_spec()
            } else {
                Self::one_spec()
            },
    ;

    /// A non-zero key belongs to one pattern only.
    proof fn lemma_key_determines(a: Self, b: Self)
        requires
            !a.is_nan_spec(),
            !b.is_nan_spec(),
            a.key_spec() == b.key_spec(),
            a.key_spec() != 0,
        ensures
            a == b,
    ;
}

impl FloatBits for u64 {
    open spec fn is_nan_spec(self) -> bool {
        self & MAG_MASK_64 > INF_MAG_64
    }

    open spec fn is_sign_negative_spec(self) -> bool {
        self >> 63u64 == 1
    }

    open spec fn is_infinite_spec(self) -> bool {
        self & MAG_MASK_64 == INF_MAG_64
    }

    open spec fn key_spec(self) -> int {
        if self >> 63u64 == 1 {
            -((self & MAG_MASK_64) as int)
        } else {
            (self & MAG_MASK_64) as int
        }
    }

    open spec fn negate_spec(self) -> u64 {
        self ^ SIGN_MASK
    }

    open spec fn abs_spec(self) -> u64 {
        self & MAG_MASK_64
    }

    open spec fn zero_spec() -> u64 {
        0
    }

    open spec fn one_spec() -> u64 {
        0x3ff0000000000000u64
    }

    open spec fn max_spec() -> u64 {
        0x7fefffffffffffffu64
    }

    open spec fn min_spec() -> u64 {
        0xffefffffffffffffu64
    }

    open spec fn signum_spec(self) -> u64 {
        if self >> 63u64 == 1 {
            0xbff0000000000000u64
        } else {
            0x3ff0000000000000u64
        }
    }

    open spec fn decode_spec(self) -> (u64, i16, i8) {
        let sign: i8 = if self >> 63u64 == 0 { 1i8 } else { -1i8 };
        let exp = (self >> 52u64) & 0x7ff;
        let mantissa = if exp == 0 {
            (self & 0xfffffffffffff) << 1u64
        } else {
            (self & 0xfffffffffffff) | 0x10000000000000
        };
        (mantissa, (exp - 1075) as i16, sign)
    }

    fn is_nan(&self) -> (r: bool) {
        *self & MAG_MASK_64 > INF_MAG_64
    }

    fn is_sign_negative(&self) -> (r: bool) {
        *self >> 63u64 == 1
    }

    fn is_infinite(&self) -> (r: bool) {
        *self & MAG_MASK_64 == INF_MAG_64
    }

    fn is_zero(&self) -> (r: bool) {
        *self & MAG_MASK_64 == 0
    }

    fn negate(&self) -> (r: u64) {
        *self ^ SIGN_MASK
    }

    fn abs(&self) -> (r: u64) {
        *self & MAG_MASK_64
    }

    fn zero() -> (r: u64) {
        0
    }

    fn one() -> (r: u64) {
        0x3ff0000000000000u64
    }

    fn max_value() -> (r: u64) {
        0x7fefffffffffffffu64
    }

    fn min_value() -> (r: u64) {
        0xffefffffffffffffu64
    }

    fn signum(&self) -> (r: u64) {
        if *self >> 63u64 == 1 {
            0xbff0000000000000u64
        } else {
            0x3ff0000000000000u64
        }
    }

    fn compare_numeric(&self, other: &u64) -> (r: Ordering) {
        let a = *self;
        let b = *other;
        let ka: i128 = if a >> 63u64 == 1 {
            -((a & MAG_MASK_64) as i128)
        } else {
            (a & MAG_MASK_64) as i128
        };
        let kb: i128 = if b >> 63u64 == 1 {
            -((b & MAG_MASK_64) as i128)
        } else {
            (b & MAG_MASK_64) as i128
        };
        if ka < kb {
            Ordering::Less
        } else if ka == kb {
            Ordering::Equal
        } else {
            Ordering::Greater
        }
    }

    fn integer_decode(&self) -> (r: (u64, i16, i8)) {
        let bits = *self;
        let sign: i8 = if bits >> 63u64 == 0 { 1 } else { -1 };
        let exp_field: u64 = (bits >> 52u64) & 0x7ff;
        assert(exp_field <= 0x7ff) by (bit_vector)
            requires exp_field == (bits >> 52u64) & 0x7ff;
        let mantissa: u64 = if exp_field == 0 {
            (bits & 0xfffffffffffff) << 1u64
        } else {
            (bits & 0xfffffffffffff) | 0x10000000000000
        };
        let exponent: i16 = (exp_field as i16) - 1075;
        (mantissa, exponent, sign)
    }

    proof fn lemma_zero_mantissa(self) {
        let b = self;
        assert((((b >> 52u64) & 0x7ff == 0) ==> (((b & 0xfffffffffffff) << 1u64 == 0) <==> (b
            & MAG_MASK_64 == 0))) && (((b >> 52u64) & 0x7ff != 0) ==> ((b & 0xfffffffffffff)
            | 0x10000000000000 != 0 && b & MAG_MASK_64 != 0))) by (bit_vector);
    }

    proof fn lemma_sign_ops(self) {
        let x = self;
        assert((x ^ SIGN_MASK) & MAG_MASK_64 == x & MAG_MASK_64 && (x ^ SIGN_MASK) >> 63u64 != x >> 63u64 && (x & MAG_MASK_64) & MAG_MASK_64
            == x & MAG_MASK_64 && (x & MAG_MASK_64) >> 63u64 == 0 && (x >> 63u64 == 0 || x >> 63u64 == 1) && ((x ^ SIGN_MASK) >> 63u64 == 0
            || (x ^ SIGN_MASK) >> 63u64 == 1)) by (bit_vector);
    }

    proof fn lemma_constants(self) {
        assert(0u64 & MAG_MASK_64 == 0 && (0u64 >> 63u64) == 0 && 0x3ff0000000000000u64 & MAG_MASK_64 <= INF_MAG_64 && 0x3ff0000000000000u64 >> 63u64 == 0 && 0x3ff0000000000000u64 & MAG_MASK_64 > 0
            && 0x7fefffffffffffffu64 & MAG_MASK_64 < INF_MAG_64 && 0xffefffffffffffffu64 & MAG_MASK_64 < INF_MAG_64 && 0xffefffffffffffffu64 == 0x7fefffffffffffffu64 ^ SIGN_MASK && 0xbff0000000000000u64 == 0x3ff0000000000000u64 ^ SIGN_MASK) by (bit_vector);
    }

    proof fn lemma_key_determines(a: u64, b: u64) {
        assert((a >> 63u64 == b >> 63u64 && a & MAG_MASK_64 == b & MAG_MASK_64) ==> a == b)
            by (bit_vector);
        assert(a >> 63u64 == 0 || a >> 63u64 == 1) by (bit_vector);
        assert(b >> 63u64 == 0 || b >> 63u64 == 1) by (bit_vector);
    }
}

impl FloatBits for u32 {
    open spec fn is_nan_spec(self) -> bool {
        self & MAG_MASK_32 > INF_MAG_32
    }

    open spec fn is_sign_negative_spec(self) -> bool {
        self >> 31u32 == 1
    }

    open spec fn is_infinite_spec(self) -> bool {
        self & MAG_MASK_32 == INF_MAG_32
    }

    open spec fn key_spec(self) -> int {
        if self >> 31u32 == 1 {
            -((self & MAG_MASK_32) as int)
        } else {
            (self & MAG_MASK_32) as int
        }
    }

    open spec fn negate_spec(self) -> u32 {
        self ^ 0x80000000u32
    }

    open spec fn abs_spec(self) -> u32 {
        self & MAG_MASK_32
    }

    open spec fn zero_spec() -> u32 {
        0
    }

    open spec fn one_spec() -> u32 {
        0x3f800000u32
    }

    open spec fn max_spec() -> u32 {
        0x7f7fffffu32
    }

    open spec fn min_spec() -> u32 {
        0xff7fffffu32
    }

    open spec fn signum_spec(self) -> u32 {
        if self >> 31u32 == 1 {
            0xbf800000u32
        } else {
            0x3f800000u32
        }
    }

    open spec fn decode_spec(self) -> (u64, i16, i8) {
        widen_spec(self).decode_spec()
    }

    fn is_nan(&self) -> (r: bool) {
        *self & MAG_MASK_32 > INF_MAG_32
    }

    fn is_sign_negative(&self) -> (r: bool) {
        *self >> 31u32 == 1
    }

    fn is_infinite(&self) -> (r: bool) {
        *self & MAG_MASK_32 == INF_MAG_32
    }

    fn is_zero(&self) -> (r: bool) {
        *self & MAG_MASK_32 == 0
    }

    fn negate(&self) -> (r: u32) {
        *self ^ 0x80000000u32
    }

    fn abs(&self) -> (r: u32) {
        *self & MAG_MASK_32
    }

    fn zero() -> (r: u32) {
        0
    }

    fn one() -> (r: u32) {
        0x3f800000u32
    }

    fn max_value() -> (r: u32) {
        0x7f7fffffu32
    }

    fn min_value() -> (r: u32) {
        0xff7fffffu32
    }

    fn signum(&self) -> (r: u32) {
        if *self >> 31u32 == 1 {
            0xbf800000u32
        } else {
            0x3f800000u32
        }
    }

    fn compare_numeric(&self, other: &u32) -> (r: Ordering) {
        let a = *self;
        let b = *other;
        let ka: i64 = if a >> 31u32 == 1 {
            -((a & MAG_MASK_32) as i64)
        } else {
            (a & MAG_MASK_32) as i64
        };
        let kb: i64 = if b >> 31u32 == 1 {
            -((b & MAG_MASK_32) as i64)
        } else {
            (b & MAG_MASK_32) as i64
        };
        if ka < kb {
            Ordering::Less
        } else if ka == kb {
            Ordering::Equal
        } else {
            Ordering::Greater
        }
    }

    fn integer_decode(&self) -> (r: (u64, i16, i8)) {
        widen_to_double(*self).integer_decode()
    }

    proof fn lemma_zero_mantissa(self) {
        lemma_widen(self);
        widen_spec(self).lemma_zero_mantissa();
    }

    proof fn lemma_sign_ops(self) {
        let x = self;
        assert((x ^ 0x80000000u32) & MAG_MASK_32 == x & MAG_MASK_32 && (x ^ 0x80000000u32) >> 31u32 != x >> 31u32 && (x & MAG_MASK_32) & MAG_MASK_32
            == x & MAG_MASK_32 && (x & MAG_MASK_32) >> 31u32 == 0 && (x >> 31u32 == 0 || x >> 31u32 == 1) && ((x ^ 0x80000000u32) >> 31u32 == 0
            || (x ^ 0x80000000u32) >> 31u32 == 1)) by (bit_vector);
    }

    proof fn lemma_constants(self) {
        assert(0u32 & MAG_MASK_32 == 0 && (0u32 >> 31u32) == 0 && 0x3f800000u32 & MAG_MASK_32 <= INF_MAG_32 && 0x3f800000u32 >> 31u32 == 0 && 0x3f800000u32 & MAG_MASK_32 > 0
            && 0x7f7fffffu32 & MAG_MASK_32 < INF_MAG_32 && 0xff7fffffu32 & MAG_MASK_32 < INF_MAG_32 && 0xff7fffffu32 == 0x7f7fffffu32 ^ 0x80000000u32 && 0xbf800000u32 == 0x3f800000u32 ^ 0x80000000u32) by (bit_vector);
    }

    proof fn lemma_key_determines(a: u32, b: u32) {
        assert((a >> 31u32 == b >> 31u32 && a & MAG_MASK_32 == b & MAG_MASK_32) ==> a == b)
            by (bit_vector);
        assert(a >> 31u32 == 0 || a >> 31u32 == 1) by (bit_vector);
        assert(b >> 31u32 == 0 || b >> 31u32 == 1) by (bit_vector);
    }
}

/// Doubles a non-zero subnormal mantissa of a single until its leading bit
/// stands where the hidden bit of a normal single would; also gives the
/// number of doublings.
pub open spec fn normalize_subnormal(m: u32, k: u32) -> (u32, u32)
    decreases 0x1000000 - m,
{
    if m == 0 || m >= 0x800000 {
        (m, k)
    } else {
        normalize_subnormal((m * 2) as u32, (#[verifier::truncate] ((k + 1) as u32)))
    }
}

/// The bit pattern of the double that holds the same value as a single: the
/// sign is kept, the exponent rebiased and the mantissa moved to the top of
/// the double's mantissa field; a subnormal single becomes a normal double;
/// a NaN keeps its payload.
pub open spec fn widen_spec(b: u32) -> u64 {
    let sign = ((b >> 31u32) as u64) << 63u64;
    let e = (b >> 23u32) & 0xff;
    let f = b & 0x7fffff;
    if e == 0xff {
        sign | 0x7ff0000000000000u64 | ((f as u64) << 29u64)
    } else if e != 0 {
        sign | (((e + 896) as u64) << 52u64) | ((f as u64) << 29u64)
    } else if f == 0 {
        sign
    } else {
        let (m, k) = normalize_subnormal(f, 0);
        sign | (((897 - k) as u64) << 52u64) | (((m & 0x7fffff) as u64) << 29u64)
    }
}

proof fn lemma_normalize(m: u32, k: u32)
    requires
        0 < m < 0x1000000,
        m >> k != 0,
        k <= 23,
    ensures
        0x800000 <= normalize_subnormal(m, k).0 < 0x1000000,
        normalize_subnormal(m, k).1 <= 23,
    decreases 0x1000000 - m,
{
    if m < 0x800000 {
        assert(k < 23 && ((m * 2) as u32) >> ((k + 1) as u32) != 0 && (m * 2) as u32 == m * 2)
            by (bit_vector)
            requires
                0 < m < 0x800000,
                m >> k != 0,
                k <= 23,
        ;
        lemma_normalize((m * 2) as u32, (k + 1) as u32);
    }
}

/// Widening keeps NaN as NaN and zero as zero.
proof fn lemma_widen(x: u32)
    ensures
        x.is_nan_spec() <==> widen_spec(x).is_nan_spec(),
        !x.is_nan_spec() ==> (x.key_spec() == 0 <==> widen_spec(x).key_spec() == 0),
{
    let s = ((x >> 31u32) as u64) << 63u64;
    let e = (x >> 23u32) & 0xff;
    let f = x & 0x7fffff;
    let w = widen_spec(x);
    assert(x >> 31u32 == 0 || x >> 31u32 == 1) by (bit_vector);
    assert(w >> 63u64 == 0 || w >> 63u64 == 1) by (bit_vector);
    if e == 0xff {
        assert(w == s | 0x7ff0000000000000u64 | ((f as u64) << 29u64));
        assert(((x & MAG_MASK_32 > INF_MAG_32) <==> ((s | 0x7ff0000000000000u64 | ((f as u64)
            << 29u64)) & MAG_MASK_64 > INF_MAG_64)) && x & MAG_MASK_32 != 0 && (s
            | 0x7ff0000000000000u64 | ((f as u64) << 29u64)) & MAG_MASK_64 != 0) by (bit_vector)
            requires
                s == ((x >> 31u32) as u64) << 63u64,
                e == (x >> 23u32) & 0xff,
                f == x & 0x7fffff,
                e == 0xff,
        ;
    } else if e != 0 {
        assert(w == s | (((e + 896) as u64) << 52u64) | ((f as u64) << 29u64));
        assert(x & MAG_MASK_32 <= INF_MAG_32 && x & MAG_MASK_32 != 0 && (s | (((e + 896) as u64)
            << 52u64) | ((f as u64) << 29u64)) & MAG_MASK_64 <= INF_MAG_64 && (s | (((e
            + 896) as u64) << 52u64) | ((f as u64) << 29u64)) & MAG_MASK_64 != 0) by (bit_vector)
            requires
                s == ((x >> 31u32) as u64) << 63u64,
                e == (x >> 23u32) & 0xff,
                f == x & 0x7fffff,
                e != 0xff,
                e != 0,
        ;
    } else if f == 0 {
        assert(w == s);
        assert(x & MAG_MASK_32 == 0 && s & MAG_MASK_64 == 0) by (bit_vector)
            requires
                s == ((x >> 31u32) as u64) << 63u64,
                e == (x >> 23u32) & 0xff,
                f == x & 0x7fffff,
                e == 0,
                f == 0,
        ;
    } else {
        assert(f >> 0u32 != 0 && f < 0x1000000) by (bit_vector)
            requires
                f == x & 0x7fffff,
                f != 0,
        ;
        lemma_normalize(f, 0);
        let (m, k) = normalize_subnormal(f, 0);
        let ex = (897 - k) as u64;
        assert(874 <= ex <= 897);
        assert(w == s | (ex << 52u64) | (((m & 0x7fffff) as u64) << 29u64));
        assert(x & MAG_MASK_32 <= INF_MAG_32 && x & MAG_MASK_32 != 0 && (s | (ex << 52u64) | (((m
            & 0x7fffff) as u64) << 29u64)) & MAG_MASK_64 <= INF_MAG_64 && (s | (ex << 52u64) | (((m
            & 0x7fffff) as u64) << 29u64)) & MAG_MASK_64 != 0) by (bit_vector)
            requires
                s == ((x >> 31u32) as u64) << 63u64,
                e == (x >> 23u32) & 0xff,
                f == x & 0x7fffff,
                e == 0,
                f != 0,
                874 <= ex <= 897,
        ;
    }
}

/// The pattern of the double that holds the same value as the single `b`.
pub fn widen_to_double(b: u32) -> (r: u64)
    ensures
        r == widen_spec(b),
{
    let sign: u64 = ((b >> 31u32) as u64) << 63u64;
    let e: u32 = (b >> 23u32) & 0xff;
    let f: u32 = b & 0x7fffff;
    assert(e <= 0xff && f <= 0x7fffff) by (bit_vector)
        requires
            e == (b >> 23u32) & 0xff,
            f == b & 0x7fffff,
    ;
    if e == 0xff {
        sign | 0x7ff0000000000000u64 | ((f as u64) << 29u64)
    } else if e != 0 {
        sign | (((e as u64) + 896) << 52u64) | ((f as u64) << 29u64)
    } else if f == 0 {
        sign
    } else {
        assert(f >> 0u32 != 0) by (bit_vector)
            requires
                f != 0,
        ;
        let mut m: u32 = f;
        let mut k: u32 = 0;
        while m < 0x800000
            invariant
                0 < m < 0x1000000,
                m >> k != 0,
                k <= 23,
                normalize_subnormal(m, k) == normalize_subnormal(f, 0),
            decreases 0x1000000 - m,
        {
            assert(k < 23 && ((m * 2) as u32) >> ((k + 1) as u32) != 0 && m * 2 < 0x1000000)
                by (bit_vector)
                requires
                    0 < m < 0x800000,
                    m >> k != 0,
                    k <= 23,
            ;
            m = m * 2;
            k = k + 1;
        }
        sign | (((897 - k) as u64) << 52u64) | (((m & 0x7fffff) as u64) << 29u64)
    }
}

/// A single hashes as the double of the same value: both widths share one
/// canonical layout.
pub proof fn lemma_cross_width(x: u32)
    ensures
        canonical_bits_spec(x) == canonical_bits_spec(widen_spec(x)),
{
    lemma_widen(x);
}

/// The canonical 64-bit word that a value is hashed as: one word for every
/// NaN, one for both zeros, and otherwise the decoded sign, exponent and
/// mantissa packed into the 64-bit IEEE layout.
pub open spec fn canonical_bits_spec<F: FloatBits>(f: F) -> u64 {
    if f.is_nan_spec() {
        CANONICAL_NAN_BITS
    } else {
        let (man, exp, sign) = f.decode_spec();
        if man == 0 {
            CANONICAL_ZERO_BITS
        } else {
            pack_canonical(man, exp, sign)
        }
    }
}

/// Packs a decoded mantissa, exponent and sign into the 64-bit IEEE layout:
/// the exponent is taken as a 16-bit two's-complement word, of which the
/// exponent field keeps the low 11 bits; the sign bit is set for a positive
/// sign.
pub open spec fn pack_canonical(man: u64, exp: i16, sign: i8) -> u64 {
    let sign_bit: u64 = if sign > 0 { 1u64 } else { 0u64 };
    let exp_bits: u64 = (if exp < 0 { exp as int + 65536 } else { exp as int }) as u64;
    (man & MAN_MASK) | ((exp_bits << 52u64) & EXP_MASK) | ((sign_bit << 63u64)
        & SIGN_MASK)
}

/// The canonical 64-bit word of a value, used by both wrappers' hashes.
pub fn raw_double_bits<F: FloatBits>(f: &F) -> (r: u64)
    ensures
        r == canonical_bits_spec(*f),
{
    if f.is_nan() {
        return CANONICAL_NAN_BITS;
    }
    let (man, exp, sign) = f.integer_decode();
    if man == 0 {
        return CANONICAL_ZERO_BITS;
    }
    let exp_u64: u64 = if exp < 0 { (exp as i32 + 65536) as u64 } else { exp as u64 };
    let sign_u64: u64 = if sign > 0 { 1 } else { 0 };
    (man & MAN_MASK) | ((exp_u64 << 52u64) & EXP_MASK) | ((sign_u64 << 63u64) & SIGN_MASK)
}

} // verus!
