use ordered_float::{raw_double_bits, widen_to_double, FloatBits, OrderedFloat};
use std::cmp::Ordering;
use std::collections::hash_map::DefaultHasher;
use std::hash::{Hash, Hasher};

fn of(x: f64) -> OrderedFloat<u64> {
    OrderedFloat(x.to_bits())
}

fn of32(x: f32) -> OrderedFloat<u32> {
    OrderedFloat(x.to_bits())
}

fn hash_of<H: Hash>(v: &H) -> u64 {
    let mut h = DefaultHasher::new();
    v.hash(&mut h);
    h.finish()
}

const NAN_PATTERNS: [u64; 5] = [
    0x7ff8000000000000,
    0xfff8000000000000,
    0x7ff0000000000001,
    0x7ff4000000000000,
    0x7ff8dead0000beef,
];

#[test]
fn less_than_with_nan() {
    assert!(of(1.0) < of(2.0));
    assert!(!(of(f64::NAN) < of(2.0)));
    assert!(of(2.0) < of(f64::NAN));
}

#[test]
fn sort_puts_nan_last() {
    let mut v: Vec<OrderedFloat<u64>> =
        [f64::NAN, 1.0, -1.0, f64::NAN, 0.0].iter().map(|x| of(*x)).collect();
    v.sort_by(|a, b| a.cmp(b));
    let out: Vec<f64> = v.iter().map(|x| f64::from_bits(x.into_inner())).collect();
    assert_eq!(out[0], -1.0);
    assert_eq!(out[1], 0.0);
    assert_eq!(out[2], 1.0);
    assert!(out[3].is_nan());
    assert!(out[4].is_nan());
}

#[test]
fn total_order_on_samples() {
    let samples = [
        f64::NEG_INFINITY,
        -1.5,
        -0.0,
        0.0,
        f64::MIN_POSITIVE,
        1.0,
        f64::MAX,
        f64::INFINITY,
        f64::NAN,
        -f64::NAN,
    ];
    for a in samples.iter() {
        for b in samples.iter() {
            let (x, y) = (of(*a), of(*b));
            let n = [x < y, x == y, y < x].iter().filter(|t| **t).count();
            assert_eq!(n, 1);
            assert_eq!(x.cmp(&y), y.cmp(&x).reverse());
            if !a.is_nan() && !b.is_nan() {
                assert_eq!(Some(x.cmp(&y)), a.partial_cmp(b));
            }
            for c in samples.iter() {
                let z = of(*c);
                if x < y && y < z {
                    assert!(x < z);
                }
            }
        }
    }
    assert_eq!(of(f64::NAN), of(-f64::NAN));
    assert!(!(of(f64::NAN) < of(f64::NAN)));
    assert_eq!(of(f64::NAN).cmp(&of(f64::INFINITY)), Ordering::Greater);
    assert_eq!(of(-0.0), of(0.0));
}

#[test]
fn total_order_single_width() {
    assert!(of32(-2.0) < of32(1.0));
    assert!(of32(1.0) < of32(f32::NAN));
    assert_eq!(of32(f32::NAN), of32(f32::from_bits(0xffc00001)));
    assert_eq!(of32(-0.0), of32(0.0));
    assert_eq!(of32(f32::INFINITY).cmp(&of32(f32::MAX)), Ordering::Greater);
}

#[test]
fn zeros_hash_alike() {
    assert_eq!(hash_of(&of(0.0)), hash_of(&of(-0.0)));
    assert_eq!(of(0.0).hash_bits(), 0);
    assert_eq!(of(-0.0).hash_bits(), 0);
    assert_eq!(hash_of(&of32(0.0)), hash_of(&of32(-0.0)));
}

#[test]
fn nan_payloads_hash_alike() {
    for p in NAN_PATTERNS.iter() {
        assert_eq!(OrderedFloat(*p).hash_bits(), 0x7ff8000000000000);
        assert_eq!(hash_of(&OrderedFloat(*p)), hash_of(&of(f64::NAN)));
    }
    assert_eq!(of32(f32::from_bits(0x7f800001)).hash_bits(), 0x7ff8000000000000);
}

#[test]
fn hash_words_of_values() {
    assert_eq!(of(1.0).hash_bits(), 0xfcc0000000000000);
    assert_eq!(of(-1.0).hash_bits(), 0x7cc0000000000000);
    assert_eq!(of(2.5).hash_bits(), 0xfcd4000000000000);
    assert_eq!(of(f64::INFINITY).hash_bits(), 0xbcc0000000000000);
    assert_eq!(of32(1.0).hash_bits(), 0xfcc0000000000000);
    assert_eq!(raw_double_bits(&(-2.0f32).to_bits()), 0x7cd0000000000000);
    assert_ne!(hash_of(&of(1.0)), hash_of(&of(-1.0)));
}

#[test]
fn decode_matches_ieee_fields() {
    assert_eq!(1.0f64.to_bits().integer_decode(), (0x10000000000000, -52, 1));
    assert_eq!((-0.0f64).to_bits().integer_decode(), (0, -1075, -1));
    assert_eq!(5e-324f64.to_bits().integer_decode(), (2, -1075, 1));
    assert_eq!(1.0f32.to_bits().integer_decode(), (0x10000000000000, -52, 1));
    assert!(f64::NAN.to_bits().is_nan());
    assert!(!f64::INFINITY.to_bits().is_nan());
    assert!(f32::NAN.to_bits().is_nan());
}

#[test]
fn ordered_round_trip() {
    for x in [1.0, -0.0, f64::INFINITY, 3.25].iter() {
        assert_eq!(of(*x).into_inner(), x.to_bits());
        assert_eq!(*OrderedFloat::from(x.to_bits()).as_ref(), x.to_bits());
    }
    for p in NAN_PATTERNS.iter() {
        assert_eq!(OrderedFloat(*p).into_inner(), *p);
    }
}

#[test]
fn widths_hash_alike() {
    let singles = [
        1.0f32,
        -2.0,
        0.1,
        -0.0,
        0.0,
        f32::MAX,
        f32::MIN,
        f32::MIN_POSITIVE,
        f32::from_bits(1),
        f32::from_bits(0x80000001),
        f32::from_bits(0x00400000),
        f32::from_bits(0x007fffff),
        f32::from_bits(0x00012345),
        f32::INFINITY,
        f32::NEG_INFINITY,
        3.5e-40,
    ];
    for x in singles.iter() {
        let d = *x as f64;
        assert_eq!(widen_to_double(x.to_bits()), d.to_bits());
        assert_eq!(of32(*x).hash_bits(), of(d).hash_bits());
        assert_eq!(hash_of(&of32(*x)), hash_of(&of(d)));
        assert_eq!(x.to_bits().integer_decode(), d.to_bits().integer_decode());
    }
    assert_eq!(of32(f32::NAN).hash_bits(), of(f64::NAN).hash_bits());
}
