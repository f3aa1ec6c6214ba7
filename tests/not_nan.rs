use ordered_float::{FloatIsNaN, NotNaN, ParseNotNaNError};
use std::cmp::Ordering;
use std::collections::hash_map::DefaultHasher;
use std::hash::{Hash, Hasher};

fn nn(x: f64) -> NotNaN<u64> {
    NotNaN::new(x.to_bits()).unwrap()
}

fn hash_of<H: Hash>(v: &H) -> u64 {
    let mut h = DefaultHasher::new();
    v.hash(&mut h);
    h.finish()
}

#[test]
fn new_rejects_every_nan() {
    for p in [
        0x7ff8000000000000u64,
        0x7ff0000000000001,
        0xfff8000000000000,
        0x7ff8dead0000beef,
        0xffffffffffffffff,
    ]
    .iter()
    {
        assert_eq!(NotNaN::new(*p), Err(FloatIsNaN));
    }
    assert_eq!(NotNaN::new(0x7f800001u32), Err(FloatIsNaN));
    assert_eq!(NotNaN::new(0xffc00000u32), Err(FloatIsNaN));
}

#[test]
fn not_nan_round_trip() {
    for x in [0.0, -0.0, 1.5, f64::INFINITY, f64::NEG_INFINITY, f64::MAX].iter() {
        assert_eq!(nn(*x).into_inner(), x.to_bits());
        assert_eq!(*nn(*x).as_ref(), x.to_bits());
    }
    assert_eq!(NotNaN::unchecked_new(7.0f64.to_bits()).into_inner(), 7.0f64.to_bits());
    assert_eq!(NotNaN::new(1.0f32.to_bits()).unwrap().into_inner(), 1.0f32.to_bits());
}

#[test]
fn not_nan_orders_as_numbers() {
    assert!(nn(-1.0) < nn(0.0));
    assert!(nn(f64::INFINITY) > nn(f64::MAX));
    assert_eq!(nn(0.0), nn(-0.0));
    assert_eq!(nn(0.0).cmp(&nn(-0.0)), Ordering::Equal);
    assert_eq!(nn(2.0).cmp(&nn(1.0)), Ordering::Greater);
}

#[test]
fn not_nan_zeros_hash_alike() {
    assert_eq!(hash_of(&nn(0.0)), hash_of(&nn(-0.0)));
    assert_eq!(nn(-0.0).hash_bits(), 0);
    assert_eq!(nn(1.0).hash_bits(), 0xfcc0000000000000);
}

#[test]
fn parse_results() {
    let ok: Result<u64, i32> = Ok(2.0f64.to_bits());
    assert_eq!(NotNaN::from_parsed(ok).unwrap().into_inner(), 2.0f64.to_bits());
    let nan: Result<u64, i32> = Ok(f64::NAN.to_bits());
    assert_eq!(NotNaN::from_parsed(nan), Err(ParseNotNaNError::IsNaN));
    let bad: Result<u64, i32> = Err(5);
    assert_eq!(NotNaN::from_parsed(bad), Err(ParseNotNaNError::ParseFloatError(5)));
}

#[test]
fn error_descriptions() {
    assert_eq!(FloatIsNaN.description(), "NotNaN constructed with NaN");
    assert_eq!(
        ParseNotNaNError::<i32>::IsNaN.description(),
        "Error parsing a not-NaN floating point value"
    );
}

const SAMPLES: [f64; 9] = [
    f64::NEG_INFINITY,
    -2.5,
    -0.0,
    0.0,
    1.0,
    3.0,
    f64::MAX,
    f64::INFINITY,
    5e-324,
];

#[test]
fn nan_outcomes_match_hardware() {
    for a in SAMPLES.iter() {
        for b in SAMPLES.iter() {
            let (x, y) = (nn(*a), nn(*b));
            assert_eq!(x.add_yields_nan(&y), (a + b).is_nan());
            assert_eq!(x.sub_yields_nan(&y), (a - b).is_nan());
            assert_eq!(x.mul_yields_nan(&y), (a * b).is_nan());
            assert_eq!(x.div_yields_nan(&y), (a / b).is_nan());
            assert_eq!(x.rem_yields_nan(&y), (a % b).is_nan());
        }
    }
    let (p, q) = (NotNaN::new(0.0f32.to_bits()).unwrap(), NotNaN::new(0.0f32.to_bits()).unwrap());
    assert!(p.div_yields_nan(&q));
}

#[test]
fn division_by_zero_guard() {
    assert!(nn(0.0).div_yields_nan(&nn(0.0)));
    assert!(nn(-0.0).div_yields_nan(&nn(0.0)));
    assert!(!nn(1.0).div_yields_nan(&nn(0.0)));
    assert!(!nn(-1.0).div_yields_nan(&nn(-0.0)));
    assert_eq!(1.0f64 / 0.0, f64::INFINITY);
    let one = NotNaN::new(1.0f32.to_bits()).unwrap();
    let zero = NotNaN::new(0.0f32.to_bits()).unwrap();
    assert!(!one.div_yields_nan(&zero));
    assert!(zero.div_yields_nan(&zero));
}

#[test]
fn sum_guard_on_infinities() {
    assert!(nn(f64::INFINITY).add_yields_nan(&nn(f64::NEG_INFINITY)));
    assert!(!nn(f64::INFINITY).add_yields_nan(&nn(f64::INFINITY)));
    assert!(!nn(3.0).add_yields_nan(&nn(4.0)));
    assert!(nn(0.0).mul_yields_nan(&nn(f64::INFINITY)));
    assert!(nn(1.0).rem_yields_nan(&nn(-0.0)));
}

#[test]
fn sign_operations() {
    assert_eq!(nn(1.5).neg().into_inner(), (-1.5f64).to_bits());
    assert_eq!(nn(0.0).neg().into_inner(), (-0.0f64).to_bits());
    assert_eq!(nn(-2.0).abs().into_inner(), 2.0f64.to_bits());
    assert_eq!(nn(f64::NEG_INFINITY).abs().into_inner(), f64::INFINITY.to_bits());
    assert!(nn(0.0).is_positive());
    assert!(nn(-0.0).is_negative());
    assert!(!nn(-0.0).is_positive());
    assert!(nn(-0.0).is_zero());
    assert!(!nn(5e-324).is_zero());
    let n32 = NotNaN::new((-1.0f32).to_bits()).unwrap();
    assert_eq!(n32.neg().into_inner(), 1.0f32.to_bits());
}

#[test]
fn constants_and_signum() {
    assert_eq!(NotNaN::<u64>::zero().into_inner(), 0.0f64.to_bits());
    assert_eq!(NotNaN::<u64>::one().into_inner(), 1.0f64.to_bits());
    assert_eq!(NotNaN::<u64>::max_value().into_inner(), f64::MAX.to_bits());
    assert_eq!(NotNaN::<u64>::min_value().into_inner(), f64::MIN.to_bits());
    assert_eq!(NotNaN::<u32>::one().into_inner(), 1.0f32.to_bits());
    assert_eq!(NotNaN::<u32>::max_value().into_inner(), f32::MAX.to_bits());
    assert_eq!(NotNaN::<u32>::min_value().into_inner(), f32::MIN.to_bits());
    assert_eq!(nn(-0.0).signum().into_inner(), (-1.0f64).to_bits());
    assert_eq!(nn(0.0).signum().into_inner(), 1.0f64.to_bits());
    assert_eq!(nn(f64::NEG_INFINITY).signum().into_inner(), (-1.0f64).to_bits());
    assert_eq!(nn(7.5).signum().into_inner(), 7.5f64.signum().to_bits());
    assert_eq!(NotNaN::new(2.0f32.to_bits()).unwrap().signum().into_inner(), 1.0f32.to_bits());
}
