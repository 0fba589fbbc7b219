use pychangepoint::double::{Double, NEGATIVE_INFINITY, NEGATIVE_ZERO, POSITIVE_INFINITY};

fn d(x: f64) -> Double {
    Double::from_bits(x.to_bits())
}

fn patterns() -> Vec<u64> {
    let mut v = vec![
        0.0f64.to_bits(),
        (-0.0f64).to_bits(),
        1.0f64.to_bits(),
        (-1.0f64).to_bits(),
        f64::MIN_POSITIVE.to_bits(),
        (-f64::MIN_POSITIVE).to_bits(),
        f64::MAX.to_bits(),
        f64::MIN.to_bits(),
        f64::EPSILON.to_bits(),
        f64::INFINITY.to_bits(),
        f64::NEG_INFINITY.to_bits(),
        f64::NAN.to_bits(),
        (-f64::NAN).to_bits(),
        0x0000_0000_0000_0001,
        0x8000_0000_0000_0001,
        0x000F_FFFF_FFFF_FFFF,
        0x800F_FFFF_FFFF_FFFF,
        0x7FEF_FFFF_FFFF_FFFF,
        0xFFEF_FFFF_FFFF_FFFF,
        0x7FF0_0000_0000_0001,
        0xFFF0_0000_0000_0001,
        0x7FFF_FFFF_FFFF_FFFF,
        0xFFFF_FFFF_FFFF_FFFF,
        0x3FF0_0000_0000_0000,
        0x4059_0000_0000_0000,
    ];
    // A deterministic scatter over the whole range of patterns.
    let mut x: u64 = 0x9E37_79B9_7F4A_7C15;
    for _ in 0..2000 {
        x ^= x << 13;
        x ^= x >> 7;
        x ^= x << 17;
        v.push(x);
    }
    v
}

#[test]
fn bits_round_trip() {
    for bits in patterns() {
        assert_eq!(Double::from_bits(bits).to_bits(), bits);
        assert_eq!(Double::from_bits(bits).bits, bits);
    }
}

#[test]
fn named_patterns_are_the_numbers_they_name() {
    assert_eq!(POSITIVE_INFINITY, f64::INFINITY.to_bits());
    assert_eq!(NEGATIVE_INFINITY, f64::NEG_INFINITY.to_bits());
    assert_eq!(NEGATIVE_ZERO, (-0.0f64).to_bits());
}

#[test]
fn finite_agrees_with_the_hardware() {
    for bits in patterns() {
        let x = f64::from_bits(bits);
        assert_eq!(Double::from_bits(bits).is_finite(), x.is_finite(), "pattern {bits:#018x}");
    }
}

#[test]
fn non_positive_agrees_with_the_hardware() {
    for bits in patterns() {
        let x = f64::from_bits(bits);
        assert_eq!(Double::from_bits(bits).is_non_positive(), x <= 0.0, "pattern {bits:#018x}");
    }
}

#[test]
fn zeros_are_finite_and_non_positive() {
    assert!(d(0.0).is_finite());
    assert!(d(0.0).is_non_positive());
    assert!(d(-0.0).is_finite());
    assert!(d(-0.0).is_non_positive());
}

#[test]
fn smallest_subnormal_is_finite_and_positive() {
    let tiny = Double::from_bits(1);
    assert!(tiny.is_finite());
    assert!(!tiny.is_non_positive());
}

#[test]
fn infinities_are_not_finite() {
    assert!(!d(f64::INFINITY).is_finite());
    assert!(!d(f64::INFINITY).is_non_positive());
    assert!(!d(f64::NEG_INFINITY).is_finite());
    assert!(d(f64::NEG_INFINITY).is_non_positive());
}

#[test]
fn nan_is_neither_finite_nor_non_positive() {
    for bits in [f64::NAN.to_bits(), (-f64::NAN).to_bits(), 0x7FF0_0000_0000_0001, u64::MAX] {
        assert!(f64::from_bits(bits).is_nan());
        assert!(!Double::from_bits(bits).is_finite());
        assert!(!Double::from_bits(bits).is_non_positive());
    }
}
