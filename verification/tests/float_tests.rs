use float_fuzzer::float::{
    random_nan_32, random_nan_64, random_subnormal_32, random_subnormal_64, Class, Classifier,
    INF_32, INF_64, NEG_INF_32, NEG_INF_64,
};
use rand_chacha::rand_core::SeedableRng;

#[test]
fn test_constants() {
    assert_eq!(INF_32, f32::INFINITY.to_bits());
    assert_eq!(NEG_INF_32, f32::NEG_INFINITY.to_bits());
    assert_eq!(INF_64, f64::INFINITY.to_bits());
    assert_eq!(NEG_INF_64, f64::NEG_INFINITY.to_bits());
}

#[test]
fn test_classify() {
    // for 32-bit floats
    assert_eq!((-0f32).to_bits().classify(), Class::Zero);
    assert_eq!(0u32.classify(), Class::Zero);
    assert_eq!(1f32.to_bits().classify(), Class::Normal);
    assert_eq!(INF_32.classify(), Class::Infinite);
    assert_eq!(NEG_INF_32.classify(), Class::Infinite);

    // for 64-bit floats
    assert_eq!((-0f64).to_bits().classify(), Class::Zero);
    assert_eq!(0u64.classify(), Class::Zero);
    assert_eq!(1f64.to_bits().classify(), Class::Normal);
    assert_eq!(INF_64.classify(), Class::Infinite);
    assert_eq!(NEG_INF_64.classify(), Class::Infinite);

    // random floats
    let mut rng = rand_chacha::ChaChaRng::seed_from_u64(123456);
    for _ in 0..1000 {
        assert_eq!(random_subnormal_32(&mut rng).classify(), Class::Subnormal);
        assert_eq!(random_nan_32(&mut rng).classify(), Class::NaN);

        assert_eq!(random_subnormal_64(&mut rng).classify(), Class::Subnormal);
        assert_eq!(random_nan_64(&mut rng).classify(), Class::NaN);
    }
}

#[test]
fn classify_boundary_patterns_32() {
    assert_eq!(0x00000000u32.classify(), Class::Zero);
    assert_eq!(0x80000000u32.classify(), Class::Zero);
    assert_eq!(0x7f800000u32.classify(), Class::Infinite);
    assert_eq!(0xff800000u32.classify(), Class::Infinite);
    assert_eq!(0x7fc00000u32.classify(), Class::NaN);
    assert_eq!(0x00000001u32.classify(), Class::Subnormal);
    assert_eq!(0x3f800000u32.classify(), Class::Normal);
}

#[test]
fn classify_boundary_patterns_64() {
    assert_eq!(0x0000000000000000u64.classify(), Class::Zero);
    assert_eq!(0x8000000000000000u64.classify(), Class::Zero);
    assert_eq!(0x7ff0000000000000u64.classify(), Class::Infinite);
    assert_eq!(0xfff0000000000000u64.classify(), Class::Infinite);
    assert_eq!(0x7ff8000000000000u64.classify(), Class::NaN);
    assert_eq!(0x0000000000000001u64.classify(), Class::Subnormal);
    assert_eq!(0x3ff0000000000000u64.classify(), Class::Normal);
}

#[test]
fn nan_targeted_bits_never_leave_the_top_exponent() {
    // A NaN-targeted draw may collide into an infinity when the random mantissa
    // comes out zero, but can never fall into any other class.
    let mut rng = rand_chacha::ChaChaRng::seed_from_u64(98765);
    for _ in 0..2000 {
        let c32 = random_nan_32(&mut rng).classify();
        assert!(c32 == Class::NaN || c32 == Class::Infinite);
        let c64 = random_nan_64(&mut rng).classify();
        assert!(c64 == Class::NaN || c64 == Class::Infinite);
    }
    // The masking collision itself is real: an all-zero mantissa is an infinity.
    assert_eq!((0x7f800000u32 | 0x80000000).classify(), Class::Infinite);
    assert_eq!((0x7ff0000000000000u64 | 0x8000000000000000).classify(), Class::Infinite);
}

#[test]
fn subnormal_targeted_bits_never_leave_the_zero_exponent() {
    let mut rng = rand_chacha::ChaChaRng::seed_from_u64(54321);
    for _ in 0..2000 {
        let c32 = random_subnormal_32(&mut rng).classify();
        assert!(c32 == Class::Subnormal || c32 == Class::Zero);
        let c64 = random_subnormal_64(&mut rng).classify();
        assert!(c64 == Class::Subnormal || c64 == Class::Zero);
    }
}

#[test]
fn class_text_names() {
    assert_eq!(Class::Normal.text(), "Normal");
    assert_eq!(Class::Subnormal.text(), "Subnormal");
    assert_eq!(Class::Zero.text(), "Zero");
    assert_eq!(Class::Infinite.text(), "Infinite");
    assert_eq!(Class::NaN.text(), "NaN");
}
