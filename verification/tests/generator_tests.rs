use float_fuzzer::float::{Class, Classifier};
use float_fuzzer::types::{float32_bits_from, float64_bits_from, Type, TypedValue};
use rand_chacha::rand_core::{RngCore, SeedableRng};

#[test]
fn generator_is_deterministic_for_a_fixed_seed() {
    let mut a = rand_chacha::ChaChaRng::seed_from_u64(123456);
    let mut b = rand_chacha::ChaChaRng::seed_from_u64(123456);
    for _ in 0..500 {
        for ty in [Type::I32, Type::I64, Type::F32, Type::F64] {
            assert_eq!(ty.random_value(&mut a), ty.random_value(&mut b));
        }
    }
}

#[test]
fn generator_streams_differ_across_seeds() {
    let mut a = rand_chacha::ChaChaRng::seed_from_u64(1);
    let mut b = rand_chacha::ChaChaRng::seed_from_u64(2);
    let mut same = true;
    for _ in 0..100 {
        if Type::I64.random_value(&mut a) != Type::I64.random_value(&mut b) {
            same = false;
        }
    }
    assert!(!same);
}

#[test]
fn generated_values_match_their_slot_type() {
    let mut rng = rand_chacha::ChaChaRng::seed_from_u64(7);
    for _ in 0..200 {
        assert!(matches!(Type::I32.random_value(&mut rng), TypedValue::I32(_)));
        assert!(matches!(Type::I64.random_value(&mut rng), TypedValue::I64(_)));
        assert!(matches!(Type::F32.random_value(&mut rng), TypedValue::F32(_)));
        assert!(matches!(Type::F64.random_value(&mut rng), TypedValue::F64(_)));
    }
}

fn class_of(v: TypedValue) -> Class {
    match v {
        TypedValue::F32(b) => b.classify(),
        TypedValue::F64(b) => b.classify(),
        TypedValue::I32(x) => (x as u32).classify(),
        TypedValue::I64(x) => (x as u64).classify(),
    }
}

#[test]
fn float32_bias_hits_each_edge_class_near_a_quarter() {
    let mut rng = rand_chacha::ChaChaRng::seed_from_u64(123456);
    let n = 4000;
    let mut nan = 0;
    let mut sub = 0;
    let mut inf = 0;
    for _ in 0..n {
        match class_of(Type::F32.random_value(&mut rng)) {
            Class::NaN => nan += 1,
            Class::Subnormal => sub += 1,
            Class::Infinite => inf += 1,
            _ => {}
        }
    }
    // each targeted class is expected at ~25% of draws, far above uniform noise
    assert!((900..=1100).contains(&nan), "NaN count out of range: {nan}");
    assert!((900..=1100).contains(&sub), "Subnormal count out of range: {sub}");
    assert!((900..=1100).contains(&inf), "Infinite count out of range: {inf}");
}

#[test]
fn float64_bias_hits_each_edge_class_near_a_quarter() {
    let mut rng = rand_chacha::ChaChaRng::seed_from_u64(123456);
    let n = 4000;
    let mut nan = 0;
    let mut sub = 0;
    let mut inf = 0;
    for _ in 0..n {
        match class_of(Type::F64.random_value(&mut rng)) {
            Class::NaN => nan += 1,
            Class::Subnormal => sub += 1,
            Class::Infinite => inf += 1,
            _ => {}
        }
    }
    assert!((900..=1100).contains(&nan), "NaN count out of range: {nan}");
    assert!((900..=1100).contains(&sub), "Subnormal count out of range: {sub}");
    assert!((900..=1100).contains(&inf), "Infinite count out of range: {inf}");
}

#[test]
fn float32_quartile_selection_is_exact() {
    // first quartile: the word under a forced all-ones exponent
    assert_eq!(float32_bits_from(0, 0x00000001), 0x7f800001);
    assert_eq!(float32_bits_from(u32::MAX / 4 - 1, 0), 0x7f800000); // mantissa collision
    // second quartile: the word under a forced all-zeros exponent
    assert_eq!(float32_bits_from(u32::MAX / 4, 0xffffffff), 0x807fffff);
    assert_eq!(float32_bits_from(u32::MAX / 2 - 1, 0x7f800000), 0x00000000); // zero collision
    // third quartile: a canonical infinity, sign by the selector's parity
    assert_eq!(float32_bits_from(0x80000000, 0xdeadbeef), 0x7f800000); // even
    assert_eq!(float32_bits_from(u32::MAX / 2, 0xdeadbeef), 0xff800000); // odd
    assert_eq!(float32_bits_from(u32::MAX / 4 * 3 - 1, 9), 0x7f800000); // even
    // fourth quartile: the word verbatim
    assert_eq!(float32_bits_from(u32::MAX / 4 * 3, 0x12345678), 0x12345678);
    assert_eq!(float32_bits_from(u32::MAX, 42), 42);
}

#[test]
fn float64_quartile_selection_is_exact() {
    assert_eq!(float64_bits_from(0, 1), 0x7ff0000000000001);
    assert_eq!(float64_bits_from(u64::MAX / 4 - 1, 0), 0x7ff0000000000000);
    assert_eq!(float64_bits_from(u64::MAX / 4, u64::MAX), 0x800fffffffffffff);
    assert_eq!(float64_bits_from(u64::MAX / 2 - 1, 0x7ff0000000000000), 0);
    assert_eq!(float64_bits_from(0x8000000000000000, 7), 0x7ff0000000000000); // even
    assert_eq!(float64_bits_from(u64::MAX / 2, 7), 0xfff0000000000000); // odd
    assert_eq!(float64_bits_from(u64::MAX / 4 * 3, 0x123456789abcdef0), 0x123456789abcdef0);
    assert_eq!(float64_bits_from(u64::MAX, 42), 42);
}

#[test]
fn random_value_applies_the_quartile_selection_to_the_drawn_words() {
    let mut a = rand_chacha::ChaChaRng::seed_from_u64(2024);
    let mut b = a.clone();
    for _ in 0..300 {
        let v = Type::F32.random_value(&mut a);
        let decider = b.next_u32();
        let w = if decider < u32::MAX / 2 || decider >= u32::MAX / 4 * 3 {
            b.next_u32()
        } else {
            0
        };
        assert_eq!(v, TypedValue::F32(float32_bits_from(decider, w)));

        let v = Type::F64.random_value(&mut a);
        let decider = b.next_u64();
        let w = if decider < u64::MAX / 2 || decider >= u64::MAX / 4 * 3 {
            b.next_u64()
        } else {
            0
        };
        assert_eq!(v, TypedValue::F64(float64_bits_from(decider, w)));
    }
}

#[test]
fn type_text_names() {
    assert_eq!(Type::I32.text(), "i32");
    assert_eq!(Type::I64.text(), "i64");
    assert_eq!(Type::F32.text(), "f32");
    assert_eq!(Type::F64.text(), "f64");
}
