use vstd::prelude::*;

use crate::rng;

verus! {

pub const INF_32: u32 = 0x7f800000;
pub const NEG_INF_32: u32 = 0xff800000;
pub const INF_64: u64 = 0x7ff0000000000000;
pub const NEG_INF_64: u64 = 0xfff0000000000000;

pub const EXPONENT_MASK_32: u32 = 0x7f800000;
pub const EXPONENT_MASK_64: u64 = 0x7ff0000000000000;
pub const SIGN_MASK_32: u32 = 0x80000000;
pub const SIGN_MASK_64: u64 = 0x8000000000000000;
pub const MANTISSA_MASK_32: u32 = 0x007fffff;
pub const MANTISSA_MASK_64: u64 = 0x000fffffffffffff;

/// The class of an IEEE-754 bit pattern, determined solely by its exponent and
/// mantissa fields; the sign bit never matters.
#[derive(Debug, Clone, Copy, PartialEq, Eq, Structural)]
pub enum Class {
    Normal,
    Subnormal,
    Zero,
    Infinite,
    NaN,
}

/// What a 32-bit pattern classifies as, from its fields alone.
pub open spec fn spec_classify_32(b: u32) -> Class {
    let exponent = b & EXPONENT_MASK_32;
    let mantissa = b & MANTISSA_MASK_32;
    if exponent == 0 && mantissa == 0 {
        Class::Zero
    } else if exponent == 0 {
        Class::Subnormal
    } else if exponent == EXPONENT_MASK_32 && mantissa == 0 {
        Class::Infinite
    } else if exponent == EXPONENT_MASK_32 {
        Class::NaN
    } else {
        Class::Normal
    }
}

/// What a 64-bit pattern classifies as, from its fields alone.
pub open spec fn spec_classify_64(b: u64) -> Class {
    let exponent = b & EXPONENT_MASK_64;
    let mantissa = b & MANTISSA_MASK_64;
    if exponent == 0 && mantissa == 0 {
        Class::Zero
    } else if exponent == 0 {
        Class::Subnormal
    } else if exponent == EXPONENT_MASK_64 && mantissa == 0 {
        Class::Infinite
    } else if exponent == EXPONENT_MASK_64 {
        Class::NaN
    } else {
        Class::Normal
    }
}

impl Class {
    /// The class's name as it appears in a report row.
    pub open spec fn text_spec(self) -> Seq<char> {
        match self {
            Class::Normal => "Normal"@,
            Class::Subnormal => "Subnormal"@,
            Class::Zero => "Zero"@,
            Class::Infinite => "Infinite"@,
            Class::NaN => "NaN"@,
        }
    }

    pub fn text(self) -> (r: &'static str)
        ensures
            r@ == self.text_spec(),
    {
        match self {
            Class::Normal => "Normal",
            Class::Subnormal => "Subnormal",
            Class::Zero => "Zero",
            Class::Infinite => "Infinite",
            Class::NaN => "NaN",
        }
    }
}

pub trait Classifier {
    /// The class this bit pattern denotes, as a mathematical value.
    spec fn class_spec(&self) -> Class;

    fn classify(&self) -> (c: Class)
        ensures
            c == self.class_spec(),
    ;
}

impl Classifier for u32 {
    open spec fn class_spec(&self) -> Class {
        spec_classify_32(*self)
    }

    fn classify(&self) -> (c: Class) {
        let exponent = *self & EXPONENT_MASK_32;
        let mantissa = *self & MANTISSA_MASK_32;

        if exponent == 0 && mantissa == 0 {
            Class::Zero
        } else if exponent == 0 {
            Class::Subnormal
        } else if exponent == EXPONENT_MASK_32 && mantissa == 0 {
            Class::Infinite
        } else if exponent == EXPONENT_MASK_32 {
            Class::NaN
        } else {
            Class::Normal
        }
    }
}

impl Classifier for u64 {
    open spec fn class_spec(&self) -> Class {
        spec_classify_64(*self)
    }

    fn classify(&self) -> (c: Class) {
        let exponent = *self & EXPONENT_MASK_64;
        let mantissa = *self & MANTISSA_MASK_64;

        if exponent == 0 && mantissa == 0 {
            Class::Zero
        } else if exponent == 0 {
            Class::Subnormal
        } else if exponent == EXPONENT_MASK_64 && mantissa == 0 {
            Class::Infinite
        } else if exponent == EXPONENT_MASK_64 {
            Class::NaN
        } else {
            Class::Normal
        }
    }
}

/// The five classes partition the 32-bit space: every pattern falls under
/// exactly one class, characterized by its exponent and mantissa fields.
pub proof fn lemma_classify_32_partition(b: u32)
    ensures
        spec_classify_32(b) == Class::Zero <==> (b & EXPONENT_MASK_32 == 0 && b
            & MANTISSA_MASK_32 == 0),
        spec_classify_32(b) == Class::Subnormal <==> (b & EXPONENT_MASK_32 == 0 && b
            & MANTISSA_MASK_32 != 0),
        spec_classify_32(b) == Class::Infinite <==> (b & EXPONENT_MASK_32 == EXPONENT_MASK_32 && b
            & MANTISSA_MASK_32 == 0),
        spec_classify_32(b) == Class::NaN <==> (b & EXPONENT_MASK_32 == EXPONENT_MASK_32 && b
            & MANTISSA_MASK_32 != 0),
        spec_classify_32(b) == Class::Normal <==> (b & EXPONENT_MASK_32 != 0 && b
            & EXPONENT_MASK_32 != EXPONENT_MASK_32),
{
}

/// The five classes partition the 64-bit space in the same way.
pub proof fn lemma_classify_64_partition(b: u64)
    ensures
        spec_classify_64(b) == Class::Zero <==> (b & EXPONENT_MASK_64 == 0 && b
            & MANTISSA_MASK_64 == 0),
        spec_classify_64(b) == Class::Subnormal <==> (b & EXPONENT_MASK_64 == 0 && b
            & MANTISSA_MASK_64 != 0),
        spec_classify_64(b) == Class::Infinite <==> (b & EXPONENT_MASK_64 == EXPONENT_MASK_64 && b
            & MANTISSA_MASK_64 == 0),
        spec_classify_64(b) == Class::NaN <==> (b & EXPONENT_MASK_64 == EXPONENT_MASK_64 && b
            & MANTISSA_MASK_64 != 0),
        spec_classify_64(b) == Class::Normal <==> (b & EXPONENT_MASK_64 != 0 && b
            & EXPONENT_MASK_64 != EXPONENT_MASK_64),
{
}

/// The sign bit never matters to a 32-bit pattern's class: flipping it leaves
/// the class unchanged, so a negative zero is Zero and a negative infinity is
/// Infinite.
pub proof fn lemma_classify_32_sign_irrelevant(b: u32)
    ensures
        spec_classify_32(b ^ SIGN_MASK_32) == spec_classify_32(b),
{
    assert((b ^ 0x80000000u32) & 0x7f800000 == b & 0x7f800000) by (bit_vector);
    assert((b ^ 0x80000000u32) & 0x007fffff == b & 0x007fffff) by (bit_vector);
}

/// The sign bit never matters to a 64-bit pattern's class.
pub proof fn lemma_classify_64_sign_irrelevant(b: u64)
    ensures
        spec_classify_64(b ^ SIGN_MASK_64) == spec_classify_64(b),
{
    assert((b ^ 0x8000000000000000u64) & 0x7ff0000000000000 == b & 0x7ff0000000000000)
        by (bit_vector);
    assert((b ^ 0x8000000000000000u64) & 0x000fffffffffffff == b & 0x000fffffffffffff)
        by (bit_vector);
}

/// Returns bits for a random NaN (with a small chance for an Infinity):
/// the exponent field is forced to all ones, the rest of the bits are random.
pub fn random_nan_32(rng: &mut rand_chacha::ChaCha20Rng) -> (r: u32)
    ensures
        r & EXPONENT_MASK_32 == EXPONENT_MASK_32,
        spec_classify_32(r) == Class::NaN || spec_classify_32(r) == Class::Infinite,
        spec_classify_32(r) == Class::Infinite <==> r & MANTISSA_MASK_32 == 0,
{
    let w = rng::next_u32(rng);
    let r = EXPONENT_MASK_32 | w;
    proof {
        assert((0x7f800000u32 | w) & 0x7f800000 == 0x7f800000) by (bit_vector);
    }
    r
}

/// Returns bits for a random NaN (with a small chance for an Infinity):
/// the exponent field is forced to all ones, the rest of the bits are random.
pub fn random_nan_64(rng: &mut rand_chacha::ChaCha20Rng) -> (r: u64)
    ensures
        r & EXPONENT_MASK_64 == EXPONENT_MASK_64,
        spec_classify_64(r) == Class::NaN || spec_classify_64(r) == Class::Infinite,
        spec_classify_64(r) == Class::Infinite <==> r & MANTISSA_MASK_64 == 0,
{
    let w = rng::next_u64(rng);
    let r = EXPONENT_MASK_64 | w;
    proof {
        assert((0x7ff0000000000000u64 | w) & 0x7ff0000000000000 == 0x7ff0000000000000)
            by (bit_vector);
    }
    r
}

/// Returns bits for a random subnormal (with a small chance for a zero):
/// the exponent field is forced to all zeros, sign and mantissa are random.
pub fn random_subnormal_32(rng: &mut rand_chacha::ChaCha20Rng) -> (r: u32)
    ensures
        r & EXPONENT_MASK_32 == 0,
        spec_classify_32(r) == Class::Subnormal || spec_classify_32(r) == Class::Zero,
        spec_classify_32(r) == Class::Zero <==> r & MANTISSA_MASK_32 == 0,
{
    let w = rng::next_u32(rng);
    let r = w & (SIGN_MASK_32 | MANTISSA_MASK_32);
    proof {
        assert((w & (0x80000000u32 | 0x007fffff)) & 0x7f800000 == 0) by (bit_vector);
    }
    r
}

/// Returns bits for a random subnormal (with a small chance for a zero):
/// the exponent field is forced to all zeros, sign and mantissa are random.
pub fn random_subnormal_64(rng: &mut rand_chacha::ChaCha20Rng) -> (r: u64)
    ensures
        r & EXPONENT_MASK_64 == 0,
        spec_classify_64(r) == Class::Subnormal || spec_classify_64(r) == Class::Zero,
        spec_classify_64(r) == Class::Zero <==> r & MANTISSA_MASK_64 == 0,
{
    let w = rng::next_u64(rng);
    let r = w & (SIGN_MASK_64 | MANTISSA_MASK_64);
    proof {
        assert((w & (0x8000000000000000u64 | 0x000fffffffffffff)) & 0x7ff0000000000000 == 0)
            by (bit_vector);
    }
    r
}

} // verus!
