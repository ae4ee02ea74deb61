use vstd::prelude::*;

use crate::float::{
    spec_classify_32, spec_classify_64, Class, EXPONENT_MASK_32, EXPONENT_MASK_64, INF_32, INF_64,
    MANTISSA_MASK_32, MANTISSA_MASK_64, NEG_INF_32, NEG_INF_64, SIGN_MASK_32, SIGN_MASK_64,
};
use crate::rng;

verus! {

/// The wire-level shape of an operand or result slot.
#[derive(Debug, Copy, Clone, PartialEq, Eq, Structural)]
pub enum Type {
    I32,
    I64,
    F32,
    F64,
}

/// A generated or returned value. Float-typed values are carried as their raw
/// IEEE-754 bit pattern, so that NaN payloads and signed zeros survive intact;
/// nothing here ever goes through a native floating-point comparison.
#[derive(Debug, Copy, Clone, PartialEq, Eq, Structural)]
pub enum TypedValue {
    I32(i32),
    I64(i64),
    F32(u32),
    F64(u64),
}

impl Type {
    /// The text of this type in WebAssembly source.
    pub open spec fn text_spec(self) -> Seq<char> {
        match self {
            Type::I32 => "i32"@,
            Type::I64 => "i64"@,
            Type::F32 => "f32"@,
            Type::F64 => "f64"@,
        }
    }

    pub fn text(self) -> (r: &'static str)
        ensures
            r@ == self.text_spec(),
    {
        match self {
            Type::I32 => "i32",
            Type::I64 => "i64",
            Type::F32 => "f32",
            Type::F64 => "f64",
        }
    }

    /// Whether a value has the shape this slot asks for.
    pub open spec fn matches(self, v: TypedValue) -> bool {
        match (self, v) {
            (Type::I32, TypedValue::I32(_)) => true,
            (Type::I64, TypedValue::I64(_)) => true,
            (Type::F32, TypedValue::F32(_)) => true,
            (Type::F64, TypedValue::F64(_)) => true,
            _ => false,
        }
    }

    /// Draws one value for this slot. Integer slots take one full-width random
    /// word verbatim. Float slots first draw a class selector word; the
    /// infinity quartile needs no further word, every other quartile draws one
    /// more, and `float32_bits_from` / `float64_bits_from` state exactly which
    /// bits each quartile yields from the drawn words.
    pub fn random_value(self, rand: &mut rand_chacha::ChaCha20Rng) -> (r: TypedValue)
        ensures
            self.matches(r),
    {
        match self {
            Type::I32 => TypedValue::I32(rng::next_u32(rand) as i32),
            Type::I64 => TypedValue::I64(rng::next_u64(rand) as i64),
            Type::F32 => {
                let decider = rng::next_u32(rand);
                let w = if decider < u32::MAX / 2 || decider >= u32::MAX / 4 * 3 {
                    rng::next_u32(rand)
                } else {
                    0
                };
                TypedValue::F32(float32_bits_from(decider, w))
            },
            Type::F64 => {
                let decider = rng::next_u64(rand);
                let w = if decider < u64::MAX / 2 || decider >= u64::MAX / 4 * 3 {
                    rng::next_u64(rand)
                } else {
                    0
                };
                TypedValue::F64(float64_bits_from(decider, w))
            },
        }
    }
}

/// The 32-bit pattern the generator yields from a selector word and a second
/// random word. The selector's range splits into four equal quartiles:
/// NaN-targeted bits (the word under a forced all-ones exponent), subnormal-
/// targeted bits (the word under a forced all-zeros exponent), a canonical
/// infinity whose sign the selector's parity picks (even positive, odd
/// negative), or the word verbatim. The infinity quartile ignores the word.
pub fn float32_bits_from(decider: u32, w: u32) -> (bits: u32)
    ensures
        decider < u32::MAX / 4 ==> bits == EXPONENT_MASK_32 | w,
        u32::MAX / 4 <= decider && decider < u32::MAX / 2 ==> bits == (w & (SIGN_MASK_32
            | MANTISSA_MASK_32)),
        u32::MAX / 2 <= decider && decider < u32::MAX / 4 * 3 ==> bits == (if decider % 2 == 0 {
            INF_32
        } else {
            NEG_INF_32
        }),
        u32::MAX / 4 * 3 <= decider ==> bits == w,
        decider < u32::MAX / 4 ==> spec_classify_32(bits) == Class::NaN || spec_classify_32(bits)
            == Class::Infinite,
        u32::MAX / 4 <= decider && decider < u32::MAX / 2 ==> spec_classify_32(bits)
            == Class::Subnormal || spec_classify_32(bits) == Class::Zero,
        u32::MAX / 2 <= decider && decider < u32::MAX / 4 * 3 ==> spec_classify_32(bits)
            == Class::Infinite,
{
    if decider < u32::MAX / 4 {
        // 25% chance of being a NaN
        let bits = EXPONENT_MASK_32 | w;
        proof {
            assert((0x7f800000u32 | w) & 0x7f800000 == 0x7f800000) by (bit_vector);
        }
        bits
    } else if decider < u32::MAX / 2 {
        // 25% chance of being a subnormal
        let bits = w & (SIGN_MASK_32 | MANTISSA_MASK_32);
        proof {
            assert((w & (0x80000000u32 | 0x007fffff)) & 0x7f800000 == 0) by (bit_vector);
        }
        bits
    } else if decider < u32::MAX / 4 * 3 {
        // 25% chance of being an infinite
        proof {
            assert(0x7f800000u32 & 0x7f800000 == 0x7f800000 && 0x7f800000u32 & 0x007fffff == 0)
                by (bit_vector);
            assert(0xff800000u32 & 0x7f800000 == 0x7f800000 && 0xff800000u32 & 0x007fffff == 0)
                by (bit_vector);
        }
        if decider % 2 == 0 {
            INF_32
        } else {
            NEG_INF_32
        }
    } else {
        // 25% chance of being a random bit pattern
        w
    }
}

/// The 64-bit pattern the generator yields from a selector word and a second
/// random word, quartile by quartile as at 32 bits.
pub fn float64_bits_from(decider: u64, w: u64) -> (bits: u64)
    ensures
        decider < u64::MAX / 4 ==> bits == EXPONENT_MASK_64 | w,
        u64::MAX / 4 <= decider && decider < u64::MAX / 2 ==> bits == (w & (SIGN_MASK_64
            | MANTISSA_MASK_64)),
        u64::MAX / 2 <= decider && decider < u64::MAX / 4 * 3 ==> bits == (if decider % 2 == 0 {
            INF_64
        } else {
            NEG_INF_64
        }),
        u64::MAX / 4 * 3 <= decider ==> bits == w,
        decider < u64::MAX / 4 ==> spec_classify_64(bits) == Class::NaN || spec_classify_64(bits)
            == Class::Infinite,
        u64::MAX / 4 <= decider && decider < u64::MAX / 2 ==> spec_classify_64(bits)
            == Class::Subnormal || spec_classify_64(bits) == Class::Zero,
        u64::MAX / 2 <= decider && decider < u64::MAX / 4 * 3 ==> spec_classify_64(bits)
            == Class::Infinite,
{
    if decider < u64::MAX / 4 {
        // 25% chance of being a NaN
        let bits = EXPONENT_MASK_64 | w;
        proof {
            assert((0x7ff0000000000000u64 | w) & 0x7ff0000000000000 == 0x7ff0000000000000)
                by (bit_vector);
        }
        bits
    } else if decider < u64::MAX / 2 {
        // 25% chance of being a subnormal
        let bits = w & (SIGN_MASK_64 | MANTISSA_MASK_64);
        proof {
            assert((w & (0x8000000000000000u64 | 0x000fffffffffffff)) & 0x7ff0000000000000 == 0)
                by (bit_vector);
        }
        bits
    } else if decider < u64::MAX / 4 * 3 {
        // 25% chance of being an infinite
        proof {
            assert(0x7ff0000000000000u64 & 0x7ff0000000000000 == 0x7ff0000000000000
                && 0x7ff0000000000000u64 & 0x000fffffffffffff == 0) by (bit_vector);
            assert(0xfff0000000000000u64 & 0x7ff0000000000000 == 0x7ff0000000000000
                && 0xfff0000000000000u64 & 0x000fffffffffffff == 0) by (bit_vector);
        }
        if decider % 2 == 0 {
            INF_64
        } else {
            NEG_INF_64
        }
    } else {
        // 25% chance of being a random bit pattern
        w
    }
}

/// Spreads one fallible triple into a triple of fallible slots, so that a
/// per-trial failure can be reported symmetrically in every result column.
pub trait Transposable {
    type Transposed;

    /// Whether `r` is a legitimate spread of `self`.
    spec fn is_transposed(self, r: Self::Transposed) -> bool;

    fn transpose(self) -> (r: Self::Transposed)
        ensures
            self.is_transposed(r),
    ;
}

impl<A, B, C, E: Clone> Transposable for Result<(A, B, C), E> {
    type Transposed = (Result<A, E>, Result<B, E>, Result<C, E>);

    open spec fn is_transposed(self, r: Self::Transposed) -> bool {
        match self {
            Ok((a, b, c)) => r == (Ok::<A, E>(a), Ok::<B, E>(b), Ok::<C, E>(c)),
            Err(e) => {
                &&& r.0 matches Err(e0) && cloned(e, e0)
                &&& r.1 matches Err(e1) && cloned(e, e1)
                &&& r.2 matches Err(e2) && cloned(e, e2)
            },
        }
    }

    fn transpose(self) -> (r: Self::Transposed) {
        match self {
            Ok((a, b, c)) => (Ok(a), Ok(b), Ok(c)),
            Err(e) => (Err(e.clone()), Err(e.clone()), Err(e)),
        }
    }
}

impl TypedValue {
    /// The raw storage bits, widened to 64 for uniform reporting.
    pub open spec fn bits_spec(self) -> u64 {
        match self {
            TypedValue::I32(v) => v as u32 as u64,
            TypedValue::I64(v) => v as u64,
            TypedValue::F32(b) => b as u64,
            TypedValue::F64(b) => b,
        }
    }

    /// The class of the value's bit pattern, at the value's own width. Integer
    /// values are classified too, as if their bits were float storage.
    pub open spec fn class_spec(self) -> Class {
        match self {
            TypedValue::I32(v) => spec_classify_32(v as u32),
            TypedValue::I64(v) => spec_classify_64(v as u64),
            TypedValue::F32(b) => spec_classify_32(b),
            TypedValue::F64(b) => spec_classify_64(b),
        }
    }
}

} // verus!
