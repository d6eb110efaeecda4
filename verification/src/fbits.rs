//! Constructing IEEE 754 single-precision bit patterns from integers.
//!
//! The per-frame uniform block is written to the GPU as raw bytes whose
//! fields the shader reads as 32-bit floats. The values themselves live in
//! this library as integers (pixels, milliseconds), so the bit patterns
//! are computed here by integer arithmetic alone: a value is given as a
//! sign and a fixed-point magnitude with 23 fraction bits, and encoded
//! with its mantissa truncated toward zero.

use vstd::arithmetic::power2::{lemma2_to64, lemma2_to64_rest, pow2};
use vstd::prelude::*;

verus! {

/// The position of the highest set bit of a positive number.
pub open spec fn spec_high_bit(v: u64) -> nat
    recommends
        v >= 1,
    decreases v,
{
    if v < 2 {
        0
    } else {
        1 + spec_high_bit(v / 2)
    }
}

/// The IEEE 754 single-precision bit pattern of the value
/// `(-1)^neg * v / 2^23`, its mantissa truncated toward zero.
///
/// `v` is a fixed-point magnitude with 23 fraction bits. Zero encodes as
/// a (possibly negative) IEEE zero; any other magnitude is normalized by
/// its highest set bit `e`, giving biased exponent `(e - 23) + 127` and
/// the 23 bits right of the highest bit as the mantissa. Every `u64`
/// magnitude stays below the exponent range's ceiling, so the result is
/// never an infinity or a NaN.
pub open spec fn spec_f32_bits_fixed(neg: bool, v: u64) -> u32 {
    let sign: u32 = if neg {
        0x8000_0000u32
    } else {
        0u32
    };
    if v == 0 {
        sign
    } else {
        let e = spec_high_bit(v) as u64;
        let frac = if e >= 23 {
            ((v >> (e - 23)) as u32) & 0x7F_FFFF
        } else {
            ((v << (23 - e)) as u32) & 0x7F_FFFF
        };
        sign | ((((e + 104) as u32)) << 23u32) | frac
    }
}

/// A positive number below `2^n` has its highest set bit below `n`.
proof fn lemma_high_bit_bound(v: u64, n: nat)
    requires
        1 <= v < pow2(n),
        n >= 1,
    ensures
        spec_high_bit(v) < n,
    decreases n,
{
    vstd::arithmetic::power2::lemma_pow2_unfold(n);
    if v < 2 {
    } else {
        assert(v / 2 < pow2((n - 1) as nat));
        assert(v / 2 >= 1);
        if n - 1 == 0 {
            assert(pow2(0) == 1) by {
                lemma2_to64();
            }
        } else {
            lemma_high_bit_bound(v / 2, (n - 1) as nat);
        }
    }
}

/// The highest set bit of a `u64` is below 64.
proof fn lemma_high_bit_le_63(v: u64)
    requires
        v >= 1,
    ensures
        spec_high_bit(v) <= 63,
{
    assert(pow2(64) == 0x10000000000000000) by {
        lemma2_to64_rest();
    }
    lemma_high_bit_bound(v, 64);
}

/// Computes [`spec_f32_bits_fixed`]: the IEEE 754 single-precision bit
/// pattern of `(-1)^neg * v / 2^23`, mantissa truncated toward zero.
pub fn f32_bits_fixed(neg: bool, v: u64) -> (r: u32)
    ensures
        r == spec_f32_bits_fixed(neg, v),
{
    let sign: u32 = if neg {
        0x8000_0000u32
    } else {
        0u32
    };
    if v == 0 {
        return sign;
    }
    let mut e: u64 = 0;
    let mut x: u64 = v;
    proof {
        lemma_high_bit_le_63(v);
    }
    while x >= 2
        invariant
            x >= 1,
            spec_high_bit(v) == e + spec_high_bit(x),
            e <= spec_high_bit(v),
            spec_high_bit(v) <= 63,
        decreases x,
    {
        proof {
            assert(spec_high_bit(x) == 1 + spec_high_bit(x / 2));
        }
        x = x / 2;
        e = e + 1;
    }
    proof {
        assert(spec_high_bit(x) == 0);
        assert(e == spec_high_bit(v));
        assert(e <= 63);
    }
    let frac: u32 = if e >= 23 {
        (#[verifier::truncate] ((v >> (e - 23)) as u32)) & 0x7F_FFFF
    } else {
        (#[verifier::truncate] ((v << (23 - e)) as u32)) & 0x7F_FFFF
    };
    sign | (((e + 104) as u32) << 23u32) | frac
}

} // verus!
