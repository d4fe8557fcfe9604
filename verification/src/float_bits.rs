//! An exact integer model of IEEE-754 binary64 bit patterns.
//!
//! A `u64` is read as the bit pattern of a double-precision float: one sign
//! bit, an 11-bit biased exponent and a 52-bit fraction.  For every finite
//! pattern the value it denotes is a dyadic rational, and multiplying it by
//! `2^1074` (the scale of the smallest subnormal) turns it into an integer.
//! [`value_scaled`] is that integer, so statements about float comparisons
//! become statements about mathematical integers and are decided exactly.
//!
//! The central fact proved here is [`lemma_bits_value_order`]: for
//! non-negative finite patterns, the order of the raw bits is the order of
//! the denoted values.  This is what lets verified code compare a float
//! against a constant threshold by comparing two `u64`s.

use vstd::prelude::*;

verus! {

use vstd::arithmetic::power2::{pow2, lemma2_to64, lemma2_to64_rest, lemma_pow2_adds,
    lemma_pow2_pos, lemma_pow2_strictly_increases};
use vstd::arithmetic::div_mod::lemma_fundamental_div_mod;

/// The sign bit of the pattern: 0 for non-negative values, 1 for negative
/// ones (including negative zero).
pub open spec fn sign_field(bits: u64) -> int {
    bits as int / pow2(63) as int
}

/// The 11-bit biased exponent field, between 0 and 2047.
pub open spec fn exp_field(bits: u64) -> int {
    (bits as int / pow2(52) as int) % 2048
}

/// The 52-bit fraction field, between 0 and `2^52 - 1`.
pub open spec fn frac_field(bits: u64) -> int {
    bits as int % pow2(52) as int
}

/// A pattern denotes a finite value exactly when its exponent field is not
/// all ones (2047 marks infinities and NaNs).
pub open spec fn is_finite_bits(bits: u64) -> bool {
    exp_field(bits) != 2047
}

/// A pattern is a NaN when the exponent field is all ones and the fraction
/// is non-zero.
pub open spec fn is_nan_bits(bits: u64) -> bool {
    exp_field(bits) == 2047 && frac_field(bits) != 0
}

/// The bit pattern of positive infinity.
pub open spec fn pos_infinity_bits() -> u64 {
    0x7FF0000000000000u64
}

/// The bit pattern of negative infinity.
pub open spec fn neg_infinity_bits() -> u64 {
    0xFFF0000000000000u64
}

/// The magnitude of a finite pattern, scaled by `2^1074`.
///
/// A subnormal pattern (exponent field 0) denotes `frac * 2^-1074`; a normal
/// one denotes `(2^52 + frac) * 2^(exp - 1075)`.  Scaling both by `2^1074`
/// gives `frac` and `(2^52 + frac) * 2^(exp - 1)` respectively.
pub open spec fn magnitude_scaled(bits: u64) -> int
    recommends
        is_finite_bits(bits),
{
    if exp_field(bits) == 0 {
        frac_field(bits)
    } else {
        (pow2(52) as int + frac_field(bits)) * pow2((exp_field(bits) - 1) as nat) as int
    }
}

/// The value denoted by a finite pattern, scaled by `2^1074`.  The denoted
/// float equals `value_scaled(bits) / 2^1074`; in particular both zero
/// patterns denote 0.
pub open spec fn value_scaled(bits: u64) -> int
    recommends
        is_finite_bits(bits),
{
    if sign_field(bits) == 1 {
        -magnitude_scaled(bits)
    } else {
        magnitude_scaled(bits)
    }
}

/// A pattern splits into its three fields:
/// `bits == sign * 2^63 + exp * 2^52 + frac`.
pub proof fn lemma_decompose(bits: u64)
    ensures
        bits == sign_field(bits) * 0x8000000000000000 + exp_field(bits) * 0x10000000000000
            + frac_field(bits),
        0 <= frac_field(bits) < 0x10000000000000,
        0 <= exp_field(bits) <= 2047,
        0 <= sign_field(bits) <= 1,
{
    lemma2_to64();
    lemma2_to64_rest();
    let q: int = bits as int / 0x10000000000000;
    lemma_fundamental_div_mod(bits as int, 0x10000000000000);
    lemma_fundamental_div_mod(q, 2048);
    assert(bits as int / pow2(52) as int == q);
    assert(sign_field(bits) == bits as int / 0x8000000000000000);
    assert(exp_field(bits) == q % 2048);
    assert(frac_field(bits) == bits as int % 0x10000000000000);
}

/// The only patterns that are neither finite nor NaN are the two
/// infinities.
pub proof fn lemma_non_finite_patterns(bits: u64)
    requires
        !is_finite_bits(bits),
        !is_nan_bits(bits),
    ensures
        bits == pos_infinity_bits() || bits == neg_infinity_bits(),
{
    lemma_decompose(bits);
}

/// The magnitude of a finite pattern is never negative.
pub proof fn lemma_magnitude_nonneg(bits: u64)
    requires
        is_finite_bits(bits),
    ensures
        magnitude_scaled(bits) >= 0,
{
    lemma_decompose(bits);
    lemma2_to64_rest();
    if exp_field(bits) != 0 {
        let m: int = pow2(52) as int + frac_field(bits);
        let p: int = pow2((exp_field(bits) - 1) as nat) as int;
        lemma_pow2_pos((exp_field(bits) - 1) as nat);
        assert(m * p >= 0) by (nonlinear_arith)
            requires
                m >= 0,
                p >= 0,
        ;
    }
}

/// A finite pattern with a clear sign bit denotes a strictly positive value
/// exactly when it is not the zero pattern.
pub proof fn lemma_positive_magnitude(bits: u64)
    requires
        is_finite_bits(bits),
        sign_field(bits) == 0,
    ensures
        magnitude_scaled(bits) > 0 <==> bits != 0,
{
    lemma_decompose(bits);
    lemma2_to64_rest();
    if exp_field(bits) != 0 {
        let m: int = pow2(52) as int + frac_field(bits);
        let p: int = pow2((exp_field(bits) - 1) as nat) as int;
        lemma_pow2_pos((exp_field(bits) - 1) as nat);
        assert(m * p > 0) by (nonlinear_arith)
            requires
                m > 0,
                p > 0,
        ;
    }
}

/// For finite patterns with a clear sign bit, the order of the raw bits is
/// strictly the order of the denoted values.
pub proof fn lemma_magnitude_strictly_monotone(a: u64, b: u64)
    requires
        sign_field(a) == 0,
        sign_field(b) == 0,
        is_finite_bits(a),
        is_finite_bits(b),
        a < b,
    ensures
        magnitude_scaled(a) < magnitude_scaled(b),
{
    lemma_decompose(a);
    lemma_decompose(b);
    lemma2_to64();
    lemma2_to64_rest();
    let ea = exp_field(a);
    let fa = frac_field(a);
    let eb = exp_field(b);
    let fb = frac_field(b);
    let p52: int = pow2(52) as int;
    assert(ea <= eb);
    if ea == eb {
        assert(fa < fb);
        if ea != 0 {
            let p: int = pow2((ea - 1) as nat) as int;
            lemma_pow2_pos((ea - 1) as nat);
            assert((p52 + fa) * p < (p52 + fb) * p) by (nonlinear_arith)
                requires
                    fa < fb,
                    p > 0,
            ;
        }
    } else {
        // ea < eb, so b is in a strictly higher binade than a's upper bound.
        let pb: int = pow2((eb - 1) as nat) as int;
        lemma_pow2_pos((eb - 1) as nat);
        lemma_pow2_adds(52, (eb - 1) as nat);
        assert((p52 + fb) * pb >= p52 * pb) by (nonlinear_arith)
            requires
                fb >= 0,
                pb > 0,
        ;
        assert(p52 * pb == pow2((51 + eb) as nat) as int);
        if ea == 0 {
            // magnitude of a is its fraction, below 2^52 <= 2^(51 + eb).
            if 52 < 51 + eb {
                lemma_pow2_strictly_increases(52, (51 + eb) as nat);
            }
            assert(magnitude_scaled(a) < pow2((51 + eb) as nat));
        } else {
            let pa: int = pow2((ea - 1) as nat) as int;
            lemma_pow2_pos((ea - 1) as nat);
            lemma_pow2_adds(53, (ea - 1) as nat);
            assert((p52 + fa) * pa < (2 * p52) * pa) by (nonlinear_arith)
                requires
                    fa < p52,
                    pa > 0,
            ;
            assert((2 * p52) * pa == pow2((52 + ea) as nat) as int);
            if 52 + ea < 51 + eb {
                lemma_pow2_strictly_increases((52 + ea) as nat, (51 + eb) as nat);
            }
            assert(magnitude_scaled(a) < pow2((51 + eb) as nat));
        }
    }
}

/// Bit order and value order agree on finite patterns with a clear sign bit.
pub proof fn lemma_bits_value_order(a: u64, b: u64)
    requires
        sign_field(a) == 0,
        sign_field(b) == 0,
        is_finite_bits(a),
        is_finite_bits(b),
    ensures
        a < b <==> value_scaled(a) < value_scaled(b),
{
    if a < b {
        lemma_magnitude_strictly_monotone(a, b);
    } else if b < a {
        lemma_magnitude_strictly_monotone(b, a);
    }
}

} // verus!
