//! The four WHO BMI categories and the verified classifier.
//!
//! A BMI classifies by which half-open interval contains it, with each
//! boundary belonging to the upper category: below 18.5 is underweight, 18.5
//! up to 25 is normal weight, 25 up to 30 is overweight, and 30 upward is
//! obese.  The classifier receives the BMI as a binary64 bit pattern and
//! decides the comparisons exactly, by comparing raw bits against the bit
//! patterns of the three boundaries; [`lemma_threshold_patterns`] and the
//! order lemma of [`crate::float_bits`] prove that this is the same as
//! comparing the mathematical values.

use vstd::prelude::*;

verus! {

use vstd::arithmetic::power2::{pow2, lemma2_to64, lemma2_to64_rest, lemma_pow2_adds,
    lemma_pow2_pos, lemma_pow2_unfold};
use vstd::string::StringExecFns;
use crate::float_bits::{sign_field, is_finite_bits, is_nan_bits, pos_infinity_bits,
    neg_infinity_bits, magnitude_scaled, value_scaled, lemma_decompose,
    lemma_non_finite_patterns, lemma_magnitude_nonneg, lemma_bits_value_order};

/// A closed enumeration of the four WHO BMI categories.
#[derive(Clone, Copy, Debug, PartialEq, Eq, Structural)]
pub enum Category {
    Underweight,
    NormalWeight,
    Overweight,
    Obese,
}

impl Category {
    /// The human-readable label of the category.
    pub open spec fn label_spec(self) -> Seq<char> {
        match self {
            Category::Underweight => "Underweight"@,
            Category::NormalWeight => "Normal weight"@,
            Category::Overweight => "Overweight"@,
            Category::Obese => "Obese"@,
        }
    }

    /// The rank of the category on the severity scale, from underweight (0)
    /// to obese (3).
    pub open spec fn severity(self) -> int {
        match self {
            Category::Underweight => 0,
            Category::NormalWeight => 1,
            Category::Overweight => 2,
            Category::Obese => 3,
        }
    }

    /// Returns the category's label as an owned string.
    pub fn label(self) -> (s: String)
        ensures
            s@ == self.label_spec(),
    {
        match self {
            Category::Underweight => String::from_str("Underweight"),
            Category::NormalWeight => String::from_str("Normal weight"),
            Category::Overweight => String::from_str("Overweight"),
            Category::Obese => String::from_str("Obese"),
        }
    }
}

/// `18.5 * 2^1074`: the scaled boundary between underweight and normal.
pub open spec fn underweight_limit_scaled() -> int {
    37 * pow2(1073) as int
}

/// `25.0 * 2^1074`: the scaled boundary between normal and overweight.
pub open spec fn normal_limit_scaled() -> int {
    25 * pow2(1074) as int
}

/// `30.0 * 2^1074`: the scaled boundary between overweight and obese.
pub open spec fn overweight_limit_scaled() -> int {
    30 * pow2(1074) as int
}

/// The category of a BMI whose value, scaled by `2^1074`, is `v`.  Each
/// boundary belongs to the category above it.
pub open spec fn category_of_scaled(v: int) -> Category {
    if v < underweight_limit_scaled() {
        Category::Underweight
    } else if v < normal_limit_scaled() {
        Category::NormalWeight
    } else if v < overweight_limit_scaled() {
        Category::Overweight
    } else {
        Category::Obese
    }
}

/// The category of a BMI given as a binary64 bit pattern.  A finite value
/// classifies by its exact scaled value; the infinities sit below every
/// boundary and above every boundary respectively.
pub open spec fn category_of_bits(bits: u64) -> Category
    recommends
        !is_nan_bits(bits),
{
    if bits == neg_infinity_bits() {
        Category::Underweight
    } else if bits == pos_infinity_bits() {
        Category::Obese
    } else {
        category_of_scaled(value_scaled(bits))
    }
}

/// The four labels are pairwise distinct, so the label returned for a BMI
/// names exactly one category.
pub proof fn lemma_labels_distinct(c1: Category, c2: Category)
    ensures
        c1.label_spec() == c2.label_spec() <==> c1 == c2,
{
    reveal_strlit("Underweight");
    reveal_strlit("Normal weight");
    reveal_strlit("Overweight");
    reveal_strlit("Obese");
    // The four labels differ already in length.
    assert("Underweight"@.len() == 11);
    assert("Normal weight"@.len() == 13);
    assert("Overweight"@.len() == 10);
    assert("Obese"@.len() == 5);
}

/// The three classification boundaries are positive and strictly ordered.
pub proof fn lemma_thresholds_ordered()
    ensures
        0 < underweight_limit_scaled(),
        underweight_limit_scaled() < normal_limit_scaled(),
        normal_limit_scaled() < overweight_limit_scaled(),
{
    lemma_pow2_pos(1073);
    lemma_pow2_unfold(1074);
}

/// The classification is monotone in the BMI: a larger value never falls in
/// a less severe category, and every value falls in exactly one.
pub proof fn lemma_category_monotone(v1: int, v2: int)
    requires
        v1 <= v2,
    ensures
        category_of_scaled(v1).severity() <= category_of_scaled(v2).severity(),
{
    lemma_thresholds_ordered();
}

/// Monotonicity at the classifier itself: of two finite non-negative BMI
/// patterns, the larger never falls in a less severe category.
pub proof fn lemma_categorize_monotone_bits(a: u64, b: u64)
    requires
        sign_field(a) == 0,
        sign_field(b) == 0,
        is_finite_bits(a),
        is_finite_bits(b),
        a <= b,
    ensures
        category_of_bits(a).severity() <= category_of_bits(b).severity(),
{
    // A finite pattern is neither of the two infinity patterns.
    lemma_decompose(0x7FF0000000000000u64);
    lemma_decompose(0xFFF0000000000000u64);
    lemma_bits_value_order(a, b);
    lemma_category_monotone(value_scaled(a), value_scaled(b));
}

/// The bit patterns of the three boundary values 18.5, 25.0 and 30.0, with
/// their exact scaled values.
pub proof fn lemma_threshold_patterns()
    ensures
        sign_field(0x4032800000000000u64) == 0,
        is_finite_bits(0x4032800000000000u64),
        value_scaled(0x4032800000000000u64) == underweight_limit_scaled(),
        sign_field(0x4039000000000000u64) == 0,
        is_finite_bits(0x4039000000000000u64),
        value_scaled(0x4039000000000000u64) == normal_limit_scaled(),
        sign_field(0x403E000000000000u64) == 0,
        is_finite_bits(0x403E000000000000u64),
        value_scaled(0x403E000000000000u64) == overweight_limit_scaled(),
{
    lemma2_to64();
    lemma2_to64_rest();
    lemma_decompose(0x4032800000000000u64);
    lemma_decompose(0x4039000000000000u64);
    lemma_decompose(0x403E000000000000u64);
    lemma_pow2_adds(47, 1026);
    lemma_pow2_adds(48, 1026);
    lemma_pow2_adds(49, 1026);
    lemma_pow2_unfold(1075);
    // 18.5 is 1.00101b * 2^4: exponent field 1027, fraction 5 * 2^47.
    assert(pow2(52) as int + 0x2800000000000 == 37 * pow2(47));
    assert((37 * pow2(47) as int) * pow2(1026) as int == 37 * pow2(1073)) by (nonlinear_arith)
        requires
            pow2(47) * pow2(1026) == pow2(1073),
    ;
    // 25.0 is 1.1001b * 2^4: fraction 9 * 2^48.
    assert(pow2(52) as int + 0x9000000000000 == 25 * pow2(48));
    assert((25 * pow2(48) as int) * pow2(1026) as int == 25 * pow2(1074)) by (nonlinear_arith)
        requires
            pow2(48) * pow2(1026) == pow2(1074),
    ;
    // 30.0 is 1.111b * 2^4: fraction 7 * 2^49.
    assert(pow2(52) as int + 0xE000000000000 == 15 * pow2(49));
    assert((15 * pow2(49) as int) * pow2(1026) as int == 15 * pow2(1075)) by (nonlinear_arith)
        requires
            pow2(49) * pow2(1026) == pow2(1075),
    ;
}

/// Classifies a BMI given as a binary64 bit pattern, exactly as comparing
/// the floating-point value against 18.5, 25.0 and 30.0 would.
///
/// For non-negative floats the raw bit patterns order exactly as the values
/// do, so each boundary comparison is a single integer comparison.  NaN
/// patterns are excluded: validation rejects every input that could produce
/// one.
pub fn categorize_bmi(bmi_bits: u64) -> (c: Category)
    requires
        !is_nan_bits(bmi_bits),
    ensures
        c == category_of_bits(bmi_bits),
{
    proof {
        lemma_decompose(bmi_bits);
        lemma_thresholds_ordered();
        if !is_finite_bits(bmi_bits) {
            lemma_non_finite_patterns(bmi_bits);
        } else if sign_field(bmi_bits) == 1 {
            lemma_magnitude_nonneg(bmi_bits);
        } else {
            lemma_threshold_patterns();
            lemma_bits_value_order(bmi_bits, 0x4032800000000000u64);
            lemma_bits_value_order(bmi_bits, 0x4039000000000000u64);
            lemma_bits_value_order(bmi_bits, 0x403E000000000000u64);
        }
    }
    if bmi_bits >= 0x8000000000000000 {
        // The sign bit is set: the value is negative infinity, a negative
        // number, or negative zero, all below the first boundary.
        Category::Underweight
    } else if bmi_bits < 0x4032800000000000 {
        Category::Underweight
    } else if bmi_bits < 0x4039000000000000 {
        Category::NormalWeight
    } else if bmi_bits < 0x403E000000000000 {
        Category::Overweight
    } else {
        Category::Obese
    }
}

} // verus!
