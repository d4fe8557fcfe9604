use bmi_calculator::category::{categorize_bmi, Category};
use bmi_calculator::handler::{
    build_response, is_positive_finite, validate_request, BmiRequest, ValidationError,
};

fn request(weight_kg: f64, height_m: f64) -> BmiRequest {
    BmiRequest {
        weight_bits: weight_kg.to_bits(),
        height_bits: height_m.to_bits(),
    }
}

#[test]
fn test_categorize_bmi() {
    assert_eq!(categorize_bmi((17.0f64).to_bits()).label(), "Underweight");
    assert_eq!(categorize_bmi((22.0f64).to_bits()).label(), "Normal weight");
    assert_eq!(categorize_bmi((27.0f64).to_bits()).label(), "Overweight");
    assert_eq!(categorize_bmi((32.0f64).to_bits()).label(), "Obese");
}

#[test]
fn boundaries_belong_to_the_upper_category() {
    assert_eq!(categorize_bmi((18.5f64).to_bits()), Category::NormalWeight);
    assert_eq!(categorize_bmi((18.49f64).to_bits()), Category::Underweight);
    assert_eq!(categorize_bmi((25.0f64).to_bits()), Category::Overweight);
    assert_eq!(categorize_bmi((24.99f64).to_bits()), Category::NormalWeight);
    assert_eq!(categorize_bmi((30.0f64).to_bits()), Category::Obese);
    assert_eq!(categorize_bmi((29.99f64).to_bits()), Category::Overweight);
}

#[test]
fn boundaries_just_below_in_the_last_bit() {
    // The largest double strictly below each boundary still classifies low.
    let below_18_5 = f64::from_bits((18.5f64).to_bits() - 1);
    let below_25 = f64::from_bits((25.0f64).to_bits() - 1);
    let below_30 = f64::from_bits((30.0f64).to_bits() - 1);
    assert_eq!(categorize_bmi(below_18_5.to_bits()), Category::Underweight);
    assert_eq!(categorize_bmi(below_25.to_bits()), Category::NormalWeight);
    assert_eq!(categorize_bmi(below_30.to_bits()), Category::Overweight);
}

#[test]
fn end_to_end_normal_weight() {
    let req = request(70.0, 1.75);
    assert_eq!(validate_request(&req), Ok(()));
    let bmi = 70.0f64 / (1.75f64 * 1.75f64);
    assert_eq!(bmi, 22.857142857142858);
    let resp = build_response(bmi.to_bits());
    assert_eq!(resp.bmi_bits, bmi.to_bits());
    assert_eq!(resp.category, Category::NormalWeight);
    assert_eq!(resp.category.label(), "Normal weight");
}

#[test]
fn negative_weight_is_rejected() {
    let req = request(-5.0, 1.75);
    let err = validate_request(&req).unwrap_err();
    assert_eq!(err, ValidationError::NonPositiveInput);
    assert_eq!(err.message(), "Weight and height must be positive numbers");
}

#[test]
fn zero_weight_is_rejected() {
    let req = request(0.0, 1.8);
    assert!(validate_request(&req).is_err());
}

#[test]
fn zero_height_is_rejected() {
    let req = request(70.0, 0.0);
    assert!(validate_request(&req).is_err());
}

#[test]
fn negative_zero_is_rejected() {
    assert!(!is_positive_finite((-0.0f64).to_bits()));
    assert!(validate_request(&request(-0.0, 1.75)).is_err());
}

#[test]
fn nan_is_rejected() {
    assert!(!is_positive_finite(f64::NAN.to_bits()));
    assert!(validate_request(&request(f64::NAN, 1.75)).is_err());
    assert!(validate_request(&request(70.0, f64::NAN)).is_err());
}

#[test]
fn infinity_is_rejected() {
    assert!(!is_positive_finite(f64::INFINITY.to_bits()));
    assert!(!is_positive_finite(f64::NEG_INFINITY.to_bits()));
    assert!(validate_request(&request(f64::INFINITY, 1.75)).is_err());
    assert!(validate_request(&request(70.0, f64::NEG_INFINITY)).is_err());
}

#[test]
fn subnormal_measurements_are_accepted() {
    assert!(is_positive_finite((5e-324f64).to_bits()));
    assert!(is_positive_finite(f64::MAX.to_bits()));
    assert_eq!(validate_request(&request(5e-324, 1.75)), Ok(()));
}

#[test]
fn extreme_quotients_still_classify() {
    // A quotient that overflows to infinity classifies as obese, one that
    // underflows to zero as underweight; neither is a NaN.
    let huge = f64::MAX / (1e-150f64 * 1e-150f64);
    assert!(huge.is_infinite());
    assert_eq!(build_response(huge.to_bits()).category, Category::Obese);
    let tiny = 5e-324f64 / (1e150f64 * 1e150f64);
    assert_eq!(tiny, 0.0);
    assert_eq!(build_response(tiny.to_bits()).category, Category::Underweight);
}

#[test]
fn handler_is_idempotent_on_identical_input() {
    let req = request(70.0, 1.75);
    assert_eq!(validate_request(&req), validate_request(&req));
    let bmi = 70.0f64 / (1.75f64 * 1.75f64);
    assert_eq!(build_response(bmi.to_bits()), build_response(bmi.to_bits()));
    let bad = request(-1.0, 1.75);
    assert_eq!(validate_request(&bad), validate_request(&bad));
}

#[test]
fn labels_are_the_four_who_names() {
    assert_eq!(Category::Underweight.label(), "Underweight");
    assert_eq!(Category::NormalWeight.label(), "Normal weight");
    assert_eq!(Category::Overweight.label(), "Overweight");
    assert_eq!(Category::Obese.label(), "Obese");
}
