//! The request handler: validation and response shaping.
//!
//! The handler turns one deserialized request into either a success response
//! or a rejection.  Validation runs first and rejects any measurement that
//! is not a strictly positive finite number — including NaN and the
//! infinities, which would otherwise drift through the classifier's
//! comparison chain.  Only a validated request may reach the calculator, so
//! division by zero cannot occur and the computed BMI is never NaN.  The
//! floating-point division itself is the transport layer's single
//! contribution; it hands the resulting bit pattern to [`build_response`].

use vstd::prelude::*;

verus! {

use vstd::string::StringExecFns;
use crate::category::{Category, category_of_bits, categorize_bmi};
use crate::float_bits::{is_finite_bits, is_nan_bits, sign_field, value_scaled,
    lemma_decompose, lemma_magnitude_nonneg, lemma_positive_magnitude};

/// One BMI calculation request: the binary64 bit patterns of the two
/// measurements, weight in kilograms and height in metres.
#[derive(Clone, Copy, Debug, PartialEq, Eq, Structural)]
pub struct BmiRequest {
    /// Bit pattern of the weight in kilograms.
    pub weight_bits: u64,
    /// Bit pattern of the height in metres.
    pub height_bits: u64,
}

/// One successful answer: the computed BMI's bit pattern and its category.
#[derive(Clone, Copy, Debug, PartialEq, Eq, Structural)]
pub struct BmiResponse {
    /// Bit pattern of the computed BMI.
    pub bmi_bits: u64,
    /// The category the BMI falls in.
    pub category: Category,
}

/// The one rejection the handler issues: a measurement that is not a
/// strictly positive finite number.
#[derive(Clone, Copy, Debug, PartialEq, Eq, Structural)]
pub enum ValidationError {
    NonPositiveInput,
}

impl ValidationError {
    /// The message surfaced with the client error.
    pub open spec fn message_spec(self) -> Seq<char> {
        "Weight and height must be positive numbers"@
    }

    /// Returns the human-readable rejection message.
    pub fn message(self) -> (s: String)
        ensures
            s@ == self.message_spec(),
    {
        String::from_str("Weight and height must be positive numbers")
    }
}

/// A measurement is admissible when its pattern denotes a strictly positive
/// finite number.  This one guard keeps zero, negative values, NaN and the
/// infinities out of the calculation, and with it any division by zero.
pub open spec fn admissible_measurement(bits: u64) -> bool {
    is_finite_bits(bits) && value_scaled(bits) > 0
}

/// A request is valid when both measurements are admissible.
pub open spec fn valid_request(req: BmiRequest) -> bool {
    admissible_measurement(req.weight_bits) && admissible_measurement(req.height_bits)
}

/// What validation decides for a request: acceptance exactly when the
/// request is valid, the fixed rejection otherwise.
pub open spec fn validation_spec(req: BmiRequest) -> Result<(), ValidationError> {
    if valid_request(req) {
        Ok(())
    } else {
        Err(ValidationError::NonPositiveInput)
    }
}

/// Decides whether one measurement denotes a strictly positive finite
/// number.
///
/// The admissible patterns are exactly those from 1 up to (excluding) the
/// positive-infinity pattern: the sign bit is clear, the exponent field is
/// below its all-ones mark, and the pattern is not one of the two zeros.
pub fn is_positive_finite(bits: u64) -> (r: bool)
    ensures
        r == admissible_measurement(bits),
{
    proof {
        lemma_decompose(bits);
        if is_finite_bits(bits) {
            if sign_field(bits) == 0 {
                lemma_positive_magnitude(bits);
            } else {
                lemma_magnitude_nonneg(bits);
            }
        }
    }
    1 <= bits && bits < 0x7FF0000000000000
}

/// Validates a request before any calculation: both measurements must be
/// strictly positive finite numbers, or the request is rejected and the
/// calculator and classifier are never invoked.
pub fn validate_request(req: &BmiRequest) -> (r: Result<(), ValidationError>)
    ensures
        r == validation_spec(*req),
{
    if is_positive_finite(req.weight_bits) && is_positive_finite(req.height_bits) {
        Ok(())
    } else {
        Err(ValidationError::NonPositiveInput)
    }
}

/// The response owed for a computed BMI pattern: the pattern itself,
/// classified exactly.
pub open spec fn response_spec(bmi_bits: u64) -> BmiResponse {
    BmiResponse { bmi_bits, category: category_of_bits(bmi_bits) }
}

/// Builds the success response for a computed BMI.
///
/// The caller guarantees the pattern is not NaN.  Dividing a positive
/// finite weight by the square of a positive finite height can round to
/// zero or overflow to infinity, but never produces NaN, so a validated
/// request always satisfies this.
pub fn build_response(bmi_bits: u64) -> (resp: BmiResponse)
    requires
        !is_nan_bits(bmi_bits),
    ensures
        resp == response_spec(bmi_bits),
{
    BmiResponse { bmi_bits, category: categorize_bmi(bmi_bits) }
}

/// The handler holds no state between invocations: what it decides and what
/// it answers are functions of the request and the computed BMI alone, so
/// invoking it twice with identical input yields identical output.
pub proof fn lemma_handler_idempotent(req1: BmiRequest, req2: BmiRequest, bmi1: u64, bmi2: u64)
    requires
        req1 == req2,
        bmi1 == bmi2,
    ensures
        validation_spec(req1) == validation_spec(req2),
        response_spec(bmi1) == response_spec(bmi2),
{
}

} // verus!
