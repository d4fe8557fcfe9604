//! Verified core of a BMI calculator service.
//!
//! The service computes a Body Mass Index from a weight in kilograms and a
//! height in metres and classifies it into one of four WHO categories.  The
//! core verified here is everything that decides: input validation, the
//! classification boundary logic, and the shaping of the response.  The two
//! measurements and the BMI itself travel as IEEE-754 binary64 bit patterns
//! (`u64`), which [`float_bits`] models exactly as integers, so the category
//! boundaries (18.5, 25.0, 30.0) are decided with full floating-point
//! precision.  The one floating-point operation, the division
//! `weight / height^2`, is performed by the surrounding transport layer,
//! which hands the resulting bit pattern back to the verified handler.

pub mod category;
pub mod float_bits;
pub mod handler;
