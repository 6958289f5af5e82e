use vstd::prelude::*;

use crate::scalar::POSITIVE_ZERO_BITS;
use crate::scalar::Scalar;
use crate::scalar::gt_bits;
use crate::scalar::is_approximately_zero_bits;
use crate::scalar::is_infinite_bits;
use crate::scalar::is_nan_bits;
use crate::scalar::is_negative_bits;
use crate::scalar::lt_bits;
use crate::decline_rate::DeclineTimeUnit;
use crate::DeclineCurveAnalysisError;
use crate::InputParameter;
use crate::InputProblem;

verus! {

// Stateless validation predicates shared by every segment constructor: the
// single source of truth for the error taxonomy. Each one either accepts a
// value or names the offending parameter and what is wrong with it.

/// Rejects a not-a-number or an infinity.
pub open spec fn spec_validate_finite(bits: u64, parameter: InputParameter) -> Result<
    (),
    DeclineCurveAnalysisError,
> {
    if is_nan_bits(bits) {
        Err(
            DeclineCurveAnalysisError::InvalidInput {
                parameter,
                problem: InputProblem::NotANumber,
            },
        )
    } else if is_infinite_bits(bits) {
        Err(DeclineCurveAnalysisError::InvalidInput { parameter, problem: InputProblem::Infinite })
    } else {
        Ok(())
    }
}

pub fn validate_finite(value: Scalar, parameter: InputParameter) -> (r: Result<
    (),
    DeclineCurveAnalysisError,
>)
    ensures
        r == spec_validate_finite(value@, parameter),
{
    if value.is_nan() {
        Err(
            DeclineCurveAnalysisError::InvalidInput {
                parameter,
                problem: InputProblem::NotANumber,
            },
        )
    } else if value.is_infinite() {
        Err(DeclineCurveAnalysisError::InvalidInput { parameter, problem: InputProblem::Infinite })
    } else {
        Ok(())
    }
}

/// Accepts any finite non-negative value. Negative zero is not below zero,
/// so it is accepted here.
pub open spec fn spec_validate_positive(bits: u64, parameter: InputParameter) -> Result<
    (),
    DeclineCurveAnalysisError,
> {
    if spec_validate_finite(bits, parameter) is Err {
        spec_validate_finite(bits, parameter)
    } else if is_negative_bits(bits) {
        Err(DeclineCurveAnalysisError::InvalidInput { parameter, problem: InputProblem::Negative })
    } else {
        Ok(())
    }
}

pub fn validate_positive(value: Scalar, parameter: InputParameter) -> (r: Result<
    (),
    DeclineCurveAnalysisError,
>)
    ensures
        r == spec_validate_positive(value@, parameter),
{
    let finite = validate_finite(value, parameter);
    if finite.is_err() {
        finite
    } else if value.is_negative() {
        Err(DeclineCurveAnalysisError::InvalidInput { parameter, problem: InputProblem::Negative })
    } else {
        Ok(())
    }
}

/// Accepts only finite values strictly above the absolute tolerance:
/// negative values and values within the tolerance of zero (of either
/// sign) are rejected.
pub open spec fn spec_validate_non_zero_positive(bits: u64, parameter: InputParameter) -> Result<
    (),
    DeclineCurveAnalysisError,
> {
    if spec_validate_finite(bits, parameter) is Err {
        spec_validate_finite(bits, parameter)
    } else if is_negative_bits(bits) || is_approximately_zero_bits(bits) {
        Err(
            DeclineCurveAnalysisError::InvalidInput {
                parameter,
                problem: InputProblem::NegativeOrZero,
            },
        )
    } else {
        Ok(())
    }
}

pub fn validate_non_zero_positive(value: Scalar, parameter: InputParameter) -> (r: Result<
    (),
    DeclineCurveAnalysisError,
>)
    ensures
        r == spec_validate_non_zero_positive(value@, parameter),
{
    let finite = validate_finite(value, parameter);
    if finite.is_err() {
        finite
    } else if value.is_negative() || value.is_approximately_zero() {
        Err(
            DeclineCurveAnalysisError::InvalidInput {
                parameter,
                problem: InputProblem::NegativeOrZero,
            },
        )
    } else {
        Ok(())
    }
}

/// Accepts finite values of either sign whose magnitude is above the
/// absolute tolerance; decline rates may be negative (inclines).
pub open spec fn spec_validate_non_zero(bits: u64, parameter: InputParameter) -> Result<
    (),
    DeclineCurveAnalysisError,
> {
    if spec_validate_finite(bits, parameter) is Err {
        spec_validate_finite(bits, parameter)
    } else if is_approximately_zero_bits(bits) {
        Err(
            DeclineCurveAnalysisError::InvalidInput {
                parameter,
                problem: InputProblem::ApproximatelyZero,
            },
        )
    } else {
        Ok(())
    }
}

pub fn validate_non_zero(value: Scalar, parameter: InputParameter) -> (r: Result<
    (),
    DeclineCurveAnalysisError,
>)
    ensures
        r == spec_validate_non_zero(value@, parameter),
{
    let finite = validate_finite(value, parameter);
    if finite.is_err() {
        finite
    } else if value.is_approximately_zero() {
        Err(
            DeclineCurveAnalysisError::InvalidInput {
                parameter,
                problem: InputProblem::ApproximatelyZero,
            },
        )
    } else {
        Ok(())
    }
}

/// A duration must be finite, non-negative, and no longer than the
/// thousand-year bound expressed in its own unit.
pub open spec fn spec_validate_duration(bits: u64, max_duration: u64) -> Result<
    (),
    DeclineCurveAnalysisError,
> {
    if spec_validate_positive(bits, InputParameter::IncrementalDuration) is Err {
        spec_validate_positive(bits, InputParameter::IncrementalDuration)
    } else if gt_bits(bits, max_duration) {
        Err(DeclineCurveAnalysisError::DurationTooLong)
    } else {
        Ok(())
    }
}

pub fn validate_duration<Time: DeclineTimeUnit>(duration: Time) -> (r: Result<
    (),
    DeclineCurveAnalysisError,
>)
    ensures
        r == spec_validate_duration(duration.spec_value(), Time::spec_max_duration()),
{
    let value = duration.value();
    let positive = validate_positive(value, InputParameter::IncrementalDuration);
    if positive.is_err() {
        positive
    } else if value.gt(Time::max_duration()) {
        Err(DeclineCurveAnalysisError::DurationTooLong)
    } else {
        Ok(())
    }
}

/// An incremental volume must be finite and non-negative.
pub open spec fn spec_validate_incremental_volume(bits: u64) -> Result<
    (),
    DeclineCurveAnalysisError,
> {
    spec_validate_positive(bits, InputParameter::IncrementalVolume)
}

pub fn validate_incremental_volume(value: Scalar) -> (r: Result<(), DeclineCurveAnalysisError>)
    ensures
        r == spec_validate_incremental_volume(value@),
{
    validate_positive(value, InputParameter::IncrementalVolume)
}

/// What every Arps-model constructor checks first: a positive initial rate
/// and a non-zero decline rate, which may be negative (an incline).
pub open spec fn spec_validate_arps_inputs(
    initial_rate: u64,
    decline_rate: u64,
    decline_parameter: InputParameter,
) -> Result<(), DeclineCurveAnalysisError> {
    if spec_validate_non_zero_positive(initial_rate, InputParameter::InitialRate) is Err {
        spec_validate_non_zero_positive(initial_rate, InputParameter::InitialRate)
    } else {
        spec_validate_non_zero(decline_rate, decline_parameter)
    }
}

pub fn validate_arps_inputs(
    initial_rate: Scalar,
    decline_rate: Scalar,
    decline_parameter: InputParameter,
) -> (r: Result<(), DeclineCurveAnalysisError>)
    ensures
        r == spec_validate_arps_inputs(initial_rate@, decline_rate@, decline_parameter),
{
    let initial = validate_non_zero_positive(initial_rate, InputParameter::InitialRate);
    if initial.is_err() {
        initial
    } else {
        validate_non_zero(decline_rate, decline_parameter)
    }
}

/// The outcome of checking a decline rate against the direction of travel
/// between an initial and a final rate.
#[derive(Clone, Copy, Debug, PartialEq, Eq, Structural)]
pub enum DeclineRateSignValidation {
    /// The signs are consistent; the inversion may proceed.
    Continue,
    /// The two rates are equal: the duration is zero and no inversion is
    /// needed.
    ZeroDuration,
}

/// The rate can only move in the direction the decline rate's sign permits:
/// towards a lower final rate under a positive decline rate, towards a
/// higher final rate under a negative one (an incline). Equal rates
/// short-circuit to a zero-duration segment instead of an error.
pub open spec fn spec_validate_decline_rate_sign(
    decline_rate: u64,
    initial_rate: u64,
    final_rate: u64,
) -> Result<DeclineRateSignValidation, DeclineCurveAnalysisError> {
    if lt_bits(initial_rate, final_rate) {
        if gt_bits(decline_rate, POSITIVE_ZERO_BITS) {
            Err(DeclineCurveAnalysisError::DeclineRateWrongSign)
        } else {
            Ok(DeclineRateSignValidation::Continue)
        }
    } else if gt_bits(initial_rate, final_rate) {
        if lt_bits(decline_rate, POSITIVE_ZERO_BITS) {
            Err(DeclineCurveAnalysisError::DeclineRateWrongSign)
        } else {
            Ok(DeclineRateSignValidation::Continue)
        }
    } else {
        Ok(DeclineRateSignValidation::ZeroDuration)
    }
}

/// The zero-duration shortcut fires exactly on equal rates: for rates that
/// are not not-a-numbers, the sign rule returns `ZeroDuration` if and only
/// if the initial and final rates are equal as binary64 values (so the two
/// zeros count as equal), whatever the decline rate is.
pub proof fn lemma_zero_duration_iff_equal_rates(
    decline_rate: u64,
    initial_rate: u64,
    final_rate: u64,
)
    requires
        !is_nan_bits(initial_rate),
        !is_nan_bits(final_rate),
    ensures
        (spec_validate_decline_rate_sign(decline_rate, initial_rate, final_rate) == Ok::<
            DeclineRateSignValidation,
            DeclineCurveAnalysisError,
        >(DeclineRateSignValidation::ZeroDuration)) <==> crate::scalar::eq_bits(
            initial_rate,
            final_rate,
        ),
{
    assert((!lt_bits(initial_rate, final_rate) && !lt_bits(final_rate, initial_rate))
        <==> crate::scalar::eq_bits(initial_rate, final_rate)) by (bit_vector)
        requires
            !is_nan_bits(initial_rate),
            !is_nan_bits(final_rate),
    ;
}

pub fn validate_decline_rate_sign(
    decline_rate: Scalar,
    initial_rate: Scalar,
    final_rate: Scalar,
) -> (r: Result<DeclineRateSignValidation, DeclineCurveAnalysisError>)
    ensures
        r == spec_validate_decline_rate_sign(decline_rate@, initial_rate@, final_rate@),
{
    let zero = Scalar::from_bits(POSITIVE_ZERO_BITS);
    if initial_rate.lt(final_rate) {
        if decline_rate.gt(zero) {
            Err(DeclineCurveAnalysisError::DeclineRateWrongSign)
        } else {
            Ok(DeclineRateSignValidation::Continue)
        }
    } else if initial_rate.gt(final_rate) {
        if decline_rate.lt(zero) {
            Err(DeclineCurveAnalysisError::DeclineRateWrongSign)
        } else {
            Ok(DeclineRateSignValidation::Continue)
        }
    } else {
        Ok(DeclineRateSignValidation::ZeroDuration)
    }
}

} // verus!
