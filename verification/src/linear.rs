use vstd::prelude::*;

use crate::scalar::POSITIVE_ZERO_BITS;
use crate::scalar::Scalar;
use crate::scalar::gt_bits;
use crate::scalar::is_approximately_zero_bits;
use crate::scalar::is_negative_bits;
use crate::scalar::lt_bits;
use crate::decline_rate::DeclineTimeUnit;
use crate::decline_rate::NominalDeclineRate;
use crate::validation::DeclineRateSignValidation;
use crate::validation::spec_validate_decline_rate_sign;
use crate::validation::spec_validate_duration;
use crate::validation::spec_validate_finite;
use crate::validation::spec_validate_incremental_volume;
use crate::validation::spec_validate_non_zero_positive;
use crate::validation::validate_decline_rate_sign;
use crate::validation::validate_duration;
use crate::validation::validate_finite;
use crate::validation::validate_incremental_volume;
use crate::validation::validate_non_zero_positive;
use crate::DeclineCurveAnalysisError;
use crate::InputParameter;
use crate::InputProblem;
use crate::ProductionRate;

verus! {

/// A linear decline segment.
#[derive(Clone, Copy, Debug, PartialEq)]
pub struct LinearParameters<Time: DeclineTimeUnit> {
    initial_rate: ProductionRate<Time>,
    decline_rate: NominalDeclineRate<Time>,
    incremental_duration: Time,
}

/// What every linear constructor checks first: a positive initial rate and
/// a finite decline rate. A zero decline rate is an acceptable (flat)
/// linear segment, so the decline rate is only required to be finite here.
pub open spec fn spec_linear_input_checks(initial_rate: u64, decline_rate: u64) -> Result<
    (),
    DeclineCurveAnalysisError,
> {
    if spec_validate_non_zero_positive(initial_rate, InputParameter::InitialRate) is Err {
        spec_validate_non_zero_positive(initial_rate, InputParameter::InitialRate)
    } else {
        spec_validate_finite(decline_rate, InputParameter::DeclineRate)
    }
}

/// The checks of `LinearParameters::from_incremental_duration`, in order.
/// A linear model can run off the end of physical validity, so the rate at
/// the end of the segment, computed by the caller, must not be negative.
pub open spec fn spec_linear_duration_checks(
    initial_rate: u64,
    decline_rate: u64,
    duration: u64,
    max_duration: u64,
    final_rate_at_duration: u64,
) -> Result<(), DeclineCurveAnalysisError> {
    if spec_linear_input_checks(initial_rate, decline_rate) is Err {
        spec_linear_input_checks(initial_rate, decline_rate)
    } else if spec_validate_duration(duration, max_duration) is Err {
        spec_validate_duration(duration, max_duration)
    } else if is_negative_bits(final_rate_at_duration) {
        Err(
            DeclineCurveAnalysisError::InvalidInput {
                parameter: InputParameter::FinalRate,
                problem: InputProblem::Negative,
            },
        )
    } else {
        Ok(())
    }
}

/// The checks of `LinearParameters::from_incremental_volume`, in order. The
/// inversion solves a quadratic: it needs a non-zero decline rate, and a
/// negative discriminant means the volume is never reached.
pub open spec fn spec_linear_volume_checks(
    initial_rate: u64,
    decline_rate: u64,
    volume: u64,
    discriminant: u64,
) -> Result<(), DeclineCurveAnalysisError> {
    if spec_linear_input_checks(initial_rate, decline_rate) is Err {
        spec_linear_input_checks(initial_rate, decline_rate)
    } else if spec_validate_incremental_volume(volume) is Err {
        spec_validate_incremental_volume(volume)
    } else if is_approximately_zero_bits(decline_rate) {
        Err(DeclineCurveAnalysisError::CannotSolveDecline)
    } else if lt_bits(discriminant, POSITIVE_ZERO_BITS) {
        Err(DeclineCurveAnalysisError::CannotSolveDecline)
    } else {
        Ok(())
    }
}

/// The input checks of `LinearParameters::from_final_rate`, in order; the
/// decline-rate-sign rule is applied afterwards, and then a decline rate of
/// approximately zero cannot reach a different final rate.
pub open spec fn spec_linear_final_rate_checks(
    initial_rate: u64,
    decline_rate: u64,
    final_rate: u64,
) -> Result<(), DeclineCurveAnalysisError> {
    if spec_linear_input_checks(initial_rate, decline_rate) is Err {
        spec_linear_input_checks(initial_rate, decline_rate)
    } else {
        spec_validate_non_zero_positive(final_rate, InputParameter::FinalRate)
    }
}

impl<Time: DeclineTimeUnit> LinearParameters<Time> {
    pub closed spec fn spec_initial_rate(self) -> u64 {
        self.initial_rate@
    }

    pub closed spec fn spec_decline_rate(self) -> u64 {
        self.decline_rate@
    }

    pub closed spec fn spec_incremental_duration(self) -> Time {
        self.incremental_duration
    }

    pub fn initial_rate(&self) -> (r: ProductionRate<Time>)
        ensures
            r@ == self.spec_initial_rate(),
    {
        self.initial_rate
    }

    pub fn decline_rate(&self) -> (r: NominalDeclineRate<Time>)
        ensures
            r@ == self.spec_decline_rate(),
    {
        self.decline_rate
    }

    pub fn incremental_duration(&self) -> (r: Time)
        ensures
            r == self.spec_incremental_duration(),
    {
        self.incremental_duration
    }

    /// Adopts the given duration after validating all inputs. A linear rate
    /// crosses zero in finite time, so the caller passes the rate at the
    /// end of the segment, and a negative one is rejected rather than
    /// silently kept.
    pub fn from_incremental_duration(
        initial_rate: ProductionRate<Time>,
        decline_rate: NominalDeclineRate<Time>,
        incremental_duration: Time,
        final_rate_at_duration: Scalar,
    ) -> (r: Result<Self, DeclineCurveAnalysisError>)
        ensures
            spec_linear_duration_checks(
                initial_rate@,
                decline_rate@,
                incremental_duration.spec_value(),
                Time::spec_max_duration(),
                final_rate_at_duration@,
            ) matches Err(e) ==> r == Err::<Self, _>(e),
            spec_linear_duration_checks(
                initial_rate@,
                decline_rate@,
                incremental_duration.spec_value(),
                Time::spec_max_duration(),
                final_rate_at_duration@,
            ) is Ok ==> (r matches Ok(segment) && segment.spec_initial_rate() == initial_rate@
                && segment.spec_decline_rate() == decline_rate@
                && segment.spec_incremental_duration() == incremental_duration),
    {
        if let Err(e) = validate_non_zero_positive(
            initial_rate.value(),
            InputParameter::InitialRate,
        ) {
            return Err(e);
        }
        if let Err(e) = validate_finite(decline_rate.value(), InputParameter::DeclineRate) {
            return Err(e);
        }
        if let Err(e) = validate_duration(incremental_duration) {
            return Err(e);
        }
        if final_rate_at_duration.is_negative() {
            return Err(
                DeclineCurveAnalysisError::InvalidInput {
                    parameter: InputParameter::FinalRate,
                    problem: InputProblem::Negative,
                },
            );
        }
        Ok(LinearParameters { initial_rate, decline_rate, incremental_duration })
    }

    /// Inverts the cumulative volume of the segment for its duration. The
    /// inversion solves a quadratic in time; the caller passes its
    /// discriminant and its smaller positive root (the larger root is the
    /// time at which the rate, having crossed zero, would reach the volume
    /// again). The root is adopted exactly when the checks pass.
    pub fn from_incremental_volume(
        initial_rate: ProductionRate<Time>,
        decline_rate: NominalDeclineRate<Time>,
        incremental_volume: Scalar,
        discriminant: Scalar,
        solved_duration: Scalar,
    ) -> (r: Result<Self, DeclineCurveAnalysisError>)
        ensures
            spec_linear_volume_checks(
                initial_rate@,
                decline_rate@,
                incremental_volume@,
                discriminant@,
            ) matches Err(e) ==> r == Err::<Self, _>(e),
            spec_linear_volume_checks(
                initial_rate@,
                decline_rate@,
                incremental_volume@,
                discriminant@,
            ) is Ok ==> (r matches Ok(segment) && segment.spec_initial_rate() == initial_rate@
                && segment.spec_decline_rate() == decline_rate@
                && segment.spec_incremental_duration().spec_value() == solved_duration@),
    {
        if let Err(e) = validate_non_zero_positive(
            initial_rate.value(),
            InputParameter::InitialRate,
        ) {
            return Err(e);
        }
        if let Err(e) = validate_finite(decline_rate.value(), InputParameter::DeclineRate) {
            return Err(e);
        }
        if let Err(e) = validate_incremental_volume(incremental_volume) {
            return Err(e);
        }
        if decline_rate.value().is_approximately_zero() {
            return Err(DeclineCurveAnalysisError::CannotSolveDecline);
        }
        if discriminant.is_negative() {
            return Err(DeclineCurveAnalysisError::CannotSolveDecline);
        }
        Ok(
            LinearParameters {
                initial_rate,
                decline_rate,
                incremental_duration: Time::from_scalar(solved_duration),
            },
        )
    }

    /// Inverts the rate of the segment for its duration. The decline-rate
    /// sign rule is applied first: equal rates short-circuit to a
    /// zero-duration segment, and a rate moving against the decline rate's
    /// sign is rejected. A decline rate of approximately zero cannot reach
    /// a different final rate. Otherwise the caller computes the
    /// closed-form inverse and passes it as `solved_duration`, and it is
    /// adopted exactly when the checks pass.
    pub fn from_final_rate(
        initial_rate: ProductionRate<Time>,
        decline_rate: NominalDeclineRate<Time>,
        final_rate: ProductionRate<Time>,
        solved_duration: Scalar,
    ) -> (r: Result<Self, DeclineCurveAnalysisError>)
        ensures
            spec_linear_final_rate_checks(
                initial_rate@,
                decline_rate@,
                final_rate@,
            ) matches Err(e) ==> r == Err::<Self, _>(e),
            spec_linear_final_rate_checks(initial_rate@, decline_rate@, final_rate@) is Ok ==> (
            match spec_validate_decline_rate_sign(decline_rate@, initial_rate@, final_rate@) {
                Err(e) => r == Err::<Self, _>(e),
                Ok(DeclineRateSignValidation::ZeroDuration) => r matches Ok(segment)
                    && segment.spec_initial_rate() == initial_rate@
                    && segment.spec_decline_rate() == decline_rate@
                    && segment.spec_incremental_duration().spec_value() == POSITIVE_ZERO_BITS,
                Ok(DeclineRateSignValidation::Continue) => if is_approximately_zero_bits(
                    decline_rate@,
                ) {
                    r == Err::<Self, _>(DeclineCurveAnalysisError::CannotSolveDecline)
                } else {
                    r matches Ok(segment) && segment.spec_initial_rate() == initial_rate@
                        && segment.spec_decline_rate() == decline_rate@
                        && segment.spec_incremental_duration().spec_value() == solved_duration@
                },
            }),
    {
        if let Err(e) = validate_non_zero_positive(
            initial_rate.value(),
            InputParameter::InitialRate,
        ) {
            return Err(e);
        }
        if let Err(e) = validate_finite(decline_rate.value(), InputParameter::DeclineRate) {
            return Err(e);
        }
        if let Err(e) = validate_non_zero_positive(final_rate.value(), InputParameter::FinalRate) {
            return Err(e);
        }
        match validate_decline_rate_sign(
            decline_rate.value(),
            initial_rate.value(),
            final_rate.value(),
        ) {
            Err(e) => Err(e),
            Ok(DeclineRateSignValidation::ZeroDuration) => Ok(
                LinearParameters {
                    initial_rate,
                    decline_rate,
                    incremental_duration: Time::from_scalar(Scalar::zero()),
                },
            ),
            Ok(DeclineRateSignValidation::Continue) => {
                if decline_rate.value().is_approximately_zero() {
                    Err(DeclineCurveAnalysisError::CannotSolveDecline)
                } else {
                    Ok(
                        LinearParameters {
                            initial_rate,
                            decline_rate,
                            incremental_duration: Time::from_scalar(solved_duration),
                        },
                    )
                }
            },
        }
    }

    /// The time an evaluation is clamped to: times past the end of the
    /// segment evaluate at the end itself, so the segment never
    /// extrapolates beyond its declared duration.
    pub fn evaluation_time(&self, time: Time) -> (r: Time)
        ensures
            gt_bits(time.spec_value(), self.spec_incremental_duration().spec_value()) ==> r
                == self.spec_incremental_duration(),
            !gt_bits(time.spec_value(), self.spec_incremental_duration().spec_value()) ==> r
                == time,
    {
        if time.value().gt(self.incremental_duration.value()) {
            self.incremental_duration
        } else {
            time
        }
    }
}

} // verus!
