use vstd::prelude::*;

use crate::scalar::ONE_BITS;
use crate::scalar::POSITIVE_ZERO_BITS;
use crate::scalar::Scalar;
use crate::scalar::eq_bits;
use crate::scalar::ge_bits;
use crate::scalar::gt_bits;
use crate::scalar::is_approximately_zero_bits;
use crate::scalar::lt_bits;
use crate::scalar::magnitude_bits;
use crate::scalar::sign_field;
use crate::validation::DeclineRateSignValidation;
use crate::validation::spec_validate_arps_inputs;
use crate::validation::spec_validate_decline_rate_sign;
use crate::validation::spec_validate_duration;
use crate::validation::spec_validate_finite;
use crate::validation::spec_validate_incremental_volume;
use crate::validation::spec_validate_non_zero;
use crate::validation::spec_validate_non_zero_positive;
use crate::validation::validate_arps_inputs;
use crate::validation::validate_decline_rate_sign;
use crate::validation::validate_duration;
use crate::validation::validate_finite;
use crate::validation::validate_incremental_volume;
use crate::validation::validate_non_zero;
use crate::validation::validate_non_zero_positive;
use crate::decline_rate::DeclineTimeUnit;
use crate::decline_rate::NominalDeclineRate;
use crate::DeclineCurveAnalysisError;
use crate::InputParameter;
use crate::InputProblem;
use crate::ProductionRate;

verus! {

/// Bit pattern of the curvature exponent's magnitude ceiling, one hundred.
pub const EXPONENT_LIMIT_BITS: u64 = 0x4059_0000_0000_0000;

/// The smallest bit pattern whose value is within the absolute tolerance of
/// one. Near one, values are far closer together than the tolerance, so the
/// values within the tolerance of one are exactly a closed range of bit
/// patterns.
pub const NEAR_ONE_LOW_BITS: u64 = 0x3FEF_FFFF_FFFF_DCD1;

/// The largest bit pattern whose value is within the absolute tolerance of
/// one.
pub const NEAR_ONE_HIGH_BITS: u64 = 0x3FF0_0000_0000_1197;

/// Within the absolute tolerance of one.
pub open spec fn is_approximately_one_bits(bits: u64) -> bool {
    NEAR_ONE_LOW_BITS <= bits <= NEAR_ONE_HIGH_BITS
}

/// The checks of the curvature exponent, in order: it must be finite, away
/// from zero and one (where the exponential and harmonic models apply
/// instead), of magnitude at most the ceiling, and of the same sign as the
/// decline rate.
pub open spec fn spec_validate_exponent(exponent: u64, decline_rate: u64) -> Result<
    (),
    DeclineCurveAnalysisError,
> {
    if spec_validate_finite(exponent, InputParameter::Exponent) is Err {
        spec_validate_finite(exponent, InputParameter::Exponent)
    } else if is_approximately_zero_bits(exponent) {
        Err(
            DeclineCurveAnalysisError::InvalidInput {
                parameter: InputParameter::Exponent,
                problem: InputProblem::ApproximatelyZero,
            },
        )
    } else if is_approximately_one_bits(exponent) {
        Err(
            DeclineCurveAnalysisError::InvalidInput {
                parameter: InputParameter::Exponent,
                problem: InputProblem::ApproximatelyOne,
            },
        )
    } else if magnitude_bits(exponent) > EXPONENT_LIMIT_BITS {
        Err(DeclineCurveAnalysisError::ExponentTooLarge)
    } else if sign_field(exponent) != sign_field(decline_rate) {
        Err(DeclineCurveAnalysisError::DeclineRateWrongSign)
    } else {
        Ok(())
    }
}

pub fn validate_exponent(exponent: Scalar, decline_rate: Scalar) -> (r: Result<
    (),
    DeclineCurveAnalysisError,
>)
    ensures
        r == spec_validate_exponent(exponent@, decline_rate@),
{
    if let Err(e) = validate_finite(exponent, InputParameter::Exponent) {
        return Err(e);
    }
    if exponent.is_approximately_zero() {
        return Err(
            DeclineCurveAnalysisError::InvalidInput {
                parameter: InputParameter::Exponent,
                problem: InputProblem::ApproximatelyZero,
            },
        );
    }
    let exponent_bits = exponent.bits();
    if NEAR_ONE_LOW_BITS <= exponent_bits && exponent_bits <= NEAR_ONE_HIGH_BITS {
        return Err(
            DeclineCurveAnalysisError::InvalidInput {
                parameter: InputParameter::Exponent,
                problem: InputProblem::ApproximatelyOne,
            },
        );
    }
    if exponent.magnitude() > EXPONENT_LIMIT_BITS {
        return Err(DeclineCurveAnalysisError::ExponentTooLarge);
    }
    proof {
        crate::scalar::lemma_sign_field_is_boolean(exponent@);
        crate::scalar::lemma_sign_field_is_boolean(decline_rate@);
    }
    if exponent.is_sign_negative() != decline_rate.is_sign_negative() {
        return Err(DeclineCurveAnalysisError::DeclineRateWrongSign);
    }
    Ok(())
}

/// A hyperbolic decline segment.
///
/// This is derived from the Arps equation when the exponent is not equal to
/// 0 or 1.
#[derive(Clone, Copy, Debug, PartialEq)]
pub struct HyperbolicParameters<Time: DeclineTimeUnit> {
    initial_rate: ProductionRate<Time>,
    initial_decline_rate: NominalDeclineRate<Time>,
    incremental_duration: Time,
    exponent: Scalar,
}

/// What every hyperbolic constructor checks first: the Arps inputs and then
/// the curvature exponent.
pub open spec fn spec_hyperbolic_input_checks(
    initial_rate: u64,
    initial_decline_rate: u64,
    exponent: u64,
) -> Result<(), DeclineCurveAnalysisError> {
    if spec_validate_arps_inputs(
        initial_rate,
        initial_decline_rate,
        InputParameter::InitialDeclineRate,
    ) is Err {
        spec_validate_arps_inputs(
            initial_rate,
            initial_decline_rate,
            InputParameter::InitialDeclineRate,
        )
    } else {
        spec_validate_exponent(exponent, initial_decline_rate)
    }
}

/// The checks of `HyperbolicParameters::from_incremental_duration`, in
/// order.
pub open spec fn spec_hyperbolic_duration_checks(
    initial_rate: u64,
    initial_decline_rate: u64,
    duration: u64,
    max_duration: u64,
    exponent: u64,
) -> Result<(), DeclineCurveAnalysisError> {
    if spec_hyperbolic_input_checks(initial_rate, initial_decline_rate, exponent) is Err {
        spec_hyperbolic_input_checks(initial_rate, initial_decline_rate, exponent)
    } else {
        spec_validate_duration(duration, max_duration)
    }
}

/// The checks of `HyperbolicParameters::from_incremental_volume`, in order.
/// A declining segment with an exponent below one approaches a finite
/// maximum volume; volumes at or beyond it have no solution.
pub open spec fn spec_hyperbolic_volume_checks(
    initial_rate: u64,
    initial_decline_rate: u64,
    volume: u64,
    exponent: u64,
    maximum_volume: u64,
) -> Result<(), DeclineCurveAnalysisError> {
    if spec_hyperbolic_input_checks(initial_rate, initial_decline_rate, exponent) is Err {
        spec_hyperbolic_input_checks(initial_rate, initial_decline_rate, exponent)
    } else if spec_validate_incremental_volume(volume) is Err {
        spec_validate_incremental_volume(volume)
    } else if gt_bits(initial_decline_rate, POSITIVE_ZERO_BITS) && gt_bits(
        exponent,
        POSITIVE_ZERO_BITS,
    ) && lt_bits(exponent, ONE_BITS) && ge_bits(volume, maximum_volume) {
        Err(DeclineCurveAnalysisError::CannotSolveDecline)
    } else {
        Ok(())
    }
}

/// The checks of `HyperbolicParameters::from_final_decline_rate`, in order:
/// the inputs themselves, then the physical consistency of the pair of
/// decline rates. The two must share a sign, and the decline rate's
/// magnitude decays over time, so a final decline rate above the initial
/// one (for declines, where the exponent is positive) or below it (for
/// inclines) is unreachable.
pub open spec fn spec_hyperbolic_final_decline_rate_checks(
    initial_rate: u64,
    initial_decline_rate: u64,
    final_decline_rate: u64,
    exponent: u64,
) -> Result<(), DeclineCurveAnalysisError> {
    if spec_hyperbolic_input_checks(initial_rate, initial_decline_rate, exponent) is Err {
        spec_hyperbolic_input_checks(initial_rate, initial_decline_rate, exponent)
    } else if spec_validate_non_zero(final_decline_rate, InputParameter::FinalDeclineRate) is Err {
        spec_validate_non_zero(final_decline_rate, InputParameter::FinalDeclineRate)
    } else if sign_field(final_decline_rate) != sign_field(initial_decline_rate) {
        Err(DeclineCurveAnalysisError::CannotSolveDecline)
    } else if gt_bits(exponent, POSITIVE_ZERO_BITS) && gt_bits(
        final_decline_rate,
        initial_decline_rate,
    ) {
        Err(DeclineCurveAnalysisError::CannotSolveDecline)
    } else if !gt_bits(exponent, POSITIVE_ZERO_BITS) && lt_bits(
        final_decline_rate,
        initial_decline_rate,
    ) {
        Err(DeclineCurveAnalysisError::CannotSolveDecline)
    } else {
        Ok(())
    }
}

/// The input checks of `HyperbolicParameters::from_final_rate`, in order;
/// the decline-rate-sign rule is applied afterwards.
pub open spec fn spec_hyperbolic_final_rate_checks(
    initial_rate: u64,
    initial_decline_rate: u64,
    final_rate: u64,
    exponent: u64,
) -> Result<(), DeclineCurveAnalysisError> {
    if spec_hyperbolic_input_checks(initial_rate, initial_decline_rate, exponent) is Err {
        spec_hyperbolic_input_checks(initial_rate, initial_decline_rate, exponent)
    } else {
        spec_validate_non_zero_positive(final_rate, InputParameter::FinalRate)
    }
}

impl<Time: DeclineTimeUnit> HyperbolicParameters<Time> {
    pub closed spec fn spec_initial_rate(self) -> u64 {
        self.initial_rate@
    }

    pub closed spec fn spec_initial_decline_rate(self) -> u64 {
        self.initial_decline_rate@
    }

    pub closed spec fn spec_incremental_duration(self) -> Time {
        self.incremental_duration
    }

    pub closed spec fn spec_exponent(self) -> u64 {
        self.exponent@
    }

    pub fn initial_rate(&self) -> (r: ProductionRate<Time>)
        ensures
            r@ == self.spec_initial_rate(),
    {
        self.initial_rate
    }

    pub fn initial_decline_rate(&self) -> (r: NominalDeclineRate<Time>)
        ensures
            r@ == self.spec_initial_decline_rate(),
    {
        self.initial_decline_rate
    }

    pub fn incremental_duration(&self) -> (r: Time)
        ensures
            r == self.spec_incremental_duration(),
    {
        self.incremental_duration
    }

    pub fn exponent(&self) -> (r: Scalar)
        ensures
            r@ == self.spec_exponent(),
    {
        self.exponent
    }

    /// Adopts the given duration after validating all inputs.
    pub fn from_incremental_duration(
        initial_rate: ProductionRate<Time>,
        initial_decline_rate: NominalDeclineRate<Time>,
        incremental_duration: Time,
        exponent: Scalar,
    ) -> (r: Result<Self, DeclineCurveAnalysisError>)
        ensures
            spec_hyperbolic_duration_checks(
                initial_rate@,
                initial_decline_rate@,
                incremental_duration.spec_value(),
                Time::spec_max_duration(),
                exponent@,
            ) matches Err(e) ==> r == Err::<Self, _>(e),
            spec_hyperbolic_duration_checks(
                initial_rate@,
                initial_decline_rate@,
                incremental_duration.spec_value(),
                Time::spec_max_duration(),
                exponent@,
            ) is Ok ==> (r matches Ok(segment) && segment.spec_initial_rate() == initial_rate@
                && segment.spec_initial_decline_rate() == initial_decline_rate@
                && segment.spec_incremental_duration() == incremental_duration
                && segment.spec_exponent() == exponent@),
    {
        if let Err(e) = validate_arps_inputs(
            initial_rate.value(),
            initial_decline_rate.value(),
            InputParameter::InitialDeclineRate,
        ) {
            return Err(e);
        }
        if let Err(e) = validate_exponent(exponent, initial_decline_rate.value()) {
            return Err(e);
        }
        if let Err(e) = validate_duration(incremental_duration) {
            return Err(e);
        }
        Ok(
            HyperbolicParameters {
                initial_rate,
                initial_decline_rate,
                incremental_duration,
                exponent,
            },
        )
    }

    /// Inverts the cumulative volume of the segment for its duration. The
    /// closed-form inverse is a power function, which the caller computes
    /// and passes as `solved_duration`; for a declining segment with an
    /// exponent below one the caller also passes the asymptotic maximum
    /// volume as `maximum_volume`. The solved duration is adopted exactly
    /// when the checks pass.
    pub fn from_incremental_volume(
        initial_rate: ProductionRate<Time>,
        initial_decline_rate: NominalDeclineRate<Time>,
        incremental_volume: Scalar,
        exponent: Scalar,
        maximum_volume: Scalar,
        solved_duration: Scalar,
    ) -> (r: Result<Self, DeclineCurveAnalysisError>)
        ensures
            spec_hyperbolic_volume_checks(
                initial_rate@,
                initial_decline_rate@,
                incremental_volume@,
                exponent@,
                maximum_volume@,
            ) matches Err(e) ==> r == Err::<Self, _>(e),
            spec_hyperbolic_volume_checks(
                initial_rate@,
                initial_decline_rate@,
                incremental_volume@,
                exponent@,
                maximum_volume@,
            ) is Ok ==> (r matches Ok(segment) && segment.spec_initial_rate() == initial_rate@
                && segment.spec_initial_decline_rate() == initial_decline_rate@
                && segment.spec_incremental_duration().spec_value() == solved_duration@
                && segment.spec_exponent() == exponent@),
    {
        if let Err(e) = validate_arps_inputs(
            initial_rate.value(),
            initial_decline_rate.value(),
            InputParameter::InitialDeclineRate,
        ) {
            return Err(e);
        }
        if let Err(e) = validate_exponent(exponent, initial_decline_rate.value()) {
            return Err(e);
        }
        if let Err(e) = validate_incremental_volume(incremental_volume) {
            return Err(e);
        }
        let zero = Scalar::zero();
        let one = Scalar::from_bits(ONE_BITS);
        if initial_decline_rate.value().gt(zero) && exponent.gt(zero) && exponent.lt(one)
            && incremental_volume.ge(maximum_volume) {
            return Err(DeclineCurveAnalysisError::CannotSolveDecline);
        }
        Ok(
            HyperbolicParameters {
                initial_rate,
                initial_decline_rate,
                incremental_duration: Time::from_scalar(solved_duration),
                exponent,
            },
        )
    }

    /// Inverts the decline rate of the segment for its duration. Equal
    /// initial and final decline rates short-circuit to a zero-duration
    /// segment without the inversion; otherwise the caller computes the
    /// closed-form inverse and passes it as `solved_duration`, and it is
    /// adopted exactly when the checks pass.
    pub fn from_final_decline_rate(
        initial_rate: ProductionRate<Time>,
        initial_decline_rate: NominalDeclineRate<Time>,
        final_decline_rate: NominalDeclineRate<Time>,
        exponent: Scalar,
        solved_duration: Scalar,
    ) -> (r: Result<Self, DeclineCurveAnalysisError>)
        ensures
            spec_hyperbolic_final_decline_rate_checks(
                initial_rate@,
                initial_decline_rate@,
                final_decline_rate@,
                exponent@,
            ) matches Err(e) ==> r == Err::<Self, _>(e),
            spec_hyperbolic_final_decline_rate_checks(
                initial_rate@,
                initial_decline_rate@,
                final_decline_rate@,
                exponent@,
            ) is Ok && eq_bits(final_decline_rate@, initial_decline_rate@) ==> (r matches Ok(
                segment,
            ) && segment.spec_initial_rate() == initial_rate@
                && segment.spec_initial_decline_rate() == initial_decline_rate@
                && segment.spec_incremental_duration().spec_value() == POSITIVE_ZERO_BITS
                && segment.spec_exponent() == exponent@),
            spec_hyperbolic_final_decline_rate_checks(
                initial_rate@,
                initial_decline_rate@,
                final_decline_rate@,
                exponent@,
            ) is Ok && !eq_bits(final_decline_rate@, initial_decline_rate@) ==> (r matches Ok(
                segment,
            ) && segment.spec_initial_rate() == initial_rate@
                && segment.spec_initial_decline_rate() == initial_decline_rate@
                && segment.spec_incremental_duration().spec_value() == solved_duration@
                && segment.spec_exponent() == exponent@),
    {
        if let Err(e) = validate_arps_inputs(
            initial_rate.value(),
            initial_decline_rate.value(),
            InputParameter::InitialDeclineRate,
        ) {
            return Err(e);
        }
        if let Err(e) = validate_exponent(exponent, initial_decline_rate.value()) {
            return Err(e);
        }
        if let Err(e) = validate_non_zero(
            final_decline_rate.value(),
            InputParameter::FinalDeclineRate,
        ) {
            return Err(e);
        }
        proof {
            crate::scalar::lemma_sign_field_is_boolean(final_decline_rate@);
            crate::scalar::lemma_sign_field_is_boolean(initial_decline_rate@);
        }
        if final_decline_rate.value().is_sign_negative()
            != initial_decline_rate.value().is_sign_negative() {
            return Err(DeclineCurveAnalysisError::CannotSolveDecline);
        }
        let zero = Scalar::zero();
        if exponent.gt(zero) {
            if final_decline_rate.value().gt(initial_decline_rate.value()) {
                return Err(DeclineCurveAnalysisError::CannotSolveDecline);
            }
        } else {
            if final_decline_rate.value().lt(initial_decline_rate.value()) {
                return Err(DeclineCurveAnalysisError::CannotSolveDecline);
            }
        }
        if final_decline_rate.value().eq_value(initial_decline_rate.value()) {
            return Ok(
                HyperbolicParameters {
                    initial_rate,
                    initial_decline_rate,
                    incremental_duration: Time::from_scalar(Scalar::zero()),
                    exponent,
                },
            );
        }
        Ok(
            HyperbolicParameters {
                initial_rate,
                initial_decline_rate,
                incremental_duration: Time::from_scalar(solved_duration),
                exponent,
            },
        )
    }

    /// Inverts the rate of the segment for its duration. The decline-rate
    /// sign rule is applied first: equal rates short-circuit to a
    /// zero-duration segment, and a rate moving against the decline rate's
    /// sign is rejected. Otherwise the caller computes the closed-form
    /// inverse and passes it as `solved_duration`, and it is adopted
    /// exactly when the checks pass.
    pub fn from_final_rate(
        initial_rate: ProductionRate<Time>,
        initial_decline_rate: NominalDeclineRate<Time>,
        final_rate: ProductionRate<Time>,
        exponent: Scalar,
        solved_duration: Scalar,
    ) -> (r: Result<Self, DeclineCurveAnalysisError>)
        ensures
            spec_hyperbolic_final_rate_checks(
                initial_rate@,
                initial_decline_rate@,
                final_rate@,
                exponent@,
            ) matches Err(e) ==> r == Err::<Self, _>(e),
            spec_hyperbolic_final_rate_checks(
                initial_rate@,
                initial_decline_rate@,
                final_rate@,
                exponent@,
            ) is Ok ==> (match spec_validate_decline_rate_sign(
                initial_decline_rate@,
                initial_rate@,
                final_rate@,
            ) {
                Err(e) => r == Err::<Self, _>(e),
                Ok(DeclineRateSignValidation::ZeroDuration) => r matches Ok(segment)
                    && segment.spec_initial_rate() == initial_rate@
                    && segment.spec_initial_decline_rate() == initial_decline_rate@
                    && segment.spec_incremental_duration().spec_value() == POSITIVE_ZERO_BITS
                    && segment.spec_exponent() == exponent@,
                Ok(DeclineRateSignValidation::Continue) => r matches Ok(segment)
                    && segment.spec_initial_rate() == initial_rate@
                    && segment.spec_initial_decline_rate() == initial_decline_rate@
                    && segment.spec_incremental_duration().spec_value() == solved_duration@
                    && segment.spec_exponent() == exponent@,
            }),
    {
        if let Err(e) = validate_arps_inputs(
            initial_rate.value(),
            initial_decline_rate.value(),
            InputParameter::InitialDeclineRate,
        ) {
            return Err(e);
        }
        if let Err(e) = validate_exponent(exponent, initial_decline_rate.value()) {
            return Err(e);
        }
        if let Err(e) = validate_non_zero_positive(final_rate.value(), InputParameter::FinalRate) {
            return Err(e);
        }
        match validate_decline_rate_sign(
            initial_decline_rate.value(),
            initial_rate.value(),
            final_rate.value(),
        ) {
            Err(e) => Err(e),
            Ok(DeclineRateSignValidation::ZeroDuration) => Ok(
                HyperbolicParameters {
                    initial_rate,
                    initial_decline_rate,
                    incremental_duration: Time::from_scalar(Scalar::zero()),
                    exponent,
                },
            ),
            Ok(DeclineRateSignValidation::Continue) => Ok(
                HyperbolicParameters {
                    initial_rate,
                    initial_decline_rate,
                    incremental_duration: Time::from_scalar(solved_duration),
                    exponent,
                },
            ),
        }
    }

    /// The time an evaluation is clamped to: times past the end of the
    /// segment evaluate at the end itself, so the segment never
    /// extrapolates beyond its declared duration.
    pub fn evaluation_time(&self, time: Time) -> (r: Time)
        ensures
            gt_bits(time.spec_value(), self.spec_incremental_duration().spec_value()) ==> r
                == self.spec_incremental_duration(),
            !gt_bits(time.spec_value(), self.spec_incremental_duration().spec_value()) ==> r
                == time,
    {
        if time.value().gt(self.incremental_duration.value()) {
            self.incremental_duration
        } else {
            time
        }
    }
}

} // verus!
