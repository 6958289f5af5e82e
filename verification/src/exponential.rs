use vstd::prelude::*;

use crate::scalar::POSITIVE_ZERO_BITS;
use crate::scalar::Scalar;
use crate::scalar::ge_bits;
use crate::scalar::gt_bits;
use crate::decline_rate::DeclineTimeUnit;
use crate::decline_rate::NominalDeclineRate;
use crate::validation::DeclineRateSignValidation;
use crate::validation::spec_validate_arps_inputs;
use crate::validation::spec_validate_decline_rate_sign;
use crate::validation::spec_validate_duration;
use crate::validation::spec_validate_incremental_volume;
use crate::validation::spec_validate_non_zero_positive;
use crate::validation::validate_arps_inputs;
use crate::validation::validate_decline_rate_sign;
use crate::validation::validate_duration;
use crate::validation::validate_incremental_volume;
use crate::validation::validate_non_zero_positive;
use crate::DeclineCurveAnalysisError;
use crate::InputParameter;
use crate::ProductionRate;

verus! {

/// An exponential decline segment that represents a decline with a constant
/// nominal decline rate.
///
/// This is derived from the Arps equation for the case when the exponent
/// is 0.
#[derive(Clone, Copy, Debug, PartialEq)]
pub struct ExponentialParameters<Time: DeclineTimeUnit> {
    initial_rate: ProductionRate<Time>,
    decline_rate: NominalDeclineRate<Time>,
    incremental_duration: Time,
}

/// The checks of `ExponentialParameters::from_incremental_duration`, in
/// order.
pub open spec fn spec_exponential_duration_checks(
    initial_rate: u64,
    decline_rate: u64,
    duration: u64,
    max_duration: u64,
) -> Result<(), DeclineCurveAnalysisError> {
    if spec_validate_arps_inputs(initial_rate, decline_rate, InputParameter::DeclineRate) is Err {
        spec_validate_arps_inputs(initial_rate, decline_rate, InputParameter::DeclineRate)
    } else {
        spec_validate_duration(duration, max_duration)
    }
}

/// The checks of `ExponentialParameters::from_incremental_volume`, in
/// order. A declining segment approaches a finite maximum volume, the
/// initial rate over the decline rate; volumes at or beyond it have no
/// solution.
pub open spec fn spec_exponential_volume_checks(
    initial_rate: u64,
    decline_rate: u64,
    volume: u64,
    maximum_volume: u64,
) -> Result<(), DeclineCurveAnalysisError> {
    if spec_validate_arps_inputs(initial_rate, decline_rate, InputParameter::DeclineRate) is Err {
        spec_validate_arps_inputs(initial_rate, decline_rate, InputParameter::DeclineRate)
    } else if spec_validate_incremental_volume(volume) is Err {
        spec_validate_incremental_volume(volume)
    } else if gt_bits(decline_rate, POSITIVE_ZERO_BITS) && ge_bits(volume, maximum_volume) {
        Err(DeclineCurveAnalysisError::CannotSolveDecline)
    } else {
        Ok(())
    }
}

/// The input checks of `ExponentialParameters::from_final_rate`, in order;
/// the decline-rate-sign rule is applied afterwards.
pub open spec fn spec_exponential_final_rate_checks(
    initial_rate: u64,
    decline_rate: u64,
    final_rate: u64,
) -> Result<(), DeclineCurveAnalysisError> {
    if spec_validate_arps_inputs(initial_rate, decline_rate, InputParameter::DeclineRate) is Err {
        spec_validate_arps_inputs(initial_rate, decline_rate, InputParameter::DeclineRate)
    } else {
        spec_validate_non_zero_positive(final_rate, InputParameter::FinalRate)
    }
}

impl<Time: DeclineTimeUnit> ExponentialParameters<Time> {
    pub closed spec fn spec_initial_rate(self) -> u64 {
        self.initial_rate@
    }

    pub closed spec fn spec_decline_rate(self) -> u64 {
        self.decline_rate@
    }

    pub closed spec fn spec_incremental_duration(self) -> Time {
        self.incremental_duration
    }

    pub fn initial_rate(&self) -> (r: ProductionRate<Time>)
        ensures
            r@ == self.spec_initial_rate(),
    {
        self.initial_rate
    }

    pub fn decline_rate(&self) -> (r: NominalDeclineRate<Time>)
        ensures
            r@ == self.spec_decline_rate(),
    {
        self.decline_rate
    }

    pub fn incremental_duration(&self) -> (r: Time)
        ensures
            r == self.spec_incremental_duration(),
    {
        self.incremental_duration
    }

    /// Adopts the given duration after validating all inputs.
    pub fn from_incremental_duration(
        initial_rate: ProductionRate<Time>,
        decline_rate: NominalDeclineRate<Time>,
        incremental_duration: Time,
    ) -> (r: Result<Self, DeclineCurveAnalysisError>)
        ensures
            spec_exponential_duration_checks(
                initial_rate@,
                decline_rate@,
                incremental_duration.spec_value(),
                Time::spec_max_duration(),
            ) matches Err(e) ==> r == Err::<Self, _>(e),
            spec_exponential_duration_checks(
                initial_rate@,
                decline_rate@,
                incremental_duration.spec_value(),
                Time::spec_max_duration(),
            ) is Ok ==> (r matches Ok(segment) && segment.spec_initial_rate() == initial_rate@
                && segment.spec_decline_rate() == decline_rate@
                && segment.spec_incremental_duration() == incremental_duration),
    {
        if let Err(e) = validate_arps_inputs(
            initial_rate.value(),
            decline_rate.value(),
            InputParameter::DeclineRate,
        ) {
            return Err(e);
        }
        if let Err(e) = validate_duration(incremental_duration) {
            return Err(e);
        }
        Ok(ExponentialParameters { initial_rate, decline_rate, incremental_duration })
    }

    /// Inverts the cumulative volume of the segment for its duration. The
    /// closed-form inverse is a logarithm, which the caller computes and
    /// passes as `solved_duration`; for a declining segment the caller also
    /// passes the asymptotic maximum volume, the initial rate over the
    /// decline rate, as `maximum_volume`. The solved duration is adopted
    /// exactly when the checks pass.
    pub fn from_incremental_volume(
        initial_rate: ProductionRate<Time>,
        decline_rate: NominalDeclineRate<Time>,
        incremental_volume: Scalar,
        maximum_volume: Scalar,
        solved_duration: Scalar,
    ) -> (r: Result<Self, DeclineCurveAnalysisError>)
        ensures
            spec_exponential_volume_checks(
                initial_rate@,
                decline_rate@,
                incremental_volume@,
                maximum_volume@,
            ) matches Err(e) ==> r == Err::<Self, _>(e),
            spec_exponential_volume_checks(
                initial_rate@,
                decline_rate@,
                incremental_volume@,
                maximum_volume@,
            ) is Ok ==> (r matches Ok(segment) && segment.spec_initial_rate() == initial_rate@
                && segment.spec_decline_rate() == decline_rate@
                && segment.spec_incremental_duration().spec_value() == solved_duration@),
    {
        if let Err(e) = validate_arps_inputs(
            initial_rate.value(),
            decline_rate.value(),
            InputParameter::DeclineRate,
        ) {
            return Err(e);
        }
        if let Err(e) = validate_incremental_volume(incremental_volume) {
            return Err(e);
        }
        if decline_rate.value().gt(Scalar::zero()) && incremental_volume.ge(maximum_volume) {
            return Err(DeclineCurveAnalysisError::CannotSolveDecline);
        }
        Ok(
            ExponentialParameters {
                initial_rate,
                decline_rate,
                incremental_duration: Time::from_scalar(solved_duration),
            },
        )
    }

    /// Inverts the rate of the segment for its duration. The decline-rate
    /// sign rule is applied first: equal rates short-circuit to a
    /// zero-duration segment, and a rate moving against the decline rate's
    /// sign is rejected. Otherwise the closed-form inverse is a logarithm,
    /// which the caller computes and passes as `solved_duration`, and which
    /// is adopted exactly when the checks pass.
    pub fn from_final_rate(
        initial_rate: ProductionRate<Time>,
        decline_rate: NominalDeclineRate<Time>,
        final_rate: ProductionRate<Time>,
        solved_duration: Scalar,
    ) -> (r: Result<Self, DeclineCurveAnalysisError>)
        ensures
            spec_exponential_final_rate_checks(
                initial_rate@,
                decline_rate@,
                final_rate@,
            ) matches Err(e) ==> r == Err::<Self, _>(e),
            spec_exponential_final_rate_checks(initial_rate@, decline_rate@, final_rate@) is Ok
                ==> (match spec_validate_decline_rate_sign(
                decline_rate@,
                initial_rate@,
                final_rate@,
            ) {
                Err(e) => r == Err::<Self, _>(e),
                Ok(DeclineRateSignValidation::ZeroDuration) => r matches Ok(segment)
                    && segment.spec_initial_rate() == initial_rate@
                    && segment.spec_decline_rate() == decline_rate@
                    && segment.spec_incremental_duration().spec_value() == POSITIVE_ZERO_BITS,
                Ok(DeclineRateSignValidation::Continue) => r matches Ok(segment)
                    && segment.spec_initial_rate() == initial_rate@
                    && segment.spec_decline_rate() == decline_rate@
                    && segment.spec_incremental_duration().spec_value() == solved_duration@,
            }),
    {
        if let Err(e) = validate_arps_inputs(
            initial_rate.value(),
            decline_rate.value(),
            InputParameter::DeclineRate,
        ) {
            return Err(e);
        }
        if let Err(e) = validate_non_zero_positive(final_rate.value(), InputParameter::FinalRate) {
            return Err(e);
        }
        match validate_decline_rate_sign(
            decline_rate.value(),
            initial_rate.value(),
            final_rate.value(),
        ) {
            Err(e) => Err(e),
            Ok(DeclineRateSignValidation::ZeroDuration) => Ok(
                ExponentialParameters {
                    initial_rate,
                    decline_rate,
                    incremental_duration: Time::from_scalar(Scalar::zero()),
                },
            ),
            Ok(DeclineRateSignValidation::Continue) => Ok(
                ExponentialParameters {
                    initial_rate,
                    decline_rate,
                    incremental_duration: Time::from_scalar(solved_duration),
                },
            ),
        }
    }

    /// The time an evaluation is clamped to: times past the end of the
    /// segment evaluate at the end itself, so the segment never
    /// extrapolates beyond its declared duration.
    pub fn evaluation_time(&self, time: Time) -> (r: Time)
        ensures
            gt_bits(time.spec_value(), self.spec_incremental_duration().spec_value()) ==> r
                == self.spec_incremental_duration(),
            !gt_bits(time.spec_value(), self.spec_incremental_duration().spec_value()) ==> r
                == time,
    {
        if time.value().gt(self.incremental_duration.value()) {
            self.incremental_duration
        } else {
            time
        }
    }
}

} // verus!
