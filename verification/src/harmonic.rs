use vstd::prelude::*;

use crate::scalar::POSITIVE_ZERO_BITS;
use crate::scalar::Scalar;
use crate::scalar::eq_bits;
use crate::scalar::gt_bits;
use crate::scalar::sign_field;
use crate::decline_rate::DeclineTimeUnit;
use crate::decline_rate::NominalDeclineRate;
use crate::validation::DeclineRateSignValidation;
use crate::validation::spec_validate_arps_inputs;
use crate::validation::spec_validate_decline_rate_sign;
use crate::validation::spec_validate_duration;
use crate::validation::spec_validate_incremental_volume;
use crate::validation::spec_validate_non_zero;
use crate::validation::spec_validate_non_zero_positive;
use crate::validation::validate_arps_inputs;
use crate::validation::validate_decline_rate_sign;
use crate::validation::validate_duration;
use crate::validation::validate_incremental_volume;
use crate::validation::validate_non_zero;
use crate::validation::validate_non_zero_positive;
use crate::DeclineCurveAnalysisError;
use crate::InputParameter;
use crate::ProductionRate;

verus! {

/// A harmonic decline segment.
///
/// This is derived from the Arps equation for the case when the exponent
/// is 1.
#[derive(Clone, Copy, Debug, PartialEq)]
pub struct HarmonicParameters<Time: DeclineTimeUnit> {
    initial_rate: ProductionRate<Time>,
    initial_decline_rate: NominalDeclineRate<Time>,
    incremental_duration: Time,
}

/// The checks of `HarmonicParameters::from_incremental_duration`, in order.
/// An inclining segment (negative decline rate) has a singularity where the
/// rate's denominator, one plus the decline rate times the time, reaches
/// zero; a duration at or beyond it is rejected, so the caller passes that
/// denominator evaluated at the duration.
pub open spec fn spec_harmonic_duration_checks(
    initial_rate: u64,
    initial_decline_rate: u64,
    duration: u64,
    max_duration: u64,
    final_rate_denominator: u64,
) -> Result<(), DeclineCurveAnalysisError> {
    if spec_validate_arps_inputs(
        initial_rate,
        initial_decline_rate,
        InputParameter::InitialDeclineRate,
    ) is Err {
        spec_validate_arps_inputs(
            initial_rate,
            initial_decline_rate,
            InputParameter::InitialDeclineRate,
        )
    } else if spec_validate_duration(duration, max_duration) is Err {
        spec_validate_duration(duration, max_duration)
    } else if !gt_bits(final_rate_denominator, POSITIVE_ZERO_BITS) {
        Err(DeclineCurveAnalysisError::DurationTooLong)
    } else {
        Ok(())
    }
}

/// The checks of `HarmonicParameters::from_incremental_volume`, in order.
/// A harmonic decline has no asymptotic maximum volume, so every finite
/// non-negative volume is solvable.
pub open spec fn spec_harmonic_volume_checks(
    initial_rate: u64,
    initial_decline_rate: u64,
    volume: u64,
) -> Result<(), DeclineCurveAnalysisError> {
    if spec_validate_arps_inputs(
        initial_rate,
        initial_decline_rate,
        InputParameter::InitialDeclineRate,
    ) is Err {
        spec_validate_arps_inputs(
            initial_rate,
            initial_decline_rate,
            InputParameter::InitialDeclineRate,
        )
    } else {
        spec_validate_incremental_volume(volume)
    }
}

/// The checks of `HarmonicParameters::from_final_decline_rate`, in order:
/// the inputs themselves, then the physical consistency of the pair of
/// decline rates. The two must share a sign, and the decline rate decays
/// towards zero over time, so a final decline rate above the initial one
/// is unreachable.
pub open spec fn spec_harmonic_final_decline_rate_checks(
    initial_rate: u64,
    initial_decline_rate: u64,
    final_decline_rate: u64,
) -> Result<(), DeclineCurveAnalysisError> {
    if spec_validate_arps_inputs(
        initial_rate,
        initial_decline_rate,
        InputParameter::InitialDeclineRate,
    ) is Err {
        spec_validate_arps_inputs(
            initial_rate,
            initial_decline_rate,
            InputParameter::InitialDeclineRate,
        )
    } else if spec_validate_non_zero(final_decline_rate, InputParameter::FinalDeclineRate) is Err {
        spec_validate_non_zero(final_decline_rate, InputParameter::FinalDeclineRate)
    } else if sign_field(final_decline_rate) != sign_field(initial_decline_rate) {
        Err(DeclineCurveAnalysisError::CannotSolveDecline)
    } else if gt_bits(final_decline_rate, initial_decline_rate) {
        Err(DeclineCurveAnalysisError::CannotSolveDecline)
    } else {
        Ok(())
    }
}

/// The input checks of `HarmonicParameters::from_final_rate`, in order; the
/// decline-rate-sign rule is applied afterwards.
pub open spec fn spec_harmonic_final_rate_checks(
    initial_rate: u64,
    initial_decline_rate: u64,
    final_rate: u64,
) -> Result<(), DeclineCurveAnalysisError> {
    if spec_validate_arps_inputs(
        initial_rate,
        initial_decline_rate,
        InputParameter::InitialDeclineRate,
    ) is Err {
        spec_validate_arps_inputs(
            initial_rate,
            initial_decline_rate,
            InputParameter::InitialDeclineRate,
        )
    } else {
        spec_validate_non_zero_positive(final_rate, InputParameter::FinalRate)
    }
}

impl<Time: DeclineTimeUnit> HarmonicParameters<Time> {
    pub closed spec fn spec_initial_rate(self) -> u64 {
        self.initial_rate@
    }

    pub closed spec fn spec_initial_decline_rate(self) -> u64 {
        self.initial_decline_rate@
    }

    pub closed spec fn spec_incremental_duration(self) -> Time {
        self.incremental_duration
    }

    pub fn initial_rate(&self) -> (r: ProductionRate<Time>)
        ensures
            r@ == self.spec_initial_rate(),
    {
        self.initial_rate
    }

    pub fn initial_decline_rate(&self) -> (r: NominalDeclineRate<Time>)
        ensures
            r@ == self.spec_initial_decline_rate(),
    {
        self.initial_decline_rate
    }

    pub fn incremental_duration(&self) -> (r: Time)
        ensures
            r == self.spec_incremental_duration(),
    {
        self.incremental_duration
    }

    /// Adopts the given duration after validating all inputs. Besides the
    /// duration bound, an inclining segment must end before its
    /// singularity: the caller passes the rate's denominator at the end of
    /// the segment, one plus the decline rate times the duration, and a
    /// non-positive denominator is rejected as too long. For a declining
    /// segment that denominator is above one by construction.
    pub fn from_incremental_duration(
        initial_rate: ProductionRate<Time>,
        initial_decline_rate: NominalDeclineRate<Time>,
        incremental_duration: Time,
        final_rate_denominator: Scalar,
    ) -> (r: Result<Self, DeclineCurveAnalysisError>)
        ensures
            spec_harmonic_duration_checks(
                initial_rate@,
                initial_decline_rate@,
                incremental_duration.spec_value(),
                Time::spec_max_duration(),
                final_rate_denominator@,
            ) matches Err(e) ==> r == Err::<Self, _>(e),
            spec_harmonic_duration_checks(
                initial_rate@,
                initial_decline_rate@,
                incremental_duration.spec_value(),
                Time::spec_max_duration(),
                final_rate_denominator@,
            ) is Ok ==> (r matches Ok(segment) && segment.spec_initial_rate() == initial_rate@
                && segment.spec_initial_decline_rate() == initial_decline_rate@
                && segment.spec_incremental_duration() == incremental_duration),
    {
        if let Err(e) = validate_arps_inputs(
            initial_rate.value(),
            initial_decline_rate.value(),
            InputParameter::InitialDeclineRate,
        ) {
            return Err(e);
        }
        if let Err(e) = validate_duration(incremental_duration) {
            return Err(e);
        }
        if !final_rate_denominator.gt(Scalar::zero()) {
            return Err(DeclineCurveAnalysisError::DurationTooLong);
        }
        Ok(HarmonicParameters { initial_rate, initial_decline_rate, incremental_duration })
    }

    /// Inverts the cumulative volume of the segment for its duration. The
    /// closed-form inverse is an exponential, which the caller computes and
    /// passes as `solved_duration`, and which is adopted exactly when the
    /// checks pass.
    pub fn from_incremental_volume(
        initial_rate: ProductionRate<Time>,
        initial_decline_rate: NominalDeclineRate<Time>,
        incremental_volume: Scalar,
        solved_duration: Scalar,
    ) -> (r: Result<Self, DeclineCurveAnalysisError>)
        ensures
            spec_harmonic_volume_checks(
                initial_rate@,
                initial_decline_rate@,
                incremental_volume@,
            ) matches Err(e) ==> r == Err::<Self, _>(e),
            spec_harmonic_volume_checks(initial_rate@, initial_decline_rate@, incremental_volume@)
                is Ok ==> (r matches Ok(segment) && segment.spec_initial_rate() == initial_rate@
                && segment.spec_initial_decline_rate() == initial_decline_rate@
                && segment.spec_incremental_duration().spec_value() == solved_duration@),
    {
        if let Err(e) = validate_arps_inputs(
            initial_rate.value(),
            initial_decline_rate.value(),
            InputParameter::InitialDeclineRate,
        ) {
            return Err(e);
        }
        if let Err(e) = validate_incremental_volume(incremental_volume) {
            return Err(e);
        }
        Ok(
            HarmonicParameters {
                initial_rate,
                initial_decline_rate,
                incremental_duration: Time::from_scalar(solved_duration),
            },
        )
    }

    /// Inverts the decline rate of the segment for its duration. Equal
    /// initial and final decline rates short-circuit to a zero-duration
    /// segment without the inversion; otherwise the closed-form inverse is
    /// the difference of the rates' reciprocals, which the caller computes
    /// and passes as `solved_duration`, and which is adopted exactly when
    /// the checks pass.
    pub fn from_final_decline_rate(
        initial_rate: ProductionRate<Time>,
        initial_decline_rate: NominalDeclineRate<Time>,
        final_decline_rate: NominalDeclineRate<Time>,
        solved_duration: Scalar,
    ) -> (r: Result<Self, DeclineCurveAnalysisError>)
        ensures
            spec_harmonic_final_decline_rate_checks(
                initial_rate@,
                initial_decline_rate@,
                final_decline_rate@,
            ) matches Err(e) ==> r == Err::<Self, _>(e),
            spec_harmonic_final_decline_rate_checks(
                initial_rate@,
                initial_decline_rate@,
                final_decline_rate@,
            ) is Ok && eq_bits(final_decline_rate@, initial_decline_rate@) ==> (r matches Ok(
                segment,
            ) && segment.spec_initial_rate() == initial_rate@
                && segment.spec_initial_decline_rate() == initial_decline_rate@
                && segment.spec_incremental_duration().spec_value() == POSITIVE_ZERO_BITS),
            spec_harmonic_final_decline_rate_checks(
                initial_rate@,
                initial_decline_rate@,
                final_decline_rate@,
            ) is Ok && !eq_bits(final_decline_rate@, initial_decline_rate@) ==> (r matches Ok(
                segment,
            ) && segment.spec_initial_rate() == initial_rate@
                && segment.spec_initial_decline_rate() == initial_decline_rate@
                && segment.spec_incremental_duration().spec_value() == solved_duration@),
    {
        if let Err(e) = validate_arps_inputs(
            initial_rate.value(),
            initial_decline_rate.value(),
            InputParameter::InitialDeclineRate,
        ) {
            return Err(e);
        }
        if let Err(e) = validate_non_zero(
            final_decline_rate.value(),
            InputParameter::FinalDeclineRate,
        ) {
            return Err(e);
        }
        proof {
            crate::scalar::lemma_sign_field_is_boolean(final_decline_rate@);
            crate::scalar::lemma_sign_field_is_boolean(initial_decline_rate@);
        }
        if final_decline_rate.value().is_sign_negative()
            != initial_decline_rate.value().is_sign_negative() {
            return Err(DeclineCurveAnalysisError::CannotSolveDecline);
        }
        if final_decline_rate.value().gt(initial_decline_rate.value()) {
            return Err(DeclineCurveAnalysisError::CannotSolveDecline);
        }
        if final_decline_rate.value().eq_value(initial_decline_rate.value()) {
            return Ok(
                HarmonicParameters {
                    initial_rate,
                    initial_decline_rate,
                    incremental_duration: Time::from_scalar(Scalar::zero()),
                },
            );
        }
        Ok(
            HarmonicParameters {
                initial_rate,
                initial_decline_rate,
                incremental_duration: Time::from_scalar(solved_duration),
            },
        )
    }

    /// Inverts the rate of the segment for its duration. The decline-rate
    /// sign rule is applied first: equal rates short-circuit to a
    /// zero-duration segment, and a rate moving against the decline rate's
    /// sign is rejected. Otherwise the caller computes the closed-form
    /// inverse and passes it as `solved_duration`, and it is adopted
    /// exactly when the checks pass.
    pub fn from_final_rate(
        initial_rate: ProductionRate<Time>,
        initial_decline_rate: NominalDeclineRate<Time>,
        final_rate: ProductionRate<Time>,
        solved_duration: Scalar,
    ) -> (r: Result<Self, DeclineCurveAnalysisError>)
        ensures
            spec_harmonic_final_rate_checks(
                initial_rate@,
                initial_decline_rate@,
                final_rate@,
            ) matches Err(e) ==> r == Err::<Self, _>(e),
            spec_harmonic_final_rate_checks(initial_rate@, initial_decline_rate@, final_rate@)
                is Ok ==> (match spec_validate_decline_rate_sign(
                initial_decline_rate@,
                initial_rate@,
                final_rate@,
            ) {
                Err(e) => r == Err::<Self, _>(e),
                Ok(DeclineRateSignValidation::ZeroDuration) => r matches Ok(segment)
                    && segment.spec_initial_rate() == initial_rate@
                    && segment.spec_initial_decline_rate() == initial_decline_rate@
                    && segment.spec_incremental_duration().spec_value() == POSITIVE_ZERO_BITS,
                Ok(DeclineRateSignValidation::Continue) => r matches Ok(segment)
                    && segment.spec_initial_rate() == initial_rate@
                    && segment.spec_initial_decline_rate() == initial_decline_rate@
                    && segment.spec_incremental_duration().spec_value() == solved_duration@,
            }),
    {
        if let Err(e) = validate_arps_inputs(
            initial_rate.value(),
            initial_decline_rate.value(),
            InputParameter::InitialDeclineRate,
        ) {
            return Err(e);
        }
        if let Err(e) = validate_non_zero_positive(final_rate.value(), InputParameter::FinalRate) {
            return Err(e);
        }
        match validate_decline_rate_sign(
            initial_decline_rate.value(),
            initial_rate.value(),
            final_rate.value(),
        ) {
            Err(e) => Err(e),
            Ok(DeclineRateSignValidation::ZeroDuration) => Ok(
                HarmonicParameters {
                    initial_rate,
                    initial_decline_rate,
                    incremental_duration: Time::from_scalar(Scalar::zero()),
                },
            ),
            Ok(DeclineRateSignValidation::Continue) => Ok(
                HarmonicParameters {
                    initial_rate,
                    initial_decline_rate,
                    incremental_duration: Time::from_scalar(solved_duration),
                },
            ),
        }
    }

    /// The time an evaluation is clamped to: times past the end of the
    /// segment evaluate at the end itself, so the segment never
    /// extrapolates beyond its declared duration.
    pub fn evaluation_time(&self, time: Time) -> (r: Time)
        ensures
            gt_bits(time.spec_value(), self.spec_incremental_duration().spec_value()) ==> r
                == self.spec_incremental_duration(),
            !gt_bits(time.spec_value(), self.spec_incremental_duration().spec_value()) ==> r
                == time,
    {
        if time.value().gt(self.incremental_duration.value()) {
            self.incremental_duration
        } else {
            time
        }
    }
}

} // verus!
