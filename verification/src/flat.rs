use vstd::prelude::*;

use crate::scalar::Scalar;
use crate::scalar::gt_bits;
use crate::scalar::is_zero_bits;
use crate::decline_rate::DeclineTimeUnit;
use crate::validation::spec_validate_duration;
use crate::validation::spec_validate_incremental_volume;
use crate::validation::spec_validate_positive;
use crate::validation::validate_duration;
use crate::validation::validate_incremental_volume;
use crate::validation::validate_positive;
use crate::DeclineCurveAnalysisError;
use crate::InputParameter;
use crate::ProductionRate;

verus! {

/// A flat segment that represents a constant production rate.
#[derive(Clone, Copy, Debug, PartialEq)]
pub struct FlatParameters<Time: DeclineTimeUnit> {
    rate: ProductionRate<Time>,
    incremental_duration: Time,
}

/// What every flat constructor checks first: the rate must be finite and
/// not negative (zero is an acceptable flat rate).
pub open spec fn spec_flat_rate_check(rate: u64) -> Result<(), DeclineCurveAnalysisError> {
    spec_validate_positive(rate, InputParameter::Rate)
}

/// The checks of `FlatParameters::from_incremental_duration`, in order.
pub open spec fn spec_flat_duration_checks(rate: u64, duration: u64, max_duration: u64) -> Result<
    (),
    DeclineCurveAnalysisError,
> {
    if spec_flat_rate_check(rate) is Err {
        spec_flat_rate_check(rate)
    } else {
        spec_validate_duration(duration, max_duration)
    }
}

/// The checks of `FlatParameters::from_incremental_volume`, in order: the
/// rate, the volume, and then solvability, since no duration reproduces a
/// positive volume at a zero rate.
pub open spec fn spec_flat_volume_checks(rate: u64, volume: u64) -> Result<
    (),
    DeclineCurveAnalysisError,
> {
    if spec_flat_rate_check(rate) is Err {
        spec_flat_rate_check(rate)
    } else if spec_validate_incremental_volume(volume) is Err {
        spec_validate_incremental_volume(volume)
    } else if is_zero_bits(rate) {
        Err(DeclineCurveAnalysisError::CannotSolveDecline)
    } else {
        Ok(())
    }
}

impl<Time: DeclineTimeUnit> FlatParameters<Time> {
    pub closed spec fn spec_rate(self) -> u64 {
        self.rate@
    }

    pub closed spec fn spec_incremental_duration(self) -> Time {
        self.incremental_duration
    }

    pub fn rate(&self) -> (r: ProductionRate<Time>)
        ensures
            r@ == self.spec_rate(),
    {
        self.rate
    }

    pub fn incremental_duration(&self) -> (r: Time)
        ensures
            r == self.spec_incremental_duration(),
    {
        self.incremental_duration
    }

    /// Adopts the given duration after validating the rate and the
    /// duration.
    pub fn from_incremental_duration(rate: ProductionRate<Time>, incremental_duration: Time) -> (r:
        Result<Self, DeclineCurveAnalysisError>)
        ensures
            spec_flat_duration_checks(
                rate@,
                incremental_duration.spec_value(),
                Time::spec_max_duration(),
            ) matches Err(e) ==> r == Err::<Self, _>(e),
            spec_flat_duration_checks(
                rate@,
                incremental_duration.spec_value(),
                Time::spec_max_duration(),
            ) is Ok ==> (r matches Ok(segment) && segment.spec_rate() == rate@
                && segment.spec_incremental_duration() == incremental_duration),
    {
        if let Err(e) = validate_positive(rate.value(), InputParameter::Rate) {
            return Err(e);
        }
        if let Err(e) = validate_duration(incremental_duration) {
            return Err(e);
        }
        Ok(FlatParameters { rate, incremental_duration })
    }

    /// Inverts the volume of a flat segment for its duration. The inverse
    /// is the volume divided by the rate; the caller computes that quotient
    /// and passes it as `solved_duration`, and it is adopted exactly when
    /// the checks pass.
    pub fn from_incremental_volume(
        rate: ProductionRate<Time>,
        incremental_volume: Scalar,
        solved_duration: Scalar,
    ) -> (r: Result<Self, DeclineCurveAnalysisError>)
        ensures
            spec_flat_volume_checks(rate@, incremental_volume@) matches Err(e) ==> r == Err::<
                Self,
                _,
            >(e),
            spec_flat_volume_checks(rate@, incremental_volume@) is Ok ==> (r matches Ok(segment)
                && segment.spec_rate() == rate@
                && segment.spec_incremental_duration().spec_value() == solved_duration@),
    {
        if let Err(e) = validate_positive(rate.value(), InputParameter::Rate) {
            return Err(e);
        }
        if let Err(e) = validate_incremental_volume(incremental_volume) {
            return Err(e);
        }
        if rate.value().is_zero() {
            return Err(DeclineCurveAnalysisError::CannotSolveDecline);
        }
        Ok(FlatParameters { rate, incremental_duration: Time::from_scalar(solved_duration) })
    }

    /// The time an evaluation is clamped to: times past the end of the
    /// segment evaluate at the end itself.
    pub fn evaluation_time(&self, time: Time) -> (r: Time)
        ensures
            gt_bits(time.spec_value(), self.spec_incremental_duration().spec_value()) ==> r
                == self.spec_incremental_duration(),
            !gt_bits(time.spec_value(), self.spec_incremental_duration().spec_value()) ==> r
                == time,
    {
        if time.value().gt(self.incremental_duration.value()) {
            self.incremental_duration
        } else {
            time
        }
    }

    /// The rate of a flat segment is its constant rate at its end, as
    /// everywhere.
    pub fn final_rate(&self) -> (r: ProductionRate<Time>)
        ensures
            r@ == self.spec_rate(),
    {
        self.rate
    }

    /// The rate of a flat segment is its constant rate at every time, so
    /// clamping past the end changes nothing.
    pub fn rate_at_time(&self, _time: Time) -> (r: ProductionRate<Time>)
        ensures
            r@ == self.spec_rate(),
    {
        self.rate
    }
}

} // verus!
