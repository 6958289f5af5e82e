use vstd::prelude::*;

use crate::scalar::POSITIVE_ZERO_BITS;
use crate::scalar::Scalar;
use crate::decline_rate::DeclineTimeUnit;
use crate::validation::spec_validate_duration;
use crate::validation::validate_duration;
use crate::DeclineCurveAnalysisError;
use crate::ProductionRate;

verus! {

/// A no-op delay segment that represents a delay with no volume. It can be
/// useful to represent an arbitrary delay in forecasts.
#[derive(Clone, Copy, Debug, PartialEq)]
pub struct DelayParameters<Time: DeclineTimeUnit> {
    incremental_duration: Time,
}

impl<Time: DeclineTimeUnit> DelayParameters<Time> {
    pub closed spec fn spec_incremental_duration(self) -> Time {
        self.incremental_duration
    }

    /// The rate of a delay segment is zero throughout.
    pub fn rate(&self) -> (r: ProductionRate<Time>)
        ensures
            r@ == POSITIVE_ZERO_BITS,
    {
        ProductionRate::new(Scalar::zero())
    }

    pub fn incremental_duration(&self) -> (r: Time)
        ensures
            r == self.spec_incremental_duration(),
    {
        self.incremental_duration
    }

    /// Adopts the given duration after validating it.
    pub fn from_incremental_duration(incremental_duration: Time) -> (r: Result<
        Self,
        DeclineCurveAnalysisError,
    >)
        ensures
            spec_validate_duration(
                incremental_duration.spec_value(),
                Time::spec_max_duration(),
            ) matches Err(e) ==> r == Err::<Self, _>(e),
            spec_validate_duration(incremental_duration.spec_value(), Time::spec_max_duration())
                is Ok ==> (r matches Ok(segment) && segment.spec_incremental_duration()
                == incremental_duration),
    {
        if let Err(e) = validate_duration(incremental_duration) {
            return Err(e);
        }
        Ok(DelayParameters { incremental_duration })
    }

    /// A delay segment produces no volume at any time.
    pub fn incremental_volume_at_time(&self, _time: Time) -> (r: Scalar)
        ensures
            r@ == POSITIVE_ZERO_BITS,
    {
        Scalar::zero()
    }

    /// A delay segment produces no volume.
    pub fn incremental_volume(&self) -> (r: Scalar)
        ensures
            r@ == POSITIVE_ZERO_BITS,
    {
        Scalar::zero()
    }

    /// The rate of a delay segment is zero at its end, as everywhere.
    pub fn final_rate(&self) -> (r: ProductionRate<Time>)
        ensures
            r@ == POSITIVE_ZERO_BITS,
    {
        ProductionRate::new(Scalar::zero())
    }

    /// The rate of a delay segment is zero at every time, so clamping past
    /// the end changes nothing.
    pub fn rate_at_time(&self, _time: Time) -> (r: ProductionRate<Time>)
        ensures
            r@ == POSITIVE_ZERO_BITS,
    {
        ProductionRate::new(Scalar::zero())
    }
}

} // verus!
