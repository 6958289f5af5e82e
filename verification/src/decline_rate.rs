use vstd::prelude::*;

use crate::scalar::ONE_BITS;
use crate::scalar::Scalar;
use crate::scalar::ge_bits;
use crate::DeclineCurveAnalysisError;

verus! {

/// The thousand-year duration bound expressed in average years.
pub const MAX_DURATION_YEARS_BITS: u64 = 0x408F_4000_0000_0000;

/// The thousand-year duration bound expressed in average days:
/// 365 250 days, a thousand average years of 365.25 days each.
pub const MAX_DURATION_DAYS_BITS: u64 = 0x4116_4B08_0000_0000;

/// A time unit for decline parameters. The base unit is defined in terms of
/// average days, where an average year is 365.25 days. A unit carries a
/// duration as a binary64 bit pattern; the thousand-year duration bound is a
/// constant of the unit, so that validating a duration never needs
/// floating-point arithmetic.
pub trait DeclineTimeUnit: Sized + Copy {
    /// The carried duration, as a binary64 bit pattern.
    spec fn spec_value(self) -> u64;

    /// The thousand-year duration bound, expressed in this unit.
    spec fn spec_max_duration() -> u64;

    fn from_scalar(value: Scalar) -> (r: Self)
        ensures
            r.spec_value() == value@,
    ;

    fn value(self) -> (r: Scalar)
        ensures
            r@ == self.spec_value(),
    ;

    fn max_duration() -> (r: Scalar)
        ensures
            r@ == Self::spec_max_duration(),
    ;
}

/// Average year length of 365.25 days.
#[derive(Clone, Copy, Debug, PartialEq, Eq, Structural)]
pub struct AverageYearsTime {
    pub years: Scalar,
}

impl DeclineTimeUnit for AverageYearsTime {
    open spec fn spec_value(self) -> u64 {
        self.years@
    }

    open spec fn spec_max_duration() -> u64 {
        MAX_DURATION_YEARS_BITS
    }

    fn from_scalar(value: Scalar) -> (r: Self) {
        AverageYearsTime { years: value }
    }

    fn value(self) -> (r: Scalar) {
        self.years
    }

    fn max_duration() -> (r: Scalar) {
        Scalar::from_bits(MAX_DURATION_YEARS_BITS)
    }
}

/// Average day length of 1 day.
#[derive(Clone, Copy, Debug, PartialEq, Eq, Structural)]
pub struct AverageDaysTime {
    pub days: Scalar,
}

impl DeclineTimeUnit for AverageDaysTime {
    open spec fn spec_value(self) -> u64 {
        self.days@
    }

    open spec fn spec_max_duration() -> u64 {
        MAX_DURATION_DAYS_BITS
    }

    fn from_scalar(value: Scalar) -> (r: Self) {
        AverageDaysTime { days: value }
    }

    fn value(self) -> (r: Scalar) {
        self.days
    }

    fn max_duration() -> (r: Scalar) {
        Scalar::from_bits(MAX_DURATION_DAYS_BITS)
    }
}

/// An effective decline rate of one or more has no nominal counterpart.
pub open spec fn spec_check_convertible(bits: u64) -> Result<(), DeclineCurveAnalysisError> {
    if ge_bits(bits, ONE_BITS) {
        Err(DeclineCurveAnalysisError::DeclineRateTooHigh)
    } else {
        Ok(())
    }
}

/// The nominal decline rate as a fraction.
#[derive(Copy, Debug, PartialEq)]
pub struct NominalDeclineRate<Time: DeclineTimeUnit> {
    value: Scalar,
    _time: core::marker::PhantomData<Time>,
}

impl<Time: DeclineTimeUnit> Clone for NominalDeclineRate<Time> {
    fn clone(&self) -> (r: Self)
        ensures
            r == *self,
    {
        *self
    }
}

impl<Time: DeclineTimeUnit> View for NominalDeclineRate<Time> {
    type V = u64;

    closed spec fn view(&self) -> u64 {
        self.value@
    }
}

impl<Time: DeclineTimeUnit> NominalDeclineRate<Time> {
    pub fn new(value: Scalar) -> (r: Self)
        ensures
            r@ == value@,
    {
        NominalDeclineRate { value, _time: core::marker::PhantomData }
    }

    pub fn value(&self) -> (r: Scalar)
        ensures
            r@ == self@,
    {
        self.value
    }
}

/// The secant effective decline rate as a fraction. The curvature exponent
/// used by its conversions is not stored; it is a parameter of the
/// conversion itself.
#[derive(Copy, Debug, PartialEq)]
pub struct SecantEffectiveDeclineRate<Time: DeclineTimeUnit> {
    value: Scalar,
    _time: core::marker::PhantomData<Time>,
}

impl<Time: DeclineTimeUnit> Clone for SecantEffectiveDeclineRate<Time> {
    fn clone(&self) -> (r: Self)
        ensures
            r == *self,
    {
        *self
    }
}

impl<Time: DeclineTimeUnit> View for SecantEffectiveDeclineRate<Time> {
    type V = u64;

    closed spec fn view(&self) -> u64 {
        self.value@
    }
}

impl<Time: DeclineTimeUnit> SecantEffectiveDeclineRate<Time> {
    pub fn new(value: Scalar) -> (r: Self)
        ensures
            r@ == value@,
    {
        SecantEffectiveDeclineRate { value, _time: core::marker::PhantomData }
    }

    pub fn value(&self) -> (r: Scalar)
        ensures
            r@ == self@,
    {
        self.value
    }

    /// Whether this rate has a nominal counterpart: a secant-effective
    /// decline rate of one or more cannot be converted.
    pub fn check_convertible(&self) -> (r: Result<(), DeclineCurveAnalysisError>)
        ensures
            r == spec_check_convertible(self@),
    {
        if self.value.ge(Scalar::from_bits(ONE_BITS)) {
            Err(DeclineCurveAnalysisError::DeclineRateTooHigh)
        } else {
            Ok(())
        }
    }
}

/// The tangent effective decline rate as a fraction.
#[derive(Copy, Debug, PartialEq)]
pub struct TangentEffectiveDeclineRate<Time: DeclineTimeUnit> {
    value: Scalar,
    _time: core::marker::PhantomData<Time>,
}

impl<Time: DeclineTimeUnit> Clone for TangentEffectiveDeclineRate<Time> {
    fn clone(&self) -> (r: Self)
        ensures
            r == *self,
    {
        *self
    }
}

impl<Time: DeclineTimeUnit> View for TangentEffectiveDeclineRate<Time> {
    type V = u64;

    closed spec fn view(&self) -> u64 {
        self.value@
    }
}

impl<Time: DeclineTimeUnit> TangentEffectiveDeclineRate<Time> {
    pub fn new(value: Scalar) -> (r: Self)
        ensures
            r@ == value@,
    {
        TangentEffectiveDeclineRate { value, _time: core::marker::PhantomData }
    }

    pub fn value(&self) -> (r: Scalar)
        ensures
            r@ == self@,
    {
        self.value
    }

    /// Whether this rate has a nominal counterpart: a tangent-effective
    /// decline rate of one or more cannot be converted.
    pub fn check_convertible(&self) -> (r: Result<(), DeclineCurveAnalysisError>)
        ensures
            r == spec_check_convertible(self@),
    {
        if self.value.ge(Scalar::from_bits(ONE_BITS)) {
            Err(DeclineCurveAnalysisError::DeclineRateTooHigh)
        } else {
            Ok(())
        }
    }
}

} // verus!
