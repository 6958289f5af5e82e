//! Arps decline-curve segments: six segment models (flat, delay, linear,
//! exponential, harmonic, hyperbolic), the constructors that solve each
//! model for its duration, and the decline-rate representations they share.
//!
//! Every scalar is an IEEE-754 binary64 value carried as its bit pattern
//! (`Scalar`), over which classification, ordering and every validation
//! rule are specified and verified exactly. The closed-form inverses
//! themselves are floating-point arithmetic, which this crate does not
//! perform: a constructor that needs one takes the solved value as an
//! argument, validates every input, applies the sign rules and the
//! zero-duration shortcuts, and adopts the solved value exactly when the
//! checks pass. Callers evaluate the formulas and hand the results in.

use vstd::prelude::*;
use vstd::string::StringExecFns;

mod decline_rate;
mod delay;
mod exponential;
mod flat;
mod harmonic;
mod hyperbolic;
mod linear;
mod scalar;
mod validation;

pub use decline_rate::AverageDaysTime;
pub use decline_rate::AverageYearsTime;
pub use decline_rate::DeclineTimeUnit;
pub use decline_rate::MAX_DURATION_DAYS_BITS;
pub use decline_rate::MAX_DURATION_YEARS_BITS;
pub use decline_rate::NominalDeclineRate;
pub use decline_rate::SecantEffectiveDeclineRate;
pub use decline_rate::TangentEffectiveDeclineRate;
pub use decline_rate::spec_check_convertible;
pub use delay::DelayParameters;
pub use exponential::ExponentialParameters;
pub use exponential::spec_exponential_duration_checks;
pub use exponential::spec_exponential_final_rate_checks;
pub use exponential::spec_exponential_volume_checks;
pub use flat::FlatParameters;
pub use flat::spec_flat_duration_checks;
pub use flat::spec_flat_rate_check;
pub use flat::spec_flat_volume_checks;
pub use harmonic::HarmonicParameters;
pub use harmonic::spec_harmonic_duration_checks;
pub use harmonic::spec_harmonic_final_decline_rate_checks;
pub use harmonic::spec_harmonic_final_rate_checks;
pub use harmonic::spec_harmonic_volume_checks;
pub use hyperbolic::EXPONENT_LIMIT_BITS;
pub use hyperbolic::HyperbolicParameters;
pub use hyperbolic::NEAR_ONE_HIGH_BITS;
pub use hyperbolic::NEAR_ONE_LOW_BITS;
pub use hyperbolic::is_approximately_one_bits;
pub use hyperbolic::spec_hyperbolic_duration_checks;
pub use hyperbolic::spec_hyperbolic_final_decline_rate_checks;
pub use hyperbolic::spec_hyperbolic_final_rate_checks;
pub use hyperbolic::spec_hyperbolic_input_checks;
pub use hyperbolic::spec_hyperbolic_volume_checks;
pub use hyperbolic::spec_validate_exponent;
pub use hyperbolic::validate_exponent;
pub use linear::LinearParameters;
pub use linear::spec_linear_duration_checks;
pub use linear::spec_linear_final_rate_checks;
pub use linear::spec_linear_input_checks;
pub use linear::spec_linear_volume_checks;
pub use scalar::NEGATIVE_ZERO_BITS;
pub use scalar::ONE_BITS;
pub use scalar::POSITIVE_ZERO_BITS;
pub use scalar::Scalar;
pub use scalar::TOLERANCE_BITS;
pub use scalar::eq_bits;
pub use scalar::exponent_field;
pub use scalar::fraction_field;
pub use scalar::ge_bits;
pub use scalar::gt_bits;
pub use scalar::is_approximately_zero_bits;
pub use scalar::is_finite_bits;
pub use scalar::is_infinite_bits;
pub use scalar::is_nan_bits;
pub use scalar::is_negative_bits;
pub use scalar::is_zero_bits;
pub use scalar::le_bits;
pub use scalar::lemma_sign_field_is_boolean;
pub use scalar::lt_bits;
pub use scalar::magnitude_bits;
pub use scalar::sign_field;
pub use validation::DeclineRateSignValidation;
pub use validation::lemma_zero_duration_iff_equal_rates;
pub use validation::spec_validate_arps_inputs;
pub use validation::spec_validate_decline_rate_sign;
pub use validation::spec_validate_duration;
pub use validation::spec_validate_finite;
pub use validation::spec_validate_incremental_volume;
pub use validation::spec_validate_non_zero;
pub use validation::spec_validate_non_zero_positive;
pub use validation::spec_validate_positive;
pub use validation::validate_arps_inputs;
pub use validation::validate_decline_rate_sign;
pub use validation::validate_duration;
pub use validation::validate_finite;
pub use validation::validate_incremental_volume;
pub use validation::validate_non_zero;
pub use validation::validate_non_zero_positive;
pub use validation::validate_positive;

verus! {

/// The production rate for a specific time unit.
#[derive(Copy, Debug, PartialEq)]
pub struct ProductionRate<Time: DeclineTimeUnit> {
    value: Scalar,
    _time: core::marker::PhantomData<Time>,
}

impl<Time: DeclineTimeUnit> Clone for ProductionRate<Time> {
    fn clone(&self) -> (r: Self)
        ensures
            r == *self,
    {
        *self
    }
}

impl<Time: DeclineTimeUnit> View for ProductionRate<Time> {
    type V = u64;

    closed spec fn view(&self) -> u64 {
        self.value@
    }
}

impl<Time: DeclineTimeUnit> ProductionRate<Time> {
    pub fn new(value: Scalar) -> (r: Self)
        ensures
            r@ == value@,
    {
        ProductionRate { value, _time: core::marker::PhantomData }
    }

    pub fn value(&self) -> (r: Scalar)
        ensures
            r@ == self@,
    {
        self.value
    }
}

/// The input a validation failure names.
#[derive(Clone, Copy, Debug, PartialEq, Eq, Structural)]
pub enum InputParameter {
    InitialRate,
    Rate,
    FinalRate,
    DeclineRate,
    InitialDeclineRate,
    FinalDeclineRate,
    IncrementalDuration,
    IncrementalVolume,
    Exponent,
}

/// What is wrong with an input named by an `InvalidInput` error.
#[derive(Clone, Copy, Debug, PartialEq, Eq, Structural)]
pub enum InputProblem {
    NotANumber,
    Infinite,
    Negative,
    NegativeOrZero,
    ApproximatelyZero,
    ApproximatelyOne,
}

/// An error type for invalid parameters.
#[derive(Clone, Copy, Debug, PartialEq, Eq, Structural)]
pub enum DeclineCurveAnalysisError {
    /// A named input is non-finite, wrongly signed, or otherwise
    /// structurally invalid.
    InvalidInput { parameter: InputParameter, problem: InputProblem },
    /// The decline rate's sign is inconsistent with the requested direction
    /// of travel, or with the curvature exponent's sign.
    DeclineRateWrongSign,
    /// No finite solution exists for the given combination of inputs.
    CannotSolveDecline,
    /// A secant- or tangent-effective decline rate of one or more has no
    /// nominal counterpart.
    DeclineRateTooHigh,
    /// The curvature exponent's magnitude exceeds the sanity ceiling.
    ExponentTooLarge,
    /// The duration exceeds the thousand-year bound.
    DurationTooLong,
}

impl InputParameter {
    /// The parameter's name, as it appears in error messages.
    pub fn name(self) -> (r: &'static str)
        ensures
            r@ == self.spec_name(),
    {
        match self {
            InputParameter::InitialRate => "initial rate",
            InputParameter::Rate => "rate",
            InputParameter::FinalRate => "final rate",
            InputParameter::DeclineRate => "decline rate",
            InputParameter::InitialDeclineRate => "initial decline rate",
            InputParameter::FinalDeclineRate => "final decline rate",
            InputParameter::IncrementalDuration => "incremental duration",
            InputParameter::IncrementalVolume => "incremental volume",
            InputParameter::Exponent => "exponent",
        }
    }

    pub open spec fn spec_name(self) -> Seq<char> {
        match self {
            InputParameter::InitialRate => "initial rate"@,
            InputParameter::Rate => "rate"@,
            InputParameter::FinalRate => "final rate"@,
            InputParameter::DeclineRate => "decline rate"@,
            InputParameter::InitialDeclineRate => "initial decline rate"@,
            InputParameter::FinalDeclineRate => "final decline rate"@,
            InputParameter::IncrementalDuration => "incremental duration"@,
            InputParameter::IncrementalVolume => "incremental volume"@,
            InputParameter::Exponent => "exponent"@,
        }
    }
}

impl InputProblem {
    /// A human-readable account of the problem, as it appears in error
    /// messages.
    pub fn description(self) -> (r: &'static str)
        ensures
            r@ == self.spec_description(),
    {
        match self {
            InputProblem::NotANumber => "is not a number",
            InputProblem::Infinite => "is infinite, but expected a finite number",
            InputProblem::Negative => "is negative, but expected a non-negative number",
            InputProblem::NegativeOrZero => {
                "is negative or zero, but expected a positive number"
            },
            InputProblem::ApproximatelyZero => {
                "is approximately zero, but expected a non-zero number"
            },
            InputProblem::ApproximatelyOne => {
                "is approximately one, where this model is undefined"
            },
        }
    }

    pub open spec fn spec_description(self) -> Seq<char> {
        match self {
            InputProblem::NotANumber => "is not a number"@,
            InputProblem::Infinite => "is infinite, but expected a finite number"@,
            InputProblem::Negative => "is negative, but expected a non-negative number"@,
            InputProblem::NegativeOrZero => {
                "is negative or zero, but expected a positive number"@
            },
            InputProblem::ApproximatelyZero => {
                "is approximately zero, but expected a non-zero number"@
            },
            InputProblem::ApproximatelyOne => {
                "is approximately one, where this model is undefined"@
            },
        }
    }
}

impl DeclineCurveAnalysisError {
    /// A human-readable message; for an `InvalidInput` it names the
    /// offending parameter followed by the problem's description.
    pub fn message(self) -> (r: String)
        ensures
            r@ == self.spec_message(),
    {
        match self {
            DeclineCurveAnalysisError::InvalidInput { parameter, problem } => {
                String::from_str(parameter.name()).concat(" ").concat(problem.description())
            },
            DeclineCurveAnalysisError::DeclineRateWrongSign => {
                String::from_str("decline rate has wrong sign")
            },
            DeclineCurveAnalysisError::CannotSolveDecline => {
                String::from_str("cannot solve decline")
            },
            DeclineCurveAnalysisError::DeclineRateTooHigh => {
                String::from_str("decline rate too high")
            },
            DeclineCurveAnalysisError::ExponentTooLarge => String::from_str("exponent too large"),
            DeclineCurveAnalysisError::DurationTooLong => String::from_str("duration too long"),
        }
    }

    pub open spec fn spec_message(self) -> Seq<char> {
        match self {
            DeclineCurveAnalysisError::InvalidInput { parameter, problem } => {
                parameter.spec_name() + " "@ + problem.spec_description()
            },
            DeclineCurveAnalysisError::DeclineRateWrongSign => "decline rate has wrong sign"@,
            DeclineCurveAnalysisError::CannotSolveDecline => "cannot solve decline"@,
            DeclineCurveAnalysisError::DeclineRateTooHigh => "decline rate too high"@,
            DeclineCurveAnalysisError::ExponentTooLarge => "exponent too large"@,
            DeclineCurveAnalysisError::DurationTooLong => "duration too long"@,
        }
    }
}

} // verus!
