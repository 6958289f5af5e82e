use decline_curve_analysis::AverageDaysTime;
use decline_curve_analysis::AverageYearsTime;
use decline_curve_analysis::DeclineCurveAnalysisError;
use decline_curve_analysis::ExponentialParameters;
use decline_curve_analysis::InputParameter;
use decline_curve_analysis::InputProblem;
use decline_curve_analysis::NominalDeclineRate;
use decline_curve_analysis::ProductionRate;
use decline_curve_analysis::Scalar;

fn scalar_of(value: f64) -> Scalar {
    Scalar::from_bits(value.to_bits())
}

fn value_of(scalar: Scalar) -> f64 {
    f64::from_bits(scalar.bits())
}

/// A yearly nominal decline rate converted to a daily one.
fn daily_decline_rate(yearly: f64) -> f64 {
    (yearly * 1.) / 365.25
}

/// The closed-form inverse of the exponential volume formula for time.
fn exponential_volume_inverse(initial_rate: f64, decline_rate: f64, volume: f64) -> f64 {
    -((-volume * decline_rate) / initial_rate).ln_1p() / decline_rate
}

/// The exponential volume at a time, clamped to the end of the segment.
fn exponential_volume_at_time(
    parameters: &ExponentialParameters<AverageDaysTime>,
    days: f64,
) -> f64 {
    let time = parameters.evaluation_time(AverageDaysTime { days: scalar_of(days) });
    let initial_rate = value_of(parameters.initial_rate().value());
    let decline_rate = value_of(parameters.decline_rate().value());
    let exp_part = -(-decline_rate * value_of(time.days)).exp_m1();
    (exp_part * initial_rate) / decline_rate
}

/// The exponential rate at a time, clamped to the end of the segment.
fn exponential_rate_at_time(parameters: &ExponentialParameters<AverageDaysTime>, days: f64) -> f64 {
    let time = parameters.evaluation_time(AverageDaysTime { days: scalar_of(days) });
    let initial_rate = value_of(parameters.initial_rate().value());
    let decline_rate = value_of(parameters.decline_rate().value());
    initial_rate * (-decline_rate * value_of(time.days)).exp()
}

#[test]
fn exponential_from_incremental_duration() {
    let initial_rate = ProductionRate::<AverageDaysTime>::new(scalar_of(50.));
    let initial_decline_rate =
        NominalDeclineRate::<AverageDaysTime>::new(scalar_of(daily_decline_rate(0.5)));
    let incremental_duration = AverageDaysTime { days: scalar_of(10. * 365.) };

    let calculated_duration = ExponentialParameters::from_incremental_duration(
        initial_rate,
        initial_decline_rate,
        incremental_duration,
    )
    .unwrap()
    .incremental_duration()
    .days;

    assert_eq!(calculated_duration, scalar_of(3650.));
}

#[test]
fn exponential_from_incremental_volume() {
    let initial_rate = ProductionRate::<AverageDaysTime>::new(scalar_of(50.));
    let decline_rate = daily_decline_rate(0.5);
    let initial_decline_rate = NominalDeclineRate::<AverageDaysTime>::new(scalar_of(decline_rate));
    let incremental_volume = 29220.;

    let maximum_volume = 50. / decline_rate;
    let solved_duration = exponential_volume_inverse(50., decline_rate, incremental_volume);

    let calculated_duration = ExponentialParameters::from_incremental_volume(
        initial_rate,
        initial_decline_rate,
        scalar_of(incremental_volume),
        scalar_of(maximum_volume),
        scalar_of(solved_duration),
    )
    .unwrap()
    .incremental_duration()
    .days;

    assert_eq!(value_of(calculated_duration), 1175.6943950331104);
}

#[test]
fn exponential_from_final_rate() {
    let initial_rate = ProductionRate::<AverageDaysTime>::new(scalar_of(50.));
    let decline_rate = daily_decline_rate(0.5);
    let initial_decline_rate = NominalDeclineRate::<AverageDaysTime>::new(scalar_of(decline_rate));
    let final_rate = ProductionRate::<AverageDaysTime>::new(scalar_of(10.));

    // The closed-form inverse of the exponential rate formula for time.
    let solved_duration = (50.0f64 / 10.).ln() / decline_rate;

    let calculated_duration = ExponentialParameters::from_final_rate(
        initial_rate,
        initial_decline_rate,
        final_rate,
        scalar_of(solved_duration),
    )
    .unwrap()
    .incremental_duration()
    .days;

    assert_eq!(value_of(calculated_duration), 1175.6943950331104);
}

#[test]
fn exponential_incremental_volume_at_time() {
    let initial_rate = ProductionRate::<AverageDaysTime>::new(scalar_of(50.));
    let initial_decline_rate =
        NominalDeclineRate::<AverageDaysTime>::new(scalar_of(daily_decline_rate(0.5)));
    let incremental_duration = AverageDaysTime { days: scalar_of(1175.6943) };

    let parameters = ExponentialParameters::from_incremental_duration(
        initial_rate,
        initial_decline_rate,
        incremental_duration,
    )
    .unwrap();

    // Calculate past the end to check the total.
    assert_eq!(exponential_volume_at_time(&parameters, 1180.), 29219.999049668837);

    // Check a point somewhere in the middle.
    assert_eq!(exponential_volume_at_time(&parameters, 0.5 * 1180.), 20238.590688787954);
}

#[test]
fn exponential_final_rate() {
    let initial_rate = ProductionRate::<AverageDaysTime>::new(scalar_of(50.));
    let initial_decline_rate =
        NominalDeclineRate::<AverageDaysTime>::new(scalar_of(daily_decline_rate(0.5)));
    let incremental_duration = AverageDaysTime { days: scalar_of(1175.6943) };

    let parameters = ExponentialParameters::from_incremental_duration(
        initial_rate,
        initial_decline_rate,
        incremental_duration,
    )
    .unwrap();

    assert_eq!(exponential_rate_at_time(&parameters, 1175.6943), 10.000001300932462);
}

#[test]
fn exponential_incline() {
    let initial_rate = ProductionRate::<AverageDaysTime>::new(scalar_of(50.));
    let initial_decline_rate =
        NominalDeclineRate::<AverageDaysTime>::new(scalar_of(daily_decline_rate(-0.5)));
    let incremental_duration = AverageDaysTime { days: scalar_of(10. * 365.) };

    let parameters = ExponentialParameters::from_incremental_duration(
        initial_rate,
        initial_decline_rate,
        incremental_duration,
    )
    .unwrap();

    assert_eq!(parameters.incremental_duration().days, scalar_of(3650.));
    assert_eq!(exponential_volume_at_time(&parameters, 4000.), 5365745.699923456);
    assert_eq!(exponential_rate_at_time(&parameters, 3650.), 7395.30554404306);
}

#[test]
fn exponential_decline_rate_wrong_sign() {
    // Incline with a positive decline rate.
    let initial_rate = ProductionRate::<AverageDaysTime>::new(scalar_of(50.));
    let decline_rate = daily_decline_rate(0.5);
    let initial_decline_rate = NominalDeclineRate::<AverageDaysTime>::new(scalar_of(decline_rate));
    let final_rate = ProductionRate::<AverageDaysTime>::new(scalar_of(60.));

    let solved_duration = (50.0f64 / 60.).ln() / decline_rate;

    let parameters = ExponentialParameters::from_final_rate(
        initial_rate,
        initial_decline_rate,
        final_rate,
        scalar_of(solved_duration),
    );

    assert!(matches!(
        parameters,
        Err(decline_curve_analysis::DeclineCurveAnalysisError::DeclineRateWrongSign)
    ));
}

#[test]
fn exponential_equal_rates_short_circuit_to_zero_duration() {
    let initial_rate = ProductionRate::<AverageDaysTime>::new(scalar_of(50.));
    let initial_decline_rate =
        NominalDeclineRate::<AverageDaysTime>::new(scalar_of(daily_decline_rate(0.5)));
    let final_rate = ProductionRate::<AverageDaysTime>::new(scalar_of(50.));

    // A deliberately wrong solved duration shows the shortcut never uses it.
    let parameters = ExponentialParameters::from_final_rate(
        initial_rate,
        initial_decline_rate,
        final_rate,
        scalar_of(999.),
    )
    .unwrap();

    assert_eq!(parameters.incremental_duration().days, scalar_of(0.));
}

#[test]
fn exponential_volume_at_asymptote_cannot_be_solved() {
    let initial_rate = ProductionRate::<AverageDaysTime>::new(scalar_of(50.));
    let decline_rate = daily_decline_rate(0.5);
    let initial_decline_rate = NominalDeclineRate::<AverageDaysTime>::new(scalar_of(decline_rate));

    let maximum_volume = 50. / decline_rate;
    let solved_duration = exponential_volume_inverse(50., decline_rate, maximum_volume);

    let result = ExponentialParameters::from_incremental_volume(
        initial_rate,
        initial_decline_rate,
        scalar_of(maximum_volume),
        scalar_of(maximum_volume),
        scalar_of(solved_duration),
    );

    assert!(matches!(
        result,
        Err(decline_curve_analysis::DeclineCurveAnalysisError::CannotSolveDecline)
    ));
}

#[test]
fn exponential_duration_in_years_uses_the_year_bound() {
    let initial_rate = ProductionRate::<AverageYearsTime>::new(scalar_of(50.));
    let initial_decline_rate = NominalDeclineRate::<AverageYearsTime>::new(scalar_of(0.5));

    let result = ExponentialParameters::from_incremental_duration(
        initial_rate,
        initial_decline_rate,
        AverageYearsTime { years: scalar_of(999.) },
    );
    assert!(result.is_ok());

    let result = ExponentialParameters::from_incremental_duration(
        initial_rate,
        initial_decline_rate,
        AverageYearsTime { years: scalar_of(1001.) },
    );
    assert!(matches!(
        result,
        Err(decline_curve_analysis::DeclineCurveAnalysisError::DurationTooLong)
    ));
}

#[test]
fn exponential_rejects_non_finite_inputs() {
    let decline_rate = NominalDeclineRate::<AverageDaysTime>::new(scalar_of(daily_decline_rate(0.5)));
    let duration = AverageDaysTime { days: scalar_of(100.) };

    let result = ExponentialParameters::from_incremental_duration(
        ProductionRate::<AverageDaysTime>::new(scalar_of(f64::NAN)),
        decline_rate,
        duration,
    );
    assert_eq!(
        result.unwrap_err(),
        DeclineCurveAnalysisError::InvalidInput {
            parameter: InputParameter::InitialRate,
            problem: InputProblem::NotANumber,
        }
    );

    let result = ExponentialParameters::from_incremental_duration(
        ProductionRate::<AverageDaysTime>::new(scalar_of(50.)),
        NominalDeclineRate::<AverageDaysTime>::new(scalar_of(f64::INFINITY)),
        duration,
    );
    assert_eq!(
        result.unwrap_err(),
        DeclineCurveAnalysisError::InvalidInput {
            parameter: InputParameter::DeclineRate,
            problem: InputProblem::Infinite,
        }
    );
}
