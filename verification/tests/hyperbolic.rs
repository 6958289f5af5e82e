use decline_curve_analysis::AverageDaysTime;
use decline_curve_analysis::HyperbolicParameters;
use decline_curve_analysis::NominalDeclineRate;
use decline_curve_analysis::ProductionRate;
use decline_curve_analysis::Scalar;

fn scalar_of(value: f64) -> Scalar {
    Scalar::from_bits(value.to_bits())
}

fn value_of(scalar: Scalar) -> f64 {
    f64::from_bits(scalar.bits())
}

/// A yearly nominal decline rate converted to a daily one.
fn daily_decline_rate(yearly: f64) -> f64 {
    (yearly * 1.) / 365.25
}

fn hyperbolic_from_duration(
    initial_rate: f64,
    decline_rate: f64,
    days: f64,
    exponent: f64,
) -> HyperbolicParameters<AverageDaysTime> {
    HyperbolicParameters::from_incremental_duration(
        ProductionRate::<AverageDaysTime>::new(scalar_of(initial_rate)),
        NominalDeclineRate::<AverageDaysTime>::new(scalar_of(decline_rate)),
        AverageDaysTime { days: scalar_of(days) },
        scalar_of(exponent),
    )
    .unwrap()
}

/// The hyperbolic volume at a time, clamped to the end of the segment.
fn hyperbolic_volume_at_time(parameters: &HyperbolicParameters<AverageDaysTime>, days: f64) -> f64 {
    let time = parameters.evaluation_time(AverageDaysTime { days: scalar_of(days) });
    let initial_rate = value_of(parameters.initial_rate().value());
    let decline_rate = value_of(parameters.initial_decline_rate().value());
    let exponent = value_of(parameters.exponent());

    let factor_denom = decline_rate.mul_add(-exponent, decline_rate);
    let factor = initial_rate / factor_denom;
    let power = 1. - 1. / exponent;
    let exponent_times_decline_rate = exponent * decline_rate;
    let base = value_of(time.days).mul_add(exponent_times_decline_rate, 1.);

    base.powf(power).mul_add(-factor, factor)
}

/// The hyperbolic rate at a time, clamped to the end of the segment.
fn hyperbolic_rate_at_time(parameters: &HyperbolicParameters<AverageDaysTime>, days: f64) -> f64 {
    let time = parameters.evaluation_time(AverageDaysTime { days: scalar_of(days) });
    let initial_rate = value_of(parameters.initial_rate().value());
    let decline_rate = value_of(parameters.initial_decline_rate().value());
    let exponent = value_of(parameters.exponent());

    initial_rate
        / value_of(time.days).mul_add(exponent * decline_rate, 1.).powf(1. / exponent)
}

#[test]
fn hyperbolic_from_incremental_duration() {
    let parameters = hyperbolic_from_duration(50., daily_decline_rate(0.5), 10. * 365., 0.9);

    assert_eq!(parameters.incremental_duration().days, scalar_of(3650.));
}

#[test]
fn hyperbolic_from_incremental_volume() {
    let initial_rate = ProductionRate::<AverageDaysTime>::new(scalar_of(50.));
    let decline_rate = daily_decline_rate(0.5);
    let initial_decline_rate = NominalDeclineRate::<AverageDaysTime>::new(scalar_of(decline_rate));
    let incremental_volume = 54298.0932992834;
    let exponent = 0.9;

    // The closed-form inverse of the hyperbolic volume formula for time.
    let one_minus_exponent = 1. - exponent;
    let base = 1. - (incremental_volume * decline_rate * one_minus_exponent) / 50.;
    let denom = exponent * decline_rate;
    let solved_duration = (base.powf(-exponent / one_minus_exponent) - 1.) / denom;

    // The asymptotic maximum volume for a decline with an exponent below
    // one.
    let maximum_volume = 50. / (decline_rate * one_minus_exponent);

    let calculated_duration = HyperbolicParameters::from_incremental_volume(
        initial_rate,
        initial_decline_rate,
        scalar_of(incremental_volume),
        scalar_of(exponent),
        scalar_of(maximum_volume),
        scalar_of(solved_duration),
    )
    .unwrap()
    .incremental_duration()
    .days;

    assert_eq!(value_of(calculated_duration), 2643.3545188968474);
}

#[test]
fn hyperbolic_from_final_decline_rate() {
    let initial_rate = ProductionRate::<AverageDaysTime>::new(scalar_of(50.));
    let initial_decline = daily_decline_rate(0.5);
    let final_decline = daily_decline_rate(0.117461894308802);
    let initial_decline_rate = NominalDeclineRate::<AverageDaysTime>::new(scalar_of(initial_decline));
    let final_decline_rate = NominalDeclineRate::<AverageDaysTime>::new(scalar_of(final_decline));
    let exponent = 0.9;

    // The closed-form inverse of the hyperbolic decline-rate formula.
    let solved_duration =
        (initial_decline / final_decline - 1.) / (exponent * initial_decline);

    let calculated_duration = HyperbolicParameters::from_final_decline_rate(
        initial_rate,
        initial_decline_rate,
        final_decline_rate,
        scalar_of(exponent),
        scalar_of(solved_duration),
    )
    .unwrap()
    .incremental_duration()
    .days;

    assert_eq!(value_of(calculated_duration), 2643.3545188968483);
}

#[test]
fn hyperbolic_from_final_rate() {
    let initial_rate = ProductionRate::<AverageDaysTime>::new(scalar_of(50.));
    let decline_rate = daily_decline_rate(0.5);
    let initial_decline_rate = NominalDeclineRate::<AverageDaysTime>::new(scalar_of(decline_rate));
    let final_rate = ProductionRate::<AverageDaysTime>::new(scalar_of(10.));
    let exponent = 0.9;

    // The closed-form inverse of the hyperbolic rate formula for time.
    let solved_duration =
        ((50.0f64 / 10.).powf(exponent) - 1.) / (exponent * decline_rate);

    let calculated_duration = HyperbolicParameters::from_final_rate(
        initial_rate,
        initial_decline_rate,
        final_rate,
        scalar_of(exponent),
        scalar_of(solved_duration),
    )
    .unwrap()
    .incremental_duration()
    .days;

    assert_eq!(value_of(calculated_duration), 2643.354518896851);
}

#[test]
fn hyperbolic_incremental_volume_at_time() {
    let parameters = hyperbolic_from_duration(50., daily_decline_rate(0.5), 2643.3552, 0.9);

    // Calculate past the end to check the total.
    assert_eq!(hyperbolic_volume_at_time(&parameters, 2700.), 54298.10011031419);

    // Check a point somewhere in the middle.
    assert_eq!(hyperbolic_volume_at_time(&parameters, 0.5 * 2700.), 37666.26214690978);
}

#[test]
fn hyperbolic_final_rate() {
    let parameters = hyperbolic_from_duration(50., daily_decline_rate(0.5), 2643.3552, 0.9);

    assert_eq!(hyperbolic_rate_at_time(&parameters, 2643.3552), 9.999997809619451);
}

#[test]
fn hyperbolic_incline() {
    let parameters = hyperbolic_from_duration(50., daily_decline_rate(-0.005), 10. * 365., -0.9);

    assert_eq!(parameters.incremental_duration().days, scalar_of(3650.));
    assert_eq!(hyperbolic_volume_at_time(&parameters, 4000.), 187066.8962759463);
    assert_eq!(hyperbolic_rate_at_time(&parameters, 3650.), 52.50444884947007);
}

#[test]
fn hyperbolic_decline_rate_wrong_sign() {
    // Incline with a positive decline rate.
    let initial_rate = ProductionRate::<AverageDaysTime>::new(scalar_of(50.));
    let decline_rate = daily_decline_rate(0.5);
    let initial_decline_rate = NominalDeclineRate::<AverageDaysTime>::new(scalar_of(decline_rate));
    let final_rate = ProductionRate::<AverageDaysTime>::new(scalar_of(60.));
    let exponent = 0.9;

    let solved_duration =
        ((50.0f64 / 60.).powf(exponent) - 1.) / (exponent * decline_rate);

    let parameters = HyperbolicParameters::from_final_rate(
        initial_rate,
        initial_decline_rate,
        final_rate,
        scalar_of(exponent),
        scalar_of(solved_duration),
    );

    assert!(matches!(
        parameters,
        Err(decline_curve_analysis::DeclineCurveAnalysisError::DeclineRateWrongSign)
    ));
}

#[test]
fn hyperbolic_final_decline_rate_impossible() {
    let initial_rate = ProductionRate::<AverageDaysTime>::new(scalar_of(50.));

    // Positive decline rate inclining with positive exponent.
    let parameters = HyperbolicParameters::from_final_decline_rate(
        initial_rate,
        NominalDeclineRate::<AverageDaysTime>::new(scalar_of(daily_decline_rate(0.5))),
        NominalDeclineRate::<AverageDaysTime>::new(scalar_of(daily_decline_rate(0.6))),
        scalar_of(0.9),
        scalar_of(0.),
    );
    assert!(matches!(
        parameters,
        Err(decline_curve_analysis::DeclineCurveAnalysisError::CannotSolveDecline)
    ));

    // Positive decline rate with negative exponent: the exponent must share
    // the decline rate's sign.
    let parameters = HyperbolicParameters::from_final_decline_rate(
        initial_rate,
        NominalDeclineRate::<AverageDaysTime>::new(scalar_of(daily_decline_rate(0.5))),
        NominalDeclineRate::<AverageDaysTime>::new(scalar_of(daily_decline_rate(0.4))),
        scalar_of(-0.9),
        scalar_of(0.),
    );
    assert!(matches!(
        parameters,
        Err(decline_curve_analysis::DeclineCurveAnalysisError::DeclineRateWrongSign)
    ));

    // Positive initial decline rate with negative final decline rate.
    let parameters = HyperbolicParameters::from_final_decline_rate(
        initial_rate,
        NominalDeclineRate::<AverageDaysTime>::new(scalar_of(daily_decline_rate(0.1))),
        NominalDeclineRate::<AverageDaysTime>::new(scalar_of(daily_decline_rate(-0.1))),
        scalar_of(0.9),
        scalar_of(0.),
    );
    assert!(matches!(
        parameters,
        Err(decline_curve_analysis::DeclineCurveAnalysisError::CannotSolveDecline)
    ));

    // Negative initial decline rate with positive final decline rate.
    let parameters = HyperbolicParameters::from_final_decline_rate(
        initial_rate,
        NominalDeclineRate::<AverageDaysTime>::new(scalar_of(daily_decline_rate(-0.1))),
        NominalDeclineRate::<AverageDaysTime>::new(scalar_of(daily_decline_rate(0.1))),
        scalar_of(-0.9),
        scalar_of(0.),
    );
    assert!(matches!(
        parameters,
        Err(decline_curve_analysis::DeclineCurveAnalysisError::CannotSolveDecline)
    ));
}

#[test]
fn hyperbolic_volume_at_asymptote_cannot_be_solved() {
    // A volume at or beyond the asymptotic maximum for an exponent between
    // zero and one with a positive decline rate has no solution.
    let initial_rate = ProductionRate::<AverageDaysTime>::new(scalar_of(100.));
    let decline_rate = daily_decline_rate(0.1);
    let initial_decline_rate = NominalDeclineRate::<AverageDaysTime>::new(scalar_of(decline_rate));
    let exponent = 0.5;

    let maximum_volume = 100. / (decline_rate * (1. - exponent));
    let requested_volume: f64 = 2000. * 365.25;

    let result = HyperbolicParameters::from_incremental_volume(
        initial_rate,
        initial_decline_rate,
        scalar_of(requested_volume.max(maximum_volume)),
        scalar_of(exponent),
        scalar_of(maximum_volume),
        scalar_of(0.),
    );

    assert!(matches!(
        result,
        Err(decline_curve_analysis::DeclineCurveAnalysisError::CannotSolveDecline)
    ));
}

#[test]
fn hyperbolic_exponent_too_large() {
    let result = HyperbolicParameters::from_incremental_duration(
        ProductionRate::<AverageDaysTime>::new(scalar_of(50.)),
        NominalDeclineRate::<AverageDaysTime>::new(scalar_of(daily_decline_rate(0.5))),
        AverageDaysTime { days: scalar_of(100.) },
        scalar_of(100.5),
    );

    assert!(matches!(
        result,
        Err(decline_curve_analysis::DeclineCurveAnalysisError::ExponentTooLarge)
    ));

    // The ceiling itself is accepted.
    let result = HyperbolicParameters::from_incremental_duration(
        ProductionRate::<AverageDaysTime>::new(scalar_of(50.)),
        NominalDeclineRate::<AverageDaysTime>::new(scalar_of(daily_decline_rate(0.5))),
        AverageDaysTime { days: scalar_of(100.) },
        scalar_of(100.),
    );
    assert!(result.is_ok());
}

#[test]
fn hyperbolic_exponent_near_one_is_rejected() {
    let near_one = 1. + 5e-13;

    let result = HyperbolicParameters::from_incremental_duration(
        ProductionRate::<AverageDaysTime>::new(scalar_of(50.)),
        NominalDeclineRate::<AverageDaysTime>::new(scalar_of(daily_decline_rate(0.5))),
        AverageDaysTime { days: scalar_of(100.) },
        scalar_of(near_one),
    );

    assert!(matches!(
        result,
        Err(decline_curve_analysis::DeclineCurveAnalysisError::InvalidInput { .. })
    ));

    // A value outside the tolerance band around one is accepted.
    let result = HyperbolicParameters::from_incremental_duration(
        ProductionRate::<AverageDaysTime>::new(scalar_of(50.)),
        NominalDeclineRate::<AverageDaysTime>::new(scalar_of(daily_decline_rate(0.5))),
        AverageDaysTime { days: scalar_of(100.) },
        scalar_of(1.000001),
    );
    assert!(result.is_ok());
}
