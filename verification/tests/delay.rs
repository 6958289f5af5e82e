use decline_curve_analysis::AverageDaysTime;
use decline_curve_analysis::DelayParameters;
use decline_curve_analysis::Scalar;

fn scalar_of(value: f64) -> Scalar {
    Scalar::from_bits(value.to_bits())
}

#[test]
fn delay_from_incremental_duration() {
    let incremental_duration = AverageDaysTime { days: scalar_of(10. * 365.) };

    let calculated_duration = DelayParameters::from_incremental_duration(incremental_duration)
        .unwrap()
        .incremental_duration()
        .days;

    assert_eq!(calculated_duration, scalar_of(3650.));
}

#[test]
fn delay_incremental_volume_at_time() {
    let incremental_duration = AverageDaysTime { days: scalar_of(10. * 365.) };

    let parameters = DelayParameters::from_incremental_duration(incremental_duration).unwrap();

    // Calculate past the end to check the total.
    assert_eq!(
        parameters.incremental_volume_at_time(AverageDaysTime { days: scalar_of(3560.) }),
        scalar_of(0.)
    );

    // Check a point somewhere in the middle.
    assert_eq!(
        parameters.incremental_volume_at_time(AverageDaysTime { days: scalar_of(0.5 * 3560.) }),
        scalar_of(0.)
    );
}

#[test]
fn delay_final_rate() {
    let incremental_duration = AverageDaysTime { days: scalar_of(10. * 365.) };

    let parameters = DelayParameters::from_incremental_duration(incremental_duration).unwrap();

    assert_eq!(parameters.final_rate().value(), scalar_of(0.));
}

#[test]
fn delay_rejects_too_long_duration() {
    // A day beyond a thousand average years.
    let incremental_duration = AverageDaysTime { days: scalar_of(365251.) };

    let result = DelayParameters::from_incremental_duration(incremental_duration);

    assert!(matches!(
        result,
        Err(decline_curve_analysis::DeclineCurveAnalysisError::DurationTooLong)
    ));
}

#[test]
fn delay_rate_is_zero_at_every_time() {
    let incremental_duration = AverageDaysTime { days: scalar_of(100.) };

    let parameters = DelayParameters::from_incremental_duration(incremental_duration).unwrap();

    assert_eq!(
        parameters.rate_at_time(AverageDaysTime { days: scalar_of(5000.) }).value(),
        parameters.final_rate().value()
    );
    assert_eq!(parameters.rate().value(), scalar_of(0.));
}
