use chargectl::error::ChargeError;
use chargectl::sysfs::{
    is_ac_power_online, is_platform_supported, validate_thresholds, ThresholdPair,
};
use chargectl::error::IoFailure;

#[test]
fn test_validate_thresholds() {
    // Start == 0 is in order: the battery always charges.
    assert!(validate_thresholds(0, 100).is_ok(), "start == 0");
    // Stop == 0
    assert!(validate_thresholds(75, 0).is_err(), "stop == 0");
    // Start > 100
    assert!(validate_thresholds(101, 100).is_err(), "start > 100");
    // Stop > 100
    assert!(validate_thresholds(75, 101).is_err(), "stop > 100");
    // Start == stop
    assert!(validate_thresholds(75, 75).is_err(), "start == stop");
    // Start > stop
    assert!(validate_thresholds(80, 75).is_err(), "start > stop");
}

#[test]
fn validate_gives_the_threshold_error() {
    assert_eq!(validate_thresholds(101, 100), Err(ChargeError::InvalidThreshold));
    assert_eq!(validate_thresholds(75, 75), Err(ChargeError::InvalidThreshold));
    assert_eq!(validate_thresholds(80, 75), Err(ChargeError::InvalidThreshold));
    assert_eq!(validate_thresholds(75, 101), Err(ChargeError::InvalidThreshold));
    assert_eq!(validate_thresholds(0, 0), Err(ChargeError::InvalidThreshold));
    assert_eq!(validate_thresholds(255, 255), Err(ChargeError::InvalidThreshold));
}

#[test]
fn validate_accepts_the_edges() {
    assert_eq!(validate_thresholds(0, 100), Ok(()));
    assert_eq!(validate_thresholds(0, 1), Ok(()));
    assert_eq!(validate_thresholds(99, 100), Ok(()));
    assert_eq!(validate_thresholds(96, 100), Ok(()));
    assert_eq!(validate_thresholds(10, 90), Ok(()));
}

#[test]
fn validate_agrees_with_the_rule_on_every_pair() {
    for start in 0..=255u8 {
        for stop in 0..=255u8 {
            let expected = start < stop && stop <= 100;
            assert_eq!(validate_thresholds(start, stop).is_ok(), expected, "{start} {stop}");
        }
    }
}

#[test]
fn pair_is_made_only_from_valid_thresholds() {
    assert_eq!(ThresholdPair::new(40, 80), Ok(ThresholdPair { start: 40, stop: 80 }));
    assert_eq!(ThresholdPair::new(0, 100), Ok(ThresholdPair { start: 0, stop: 100 }));
    assert_eq!(ThresholdPair::new(80, 40), Err(ChargeError::InvalidThreshold));
    assert_eq!(ThresholdPair::new(50, 50), Err(ChargeError::InvalidThreshold));
    assert_eq!(ThresholdPair::new(50, 101), Err(ChargeError::InvalidThreshold));
}

#[test]
fn platform_is_supported_where_the_class_exists() {
    assert_eq!(is_platform_supported(true), Ok(()));
    assert_eq!(is_platform_supported(false), Err(ChargeError::Unsupported));
}

#[test]
fn ac_power_follows_the_online_flag() {
    assert_eq!(is_ac_power_online(Ok(b"1\n".to_vec())), Ok(()));
    assert_eq!(is_ac_power_online(Ok(b"1".to_vec())), Ok(()));
    assert_eq!(is_ac_power_online(Ok(b"0\n".to_vec())), Err(ChargeError::AcOffline));
}

#[test]
fn ac_power_passes_on_what_went_wrong() {
    assert_eq!(
        is_ac_power_online(Err(IoFailure::NotFound)),
        Err(ChargeError::Io(IoFailure::NotFound))
    );
    assert_eq!(
        is_ac_power_online(Err(IoFailure::PermissionDenied)),
        Err(ChargeError::Io(IoFailure::PermissionDenied))
    );
    assert_eq!(
        is_ac_power_online(Ok(b"on\n".to_vec())),
        Err(ChargeError::MalformedKernelValue)
    );
    assert_eq!(is_ac_power_online(Ok(Vec::new())), Err(ChargeError::MalformedKernelValue));
}
