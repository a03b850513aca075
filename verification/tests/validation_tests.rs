use zenb_core::validation::{CircuitBreaker, SensorError, validate_ingestion, validate_sensor};

#[test]
fn finite_samples_pass_validation() {
    let samples: Vec<u32> = vec![60.0f32.to_bits(), 30.0f32.to_bits(), 6.0f32.to_bits(), 0.0f32
        .to_bits(), (-1.5f32).to_bits()];
    assert!(validate_sensor(&samples).is_ok());
    assert!(validate_sensor(&Vec::new()).is_ok());
}

#[test]
fn non_finite_samples_are_rejected() {
    let with_nan: Vec<u32> = vec![60.0f32.to_bits(), f32::NAN.to_bits()];
    assert!(matches!(validate_sensor(&with_nan), Err(SensorError::InvalidData(_))));
    let with_inf: Vec<u32> = vec![f32::INFINITY.to_bits()];
    assert!(matches!(validate_sensor(&with_inf), Err(SensorError::InvalidData(_))));
    let with_neg_inf: Vec<u32> = vec![f32::NEG_INFINITY.to_bits()];
    assert!(matches!(validate_sensor(&with_neg_inf), Err(SensorError::InvalidData(_))));
}

#[test]
fn overload_is_a_distinct_fault() {
    let burst: Vec<u32> = vec![6.0f32.to_bits(); 17];
    assert!(matches!(validate_ingestion(&burst, 16), Err(SensorError::BurstDetected)));
    // within budget the finiteness rule still applies, with its own fault kind
    let mut within: Vec<u32> = vec![6.0f32.to_bits(); 15];
    assert!(validate_ingestion(&within, 16).is_ok());
    within.push(f32::NAN.to_bits());
    assert!(matches!(validate_ingestion(&within, 16), Err(SensorError::InvalidData(_))));
}

#[test]
fn breaker_opens_after_threshold_trips() {
    let mut b = CircuitBreaker::default();
    assert!(b.allow(0));
    for _ in 0..4 {
        b.trip(0);
    }
    // four failures: still under the threshold of five
    assert!(b.allow(0));
    b.trip(0);
    // fifth failure within the window: denied
    assert!(!b.allow(0));
    assert!(!b.allow(59_999_999));
    // once the one-minute cooldown has elapsed, calls flow again
    assert!(b.allow(60_000_000));
}

#[test]
fn breaker_reset_restores_allow() {
    let mut b = CircuitBreaker::default();
    for _ in 0..5 {
        b.trip(1_000_000);
    }
    assert!(!b.allow(1_000_000));
    b.reset();
    assert!(b.allow(1_000_000));
    assert!(b.allow(0));
}

#[test]
fn later_trip_extends_the_window() {
    let mut b = CircuitBreaker::default();
    for _ in 0..5 {
        b.trip(0);
    }
    assert!(!b.allow(30_000_000));
    // another failure inside the window restarts the cooldown from its timestamp
    b.trip(30_000_000);
    assert!(!b.allow(60_000_000));
    assert!(b.allow(90_000_000));
}
