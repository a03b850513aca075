use zenb_core::controller::{
    AdaptiveController, ControllerConfig, Estimate, compute_poll_interval, DEFAULT_RATE_MBPM,
    POLL_MAX_MS, POLL_MIN_MS, RATE_CLAMP_MAX_MBPM, RATE_CLAMP_MIN_MBPM,
};
use zenb_core::belief::Context;

fn ctx_plain() -> Context {
    Context { local_hour: 12, is_charging: false, recent_sessions: 0 }
}

#[test]
fn controller_basic_change() {
    let mut c = AdaptiveController::new(ControllerConfig::default());
    let est = Estimate { rr_mbpm: Some(6000) };
    let (r, changed) = c.decide(&est, 0);
    assert!(changed);
    assert_eq!(r, 6000);
}

#[test]
fn controller_debounce_suppresses_second_call() {
    let mut c = AdaptiveController::new(ControllerConfig::default());
    let (r, changed) = c.decide(&Estimate { rr_mbpm: Some(6000) }, 0);
    assert!(changed);
    assert_eq!(r, 6000);
    // near-identical estimate, inside the minimum decision interval
    let (r2, changed2) = c.decide(&Estimate { rr_mbpm: Some(6050) }, 100_000);
    assert!(!changed2);
    assert_eq!(r2, 6050);
    // the suppressed call left no trace: the remembered decision is still 6000,
    // so a real change relative to 6000 is still reported once enough time passed
    let (r3, changed3) = c.decide(&Estimate { rr_mbpm: Some(6200) }, 300_000);
    assert!(changed3);
    assert_eq!(r3, 6200);
}

#[test]
fn controller_needs_both_amplitude_and_time() {
    let mut c = AdaptiveController::new(ControllerConfig::default());
    let (_, first) = c.decide(&Estimate { rr_mbpm: Some(6000) }, 0);
    assert!(first);
    // large jump but too soon: suppressed
    let (_, too_soon) = c.decide(&Estimate { rr_mbpm: Some(9000) }, 100_000);
    assert!(!too_soon);
    // late enough but too small: suppressed
    let (_, too_small) = c.decide(&Estimate { rr_mbpm: Some(6100) }, 1_000_000);
    assert!(!too_small);
    // large and late: reported
    let (r, ok) = c.decide(&Estimate { rr_mbpm: Some(9000) }, 1_000_000);
    assert!(ok);
    assert_eq!(r, 9000);
}

#[test]
fn controller_fallback_and_clamp() {
    let mut c = AdaptiveController::new(ControllerConfig::default());
    // no estimate, no prior decision: the fixed default
    let (r, changed) = c.decide(&Estimate { rr_mbpm: None }, 0);
    assert!(changed);
    assert_eq!(r, DEFAULT_RATE_MBPM);
    // out-of-range estimates clamp exactly to the band edges
    let (hi, _) = c.decide(&Estimate { rr_mbpm: Some(20_000) }, 1_000_000);
    assert_eq!(hi, RATE_CLAMP_MAX_MBPM);
    let (lo, _) = c.decide(&Estimate { rr_mbpm: Some(1000) }, 2_000_000);
    assert_eq!(lo, RATE_CLAMP_MIN_MBPM);
    // boundary rates pass through unchanged
    let (exact, _) = c.decide(&Estimate { rr_mbpm: Some(RATE_CLAMP_MIN_MBPM) }, 3_000_000);
    assert_eq!(exact, RATE_CLAMP_MIN_MBPM);
}

#[test]
fn poll_interval_after_action_is_short() {
    assert_eq!(compute_poll_interval(0, 1000, true, &ctx_plain()), POLL_MIN_MS);
}

#[test]
fn poll_interval_dilates_when_calm() {
    // zero free energy, full confidence: the base interval, unshrunk
    assert_eq!(compute_poll_interval(0, 1000, false, &ctx_plain()), 5000);
}

#[test]
fn poll_interval_contracts_under_urgency() {
    // urgency 1000 (free energy 1.0, confidence 0): 5_000_000 / 11_000 = 454
    assert_eq!(compute_poll_interval(1000, 0, false, &ctx_plain()), 454);
    // extreme urgency still respects the lower band edge
    assert_eq!(compute_poll_interval(1_000_000, 0, false, &ctx_plain()), POLL_MIN_MS);
}

#[test]
fn poll_interval_charging_discount_stays_in_band() {
    let charging = Context { local_hour: 12, is_charging: true, recent_sessions: 0 };
    // 5000 * 4 / 5 = 4000 when charging
    assert_eq!(compute_poll_interval(0, 1000, false, &charging), 4000);
    // the discount can never push below the band
    assert_eq!(compute_poll_interval(1_000_000, 0, false, &charging), POLL_MIN_MS);
    // and the result never leaves [POLL_MIN_MS, POLL_MAX_MS]
    let r = compute_poll_interval(-50, 0, false, &charging);
    assert!(r >= POLL_MIN_MS && r <= POLL_MAX_MS);
}
