use zenb_core::safety::{PatchVerdict, SafetyConfig, SafetyEnvelope};

#[test]
fn safety_freeze_on_low_confidence() {
    let mut s = SafetyEnvelope::new(SafetyConfig::default());
    assert!(!s.allow_patch(0, 6000, 100));
    assert!(s.allow_patch(0, 6000, 900));
}

#[test]
fn rate_limit_delta() {
    let mut s = SafetyEnvelope::new(SafetyConfig::default());
    assert!(s.allow_patch(0, 6000, 900));
    s.record_patch(0, 6000);
    // quick change should be denied
    assert!(!s.allow_patch(100_000, 9000, 900));
}

#[test]
fn verdicts_name_the_denial() {
    let mut s = SafetyEnvelope::new(SafetyConfig::default());
    assert_eq!(s.judge_patch(0, 6000, 100), PatchVerdict::LowConfidence);
    assert_eq!(s.judge_patch(0, 15_000, 900), PatchVerdict::OutOfRange);
    assert_eq!(s.judge_patch(0, 3000, 900), PatchVerdict::OutOfRange);
    assert_eq!(s.judge_patch(0, 6000, 900), PatchVerdict::Allowed);
    s.record_patch(0, 6000);
    assert_eq!(s.judge_patch(100_000, 6000, 900), PatchVerdict::TooSoon);
    assert_eq!(s.judge_patch(300_000, 9000, 900), PatchVerdict::DeltaTooLarge);
    // one minute later, a 2 bpm step is exactly the allowed delta
    assert_eq!(s.judge_patch(60_000_000, 8000, 900), PatchVerdict::Allowed);
}

#[test]
fn boundary_rates_are_exact() {
    let mut s = SafetyEnvelope::new(SafetyConfig::default());
    // the band edges themselves pass; one step outside is denied
    assert!(s.allow_patch(0, 4000, 900));
    assert!(s.allow_patch(0, 12000, 900));
    assert!(!s.allow_patch(0, 3999, 900));
    assert!(!s.allow_patch(0, 12001, 900));
}

#[test]
fn delta_bound_is_exact_at_the_boundary() {
    let mut s = SafetyEnvelope::new(SafetyConfig::default());
    s.record_patch(0, 6000);
    // after exactly one minute the allowed delta is exactly 2 bpm
    assert!(s.allow_patch(60_000_000, 8000, 900));
    assert!(!s.allow_patch(60_000_000, 8001, 900));
    // scaled linearly: after 30 s only 1 bpm is allowed
    assert!(s.allow_patch(30_000_000, 7000, 900));
    assert!(!s.allow_patch(30_000_000, 7001, 900));
}

#[test]
fn backwards_clock_is_rejected() {
    let mut s = SafetyEnvelope::new(SafetyConfig::default());
    s.record_patch(1_000_000, 6000);
    // a timestamp before the last accepted patch counts as no time elapsed
    assert_eq!(s.judge_patch(500_000, 6000, 900), PatchVerdict::TooSoon);
}
