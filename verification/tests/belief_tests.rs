use zenb_core::belief::{
    BeliefBasis, BeliefEngine, BeliefState, Context, PhysioState, SensorFeatures,
};

fn night_ctx() -> Context {
    Context { local_hour: 23, is_charging: false, recent_sessions: 0 }
}

#[test]
fn hysteresis_stability() {
    let be = BeliefEngine::new();
    let prev = BeliefState { p_milli: [200; 5], conf_milli: 900, mode: BeliefBasis::Calm };
    // craft features that strongly indicate Sleepy
    let x = SensorFeatures {
        hr_mbpm: Some(60_000),
        rmssd_us: Some(20_000),
        rr_mbpm: Some(14_000),
        quality_milli: 900,
        motion_milli: 0,
    };
    let phys = PhysioState {
        hr_mbpm: Some(60_000),
        rr_mbpm: Some(14_000),
        rmssd_us: Some(20_000),
        confidence_milli: 900,
    };
    let ctx = night_ctx();
    let (s1, _dbg) = be.update(&prev, &x, &phys, &ctx, 100);
    // With low dt smoothing p should move but not instantly switch unless above enter_th
    assert!(s1.conf_milli <= 1000);
    // ensure probabilities sum exactly to one unit
    let sum: u32 = s1.p_milli.iter().sum();
    assert_eq!(sum, 1000);
}

#[test]
fn low_dt_update_does_not_flip_mode() {
    let be = BeliefEngine::new();
    let prev = BeliefState { p_milli: [200; 5], conf_milli: 900, mode: BeliefBasis::Calm };
    let x = SensorFeatures {
        hr_mbpm: None,
        rmssd_us: None,
        rr_mbpm: Some(14_000),
        quality_milli: 900,
        motion_milli: 0,
    };
    let phys = PhysioState { hr_mbpm: None, rr_mbpm: None, rmssd_us: None, confidence_milli: 900 };
    let (s1, dbg) = be.update(&prev, &x, &phys, &night_ctx(), 100);
    // nighttime rr of 14 bpm indicates Sleepy; alpha is 100 * 900 / 1000 = 90,
    // so each other mode yields 90 per-mille and Sleepy reaches only 560 < 600
    assert_eq!(dbg.indicated, Some(BeliefBasis::Sleepy));
    assert_eq!(dbg.alpha_milli, 90);
    assert_eq!(s1.p_milli, [110, 110, 110, 560, 110]);
    assert_eq!(s1.mode, BeliefBasis::Calm);
}

#[test]
fn strong_evidence_commits_the_mode() {
    let be = BeliefEngine::new();
    let prev = BeliefState { p_milli: [200; 5], conf_milli: 500, mode: BeliefBasis::Calm };
    let x = SensorFeatures {
        hr_mbpm: None,
        rmssd_us: None,
        rr_mbpm: Some(14_000),
        quality_milli: 1000,
        motion_milli: 0,
    };
    let phys = PhysioState { hr_mbpm: None, rr_mbpm: None, rmssd_us: None, confidence_milli: 900 };
    // a long dt saturates alpha at 250: every other mode empties into Sleepy
    let (s1, _dbg) = be.update(&prev, &x, &phys, &night_ctx(), 10_000);
    assert_eq!(s1.p_milli, [0, 0, 0, 1000, 0]);
    assert_eq!(s1.mode, BeliefBasis::Sleepy);
}

#[test]
fn absent_evidence_degrades_but_never_resets() {
    let be = BeliefEngine::new();
    let prev = BeliefState { p_milli: [100, 300, 200, 250, 150], conf_milli: 700,
        mode: BeliefBasis::Focus };
    let x = SensorFeatures {
        hr_mbpm: None,
        rmssd_us: None,
        rr_mbpm: None,
        quality_milli: 0,
        motion_milli: 0,
    };
    let phys = PhysioState { hr_mbpm: None, rr_mbpm: None, rmssd_us: None, confidence_milli: 0 };
    let ctx = Context { local_hour: 12, is_charging: false, recent_sessions: 0 };
    let (s1, dbg) = be.update(&prev, &x, &phys, &ctx, 1000);
    assert!(!dbg.evidence_present);
    // distribution untouched, mode kept, confidence degraded by the dt-scaled decay
    assert_eq!(s1.p_milli, [100, 300, 200, 250, 150]);
    assert_eq!(s1.mode, BeliefBasis::Focus);
    assert_eq!(s1.conf_milli, 690);
}

#[test]
fn initial_belief_is_uniform() {
    let s = BeliefState::initial();
    assert_eq!(s.p_milli, [200; 5]);
    assert_eq!(s.conf_milli, 0);
    assert_eq!(s.mode, BeliefBasis::Calm);
}

#[test]
fn daytime_fast_breathing_reads_as_stress() {
    let be = BeliefEngine::new();
    let prev = BeliefState { p_milli: [200; 5], conf_milli: 500, mode: BeliefBasis::Calm };
    let x = SensorFeatures {
        hr_mbpm: None,
        rmssd_us: None,
        rr_mbpm: Some(14_000),
        quality_milli: 1000,
        motion_milli: 0,
    };
    let phys = PhysioState { hr_mbpm: None, rr_mbpm: None, rmssd_us: None, confidence_milli: 900 };
    let day = Context { local_hour: 15, is_charging: false, recent_sessions: 0 };
    let (s1, dbg) = be.update(&prev, &x, &phys, &day, 10_000);
    assert_eq!(dbg.indicated, Some(BeliefBasis::Stressed));
    assert_eq!(s1.mode, BeliefBasis::Stressed);
}
