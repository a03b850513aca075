use zenb_core::agent_container::{AgentContainer, AgentStrategy, ResourceQuota};
use zenb_core::belief::{Context, PhysioState, SensorFeatures};

fn plain_ctx() -> Context {
    Context { local_hour: 12, is_charging: false, recent_sessions: 0 }
}

#[test]
fn container_carries_version_and_default_quota() {
    let c = AgentContainer::new(AgentStrategy::new(300), "build-2024-10-a".to_string());
    assert_eq!(c.version, "build-2024-10-a");
    assert_eq!(c.resource_limits, ResourceQuota { max_cpu_ms_per_tick: 5, max_memory_mb: 10 });
    assert_eq!(c.strategy.evaluations, 0);
}

#[test]
fn evaluate_blends_quality_and_estimator_confidence() {
    let mut c = AgentContainer::new(AgentStrategy::new(300), "v1".to_string());
    let x = SensorFeatures {
        hr_mbpm: Some(70_000),
        rmssd_us: None,
        rr_mbpm: None,
        quality_milli: 900,
        motion_milli: 0,
    };
    let phys = PhysioState {
        hr_mbpm: Some(70_000),
        rr_mbpm: None,
        rmssd_us: None,
        confidence_milli: 700,
    };
    assert_eq!(c.evaluate(&x, &phys, &plain_ctx()), 800);
    assert_eq!(c.strategy.evaluations, 1);
}

#[test]
fn evaluate_never_reports_below_baseline() {
    let mut c = AgentContainer::new(AgentStrategy::new(300), "v1".to_string());
    let x = SensorFeatures {
        hr_mbpm: Some(70_000),
        rmssd_us: None,
        rr_mbpm: None,
        quality_milli: 100,
        motion_milli: 0,
    };
    let phys = PhysioState {
        hr_mbpm: None,
        rr_mbpm: None,
        rmssd_us: None,
        confidence_milli: 100,
    };
    assert_eq!(c.evaluate(&x, &phys, &plain_ctx()), 300);
}

#[test]
fn evaluate_falls_back_to_baseline_without_evidence() {
    let mut c = AgentContainer::new(AgentStrategy::new(250), "v2".to_string());
    let x = SensorFeatures {
        hr_mbpm: None,
        rmssd_us: None,
        rr_mbpm: None,
        quality_milli: 1000,
        motion_milli: 0,
    };
    let phys = PhysioState { hr_mbpm: None, rr_mbpm: None, rmssd_us: None, confidence_milli: 0 };
    assert_eq!(c.evaluate(&x, &phys, &plain_ctx()), 250);
    assert_eq!(c.evaluate(&x, &phys, &plain_ctx()), 250);
    assert_eq!(c.strategy.evaluations, 2);
}
