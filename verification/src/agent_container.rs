//! The versioned, resource-quota-described container around the pluggable
//! decision strategy.

use vstd::prelude::*;
use crate::belief::{Context, PhysioState, SensorFeatures, evidence_present_spec};

verus! {

/// Declared per-invocation resource policy for a strategy. The quota is a
/// policy value: enforcing it (time-boxing a call, treating overrun as a
/// fault for the circuit breaker) is an obligation on whoever drives the
/// container, since the strategy itself runs to completion on the caller's
/// thread.
#[derive(Debug, Clone, Copy, PartialEq, Eq, Structural)]
pub struct ResourceQuota {
    pub max_cpu_ms_per_tick: u64,
    pub max_memory_mb: u64,
}

impl Default for ResourceQuota {
    fn default() -> (r: Self)
        ensures
            r.max_cpu_ms_per_tick == 5,
            r.max_memory_mb == 10,
    {
        Self { max_cpu_ms_per_tick: 5, max_memory_mb: 10 }
    }
}

/// The decision strategy the container hosts: a confidence scorer with a
/// small piece of mutable state (how often it has been consulted), accessed
/// only through the container's exclusive borrow.
#[derive(Debug, Clone)]
pub struct AgentStrategy {
    /// The confidence floor the strategy reports when evidence is poor or
    /// absent (per-mille).
    pub baseline_milli: u32,
    /// How many evaluations this strategy instance has served.
    pub evaluations: u64,
}

impl AgentStrategy {
    pub open spec fn wf(&self) -> bool {
        self.baseline_milli <= 1000
    }

    pub fn new(baseline_milli: u32) -> (r: Self)
        requires
            baseline_milli <= 1000,
        ensures
            r.baseline_milli == baseline_milli,
            r.evaluations == 0,
            r.wf(),
    {
        Self { baseline_milli, evaluations: 0 }
    }
}

/// What the strategy answers: the evidence's worth (signal quality blended
/// with the estimator's confidence) when any evidence arrived, never below
/// the strategy's baseline; the bare baseline when the tick was empty.
pub open spec fn strategy_conf_spec(s: AgentStrategy, x: SensorFeatures, phys: PhysioState) -> int {
    if evidence_present_spec(x, phys) {
        let t = (x.quality_milli + phys.confidence_milli) / 2;
        if t < s.baseline_milli {
            s.baseline_milli as int
        } else {
            t
        }
    } else {
        s.baseline_milli as int
    }
}

/// Versioned, resource-guarded container for a decision strategy. The
/// strategy is owned directly: Rust's exclusive borrow of the container is
/// the mutual-exclusion scope, so no caller can observe a torn update of
/// the strategy's state. The version tag is immutable for the container's
/// lifetime, so every decision can be attributed to the strategy build that
/// produced it.
#[derive(Debug, Clone)]
pub struct AgentContainer {
    pub strategy: AgentStrategy,
    pub version: String,
    pub resource_limits: ResourceQuota,
}

impl AgentContainer {
    /// Deploy a strategy under a version tag, with the default quota.
    /// Swapping strategies means deploying a new container, never mutating
    /// a live container's version in place.
    pub fn new(agent: AgentStrategy, version: String) -> (r: Self)
        ensures
            r.strategy == agent,
            r.version@ == version@,
            r.resource_limits.max_cpu_ms_per_tick == 5,
            r.resource_limits.max_memory_mb == 10,
    {
        Self { strategy: agent, version, resource_limits: ResourceQuota::default() }
    }

    /// Consult the strategy under exclusive access. The answer is the
    /// strategy's confidence for this tick's evidence; the only state the
    /// call may touch is the strategy's own, and the version tag and quota
    /// are left as they were on every exit path.
    pub fn evaluate(&mut self, x: &SensorFeatures, phys: &PhysioState, ctx: &Context) -> (r: u32)
        requires
            old(self).strategy.wf(),
            x.wf(),
            phys.wf(),
        ensures
            r == strategy_conf_spec(old(self).strategy, *x, *phys),
            r <= 1000,
            final(self).strategy.baseline_milli == old(self).strategy.baseline_milli,
            final(self).strategy.evaluations == if old(self).strategy.evaluations < u64::MAX {
                old(self).strategy.evaluations + 1
            } else {
                u64::MAX as int
            },
            final(self).version@ == old(self).version@,
            final(self).resource_limits == old(self).resource_limits,
    {
        let evidence: bool = x.hr_mbpm.is_some() || x.rmssd_us.is_some() || x.rr_mbpm.is_some()
            || phys.hr_mbpm.is_some() || phys.rr_mbpm.is_some() || phys.rmssd_us.is_some();
        let conf: u32 = if evidence {
            let t: u32 = (x.quality_milli + phys.confidence_milli) / 2;
            if t < self.strategy.baseline_milli {
                self.strategy.baseline_milli
            } else {
                t
            }
        } else {
            self.strategy.baseline_milli
        };
        if self.strategy.evaluations < u64::MAX {
            self.strategy.evaluations = self.strategy.evaluations + 1;
        }
        conf
    }
}

} // verus!
