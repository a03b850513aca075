//! One pass of the perception-decision-safety line: belief update, debounced
//! rate decision, hard safety gating, and the next polling delay. The tick
//! loop that drives this, sleeps, and persists events lives outside the
//! core.

use vstd::prelude::*;
use crate::belief::{
    belief_wf, new_conf_spec, BeliefDiag, BeliefEngine, BeliefState, Context, PhysioState,
    SensorFeatures,
};
use crate::controller::{
    base_rate_spec, changed_spec, clamp_rate_spec, compute_poll_interval, poll_interval_spec,
    AdaptiveController, Estimate, POLL_MAX_MS, POLL_MIN_MS,
};
use crate::domain::ControlDecision;
use crate::safety::SafetyEnvelope;

verus! {

/// What one tick produced: the next belief, the accepted decision if the
/// safety envelope admitted one, and when to wake next.
pub struct TickOutcome {
    pub belief: BeliefState,
    pub diag: BeliefDiag,
    pub decision: Option<ControlDecision>,
    pub poll_interval_ms: u64,
}

/// Run one tick. The controller's candidate is handed to the safety
/// envelope even though the controller already debounced it: a decision is
/// produced only when the controller reports a change AND the envelope
/// admits that exact rate at the updated belief's confidence, and only then
/// is the patch recorded. Suppressed or denied ticks leave the envelope
/// untouched and yield no decision.
pub fn run_tick(
    engine: &BeliefEngine,
    controller: &mut AdaptiveController,
    envelope: &mut SafetyEnvelope,
    prev: &BeliefState,
    x: &SensorFeatures,
    phys: &PhysioState,
    ctx: &Context,
    est: &Estimate,
    now_us: i64,
    dt_ms: u32,
    free_energy_ema_milli: i64,
) -> (r: TickOutcome)
    requires
        belief_wf(*prev),
        x.wf(),
        phys.wf(),
    ensures
        belief_wf(r.belief),
        r.belief.conf_milli == new_conf_spec(*prev, *x, *phys, dt_ms),
        // a decision comes out exactly when the debounce reported a change
        // and the envelope admitted the clamped candidate at the new confidence
        ({
            let target = clamp_rate_spec(base_rate_spec(*est, *old(controller)));
            &&& (r.decision is Some <==> changed_spec(*old(controller), target, now_us) && old(
                envelope).spec_allow_patch(now_us, target, r.belief.conf_milli))
            &&& (r.decision matches Some(d) ==> {
                &&& d.target_rate_mbpm == target
                &&& d.confidence_milli == r.belief.conf_milli
                &&& d.recommended_poll_interval_ms == r.poll_interval_ms
                &&& final(envelope).cfg == old(envelope).cfg
                &&& final(envelope).last_patch_ts_us == Some(now_us)
                &&& final(envelope).last_rate_mbpm == Some(d.target_rate_mbpm)
            })
            &&& (r.decision is None ==> *final(envelope) == *old(envelope))
        }),
        r.poll_interval_ms == poll_interval_spec(free_energy_ema_milli, r.belief.conf_milli,
            r.decision is Some, *ctx),
        POLL_MIN_MS <= r.poll_interval_ms <= POLL_MAX_MS,
{
    let (belief, diag) = engine.update(prev, x, phys, ctx, dt_ms);
    let (target, changed) = controller.decide(est, now_us);
    let accepted: bool = if changed {
        envelope.allow_patch(now_us, target, belief.conf_milli)
    } else {
        false
    };
    let poll_interval_ms = compute_poll_interval(free_energy_ema_milli, belief.conf_milli,
        accepted, ctx);
    let decision: Option<ControlDecision> = if accepted {
        envelope.record_patch(now_us, target);
        Some(ControlDecision {
            target_rate_mbpm: target,
            confidence_milli: belief.conf_milli,
            recommended_poll_interval_ms: poll_interval_ms,
        })
    } else {
        None
    };
    TickOutcome { belief, diag, decision, poll_interval_ms }
}

} // verus!
