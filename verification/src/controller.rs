//! The adaptive controller: turns a rate estimate into a debounced target
//! pacing rate, and the poll-interval scheduler that maps uncertainty into
//! the next polling delay.

use vstd::prelude::*;
use crate::belief::Context;

verus! {

/// Default pacing rate when there is neither an estimate nor a prior
/// decision (milli-breaths-per-minute).
pub const DEFAULT_RATE_MBPM: u32 = 6000;

/// Absolute clamp applied to every candidate rate before debouncing.
pub const RATE_CLAMP_MIN_MBPM: u32 = 4000;

pub const RATE_CLAMP_MAX_MBPM: u32 = 12000;

/// Externally produced scalar signal; only the respiration-rate field is
/// consumed here, and it may be absent.
#[derive(Debug, Clone, Copy)]
pub struct Estimate {
    pub rr_mbpm: Option<u32>,
}

/// Debounce policy: a change is reported only when it is both large enough
/// and late enough.
#[derive(Debug, Clone)]
pub struct ControllerConfig {
    pub decision_epsilon_mbpm: u32,
    pub min_decision_interval_us: i64,
}

impl Default for ControllerConfig {
    /// Defaults: ignore changes of 0.1 bpm or less, and at most one accepted
    /// decision per 250 ms.
    fn default() -> (r: Self)
        ensures
            r.decision_epsilon_mbpm == 100,
            r.min_decision_interval_us == 250_000,
    {
        Self { decision_epsilon_mbpm: 100, min_decision_interval_us: 250_000 }
    }
}

/// Session-local controller state: the debounce policy and the single last
/// accepted decision.
#[derive(Debug, Clone)]
pub struct AdaptiveController {
    pub cfg: ControllerConfig,
    pub last_decision_ts_us: Option<i64>,
    pub last_decision_mbpm: Option<u32>,
}

/// Clamp a candidate rate to the absolute safe band, exact at the
/// boundaries.
pub open spec fn clamp_rate_spec(base: u32) -> u32 {
    if base < RATE_CLAMP_MIN_MBPM {
        RATE_CLAMP_MIN_MBPM
    } else if base > RATE_CLAMP_MAX_MBPM {
        RATE_CLAMP_MAX_MBPM
    } else {
        base
    }
}

/// Base-rate resolution order: the estimate if present, else the last
/// accepted decision, else the fixed default.
pub open spec fn base_rate_spec(est: Estimate, c: AdaptiveController) -> u32 {
    match est.rr_mbpm {
        Some(r) => r,
        None => match c.last_decision_mbpm {
            Some(prev) => prev,
            None => DEFAULT_RATE_MBPM,
        },
    }
}

/// The two-sided debounce: a change is reported only if the magnitude
/// difference from the last accepted decision exceeds epsilon AND the time
/// since it exceeds the minimum interval; the very first decision always
/// reports a change. Either test alone would be insufficient: amplitude
/// alone allows rapid small-step drift, time alone allows large jumps once
/// the window opens.
pub open spec fn changed_spec(c: AdaptiveController, target: u32, ts_us: i64) -> bool {
    (match c.last_decision_mbpm {
        Some(prev) => crate::safety::rate_delta_spec(prev, target) > c.cfg.decision_epsilon_mbpm,
        None => true,
    }) && (match c.last_decision_ts_us {
        Some(last_ts) => ts_us - last_ts >= c.cfg.min_decision_interval_us,
        None => true,
    })
}

impl AdaptiveController {
    pub fn new(cfg: ControllerConfig) -> (r: Self)
        ensures
            r.cfg == cfg,
            r.last_decision_ts_us is None,
            r.last_decision_mbpm is None,
    {
        Self { cfg, last_decision_ts_us: None, last_decision_mbpm: None }
    }

    /// Decide a target rate from the estimate and the remembered last
    /// decision. Returns the clamped target and whether it counts as a
    /// change; only a reported change updates the remembered state, so
    /// suppressed calls are side-effect-free.
    pub fn decide(&mut self, est: &Estimate, ts_us: i64) -> (r: (u32, bool))
        ensures
            r.0 == clamp_rate_spec(base_rate_spec(*est, *old(self))),
            r.1 == changed_spec(*old(self), r.0, ts_us),
            RATE_CLAMP_MIN_MBPM <= r.0 <= RATE_CLAMP_MAX_MBPM,
            r.1 ==> final(self).cfg == old(self).cfg
                && final(self).last_decision_mbpm == Some(r.0)
                && final(self).last_decision_ts_us == Some(ts_us),
            !r.1 ==> *final(self) == *old(self),
    {
        let base: u32 = match est.rr_mbpm {
            Some(r) => r,
            None => match self.last_decision_mbpm {
                Some(prev) => prev,
                None => DEFAULT_RATE_MBPM,
            },
        };
        let target: u32 = if base < RATE_CLAMP_MIN_MBPM {
            RATE_CLAMP_MIN_MBPM
        } else if base > RATE_CLAMP_MAX_MBPM {
            RATE_CLAMP_MAX_MBPM
        } else {
            base
        };
        let big_enough: bool = match self.last_decision_mbpm {
            Some(prev) => {
                let delta: u32 = if prev >= target {
                    prev - target
                } else {
                    target - prev
                };
                delta > self.cfg.decision_epsilon_mbpm
            },
            None => true,
        };
        let late_enough: bool = match self.last_decision_ts_us {
            Some(last_ts) => (ts_us as i128) - (last_ts as i128) >= (
            self.cfg.min_decision_interval_us as i128),
            None => true,
        };
        let changed = big_enough && late_enough;
        if changed {
            self.last_decision_mbpm = Some(target);
            self.last_decision_ts_us = Some(ts_us);
        }
        (target, changed)
    }
}

/// Shortest and longest polling delays the scheduler may return
/// (milliseconds): the absolute band that no input or context modifier can
/// push the result out of.
pub const POLL_MIN_MS: u64 = 200;

pub const POLL_MAX_MS: u64 = 30_000;

/// Free-energy readings beyond this (per-mille) saturate the urgency term.
pub const URGENCY_FE_CAP_MILLI: i64 = 1_000_000;

pub open spec fn clamp_interval_spec(ms: int) -> int {
    if ms < POLL_MIN_MS {
        POLL_MIN_MS as int
    } else if ms > POLL_MAX_MS {
        POLL_MAX_MS as int
    } else {
        ms
    }
}

/// Urgency (per-mille): saturated non-negative free energy, discounted by
/// belief confidence.
pub open spec fn urgency_spec(free_energy_ema_milli: i64, belief_confidence_milli: u32) -> int {
    let fe: int = if free_energy_ema_milli < 0 {
        0
    } else if free_energy_ema_milli > URGENCY_FE_CAP_MILLI {
        URGENCY_FE_CAP_MILLI as int
    } else {
        free_energy_ema_milli as int
    };
    let conf: int = if belief_confidence_milli > 1000 {
        1000
    } else {
        belief_confidence_milli as int
    };
    fe * (1000 - conf) / 1000
}

/// The scheduler's full result: a fixed short interval right after an
/// action; otherwise the base interval shrunk by urgency, clamped to the
/// absolute band, discounted while charging, and clamped again so context
/// can never leave the band.
pub open spec fn poll_interval_spec(free_energy_ema_milli: i64, belief_confidence_milli: u32,
    action_taken: bool, ctx: Context) -> int {
    if action_taken {
        POLL_MIN_MS as int
    } else {
        let u = urgency_spec(free_energy_ema_milli, belief_confidence_milli);
        let target = 5_000_000int / (1000 + 10 * u);
        let banded = clamp_interval_spec(target);
        let discounted = if ctx.is_charging {
            banded * 4 / 5
        } else {
            banded
        };
        clamp_interval_spec(discounted)
    }
}

/// Map current uncertainty into the next polling delay (milliseconds):
/// high free energy with low confidence contracts the interval, calm
/// certainty dilates it, and the result always lies in the absolute band.
pub fn compute_poll_interval(free_energy_ema_milli: i64, belief_confidence_milli: u32,
    action_taken: bool, ctx: &Context) -> (r: u64)
    ensures
        r == poll_interval_spec(free_energy_ema_milli, belief_confidence_milli, action_taken, *ctx),
        POLL_MIN_MS <= r <= POLL_MAX_MS,
{
    if action_taken {
        return POLL_MIN_MS;
    }
    let fe: u64 = if free_energy_ema_milli < 0 {
        0
    } else if free_energy_ema_milli > URGENCY_FE_CAP_MILLI {
        URGENCY_FE_CAP_MILLI as u64
    } else {
        free_energy_ema_milli as u64
    };
    let conf: u64 = if belief_confidence_milli > 1000 {
        1000
    } else {
        belief_confidence_milli as u64
    };
    proof {
        assert(fe * (1000 - conf) <= 1_000_000u64 * 1000) by (nonlinear_arith)
            requires
                fe <= 1_000_000u64,
                conf <= 1000u64,
        ;
    }
    let urgency: u64 = fe * (1000 - conf) / 1000;
    let target: u64 = 5_000_000 / (1000 + 10 * urgency);
    let banded: u64 = if target < POLL_MIN_MS {
        POLL_MIN_MS
    } else if target > POLL_MAX_MS {
        POLL_MAX_MS
    } else {
        target
    };
    let discounted: u64 = if ctx.is_charging {
        banded * 4 / 5
    } else {
        banded
    };
    if discounted < POLL_MIN_MS {
        POLL_MIN_MS
    } else if discounted > POLL_MAX_MS {
        POLL_MAX_MS
    } else {
        discounted
    }
}

} // verus!
