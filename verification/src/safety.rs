//! The safety envelope: the hard gate in front of any accepted pacing-rate
//! change. It enforces absolute rate bounds, a minimum confidence, a minimum
//! time between accepted changes, and a maximum rate of change per minute.

use vstd::prelude::*;

verus! {

/// Safety policy, in fixed point: rates in milli-breaths-per-minute,
/// confidences per-mille, times in microseconds.
#[derive(Debug, Clone)]
pub struct SafetyConfig {
    pub rr_min_mbpm: u32,
    pub rr_max_mbpm: u32,
    pub max_rr_delta_per_min_mbpm: u32,
    pub max_hold_us: u64,
    pub min_confidence_milli: u32,
    pub min_update_interval_us: u64,
}

impl SafetyConfig {
    /// A usable policy needs a non-empty safe range.
    pub open spec fn wf(&self) -> bool {
        self.rr_min_mbpm <= self.rr_max_mbpm
    }
}

impl Default for SafetyConfig {
    /// Defaults: 4-12 breaths/min, at most 2 bpm of change per minute, a
    /// 5-minute maximum hold, confidence floor 0.3, and at least 250 ms
    /// between accepted changes.
    fn default() -> (r: Self)
        ensures
            r.rr_min_mbpm == 4000,
            r.rr_max_mbpm == 12000,
            r.max_rr_delta_per_min_mbpm == 2000,
            r.max_hold_us == 300_000_000,
            r.min_confidence_milli == 300,
            r.min_update_interval_us == 250_000,
            r.wf(),
    {
        Self {
            rr_min_mbpm: 4000,
            rr_max_mbpm: 12000,
            max_rr_delta_per_min_mbpm: 2000,
            max_hold_us: 300_000_000,
            min_confidence_milli: 300,
            min_update_interval_us: 250_000,
        }
    }
}

/// The reason a proposed patch was admitted or denied. Every denial is
/// attributable: the checks are applied in this order and each is
/// independently sufficient to deny.
#[derive(Debug, Clone, Copy, PartialEq, Eq, Structural)]
pub enum PatchVerdict {
    Allowed,
    LowConfidence,
    OutOfRange,
    TooSoon,
    DeltaTooLarge,
}

/// Time elapsed since the last accepted patch; a clock that runs backwards
/// is treated as no time having passed, which is the rejecting (safe) side.
pub open spec fn elapsed_spec(last_ts_us: i64, ts_us: i64) -> int {
    if ts_us >= last_ts_us {
        ts_us - last_ts_us
    } else {
        0
    }
}

/// Absolute difference of two rates.
pub open spec fn rate_delta_spec(a: u32, b: u32) -> int {
    if a >= b {
        a - b
    } else {
        b - a
    }
}

/// Local rate limiter in front of externally applied pacing-rate changes.
/// It remembers only the single last accepted patch; the audit trail lives
/// in the event-sourced aggregate, not here.
#[derive(Debug)]
pub struct SafetyEnvelope {
    pub cfg: SafetyConfig,
    pub last_patch_ts_us: Option<i64>,
    pub last_rate_mbpm: Option<u32>,
}

impl SafetyEnvelope {
    /// The verdict on a proposed patch, checked in order: confidence floor,
    /// absolute range, minimum update interval, then the per-minute delta
    /// bound scaled linearly by the elapsed time. The delta bound is the
    /// exact rational comparison
    /// `delta <= max_delta_per_min * elapsed_us / 60_000_000`,
    /// stated multiplied out so no rounding is involved.
    pub open spec fn spec_judge_patch(&self, ts_us: i64, proposed_mbpm: u32, confidence_milli: u32) -> PatchVerdict {
        if confidence_milli < self.cfg.min_confidence_milli {
            PatchVerdict::LowConfidence
        } else if proposed_mbpm < self.cfg.rr_min_mbpm || proposed_mbpm > self.cfg.rr_max_mbpm {
            PatchVerdict::OutOfRange
        } else {
            match self.last_patch_ts_us {
                Some(last_ts) => {
                    let elapsed = elapsed_spec(last_ts, ts_us);
                    if elapsed < self.cfg.min_update_interval_us {
                        PatchVerdict::TooSoon
                    } else {
                        match self.last_rate_mbpm {
                            Some(last_rate) => {
                                if rate_delta_spec(proposed_mbpm, last_rate) * 60_000_000
                                    > self.cfg.max_rr_delta_per_min_mbpm * elapsed {
                                    PatchVerdict::DeltaTooLarge
                                } else {
                                    PatchVerdict::Allowed
                                }
                            },
                            None => PatchVerdict::Allowed,
                        }
                    }
                },
                None => PatchVerdict::Allowed,
            }
        }
    }

    pub open spec fn spec_allow_patch(&self, ts_us: i64, proposed_mbpm: u32, confidence_milli: u32) -> bool {
        self.spec_judge_patch(ts_us, proposed_mbpm, confidence_milli) == PatchVerdict::Allowed
    }

    /// A fresh envelope under `cfg`, with no accepted patch yet.
    pub fn new(cfg: SafetyConfig) -> (r: Self)
        ensures
            r.cfg == cfg,
            r.last_patch_ts_us is None,
            r.last_rate_mbpm is None,
    {
        Self { cfg, last_patch_ts_us: None, last_rate_mbpm: None }
    }

    /// Judge a proposed patch and say why it was admitted or denied.
    /// The envelope itself is left unchanged: acceptance is recorded
    /// separately, by `record_patch`, once the patch is actually applied.
    pub fn judge_patch(&mut self, ts_us: i64, proposed_mbpm: u32, confidence_milli: u32) -> (r:
        PatchVerdict)
        ensures
            r == old(self).spec_judge_patch(ts_us, proposed_mbpm, confidence_milli),
            *final(self) == *old(self),
    {
        if confidence_milli < self.cfg.min_confidence_milli {
            return PatchVerdict::LowConfidence;
        }
        if proposed_mbpm < self.cfg.rr_min_mbpm || proposed_mbpm > self.cfg.rr_max_mbpm {
            return PatchVerdict::OutOfRange;
        }
        if let Some(last_ts) = self.last_patch_ts_us {
            let elapsed: u64 = if ts_us >= last_ts {
                ((ts_us as i128) - (last_ts as i128)) as u64
            } else {
                0
            };
            if elapsed < self.cfg.min_update_interval_us {
                return PatchVerdict::TooSoon;
            }
            if let Some(last_rate) = self.last_rate_mbpm {
                let delta: u32 = if proposed_mbpm >= last_rate {
                    proposed_mbpm - last_rate
                } else {
                    last_rate - proposed_mbpm
                };
                let d128: u128 = delta as u128;
                let m128: u128 = self.cfg.max_rr_delta_per_min_mbpm as u128;
                let e128: u128 = elapsed as u128;
                proof {
                    assert(m128 * e128 <= 0xffff_ffffu128 * 0xffff_ffff_ffff_ffffu128)
                        by (nonlinear_arith)
                        requires
                            m128 <= 0xffff_ffffu128,
                            e128 <= 0xffff_ffff_ffff_ffffu128,
                    ;
                }
                if d128 * 60_000_000 > m128 * e128 {
                    return PatchVerdict::DeltaTooLarge;
                }
            }
        }
        PatchVerdict::Allowed
    }

    /// Boolean form of `judge_patch`: true exactly when every condition holds.
    pub fn allow_patch(&mut self, ts_us: i64, proposed_mbpm: u32, confidence_milli: u32) -> (r:
        bool)
        ensures
            r == old(self).spec_allow_patch(ts_us, proposed_mbpm, confidence_milli),
            *final(self) == *old(self),
    {
        let v = self.judge_patch(ts_us, proposed_mbpm, confidence_milli);
        matches!(v, PatchVerdict::Allowed)
    }

    /// Record an accepted patch, making it the reference point for the next
    /// interval and delta check.
    pub fn record_patch(&mut self, ts_us: i64, new_rate_mbpm: u32)
        ensures
            final(self).cfg == old(self).cfg,
            final(self).last_patch_ts_us == Some(ts_us),
            final(self).last_rate_mbpm == Some(new_rate_mbpm),
    {
        self.last_patch_ts_us = Some(ts_us);
        self.last_rate_mbpm = Some(new_rate_mbpm);
    }
}

/// Clamping to the safe range is exact at the boundaries: the boundary rates
/// themselves are admitted. With sufficient confidence and no prior patch,
/// a proposal of exactly `rr_min` or exactly `rr_max` is allowed.
pub proof fn lemma_boundary_rates_allowed(s: SafetyEnvelope, ts_us: i64, confidence_milli: u32)
    requires
        s.cfg.wf(),
        confidence_milli >= s.cfg.min_confidence_milli,
        s.last_patch_ts_us is None,
    ensures
        s.spec_allow_patch(ts_us, s.cfg.rr_min_mbpm, confidence_milli),
        s.spec_allow_patch(ts_us, s.cfg.rr_max_mbpm, confidence_milli),
{
}

/// A confidence below the floor is denied whatever the proposed rate, the
/// time, or the envelope's history: the confidence check comes first and is
/// by itself sufficient to deny.
pub proof fn lemma_low_confidence_denied(s: SafetyEnvelope, ts_us: i64, proposed_mbpm: u32,
    confidence_milli: u32)
    requires
        confidence_milli < s.cfg.min_confidence_milli,
    ensures
        s.spec_judge_patch(ts_us, proposed_mbpm, confidence_milli) == PatchVerdict::LowConfidence,
        !s.spec_allow_patch(ts_us, proposed_mbpm, confidence_milli),
{
}

} // verus!
