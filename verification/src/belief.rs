//! Belief estimation: a discrete probability distribution over a small set
//! of physiological modes, updated from noisy, possibly-absent sensor
//! evidence with time-scaled smoothing and hysteresis against mode flapping.

use vstd::prelude::*;

verus! {

/// Posterior probability a mode must reach before a mode switch is
/// committed (per-mille). Evidence short of this leaves the committed mode
/// where it was: this is the hysteresis margin against noise-driven flapping.
pub const ENTER_THRESHOLD_MILLI: u32 = 600;

/// Upper bound on how much probability mass one update may move out of any
/// single mode (per-mille), however large `dt` is: smoothing, never a jump.
pub const ALPHA_MAX_MILLI: u32 = 250;

/// `dt` values beyond this (milliseconds) contribute no further smoothing
/// weight; it keeps the blend arithmetic exact and bounded.
pub const DT_CAP_MS: u32 = 10_000;

/// The discrete physiological/arousal modes the estimator distinguishes.
#[derive(Debug, Clone, Copy, PartialEq, Eq, Structural)]
pub enum BeliefBasis {
    Calm,
    Focus,
    Stressed,
    Sleepy,
    Aroused,
}

/// The index of a mode inside the probability vector.
pub open spec fn mode_index_spec(m: BeliefBasis) -> int {
    match m {
        BeliefBasis::Calm => 0,
        BeliefBasis::Focus => 1,
        BeliefBasis::Stressed => 2,
        BeliefBasis::Sleepy => 3,
        BeliefBasis::Aroused => 4,
    }
}

pub fn mode_index(m: BeliefBasis) -> (r: usize)
    ensures
        r == mode_index_spec(m),
        r < 5,
{
    match m {
        BeliefBasis::Calm => 0,
        BeliefBasis::Focus => 1,
        BeliefBasis::Stressed => 2,
        BeliefBasis::Sleepy => 3,
        BeliefBasis::Aroused => 4,
    }
}

/// One tick's raw observation. Absent options model sensor dropout.
/// Rates are milli-per-minute, RMSSD is microseconds, quality and motion
/// are per-mille scores.
#[derive(Debug, Clone, Copy)]
pub struct SensorFeatures {
    pub hr_mbpm: Option<u32>,
    pub rmssd_us: Option<u32>,
    pub rr_mbpm: Option<u32>,
    pub quality_milli: u32,
    pub motion_milli: u32,
}

impl SensorFeatures {
    pub open spec fn wf(&self) -> bool {
        self.quality_milli <= 1000
    }
}

/// Smoothed physiological estimate from the external estimator; consumed
/// read-only here.
#[derive(Debug, Clone, Copy)]
pub struct PhysioState {
    pub hr_mbpm: Option<u32>,
    pub rr_mbpm: Option<u32>,
    pub rmssd_us: Option<u32>,
    pub confidence_milli: u32,
}

impl PhysioState {
    pub open spec fn wf(&self) -> bool {
        self.confidence_milli <= 1000
    }
}

/// Environment snapshot: immutable input with no lifecycle of its own.
#[derive(Debug, Clone, Copy)]
pub struct Context {
    pub local_hour: u8,
    pub is_charging: bool,
    pub recent_sessions: u32,
}

/// The probability the estimator currently assigns to each mode (per-mille),
/// an overall confidence (per-mille), and the committed arg-max mode.
#[derive(Debug, Clone, Copy)]
pub struct BeliefState {
    pub p_milli: [u32; 5],
    pub conf_milli: u32,
    pub mode: BeliefBasis,
}

/// Total probability mass of a belief vector.
pub open spec fn psum(p: [u32; 5]) -> int {
    p@[0] + p@[1] + p@[2] + p@[3] + p@[4]
}

/// A well-formed belief: the distribution carries exactly one unit of mass
/// (per-mille, so the sum is exactly 1000) and the confidence is a valid
/// per-mille score.
pub open spec fn belief_wf(s: BeliefState) -> bool {
    &&& psum(s.p_milli) == 1000
    &&& s.conf_milli <= 1000
}

impl BeliefState {
    /// The uniform, uncommitted starting belief.
    pub fn initial() -> (r: BeliefState)
        ensures
            belief_wf(r),
            r.p_milli@ =~= seq![200u32, 200u32, 200u32, 200u32, 200u32],
            r.conf_milli == 0,
            r.mode == BeliefBasis::Calm,
    {
        BeliefState { p_milli: [200, 200, 200, 200, 200], conf_milli: 0, mode: BeliefBasis::Calm }
    }
}

/// Prefer the raw feature when the sensor delivered one this tick, else the
/// smoothed physiological estimate.
pub open spec fn observed_rr_spec(x: SensorFeatures, phys: PhysioState) -> Option<u32> {
    if x.rr_mbpm is Some {
        x.rr_mbpm
    } else {
        phys.rr_mbpm
    }
}

pub open spec fn observed_hr_spec(x: SensorFeatures, phys: PhysioState) -> Option<u32> {
    if x.hr_mbpm is Some {
        x.hr_mbpm
    } else {
        phys.hr_mbpm
    }
}

pub open spec fn is_night_spec(ctx: Context) -> bool {
    ctx.local_hour >= 21 || ctx.local_hour < 6
}

/// Whether any optional observation arrived at all this tick.
pub open spec fn evidence_present_spec(x: SensorFeatures, phys: PhysioState) -> bool {
    ||| x.hr_mbpm is Some
    ||| x.rmssd_us is Some
    ||| x.rr_mbpm is Some
    ||| phys.hr_mbpm is Some
    ||| phys.rr_mbpm is Some
    ||| phys.rmssd_us is Some
}

/// The observation-implied mode: a fixed ladder over the respiration rate
/// (milli-breaths-per-minute) when one is available, falling back to heart
/// rate, with elevated nighttime respiration read as drowsiness rather than
/// stress. `None` when neither rate was observed.
pub open spec fn indicated_mode_spec(x: SensorFeatures, phys: PhysioState, ctx: Context) -> Option<
    BeliefBasis> {
    match observed_rr_spec(x, phys) {
        Some(rr) => Some(
            if rr < 5500 {
                BeliefBasis::Calm
            } else if rr < 9000 {
                BeliefBasis::Focus
            } else if rr < 15000 {
                if is_night_spec(ctx) {
                    BeliefBasis::Sleepy
                } else {
                    BeliefBasis::Stressed
                }
            } else {
                BeliefBasis::Aroused
            },
        ),
        None => match observed_hr_spec(x, phys) {
            Some(hr) => Some(
                if hr < 55_000 {
                    BeliefBasis::Sleepy
                } else if hr < 70_000 {
                    BeliefBasis::Calm
                } else if hr < 95_000 {
                    BeliefBasis::Focus
                } else {
                    BeliefBasis::Aroused
                },
            ),
            None => None,
        },
    }
}

pub open spec fn dt_capped_spec(dt_ms: u32) -> int {
    if dt_ms > DT_CAP_MS {
        DT_CAP_MS as int
    } else {
        dt_ms as int
    }
}

/// The per-mode smoothing step (per-mille of probability mass): scaled by
/// `dt` and by signal quality, and saturated so a single update is never an
/// instantaneous jump.
pub open spec fn alpha_spec(dt_ms: u32, quality_milli: u32) -> int {
    let q: int = if quality_milli > 1000 {
        1000
    } else {
        quality_milli as int
    };
    let a: int = dt_capped_spec(dt_ms) * q / 1000;
    if a > ALPHA_MAX_MILLI {
        ALPHA_MAX_MILLI as int
    } else {
        a
    }
}

/// Mass moved out of mode `i` toward the indicated mode `k` in one update.
pub open spec fn mass_out_spec(p: [u32; 5], alpha: int, k: int, i: int) -> int {
    if i == k {
        0
    } else if p@[i] < alpha {
        p@[i] as int
    } else {
        alpha
    }
}

/// Total mass the indicated mode `k` gains in one update.
pub open spec fn mass_gain_spec(p: [u32; 5], alpha: int, k: int) -> int {
    mass_out_spec(p, alpha, k, 0) + mass_out_spec(p, alpha, k, 1) + mass_out_spec(p, alpha, k, 2)
        + mass_out_spec(p, alpha, k, 3) + mass_out_spec(p, alpha, k, 4)
}

/// The updated probability of mode `i`: unchanged when no mode is indicated,
/// otherwise the bounded transfer of mass toward the indicated mode. The
/// transfer moves mass, so the total is preserved exactly.
pub open spec fn new_p_spec(prev: BeliefState, x: SensorFeatures, phys: PhysioState, ctx: Context,
    dt_ms: u32, i: int) -> int {
    match indicated_mode_spec(x, phys, ctx) {
        None => prev.p_milli@[i] as int,
        Some(b) => {
            let k = mode_index_spec(b);
            let alpha = alpha_spec(dt_ms, x.quality_milli);
            prev.p_milli@[i] - mass_out_spec(prev.p_milli, alpha, k, i) + if i == k {
                mass_gain_spec(prev.p_milli, alpha, k)
            } else {
                0
            }
        },
    }
}

/// Confidence decay applied when the tick carried no evidence at all:
/// degraded, never reset.
pub open spec fn conf_decay_spec(dt_ms: u32) -> int {
    let d = dt_capped_spec(dt_ms) / 100;
    if d > 50 {
        50
    } else {
        d
    }
}

/// What the evidence itself is worth: signal quality blended with the
/// external estimator's own confidence.
pub open spec fn conf_target_spec(x: SensorFeatures, phys: PhysioState) -> int {
    (x.quality_milli + phys.confidence_milli) / 2
}

pub open spec fn step_toward_spec(c: int, t: int, bound: int) -> int {
    if t >= c {
        c + (if t - c < bound {
            t - c
        } else {
            bound
        })
    } else {
        c - (if c - t < bound {
            c - t
        } else {
            bound
        })
    }
}

/// The updated confidence: stepped toward the evidence's worth, with the
/// step bounded like the probability transfer; with no evidence at all it
/// only decays.
pub open spec fn new_conf_spec(prev: BeliefState, x: SensorFeatures, phys: PhysioState, dt_ms: u32) -> int {
    if evidence_present_spec(x, phys) {
        step_toward_spec(prev.conf_milli as int, conf_target_spec(x, phys), alpha_spec(dt_ms,
            x.quality_milli))
    } else {
        let d = conf_decay_spec(dt_ms);
        if prev.conf_milli < d {
            0
        } else {
            prev.conf_milli - d
        }
    }
}

/// The committed mode: switches to the indicated mode only once that mode's
/// updated posterior reaches the enter threshold; otherwise it stays.
pub open spec fn new_mode_spec(prev: BeliefState, x: SensorFeatures, phys: PhysioState,
    ctx: Context, dt_ms: u32) -> BeliefBasis {
    match indicated_mode_spec(x, phys, ctx) {
        Some(b) => {
            if new_p_spec(prev, x, phys, ctx, dt_ms, mode_index_spec(b)) >= ENTER_THRESHOLD_MILLI {
                b
            } else {
                prev.mode
            }
        },
        None => prev.mode,
    }
}

/// Per-update diagnostics, for observability only: never an input to any
/// later state transition.
#[derive(Debug, Clone, Copy)]
pub struct BeliefDiag {
    pub indicated: Option<BeliefBasis>,
    pub alpha_milli: u32,
    pub evidence_present: bool,
}

fn indicated_mode(x: &SensorFeatures, phys: &PhysioState, ctx: &Context) -> (r: Option<
    BeliefBasis>)
    ensures
        r == indicated_mode_spec(*x, *phys, *ctx),
{
    let rr: Option<u32> = if x.rr_mbpm.is_some() {
        x.rr_mbpm
    } else {
        phys.rr_mbpm
    };
    let hr: Option<u32> = if x.hr_mbpm.is_some() {
        x.hr_mbpm
    } else {
        phys.hr_mbpm
    };
    let night: bool = ctx.local_hour >= 21 || ctx.local_hour < 6;
    match rr {
        Some(v) => Some(
            if v < 5500 {
                BeliefBasis::Calm
            } else if v < 9000 {
                BeliefBasis::Focus
            } else if v < 15000 {
                if night {
                    BeliefBasis::Sleepy
                } else {
                    BeliefBasis::Stressed
                }
            } else {
                BeliefBasis::Aroused
            },
        ),
        None => match hr {
            Some(v) => Some(
                if v < 55_000 {
                    BeliefBasis::Sleepy
                } else if v < 70_000 {
                    BeliefBasis::Calm
                } else if v < 95_000 {
                    BeliefBasis::Focus
                } else {
                    BeliefBasis::Aroused
                },
            ),
            None => None,
        },
    }
}

fn smoothing_alpha(dt_ms: u32, quality_milli: u32) -> (r: u32)
    ensures
        r == alpha_spec(dt_ms, quality_milli),
        r <= ALPHA_MAX_MILLI,
{
    let dt_c: u32 = if dt_ms > DT_CAP_MS {
        DT_CAP_MS
    } else {
        dt_ms
    };
    let q: u32 = if quality_milli > 1000 {
        1000
    } else {
        quality_milli
    };
    proof {
        assert(dt_c * q <= 10_000u32 * 1000) by (nonlinear_arith)
            requires
                dt_c <= 10_000u32,
                q <= 1000u32,
        ;
    }
    let a0: u32 = dt_c * q / 1000;
    if a0 > ALPHA_MAX_MILLI {
        ALPHA_MAX_MILLI
    } else {
        a0
    }
}

/// Move at most `alpha` per-mille of mass out of each mode into mode `k`.
/// The move is a transfer, so the total mass is preserved exactly.
#[verifier::rlimit(100)]
fn transfer_mass(p: &[u32; 5], alpha: u32, k: usize) -> (r: [u32; 5])
    requires
        psum(*p) == 1000,
        alpha <= ALPHA_MAX_MILLI,
        k < 5,
    ensures
        r@[0] == p@[0] - mass_out_spec(*p, alpha as int, k as int, 0) + (if k == 0 {
            mass_gain_spec(*p, alpha as int, k as int)
        } else {
            0
        }),
        r@[1] == p@[1] - mass_out_spec(*p, alpha as int, k as int, 1) + (if k == 1 {
            mass_gain_spec(*p, alpha as int, k as int)
        } else {
            0
        }),
        r@[2] == p@[2] - mass_out_spec(*p, alpha as int, k as int, 2) + (if k == 2 {
            mass_gain_spec(*p, alpha as int, k as int)
        } else {
            0
        }),
        r@[3] == p@[3] - mass_out_spec(*p, alpha as int, k as int, 3) + (if k == 3 {
            mass_gain_spec(*p, alpha as int, k as int)
        } else {
            0
        }),
        r@[4] == p@[4] - mass_out_spec(*p, alpha as int, k as int, 4) + (if k == 4 {
            mass_gain_spec(*p, alpha as int, k as int)
        } else {
            0
        }),
        psum(r) == 1000,
{
    let p0 = p[0];
    let p1 = p[1];
    let p2 = p[2];
    let p3 = p[3];
    let p4 = p[4];
    let m0: u32 = if p0 < alpha {
        p0
    } else {
        alpha
    };
    let m1: u32 = if p1 < alpha {
        p1
    } else {
        alpha
    };
    let m2: u32 = if p2 < alpha {
        p2
    } else {
        alpha
    };
    let m3: u32 = if p3 < alpha {
        p3
    } else {
        alpha
    };
    let m4: u32 = if p4 < alpha {
        p4
    } else {
        alpha
    };
    if k == 0 {
        let gain: u32 = m1 + m2 + m3 + m4;
        [p0 + gain, p1 - m1, p2 - m2, p3 - m3, p4 - m4]
    } else if k == 1 {
        let gain: u32 = m0 + m2 + m3 + m4;
        [p0 - m0, p1 + gain, p2 - m2, p3 - m3, p4 - m4]
    } else if k == 2 {
        let gain: u32 = m0 + m1 + m3 + m4;
        [p0 - m0, p1 - m1, p2 + gain, p3 - m3, p4 - m4]
    } else if k == 3 {
        let gain: u32 = m0 + m1 + m2 + m4;
        [p0 - m0, p1 - m1, p2 - m2, p3 + gain, p4 - m4]
    } else {
        let gain: u32 = m0 + m1 + m2 + m3;
        [p0 - m0, p1 - m1, p2 - m2, p3 - m3, p4 + gain]
    }
}

/// The belief estimator. It is stateless by construction: `update` is a
/// pure function of its explicit inputs, which is what keeps the whole loop
/// replay-deterministic.
#[derive(Debug, Clone)]
pub struct BeliefEngine {}

impl BeliefEngine {
    pub fn new() -> (r: Self) {
        Self {  }
    }

    /// One estimator step: blend the previous distribution toward the
    /// observation-implied mode by a bounded, `dt`-scaled amount, step the
    /// confidence toward the evidence's worth, and commit a mode switch only
    /// past the enter threshold. Absent features count as reduced evidence;
    /// a tick with no evidence at all leaves the distribution alone and
    /// degrades confidence, never resets it.
    #[verifier::rlimit(60)]
    pub fn update(&self, prev: &BeliefState, x: &SensorFeatures, phys: &PhysioState, ctx: &Context,
        dt_ms: u32) -> (r: (BeliefState, BeliefDiag))
        requires
            belief_wf(*prev),
            x.wf(),
            phys.wf(),
        ensures
            belief_wf(r.0),
            r.0.p_milli@[0] == new_p_spec(*prev, *x, *phys, *ctx, dt_ms, 0),
            r.0.p_milli@[1] == new_p_spec(*prev, *x, *phys, *ctx, dt_ms, 1),
            r.0.p_milli@[2] == new_p_spec(*prev, *x, *phys, *ctx, dt_ms, 2),
            r.0.p_milli@[3] == new_p_spec(*prev, *x, *phys, *ctx, dt_ms, 3),
            r.0.p_milli@[4] == new_p_spec(*prev, *x, *phys, *ctx, dt_ms, 4),
            r.0.conf_milli == new_conf_spec(*prev, *x, *phys, dt_ms),
            r.0.mode == new_mode_spec(*prev, *x, *phys, *ctx, dt_ms),
            r.1.indicated == indicated_mode_spec(*x, *phys, *ctx),
            r.1.alpha_milli == alpha_spec(dt_ms, x.quality_milli),
            r.1.evidence_present == evidence_present_spec(*x, *phys),
    {
        let indicated: Option<BeliefBasis> = indicated_mode(x, phys, ctx);
        let evidence: bool = x.hr_mbpm.is_some() || x.rmssd_us.is_some() || x.rr_mbpm.is_some()
            || phys.hr_mbpm.is_some() || phys.rr_mbpm.is_some() || phys.rmssd_us.is_some();
        let alpha: u32 = smoothing_alpha(dt_ms, x.quality_milli);
        let conf: u32 = if evidence {
            let target: u32 = (x.quality_milli + phys.confidence_milli) / 2;
            let c = prev.conf_milli;
            if target >= c {
                let step = if target - c < alpha {
                    target - c
                } else {
                    alpha
                };
                c + step
            } else {
                let step = if c - target < alpha {
                    c - target
                } else {
                    alpha
                };
                c - step
            }
        } else {
            let dt_c: u32 = if dt_ms > DT_CAP_MS {
                DT_CAP_MS
            } else {
                dt_ms
            };
            let d0: u32 = dt_c / 100;
            let d: u32 = if d0 > 50 {
                50
            } else {
                d0
            };
            if prev.conf_milli < d {
                0
            } else {
                prev.conf_milli - d
            }
        };
        match indicated {
            None => {
                let s = BeliefState { p_milli: prev.p_milli, conf_milli: conf, mode: prev.mode };
                let diag = BeliefDiag { indicated, alpha_milli: alpha, evidence_present: evidence };
                (s, diag)
            },
            Some(b) => {
                let k = mode_index(b);
                let newp: [u32; 5] = transfer_mass(&prev.p_milli, alpha, k);
                let pk: u32 = newp[k];
                let mode: BeliefBasis = if pk >= ENTER_THRESHOLD_MILLI {
                    b
                } else {
                    prev.mode
                };
                let s = BeliefState { p_milli: newp, conf_milli: conf, mode };
                let diag = BeliefDiag { indicated, alpha_milli: alpha, evidence_present: evidence };
                (s, diag)
            },
        }
    }
}

/// Hysteresis: evidence that only marginally favors a new mode cannot flip
/// the committed mode in a single low-`dt` update. Whenever the indicated
/// mode's prior probability plus everything one update could possibly move
/// into it (at most `4 * alpha`) still falls short of the enter threshold,
/// the committed mode stays exactly where it was.
pub proof fn lemma_hysteresis_no_flip(prev: BeliefState, x: SensorFeatures, phys: PhysioState,
    ctx: Context, dt_ms: u32, b: BeliefBasis)
    requires
        belief_wf(prev),
        indicated_mode_spec(x, phys, ctx) == Some(b),
        b != prev.mode,
        prev.p_milli@[mode_index_spec(b)] + 4 * alpha_spec(dt_ms, x.quality_milli)
            < ENTER_THRESHOLD_MILLI,
    ensures
        new_mode_spec(prev, x, phys, ctx, dt_ms) == prev.mode,
{
    let k = mode_index_spec(b);
    let alpha = alpha_spec(dt_ms, x.quality_milli);
    assert(mass_gain_spec(prev.p_milli, alpha, k) <= 4 * alpha);
}

/// A tick with no evidence at all never resets the estimator: the
/// distribution is returned unchanged, the committed mode stays, and the
/// confidence is the same or lower.
pub proof fn lemma_absent_evidence_degrades(prev: BeliefState, x: SensorFeatures,
    phys: PhysioState, ctx: Context, dt_ms: u32)
    requires
        belief_wf(prev),
        !evidence_present_spec(x, phys),
    ensures
        forall|i: int| 0 <= i < 5 ==> new_p_spec(prev, x, phys, ctx, dt_ms, i)
            == prev.p_milli@[i],
        new_mode_spec(prev, x, phys, ctx, dt_ms) == prev.mode,
        new_conf_spec(prev, x, phys, dt_ms) <= prev.conf_milli,
{
}

} // verus!
