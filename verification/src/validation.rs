//! Input validation for raw sensor samples and the circuit breaker that
//! contains repeated downstream failures.

use vstd::prelude::*;

verus! {

/// Typed faults raised by the input-validation layer, kept distinct so a
/// caller can tell a malformed sample from an overload condition.
#[derive(Debug, Clone)]
pub enum SensorError {
    /// A sample was out of the representable domain (a non-finite value).
    InvalidData(String),
    /// Samples arrived faster than the ingestion budget allows.
    BurstDetected,
}

/// A raw sample is carried as the bit pattern of an IEEE 754 single-precision
/// value; it is finite exactly when its exponent field is not all ones.
pub open spec fn sample_is_finite(bits: u32) -> bool {
    (bits >> 23) & 0xff != 0xff
}

/// Validate a tick's worth of raw sensor samples (as IEEE 754 bit patterns)
/// before ingestion: every sample must be finite.
pub fn validate_sensor(features: &Vec<u32>) -> (r: Result<(), SensorError>)
    ensures
        r is Ok <==> (forall|i: int| 0 <= i < features@.len() ==> sample_is_finite(features@[i])),
        r is Err ==> (r matches Err(SensorError::InvalidData(_))),
{
    let n = features.len();
    let mut i: usize = 0;
    while i < n
        invariant
            n == features@.len(),
            0 <= i <= n,
            forall|j: int| 0 <= j < i ==> sample_is_finite(features@[j]),
        decreases n - i,
    {
        let b = features[i];
        if (b >> 23) & 0xff == 0xff {
            return Err(SensorError::InvalidData("non-finite sample".to_string()));
        }
        i += 1;
    }
    Ok(())
}

/// Validate one tick's ingestion in full: a tick carrying more samples than
/// the burst budget is an overload fault, distinct from a malformed sample;
/// within budget, every sample must be finite.
pub fn validate_ingestion(features: &Vec<u32>, max_samples_per_tick: usize) -> (r: Result<
    (),
    SensorError,
>)
    ensures
        features@.len() > max_samples_per_tick ==> (r matches Err(SensorError::BurstDetected)),
        features@.len() <= max_samples_per_tick ==> (r is Ok <==> (forall|i: int|
            0 <= i < features@.len() ==> sample_is_finite(features@[i]))),
        features@.len() <= max_samples_per_tick && r is Err ==> (r matches Err(
            SensorError::InvalidData(_),
        )),
{
    if features.len() > max_samples_per_tick {
        return Err(SensorError::BurstDetected);
    }
    validate_sensor(features)
}

/// Process-local guard for an unreliable downstream call: after `threshold`
/// recorded failures, calls are denied until `cooldown_us` has elapsed since
/// the most recent failure.
#[derive(Debug, Clone)]
pub struct CircuitBreaker {
    pub failure_count: u32,
    pub last_failure_us: Option<i64>,
    pub threshold: u32,
    pub cooldown_us: i64,
}

impl Default for CircuitBreaker {
    /// A fresh breaker: no recorded failures, trips after 5 failures, and
    /// cools down for one minute.
    fn default() -> (r: Self)
        ensures
            r.failure_count == 0,
            r.last_failure_us is None,
            r.threshold == 5,
            r.cooldown_us == 60_000_000,
    {
        Self {
            failure_count: 0,
            last_failure_us: None,
            threshold: 5,
            cooldown_us: 60_000_000,
        }
    }
}

impl CircuitBreaker {
    /// Whether a call is allowed at `now_us`: denied exactly when the failure
    /// count has reached the threshold and the last failure is still within
    /// the cooldown window.
    pub open spec fn spec_allow(&self, now_us: i64) -> bool {
        match self.last_failure_us {
            Some(last) => !(self.failure_count >= self.threshold && now_us - last
                < self.cooldown_us),
            None => true,
        }
    }

    /// Record one downstream failure at `now_us`. The count saturates rather
    /// than wrapping, so a long-running guard can never relax by overflow.
    pub fn trip(&mut self, now_us: i64)
        ensures
            final(self).failure_count == if old(self).failure_count < u32::MAX {
                old(self).failure_count + 1
            } else {
                u32::MAX as int
            },
            final(self).last_failure_us == Some(now_us),
            final(self).threshold == old(self).threshold,
            final(self).cooldown_us == old(self).cooldown_us,
    {
        if self.failure_count < u32::MAX {
            self.failure_count = self.failure_count + 1;
        }
        self.last_failure_us = Some(now_us);
    }

    /// Non-mutating query: may the protected call proceed at `now_us`?
    pub fn allow(&self, now_us: i64) -> (r: bool)
        ensures
            r == self.spec_allow(now_us),
    {
        if let Some(last) = self.last_failure_us {
            if self.failure_count >= self.threshold && (now_us as i128) - (last as i128) < (
            self.cooldown_us as i128) {
                return false;
            }
        }
        true
    }

    /// Clear all accumulated failure state; afterwards every call is allowed.
    pub fn reset(&mut self)
        ensures
            final(self).failure_count == 0,
            final(self).last_failure_us is None,
            final(self).threshold == old(self).threshold,
            final(self).cooldown_us == old(self).cooldown_us,
    {
        self.failure_count = 0;
        self.last_failure_us = None;
    }
}

/// Once the breaker has tripped (the failure count has reached the threshold,
/// with the last failure at `t`), a call at `now_us` is allowed exactly when
/// the cooldown has elapsed since `t`; within the window it is denied.
pub proof fn lemma_breaker_cooldown(b: CircuitBreaker, t: i64, now_us: i64)
    requires
        b.last_failure_us == Some(t),
        b.failure_count >= b.threshold,
    ensures
        b.spec_allow(now_us) <==> now_us - t >= b.cooldown_us,
{
}

/// A breaker whose failure state has been cleared (as `reset` leaves it)
/// allows every call, at any time.
pub proof fn lemma_reset_restores_allow(b: CircuitBreaker, now_us: i64)
    requires
        b.last_failure_us is None,
    ensures
        b.spec_allow(now_us),
{
}

} // verus!
