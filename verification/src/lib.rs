//! Adaptive breathing-pace core: probabilistic mode estimation with
//! hysteresis, a debounced rate controller, a hard safety gate, a circuit
//! breaker for fault containment, a versioned strategy container, and a
//! deterministic, hash-verifiable event-sourced projection.
//!
//! All physiological quantities are carried as fixed-point integers so that
//! every computation is exact and replay-deterministic:
//! rates are milli-breaths-per-minute (`6.0` bpm is `6000`), probabilities
//! and confidences are per-mille (`0.3` is `300`), and timestamps are
//! microseconds.

pub mod agent_container;
pub mod belief;
pub mod controller;
pub mod domain;
pub mod pipeline;
pub mod safety;
pub mod validation;
