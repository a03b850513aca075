//! The event-sourced aggregate: an append-only log of domain facts
//! (`Envelope` around `Event`) and the deterministic projection
//! (`BreathState`) built by replaying them, with a content hash that proves
//! two replays saw the same history.
//!
//! Every envelope is reduced to a ghost model (`EnvelopeModel`) that omits
//! the diagnostic `meta` bag; the projection and its hash are functions of
//! models alone, so meta can never affect either.

use vstd::prelude::*;

verus! {

/// Opaque per-session identifier. Creating a globally unique value is the
/// session orchestrator's job; this core only compares identifiers.
#[derive(Debug, Clone, Copy, PartialEq, Eq, Structural)]
pub struct SessionId {
    pub id: u64,
}

impl SessionId {
    pub fn new(id: u64) -> (r: Self)
        ensures
            r.id == id,
    {
        Self { id }
    }
}

/// The accepted, safety-gated output unit: returned to the caller and
/// recorded as an event.
#[derive(Debug, Clone, Copy, PartialEq, Eq, Structural)]
pub struct ControlDecision {
    pub target_rate_mbpm: u32,
    pub confidence_milli: u32,
    pub recommended_poll_interval_ms: u64,
}

/// The closed union of domain facts. Immutable once appended; the single
/// fold in `BreathState::apply` matches it exhaustively, so a new fact is a
/// compile-time-checked update there, never a silent no-op.
#[derive(Debug, Clone)]
pub enum Event {
    SessionStarted { mode: String },
    ControlDecisionMade { decision: ControlDecision },
    BeliefUpdatedV2 {
        p_milli: [u32; 5],
        conf_milli: u32,
        mode: u8,
        free_energy_ema_milli: i64,
        lr_milli: u32,
        resonance_milli: u32,
    },
    CycleCompleted { cycles: u32 },
}

/// The ghost value of an event: strings as character sequences, nothing
/// else abstracted away.
pub ghost enum EventModel {
    SessionStarted { mode: Seq<char> },
    ControlDecisionMade { decision: ControlDecision },
    BeliefUpdatedV2 {
        p_milli: Seq<u32>,
        conf_milli: u32,
        mode: u8,
        free_energy_ema_milli: i64,
        lr_milli: u32,
        resonance_milli: u32,
    },
    CycleCompleted { cycles: u32 },
}

pub open spec fn event_model(e: Event) -> EventModel {
    match e {
        Event::SessionStarted { mode } => EventModel::SessionStarted { mode: mode@ },
        Event::ControlDecisionMade { decision } => EventModel::ControlDecisionMade { decision },
        Event::BeliefUpdatedV2 { p_milli, conf_milli, mode, free_energy_ema_milli, lr_milli,
            resonance_milli } => EventModel::BeliefUpdatedV2 {
            p_milli: p_milli@,
            conf_milli,
            mode,
            free_energy_ema_milli,
            lr_milli,
            resonance_milli,
        },
        Event::CycleCompleted { cycles } => EventModel::CycleCompleted { cycles },
    }
}

/// A logged fact with its ordering data. `seq` is per-session, strictly
/// increasing from 1; `ts_us` never decreases within a session. `meta` is an
/// open key-value bag for diagnostic annotation only: it is absent from the
/// envelope's model, so it cannot affect the projection or its hash.
#[derive(Debug, Clone)]
pub struct Envelope {
    pub session_id: SessionId,
    pub seq: u64,
    pub ts_us: i64,
    pub event: Event,
    pub meta: Vec<(String, String)>,
}

/// Everything about an envelope that the projection is allowed to see.
pub ghost struct EnvelopeModel {
    pub session_id: u64,
    pub seq: u64,
    pub ts_us: i64,
    pub event: EventModel,
}

pub open spec fn envelope_model(e: Envelope) -> EnvelopeModel {
    EnvelopeModel {
        session_id: e.session_id.id,
        seq: e.seq,
        ts_us: e.ts_us,
        event: event_model(e.event),
    }
}

/// Protocol faults: a corrupted event order must abort replay of the
/// session, never be silently patched, since patching history would break
/// the determinism guarantee.
#[derive(Debug, Clone, Copy, PartialEq, Eq, Structural)]
pub enum ReplayError {
    /// The envelope belongs to a different session than the aggregate.
    WrongSession,
    /// The envelope repeats the sequence number already applied.
    SeqDuplicate,
    /// The envelope's sequence number precedes one already applied.
    SeqRegression,
    /// The envelope skips ahead, leaving a gap in the sequence.
    SeqGap,
    /// The envelope's timestamp runs backwards within the session.
    TimestampRegression,
}

/// The aggregate projection: a deterministic fold of envelopes from a fixed
/// default, queried through its content hash.
#[derive(Debug, Clone)]
pub struct BreathState {
    pub session_id: Option<SessionId>,
    pub last_seq: u64,
    pub last_ts_us: i64,
    pub session_mode: Option<String>,
    pub last_decision: Option<ControlDecision>,
    pub belief_p_milli: [u32; 5],
    pub belief_conf_milli: u32,
    pub belief_mode: u8,
    pub free_energy_ema_milli: i64,
    pub lr_milli: u32,
    pub resonance_milli: u32,
    pub cycles_total: u64,
}

/// The visible fields of the projection, as ghost values. The hash is a
/// function of this model and of nothing else.
pub ghost struct StateModel {
    pub session_id: Option<u64>,
    pub last_seq: u64,
    pub last_ts_us: i64,
    pub session_mode: Option<Seq<char>>,
    pub last_decision: Option<ControlDecision>,
    pub belief_p_milli: Seq<u32>,
    pub belief_conf_milli: u32,
    pub belief_mode: u8,
    pub free_energy_ema_milli: i64,
    pub lr_milli: u32,
    pub resonance_milli: u32,
    pub cycles_total: u64,
}

impl BreathState {
    pub open spec fn model(&self) -> StateModel {
        StateModel {
            session_id: match self.session_id {
                Some(s) => Some(s.id),
                None => None,
            },
            last_seq: self.last_seq,
            last_ts_us: self.last_ts_us,
            session_mode: match self.session_mode {
                Some(m) => Some(m@),
                None => None,
            },
            last_decision: self.last_decision,
            belief_p_milli: self.belief_p_milli@,
            belief_conf_milli: self.belief_conf_milli,
            belief_mode: self.belief_mode,
            free_energy_ema_milli: self.free_energy_ema_milli,
            lr_milli: self.lr_milli,
            resonance_milli: self.resonance_milli,
            cycles_total: self.cycles_total,
        }
    }
}

/// The model every aggregate starts from.
pub open spec fn init_model() -> StateModel {
    StateModel {
        session_id: None,
        last_seq: 0,
        last_ts_us: 0,
        session_mode: None,
        last_decision: None,
        belief_p_milli: seq![200u32, 200u32, 200u32, 200u32, 200u32],
        belief_conf_milli: 0,
        belief_mode: 0,
        free_energy_ema_milli: 0,
        lr_milli: 0,
        resonance_milli: 0,
        cycles_total: 0,
    }
}

impl Default for BreathState {
    /// The fixed default the fold starts from: no session, sequence 0, the
    /// uniform belief and zeroed telemetry.
    fn default() -> (r: Self)
        ensures
            r.model() == init_model(),
    {
        let r = BreathState {
            session_id: None,
            last_seq: 0,
            last_ts_us: 0,
            session_mode: None,
            last_decision: None,
            belief_p_milli: [200, 200, 200, 200, 200],
            belief_conf_milli: 0,
            belief_mode: 0,
            free_energy_ema_milli: 0,
            lr_milli: 0,
            resonance_milli: 0,
            cycles_total: 0,
        };
        proof {
            assert(r.belief_p_milli@ =~= seq![200u32, 200u32, 200u32, 200u32, 200u32]);
            assert(r.model() =~= init_model());
        }
        r
    }
}

/// The protocol check applied before an envelope is folded in: the fault it
/// would raise, or `None` when the envelope is acceptable. The checks are
/// ordered; each is independently sufficient to abort.
pub open spec fn apply_fault(m: StateModel, e: EnvelopeModel) -> Option<ReplayError> {
    if m.session_id is Some && m.session_id != Some(e.session_id) {
        Some(ReplayError::WrongSession)
    } else if e.seq == m.last_seq {
        Some(ReplayError::SeqDuplicate)
    } else if e.seq < m.last_seq {
        Some(ReplayError::SeqRegression)
    } else if e.seq > m.last_seq + 1 {
        Some(ReplayError::SeqGap)
    } else if m.last_seq > 0 && e.ts_us < m.last_ts_us {
        Some(ReplayError::TimestampRegression)
    } else {
        None
    }
}

/// Fold one event's facts into the model.
pub open spec fn apply_event_model(m: StateModel, e: EventModel) -> StateModel {
    match e {
        EventModel::SessionStarted { mode } => StateModel { session_mode: Some(mode), ..m },
        EventModel::ControlDecisionMade { decision } => StateModel {
            last_decision: Some(decision),
            ..m
        },
        EventModel::BeliefUpdatedV2 { p_milli, conf_milli, mode, free_energy_ema_milli, lr_milli,
            resonance_milli } => StateModel {
            belief_p_milli: p_milli,
            belief_conf_milli: conf_milli,
            belief_mode: mode,
            free_energy_ema_milli,
            lr_milli,
            resonance_milli,
            ..m
        },
        EventModel::CycleCompleted { cycles } => StateModel {
            cycles_total: if m.cycles_total + cycles <= u64::MAX {
                (m.cycles_total + cycles) as u64
            } else {
                u64::MAX
            },
            ..m
        },
    }
}

/// The next model after an acceptable envelope: ordering data first, then
/// the event's facts.
pub open spec fn apply_model(m: StateModel, e: EnvelopeModel) -> StateModel {
    let ordered = StateModel {
        session_id: Some(e.session_id),
        last_seq: e.seq,
        last_ts_us: e.ts_us,
        ..m
    };
    apply_event_model(ordered, e.event)
}

impl BreathState {
    /// Fold one envelope into the projection. A pure, total transition over
    /// the current state and the envelope's model alone: no clock, no
    /// randomness, nothing outside its arguments. A protocol fault leaves
    /// the state exactly as it was and surfaces the fault.
    pub fn apply(&mut self, env: &Envelope) -> (r: Result<(), ReplayError>)
        ensures
            r is Ok <==> apply_fault(old(self).model(), envelope_model(*env)) is None,
            r is Ok ==> final(self).model() == apply_model(old(self).model(), envelope_model(
                *env)),
            r matches Err(e) ==> Some(e) == apply_fault(old(self).model(), envelope_model(*env))
                && final(self).model() == old(self).model(),
    {
        if let Some(sid) = self.session_id {
            if sid.id != env.session_id.id {
                return Err(ReplayError::WrongSession);
            }
        }
        if env.seq == self.last_seq {
            return Err(ReplayError::SeqDuplicate);
        }
        if env.seq < self.last_seq {
            return Err(ReplayError::SeqRegression);
        }
        if env.seq > self.last_seq && env.seq - 1 > self.last_seq {
            return Err(ReplayError::SeqGap);
        }
        if self.last_seq > 0 && env.ts_us < self.last_ts_us {
            return Err(ReplayError::TimestampRegression);
        }
        self.session_id = Some(env.session_id);
        self.last_seq = env.seq;
        self.last_ts_us = env.ts_us;
        match &env.event {
            Event::SessionStarted { mode } => {
                self.session_mode = Some(mode.clone());
            },
            Event::ControlDecisionMade { decision } => {
                self.last_decision = Some(*decision);
            },
            Event::BeliefUpdatedV2 { p_milli, conf_milli, mode, free_energy_ema_milli, lr_milli,
                resonance_milli } => {
                self.belief_p_milli = *p_milli;
                self.belief_conf_milli = *conf_milli;
                self.belief_mode = *mode;
                self.free_energy_ema_milli = *free_energy_ema_milli;
                self.lr_milli = *lr_milli;
                self.resonance_milli = *resonance_milli;
            },
            Event::CycleCompleted { cycles } => {
                let c = *cycles as u64;
                self.cycles_total = if self.cycles_total <= u64::MAX - c {
                    self.cycles_total + c
                } else {
                    u64::MAX
                };
            },
        }
        proof {
            assert(final(self).model() =~= apply_model(old(self).model(), envelope_model(*env)));
        }
        Ok(())
    }
}

pub const FNV_OFFSET: u64 = 0xcbf2_9ce4_8422_2325;

pub const FNV_PRIME: u64 = 0x0000_0100_0000_01b3;

/// One FNV-1a style mixing step over 64-bit words.
pub open spec fn mix64(h: u64, v: u64) -> u64 {
    (((h ^ v) * FNV_PRIME) % 0x1_0000_0000_0000_0000) as u64
}

/// The two's-complement bit pattern of a signed timestamp, so signed fields
/// mix like any other word.
pub open spec fn i64_bits(x: i64) -> u64 {
    if x >= 0 {
        x as u64
    } else {
        (x + 0x1_0000_0000_0000_0000) as u64
    }
}

pub open spec fn mix_opt_u64(h: u64, v: Option<u64>) -> u64 {
    match v {
        None => mix64(h, 0),
        Some(x) => mix64(mix64(h, 1), x),
    }
}

pub open spec fn hash_chars(h: u64, s: Seq<char>) -> u64
    decreases s.len(),
{
    if s.len() == 0 {
        h
    } else {
        hash_chars(mix64(h, s.first() as u64), s.drop_first())
    }
}

pub open spec fn mix_opt_chars(h: u64, s: Option<Seq<char>>) -> u64 {
    match s {
        None => mix64(h, 0),
        Some(cs) => hash_chars(mix64(mix64(h, 1), cs.len() as u64), cs),
    }
}

pub open spec fn mix_decision(h: u64, d: Option<ControlDecision>) -> u64 {
    match d {
        None => mix64(h, 0),
        Some(dec) => mix64(mix64(mix64(mix64(h, 1), dec.target_rate_mbpm as u64),
            dec.confidence_milli as u64), dec.recommended_poll_interval_ms),
    }
}

/// The content hash of a projection: a fold of mixing steps over every
/// visible field of the model, in a fixed order. Two models hash equal
/// whenever they are equal; nothing outside the model can move the hash.
pub open spec fn hash_model(m: StateModel) -> u64 {
    let h1 = mix_opt_u64(FNV_OFFSET, m.session_id);
    let h2 = mix64(h1, m.last_seq);
    let h3 = mix64(h2, i64_bits(m.last_ts_us));
    let h4 = mix_opt_chars(h3, m.session_mode);
    let h5 = mix_decision(h4, m.last_decision);
    let h6 = mix64(h5, m.belief_p_milli[0] as u64);
    let h7 = mix64(h6, m.belief_p_milli[1] as u64);
    let h8 = mix64(h7, m.belief_p_milli[2] as u64);
    let h9 = mix64(h8, m.belief_p_milli[3] as u64);
    let h10 = mix64(h9, m.belief_p_milli[4] as u64);
    let h11 = mix64(h10, m.belief_conf_milli as u64);
    let h12 = mix64(h11, m.belief_mode as u64);
    let h13 = mix64(h12, i64_bits(m.free_energy_ema_milli));
    let h14 = mix64(h13, m.lr_milli as u64);
    let h15 = mix64(h14, m.resonance_milli as u64);
    mix64(h15, m.cycles_total)
}

fn mix(h: u64, v: u64) -> (r: u64)
    ensures
        r == mix64(h, v),
{
    let x: u64 = h ^ v;
    proof {
        assert((x as u128) * (FNV_PRIME as u128) <= 0xffff_ffff_ffff_ffffu128
            * 0x0000_0100_0000_01b3u128) by (nonlinear_arith)
            requires
                x <= 0xffff_ffff_ffff_ffffu64,
        ;
    }
    let prod: u128 = (x as u128) * (FNV_PRIME as u128);
    (prod % 0x1_0000_0000_0000_0000u128) as u64
}

fn ts_bits(x: i64) -> (r: u64)
    ensures
        r == i64_bits(x),
{
    if x >= 0 {
        x as u64
    } else {
        ((x as i128) + 0x1_0000_0000_0000_0000i128) as u64
    }
}

fn hash_string(h: u64, s: &String) -> (r: u64)
    ensures
        r == hash_chars(h, s@),
{
    let st: &str = s.as_str();
    let n: usize = st.unicode_len();
    let mut acc: u64 = h;
    let mut i: usize = 0;
    proof {
        assert(s@.skip(0) =~= s@);
    }
    while i < n
        invariant
            0 <= i <= n,
            n == st@.len(),
            st@ == s@,
            hash_chars(h, s@) == hash_chars(acc, s@.skip(i as int)),
        decreases n - i,
    {
        let c: char = st.get_char(i);
        proof {
            assert(s@.skip(i as int).first() == s@[i as int]);
            assert(s@.skip(i as int).drop_first() =~= s@.skip(i as int + 1));
        }
        acc = mix(acc, c as u64);
        i = i + 1;
    }
    proof {
        assert(s@.skip(n as int) =~= Seq::<char>::empty());
    }
    acc
}

impl BreathState {
    /// The deterministic content hash of the projection's visible fields.
    /// Diagnostic `meta` data never reaches it: the hash is a function of
    /// the model alone.
    pub fn hash(&self) -> (r: u64)
        ensures
            r == hash_model(self.model()),
    {
        let h1 = match self.session_id {
            None => mix(FNV_OFFSET, 0),
            Some(s) => mix(mix(FNV_OFFSET, 1), s.id),
        };
        let h2 = mix(h1, self.last_seq);
        let h3 = mix(h2, ts_bits(self.last_ts_us));
        let h4 = match &self.session_mode {
            None => mix(h3, 0),
            Some(m) => {
                let start = mix(mix(h3, 1), m.as_str().unicode_len() as u64);
                hash_string(start, m)
            },
        };
        let h5 = match self.last_decision {
            None => mix(h4, 0),
            Some(dec) => mix(mix(mix(mix(h4, 1), dec.target_rate_mbpm as u64),
                dec.confidence_milli as u64), dec.recommended_poll_interval_ms),
        };
        let h6 = mix(h5, self.belief_p_milli[0] as u64);
        let h7 = mix(h6, self.belief_p_milli[1] as u64);
        let h8 = mix(h7, self.belief_p_milli[2] as u64);
        let h9 = mix(h8, self.belief_p_milli[3] as u64);
        let h10 = mix(h9, self.belief_p_milli[4] as u64);
        let h11 = mix(h10, self.belief_conf_milli as u64);
        let h12 = mix(h11, self.belief_mode as u64);
        let h13 = mix(h12, ts_bits(self.free_energy_ema_milli));
        let h14 = mix(h13, self.lr_milli as u64);
        let h15 = mix(h14, self.resonance_milli as u64);
        mix(h15, self.cycles_total)
    }
}

/// The models of a run of envelopes, in order.
pub open spec fn models_of(s: Seq<Envelope>) -> Seq<EnvelopeModel> {
    s.map_values(|e: Envelope| envelope_model(e))
}

/// Replay from a model: fold envelopes in order, aborting on the first
/// protocol fault.
pub open spec fn replay_model(m: StateModel, evs: Seq<EnvelopeModel>) -> Result<
    StateModel,
    ReplayError,
>
    decreases evs.len(),
{
    if evs.len() == 0 {
        Ok(m)
    } else {
        match apply_fault(m, evs.first()) {
            Some(e) => Err(e),
            None => replay_model(apply_model(m, evs.first()), evs.drop_first()),
        }
    }
}

impl BreathState {
    /// Replay a run of envelopes in order, aborting on the first protocol
    /// fault and surfacing it; the envelopes after the fault are not
    /// touched.
    pub fn replay(&mut self, envs: &Vec<Envelope>) -> (r: Result<(), ReplayError>)
        ensures
            r is Ok ==> Ok::<StateModel, ReplayError>(final(self).model()) == replay_model(old(
                self).model(), models_of(envs@)),
            r matches Err(e) ==> replay_model(old(self).model(), models_of(envs@)) == Err::<
                StateModel, ReplayError>(e),
    {
        let ghost m0 = self.model();
        let ghost all = models_of(envs@);
        let n = envs.len();
        let mut i: usize = 0;
        proof {
            assert(all.skip(0) =~= all);
        }
        while i < n
            invariant
                0 <= i <= n,
                n == envs@.len(),
                all == models_of(envs@),
                m0 == old(self).model(),
                replay_model(self.model(), all.skip(i as int)) == replay_model(m0, all),
            decreases n - i,
        {
            proof {
                assert(all.skip(i as int).first() == all[i as int]);
                assert(all[i as int] == envelope_model(envs@[i as int]));
                assert(all.skip(i as int).drop_first() =~= all.skip(i as int + 1));
            }
            let ghost before = self.model();
            match self.apply(&envs[i]) {
                Err(e) => {
                    proof {
                        assert(replay_model(before, all.skip(i as int)) == Err::<
                            StateModel,
                            ReplayError,
                        >(e));
                    }
                    return Err(e);
                },
                Ok(()) => {
                    i = i + 1;
                },
            }
        }
        proof {
            assert(all.skip(n as int) =~= Seq::<EnvelopeModel>::empty());
        }
        Ok(())
    }
}

/// Deterministic replay: two runs of envelopes that agree event for event
/// on everything but their diagnostic `meta` bags replay, from equal
/// starting models, to exactly the same outcome.
pub proof fn lemma_replay_deterministic(m: StateModel, evs1: Seq<Envelope>, evs2: Seq<Envelope>)
    requires
        evs1.len() == evs2.len(),
        forall|i: int| 0 <= i < evs1.len() ==> envelope_model(evs1[i]) == envelope_model(evs2[i]),
    ensures
        replay_model(m, models_of(evs1)) == replay_model(m, models_of(evs2)),
{
    assert(models_of(evs1) =~= models_of(evs2));
}

/// The hash form of the determinism guarantee: when both replays succeed,
/// the resulting content hashes are identical, on any participant, at any
/// time.
pub proof fn lemma_replay_hash_deterministic(m: StateModel, evs1: Seq<Envelope>,
    evs2: Seq<Envelope>, s1: StateModel, s2: StateModel)
    requires
        evs1.len() == evs2.len(),
        forall|i: int| 0 <= i < evs1.len() ==> envelope_model(evs1[i]) == envelope_model(evs2[i]),
        replay_model(m, models_of(evs1)) == Ok::<StateModel, ReplayError>(s1),
        replay_model(m, models_of(evs2)) == Ok::<StateModel, ReplayError>(s2),
    ensures
        hash_model(s1) == hash_model(s2),
{
    lemma_replay_deterministic(m, evs1, evs2);
}

/// The `meta` bag is invisible to the aggregate: two envelopes that differ
/// only in `meta` have the same model, and so the same effect on the
/// projection and its hash.
pub proof fn lemma_meta_is_invisible(e1: Envelope, e2: Envelope)
    requires
        e1.session_id == e2.session_id,
        e1.seq == e2.seq,
        e1.ts_us == e2.ts_us,
        event_model(e1.event) == event_model(e2.event),
    ensures
        envelope_model(e1) == envelope_model(e2),
{
}

} // verus!
