//! The value types that cross the boundary of the runtime: phases, status,
//! belief and safety summaries, frames, statistics and the published snapshot.
//!
//! Real-valued fields are fixed-point numbers in millionths.

use vstd::prelude::*;
use vstd::string::StringExecFns;
use crate::fixed::{sat, saturate, SCALE};

verus! {

/// Phase of the breathing cycle.
#[derive(Debug, Clone, Copy, PartialEq, Eq, Structural)]
pub enum FfiPhase {
    Inhale,
    HoldIn,
    Exhale,
    HoldOut,
}

/// The five modes of the belief distribution, in the order of its entries.
#[derive(Debug, Clone, Copy, PartialEq, Eq, Structural)]
pub enum FfiBeliefMode {
    Calm,
    Stress,
    Focus,
    Sleepy,
    Energize,
}

/// The mode at position `idx` of the distribution; `Calm` for any index past
/// the last.
pub open spec fn mode_of_index(idx: int) -> FfiBeliefMode {
    if idx == 1 {
        FfiBeliefMode::Stress
    } else if idx == 2 {
        FfiBeliefMode::Focus
    } else if idx == 3 {
        FfiBeliefMode::Sleepy
    } else if idx == 4 {
        FfiBeliefMode::Energize
    } else {
        FfiBeliefMode::Calm
    }
}

impl From<u8> for FfiBeliefMode {
    fn from(idx: u8) -> (m: FfiBeliefMode) {
        match idx {
            0 => FfiBeliefMode::Calm,
            1 => FfiBeliefMode::Stress,
            2 => FfiBeliefMode::Focus,
            3 => FfiBeliefMode::Sleepy,
            4 => FfiBeliefMode::Energize,
            _ => FfiBeliefMode::Calm,
        }
    }
}

impl vstd::std_specs::convert::FromSpecImpl<u8> for FfiBeliefMode {
    open spec fn obeys_from_spec() -> bool {
        true
    }

    open spec fn from_spec(idx: u8) -> FfiBeliefMode {
        mode_of_index(idx as int)
    }
}

/// Status of the session runtime.
#[derive(Debug, Clone, Copy, PartialEq, Eq, Structural)]
pub enum FfiRuntimeStatus {
    Idle,
    Running,
    Paused,
    SafetyLock,
}

/// Belief summary: a distribution over the five modes and its confidence.
#[derive(Debug)]
pub struct FfiBeliefState {
    /// Probabilities of `[Calm, Stress, Focus, Sleepy, Energize]`.
    pub probabilities: Vec<i64>,
    /// Confidence, from 0 to 1.
    pub confidence: i64,
    /// The dominant mode.
    pub mode: FfiBeliefMode,
    /// One minus the confidence.
    pub uncertainty: i64,
}

/// Mathematical value of a [`FfiBeliefState`].
pub struct BeliefView {
    pub probabilities: Seq<i64>,
    pub confidence: i64,
    pub mode: FfiBeliefMode,
    pub uncertainty: i64,
}

impl View for FfiBeliefState {
    type V = BeliefView;

    open spec fn view(&self) -> BeliefView {
        BeliefView {
            probabilities: self.probabilities@,
            confidence: self.confidence,
            mode: self.mode,
            uncertainty: self.uncertainty,
        }
    }
}

impl Clone for FfiBeliefState {
    fn clone(&self) -> (r: Self)
        ensures
            r@ == self@,
    {
        let r = FfiBeliefState {
            probabilities: self.probabilities.clone(),
            confidence: self.confidence,
            mode: self.mode,
            uncertainty: self.uncertainty,
        };
        assert(r.probabilities@ =~= self.probabilities@);
        r
    }
}

/// The position of the last greatest entry among the first `n` of `p`
/// (0 where `n` is 0): of equal maxima the later one wins.
pub open spec fn last_max_index(p: Seq<i64>, n: nat) -> int
    recommends
        n <= p.len(),
    decreases n,
{
    if n <= 1 {
        0
    } else {
        let best = last_max_index(p, (n - 1) as nat);
        if p[n - 1] >= p[best] {
            n - 1
        } else {
            best
        }
    }
}

/// The belief summary that the distribution `p` with `confidence` gives.
pub open spec fn belief_of(p: Seq<i64>, confidence: i64) -> BeliefView {
    BeliefView {
        probabilities: p,
        confidence,
        mode: mode_of_index(last_max_index(p, p.len())),
        uncertainty: sat(SCALE - confidence) as i64,
    }
}

/// The belief summary before anything was observed: a uniform distribution
/// held with no confidence.
pub open spec fn default_belief() -> BeliefView {
    BeliefView {
        probabilities: seq![200_000i64, 200_000i64, 200_000i64, 200_000i64, 200_000i64],
        confidence: 0,
        mode: FfiBeliefMode::Calm,
        uncertainty: SCALE,
    }
}

impl FfiBeliefState {
    /// Summarises the distribution `p`: its dominant mode is that of the
    /// greatest entry (the last of them, where several are equal), its
    /// uncertainty is one minus the confidence.
    pub fn from_belief_array(p: &[i64; 5], confidence: i64) -> (r: Self)
        ensures
            r@ == belief_of(p@, confidence),
    {
        let mut probabilities: Vec<i64> = Vec::new();
        let mut best: usize = 0;
        let mut i: usize = 0;
        while i < 5
            invariant
                i <= 5,
                p@.len() == 5,
                probabilities@ == p@.subrange(0, i as int),
                best as int == last_max_index(p@, i as nat),
                0 <= best < 5,
            decreases 5 - i,
        {
            if i >= 1 && p[i] >= p[best] {
                best = i;
            }
            probabilities.push(p[i]);
            i += 1;
            assert(probabilities@ =~= p@.subrange(0, i as int));
        }
        assert(probabilities@ =~= p@);
        let r = FfiBeliefState {
            probabilities,
            confidence,
            mode: FfiBeliefMode::from(best as u8),
            uncertainty: saturate(1_000_000i128 - confidence as i128),
        };
        r
    }

    /// The belief summary before anything was observed.
    pub fn default() -> (r: Self)
        ensures
            r@ == default_belief(),
    {
        let mut probabilities: Vec<i64> = Vec::new();
        probabilities.push(200_000);
        probabilities.push(200_000);
        probabilities.push(200_000);
        probabilities.push(200_000);
        probabilities.push(200_000);
        assert(probabilities@ =~= default_belief().probabilities);
        FfiBeliefState {
            probabilities,
            confidence: 0,
            mode: FfiBeliefMode::Calm,
            uncertainty: 1_000_000,
        }
    }
}

/// Estimate of the inference engine.
#[derive(Debug, Clone, Copy, PartialEq, Eq, Structural)]
pub struct FfiEstimate {
    /// Arousal level, from 0 to 1.
    pub arousal: i64,
    /// Prediction error.
    pub prediction_error: i64,
    /// Resonance score, from 0 to 1.
    pub resonance_score: i64,
    /// Free energy.
    pub free_energy: i64,
    /// Confidence in the estimate.
    pub confidence: i64,
}

/// Safety summary of the published snapshot.
#[derive(Debug)]
pub struct FfiSafetyStatus {
    /// Whether the safety lock is engaged.
    pub is_locked: bool,
    /// Number of violations on record.
    pub trauma_count: u32,
    /// Tempo bounds `[min, max]`.
    pub tempo_bounds: Vec<i64>,
    /// Heart-rate bounds `[min, max]`.
    pub hr_bounds: Vec<i64>,
}

/// Mathematical value of a [`FfiSafetyStatus`].
pub struct SafetyStatusView {
    pub is_locked: bool,
    pub trauma_count: u32,
    pub tempo_bounds: Seq<i64>,
    pub hr_bounds: Seq<i64>,
}

impl View for FfiSafetyStatus {
    type V = SafetyStatusView;

    open spec fn view(&self) -> SafetyStatusView {
        SafetyStatusView {
            is_locked: self.is_locked,
            trauma_count: self.trauma_count,
            tempo_bounds: self.tempo_bounds@,
            hr_bounds: self.hr_bounds@,
        }
    }
}

impl Clone for FfiSafetyStatus {
    fn clone(&self) -> (r: Self)
        ensures
            r@ == self@,
    {
        let r = FfiSafetyStatus {
            is_locked: self.is_locked,
            trauma_count: self.trauma_count,
            tempo_bounds: self.tempo_bounds.clone(),
            hr_bounds: self.hr_bounds.clone(),
        };
        assert(r.tempo_bounds@ =~= self.tempo_bounds@);
        assert(r.hr_bounds@ =~= self.hr_bounds@);
        r
    }
}

/// Least tempo scale that is safe.
pub const MIN_TEMPO: i64 = 800_000;

/// Greatest tempo scale that is safe.
pub const MAX_TEMPO: i64 = 1_400_000;

/// Least heart rate that is plausible, in beats per minute.
pub const MIN_HEART_RATE: i64 = 30_000_000;

/// Greatest heart rate that is plausible, in beats per minute.
pub const MAX_HEART_RATE: i64 = 220_000_000;

/// The safety summary for a lock flag and a number of violations.
pub open spec fn safety_status_of(is_locked: bool, trauma_count: u32) -> SafetyStatusView {
    SafetyStatusView {
        is_locked,
        trauma_count,
        tempo_bounds: seq![MIN_TEMPO, MAX_TEMPO],
        hr_bounds: seq![MIN_HEART_RATE, MAX_HEART_RATE],
    }
}

impl FfiSafetyStatus {
    /// The safety summary for a lock flag and a number of violations, with
    /// the fixed tempo and heart-rate bounds.
    pub fn with_counts(is_locked: bool, trauma_count: u32) -> (r: Self)
        ensures
            r@ == safety_status_of(is_locked, trauma_count),
    {
        let mut tempo_bounds: Vec<i64> = Vec::new();
        tempo_bounds.push(MIN_TEMPO);
        tempo_bounds.push(MAX_TEMPO);
        let mut hr_bounds: Vec<i64> = Vec::new();
        hr_bounds.push(MIN_HEART_RATE);
        hr_bounds.push(MAX_HEART_RATE);
        assert(tempo_bounds@ =~= seq![MIN_TEMPO, MAX_TEMPO]);
        assert(hr_bounds@ =~= seq![MIN_HEART_RATE, MAX_HEART_RATE]);
        FfiSafetyStatus { is_locked, trauma_count, tempo_bounds, hr_bounds }
    }
}

/// Resonance summary.
#[derive(Debug, Clone, Copy, PartialEq, Eq, Structural)]
pub struct FfiResonance {
    /// Coherence score, from 0 to 1.
    pub coherence_score: i64,
    /// Phase locking value.
    pub phase_locking: i64,
    /// Rhythm alignment, from 0 to 1.
    pub rhythm_alignment: i64,
}

/// The resonance summary in which all three measures are `score`.
pub open spec fn resonance_of(score: i64) -> FfiResonance {
    FfiResonance { coherence_score: score, phase_locking: score, rhythm_alignment: score }
}

/// The latest frame: phase and signal readings for the caller's display.
#[derive(Debug)]
pub struct FfiFrame {
    pub phase: FfiPhase,
    pub phase_progress: i64,
    pub cycles_completed: u64,
    pub heart_rate: Option<i64>,
    pub signal_quality: i64,
    pub belief: FfiBeliefState,
    pub resonance: FfiResonance,
}

/// Mathematical value of a [`FfiFrame`].
pub struct FrameView {
    pub phase: FfiPhase,
    pub phase_progress: i64,
    pub cycles_completed: u64,
    pub heart_rate: Option<i64>,
    pub signal_quality: i64,
    pub belief: BeliefView,
    pub resonance: FfiResonance,
}

impl View for FfiFrame {
    type V = FrameView;

    open spec fn view(&self) -> FrameView {
        FrameView {
            phase: self.phase,
            phase_progress: self.phase_progress,
            cycles_completed: self.cycles_completed,
            heart_rate: self.heart_rate,
            signal_quality: self.signal_quality,
            belief: self.belief@,
            resonance: self.resonance,
        }
    }
}

impl Clone for FfiFrame {
    fn clone(&self) -> (r: Self)
        ensures
            r@ == self@,
    {
        FfiFrame {
            phase: self.phase,
            phase_progress: self.phase_progress,
            cycles_completed: self.cycles_completed,
            heart_rate: self.heart_rate,
            signal_quality: self.signal_quality,
            belief: self.belief.clone(),
            resonance: self.resonance,
        }
    }
}

/// Statistics of a session, made when it stops.
#[derive(Debug)]
pub struct FfiSessionStats {
    pub duration_sec: i64,
    pub cycles_completed: u64,
    pub pattern_id: String,
    pub avg_heart_rate: Option<i64>,
    pub final_belief: FfiBeliefState,
    pub avg_resonance: i64,
}

/// Mathematical value of a [`FfiSessionStats`].
pub struct SessionStatsView {
    pub duration_sec: i64,
    pub cycles_completed: u64,
    pub pattern_id: Seq<char>,
    pub avg_heart_rate: Option<i64>,
    pub final_belief: BeliefView,
    pub avg_resonance: i64,
}

impl View for FfiSessionStats {
    type V = SessionStatsView;

    open spec fn view(&self) -> SessionStatsView {
        SessionStatsView {
            duration_sec: self.duration_sec,
            cycles_completed: self.cycles_completed,
            pattern_id: self.pattern_id@,
            avg_heart_rate: self.avg_heart_rate,
            final_belief: self.final_belief@,
            avg_resonance: self.avg_resonance,
        }
    }
}

impl Clone for FfiSessionStats {
    fn clone(&self) -> (r: Self)
        ensures
            r@ == self@,
    {
        FfiSessionStats {
            duration_sec: self.duration_sec,
            cycles_completed: self.cycles_completed,
            pattern_id: self.pattern_id.clone(),
            avg_heart_rate: self.avg_heart_rate,
            final_belief: self.final_belief.clone(),
            avg_resonance: self.avg_resonance,
        }
    }
}

/// The statistics reported where no session was active: nothing but the
/// current belief.
pub open spec fn empty_stats(belief: BeliefView) -> SessionStatsView {
    SessionStatsView {
        duration_sec: 0,
        cycles_completed: 0,
        pattern_id: Seq::<char>::empty(),
        avg_heart_rate: None,
        final_belief: belief,
        avg_resonance: 0,
    }
}

/// The published snapshot of the runtime.
#[derive(Debug)]
pub struct FfiRuntimeState {
    pub status: FfiRuntimeStatus,
    pub pattern_id: String,
    pub phase: FfiPhase,
    pub phase_progress: i64,
    pub cycles_completed: u64,
    pub session_duration_sec: i64,
    pub tempo_scale: i64,
    pub belief: FfiBeliefState,
    pub resonance: FfiResonance,
    pub safety: FfiSafetyStatus,
}

/// Mathematical value of a [`FfiRuntimeState`].
pub struct RuntimeStateView {
    pub status: FfiRuntimeStatus,
    pub pattern_id: Seq<char>,
    pub phase: FfiPhase,
    pub phase_progress: i64,
    pub cycles_completed: u64,
    pub session_duration_sec: i64,
    pub tempo_scale: i64,
    pub belief: BeliefView,
    pub resonance: FfiResonance,
    pub safety: SafetyStatusView,
}

impl View for FfiRuntimeState {
    type V = RuntimeStateView;

    open spec fn view(&self) -> RuntimeStateView {
        RuntimeStateView {
            status: self.status,
            pattern_id: self.pattern_id@,
            phase: self.phase,
            phase_progress: self.phase_progress,
            cycles_completed: self.cycles_completed,
            session_duration_sec: self.session_duration_sec,
            tempo_scale: self.tempo_scale,
            belief: self.belief@,
            resonance: self.resonance,
            safety: self.safety@,
        }
    }
}

impl Clone for FfiRuntimeState {
    fn clone(&self) -> (r: Self)
        ensures
            r@ == self@,
    {
        FfiRuntimeState {
            status: self.status,
            pattern_id: self.pattern_id.clone(),
            phase: self.phase,
            phase_progress: self.phase_progress,
            cycles_completed: self.cycles_completed,
            session_duration_sec: self.session_duration_sec,
            tempo_scale: self.tempo_scale,
            belief: self.belief.clone(),
            resonance: self.resonance,
            safety: self.safety.clone(),
        }
    }
}

/// The errors of the library.
#[derive(Debug)]
pub enum ZenOneError {
    /// No pattern has the id that was asked for.
    PatternNotFound,
    /// The operation needs a running session.
    SessionNotActive,
    /// The safety verifier or the safety lock refused the operation.
    SafetyViolation(String),
    /// An input was malformed.
    ConfigError(String),
}

/// The message of an error.
pub open spec fn error_text(e: ZenOneError) -> Seq<char> {
    match e {
        ZenOneError::PatternNotFound => "pattern not found"@,
        ZenOneError::SessionNotActive => "session not active"@,
        ZenOneError::SafetyViolation(m) => "safety violation: "@ + m@,
        ZenOneError::ConfigError(m) => "config error: "@ + m@,
    }
}

impl ZenOneError {
    /// The message of this error.
    pub fn message(&self) -> (s: String)
        ensures
            s@ == error_text(*self),
    {
        match self {
            ZenOneError::PatternNotFound => String::from_str("pattern not found"),
            ZenOneError::SessionNotActive => String::from_str("session not active"),
            ZenOneError::SafetyViolation(m) => {
                let mut s = String::from_str("safety violation: ");
                s.append(m.as_str());
                s
            },
            ZenOneError::ConfigError(m) => {
                let mut s = String::from_str("config error: ");
                s.append(m.as_str());
                s
            },
        }
    }
}

} // verus!
