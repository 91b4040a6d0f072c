//! The session runtime: the single-writer state machine that consumes
//! commands and signal results, gates the state-changing commands through
//! the safety verifier, and publishes snapshots.
//!
//! The runtime decides; it does not act on its collaborators. Each step
//! takes what the collaborators report (an [`Observation`]) and returns, in
//! order, the effects that the caller has to carry out: on the phase machine,
//! the inference engine, the signal worker and the reply slot of a stop
//! request. A publication is an effect too: the caller reads the
//! collaborators once more and hands the reading to
//! [`RuntimeActor::update_shared_state`].

use vstd::prelude::*;
use vstd::string::StringExecFns;
use std::time::Instant;
use crate::clock::{elapsed_micros, instant_now, now_millis};
use crate::fixed::{clamp, clamp_int, div_toward_zero, div_trunc, sat, saturate};
use crate::patterns::{
    builtin_catalog, builtin_patterns, default_pattern_id, durations_of, find_pattern,
    lemma_builtin_catalog,
    lemma_position_of, pattern_views, position_of, PatternView, PhaseDurations,
};
use crate::safety::{
    any_blocking, check_next, check_violations, checked_view, opt_text,
    EventView, FfiKernelEvent, FfiKernelEventType, MonitorView, SafetyMonitor, Verdict,
    initial_monitor,
};
use crate::text::{decimal_string, decimal_text};
use crate::types::{
    empty_stats, resonance_of, safety_status_of, BeliefView, FfiBeliefState, FfiFrame, FfiPhase,
    FfiResonance, FfiRuntimeState, FfiRuntimeStatus, FfiSafetyStatus, FfiSessionStats, FrameView,
    RuntimeStateView, SessionStatsView, MAX_TEMPO, MIN_TEMPO,
};

verus! {

/// What the collaborators of the runtime report when they are read: the
/// phase machine its phase, progress and cycle count, the inference engine
/// its belief.
#[derive(Debug)]
pub struct Observation {
    pub phase: FfiPhase,
    pub phase_progress: i64,
    pub cycles_completed: u64,
    pub belief: FfiBeliefState,
}

/// Mathematical value of an [`Observation`].
pub struct ObservationView {
    pub phase: FfiPhase,
    pub phase_progress: i64,
    pub cycles_completed: u64,
    pub belief: BeliefView,
}

impl View for Observation {
    type V = ObservationView;

    open spec fn view(&self) -> ObservationView {
        ObservationView {
            phase: self.phase,
            phase_progress: self.phase_progress,
            cycles_completed: self.cycles_completed,
            belief: self.belief@,
        }
    }
}

/// The readings of the clocks at one step.
pub struct Clock {
    /// Wall-clock time in milliseconds.
    pub now_ms: i64,
    /// The present point of the monotonic clock.
    pub instant: Instant,
    /// Microseconds since the session started; zero without a session.
    pub session_elapsed: i64,
}

/// A tempo scale within the safe range. The only way to make one is to
/// clamp, so a tempo adjustment can never carry a value outside the range.
#[derive(Debug, Clone, Copy)]
pub struct TempoScale {
    micros: i64,
}

impl View for TempoScale {
    type V = i64;

    closed spec fn view(&self) -> i64 {
        self.micros
    }
}

impl TempoScale {
    #[verifier::type_invariant]
    spec fn inv(self) -> bool {
        MIN_TEMPO <= self.micros <= MAX_TEMPO
    }

    /// The tempo scale nearest to `scale` within the safe range.
    pub fn clamped(scale: i64) -> (r: Self)
        ensures
            r@ == clamp_int(scale as int, MIN_TEMPO as int, MAX_TEMPO as int),
    {
        TempoScale { micros: clamp(scale, MIN_TEMPO, MAX_TEMPO) }
    }

    /// The value of this tempo scale.
    pub fn get(&self) -> (v: i64)
        ensures
            v == self@,
            MIN_TEMPO <= v <= MAX_TEMPO,
    {
        proof {
            use_type_invariant(self);
        }
        self.micros
    }
}

/// A command to the runtime.
#[derive(Debug)]
pub enum RuntimeCommand {
    StartSession,
    StopSession,
    PauseSession,
    ResumeSession,
    LoadPattern(String),
    ProcessFrame { r: i64, g: i64, b: i64, timestamp_us: i64 },
    Tick { dt_sec: i64, timestamp_us: i64 },
    ResetSafetyLock,
    AdjustTempo(TempoScale),
    UpdateContext { local_hour: u8, is_charging: bool, recent_sessions: u16 },
    EmergencyHalt(String),
    UpdateConfig(String),
}

/// A command to the signal worker.
#[derive(Debug, Clone, Copy, PartialEq, Eq, Structural)]
pub enum SignalCommand {
    ProcessSample { r: i64, g: i64, b: i64, timestamp_us: i64 },
    Reset,
}

/// A result of the signal worker.
#[derive(Debug, Clone, Copy, PartialEq, Eq, Structural)]
pub enum SignalEvent {
    Result { hr: i64, confidence: i64, timestamp_us: i64 },
}

/// What the signal worker does with a command, once the signal extractor
/// has been fed.
#[derive(Debug, Clone, Copy, PartialEq, Eq, Structural)]
pub enum SignalAction {
    /// Feed the sample to the extractor and ask it for an estimate.
    Extract { r: i64, g: i64, b: i64 },
    /// Reset the extractor.
    ResetExtractor,
}

impl SignalCommand {
    /// What the signal worker does with this command.
    pub fn action(&self) -> (a: SignalAction)
        ensures
            a == match *self {
                SignalCommand::ProcessSample { r, g, b, timestamp_us } => SignalAction::Extract {
                    r,
                    g,
                    b,
                },
                SignalCommand::Reset => SignalAction::ResetExtractor,
            },
    {
        match *self {
            SignalCommand::ProcessSample { r, g, b, timestamp_us: _ } => SignalAction::Extract {
                r,
                g,
                b,
            },
            SignalCommand::Reset => SignalAction::ResetExtractor,
        }
    }

    /// The result that the signal worker sends for this command, given the
    /// estimate of rate and confidence that the extractor made of it: a
    /// sample with an estimate gives a result with the sample's time stamp,
    /// everything else gives none.
    pub fn result(&self, estimate: Option<(i64, i64)>) -> (e: Option<SignalEvent>)
        ensures
            e == match (*self, estimate) {
                (SignalCommand::ProcessSample { r, g, b, timestamp_us }, Some(found)) => Some(
                    SignalEvent::Result { hr: found.0, confidence: found.1, timestamp_us },
                ),
                _ => None,
            },
    {
        match (*self, estimate) {
            (SignalCommand::ProcessSample { r: _, g: _, b: _, timestamp_us }, Some(found)) => Some(
                SignalEvent::Result { hr: found.0, confidence: found.1, timestamp_us },
            ),
            _ => None,
        }
    }
}

/// What the caller has to carry out after a step.
#[derive(Debug)]
pub enum RuntimeEffect {
    /// Replace the phase machine by a new one with these phase lengths.
    ResetPhaseMachine(PhaseDurations),
    /// Hand the command to the signal worker; a failure to deliver is a
    /// dropped sample.
    Signal(SignalCommand),
    /// Advance the phase machine and the inference engine by this many
    /// microseconds.
    Advance(u64),
    /// Forward the context to the inference engine.
    UpdateContext { local_hour: u8, is_charging: bool, recent_sessions: u16 },
    /// Put the statistics on the reply slot of the stop request.
    Reply(FfiSessionStats),
    /// Read the collaborators and publish the snapshot.
    PublishState,
    /// Read the collaborators and publish a frame with these signal values.
    PublishFrame { heart_rate: Option<i64>, signal_quality: i64 },
}

/// Mathematical value of a [`RuntimeEffect`].
pub enum EffectView {
    ResetPhaseMachine(PhaseDurations),
    Signal(SignalCommand),
    Advance(u64),
    UpdateContext { local_hour: u8, is_charging: bool, recent_sessions: u16 },
    Reply(SessionStatsView),
    PublishState,
    PublishFrame { heart_rate: Option<i64>, signal_quality: i64 },
}

impl View for RuntimeEffect {
    type V = EffectView;

    open spec fn view(&self) -> EffectView {
        match *self {
            RuntimeEffect::ResetPhaseMachine(d) => EffectView::ResetPhaseMachine(d),
            RuntimeEffect::Signal(c) => EffectView::Signal(c),
            RuntimeEffect::Advance(us) => EffectView::Advance(us),
            RuntimeEffect::UpdateContext { local_hour, is_charging, recent_sessions } =>
                EffectView::UpdateContext { local_hour, is_charging, recent_sessions },
            RuntimeEffect::Reply(stats) => EffectView::Reply(stats@),
            RuntimeEffect::PublishState => EffectView::PublishState,
            RuntimeEffect::PublishFrame { heart_rate, signal_quality } => EffectView::PublishFrame {
                heart_rate,
                signal_quality,
            },
        }
    }
}

/// The values of a sequence of effects.
pub open spec fn effect_views(s: Seq<RuntimeEffect>) -> Seq<EffectView> {
    s.map_values(|e: RuntimeEffect| e@)
}

/// A session in progress.
pub struct SessionState {
    pub start_time: Instant,
    pub pattern_id: String,
    pub hr_samples: Vec<i64>,
    pub resonance_samples: Vec<i64>,
}

/// Mathematical value of a [`SessionState`].
pub struct SessionView {
    pub start_time: Instant,
    pub pattern_id: Seq<char>,
    pub hr_samples: Seq<i64>,
    pub resonance_samples: Seq<i64>,
}

impl View for SessionState {
    type V = SessionView;

    open spec fn view(&self) -> SessionView {
        SessionView {
            start_time: self.start_time,
            pattern_id: self.pattern_id@,
            hr_samples: self.hr_samples@,
            resonance_samples: self.resonance_samples@,
        }
    }
}

/// The value of an optional session.
pub open spec fn session_view(o: Option<SessionState>) -> Option<SessionView> {
    match o {
        Some(s) => Some(s@),
        None => None,
    }
}

/// Mathematical value of a [`RuntimeActor`].
pub struct ActorView {
    pub current_pattern_id: Seq<char>,
    pub session: Option<SessionView>,
    pub last_timestamp_us: i64,
    pub status: FfiRuntimeStatus,
    pub tempo_scale: i64,
    pub safety_locked: bool,
    pub last_resonance: i64,
    /// The snapshot that was published last.
    pub published: RuntimeStateView,
    /// The frame that was published last.
    pub frame: FrameView,
    /// The safety verifier of this runtime.
    pub monitor: MonitorView,
}

impl ActorView {
    /// The tempo scale is within the safe range, in the runtime and in the
    /// published snapshot.
    pub open spec fn tempo_in_bounds(self) -> bool {
        MIN_TEMPO <= self.tempo_scale <= MAX_TEMPO && MIN_TEMPO <= self.published.tempo_scale
            <= MAX_TEMPO
    }

    /// The status shows the lock: it is `SafetyLock` exactly while the lock
    /// is engaged, in the runtime and in the published snapshot.
    pub open spec fn lock_shown(self) -> bool {
        self.safety_locked == (self.status == FfiRuntimeStatus::SafetyLock)
            && self.published.safety.is_locked == (self.published.status
            == FfiRuntimeStatus::SafetyLock)
    }
}

/// The sum of the samples.
pub open spec fn sum(s: Seq<i64>) -> int
    decreases s.len(),
{
    if s.len() == 0 {
        0
    } else {
        sum(s.drop_last()) + s.last()
    }
}

/// The mean of the samples, rounded toward zero; zero where there is none.
pub open spec fn mean(s: Seq<i64>) -> int {
    if s.len() == 0 {
        0
    } else {
        sat(div_trunc(sum(s), s.len() as int))
    }
}

/// The pattern of the built-in catalog with the id `id`, or the default
/// pattern where there is none.
pub open spec fn pattern_or_default(id: Seq<char>) -> PatternView {
    match position_of(builtin_catalog(), id) {
        Some(i) => builtin_catalog()[i],
        None => builtin_catalog()[0],
    }
}

/// The event that stands for a gated command.
pub open spec fn gate_event(
    event_type: FfiKernelEventType,
    payload: Option<Seq<char>>,
    now_ms: i64,
) -> EventView {
    EventView { event_type, timestamp_ms: now_ms, payload }
}

/// Whether the verifier blocks `e` in the state `s`: the check raises an
/// error or a critical violation. The verifier reads the published snapshot.
pub open spec fn gate_blocks(s: ActorView, e: EventView) -> bool {
    any_blocking(check_violations(s.monitor, e, checked_view(s.published)))
}

/// The runtime after the verifier has checked `e`: only the verifier has
/// changed.
pub open spec fn after_gate(s: ActorView, e: EventView) -> ActorView {
    ActorView { monitor: check_next(s.monitor, e, checked_view(s.published)), ..s }
}

/// The statistics of the session `session` when it stops.
pub open spec fn session_stats(
    session: Option<SessionView>,
    obs: ObservationView,
    elapsed: i64,
) -> SessionStatsView {
    match session {
        Some(sess) => SessionStatsView {
            duration_sec: elapsed,
            cycles_completed: obs.cycles_completed,
            pattern_id: sess.pattern_id,
            avg_heart_rate: if sess.hr_samples.len() == 0 {
                None
            } else {
                Some(mean(sess.hr_samples) as i64)
            },
            final_belief: obs.belief,
            avg_resonance: mean(sess.resonance_samples) as i64,
        },
        None => empty_stats(obs.belief),
    }
}

/// The snapshot that the runtime `s` publishes on the observation `obs`,
/// `elapsed` microseconds into its session.
pub open spec fn snapshot_of(s: ActorView, obs: ObservationView, elapsed: i64) -> RuntimeStateView {
    RuntimeStateView {
        status: s.status,
        pattern_id: s.current_pattern_id,
        phase: obs.phase,
        phase_progress: obs.phase_progress,
        cycles_completed: obs.cycles_completed,
        session_duration_sec: if s.session is Some {
            elapsed
        } else {
            0
        },
        tempo_scale: s.tempo_scale,
        belief: obs.belief,
        resonance: resonance_of(s.last_resonance),
        safety: safety_status_of(
            s.safety_locked,
            (s.monitor.violations.len() % 0x1_0000_0000) as u32,
        ),
    }
}

/// The frame that the runtime `s` publishes on the observation `obs`.
pub open spec fn frame_of(
    s: ActorView,
    obs: ObservationView,
    heart_rate: Option<i64>,
    signal_quality: i64,
) -> FrameView {
    FrameView {
        phase: obs.phase,
        phase_progress: obs.phase_progress,
        cycles_completed: obs.cycles_completed,
        heart_rate,
        signal_quality,
        belief: obs.belief,
        resonance: resonance_of(s.last_resonance),
    }
}

/// A step of the runtime: the state after it and the effects it asks for.
pub struct Step {
    pub next: ActorView,
    pub effects: Seq<EffectView>,
}

/// A gated command that the verifier blocked: nothing changes but the
/// verifier, and the snapshot is published again to show the violations.
pub open spec fn blocked(s: ActorView, e: EventView) -> Step {
    Step { next: after_gate(s, e), effects: seq![EffectView::PublishState] }
}

/// `StartSession`.
pub open spec fn start_step(s: ActorView, now_ms: i64, instant: Instant) -> Step {
    let e = gate_event(FfiKernelEventType::StartSession, None, now_ms);
    if gate_blocks(s, e) {
        blocked(s, e)
    } else if s.safety_locked {
        Step { next: after_gate(s, e), effects: Seq::<EffectView>::empty() }
    } else {
        Step {
            next: ActorView {
                last_timestamp_us: 0,
                status: FfiRuntimeStatus::Running,
                session: Some(
                    SessionView {
                        start_time: instant,
                        pattern_id: s.current_pattern_id,
                        hr_samples: Seq::<i64>::empty(),
                        resonance_samples: Seq::<i64>::empty(),
                    },
                ),
                ..after_gate(s, e)
            },
            effects: seq![
                EffectView::ResetPhaseMachine(
                    durations_of(pattern_or_default(s.current_pattern_id).timings),
                ),
                EffectView::Signal(SignalCommand::Reset),
                EffectView::PublishState,
            ],
        }
    }
}

/// `StopSession`: never gated, always answered. The session ends and the
/// runtime is idle again, unless the lock is engaged: the lock and the
/// status that shows it stay until the reset.
pub open spec fn stop_step(s: ActorView, obs: ObservationView, elapsed: i64) -> Step {
    Step {
        next: ActorView {
            status: if s.safety_locked {
                s.status
            } else {
                FfiRuntimeStatus::Idle
            },
            session: None,
            ..s
        },
        effects: seq![
            EffectView::Reply(session_stats(s.session, obs, elapsed)),
            EffectView::PublishState,
        ],
    }
}

/// `PauseSession`: only a running session pauses.
pub open spec fn pause_step(s: ActorView) -> Step {
    if s.status == FfiRuntimeStatus::Running {
        Step {
            next: ActorView { status: FfiRuntimeStatus::Paused, ..s },
            effects: seq![EffectView::PublishState],
        }
    } else {
        Step { next: s, effects: Seq::<EffectView>::empty() }
    }
}

/// `ResumeSession`: only a paused session resumes.
pub open spec fn resume_step(s: ActorView) -> Step {
    if s.status == FfiRuntimeStatus::Paused {
        Step {
            next: ActorView { status: FfiRuntimeStatus::Running, ..s },
            effects: seq![EffectView::PublishState],
        }
    } else {
        Step { next: s, effects: Seq::<EffectView>::empty() }
    }
}

/// `LoadPattern`: gated; refused under the lock and for an unknown id.
pub open spec fn load_pattern_step(s: ActorView, id: Seq<char>, now_ms: i64) -> Step {
    let e = gate_event(FfiKernelEventType::LoadPattern, Some(id), now_ms);
    if gate_blocks(s, e) {
        blocked(s, e)
    } else if s.safety_locked {
        Step { next: after_gate(s, e), effects: Seq::<EffectView>::empty() }
    } else {
        match position_of(builtin_catalog(), id) {
            Some(i) => Step {
                next: ActorView { current_pattern_id: id, ..after_gate(s, e) },
                effects: seq![
                    EffectView::ResetPhaseMachine(durations_of(builtin_catalog()[i].timings)),
                    EffectView::PublishState,
                ],
            },
            None => Step { next: after_gate(s, e), effects: Seq::<EffectView>::empty() },
        }
    }
}

/// `ProcessFrame`: the sample goes to the signal worker; the runtime does
/// not change and publishes nothing.
pub open spec fn process_frame_step(s: ActorView, r: i64, g: i64, b: i64, timestamp_us: i64) -> Step {
    Step {
        next: s,
        effects: seq![
            EffectView::Signal(SignalCommand::ProcessSample { r, g, b, timestamp_us }),
        ],
    }
}

/// The microseconds of a time step in seconds: a negative step counts as none.
pub open spec fn step_micros(dt_sec: i64) -> u64 {
    if dt_sec < 0 {
        0
    } else {
        dt_sec as u64
    }
}

/// `Tick`: never gated.
pub open spec fn tick_step(s: ActorView, dt_sec: i64, timestamp_us: i64) -> Step {
    Step {
        next: ActorView { last_timestamp_us: timestamp_us, ..s },
        effects: seq![
            EffectView::Advance(step_micros(dt_sec)),
            EffectView::PublishState,
            EffectView::PublishFrame { heart_rate: None, signal_quality: 0 },
        ],
    }
}

/// `ResetSafetyLock`: clears the lock and discards the session.
pub open spec fn reset_lock_step(s: ActorView) -> Step {
    Step {
        next: ActorView {
            safety_locked: false,
            status: FfiRuntimeStatus::Idle,
            session: None,
            ..s
        },
        effects: seq![EffectView::PublishState],
    }
}

/// `AdjustTempo`: gated; the event quotes the new scale.
pub open spec fn adjust_tempo_step(s: ActorView, scale: i64, now_ms: i64) -> Step {
    let e = gate_event(
        FfiKernelEventType::AdjustTempo,
        Some(decimal_text(scale as int)),
        now_ms,
    );
    if gate_blocks(s, e) {
        blocked(s, e)
    } else {
        Step {
            next: ActorView { tempo_scale: scale, ..after_gate(s, e) },
            effects: seq![EffectView::PublishState],
        }
    }
}

/// `UpdateContext`: forwarded to the inference engine.
pub open spec fn update_context_step(
    s: ActorView,
    local_hour: u8,
    is_charging: bool,
    recent_sessions: u16,
) -> Step {
    Step {
        next: s,
        effects: seq![
            EffectView::UpdateContext { local_hour, is_charging, recent_sessions },
            EffectView::PublishState,
        ],
    }
}

/// `EmergencyHalt`: never gated; engages the lock.
pub open spec fn emergency_halt_step(s: ActorView) -> Step {
    Step {
        next: ActorView { status: FfiRuntimeStatus::SafetyLock, safety_locked: true, ..s },
        effects: seq![EffectView::PublishState],
    }
}

/// The step that the command `cmd` makes in the state `s`, on the
/// observation `obs` and the clock readings `clock`.
pub open spec fn command_step(
    s: ActorView,
    cmd: RuntimeCommand,
    obs: ObservationView,
    clock: Clock,
) -> Step {
    match cmd {
        RuntimeCommand::StartSession => start_step(s, clock.now_ms, clock.instant),
        RuntimeCommand::StopSession => stop_step(s, obs, clock.session_elapsed),
        RuntimeCommand::PauseSession => pause_step(s),
        RuntimeCommand::ResumeSession => resume_step(s),
        RuntimeCommand::LoadPattern(id) => load_pattern_step(s, id@, clock.now_ms),
        RuntimeCommand::ProcessFrame { r, g, b, timestamp_us } => process_frame_step(
            s,
            r,
            g,
            b,
            timestamp_us,
        ),
        RuntimeCommand::Tick { dt_sec, timestamp_us } => tick_step(s, dt_sec, timestamp_us),
        RuntimeCommand::ResetSafetyLock => reset_lock_step(s),
        RuntimeCommand::AdjustTempo(scale) => adjust_tempo_step(s, scale@, clock.now_ms),
        RuntimeCommand::UpdateContext { local_hour, is_charging, recent_sessions } =>
            update_context_step(s, local_hour, is_charging, recent_sessions),
        RuntimeCommand::EmergencyHalt(_) => emergency_halt_step(s),
        RuntimeCommand::UpdateConfig(_) => Step { next: s, effects: Seq::<EffectView>::empty() },
    }
}

/// The step that a result of the signal worker makes: the rate joins the
/// samples of the session, if there is one, and a frame is published.
pub open spec fn signal_step(s: ActorView, event: SignalEvent) -> Step {
    match event {
        SignalEvent::Result { hr, confidence, timestamp_us } => Step {
            next: ActorView {
                session: match s.session {
                    Some(sess) => Some(
                        SessionView { hr_samples: sess.hr_samples.push(hr), ..sess },
                    ),
                    None => None,
                },
                ..s
            },
            effects: seq![
                EffectView::PublishFrame { heart_rate: Some(hr), signal_quality: confidence },
            ],
        },
    }
}

/// The id of the pattern that is in use where `id` is asked for: `id`
/// itself where the catalog holds it, the default id otherwise.
pub open spec fn resolved_pattern_id(id: Seq<char>) -> Seq<char> {
    if position_of(builtin_catalog(), id) is Some {
        id
    } else {
        default_pattern_id()
    }
}

/// The runtime at its start, for the pattern asked for, the first phase and
/// the first belief: idle, unlocked, at tempo one, with nothing on record
/// and nothing of the cycle done. Its pattern is the one asked for, or the
/// default pattern where the catalog holds no such id.
pub open spec fn initial_actor(asked: Seq<char>, phase: FfiPhase, belief: BeliefView) -> ActorView {
    let pattern_id = resolved_pattern_id(asked);
    ActorView {
        current_pattern_id: pattern_id,
        session: None,
        last_timestamp_us: 0,
        status: FfiRuntimeStatus::Idle,
        tempo_scale: 1_000_000,
        safety_locked: false,
        last_resonance: 0,
        published: RuntimeStateView {
            status: FfiRuntimeStatus::Idle,
            pattern_id,
            phase,
            phase_progress: 0,
            cycles_completed: 0,
            session_duration_sec: 0,
            tempo_scale: 1_000_000,
            belief,
            resonance: resonance_of(0),
            safety: safety_status_of(false, 0),
        },
        frame: FrameView {
            phase,
            phase_progress: 0,
            cycles_completed: 0,
            heart_rate: None,
            signal_quality: 0,
            belief,
            resonance: resonance_of(0),
        },
        monitor: initial_monitor(),
    }
}

/// The phase lengths for the pattern `pattern_id`, or for the default
/// pattern where the catalog has no such id.
pub fn durations_for(pattern_id: &String) -> (r: PhaseDurations)
    ensures
        r == durations_of(pattern_or_default(pattern_id@).timings),
{
    let patterns = builtin_patterns();
    proof {
        lemma_builtin_catalog();
        lemma_position_of(builtin_catalog(), pattern_id@);
    }
    let idx = match find_pattern(&patterns, pattern_id) {
        Some(i) => i,
        None => 0,
    };
    assert(pattern_views(patterns@)[idx as int] == patterns@[idx as int]@);
    patterns[idx].to_phase_durations()
}

/// The mean of the samples, rounded toward zero; zero where there is none.
pub fn mean_of(samples: &Vec<i64>) -> (r: i64)
    ensures
        r == mean(samples@),
{
    let n = samples.len();
    if n == 0 {
        return 0;
    }
    let mut total: i128 = 0;
    let mut i: usize = 0;
    while i < n
        invariant
            i <= n,
            n == samples@.len(),
            total == sum(samples@.subrange(0, i as int)),
            -(i as int) * 0x8000_0000_0000_0000 <= total <= (i as int) * 0x8000_0000_0000_0000,
        decreases n - i,
    {
        proof {
            let next = samples@.subrange(0, i + 1);
            assert(next.drop_last() =~= samples@.subrange(0, i as int));
            assert(next.last() == samples@[i as int]);
        }
        total = total + samples[i] as i128;
        i += 1;
    }
    assert(samples@.subrange(0, n as int) =~= samples@);
    saturate(div_toward_zero(total, n as i128))
}

/// The state that the runtime owns.
pub struct RuntimeInner {
    current_pattern_id: String,
    session: Option<SessionState>,
    last_timestamp_us: i64,
    status: FfiRuntimeStatus,
    tempo_scale: i64,
    last_resonance: i64,
}

/// The session runtime.
pub struct RuntimeActor {
    inner: RuntimeInner,
    state_tx: FfiRuntimeState,
    latest_frame: FfiFrame,
    safety: SafetyMonitor,
}

impl View for RuntimeActor {
    type V = ActorView;

    closed spec fn view(&self) -> ActorView {
        ActorView {
            current_pattern_id: self.inner.current_pattern_id@,
            session: session_view(self.inner.session),
            last_timestamp_us: self.inner.last_timestamp_us,
            status: self.inner.status,
            tempo_scale: self.inner.tempo_scale,
            safety_locked: self.inner.status == FfiRuntimeStatus::SafetyLock,
            last_resonance: self.inner.last_resonance,
            published: self.state_tx@,
            frame: self.latest_frame@,
            monitor: self.safety@,
        }
    }
}

fn no_effects() -> (r: Vec<RuntimeEffect>)
    ensures
        effect_views(r@) == Seq::<EffectView>::empty(),
{
    let r: Vec<RuntimeEffect> = Vec::new();
    assert(effect_views(r@) =~= Seq::<EffectView>::empty());
    r
}

fn one_effect(a: RuntimeEffect) -> (r: Vec<RuntimeEffect>)
    ensures
        effect_views(r@) == seq![a@],
{
    let mut r: Vec<RuntimeEffect> = Vec::new();
    r.push(a);
    assert(effect_views(r@) =~= seq![a@]);
    r
}

fn two_effects(a: RuntimeEffect, b: RuntimeEffect) -> (r: Vec<RuntimeEffect>)
    ensures
        effect_views(r@) == seq![a@, b@],
{
    let mut r: Vec<RuntimeEffect> = Vec::new();
    r.push(a);
    r.push(b);
    assert(effect_views(r@) =~= seq![a@, b@]);
    r
}

fn three_effects(a: RuntimeEffect, b: RuntimeEffect, c: RuntimeEffect) -> (r: Vec<RuntimeEffect>)
    ensures
        effect_views(r@) == seq![a@, b@, c@],
{
    let mut r: Vec<RuntimeEffect> = Vec::new();
    r.push(a);
    r.push(b);
    r.push(c);
    assert(effect_views(r@) =~= seq![a@, b@, c@]);
    r
}

impl RuntimeActor {
    #[verifier::type_invariant]
    spec fn inv(self) -> bool {
        &&& MIN_TEMPO <= self.inner.tempo_scale <= MAX_TEMPO
        &&& MIN_TEMPO <= self.state_tx.tempo_scale <= MAX_TEMPO
        &&& self.state_tx.safety.is_locked == (self.state_tx.status
            == FfiRuntimeStatus::SafetyLock)
    }

    /// The runtime at its start, for the pattern `pattern_id`, the phase in
    /// which the phase machine starts and the belief with which the
    /// inference engine starts. Where the catalog holds no pattern of that
    /// id, the runtime starts with the default pattern.
    pub fn new(pattern_id: String, phase: FfiPhase, belief: &FfiBeliefState) -> (r: Self)
        ensures
            r@ == initial_actor(pattern_id@, phase, belief@),
            r@.tempo_in_bounds(),
            r@.lock_shown(),
    {
        let patterns = builtin_patterns();
        let pattern_id = match find_pattern(&patterns, &pattern_id) {
            Some(_) => pattern_id,
            None => String::from_str("4-7-8"),
        };
        let state = FfiRuntimeState {
            status: FfiRuntimeStatus::Idle,
            pattern_id: pattern_id.clone(),
            phase,
            phase_progress: 0,
            cycles_completed: 0,
            session_duration_sec: 0,
            tempo_scale: 1_000_000,
            belief: belief.clone(),
            resonance: FfiResonance { coherence_score: 0, phase_locking: 0, rhythm_alignment: 0 },
            safety: FfiSafetyStatus::with_counts(false, 0),
        };
        let frame = FfiFrame {
            phase,
            phase_progress: 0,
            cycles_completed: 0,
            heart_rate: None,
            signal_quality: 0,
            belief: belief.clone(),
            resonance: FfiResonance { coherence_score: 0, phase_locking: 0, rhythm_alignment: 0 },
        };
        RuntimeActor {
            inner: RuntimeInner {
                current_pattern_id: pattern_id,
                session: None,
                last_timestamp_us: 0,
                status: FfiRuntimeStatus::Idle,
                tempo_scale: 1_000_000,
                last_resonance: 0,
            },
            state_tx: state,
            latest_frame: frame,
            safety: SafetyMonitor::new(),
        }
    }

    /// Whether the safety lock is engaged. The status is the lock: it is
    /// `SafetyLock` from a halt to the reset, and nothing else.
    pub fn is_locked(&self) -> (r: bool)
        ensures
            r == self@.safety_locked,
            r == (self@.status == FfiRuntimeStatus::SafetyLock),
    {
        self.inner.status == FfiRuntimeStatus::SafetyLock
    }

    /// The snapshot that was published last. Its tempo scale is always
    /// within the safe range, and its status shows the lock.
    pub fn get_state(&self) -> (r: FfiRuntimeState)
        ensures
            r@ == self@.published,
            MIN_TEMPO <= r.tempo_scale <= MAX_TEMPO,
            r.safety.is_locked == (r.status == FfiRuntimeStatus::SafetyLock),
            self@.tempo_in_bounds(),
            self@.lock_shown(),
    {
        proof {
            use_type_invariant(self);
        }
        self.state_tx.clone()
    }

    /// The frame that was published last.
    pub fn get_latest_frame(&self) -> (r: FfiFrame)
        ensures
            r@ == self@.frame,
    {
        self.latest_frame.clone()
    }

    /// Publishes the snapshot for the observation `obs`, `elapsed`
    /// microseconds into the session.
    pub fn update_shared_state_at(&mut self, obs: &Observation, elapsed: i64)
        ensures
            final(self)@ == (ActorView {
                published: snapshot_of(old(self)@, obs@, elapsed),
                ..old(self)@
            }),
            final(self)@.tempo_in_bounds(),
            final(self)@.lock_shown(),
    {
        proof {
            use_type_invariant(&*self);
        }
        let session_duration = if self.inner.session.is_some() {
            elapsed
        } else {
            0
        };
        let trauma_count = crate::safety::low_word(self.safety.violation_count());
        self.state_tx = FfiRuntimeState {
            status: self.inner.status,
            pattern_id: self.inner.current_pattern_id.clone(),
            phase: obs.phase,
            phase_progress: obs.phase_progress,
            cycles_completed: obs.cycles_completed,
            session_duration_sec: session_duration,
            tempo_scale: self.inner.tempo_scale,
            belief: obs.belief.clone(),
            resonance: FfiResonance {
                coherence_score: self.inner.last_resonance,
                phase_locking: self.inner.last_resonance,
                rhythm_alignment: self.inner.last_resonance,
            },
            safety: FfiSafetyStatus::with_counts(self.is_locked(), trauma_count),
        };
    }

    /// Publishes the snapshot for the observation `obs`. The length of the
    /// session is read from the monotonic clock; everything else is as in
    /// [`Self::update_shared_state_at`].
    pub fn update_shared_state(&mut self, obs: &Observation)
        ensures
            final(self)@ == (ActorView {
                published: snapshot_of(
                    old(self)@,
                    obs@,
                    final(self)@.published.session_duration_sec,
                ),
                ..old(self)@
            }),
            final(self)@.published.session_duration_sec >= 0,
            final(self)@.tempo_in_bounds(),
            final(self)@.lock_shown(),
    {
        let elapsed = match &self.inner.session {
            Some(s) => elapsed_micros(&s.start_time),
            None => 0,
        };
        self.update_shared_state_at(obs, elapsed);
    }

    /// Publishes a frame for the observation `obs` with the signal values
    /// `heart_rate` and `signal_quality`.
    pub fn update_latest_frame(
        &mut self,
        obs: &Observation,
        heart_rate: Option<i64>,
        signal_quality: i64,
    )
        ensures
            final(self)@ == (ActorView {
                frame: frame_of(old(self)@, obs@, heart_rate, signal_quality),
                ..old(self)@
            }),
    {
        proof {
            use_type_invariant(&*self);
        }
        self.latest_frame = FfiFrame {
            phase: obs.phase,
            phase_progress: obs.phase_progress,
            cycles_completed: obs.cycles_completed,
            heart_rate,
            signal_quality,
            belief: obs.belief.clone(),
            resonance: FfiResonance {
                coherence_score: self.inner.last_resonance,
                phase_locking: self.inner.last_resonance,
                rhythm_alignment: self.inner.last_resonance,
            },
        };
    }

    /// Asks the safety verifier about a gated command, at the time `now_ms`
    /// and against the published snapshot. Returns whether the command may
    /// go ahead: it may not where the check raised an error or a critical
    /// violation. Warnings are recorded and do not block.
    pub fn verify_command_at(
        &mut self,
        event_type: FfiKernelEventType,
        payload: Option<String>,
        now_ms: i64,
    ) -> (ok: bool)
        ensures
            final(self)@ == after_gate(
                old(self)@,
                gate_event(event_type, opt_text(payload), now_ms),
            ),
            ok == !gate_blocks(old(self)@, gate_event(event_type, opt_text(payload), now_ms)),
    {
        proof {
            use_type_invariant(&*self);
        }
        let event = FfiKernelEvent { event_type, timestamp_ms: now_ms, payload };
        let state_snapshot = self.state_tx.clone();
        let mut safety = SafetyMonitor::new();
        std::mem::swap(&mut safety, &mut self.safety);
        let result = safety.check_event(event, state_snapshot);
        self.safety = safety;
        let verdict = result.verdict();
        match verdict {
            Verdict::Block => false,
            _ => true,
        }
    }

    /// Asks the safety verifier about a gated command, now.
    pub fn verify_command(&mut self, event_type: FfiKernelEventType, payload: Option<String>) -> (ok:
        bool)
        ensures
            exists|now_ms: i64|
                final(self)@ == #[trigger] after_gate(
                    old(self)@,
                    gate_event(event_type, opt_text(payload), now_ms),
                ) && ok == !gate_blocks(
                    old(self)@,
                    gate_event(event_type, opt_text(payload), now_ms),
                ),
    {
        let now_ms = now_millis();
        self.verify_command_at(event_type, payload, now_ms)
    }

    /// `StartSession`, at the time `now_ms`: gated; refused under the lock.
    /// A session that starts is stamped with `instant`.
    pub fn handle_start(&mut self, now_ms: i64, instant: Instant) -> (r: Vec<RuntimeEffect>)
        ensures
            (Step { next: final(self)@, effects: effect_views(r@) }) == start_step(
                old(self)@,
                now_ms,
                instant,
            ),
    {
        proof {
            use_type_invariant(&*self);
        }
        if !self.verify_command_at(FfiKernelEventType::StartSession, None, now_ms) {
            return one_effect(RuntimeEffect::PublishState);
        }
        if self.is_locked() {
            return no_effects();
        }
        let durations = durations_for(&self.inner.current_pattern_id);
        self.inner.last_timestamp_us = 0;
        self.inner.status = FfiRuntimeStatus::Running;
        self.inner.session = Some(
            SessionState {
                start_time: instant,
                pattern_id: self.inner.current_pattern_id.clone(),
                hr_samples: Vec::new(),
                resonance_samples: Vec::new(),
            },
        );
        three_effects(
            RuntimeEffect::ResetPhaseMachine(durations),
            RuntimeEffect::Signal(SignalCommand::Reset),
            RuntimeEffect::PublishState,
        )
    }

    /// `StopSession`, `elapsed` microseconds into the session: never gated,
    /// always answered, with the statistics of the session or the empty ones.
    pub fn handle_stop(&mut self, obs: &Observation, elapsed: i64) -> (r: Vec<RuntimeEffect>)
        ensures
            (Step { next: final(self)@, effects: effect_views(r@) }) == stop_step(
                old(self)@,
                obs@,
                elapsed,
            ),
    {
        proof {
            use_type_invariant(&*self);
        }
        if !self.is_locked() {
            self.inner.status = FfiRuntimeStatus::Idle;
        }
        let mut taken: Option<SessionState> = None;
        std::mem::swap(&mut taken, &mut self.inner.session);
        let stats = match taken {
            Some(session) => {
                let avg_hr = if session.hr_samples.len() > 0 {
                    Some(mean_of(&session.hr_samples))
                } else {
                    None
                };
                let avg_resonance = mean_of(&session.resonance_samples);
                FfiSessionStats {
                    duration_sec: elapsed,
                    cycles_completed: obs.cycles_completed,
                    pattern_id: session.pattern_id,
                    avg_heart_rate: avg_hr,
                    final_belief: obs.belief.clone(),
                    avg_resonance,
                }
            },
            None => FfiSessionStats {
                duration_sec: 0,
                cycles_completed: 0,
                pattern_id: String::new(),
                avg_heart_rate: None,
                final_belief: obs.belief.clone(),
                avg_resonance: 0,
            },
        };
        two_effects(RuntimeEffect::Reply(stats), RuntimeEffect::PublishState)
    }

    /// `ResetSafetyLock`: clears the lock and discards the session.
    pub fn handle_reset_safety_lock(&mut self) -> (r: Vec<RuntimeEffect>)
        ensures
            (Step { next: final(self)@, effects: effect_views(r@) }) == reset_lock_step(old(self)@),
    {
        proof {
            use_type_invariant(&*self);
        }
        self.inner.status = FfiRuntimeStatus::Idle;
        self.inner.session = None;
        one_effect(RuntimeEffect::PublishState)
    }

    /// `AdjustTempo`, at the time `now_ms`: gated; sets the tempo scale.
    pub fn handle_adjust_tempo(&mut self, scale: TempoScale, now_ms: i64) -> (r: Vec<RuntimeEffect>)
        ensures
            (Step { next: final(self)@, effects: effect_views(r@) }) == adjust_tempo_step(
                old(self)@,
                scale@,
                now_ms,
            ),
    {
        proof {
            use_type_invariant(&*self);
        }
        let value = scale.get();
        let payload = Some(decimal_string(value));
        if !self.verify_command_at(FfiKernelEventType::AdjustTempo, payload, now_ms) {
            return one_effect(RuntimeEffect::PublishState);
        }
        self.inner.tempo_scale = value;
        one_effect(RuntimeEffect::PublishState)
    }

    /// `UpdateContext`: forwarded to the inference engine.
    pub fn handle_update_context(&mut self, local_hour: u8, is_charging: bool, recent_sessions: u16) -> (r:
        Vec<RuntimeEffect>)
        ensures
            (Step { next: final(self)@, effects: effect_views(r@) }) == update_context_step(
                old(self)@,
                local_hour,
                is_charging,
                recent_sessions,
            ),
    {
        two_effects(
            RuntimeEffect::UpdateContext { local_hour, is_charging, recent_sessions },
            RuntimeEffect::PublishState,
        )
    }

    /// `EmergencyHalt`: never gated; engages the lock.
    pub fn handle_emergency_halt(&mut self) -> (r: Vec<RuntimeEffect>)
        ensures
            (Step { next: final(self)@, effects: effect_views(r@) }) == emergency_halt_step(
                old(self)@,
            ),
    {
        proof {
            use_type_invariant(&*self);
        }
        self.inner.status = FfiRuntimeStatus::SafetyLock;
        one_effect(RuntimeEffect::PublishState)
    }

    /// `PauseSession`: only a running session pauses.
    pub fn handle_pause(&mut self) -> (r: Vec<RuntimeEffect>)
        ensures
            (Step { next: final(self)@, effects: effect_views(r@) }) == pause_step(old(self)@),
    {
        proof {
            use_type_invariant(&*self);
        }
        if self.inner.status == FfiRuntimeStatus::Running {
            self.inner.status = FfiRuntimeStatus::Paused;
            one_effect(RuntimeEffect::PublishState)
        } else {
            no_effects()
        }
    }

    /// `ResumeSession`: only a paused session resumes.
    pub fn handle_resume(&mut self) -> (r: Vec<RuntimeEffect>)
        ensures
            (Step { next: final(self)@, effects: effect_views(r@) }) == resume_step(old(self)@),
    {
        proof {
            use_type_invariant(&*self);
        }
        if self.inner.status == FfiRuntimeStatus::Paused {
            self.inner.status = FfiRuntimeStatus::Running;
            one_effect(RuntimeEffect::PublishState)
        } else {
            no_effects()
        }
    }

    /// `LoadPattern`, at the time `now_ms`: gated; refused under the lock and
    /// for an unknown id.
    pub fn handle_load_pattern(&mut self, id: String, now_ms: i64) -> (r: Vec<RuntimeEffect>)
        ensures
            (Step { next: final(self)@, effects: effect_views(r@) }) == load_pattern_step(
                old(self)@,
                id@,
                now_ms,
            ),
    {
        proof {
            use_type_invariant(&*self);
        }
        if !self.verify_command_at(FfiKernelEventType::LoadPattern, Some(id.clone()), now_ms) {
            return one_effect(RuntimeEffect::PublishState);
        }
        if self.is_locked() {
            return no_effects();
        }
        let patterns = builtin_patterns();
        match find_pattern(&patterns, &id) {
            Some(i) => {
                assert(pattern_views(patterns@)[i as int] == patterns@[i as int]@);
                let durations = patterns[i].to_phase_durations();
                self.inner.current_pattern_id = id;
                two_effects(
                    RuntimeEffect::ResetPhaseMachine(durations),
                    RuntimeEffect::PublishState,
                )
            },
            None => no_effects(),
        }
    }

    /// `ProcessFrame`: the sample goes to the signal worker.
    pub fn handle_process_frame(&mut self, r: i64, g: i64, b: i64, timestamp_us: i64) -> (fx: Vec<
        RuntimeEffect,
    >)
        ensures
            (Step { next: final(self)@, effects: effect_views(fx@) }) == process_frame_step(
                old(self)@,
                r,
                g,
                b,
                timestamp_us,
            ),
    {
        one_effect(RuntimeEffect::Signal(SignalCommand::ProcessSample { r, g, b, timestamp_us }))
    }

    /// `Tick`: never gated; advances the collaborators and publishes.
    pub fn handle_tick(&mut self, dt_sec: i64, timestamp_us: i64) -> (r: Vec<RuntimeEffect>)
        ensures
            (Step { next: final(self)@, effects: effect_views(r@) }) == tick_step(
                old(self)@,
                dt_sec,
                timestamp_us,
            ),
    {
        proof {
            use_type_invariant(&*self);
        }
        let dt_us: u64 = if dt_sec < 0 {
            0
        } else {
            dt_sec as u64
        };
        self.inner.last_timestamp_us = timestamp_us;
        three_effects(
            RuntimeEffect::Advance(dt_us),
            RuntimeEffect::PublishState,
            RuntimeEffect::PublishFrame { heart_rate: None, signal_quality: 0 },
        )
    }

    /// Reads the clocks for one step: the wall-clock time, the present
    /// point of the monotonic clock, and the time since the session started,
    /// which is zero where no session is in progress.
    pub fn read_clock(&self) -> (clock: Clock)
        ensures
            clock.session_elapsed >= 0,
            self@.session is None ==> clock.session_elapsed == 0,
    {
        let session_elapsed = match &self.inner.session {
            Some(s) => elapsed_micros(&s.start_time),
            None => 0,
        };
        Clock { now_ms: now_millis(), instant: instant_now(), session_elapsed }
    }

    /// Makes the step of the command `cmd` on the observation `obs` and the
    /// clock readings `clock`, and returns the effects to carry out, in
    /// order.
    pub fn handle_command_at(&mut self, cmd: RuntimeCommand, obs: &Observation, clock: Clock) -> (r:
        Vec<RuntimeEffect>)
        ensures
            (Step { next: final(self)@, effects: effect_views(r@) }) == command_step(
                old(self)@,
                cmd,
                obs@,
                clock,
            ),
            final(self)@.tempo_in_bounds(),
            final(self)@.lock_shown(),
    {
        let r = match cmd {
            RuntimeCommand::StartSession => self.handle_start(clock.now_ms, clock.instant),
            RuntimeCommand::StopSession => self.handle_stop(obs, clock.session_elapsed),
            RuntimeCommand::PauseSession => self.handle_pause(),
            RuntimeCommand::ResumeSession => self.handle_resume(),
            RuntimeCommand::LoadPattern(id) => self.handle_load_pattern(id, clock.now_ms),
            RuntimeCommand::ProcessFrame { r, g, b, timestamp_us } => self.handle_process_frame(
                r,
                g,
                b,
                timestamp_us,
            ),
            RuntimeCommand::Tick { dt_sec, timestamp_us } => self.handle_tick(dt_sec, timestamp_us),
            RuntimeCommand::ResetSafetyLock => self.handle_reset_safety_lock(),
            RuntimeCommand::AdjustTempo(scale) => self.handle_adjust_tempo(scale, clock.now_ms),
            RuntimeCommand::UpdateContext { local_hour, is_charging, recent_sessions } =>
                self.handle_update_context(local_hour, is_charging, recent_sessions),
            RuntimeCommand::EmergencyHalt(_) => self.handle_emergency_halt(),
            RuntimeCommand::UpdateConfig(_) => no_effects(),
        };
        proof {
            use_type_invariant(&*self);
        }
        r
    }

    /// Makes the step of the command `cmd` on the observation `obs`, with
    /// the clocks read now.
    pub fn handle_command(&mut self, cmd: RuntimeCommand, obs: &Observation) -> (r: Vec<
        RuntimeEffect,
    >)
        ensures
            exists|clock: Clock|
                (Step { next: final(self)@, effects: effect_views(r@) }) == #[trigger] command_step(
                    old(self)@,
                    cmd,
                    obs@,
                    clock,
                ) && clock.session_elapsed >= 0 && (old(self)@.session is None
                    ==> clock.session_elapsed == 0),
            final(self)@.tempo_in_bounds(),
            final(self)@.lock_shown(),
    {
        let clock = self.read_clock();
        self.handle_command_at(cmd, obs, clock)
    }

    /// Takes in a result of the signal worker: the rate joins the samples of
    /// the session, if there is one, and a frame is to be published.
    pub fn handle_signal_event(&mut self, event: SignalEvent) -> (r: Vec<RuntimeEffect>)
        ensures
            (Step { next: final(self)@, effects: effect_views(r@) }) == signal_step(
                old(self)@,
                event,
            ),
    {
        proof {
            use_type_invariant(&*self);
        }
        match event {
            SignalEvent::Result { hr, confidence, timestamp_us: _ } => {
                let mut taken: Option<SessionState> = None;
                std::mem::swap(&mut taken, &mut self.inner.session);
                let put_back = match taken {
                    Some(session) => {
                        let mut session = session;
                        session.hr_samples.push(hr);
                        Some(session)
                    },
                    None => None,
                };
                self.inner.session = put_back;
                one_effect(
                    RuntimeEffect::PublishFrame { heart_rate: Some(hr), signal_quality: confidence },
                )
            },
        }
    }
}

/// Whether the command carries only what the caller's side of the runtime
/// can send: a tempo adjustment within the safe range.
pub open spec fn command_in_bounds(cmd: RuntimeCommand) -> bool {
    match cmd {
        RuntimeCommand::AdjustTempo(scale) => MIN_TEMPO <= scale@ <= MAX_TEMPO,
        _ => true,
    }
}

/// The number of replies among the effects.
pub open spec fn reply_count(effects: Seq<EffectView>) -> nat
    decreases effects.len(),
{
    if effects.len() == 0 {
        0
    } else {
        reply_count(effects.drop_last()) + if effects.last() is Reply {
            1nat
        } else {
            0nat
        }
    }
}

/// No step changes the published snapshot or frame: they change only when
/// the caller publishes.
pub proof fn lemma_steps_leave_publications(
    s: ActorView,
    cmd: RuntimeCommand,
    event: SignalEvent,
    obs: ObservationView,
    clock: Clock,
)
    ensures
        command_step(s, cmd, obs, clock).next.published == s.published,
        command_step(s, cmd, obs, clock).next.frame == s.frame,
        signal_step(s, event).next.published == s.published,
        signal_step(s, event).next.frame == s.frame,
{
}

/// The tempo scale stays within the safe range: a step on a command with a
/// tempo in range keeps the runtime's tempo in range, and a publication
/// passes the runtime's tempo on to the snapshot.
pub proof fn lemma_tempo_stays_in_bounds(
    s: ActorView,
    cmd: RuntimeCommand,
    obs: ObservationView,
    clock: Clock,
    elapsed: i64,
)
    requires
        s.tempo_in_bounds(),
        command_in_bounds(cmd),
    ensures
        command_step(s, cmd, obs, clock).next.tempo_in_bounds(),
        snapshot_of(s, obs, elapsed).tempo_scale == s.tempo_scale,
        (ActorView { published: snapshot_of(s, obs, elapsed), ..s }).tempo_in_bounds(),
{
}

/// A start is refused while the lock is engaged: the status and the session
/// stay as they are, no session starts, and nothing is asked of the
/// collaborators. Where the published status shows the lock, the verifier
/// itself blocks the start with a critical violation.
pub proof fn lemma_start_refused_while_locked(s: ActorView, now_ms: i64, instant: Instant)
    requires
        s.safety_locked || s.published.status == FfiRuntimeStatus::SafetyLock,
    ensures
        start_step(s, now_ms, instant).next == after_gate(
            s,
            gate_event(FfiKernelEventType::StartSession, None, now_ms),
        ),
        start_step(s, now_ms, instant).next.status == s.status,
        start_step(s, now_ms, instant).next.session == s.session,
        start_step(s, now_ms, instant).next.safety_locked == s.safety_locked,
        s.published.status == FfiRuntimeStatus::SafetyLock ==> gate_blocks(
            s,
            gate_event(FfiKernelEventType::StartSession, None, now_ms),
        ),
        forall|i: int|
            0 <= i < start_step(s, now_ms, instant).effects.len() ==> #[trigger] start_step(
                s,
                now_ms,
                instant,
            ).effects[i] == EffectView::PublishState,
{
    let e = gate_event(FfiKernelEventType::StartSession, None, now_ms);
    crate::safety::lemma_blocking_causes(s.monitor, e, checked_view(s.published));
}

/// A stop is answered exactly once, with or without a session; without one
/// the answer is the empty statistics: no duration, no cycles, no pattern.
pub proof fn lemma_stop_replies_once(s: ActorView, obs: ObservationView, elapsed: i64)
    ensures
        reply_count(stop_step(s, obs, elapsed).effects) == 1,
        stop_step(s, obs, elapsed).effects[0] == EffectView::Reply(
            session_stats(s.session, obs, elapsed),
        ),
        s.session is None ==> session_stats(s.session, obs, elapsed) == empty_stats(obs.belief),
        elapsed >= 0 ==> session_stats(s.session, obs, elapsed).duration_sec >= 0,
        !s.safety_locked ==> stop_step(s, obs, elapsed).next.status == FfiRuntimeStatus::Idle,
        s.safety_locked ==> stop_step(s, obs, elapsed).next.status == s.status,
        stop_step(s, obs, elapsed).next.safety_locked == s.safety_locked,
        stop_step(s, obs, elapsed).next.session is None,
{
    let fx = stop_step(s, obs, elapsed).effects;
    assert(fx.drop_last() =~= seq![fx[0]]);
    assert(fx.drop_last().drop_last() =~= Seq::<EffectView>::empty());
    reveal_with_fuel(reply_count, 3);
}

/// Pattern stability is advisory. Of two changes to known patterns less
/// than the minimum interval apart, made without the lock and with nothing
/// that blocks either of them, both take effect, and the second leaves the
/// pattern-stability warning as the newest violation on record.
pub proof fn lemma_rapid_pattern_changes_take_effect(
    s: ActorView,
    first: Seq<char>,
    second: Seq<char>,
    t1: i64,
    t2: i64,
)
    requires
        !s.safety_locked,
        position_of(builtin_catalog(), first) is Some,
        position_of(builtin_catalog(), second) is Some,
        t2 - t1 < crate::safety::MIN_PATTERN_INTERVAL_MS,
        !gate_blocks(s, gate_event(FfiKernelEventType::LoadPattern, Some(first), t1)),
        !gate_blocks(
            load_pattern_step(s, first, t1).next,
            gate_event(FfiKernelEventType::LoadPattern, Some(second), t2),
        ),
    ensures
        load_pattern_step(s, first, t1).next.current_pattern_id == first,
        load_pattern_step(
            load_pattern_step(s, first, t1).next,
            second,
            t2,
        ).next.current_pattern_id == second,
        load_pattern_step(
            load_pattern_step(s, first, t1).next,
            second,
            t2,
        ).next.monitor.violations.last() == crate::safety::pattern_stability_violation(
            t2 - t1,
            t2,
        ),
        crate::safety::pattern_stability_violation(t2 - t1, t2).severity
            == crate::safety::FfiViolationSeverity::Warning,
{
    let e1 = gate_event(FfiKernelEventType::LoadPattern, Some(first), t1);
    let e2 = gate_event(FfiKernelEventType::LoadPattern, Some(second), t2);
    let c = checked_view(s.published);
    let s1 = load_pattern_step(s, first, t1).next;
    assert(s1.published == s.published);
    crate::safety::lemma_blocking_causes(s1.monitor, e2, c);
    crate::safety::lemma_rapid_pattern_change_warns(s.monitor, e1, e2, c, c);
    let v = crate::safety::pattern_stability_violation(t2 - t1, t2);
    let found = check_violations(s1.monitor, e2, c);
    assert(crate::safety::check_tempo_bounds(e2, c) =~= Seq::empty());
    assert(crate::safety::check_safety_lock(e2, c) =~= Seq::empty());
    assert(crate::safety::check_tempo_rate(s1.monitor, e2, c) =~= Seq::empty());
    assert(crate::safety::check_panic_halt(s1.monitor, e2, c) =~= Seq::empty());
    assert(found =~= seq![v]);
    let s2 = load_pattern_step(s1, second, t2).next;
    assert(s2.monitor.violations =~= s1.monitor.violations + seq![v]);
}

/// An emergency halt always ends in the locked state, and a second halt
/// changes nothing more.
pub proof fn lemma_emergency_halt_idempotent(s: ActorView)
    ensures
        emergency_halt_step(s).next.status == FfiRuntimeStatus::SafetyLock,
        emergency_halt_step(s).next.safety_locked,
        emergency_halt_step(emergency_halt_step(s).next) == emergency_halt_step(s),
{
}

/// What is published is what the phase machine reported: the snapshot holds
/// the phase and the cycle count of the observation, so a cycle count that
/// never falls in the observations never falls in the snapshots. A sample
/// on its way to the signal worker changes neither the runtime nor what is
/// published.
pub proof fn lemma_published_cycles_follow_observation(
    s: ActorView,
    obs: ObservationView,
    elapsed: i64,
    r: i64,
    g: i64,
    b: i64,
    timestamp_us: i64,
)
    ensures
        snapshot_of(s, obs, elapsed).phase == obs.phase,
        snapshot_of(s, obs, elapsed).cycles_completed == obs.cycles_completed,
        obs.cycles_completed >= s.published.cycles_completed ==> snapshot_of(
            s,
            obs,
            elapsed,
        ).cycles_completed >= s.published.cycles_completed,
        process_frame_step(s, r, g, b, timestamp_us).next == s,
{
}

/// The safety lock is sticky. While it is engaged and shown, every step but
/// the reset leaves it engaged and the status at `SafetyLock`: no stop, no
/// start and no pause or resume clears it. The reset alone clears it, and
/// discards the session. Whatever the step, the status shows the lock
/// afterwards where it did before.
pub proof fn lemma_lock_is_sticky(
    s: ActorView,
    cmd: RuntimeCommand,
    event: SignalEvent,
    obs: ObservationView,
    clock: Clock,
)
    requires
        s.safety_locked == (s.status == FfiRuntimeStatus::SafetyLock),
    ensures
        command_step(s, cmd, obs, clock).next.safety_locked == (command_step(
            s,
            cmd,
            obs,
            clock,
        ).next.status == FfiRuntimeStatus::SafetyLock),
        signal_step(s, event).next.safety_locked == s.safety_locked,
        signal_step(s, event).next.status == s.status,
        s.safety_locked && !(cmd is ResetSafetyLock) ==> command_step(
            s,
            cmd,
            obs,
            clock,
        ).next.safety_locked && command_step(s, cmd, obs, clock).next.status
            == FfiRuntimeStatus::SafetyLock,
        reset_lock_step(s).next.status == FfiRuntimeStatus::Idle,
        !reset_lock_step(s).next.safety_locked,
        reset_lock_step(s).next.session is None,
{
}

/// A publication shows the lock as the runtime holds it: where the status
/// of the runtime shows the lock, so does the snapshot.
pub proof fn lemma_publication_shows_lock(s: ActorView, obs: ObservationView, elapsed: i64)
    requires
        s.safety_locked == (s.status == FfiRuntimeStatus::SafetyLock),
    ensures
        (ActorView { published: snapshot_of(s, obs, elapsed), ..s }).lock_shown(),
{
}

/// The runtime always holds a pattern of the catalog: it starts with one,
/// and no step replaces it by an unknown one.
pub proof fn lemma_pattern_stays_known(
    asked: Seq<char>,
    phase: FfiPhase,
    belief: BeliefView,
    s: ActorView,
    cmd: RuntimeCommand,
    event: SignalEvent,
    obs: ObservationView,
    clock: Clock,
)
    ensures
        position_of(builtin_catalog(), initial_actor(asked, phase, belief).current_pattern_id)
            is Some,
        initial_actor(asked, phase, belief).published.pattern_id == initial_actor(
            asked,
            phase,
            belief,
        ).current_pattern_id,
        position_of(builtin_catalog(), s.current_pattern_id) is Some ==> position_of(
            builtin_catalog(),
            command_step(s, cmd, obs, clock).next.current_pattern_id,
        ) is Some,
        signal_step(s, event).next.current_pattern_id == s.current_pattern_id,
{
    lemma_builtin_catalog();
    lemma_position_of(builtin_catalog(), default_pattern_id());
}

} // verus!
