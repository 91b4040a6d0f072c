//! The safety verifier: five fixed temporal specifications, checked against
//! each event, the bounded trace of the events seen so far and the published
//! state of the runtime.

use vstd::prelude::*;
use vstd::string::StringExecFns;
use std::collections::VecDeque;
use crate::fixed::{sat, saturate};
use crate::text::{decimal_text, fixed_text, push_decimal, push_fixed};
use crate::types::{FfiRuntimeState, FfiRuntimeStatus, RuntimeStateView, MAX_TEMPO, MIN_TEMPO};

verus! {

/// Number of events that the trace keeps; the oldest leaves first.
pub const TRACE_CAPACITY: usize = 100;

/// Number of latest trace entries in which an emergency halt counts as recent.
pub const HALT_WINDOW: usize = 10;

/// Uncertainty above which a halt is recommended.
pub const MAX_UNCERTAINTY: i64 = 800_000;

/// Greatest change of the tempo scale per second.
pub const MAX_TEMPO_RATE: i64 = 100_000;

/// Least time between two pattern changes, in milliseconds.
pub const MIN_PATTERN_INTERVAL_MS: i64 = 60_000;

/// How grave a violation is. `Error` and `Critical` block the command that
/// was checked, `Warning` does not.
#[derive(Debug, Clone, Copy, PartialEq, Eq, Structural)]
pub enum FfiViolationSeverity {
    Warning,
    Error,
    Critical,
}

/// A violation of one of the safety specifications.
#[derive(Debug)]
pub struct FfiSafetyViolation {
    pub spec_name: String,
    pub description: String,
    pub severity: FfiViolationSeverity,
    pub timestamp_ms: i64,
    pub corrective_action: Option<String>,
}

/// The text of an optional string.
pub open spec fn opt_text(o: Option<String>) -> Option<Seq<char>> {
    match o {
        Some(s) => Some(s@),
        None => None,
    }
}

/// A copy of an optional string.
pub fn clone_opt_string(o: &Option<String>) -> (r: Option<String>)
    ensures
        r == *o,
{
    match o {
        Some(s) => Some(s.clone()),
        None => None,
    }
}

/// Mathematical value of a [`FfiSafetyViolation`].
pub struct ViolationView {
    pub spec_name: Seq<char>,
    pub description: Seq<char>,
    pub severity: FfiViolationSeverity,
    pub timestamp_ms: i64,
    pub corrective_action: Option<Seq<char>>,
}

impl View for FfiSafetyViolation {
    type V = ViolationView;

    open spec fn view(&self) -> ViolationView {
        ViolationView {
            spec_name: self.spec_name@,
            description: self.description@,
            severity: self.severity,
            timestamp_ms: self.timestamp_ms,
            corrective_action: opt_text(self.corrective_action),
        }
    }
}

impl Clone for FfiSafetyViolation {
    fn clone(&self) -> (r: Self)
        ensures
            r@ == self@,
    {
        FfiSafetyViolation {
            spec_name: self.spec_name.clone(),
            description: self.description.clone(),
            severity: self.severity,
            timestamp_ms: self.timestamp_ms,
            corrective_action: clone_opt_string(&self.corrective_action),
        }
    }
}

/// The values of a sequence of violations.
pub open spec fn violation_views(s: Seq<FfiSafetyViolation>) -> Seq<ViolationView> {
    s.map_values(|v: FfiSafetyViolation| v@)
}

/// The values of a sequence with one more violation are the values of the
/// sequence with one more value.
pub proof fn lemma_violation_views_push(s: Seq<FfiSafetyViolation>, v: FfiSafetyViolation)
    ensures
        violation_views(s.push(v)) == violation_views(s).push(v@),
{
    assert(violation_views(s.push(v)) =~= violation_views(s).push(v@));
}

/// The kinds of event that the verifier checks.
#[derive(Debug, Clone, Copy, PartialEq, Eq, Structural)]
pub enum FfiKernelEventType {
    StartSession,
    StopSession,
    LoadPattern,
    AdjustTempo,
    EmergencyHalt,
    Tick,
    PhaseChange,
    CycleComplete,
}

/// An event to be checked.
#[derive(Debug)]
pub struct FfiKernelEvent {
    pub event_type: FfiKernelEventType,
    pub timestamp_ms: i64,
    pub payload: Option<String>,
}

/// Mathematical value of a [`FfiKernelEvent`].
pub struct EventView {
    pub event_type: FfiKernelEventType,
    pub timestamp_ms: i64,
    pub payload: Option<Seq<char>>,
}

impl View for FfiKernelEvent {
    type V = EventView;

    open spec fn view(&self) -> EventView {
        EventView {
            event_type: self.event_type,
            timestamp_ms: self.timestamp_ms,
            payload: opt_text(self.payload),
        }
    }
}

impl Clone for FfiKernelEvent {
    fn clone(&self) -> (r: Self)
        ensures
            r@ == self@,
    {
        FfiKernelEvent {
            event_type: self.event_type,
            timestamp_ms: self.timestamp_ms,
            payload: clone_opt_string(&self.payload),
        }
    }
}

/// The values of a sequence of events.
pub open spec fn event_views(s: Seq<FfiKernelEvent>) -> Seq<EventView> {
    s.map_values(|e: FfiKernelEvent| e@)
}

/// What a check returns.
#[derive(Debug)]
pub struct FfiSafetyCheckResult {
    /// Whether no specification was violated.
    pub is_safe: bool,
    /// The violations of this check, in the order of the specifications.
    pub violations: Vec<FfiSafetyViolation>,
    /// A replacement for the event; the verifier never proposes one.
    pub corrected_event: Option<FfiKernelEvent>,
}

/// What a check decides about the event.
#[derive(Debug, Clone, Copy, PartialEq, Eq, Structural)]
pub enum Verdict {
    /// Nothing was violated.
    Allow,
    /// Only warnings were raised: the event goes ahead.
    AllowWithWarning,
    /// An error or a critical violation was raised: the event is dropped.
    Block,
}

/// Whether a violation of this severity blocks the event.
pub open spec fn severity_blocks(s: FfiViolationSeverity) -> bool {
    s == FfiViolationSeverity::Critical || s == FfiViolationSeverity::Error
}

/// Whether one of the violations blocks the event.
pub open spec fn any_blocking(v: Seq<ViolationView>) -> bool {
    exists|i: int| 0 <= i < v.len() && severity_blocks(#[trigger] v[i].severity)
}

/// The verdict that a sequence of violations amounts to.
pub open spec fn verdict_of(v: Seq<ViolationView>) -> Verdict {
    if v.len() == 0 {
        Verdict::Allow
    } else if any_blocking(v) {
        Verdict::Block
    } else {
        Verdict::AllowWithWarning
    }
}

impl FfiSafetyCheckResult {
    /// The verdict of this check: `Block` where a violation is an error or
    /// critical, `AllowWithWarning` where there are only warnings, `Allow`
    /// where there is none.
    pub fn verdict(&self) -> (r: Verdict)
        ensures
            r == verdict_of(violation_views(self.violations@)),
    {
        let n = self.violations.len();
        if n == 0 {
            return Verdict::Allow;
        }
        let mut i: usize = 0;
        while i < n
            invariant
                i <= n,
                n == self.violations@.len(),
                forall|j: int|
                    0 <= j < i ==> !severity_blocks(
                        #[trigger] violation_views(self.violations@)[j].severity,
                    ),
            decreases n - i,
        {
            let s = self.violations[i].severity;
            if s == FfiViolationSeverity::Critical || s == FfiViolationSeverity::Error {
                assert(severity_blocks(violation_views(self.violations@)[i as int].severity));
                return Verdict::Block;
            }
            i += 1;
        }
        Verdict::AllowWithWarning
    }
}

/// Mathematical value of a [`SafetyMonitor`].
pub struct MonitorView {
    /// The events seen, oldest first, at most [`TRACE_CAPACITY`] of them.
    pub trace: Seq<EventView>,
    /// Every violation raised since the log was last cleared, oldest first.
    pub violations: Seq<ViolationView>,
    /// The tempo scale at the last tempo adjustment.
    pub last_tempo: i64,
    /// The time of the last tempo adjustment.
    pub last_tempo_change_ms: i64,
    /// The time of the last pattern change; none before the first.
    pub last_pattern_change_ms: Option<i64>,
}

impl MonitorView {
    /// The trace holds no more than its capacity.
    pub open spec fn wf(self) -> bool {
        self.trace.len() <= TRACE_CAPACITY
    }
}

/// The monitor before any event: an empty trace and log, tempo one.
pub open spec fn initial_monitor() -> MonitorView {
    MonitorView {
        trace: Seq::<EventView>::empty(),
        violations: Seq::<ViolationView>::empty(),
        last_tempo: 1_000_000,
        last_tempo_change_ms: 0,
        last_pattern_change_ms: None,
    }
}

/// The trace after `e` was appended: where that exceeds the capacity, the
/// oldest event is gone.
pub open spec fn push_bounded(trace: Seq<EventView>, e: EventView) -> Seq<EventView> {
    let t = trace.push(e);
    if t.len() > TRACE_CAPACITY {
        t.drop_first()
    } else {
        t
    }
}

/// Whether one of the last [`HALT_WINDOW`] events of the trace is an
/// emergency halt.
pub open spec fn has_recent_halt(trace: Seq<EventView>) -> bool {
    exists|i: int|
        0 <= i < trace.len() && trace.len() - i <= HALT_WINDOW && (#[trigger] trace[i]).event_type
            == FfiKernelEventType::EmergencyHalt
}

/// Whether the tempo scale lies outside the safe range.
pub open spec fn tempo_out_of_bounds(tempo: i64) -> bool {
    tempo < MIN_TEMPO || tempo > MAX_TEMPO
}

/// The absolute difference of two tempo scales.
pub open spec fn tempo_delta(tempo: i64, last_tempo: i64) -> int {
    if tempo >= last_tempo {
        tempo - last_tempo
    } else {
        last_tempo - tempo
    }
}

/// Whether the tempo scale went from `last_tempo` to `tempo` faster than
/// [`MAX_TEMPO_RATE`] per second, over `dt_ms` milliseconds. No time or
/// negative time between the two is not judged.
pub open spec fn tempo_rate_exceeded(tempo: i64, last_tempo: i64, dt_ms: int) -> bool {
    dt_ms > 0 && tempo_delta(tempo, last_tempo) * 1000 > MAX_TEMPO_RATE * dt_ms
}

/// The change of the tempo scale per second, rounded down.
pub open spec fn tempo_rate(tempo: i64, last_tempo: i64, dt_ms: int) -> int
    recommends
        dt_ms > 0,
{
    (tempo_delta(tempo, last_tempo) * 1000) / dt_ms
}

/// Whether a pattern change at `now_ms` comes too soon after the last one.
/// The first change has none before it and never does.
pub open spec fn pattern_changed_too_soon(now_ms: i64, last_ms: Option<i64>) -> bool {
    match last_ms {
        Some(last) => now_ms - last < MIN_PATTERN_INTERVAL_MS,
        None => false,
    }
}

/// The time from the last pattern change to `now_ms`, in milliseconds; zero
/// where there was none.
pub open spec fn since_pattern_change(now_ms: i64, last_ms: Option<i64>) -> int {
    match last_ms {
        Some(last) => now_ms - last,
        None => 0,
    }
}

/// The violation of the tempo bounds.
pub open spec fn tempo_bounds_violation(tempo: i64, now_ms: i64) -> ViolationView {
    ViolationView {
        spec_name: "tempo_bounds"@,
        description: "Tempo "@ + decimal_text(tempo as int) + " outside safe range [0.8, 1.4]"@,
        severity: FfiViolationSeverity::Error,
        timestamp_ms: now_ms,
        corrective_action: Some("Clamp tempo to safe range"@),
    }
}

/// The violation of the safety lock: a session start while locked.
pub open spec fn safety_lock_violation(now_ms: i64) -> ViolationView {
    ViolationView {
        spec_name: "safety_lock_immutable"@,
        description: "Cannot start session while safety locked"@,
        severity: FfiViolationSeverity::Critical,
        timestamp_ms: now_ms,
        corrective_action: Some("Block event"@),
    }
}

/// The violation of the tempo rate limit, quoting the rate per second.
pub open spec fn tempo_rate_violation(rate: int, now_ms: i64) -> ViolationView {
    ViolationView {
        spec_name: "tempo_rate_limit"@,
        description: "Tempo changing too fast: "@ + fixed_text(sat(rate), 3)
            + "/sec (max 0.1/sec)"@,
        severity: FfiViolationSeverity::Warning,
        timestamp_ms: now_ms,
        corrective_action: Some("Rate-limit tempo change"@),
    }
}

/// The violation of pattern stability, quoting the time since the last
/// change.
pub open spec fn pattern_stability_violation(dt_ms: int, now_ms: i64) -> ViolationView {
    ViolationView {
        spec_name: "pattern_stability"@,
        description: "Pattern changed too soon ("@ + fixed_text(sat(dt_ms * 1000), 1)
            + "s < 60s min)"@,
        severity: FfiViolationSeverity::Warning,
        timestamp_ms: now_ms,
        corrective_action: None,
    }
}

/// The recommendation to halt under high uncertainty.
pub open spec fn panic_halt_violation(now_ms: i64) -> ViolationView {
    ViolationView {
        spec_name: "panic_halt"@,
        description: "High uncertainty detected, emergency halt recommended"@,
        severity: FfiViolationSeverity::Critical,
        timestamp_ms: now_ms,
        corrective_action: Some("Trigger emergency halt"@),
    }
}

/// `v` alone where `cond` holds, nothing otherwise.
pub open spec fn raised_if(cond: bool, v: ViolationView) -> Seq<ViolationView> {
    if cond {
        seq![v]
    } else {
        Seq::<ViolationView>::empty()
    }
}

/// The state of the runtime as far as the verifier reads it.
pub struct CheckedState {
    pub tempo_scale: i64,
    pub status: FfiRuntimeStatus,
    pub uncertainty: i64,
}

/// What the verifier reads of the value of a published snapshot.
pub open spec fn checked_view(s: RuntimeStateView) -> CheckedState {
    CheckedState {
        tempo_scale: s.tempo_scale,
        status: s.status,
        uncertainty: s.belief.uncertainty,
    }
}

/// What the verifier reads of a published snapshot.
pub open spec fn checked_state(s: FfiRuntimeState) -> CheckedState {
    checked_view(s@)
}

/// Tempo bounds: the tempo scale lies in the safe range at all times.
pub open spec fn check_tempo_bounds(e: EventView, s: CheckedState) -> Seq<ViolationView> {
    raised_if(tempo_out_of_bounds(s.tempo_scale), tempo_bounds_violation(s.tempo_scale, e.timestamp_ms))
}

/// Safety-lock immutability: no session starts while the lock is engaged.
pub open spec fn check_safety_lock(e: EventView, s: CheckedState) -> Seq<ViolationView> {
    raised_if(
        s.status == FfiRuntimeStatus::SafetyLock && e.event_type
            == FfiKernelEventType::StartSession,
        safety_lock_violation(e.timestamp_ms),
    )
}

/// Tempo rate limit: judged only at a tempo adjustment, against the tempo
/// and the time of the adjustment before.
pub open spec fn check_tempo_rate(m: MonitorView, e: EventView, s: CheckedState) -> Seq<
    ViolationView,
> {
    let dt_ms = e.timestamp_ms - m.last_tempo_change_ms;
    raised_if(
        e.event_type == FfiKernelEventType::AdjustTempo && tempo_rate_exceeded(
            s.tempo_scale,
            m.last_tempo,
            dt_ms,
        ),
        tempo_rate_violation(tempo_rate(s.tempo_scale, m.last_tempo, dt_ms), e.timestamp_ms),
    )
}

/// Pattern stability: judged only at a pattern change.
pub open spec fn check_pattern_stability(m: MonitorView, e: EventView) -> Seq<ViolationView> {
    raised_if(
        e.event_type == FfiKernelEventType::LoadPattern && pattern_changed_too_soon(
            e.timestamp_ms,
            m.last_pattern_change_ms,
        ),
        pattern_stability_violation(
            since_pattern_change(e.timestamp_ms, m.last_pattern_change_ms),
            e.timestamp_ms,
        ),
    )
}

/// Panic halt: under high uncertainty a halt is recommended, unless one is
/// among the latest events (the checked one included).
pub open spec fn check_panic_halt(m: MonitorView, e: EventView, s: CheckedState) -> Seq<
    ViolationView,
> {
    raised_if(
        s.uncertainty > MAX_UNCERTAINTY && !has_recent_halt(push_bounded(m.trace, e))
            && e.event_type != FfiKernelEventType::EmergencyHalt,
        panic_halt_violation(e.timestamp_ms),
    )
}

/// The violations that checking `e` in state `s` raises, in the order of the
/// five specifications.
pub open spec fn check_violations(m: MonitorView, e: EventView, s: CheckedState) -> Seq<
    ViolationView,
> {
    check_tempo_bounds(e, s) + check_safety_lock(e, s) + check_tempo_rate(m, e, s)
        + check_pattern_stability(m, e) + check_panic_halt(m, e, s)
}

/// The monitor after checking `e` in state `s`: the event is in the trace,
/// the violations are in the log, and a tempo adjustment or pattern change is
/// remembered whether or not it violated anything.
pub open spec fn check_next(m: MonitorView, e: EventView, s: CheckedState) -> MonitorView {
    let is_tempo = e.event_type == FfiKernelEventType::AdjustTempo;
    let is_pattern = e.event_type == FfiKernelEventType::LoadPattern;
    MonitorView {
        trace: push_bounded(m.trace, e),
        violations: m.violations + check_violations(m, e, s),
        last_tempo: if is_tempo {
            s.tempo_scale
        } else {
            m.last_tempo
        },
        last_tempo_change_ms: if is_tempo {
            e.timestamp_ms
        } else {
            m.last_tempo_change_ms
        },
        last_pattern_change_ms: if is_pattern {
            Some(e.timestamp_ms)
        } else {
            m.last_pattern_change_ms
        },
    }
}

/// The number of violations of severity `sev` in `v`.
pub open spec fn count_severity(v: Seq<ViolationView>, sev: FfiViolationSeverity) -> nat
    decreases v.len(),
{
    if v.len() == 0 {
        0
    } else {
        count_severity(v.drop_last(), sev) + if v.last().severity == sev {
            1nat
        } else {
            0nat
        }
    }
}

/// The last `count` entries of `v` (all, where it has fewer), newest first.
pub open spec fn recent(v: Seq<ViolationView>, count: nat) -> Seq<ViolationView> {
    let n = if count < v.len() {
        count
    } else {
        v.len()
    };
    Seq::new(n, |i: int| v[v.len() - 1 - i])
}

/// Whether the state alone is safe: the tempo scale is in range and the
/// safety lock is not engaged.
pub open spec fn state_is_safe(s: CheckedState) -> bool {
    s.tempo_scale >= MIN_TEMPO && s.tempo_scale <= MAX_TEMPO && s.status
        != FfiRuntimeStatus::SafetyLock
}

/// The safety verifier.
pub struct SafetyMonitor {
    trace: VecDeque<FfiKernelEvent>,
    violations: Vec<FfiSafetyViolation>,
    last_tempo: i64,
    last_tempo_change_ms: i64,
    last_pattern_change_ms: Option<i64>,
}

impl View for SafetyMonitor {
    type V = MonitorView;

    closed spec fn view(&self) -> MonitorView {
        MonitorView {
            trace: event_views(self.trace@),
            violations: violation_views(self.violations@),
            last_tempo: self.last_tempo,
            last_tempo_change_ms: self.last_tempo_change_ms,
            last_pattern_change_ms: self.last_pattern_change_ms,
        }
    }
}

fn text(s: &str) -> (r: String)
    ensures
        r@ == s@,
{
    String::from_str(s)
}

fn new_tempo_bounds_violation(tempo: i64, now_ms: i64) -> (r: FfiSafetyViolation)
    ensures
        r@ == tempo_bounds_violation(tempo, now_ms),
{
    let mut description = text("Tempo ");
    push_decimal(&mut description, tempo);
    description.append(" outside safe range [0.8, 1.4]");
    FfiSafetyViolation {
        spec_name: text("tempo_bounds"),
        description,
        severity: FfiViolationSeverity::Error,
        timestamp_ms: now_ms,
        corrective_action: Some(text("Clamp tempo to safe range")),
    }
}

fn new_safety_lock_violation(now_ms: i64) -> (r: FfiSafetyViolation)
    ensures
        r@ == safety_lock_violation(now_ms),
{
    FfiSafetyViolation {
        spec_name: text("safety_lock_immutable"),
        description: text("Cannot start session while safety locked"),
        severity: FfiViolationSeverity::Critical,
        timestamp_ms: now_ms,
        corrective_action: Some(text("Block event")),
    }
}

fn new_tempo_rate_violation(rate: i64, now_ms: i64) -> (r: FfiSafetyViolation)
    ensures
        r@.spec_name == "tempo_rate_limit"@,
        r@.description == "Tempo changing too fast: "@ + fixed_text(rate as int, 3)
            + "/sec (max 0.1/sec)"@,
        r@.severity == FfiViolationSeverity::Warning,
        r@.timestamp_ms == now_ms,
        r@.corrective_action == Some("Rate-limit tempo change"@),
{
    let mut description = text("Tempo changing too fast: ");
    push_fixed(&mut description, rate, 3);
    description.append("/sec (max 0.1/sec)");
    FfiSafetyViolation {
        spec_name: text("tempo_rate_limit"),
        description,
        severity: FfiViolationSeverity::Warning,
        timestamp_ms: now_ms,
        corrective_action: Some(text("Rate-limit tempo change")),
    }
}

fn new_pattern_stability_violation(dt_micros: i64, now_ms: i64) -> (r: FfiSafetyViolation)
    ensures
        r@.spec_name == "pattern_stability"@,
        r@.description == "Pattern changed too soon ("@ + fixed_text(dt_micros as int, 1)
            + "s < 60s min)"@,
        r@.severity == FfiViolationSeverity::Warning,
        r@.timestamp_ms == now_ms,
        r@.corrective_action == None::<Seq<char>>,
{
    let mut description = text("Pattern changed too soon (");
    push_fixed(&mut description, dt_micros, 1);
    description.append("s < 60s min)");
    FfiSafetyViolation {
        spec_name: text("pattern_stability"),
        description,
        severity: FfiViolationSeverity::Warning,
        timestamp_ms: now_ms,
        corrective_action: None,
    }
}

fn new_panic_halt_violation(now_ms: i64) -> (r: FfiSafetyViolation)
    ensures
        r@ == panic_halt_violation(now_ms),
{
    FfiSafetyViolation {
        spec_name: text("panic_halt"),
        description: text("High uncertainty detected, emergency halt recommended"),
        severity: FfiViolationSeverity::Critical,
        timestamp_ms: now_ms,
        corrective_action: Some(text("Trigger emergency halt")),
    }
}

/// Whether one of the last [`HALT_WINDOW`] events of `trace` is an emergency
/// halt.
fn recent_halt(trace: &VecDeque<FfiKernelEvent>) -> (r: bool)
    ensures
        r == has_recent_halt(event_views(trace@)),
{
    let n = trace.len();
    let mut i: usize = if n > HALT_WINDOW {
        n - HALT_WINDOW
    } else {
        0
    };
    while i < n
        invariant
            i <= n,
            n == trace@.len(),
            n - i <= HALT_WINDOW,
            forall|j: int|
                0 <= j < i && n - j <= HALT_WINDOW ==> (#[trigger] event_views(
                    trace@,
                )[j]).event_type != FfiKernelEventType::EmergencyHalt,
        decreases n - i,
    {
        if trace[i].event_type == FfiKernelEventType::EmergencyHalt {
            assert(event_views(trace@)[i as int].event_type == FfiKernelEventType::EmergencyHalt);
            return true;
        }
        i += 1;
    }
    false
}

impl SafetyMonitor {
    #[verifier::type_invariant]
    spec fn inv(self) -> bool {
        self.trace@.len() <= TRACE_CAPACITY
    }

    /// A monitor that has seen nothing yet.
    pub fn new() -> (r: Self)
        ensures
            r@ == initial_monitor(),
            r@.wf(),
    {
        let r = SafetyMonitor {
            trace: VecDeque::with_capacity(100),
            violations: Vec::new(),
            last_tempo: 1_000_000,
            last_tempo_change_ms: 0,
            last_pattern_change_ms: None,
        };
        assert(r@.trace =~= initial_monitor().trace);
        assert(r@.violations =~= initial_monitor().violations);
        r
    }

    /// Checks `event` against the five safety specifications, in the
    /// published state `runtime_state`.
    ///
    /// The event joins the trace, the violations join the log, and the result
    /// holds the violations of this check alone. No replacement event is ever
    /// proposed: whether the event is blocked is read off the severities (see
    /// [`FfiSafetyCheckResult::verdict`]).
    pub fn check_event(&mut self, event: FfiKernelEvent, runtime_state: FfiRuntimeState) -> (r:
        FfiSafetyCheckResult)
        ensures
            final(self)@ == check_next(old(self)@, event@, checked_state(runtime_state)),
            final(self)@.wf(),
            violation_views(r.violations@) == check_violations(
                old(self)@,
                event@,
                checked_state(runtime_state),
            ),
            r.is_safe == (r.violations@.len() == 0),
            r.corrected_event is None,
    {
        proof {
            use_type_invariant(&*self);
        }
        let ghost m = self@;
        let ghost e = event@;
        let ghost s = checked_state(runtime_state);
        let now_ms = event.timestamp_ms;
        let event_type = event.event_type;
        let mut violations: Vec<FfiSafetyViolation> = Vec::new();

        let mut trace: VecDeque<FfiKernelEvent> = VecDeque::new();
        std::mem::swap(&mut trace, &mut self.trace);
        trace.push_back(event);
        if trace.len() > TRACE_CAPACITY {
            let _ = trace.pop_front();
        }
        assert(event_views(trace@) =~= push_bounded(m.trace, e));

        let tempo = runtime_state.tempo_scale;
        if tempo < MIN_TEMPO || tempo > MAX_TEMPO {
            violations.push(new_tempo_bounds_violation(tempo, now_ms));
        }
        assert(violation_views(violations@) =~= check_tempo_bounds(e, s));

        if runtime_state.status == FfiRuntimeStatus::SafetyLock && event_type
            == FfiKernelEventType::StartSession {
            violations.push(new_safety_lock_violation(now_ms));
        }
        assert(violation_views(violations@) =~= check_tempo_bounds(e, s) + check_safety_lock(
            e,
            s,
        ));

        if event_type == FfiKernelEventType::AdjustTempo {
            let dt_ms: i128 = now_ms as i128 - self.last_tempo_change_ms as i128;
            if dt_ms > 0 {
                let delta: i128 = if tempo >= self.last_tempo {
                    tempo as i128 - self.last_tempo as i128
                } else {
                    self.last_tempo as i128 - tempo as i128
                };
                if delta * 1000 > 100_000 * dt_ms {
                    let rate = saturate((delta * 1000) / dt_ms);
                    violations.push(new_tempo_rate_violation(rate, now_ms));
                }
            }
            self.last_tempo = tempo;
            self.last_tempo_change_ms = now_ms;
        }
        assert(violation_views(violations@) =~= check_tempo_bounds(e, s) + check_safety_lock(e, s)
            + check_tempo_rate(m, e, s));

        if event_type == FfiKernelEventType::LoadPattern {
            if let Some(last) = self.last_pattern_change_ms {
                let dt_ms: i128 = now_ms as i128 - last as i128;
                if dt_ms < 60_000 {
                    let dt_micros = saturate(dt_ms * 1000);
                    violations.push(new_pattern_stability_violation(dt_micros, now_ms));
                }
            }
            self.last_pattern_change_ms = Some(now_ms);
        }
        assert(violation_views(violations@) =~= check_tempo_bounds(e, s) + check_safety_lock(e, s)
            + check_tempo_rate(m, e, s) + check_pattern_stability(m, e));

        if runtime_state.belief.uncertainty > MAX_UNCERTAINTY {
            let halted = recent_halt(&trace);
            if !halted && event_type != FfiKernelEventType::EmergencyHalt {
                violations.push(new_panic_halt_violation(now_ms));
            }
        }
        assert(violation_views(violations@) =~= check_violations(m, e, s));
        self.trace = trace;

        let mut log: Vec<FfiSafetyViolation> = Vec::new();
        std::mem::swap(&mut log, &mut self.violations);
        let n = violations.len();
        let mut i: usize = 0;
        while i < n
            invariant
                i <= n,
                n == violations@.len(),
                violation_views(log@) == m.violations + violation_views(violations@).subrange(
                    0,
                    i as int,
                ),
            decreases n - i,
        {
            let ghost before = log@;
            let v = violations[i].clone();
            log.push(v);
            i += 1;
            proof {
                lemma_violation_views_push(before, v);
                assert(violation_views(violations@).subrange(0, i as int) =~= violation_views(
                    violations@,
                ).subrange(0, i - 1).push(v@));
                assert(violation_views(log@) =~= m.violations + violation_views(
                    violations@,
                ).subrange(0, i as int));
            }
        }
        assert(violation_views(violations@).subrange(0, n as int) =~= violation_views(
            violations@,
        ));
        self.violations = log;

        FfiSafetyCheckResult { is_safe: n == 0, violations, corrected_event: None }
    }

    /// Every violation on record, oldest first.
    pub fn get_violations(&self) -> (r: Vec<FfiSafetyViolation>)
        ensures
            violation_views(r@) == self@.violations,
    {
        let n = self.violations.len();
        let mut r: Vec<FfiSafetyViolation> = Vec::new();
        let mut i: usize = 0;
        while i < n
            invariant
                i <= n,
                n == self.violations@.len(),
                violation_views(r@) == self@.violations.subrange(0, i as int),
            decreases n - i,
        {
            let ghost before = r@;
            let v = self.violations[i].clone();
            r.push(v);
            i += 1;
            proof {
                lemma_violation_views_push(before, v);
                assert(violation_views(r@) =~= self@.violations.subrange(0, i as int));
            }
        }
        assert(self@.violations.subrange(0, n as int) =~= self@.violations);
        r
    }

    /// The number of violations on record.
    pub fn violation_count(&self) -> (n: usize)
        ensures
            n == self@.violations.len(),
    {
        self.violations.len()
    }

    /// The last `count` violations on record (all, where there are fewer),
    /// newest first.
    pub fn get_recent_violations(&self, count: u32) -> (r: Vec<FfiSafetyViolation>)
        ensures
            violation_views(r@) == recent(self@.violations, count as nat),
    {
        let len = self.violations.len();
        let n: usize = if (count as usize) < len {
            count as usize
        } else {
            len
        };
        let mut r: Vec<FfiSafetyViolation> = Vec::new();
        let mut i: usize = 0;
        while i < n
            invariant
                i <= n,
                n <= len,
                len == self.violations@.len(),
                r@.len() == i,
                forall|j: int|
                    0 <= j < i ==> (#[trigger] r@[j])@ == self@.violations[len - 1 - j],
            decreases n - i,
        {
            r.push(self.violations[len - 1 - i].clone());
            i += 1;
        }
        assert(violation_views(r@) =~= recent(self@.violations, count as nat));
        r
    }

    /// Empties the log of violations. The trace and the memory of the last
    /// tempo and pattern change stay.
    pub fn clear_violations(&mut self)
        ensures
            final(self)@ == (MonitorView {
                violations: Seq::<ViolationView>::empty(),
                ..old(self)@
            }),
    {
        proof {
            use_type_invariant(&*self);
        }
        self.violations = Vec::new();
        assert(violation_views(self.violations@) =~= Seq::<ViolationView>::empty());
    }

    /// The numbers of warnings, errors and critical violations on record,
    /// each modulo 2^32.
    pub fn get_violation_counts(&self) -> (r: (u32, u32, u32))
        ensures
            r.0 == count_severity(self@.violations, FfiViolationSeverity::Warning) % 0x1_0000_0000,
            r.1 == count_severity(self@.violations, FfiViolationSeverity::Error) % 0x1_0000_0000,
            r.2 == count_severity(self@.violations, FfiViolationSeverity::Critical)
                % 0x1_0000_0000,
    {
        let n = self.violations.len();
        let mut warnings: usize = 0;
        let mut errors: usize = 0;
        let mut criticals: usize = 0;
        let mut i: usize = 0;
        while i < n
            invariant
                i <= n,
                n == self.violations@.len(),
                warnings == count_severity(
                    self@.violations.subrange(0, i as int),
                    FfiViolationSeverity::Warning,
                ),
                errors == count_severity(
                    self@.violations.subrange(0, i as int),
                    FfiViolationSeverity::Error,
                ),
                criticals == count_severity(
                    self@.violations.subrange(0, i as int),
                    FfiViolationSeverity::Critical,
                ),
                warnings <= i,
                errors <= i,
                criticals <= i,
            decreases n - i,
        {
            proof {
                let next = self@.violations.subrange(0, i + 1);
                assert(next.drop_last() =~= self@.violations.subrange(0, i as int));
                assert(next.last() == self@.violations[i as int]);
            }
            match self.violations[i].severity {
                FfiViolationSeverity::Warning => {
                    warnings += 1;
                },
                FfiViolationSeverity::Error => {
                    errors += 1;
                },
                FfiViolationSeverity::Critical => {
                    criticals += 1;
                },
            }
            i += 1;
        }
        assert(self@.violations.subrange(0, n as int) =~= self@.violations);
        (low_word(warnings), low_word(errors), low_word(criticals))
    }

    /// Whether the state alone is safe, whatever the events: the tempo scale
    /// is in range and the safety lock is not engaged.
    pub fn is_safe(&self, runtime_state: FfiRuntimeState) -> (r: bool)
        ensures
            r == state_is_safe(checked_state(runtime_state)),
    {
        runtime_state.tempo_scale >= MIN_TEMPO && runtime_state.tempo_scale <= MAX_TEMPO
            && runtime_state.status != FfiRuntimeStatus::SafetyLock
    }
}

/// The low 32 bits of a count.
pub fn low_word(n: usize) -> (r: u32)
    ensures
        r == (n as int) % 0x1_0000_0000,
{
    ((n as u64) % 0x1_0000_0000u64) as u32
}


/// A concatenation blocks where one of its parts does.
pub proof fn lemma_any_blocking_concat(a: Seq<ViolationView>, b: Seq<ViolationView>)
    ensures
        any_blocking(a + b) == (any_blocking(a) || any_blocking(b)),
{
    if any_blocking(a) {
        let i = choose|i: int| 0 <= i < a.len() && severity_blocks(#[trigger] a[i].severity);
        assert((a + b)[i] == a[i]);
    }
    if any_blocking(b) {
        let i = choose|i: int| 0 <= i < b.len() && severity_blocks(#[trigger] b[i].severity);
        assert((a + b)[a.len() + i] == b[i]);
    }
    if any_blocking(a + b) {
        let i = choose|i: int|
            0 <= i < (a + b).len() && severity_blocks(#[trigger] (a + b)[i].severity);
        if i < a.len() {
            assert((a + b)[i] == a[i]);
        } else {
            assert((a + b)[i] == b[i - a.len()]);
        }
    }
}

/// A single conditional violation blocks where its condition holds and its
/// severity blocks.
pub proof fn lemma_any_blocking_raised_if(cond: bool, v: ViolationView)
    ensures
        any_blocking(raised_if(cond, v)) == (cond && severity_blocks(v.severity)),
{
    if cond {
        assert(raised_if(cond, v)[0] == v);
    }
}

/// Whether the state and the event make one of the three blocking
/// specifications fire: the tempo bounds, the safety lock, the panic halt.
pub open spec fn blocking_cause(m: MonitorView, e: EventView, s: CheckedState) -> bool {
    ||| tempo_out_of_bounds(s.tempo_scale)
    ||| (s.status == FfiRuntimeStatus::SafetyLock && e.event_type
        == FfiKernelEventType::StartSession)
    ||| (s.uncertainty > MAX_UNCERTAINTY && !has_recent_halt(push_bounded(m.trace, e))
        && e.event_type != FfiKernelEventType::EmergencyHalt)
}

/// An event is blocked exactly where the tempo bounds, the safety lock or
/// the panic halt fires. The tempo rate limit and pattern stability are
/// advisory: their violations are warnings and never block.
pub proof fn lemma_blocking_causes(m: MonitorView, e: EventView, s: CheckedState)
    ensures
        any_blocking(check_violations(m, e, s)) == blocking_cause(m, e, s),
{
    let a = check_tempo_bounds(e, s);
    let b = check_safety_lock(e, s);
    let c = check_tempo_rate(m, e, s);
    let d = check_pattern_stability(m, e);
    let f = check_panic_halt(m, e, s);
    lemma_any_blocking_concat(a, b);
    lemma_any_blocking_concat(a + b, c);
    lemma_any_blocking_concat(a + b + c, d);
    lemma_any_blocking_concat(a + b + c + d, f);
    lemma_any_blocking_raised_if(
        tempo_out_of_bounds(s.tempo_scale),
        tempo_bounds_violation(s.tempo_scale, e.timestamp_ms),
    );
    lemma_any_blocking_raised_if(
        s.status == FfiRuntimeStatus::SafetyLock && e.event_type
            == FfiKernelEventType::StartSession,
        safety_lock_violation(e.timestamp_ms),
    );
    let dt_ms = e.timestamp_ms - m.last_tempo_change_ms;
    lemma_any_blocking_raised_if(
        e.event_type == FfiKernelEventType::AdjustTempo && tempo_rate_exceeded(
            s.tempo_scale,
            m.last_tempo,
            dt_ms,
        ),
        tempo_rate_violation(tempo_rate(s.tempo_scale, m.last_tempo, dt_ms), e.timestamp_ms),
    );
    lemma_any_blocking_raised_if(
        e.event_type == FfiKernelEventType::LoadPattern && pattern_changed_too_soon(
            e.timestamp_ms,
            m.last_pattern_change_ms,
        ),
        pattern_stability_violation(
            since_pattern_change(e.timestamp_ms, m.last_pattern_change_ms),
            e.timestamp_ms,
        ),
    );
    lemma_any_blocking_raised_if(
        s.uncertainty > MAX_UNCERTAINTY && !has_recent_halt(push_bounded(m.trace, e))
            && e.event_type != FfiKernelEventType::EmergencyHalt,
        panic_halt_violation(e.timestamp_ms),
    );
}

/// Of two pattern changes less than the minimum interval apart, the second
/// raises the pattern-stability warning, whatever the times of the two are,
/// whatever else the two checks find and whatever the states are in which
/// they are made.
pub proof fn lemma_rapid_pattern_change_warns(
    m: MonitorView,
    first: EventView,
    second: EventView,
    s1: CheckedState,
    s2: CheckedState,
)
    requires
        first.event_type == FfiKernelEventType::LoadPattern,
        second.event_type == FfiKernelEventType::LoadPattern,
        second.timestamp_ms - first.timestamp_ms < MIN_PATTERN_INTERVAL_MS,
    ensures
        check_pattern_stability(check_next(m, first, s1), second) == seq![
            pattern_stability_violation(
                second.timestamp_ms - first.timestamp_ms,
                second.timestamp_ms,
            ),
        ],
        pattern_stability_violation(
            second.timestamp_ms - first.timestamp_ms,
            second.timestamp_ms,
        ).severity == FfiViolationSeverity::Warning,
        exists|i: int|
            0 <= i < check_violations(check_next(m, first, s1), second, s2).len()
                && #[trigger] check_violations(check_next(m, first, s1), second, s2)[i]
                == pattern_stability_violation(
                second.timestamp_ms - first.timestamp_ms,
                second.timestamp_ms,
            ),
{
    let m1 = check_next(m, first, s1);
    let v = pattern_stability_violation(
        second.timestamp_ms - first.timestamp_ms,
        second.timestamp_ms,
    );
    assert(check_pattern_stability(m1, second) =~= seq![v]);
    let head = check_tempo_bounds(second, s2) + check_safety_lock(second, s2) + check_tempo_rate(
        m1,
        second,
        s2,
    );
    let all = check_violations(m1, second, s2);
    assert(all =~= head + seq![v] + check_panic_halt(m1, second, s2));
    assert(all[head.len() as int] == v);
}

} // verus!
