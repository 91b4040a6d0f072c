//! The caller's side of the runtime.
//!
//! The handle holds what the session runtime published last. It answers the
//! queries from that, and turns each call into the command that is to be
//! put on the command queue. Putting it there, and waiting for the reply to
//! a stop request, is the caller's part.

use vstd::prelude::*;
use vstd::string::StringExecFns;
use crate::fixed::clamp_int;
use crate::patterns::{
    builtin_catalog, builtin_patterns, ffi_pattern_views, find_pattern, has_pattern,
    lemma_position_of, pattern_views, FfiBreathPattern,
};
use crate::runtime::{initial_actor, RuntimeActor, RuntimeCommand, TempoScale};
use crate::types::{
    empty_stats, FfiBeliefState, FfiFrame, FfiPhase, FfiRuntimeState,
    FfiRuntimeStatus, FfiSafetyStatus, FfiSessionStats, FrameView, RuntimeStateView,
    ZenOneError, MAX_TEMPO, MIN_TEMPO,
};

verus! {

/// The handle of the runtime.
pub struct ZenOneRuntime {
    state: FfiRuntimeState,
    latest_frame: FfiFrame,
}

/// Mathematical value of a [`ZenOneRuntime`]: the snapshot and the frame
/// that it holds.
pub struct HandleView {
    pub state: RuntimeStateView,
    pub frame: FrameView,
}

impl View for ZenOneRuntime {
    type V = HandleView;

    closed spec fn view(&self) -> HandleView {
        HandleView { state: self.state@, frame: self.latest_frame@ }
    }
}

/// Whether a session is active in the snapshot: running or paused.
pub open spec fn session_active(s: RuntimeStateView) -> bool {
    s.status == FfiRuntimeStatus::Running || s.status == FfiRuntimeStatus::Paused
}

impl ZenOneRuntime {
    /// The handle and the session runtime for the default pattern.
    pub fn new(phase: FfiPhase, belief: &FfiBeliefState) -> (r: (Self, RuntimeActor))
        ensures
            r.1@ == initial_actor("4-7-8"@, phase, belief@),
            r.0@.state == r.1@.published,
            r.0@.frame == r.1@.frame,
    {
        Self::with_pattern(String::from_str("4-7-8"), phase, belief)
    }

    /// The handle and the session runtime for the pattern `pattern_id`, the
    /// phase in which the phase machine starts and the belief with which the
    /// inference engine starts. The handle holds what the runtime has
    /// published at its start.
    pub fn with_pattern(pattern_id: String, phase: FfiPhase, belief: &FfiBeliefState) -> (r: (
        Self,
        RuntimeActor,
    ))
        ensures
            r.1@ == initial_actor(pattern_id@, phase, belief@),
            r.0@.state == r.1@.published,
            r.0@.frame == r.1@.frame,
    {
        let actor = RuntimeActor::new(pattern_id, phase, belief);
        let handle = ZenOneRuntime { state: actor.get_state(), latest_frame: actor.get_latest_frame() };
        (handle, actor)
    }

    /// Takes in a snapshot that the session runtime has published.
    pub fn publish_state(&mut self, state: FfiRuntimeState)
        ensures
            final(self)@ == (HandleView { state: state@, ..old(self)@ }),
    {
        self.state = state;
    }

    /// Takes in a frame that the session runtime has published.
    pub fn publish_frame(&mut self, frame: FfiFrame)
        ensures
            final(self)@ == (HandleView { frame: frame@, ..old(self)@ }),
    {
        self.latest_frame = frame;
    }

    /// All patterns of the catalog, in catalog order.
    pub fn get_patterns(&self) -> (r: Vec<FfiBreathPattern>)
        ensures
            ffi_pattern_views(r@) == builtin_catalog(),
    {
        let patterns = builtin_patterns();
        let n = patterns.len();
        let mut r: Vec<FfiBreathPattern> = Vec::new();
        let mut i: usize = 0;
        while i < n
            invariant
                i <= n,
                n == patterns@.len(),
                pattern_views(patterns@) == builtin_catalog(),
                ffi_pattern_views(r@) == builtin_catalog().subrange(0, i as int),
            decreases n - i,
        {
            let p = FfiBreathPattern::from(&patterns[i]);
            let ghost before = r@;
            let ghost value = p@;
            assert(value == pattern_views(patterns@)[i as int]);
            r.push(p);
            i += 1;
            proof {
                assert(ffi_pattern_views(r@) =~= ffi_pattern_views(before).push(value));
                assert(builtin_catalog().subrange(0, i as int) =~= builtin_catalog().subrange(
                    0,
                    i - 1,
                ).push(builtin_catalog()[i - 1]));
            }
        }
        assert(builtin_catalog().subrange(0, n as int) =~= builtin_catalog());
        r
    }

    /// The command that loads the pattern `pattern_id`; none where the
    /// catalog has no such pattern.
    pub fn load_pattern(&self, pattern_id: String) -> (r: Option<RuntimeCommand>)
        ensures
            r is Some <==> has_pattern(builtin_catalog(), pattern_id@),
            r matches Some(cmd) ==> cmd matches RuntimeCommand::LoadPattern(id) && id@
                == pattern_id@,
    {
        let patterns = builtin_patterns();
        proof {
            lemma_position_of(builtin_catalog(), pattern_id@);
        }
        match find_pattern(&patterns, &pattern_id) {
            Some(_) => Some(RuntimeCommand::LoadPattern(pattern_id)),
            None => None,
        }
    }

    /// The id of the pattern in the snapshot.
    pub fn current_pattern_id(&self) -> (r: String)
        ensures
            r@ == self@.state.pattern_id,
    {
        self.state.pattern_id.clone()
    }

    /// The command that starts a session, or a safety violation where the
    /// snapshot shows the safety lock engaged.
    pub fn start_session(&self) -> (r: Result<RuntimeCommand, ZenOneError>)
        ensures
            r is Err <==> self@.state.safety.is_locked,
            r matches Ok(cmd) ==> cmd is StartSession,
            r matches Err(e) ==> e matches ZenOneError::SafetyViolation(m) && m@
                == "Cannot start session while locked"@,
    {
        if self.state.safety.is_locked {
            return Err(
                ZenOneError::SafetyViolation(String::from_str("Cannot start session while locked")),
            );
        }
        Ok(RuntimeCommand::StartSession)
    }

    /// The command that stops the session.
    pub fn stop_session(&self) -> (r: RuntimeCommand)
        ensures
            r is StopSession,
    {
        RuntimeCommand::StopSession
    }

    /// What a stop returns to the caller: the statistics that came on the
    /// reply slot, or, where none came because the runtime is gone, the empty
    /// statistics with the belief of the snapshot.
    pub fn stop_result(&self, reply: Option<FfiSessionStats>) -> (r: FfiSessionStats)
        ensures
            r@ == match reply {
                Some(stats) => stats@,
                None => empty_stats(self@.state.belief),
            },
    {
        match reply {
            Some(stats) => stats,
            None => FfiSessionStats {
                duration_sec: 0,
                cycles_completed: 0,
                pattern_id: String::new(),
                avg_heart_rate: None,
                final_belief: self.get_belief(),
                avg_resonance: 0,
            },
        }
    }

    /// Whether the snapshot shows an active session: running or paused.
    pub fn is_session_active(&self) -> (r: bool)
        ensures
            r == session_active(self@.state),
    {
        self.state.status == FfiRuntimeStatus::Running || self.state.status
            == FfiRuntimeStatus::Paused
    }

    /// The command that pauses the session.
    pub fn pause_session(&self) -> (r: RuntimeCommand)
        ensures
            r is PauseSession,
    {
        RuntimeCommand::PauseSession
    }

    /// The command that resumes the session.
    pub fn resume_session(&self) -> (r: RuntimeCommand)
        ensures
            r is ResumeSession,
    {
        RuntimeCommand::ResumeSession
    }

    /// The command that clears the safety lock.
    pub fn reset_safety_lock(&self) -> (r: RuntimeCommand)
        ensures
            r is ResetSafetyLock,
    {
        RuntimeCommand::ResetSafetyLock
    }

    /// The command that submits a colour sample, and the latest frame, which
    /// the caller gets back at once.
    pub fn process_frame(&self, r: i64, g: i64, b: i64, timestamp_us: i64) -> (out: (
        RuntimeCommand,
        FfiFrame,
    ))
        ensures
            out.0 == (RuntimeCommand::ProcessFrame { r, g, b, timestamp_us }),
            out.1@ == self@.frame,
    {
        (RuntimeCommand::ProcessFrame { r, g, b, timestamp_us }, self.latest_frame.clone())
    }

    /// The command that advances the runtime by `dt_sec`, and the latest
    /// frame, which the caller gets back at once.
    pub fn tick(&self, dt_sec: i64, timestamp_us: i64) -> (out: (RuntimeCommand, FfiFrame))
        ensures
            out.0 == (RuntimeCommand::Tick { dt_sec, timestamp_us }),
            out.1@ == self@.frame,
    {
        (RuntimeCommand::Tick { dt_sec, timestamp_us }, self.latest_frame.clone())
    }

    /// The snapshot.
    pub fn get_state(&self) -> (r: FfiRuntimeState)
        ensures
            r@ == self@.state,
    {
        self.state.clone()
    }

    /// The belief summary of the snapshot.
    pub fn get_belief(&self) -> (r: FfiBeliefState)
        ensures
            r@ == self@.state.belief,
    {
        self.state.belief.clone()
    }

    /// The safety summary of the snapshot.
    pub fn get_safety_status(&self) -> (r: FfiSafetyStatus)
        ensures
            r@ == self@.state.safety,
    {
        self.state.safety.clone()
    }

    /// The tempo scale nearest to `scale` within the safe range, and the
    /// command that sets it. The tempo never leaves the range by this path,
    /// whatever is asked for. The reason is for the caller's log.
    pub fn adjust_tempo(&self, scale: i64, _reason: String) -> (r: Result<
        (i64, RuntimeCommand),
        ZenOneError,
    >)
        ensures
            r matches Ok(out) && out.0 == clamp_int(scale as int, MIN_TEMPO as int, MAX_TEMPO as int)
                && MIN_TEMPO <= out.0 <= MAX_TEMPO && (out.1 matches RuntimeCommand::AdjustTempo(t)
                && t@ == out.0),
    {
        let clamped = TempoScale::clamped(scale);
        Ok((clamped.get(), RuntimeCommand::AdjustTempo(clamped)))
    }

    /// The command that forwards the context to the inference engine.
    pub fn update_context(&self, local_hour: u8, is_charging: bool, recent_sessions: u16) -> (r:
        RuntimeCommand)
        ensures
            r == (RuntimeCommand::UpdateContext { local_hour, is_charging, recent_sessions }),
    {
        RuntimeCommand::UpdateContext { local_hour, is_charging, recent_sessions }
    }

    /// The command that halts the runtime and engages the safety lock.
    pub fn emergency_halt(&self, reason: String) -> (r: RuntimeCommand)
        ensures
            r matches RuntimeCommand::EmergencyHalt(m) && m@ == reason@,
    {
        RuntimeCommand::EmergencyHalt(reason)
    }
}

} // verus!
