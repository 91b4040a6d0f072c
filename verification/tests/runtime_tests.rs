use std::time::Instant;
use zenone_core::patterns::PhaseDurations;
use zenone_core::runtime::{
    durations_for, mean_of, Clock, Observation, RuntimeActor, RuntimeCommand, RuntimeEffect,
    SignalAction, SignalCommand, SignalEvent, TempoScale,
};
use zenone_core::{FfiBeliefMode, FfiBeliefState, FfiKernelEventType, FfiPhase, FfiRuntimeStatus};

fn confident() -> FfiBeliefState {
    FfiBeliefState::from_belief_array(&[600_000, 100_000, 100_000, 100_000, 100_000], 900_000)
}

fn observe(phase: FfiPhase, progress: i64, cycles: u64) -> Observation {
    Observation { phase, phase_progress: progress, cycles_completed: cycles, belief: confident() }
}

fn first() -> Observation {
    observe(FfiPhase::Inhale, 0, 0)
}

fn clock(now_ms: i64, session_elapsed: i64) -> Clock {
    Clock { now_ms, instant: Instant::now(), session_elapsed }
}

fn actor(pattern: &str) -> RuntimeActor {
    RuntimeActor::new(pattern.to_string(), FfiPhase::Inhale, &confident())
}

/// Makes the step and publishes where the step asks for it.
fn run(a: &mut RuntimeActor, cmd: RuntimeCommand, obs: &Observation, c: Clock) -> Vec<RuntimeEffect> {
    let elapsed = c.session_elapsed;
    let effects = a.handle_command_at(cmd, obs, c);
    for e in &effects {
        match e {
            RuntimeEffect::PublishState => a.update_shared_state_at(obs, elapsed),
            RuntimeEffect::PublishFrame { heart_rate, signal_quality } => {
                a.update_latest_frame(obs, *heart_rate, *signal_quality)
            }
            _ => {}
        }
    }
    effects
}

fn halt(a: &mut RuntimeActor) {
    run(a, RuntimeCommand::EmergencyHalt("test".to_string()), &first(), clock(1, 0));
}

#[test]
fn a_fresh_runtime_is_idle() {
    let a = actor("box");
    let s = a.get_state();
    assert_eq!(s.status, FfiRuntimeStatus::Idle);
    assert_eq!(s.pattern_id, "box");
    assert_eq!(s.phase, FfiPhase::Inhale);
    assert_eq!((s.phase_progress, s.cycles_completed, s.session_duration_sec), (0, 0, 0));
    assert_eq!(s.tempo_scale, 1_000_000);
    assert_eq!(s.belief.mode, FfiBeliefMode::Calm);
    assert_eq!(s.belief.confidence, 900_000);
    assert_eq!((s.resonance.coherence_score, s.resonance.phase_locking, s.resonance.rhythm_alignment), (0, 0, 0));
    assert!(!s.safety.is_locked);
    assert_eq!(s.safety.trauma_count, 0);
    assert_eq!(s.safety.tempo_bounds, vec![800_000, 1_400_000]);
    assert_eq!(s.safety.hr_bounds, vec![30_000_000, 220_000_000]);
    let f = a.get_latest_frame();
    assert_eq!((f.phase, f.phase_progress, f.cycles_completed), (FfiPhase::Inhale, 0, 0));
    assert_eq!((f.heart_rate, f.signal_quality), (None, 0));
}

#[test]
fn start_resets_the_collaborators_and_runs() {
    let mut a = actor("box");
    let effects = run(&mut a, RuntimeCommand::StartSession, &first(), clock(1_000, 0));
    assert_eq!(effects.len(), 3);
    assert!(matches!(
        effects[0],
        RuntimeEffect::ResetPhaseMachine(PhaseDurations {
            inhale_us: 4_000_000,
            hold_in_us: 4_000_000,
            exhale_us: 4_000_000,
            hold_out_us: 4_000_000
        })
    ));
    assert!(matches!(effects[1], RuntimeEffect::Signal(SignalCommand::Reset)));
    assert!(matches!(effects[2], RuntimeEffect::PublishState));
    assert_eq!(a.get_state().status, FfiRuntimeStatus::Running);
}

#[test]
fn start_with_an_unknown_pattern_uses_the_default_timings() {
    let mut a = actor("no-such-pattern");
    let effects = run(&mut a, RuntimeCommand::StartSession, &first(), clock(1_000, 0));
    assert!(matches!(
        effects[0],
        RuntimeEffect::ResetPhaseMachine(PhaseDurations {
            inhale_us: 4_000_000,
            hold_in_us: 7_000_000,
            exhale_us: 8_000_000,
            hold_out_us: 0
        })
    ));
    assert_eq!(a.get_state().pattern_id, "4-7-8");
    assert_eq!(
        durations_for(&"zzz".to_string()),
        PhaseDurations { inhale_us: 4_000_000, hold_in_us: 7_000_000, exhale_us: 8_000_000, hold_out_us: 0 }
    );
    assert_eq!(durations_for(&"awake".to_string()).exhale_us, 2_000_000);
}

#[test]
fn start_while_locked_changes_nothing() {
    let mut a = actor("box");
    halt(&mut a);
    assert_eq!(a.get_state().status, FfiRuntimeStatus::SafetyLock);
    assert!(a.get_state().safety.is_locked);
    let effects = run(&mut a, RuntimeCommand::StartSession, &first(), clock(2_000, 0));
    // the verifier blocks: nothing but a publication, which shows the violation
    assert_eq!(effects.len(), 1);
    assert!(matches!(effects[0], RuntimeEffect::PublishState));
    let s = a.get_state();
    assert_eq!(s.status, FfiRuntimeStatus::SafetyLock);
    assert!(s.safety.is_locked);
    assert_eq!(s.safety.trauma_count, 1);
}

#[test]
fn start_is_refused_by_the_lock_where_the_snapshot_is_stale() {
    let mut a = actor("box");
    // the halt is made but not published: the verifier still sees an idle runtime
    a.handle_command_at(RuntimeCommand::EmergencyHalt("x".to_string()), &first(), clock(1, 0));
    assert_eq!(a.get_state().status, FfiRuntimeStatus::Idle);
    let effects = a.handle_command_at(RuntimeCommand::StartSession, &first(), clock(2, 0));
    assert!(effects.is_empty());
    a.update_shared_state_at(&first(), 0);
    let s = a.get_state();
    assert_eq!(s.status, FfiRuntimeStatus::SafetyLock);
    assert_eq!(s.safety.trauma_count, 0);
}

#[test]
fn stop_without_a_session_replies_with_empty_statistics() {
    let mut a = actor("box");
    let effects = run(&mut a, RuntimeCommand::StopSession, &observe(FfiPhase::Exhale, 500_000, 9), clock(5, 77));
    assert_eq!(effects.len(), 2);
    let replies = effects.iter().filter(|e| matches!(e, RuntimeEffect::Reply(_))).count();
    assert_eq!(replies, 1);
    match &effects[0] {
        RuntimeEffect::Reply(stats) => {
            assert_eq!(stats.duration_sec, 0);
            assert_eq!(stats.cycles_completed, 0);
            assert_eq!(stats.pattern_id, "");
            assert_eq!(stats.avg_heart_rate, None);
            assert_eq!(stats.avg_resonance, 0);
            assert_eq!(stats.final_belief.confidence, 900_000);
        }
        other => panic!("expected a reply, got {:?}", other),
    }
    assert!(matches!(effects[1], RuntimeEffect::PublishState));
    assert_eq!(a.get_state().status, FfiRuntimeStatus::Idle);
}

#[test]
fn stop_reports_the_session() {
    let mut a = actor("calm");
    run(&mut a, RuntimeCommand::StartSession, &first(), clock(1_000, 0));
    for hr in [60_000_000i64, 61_000_000, 65_000_000] {
        let effects = a.handle_signal_event(SignalEvent::Result { hr, confidence: 800_000, timestamp_us: 1 });
        assert_eq!(effects.len(), 1);
        assert!(matches!(
            effects[0],
            RuntimeEffect::PublishFrame { heart_rate: Some(h), signal_quality: 800_000 } if h == hr
        ));
    }
    let effects = run(
        &mut a,
        RuntimeCommand::StopSession,
        &observe(FfiPhase::HoldIn, 250_000, 7),
        clock(90_000, 89_000_000),
    );
    match &effects[0] {
        RuntimeEffect::Reply(stats) => {
            assert_eq!(stats.duration_sec, 89_000_000);
            assert_eq!(stats.cycles_completed, 7);
            assert_eq!(stats.pattern_id, "calm");
            assert_eq!(stats.avg_heart_rate, Some(62_000_000));
            assert_eq!(stats.avg_resonance, 0);
        }
        other => panic!("expected a reply, got {:?}", other),
    }
    let s = a.get_state();
    assert_eq!(s.status, FfiRuntimeStatus::Idle);
    assert_eq!(s.session_duration_sec, 0);
    assert_eq!(s.cycles_completed, 7);
    // a second stop finds no session
    let effects = run(&mut a, RuntimeCommand::StopSession, &first(), clock(91_000, 0));
    match &effects[0] {
        RuntimeEffect::Reply(stats) => assert_eq!((stats.duration_sec, stats.pattern_id.as_str()), (0, "")),
        other => panic!("expected a reply, got {:?}", other),
    }
}

#[test]
fn signal_results_without_a_session_only_publish_a_frame() {
    let mut a = actor("box");
    let effects = a.handle_signal_event(SignalEvent::Result { hr: 72_000_000, confidence: 500_000, timestamp_us: 3 });
    assert_eq!(effects.len(), 1);
    a.update_latest_frame(&observe(FfiPhase::Exhale, 10, 2), Some(72_000_000), 500_000);
    let f = a.get_latest_frame();
    assert_eq!((f.phase, f.phase_progress, f.cycles_completed), (FfiPhase::Exhale, 10, 2));
    assert_eq!((f.heart_rate, f.signal_quality), (Some(72_000_000), 500_000));
    // the snapshot is untouched
    assert_eq!(a.get_state().cycles_completed, 0);
}

#[test]
fn mean_rounds_toward_zero() {
    assert_eq!(mean_of(&vec![]), 0);
    assert_eq!(mean_of(&vec![5]), 5);
    assert_eq!(mean_of(&vec![1, 2]), 1);
    assert_eq!(mean_of(&vec![-1, -2]), -1);
    assert_eq!(mean_of(&vec![i64::MAX, i64::MAX, i64::MAX]), i64::MAX);
    assert_eq!(mean_of(&vec![i64::MIN, i64::MAX]), 0);
}

#[test]
fn pause_and_resume_follow_the_status() {
    let mut a = actor("box");
    // nothing to pause or resume while idle
    assert!(run(&mut a, RuntimeCommand::PauseSession, &first(), clock(1, 0)).is_empty());
    assert!(run(&mut a, RuntimeCommand::ResumeSession, &first(), clock(2, 0)).is_empty());
    assert_eq!(a.get_state().status, FfiRuntimeStatus::Idle);
    run(&mut a, RuntimeCommand::StartSession, &first(), clock(3, 0));
    assert!(run(&mut a, RuntimeCommand::ResumeSession, &first(), clock(4, 0)).is_empty());
    let effects = run(&mut a, RuntimeCommand::PauseSession, &first(), clock(5, 0));
    assert_eq!(effects.len(), 1);
    assert_eq!(a.get_state().status, FfiRuntimeStatus::Paused);
    assert!(run(&mut a, RuntimeCommand::PauseSession, &first(), clock(6, 0)).is_empty());
    run(&mut a, RuntimeCommand::ResumeSession, &first(), clock(7, 0));
    assert_eq!(a.get_state().status, FfiRuntimeStatus::Running);
}

#[test]
fn load_pattern_takes_a_known_id() {
    let mut a = actor("box");
    let effects = run(&mut a, RuntimeCommand::LoadPattern("awake".to_string()), &first(), clock(1_000, 0));
    assert_eq!(effects.len(), 2);
    assert!(matches!(
        effects[0],
        RuntimeEffect::ResetPhaseMachine(PhaseDurations {
            inhale_us: 2_000_000,
            hold_in_us: 0,
            exhale_us: 2_000_000,
            hold_out_us: 0
        })
    ));
    assert_eq!(a.get_state().pattern_id, "awake");
    // an unknown id changes nothing and publishes nothing
    let effects = run(&mut a, RuntimeCommand::LoadPattern("nope".to_string()), &first(), clock(100_000, 0));
    assert!(effects.is_empty());
    assert_eq!(a.get_state().pattern_id, "awake");
}

#[test]
fn two_quick_pattern_loads_both_take_effect_with_a_warning() {
    let mut a = actor("box");
    run(&mut a, RuntimeCommand::LoadPattern("calm".to_string()), &first(), clock(10_000, 0));
    assert_eq!(a.get_state().pattern_id, "calm");
    assert_eq!(a.get_state().safety.trauma_count, 0);
    let effects = run(&mut a, RuntimeCommand::LoadPattern("7-11".to_string()), &first(), clock(25_000, 0));
    assert_eq!(effects.len(), 2);
    let s = a.get_state();
    assert_eq!(s.pattern_id, "7-11");
    assert_eq!(s.safety.trauma_count, 1);
}

#[test]
fn load_pattern_is_refused_while_locked() {
    let mut a = actor("box");
    halt(&mut a);
    let effects = run(&mut a, RuntimeCommand::LoadPattern("calm".to_string()), &first(), clock(5_000, 0));
    assert!(effects.is_empty());
    assert_eq!(a.get_state().pattern_id, "box");
}

#[test]
fn emergency_halt_locks_and_is_idempotent() {
    let mut a = actor("box");
    run(&mut a, RuntimeCommand::StartSession, &first(), clock(1, 0));
    let effects = run(&mut a, RuntimeCommand::EmergencyHalt("sensor fault".to_string()), &first(), clock(2, 5));
    assert_eq!(effects.len(), 1);
    assert!(matches!(effects[0], RuntimeEffect::PublishState));
    let once = a.get_state();
    assert_eq!(once.status, FfiRuntimeStatus::SafetyLock);
    assert!(once.safety.is_locked);
    run(&mut a, RuntimeCommand::EmergencyHalt("again".to_string()), &first(), clock(3, 5));
    let twice = a.get_state();
    assert_eq!(twice.status, once.status);
    assert_eq!(twice.safety.is_locked, once.safety.is_locked);
    assert_eq!(twice.pattern_id, once.pattern_id);
    assert_eq!(twice.tempo_scale, once.tempo_scale);
    assert_eq!(twice.session_duration_sec, once.session_duration_sec);
    assert_eq!(twice.safety.trauma_count, once.safety.trauma_count);
}

#[test]
fn reset_clears_the_lock_and_the_session() {
    let mut a = actor("box");
    run(&mut a, RuntimeCommand::StartSession, &first(), clock(1, 0));
    halt(&mut a);
    let effects = run(&mut a, RuntimeCommand::ResetSafetyLock, &first(), clock(3, 40));
    assert_eq!(effects.len(), 1);
    let s = a.get_state();
    assert_eq!(s.status, FfiRuntimeStatus::Idle);
    assert!(!s.safety.is_locked);
    assert_eq!(s.session_duration_sec, 0);
    // the session is gone: a stop finds none
    let effects = run(&mut a, RuntimeCommand::StopSession, &first(), clock(4, 50));
    match &effects[0] {
        RuntimeEffect::Reply(stats) => assert_eq!(stats.duration_sec, 0),
        other => panic!("expected a reply, got {:?}", other),
    }
    // and a start goes through again
    run(&mut a, RuntimeCommand::StartSession, &first(), clock(5, 0));
    assert_eq!(a.get_state().status, FfiRuntimeStatus::Running);
}

#[test]
fn stop_under_the_lock_leaves_the_lock_engaged() {
    let mut a = actor("box");
    run(&mut a, RuntimeCommand::StartSession, &first(), clock(1, 0));
    halt(&mut a);
    assert!(a.is_locked());
    let effects = run(&mut a, RuntimeCommand::StopSession, &first(), clock(2, 30));
    // the stop is answered all the same, and the session is gone
    assert_eq!(effects.len(), 2);
    match &effects[0] {
        RuntimeEffect::Reply(stats) => {
            assert_eq!(stats.pattern_id, "box");
            assert_eq!(stats.duration_sec, 30);
        }
        other => panic!("expected a reply, got {:?}", other),
    }
    let s = a.get_state();
    assert_eq!(s.status, FfiRuntimeStatus::SafetyLock);
    assert!(s.safety.is_locked);
    assert_eq!(s.session_duration_sec, 0);
    assert!(a.is_locked());
    // the verifier still sees the lock and blocks a start
    let effects = run(&mut a, RuntimeCommand::StartSession, &first(), clock(3, 0));
    assert_eq!(effects.len(), 1);
    assert!(matches!(effects[0], RuntimeEffect::PublishState));
    let s = a.get_state();
    assert_eq!(s.status, FfiRuntimeStatus::SafetyLock);
    assert_eq!(s.safety.trauma_count, 1);
    // pause and resume do nothing under the lock
    assert!(run(&mut a, RuntimeCommand::PauseSession, &first(), clock(4, 0)).is_empty());
    assert!(run(&mut a, RuntimeCommand::ResumeSession, &first(), clock(5, 0)).is_empty());
    assert_eq!(a.get_state().status, FfiRuntimeStatus::SafetyLock);
    // only the reset clears it
    run(&mut a, RuntimeCommand::ResetSafetyLock, &first(), clock(6, 0));
    assert!(!a.is_locked());
    assert_eq!(a.get_state().status, FfiRuntimeStatus::Idle);
    assert!(!a.get_state().safety.is_locked);
}

#[test]
fn the_status_shows_the_lock_after_every_step() {
    let mut a = actor("box");
    let steps: Vec<RuntimeCommand> = vec![
        RuntimeCommand::StartSession,
        RuntimeCommand::PauseSession,
        RuntimeCommand::EmergencyHalt("one".to_string()),
        RuntimeCommand::ResumeSession,
        RuntimeCommand::StopSession,
        RuntimeCommand::LoadPattern("calm".to_string()),
        RuntimeCommand::Tick { dt_sec: 1_000_000, timestamp_us: 1 },
        RuntimeCommand::ResetSafetyLock,
        RuntimeCommand::StartSession,
        RuntimeCommand::StopSession,
    ];
    let mut now = 0;
    for cmd in steps {
        now += 1_000;
        run(&mut a, cmd, &first(), clock(now, 0));
        a.update_shared_state_at(&first(), 0);
        let s = a.get_state();
        assert_eq!(s.safety.is_locked, s.status == FfiRuntimeStatus::SafetyLock);
        assert_eq!(a.is_locked(), s.safety.is_locked);
    }
    assert_eq!(a.get_state().status, FfiRuntimeStatus::Idle);
}

#[test]
fn adjust_tempo_sets_the_scale() {
    let mut a = actor("box");
    let effects = run(&mut a, RuntimeCommand::AdjustTempo(TempoScale::clamped(1_050_000)), &first(), clock(1_000, 0));
    assert_eq!(effects.len(), 1);
    assert_eq!(a.get_state().tempo_scale, 1_050_000);
    assert_eq!(a.get_state().safety.trauma_count, 0);
}

#[test]
fn tempo_stays_in_bounds_whatever_is_asked() {
    let mut a = actor("box");
    let mut now = 0;
    for asked in [i64::MIN, -1, 0, 799_999, 800_000, 1_000_000, 1_400_000, 1_400_001, 5_000_000, i64::MAX] {
        now += 100_000;
        let scale = TempoScale::clamped(asked);
        assert_eq!(scale.get(), asked.clamp(800_000, 1_400_000));
        run(&mut a, RuntimeCommand::AdjustTempo(scale), &first(), clock(now, 0));
        let s = a.get_state();
        assert_eq!(s.tempo_scale, asked.clamp(800_000, 1_400_000));
        assert!(800_000 <= s.tempo_scale && s.tempo_scale <= 1_400_000);
    }
}

#[test]
fn a_fast_tempo_change_warns_and_still_takes_effect() {
    let mut a = actor("box");
    run(&mut a, RuntimeCommand::AdjustTempo(TempoScale::clamped(1_400_000)), &first(), clock(1_000, 0));
    // the verifier reads the published tempo, which is still 1.0 at the first check
    assert_eq!(a.get_state().safety.trauma_count, 0);
    run(&mut a, RuntimeCommand::AdjustTempo(TempoScale::clamped(800_000)), &first(), clock(2_000, 0));
    let s = a.get_state();
    assert_eq!(s.tempo_scale, 800_000);
    assert_eq!(s.safety.trauma_count, 1);
}

#[test]
fn high_uncertainty_blocks_gated_commands() {
    let unsure = FfiBeliefState::default();
    let mut a = RuntimeActor::new("box".to_string(), FfiPhase::Inhale, &unsure);
    let obs = Observation { phase: FfiPhase::Inhale, phase_progress: 0, cycles_completed: 0, belief: unsure };
    let effects = run(&mut a, RuntimeCommand::StartSession, &obs, clock(1, 0));
    assert_eq!(effects.len(), 1);
    assert!(matches!(effects[0], RuntimeEffect::PublishState));
    let s = a.get_state();
    assert_eq!(s.status, FfiRuntimeStatus::Idle);
    assert_eq!(s.safety.trauma_count, 1);
    run(&mut a, RuntimeCommand::AdjustTempo(TempoScale::clamped(1_200_000)), &obs, clock(2, 0));
    assert_eq!(a.get_state().tempo_scale, 1_000_000);
    run(&mut a, RuntimeCommand::LoadPattern("calm".to_string()), &obs, clock(3, 0));
    assert_eq!(a.get_state().pattern_id, "box");
    // ungated commands go through
    run(&mut a, RuntimeCommand::EmergencyHalt("unsure".to_string()), &obs, clock(4, 0));
    assert_eq!(a.get_state().status, FfiRuntimeStatus::SafetyLock);
}

#[test]
fn tick_advances_and_publishes() {
    let mut a = actor("box");
    let obs = observe(FfiPhase::HoldIn, 300_000, 4);
    let effects = run(&mut a, RuntimeCommand::Tick { dt_sec: 16_667, timestamp_us: 123 }, &obs, clock(1, 0));
    assert_eq!(effects.len(), 3);
    assert!(matches!(effects[0], RuntimeEffect::Advance(16_667)));
    assert!(matches!(effects[1], RuntimeEffect::PublishState));
    assert!(matches!(effects[2], RuntimeEffect::PublishFrame { heart_rate: None, signal_quality: 0 }));
    let s = a.get_state();
    assert_eq!((s.phase, s.phase_progress, s.cycles_completed), (FfiPhase::HoldIn, 300_000, 4));
    let f = a.get_latest_frame();
    assert_eq!((f.phase, f.cycles_completed, f.heart_rate), (FfiPhase::HoldIn, 4, None));
    // a negative step advances by nothing
    let effects = run(&mut a, RuntimeCommand::Tick { dt_sec: -5, timestamp_us: 124 }, &obs, clock(2, 0));
    assert!(matches!(effects[0], RuntimeEffect::Advance(0)));
}

#[test]
fn samples_between_ticks_leave_the_snapshot_alone() {
    let mut a = actor("box");
    run(&mut a, RuntimeCommand::StartSession, &first(), clock(1, 0));
    let mut last_cycles = 0;
    for step in 0..20u64 {
        let cmd = RuntimeCommand::ProcessFrame { r: 100, g: 200, b: 300, timestamp_us: step as i64 };
        let before = a.get_state();
        let effects = run(&mut a, cmd, &observe(FfiPhase::Exhale, 1, 999), clock(2, 0));
        assert_eq!(effects.len(), 1);
        assert!(matches!(
            effects[0],
            RuntimeEffect::Signal(SignalCommand::ProcessSample { r: 100, g: 200, b: 300, .. })
        ));
        let after = a.get_state();
        assert_eq!((after.phase, after.cycles_completed), (before.phase, before.cycles_completed));
        let obs = observe(FfiPhase::Inhale, 0, step / 3);
        run(&mut a, RuntimeCommand::Tick { dt_sec: 1_000_000, timestamp_us: step as i64 }, &obs, clock(3, 0));
        let s = a.get_state();
        assert_eq!(s.cycles_completed, step / 3);
        assert!(s.cycles_completed >= last_cycles);
        last_cycles = s.cycles_completed;
    }
}

#[test]
fn update_context_is_forwarded() {
    let mut a = actor("box");
    let cmd = RuntimeCommand::UpdateContext { local_hour: 22, is_charging: true, recent_sessions: 3 };
    let effects = run(&mut a, cmd, &first(), clock(1, 0));
    assert_eq!(effects.len(), 2);
    assert!(matches!(
        effects[0],
        RuntimeEffect::UpdateContext { local_hour: 22, is_charging: true, recent_sessions: 3 }
    ));
    assert!(matches!(effects[1], RuntimeEffect::PublishState));
}

#[test]
fn update_config_does_nothing() {
    let mut a = actor("box");
    let effects = run(&mut a, RuntimeCommand::UpdateConfig("{}".to_string()), &first(), clock(1, 0));
    assert!(effects.is_empty());
}

#[test]
fn session_duration_is_published_while_a_session_runs() {
    let mut a = actor("box");
    a.update_shared_state_at(&first(), 5_000_000);
    assert_eq!(a.get_state().session_duration_sec, 0);
    run(&mut a, RuntimeCommand::StartSession, &first(), clock(1, 0));
    a.update_shared_state_at(&first(), 5_000_000);
    assert_eq!(a.get_state().session_duration_sec, 5_000_000);
}

#[test]
fn verify_command_reports_whether_the_command_may_go_ahead() {
    let mut a = actor("box");
    assert!(a.verify_command_at(FfiKernelEventType::StartSession, None, 1));
    assert!(a.verify_command_at(FfiKernelEventType::LoadPattern, Some("calm".to_string()), 10_000));
    // a warning does not block
    assert!(a.verify_command_at(FfiKernelEventType::LoadPattern, Some("box".to_string()), 11_000));
    a.update_shared_state_at(&first(), 0);
    assert_eq!(a.get_state().safety.trauma_count, 1);
    halt(&mut a);
    assert!(!a.verify_command_at(FfiKernelEventType::StartSession, None, 12_000));
    assert!(a.verify_command_at(FfiKernelEventType::Tick, None, 12_001));
}

#[test]
fn the_clocks_are_read_for_a_live_step() {
    let mut a = actor("box");
    let effects = a.handle_command(RuntimeCommand::StartSession, &first());
    assert_eq!(effects.len(), 3);
    a.update_shared_state(&first());
    let s = a.get_state();
    assert_eq!(s.status, FfiRuntimeStatus::Running);
    assert!(s.session_duration_sec >= 0);
    let c = a.read_clock();
    // later than the first of January 2020
    assert!(c.now_ms > 1_577_836_800_000);
    assert!(c.session_elapsed >= 0);
    assert!(a.verify_command(FfiKernelEventType::Tick, None));
    let effects = a.handle_command(RuntimeCommand::StopSession, &first());
    match &effects[0] {
        RuntimeEffect::Reply(stats) => {
            assert!(stats.duration_sec >= 0);
            assert_eq!(stats.pattern_id, "box");
        }
        other => panic!("expected a reply, got {:?}", other),
    }
}

#[test]
fn signal_worker_decisions() {
    let sample = SignalCommand::ProcessSample { r: 1, g: 2, b: 3, timestamp_us: 44 };
    assert_eq!(sample.action(), SignalAction::Extract { r: 1, g: 2, b: 3 });
    assert_eq!(SignalCommand::Reset.action(), SignalAction::ResetExtractor);
    assert_eq!(
        sample.result(Some((61_500_000, 870_000))),
        Some(SignalEvent::Result { hr: 61_500_000, confidence: 870_000, timestamp_us: 44 })
    );
    assert_eq!(sample.result(None), None);
    assert_eq!(SignalCommand::Reset.result(Some((60_000_000, 1_000_000))), None);
}

#[test]
fn no_session_no_elapsed_time() {
    let a = actor("box");
    assert_eq!(a.read_clock().session_elapsed, 0);
    let mut a = actor("box");
    a.handle_command(RuntimeCommand::StartSession, &first());
    a.handle_command(RuntimeCommand::ResetSafetyLock, &first());
    assert_eq!(a.read_clock().session_elapsed, 0);
}

#[test]
fn microseconds_are_capped() {
    use_cap(0, 0);
    use_cap(1_500_000, 1_500_000);
    use_cap(i64::MAX as u128, i64::MAX);
    use_cap(i64::MAX as u128 + 1, i64::MAX);
    use_cap(u128::MAX, i64::MAX);
}

fn use_cap(us: u128, expected: i64) {
    assert_eq!(zenone_core::clock::cap_micros(us), expected);
}
