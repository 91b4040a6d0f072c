use zenone_core::runtime::{Observation, RuntimeCommand, RuntimeEffect};
use zenone_core::{FfiBeliefState, FfiPhase, FfiRuntimeStatus, FfiSessionStats, ZenOneError, ZenOneRuntime};

fn confident() -> FfiBeliefState {
    FfiBeliefState::from_belief_array(&[100_000, 100_000, 600_000, 100_000, 100_000], 850_000)
}

fn obs() -> Observation {
    Observation { phase: FfiPhase::Inhale, phase_progress: 0, cycles_completed: 0, belief: confident() }
}

#[test]
fn a_new_handle_shows_the_default_pattern() {
    let (handle, actor) = ZenOneRuntime::new(FfiPhase::Inhale, &confident());
    assert_eq!(handle.current_pattern_id(), "4-7-8");
    assert_eq!(actor.get_state().pattern_id, "4-7-8");
    assert!(!handle.is_session_active());
    let s = handle.get_state();
    assert_eq!(s.status, FfiRuntimeStatus::Idle);
    assert_eq!(s.tempo_scale, 1_000_000);
    assert_eq!(handle.get_belief().confidence, 850_000);
    assert_eq!(handle.get_belief().uncertainty, 150_000);
    assert!(!handle.get_safety_status().is_locked);
    assert_eq!(handle.get_safety_status().tempo_bounds, vec![800_000, 1_400_000]);
}

#[test]
fn with_pattern_takes_a_known_id() {
    let (handle, _) = ZenOneRuntime::with_pattern("coherence".to_string(), FfiPhase::Exhale, &confident());
    assert_eq!(handle.current_pattern_id(), "coherence");
    assert_eq!(handle.get_state().phase, FfiPhase::Exhale);
}

#[test]
fn with_pattern_falls_back_to_the_default_id() {
    let (handle, actor) = ZenOneRuntime::with_pattern("nope".to_string(), FfiPhase::Inhale, &confident());
    assert_eq!(handle.current_pattern_id(), "4-7-8");
    assert_eq!(actor.get_state().pattern_id, "4-7-8");
    let s = handle.get_state();
    assert_eq!(s.status, FfiRuntimeStatus::Idle);
    assert_eq!(s.tempo_scale, 1_000_000);
    assert_eq!((s.cycles_completed, s.session_duration_sec), (0, 0));
    assert!(!s.safety.is_locked);
    assert_eq!(s.safety.tempo_bounds, vec![800_000, 1_400_000]);
    assert!(!handle.is_session_active());
    let (handle, _) = ZenOneRuntime::with_pattern(String::new(), FfiPhase::Inhale, &confident());
    assert_eq!(handle.current_pattern_id(), "4-7-8");
}

#[test]
fn get_patterns_lists_the_catalog() {
    let (handle, _) = ZenOneRuntime::new(FfiPhase::Inhale, &confident());
    let patterns = handle.get_patterns();
    let ids: Vec<&str> = patterns.iter().map(|p| p.id.as_str()).collect();
    assert_eq!(
        ids,
        vec![
            "4-7-8", "calm", "7-11", "deep-relax", "box", "coherence", "triangle", "tactical", "awake",
            "buteyko", "wim-hof"
        ]
    );
    assert_eq!(patterns[4].label, "Box Breathing");
    assert_eq!(patterns[4].hold_out_sec, 4_000_000);
}

#[test]
fn load_pattern_gives_a_command_for_a_known_id_only() {
    let (handle, _) = ZenOneRuntime::new(FfiPhase::Inhale, &confident());
    match handle.load_pattern("box".to_string()) {
        Some(RuntimeCommand::LoadPattern(id)) => assert_eq!(id, "box"),
        other => panic!("expected a load command, got {:?}", other),
    }
    assert!(handle.load_pattern("nope".to_string()).is_none());
    assert!(handle.load_pattern(String::new()).is_none());
}

#[test]
fn start_session_is_refused_while_locked() {
    let (mut handle, mut actor) = ZenOneRuntime::new(FfiPhase::Inhale, &confident());
    assert!(matches!(handle.start_session(), Ok(RuntimeCommand::StartSession)));
    let halt = handle.emergency_halt("fault".to_string());
    assert!(matches!(&halt, RuntimeCommand::EmergencyHalt(r) if r == "fault"));
    let effects = actor.handle_command(halt, &obs());
    assert!(matches!(effects[0], RuntimeEffect::PublishState));
    actor.update_shared_state(&obs());
    handle.publish_state(actor.get_state());
    match handle.start_session() {
        Err(ZenOneError::SafetyViolation(m)) => assert_eq!(m, "Cannot start session while locked"),
        other => panic!("expected a safety violation, got {:?}", other),
    }
    assert_eq!(handle.get_state().status, FfiRuntimeStatus::SafetyLock);
    assert!(handle.get_safety_status().is_locked);
    assert!(!handle.is_session_active());
    // cleared by a reset
    let effects = actor.handle_command(handle.reset_safety_lock(), &obs());
    assert_eq!(effects.len(), 1);
    actor.update_shared_state(&obs());
    handle.publish_state(actor.get_state());
    assert!(handle.start_session().is_ok());
}

#[test]
fn stop_session_on_a_fresh_runtime_returns_empty_statistics() {
    let (handle, mut actor) = ZenOneRuntime::new(FfiPhase::Inhale, &confident());
    let cmd = handle.stop_session();
    assert!(matches!(cmd, RuntimeCommand::StopSession));
    let mut effects = actor.handle_command(cmd, &obs());
    let reply = match effects.remove(0) {
        RuntimeEffect::Reply(stats) => Some(stats),
        _ => None,
    };
    let stats = handle.stop_result(reply);
    assert_eq!(stats.duration_sec, 0);
    assert_eq!(stats.cycles_completed, 0);
    assert_eq!(stats.pattern_id, "");
    assert_eq!(stats.avg_heart_rate, None);
    assert_eq!(stats.avg_resonance, 0);
}

#[test]
fn stop_result_falls_back_where_no_reply_came() {
    let (handle, _) = ZenOneRuntime::new(FfiPhase::Inhale, &confident());
    let stats = handle.stop_result(None);
    assert_eq!((stats.duration_sec, stats.cycles_completed), (0, 0));
    assert_eq!(stats.pattern_id, "");
    assert_eq!(stats.avg_heart_rate, None);
    assert_eq!(stats.final_belief.confidence, 850_000);
    let given = FfiSessionStats {
        duration_sec: 12_000_000,
        cycles_completed: 3,
        pattern_id: "box".to_string(),
        avg_heart_rate: Some(64_000_000),
        final_belief: FfiBeliefState::default(),
        avg_resonance: 5,
    };
    let stats = handle.stop_result(Some(given));
    assert_eq!((stats.duration_sec, stats.cycles_completed, stats.avg_resonance), (12_000_000, 3, 5));
    assert_eq!(stats.pattern_id, "box");
    assert_eq!(stats.avg_heart_rate, Some(64_000_000));
}

#[test]
fn is_session_active_while_running_or_paused() {
    let (mut handle, mut actor) = ZenOneRuntime::new(FfiPhase::Inhale, &confident());
    actor.handle_command(handle.start_session().unwrap(), &obs());
    actor.update_shared_state(&obs());
    handle.publish_state(actor.get_state());
    assert!(handle.is_session_active());
    actor.handle_command(handle.pause_session(), &obs());
    actor.update_shared_state(&obs());
    handle.publish_state(actor.get_state());
    assert_eq!(handle.get_state().status, FfiRuntimeStatus::Paused);
    assert!(handle.is_session_active());
    actor.handle_command(handle.resume_session(), &obs());
    actor.update_shared_state(&obs());
    handle.publish_state(actor.get_state());
    assert_eq!(handle.get_state().status, FfiRuntimeStatus::Running);
    actor.handle_command(handle.stop_session(), &obs());
    actor.update_shared_state(&obs());
    handle.publish_state(actor.get_state());
    assert!(!handle.is_session_active());
}

#[test]
fn adjust_tempo_clamps_to_the_safe_range() {
    let (handle, _) = ZenOneRuntime::new(FfiPhase::Inhale, &confident());
    for (asked, given) in [
        (1_000_000, 1_000_000),
        (2_000_000, 1_400_000),
        (100_000, 800_000),
        (800_000, 800_000),
        (1_400_000, 1_400_000),
        (1_400_001, 1_400_000),
        (i64::MIN, 800_000),
        (i64::MAX, 1_400_000),
    ] {
        match handle.adjust_tempo(asked, "test".to_string()) {
            Ok((clamped, RuntimeCommand::AdjustTempo(scale))) => {
                assert_eq!(clamped, given);
                assert_eq!(scale.get(), given);
            }
            other => panic!("expected a tempo command, got {:?}", other),
        }
    }
}

#[test]
fn tempo_set_through_the_handle_is_published_in_range() {
    let (mut handle, mut actor) = ZenOneRuntime::new(FfiPhase::Inhale, &confident());
    for asked in [3_000_000, -3_000_000, 1_100_000] {
        let (clamped, cmd) = handle.adjust_tempo(asked, "coach".to_string()).unwrap();
        actor.handle_command(cmd, &obs());
        actor.update_shared_state(&obs());
        handle.publish_state(actor.get_state());
        let tempo = handle.get_state().tempo_scale;
        assert_eq!(tempo, clamped);
        assert!(800_000 <= tempo && tempo <= 1_400_000);
    }
}

#[test]
fn tick_and_process_frame_return_the_latest_frame() {
    let (mut handle, mut actor) = ZenOneRuntime::new(FfiPhase::Inhale, &confident());
    let (cmd, frame) = handle.tick(33_000, 9);
    assert!(matches!(cmd, RuntimeCommand::Tick { dt_sec: 33_000, timestamp_us: 9 }));
    assert_eq!((frame.cycles_completed, frame.heart_rate), (0, None));
    let seen = Observation { phase: FfiPhase::Exhale, phase_progress: 700_000, cycles_completed: 2, belief: confident() };
    actor.handle_command(cmd, &seen);
    actor.update_latest_frame(&seen, Some(58_000_000), 900_000);
    handle.publish_frame(actor.get_latest_frame());
    let (cmd, frame) = handle.process_frame(1, 2, 3, 10);
    assert!(matches!(cmd, RuntimeCommand::ProcessFrame { r: 1, g: 2, b: 3, timestamp_us: 10 }));
    assert_eq!((frame.phase, frame.phase_progress, frame.cycles_completed), (FfiPhase::Exhale, 700_000, 2));
    assert_eq!((frame.heart_rate, frame.signal_quality), (Some(58_000_000), 900_000));
}

#[test]
fn update_context_builds_the_command() {
    let (handle, _) = ZenOneRuntime::new(FfiPhase::Inhale, &confident());
    let cmd = handle.update_context(7, false, 12);
    assert!(matches!(
        cmd,
        RuntimeCommand::UpdateContext { local_hour: 7, is_charging: false, recent_sessions: 12 }
    ));
}
