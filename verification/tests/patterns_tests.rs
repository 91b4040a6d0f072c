use zenone_core::patterns::{find_pattern, PhaseDurations};
use zenone_core::{builtin_patterns, BreathPattern, BreathTimings, FfiBreathPattern};

#[test]
fn catalog_has_eleven_patterns_with_distinct_ids() {
    let patterns = builtin_patterns();
    assert_eq!(patterns.len(), 11);
    for i in 0..patterns.len() {
        for j in (i + 1)..patterns.len() {
            assert_ne!(patterns[i].id, patterns[j].id);
        }
    }
    assert_eq!(patterns[0].id, "4-7-8");
}

#[test]
fn catalog_entry_of_the_default_pattern() {
    let patterns = builtin_patterns();
    let p = &patterns[0];
    assert_eq!(p.label, "Relaxing Breath");
    assert_eq!(p.tag, "calm");
    assert_eq!(p.description, "Dr. Andrew Weil's classic relaxation technique");
    assert_eq!(
        p.timings,
        BreathTimings { inhale: 4_000_000, hold_in: 7_000_000, exhale: 8_000_000, hold_out: 0 }
    );
    assert_eq!(p.recommended_cycles, 4);
    assert_eq!(p.arousal_impact, -800_000);
}

#[test]
fn catalog_entries_by_id() {
    let patterns = builtin_patterns();
    let at = |id: &str| {
        let i = find_pattern(&patterns, &id.to_string()).unwrap();
        patterns[i].clone()
    };
    let b = at("box");
    assert_eq!(b.timings, BreathTimings { inhale: 4_000_000, hold_in: 4_000_000, exhale: 4_000_000, hold_out: 4_000_000 });
    assert_eq!((b.recommended_cycles, b.arousal_impact), (10, 0));
    let d = at("deep-relax");
    assert_eq!(d.timings.exhale, 10_000_000);
    assert_eq!((d.recommended_cycles, d.arousal_impact), (5, -950_000));
    let w = at("wim-hof");
    assert_eq!(w.tag, "advanced");
    assert_eq!((w.recommended_cycles, w.arousal_impact), (30, 800_000));
    let s = at("7-11");
    assert_eq!((s.timings.inhale, s.timings.exhale), (7_000_000, 11_000_000));
    let k = at("buteyko");
    assert_eq!(k.timings.hold_out, 5_000_000);
    assert_eq!(at("awake").arousal_impact, 600_000);
    assert_eq!(at("tactical").arousal_impact, 100_000);
    assert_eq!(at("triangle").arousal_impact, -100_000);
    assert_eq!(at("coherence").recommended_cycles, 12);
    assert_eq!(at("calm").label, "Calm Wave");
}

#[test]
fn find_pattern_returns_none_for_an_unknown_id() {
    let patterns = builtin_patterns();
    assert_eq!(find_pattern(&patterns, &"nope".to_string()), None);
    assert_eq!(find_pattern(&patterns, &"".to_string()), None);
    assert_eq!(find_pattern(&patterns, &"Box".to_string()), None);
    assert_eq!(find_pattern(&patterns, &"box".to_string()), Some(4));
    assert_eq!(find_pattern(&Vec::new(), &"box".to_string()), None);
}

#[test]
fn phase_durations_are_the_timings_in_microseconds() {
    let patterns = builtin_patterns();
    assert_eq!(
        patterns[0].to_phase_durations(),
        PhaseDurations { inhale_us: 4_000_000, hold_in_us: 7_000_000, exhale_us: 8_000_000, hold_out_us: 0 }
    );
}

#[test]
fn negative_timings_count_as_no_time() {
    let p = BreathPattern {
        id: "x".to_string(),
        label: String::new(),
        tag: String::new(),
        description: String::new(),
        timings: BreathTimings { inhale: -1, hold_in: 1_500_000, exhale: i64::MIN, hold_out: i64::MAX },
        recommended_cycles: 1,
        arousal_impact: 0,
    };
    assert_eq!(
        p.to_phase_durations(),
        PhaseDurations { inhale_us: 0, hold_in_us: 1_500_000, exhale_us: 0, hold_out_us: i64::MAX as u64 }
    );
}

#[test]
fn outward_form_keeps_every_value() {
    let patterns = builtin_patterns();
    let f = FfiBreathPattern::from(&patterns[9]);
    assert_eq!(f.id, "buteyko");
    assert_eq!(f.label, "Buteyko Method");
    assert_eq!(f.tag, "advanced");
    assert_eq!(f.description, "Reduced breathing with CO2 tolerance training");
    assert_eq!((f.inhale_sec, f.hold_in_sec, f.exhale_sec, f.hold_out_sec), (3_000_000, 0, 3_000_000, 5_000_000));
    assert_eq!((f.recommended_cycles, f.arousal_impact), (8, -300_000));
}
