//! The catalog of breathing patterns.
//!
//! The catalog is a fixed list in which every id occurs once. Timings are in
//! millionths of a second, the arousal impact in millionths.

use vstd::prelude::*;
use vstd::string::StringExecFns;

verus! {

/// The four phase lengths of a pattern, in millionths of a second.
#[derive(Debug, Clone, Copy, PartialEq, Eq, Structural)]
pub struct BreathTimings {
    pub inhale: i64,
    pub hold_in: i64,
    pub exhale: i64,
    pub hold_out: i64,
}

/// The four phase lengths that the phase machine is made from, in
/// microseconds.
#[derive(Debug, Clone, Copy, PartialEq, Eq, Structural)]
pub struct PhaseDurations {
    pub inhale_us: u64,
    pub hold_in_us: u64,
    pub exhale_us: u64,
    pub hold_out_us: u64,
}

/// A breathing pattern.
#[derive(Debug)]
pub struct BreathPattern {
    pub id: String,
    pub label: String,
    pub tag: String,
    pub description: String,
    pub timings: BreathTimings,
    pub recommended_cycles: u32,
    pub arousal_impact: i64,
}

/// Mathematical value of a [`BreathPattern`].
pub struct PatternView {
    pub id: Seq<char>,
    pub label: Seq<char>,
    pub tag: Seq<char>,
    pub description: Seq<char>,
    pub timings: BreathTimings,
    pub recommended_cycles: u32,
    pub arousal_impact: i64,
}

impl View for BreathPattern {
    type V = PatternView;

    open spec fn view(&self) -> PatternView {
        PatternView {
            id: self.id@,
            label: self.label@,
            tag: self.tag@,
            description: self.description@,
            timings: self.timings,
            recommended_cycles: self.recommended_cycles,
            arousal_impact: self.arousal_impact,
        }
    }
}

impl Clone for BreathPattern {
    fn clone(&self) -> (r: Self)
        ensures
            r@ == self@,
    {
        BreathPattern {
            id: self.id.clone(),
            label: self.label.clone(),
            tag: self.tag.clone(),
            description: self.description.clone(),
            timings: self.timings,
            recommended_cycles: self.recommended_cycles,
            arousal_impact: self.arousal_impact,
        }
    }
}

/// A phase length in microseconds: a negative length counts as none.
pub open spec fn micros_of(seconds: i64) -> u64 {
    if seconds < 0 {
        0
    } else {
        seconds as u64
    }
}

/// The phase lengths of the timings `t`, in microseconds.
pub open spec fn durations_of(t: BreathTimings) -> PhaseDurations {
    PhaseDurations {
        inhale_us: micros_of(t.inhale),
        hold_in_us: micros_of(t.hold_in),
        exhale_us: micros_of(t.exhale),
        hold_out_us: micros_of(t.hold_out),
    }
}

fn micros(seconds: i64) -> (r: u64)
    ensures
        r == micros_of(seconds),
{
    if seconds < 0 {
        0
    } else {
        seconds as u64
    }
}

impl BreathPattern {
    /// The phase lengths of this pattern, in microseconds.
    pub fn to_phase_durations(&self) -> (r: PhaseDurations)
        ensures
            r == durations_of(self.timings),
    {
        PhaseDurations {
            inhale_us: micros(self.timings.inhale),
            hold_in_us: micros(self.timings.hold_in),
            exhale_us: micros(self.timings.exhale),
            hold_out_us: micros(self.timings.hold_out),
        }
    }
}

/// The values of a sequence of patterns.
pub open spec fn pattern_views(s: Seq<BreathPattern>) -> Seq<PatternView> {
    s.map_values(|p: BreathPattern| p@)
}

/// The pattern with the given texts, phase lengths in whole seconds,
/// recommended number of cycles and arousal impact in hundredths.
pub open spec fn entry(
    id: Seq<char>,
    label: Seq<char>,
    tag: Seq<char>,
    description: Seq<char>,
    seconds: (int, int, int, int),
    recommended_cycles: u32,
    arousal_hundredths: int,
) -> PatternView {
    PatternView {
        id,
        label,
        tag,
        description,
        timings: BreathTimings {
            inhale: (seconds.0 * 1_000_000) as i64,
            hold_in: (seconds.1 * 1_000_000) as i64,
            exhale: (seconds.2 * 1_000_000) as i64,
            hold_out: (seconds.3 * 1_000_000) as i64,
        },
        recommended_cycles,
        arousal_impact: (arousal_hundredths * 10_000) as i64,
    }
}

/// The id of the pattern that stands in for an unknown one.
pub open spec fn default_pattern_id() -> Seq<char> {
    "4-7-8"@
}

/// The built-in catalog: calming, focus, energizing and advanced patterns.
pub open spec fn builtin_catalog() -> Seq<PatternView> {
    seq![
        entry(
            "4-7-8"@,
            "Relaxing Breath"@,
            "calm"@,
            "Dr. Andrew Weil's classic relaxation technique"@,
            (4, 7, 8, 0),
            4,
            -80,
        ),
        entry(
            "calm"@,
            "Calm Wave"@,
            "calm"@,
            "Gentle, extended exhale for everyday relaxation"@,
            (4, 0, 6, 0),
            10,
            -50,
        ),
        entry(
            "7-11"@,
            "7-11 Anti-Anxiety"@,
            "calm"@,
            "NHS-recommended technique for acute anxiety relief"@,
            (7, 0, 11, 0),
            6,
            -90,
        ),
        entry(
            "deep-relax"@,
            "Deep Relaxation"@,
            "calm"@,
            "Extended hold and exhale for deep parasympathetic activation"@,
            (4, 7, 10, 0),
            5,
            -95,
        ),
        entry(
            "box"@,
            "Box Breathing"@,
            "focus"@,
            "Navy SEAL technique for focus under pressure"@,
            (4, 4, 4, 4),
            10,
            0,
        ),
        entry(
            "coherence"@,
            "Heart Coherence"@,
            "focus"@,
            "HeartMath-style 5-second rhythm for HRV optimization"@,
            (5, 0, 5, 0),
            12,
            -20,
        ),
        entry(
            "triangle"@,
            "Triangle Breath"@,
            "focus"@,
            "Balanced three-phase pattern for meditation"@,
            (4, 4, 4, 0),
            8,
            -10,
        ),
        entry(
            "tactical"@,
            "Tactical Breathing"@,
            "focus"@,
            "Combat breathing for high-stress performance"@,
            (4, 4, 4, 4),
            6,
            10,
        ),
        entry(
            "awake"@,
            "Energizing Breath"@,
            "energy"@,
            "Quick inhale, short exhale for alertness boost"@,
            (2, 0, 2, 0),
            15,
            60,
        ),
        entry(
            "buteyko"@,
            "Buteyko Method"@,
            "advanced"@,
            "Reduced breathing with CO2 tolerance training"@,
            (3, 0, 3, 5),
            8,
            -30,
        ),
        entry(
            "wim-hof"@,
            "Wim Hof Method"@,
            "advanced"@,
            "Controlled hyperventilation followed by retention"@,
            (2, 0, 2, 0),
            30,
            80,
        ),
    ]
}

/// No id occurs twice in `catalog`.
pub open spec fn ids_distinct(catalog: Seq<PatternView>) -> bool {
    forall|i: int, j: int|
        0 <= i < j < catalog.len() ==> (#[trigger] catalog[i]).id != (#[trigger] catalog[j]).id
}

/// The position of the first pattern of `catalog` with the id `id`.
pub open spec fn position_of(catalog: Seq<PatternView>, id: Seq<char>) -> Option<int>
    decreases catalog.len(),
{
    if catalog.len() == 0 {
        None
    } else if catalog[0].id == id {
        Some(0)
    } else {
        match position_of(catalog.drop_first(), id) {
            Some(i) => Some(i + 1),
            None => None,
        }
    }
}

/// Whether `catalog` holds a pattern with the id `id`.
pub open spec fn has_pattern(catalog: Seq<PatternView>, id: Seq<char>) -> bool {
    exists|i: int| 0 <= i < catalog.len() && (#[trigger] catalog[i]).id == id
}

/// What `position_of` finds is the first pattern with the id, and it finds
/// one wherever there is one.
pub proof fn lemma_position_of(catalog: Seq<PatternView>, id: Seq<char>)
    ensures
        match position_of(catalog, id) {
            Some(i) => 0 <= i < catalog.len() && catalog[i].id == id && forall|j: int|
                0 <= j < i ==> (#[trigger] catalog[j]).id != id,
            None => !has_pattern(catalog, id),
        },
    decreases catalog.len(),
{
    if catalog.len() == 0 {
    } else if catalog[0].id == id {
    } else {
        let rest = catalog.drop_first();
        lemma_position_of(rest, id);
        match position_of(rest, id) {
            Some(i) => {
                assert(catalog[i + 1] == rest[i]);
                assert forall|j: int| 0 <= j < i + 1 implies (#[trigger] catalog[j]).id != id by {
                    if j > 0 {
                        assert(catalog[j] == rest[j - 1]);
                    }
                }
            },
            None => {
                assert forall|j: int| 0 <= j < catalog.len() implies (#[trigger] catalog[j]).id
                    != id by {
                    if j > 0 {
                        assert(catalog[j] == rest[j - 1]);
                    }
                }
            },
        }
    }
}

fn pattern(
    id: &str,
    label: &str,
    tag: &str,
    description: &str,
    seconds: (u8, u8, u8, u8),
    recommended_cycles: u32,
    arousal_hundredths: i8,
) -> (r: BreathPattern)
    ensures
        r@ == entry(
            id@,
            label@,
            tag@,
            description@,
            (seconds.0 as int, seconds.1 as int, seconds.2 as int, seconds.3 as int),
            recommended_cycles,
            arousal_hundredths as int,
        ),
{
    BreathPattern {
        id: String::from_str(id),
        label: String::from_str(label),
        tag: String::from_str(tag),
        description: String::from_str(description),
        timings: BreathTimings {
            inhale: seconds.0 as i64 * 1_000_000,
            hold_in: seconds.1 as i64 * 1_000_000,
            exhale: seconds.2 as i64 * 1_000_000,
            hold_out: seconds.3 as i64 * 1_000_000,
        },
        recommended_cycles,
        arousal_impact: arousal_hundredths as i64 * 10_000,
    }
}

/// The built-in catalog of breathing patterns.
pub fn builtin_patterns() -> (r: Vec<BreathPattern>)
    ensures
        pattern_views(r@) == builtin_catalog(),
{
    let mut m: Vec<BreathPattern> = Vec::new();
    m.push(
        pattern(
            "4-7-8",
            "Relaxing Breath",
            "calm",
            "Dr. Andrew Weil's classic relaxation technique",
            (4, 7, 8, 0),
            4,
            -80,
        ),
    );
    m.push(
        pattern(
            "calm",
            "Calm Wave",
            "calm",
            "Gentle, extended exhale for everyday relaxation",
            (4, 0, 6, 0),
            10,
            -50,
        ),
    );
    m.push(
        pattern(
            "7-11",
            "7-11 Anti-Anxiety",
            "calm",
            "NHS-recommended technique for acute anxiety relief",
            (7, 0, 11, 0),
            6,
            -90,
        ),
    );
    m.push(
        pattern(
            "deep-relax",
            "Deep Relaxation",
            "calm",
            "Extended hold and exhale for deep parasympathetic activation",
            (4, 7, 10, 0),
            5,
            -95,
        ),
    );
    m.push(
        pattern(
            "box",
            "Box Breathing",
            "focus",
            "Navy SEAL technique for focus under pressure",
            (4, 4, 4, 4),
            10,
            0,
        ),
    );
    m.push(
        pattern(
            "coherence",
            "Heart Coherence",
            "focus",
            "HeartMath-style 5-second rhythm for HRV optimization",
            (5, 0, 5, 0),
            12,
            -20,
        ),
    );
    m.push(
        pattern(
            "triangle",
            "Triangle Breath",
            "focus",
            "Balanced three-phase pattern for meditation",
            (4, 4, 4, 0),
            8,
            -10,
        ),
    );
    m.push(
        pattern(
            "tactical",
            "Tactical Breathing",
            "focus",
            "Combat breathing for high-stress performance",
            (4, 4, 4, 4),
            6,
            10,
        ),
    );
    m.push(
        pattern(
            "awake",
            "Energizing Breath",
            "energy",
            "Quick inhale, short exhale for alertness boost",
            (2, 0, 2, 0),
            15,
            60,
        ),
    );
    m.push(
        pattern(
            "buteyko",
            "Buteyko Method",
            "advanced",
            "Reduced breathing with CO2 tolerance training",
            (3, 0, 3, 5),
            8,
            -30,
        ),
    );
    m.push(
        pattern(
            "wim-hof",
            "Wim Hof Method",
            "advanced",
            "Controlled hyperventilation followed by retention",
            (2, 0, 2, 0),
            30,
            80,
        ),
    );
    assert(pattern_views(m@) =~= builtin_catalog());
    m
}

/// In the built-in catalog every id occurs once, and the default pattern
/// comes first.
pub proof fn lemma_builtin_catalog()
    ensures
        builtin_catalog().len() == 11,
        ids_distinct(builtin_catalog()),
        builtin_catalog()[0].id == default_pattern_id(),
        has_pattern(builtin_catalog(), default_pattern_id()),
{
    reveal_strlit("4-7-8");
    reveal_strlit("calm");
    reveal_strlit("7-11");
    reveal_strlit("deep-relax");
    reveal_strlit("box");
    reveal_strlit("coherence");
    reveal_strlit("triangle");
    reveal_strlit("tactical");
    reveal_strlit("awake");
    reveal_strlit("buteyko");
    reveal_strlit("wim-hof");
    let c = builtin_catalog();
    assert(c[0].id[0] == '4');
    assert(c[1].id[0] == 'c');
    assert(c[2].id[0] == '7');
    assert(c[3].id[0] == 'd');
    assert(c[4].id[0] == 'b' && c[4].id[1] == 'o');
    assert(c[5].id[0] == 'c' && c[5].id.len() == 9);
    assert(c[6].id[0] == 't' && c[6].id[1] == 'r');
    assert(c[7].id[0] == 't' && c[7].id[1] == 'a');
    assert(c[8].id[0] == 'a');
    assert(c[9].id[0] == 'b' && c[9].id[1] == 'u');
    assert(c[10].id[0] == 'w');
    assert(c[1].id.len() == 4);
}

/// The position of the first pattern with the id `id`, if there is one.
pub fn find_pattern(patterns: &Vec<BreathPattern>, id: &String) -> (r: Option<usize>)
    ensures
        match r {
            Some(i) => position_of(pattern_views(patterns@), id@) == Some(i as int) && i
                < patterns@.len() && patterns@[i as int].id@ == id@,
            None => position_of(pattern_views(patterns@), id@) is None && !has_pattern(
                pattern_views(patterns@),
                id@,
            ),
        },
{
    let n = patterns.len();
    let mut i: usize = 0;
    let ghost catalog = pattern_views(patterns@);
    while i < n
        invariant
            i <= n,
            n == patterns@.len(),
            catalog == pattern_views(patterns@),
            forall|j: int| 0 <= j < i ==> (#[trigger] catalog[j]).id != id@,
        decreases n - i,
    {
        if patterns[i].id == *id {
            proof {
                lemma_position_of(catalog, id@);
                assert(catalog[i as int].id == id@);
                assert(has_pattern(catalog, id@));
            }
            return Some(i);
        }
        i += 1;
    }
    proof {
        lemma_position_of(catalog, id@);
    }
    None
}

/// A pattern as callers outside the runtime see it: the same values with the
/// timings spread out.
#[derive(Debug)]
pub struct FfiBreathPattern {
    pub id: String,
    pub label: String,
    pub tag: String,
    pub description: String,
    pub inhale_sec: i64,
    pub hold_in_sec: i64,
    pub exhale_sec: i64,
    pub hold_out_sec: i64,
    pub recommended_cycles: u32,
    pub arousal_impact: i64,
}

impl View for FfiBreathPattern {
    type V = PatternView;

    open spec fn view(&self) -> PatternView {
        PatternView {
            id: self.id@,
            label: self.label@,
            tag: self.tag@,
            description: self.description@,
            timings: BreathTimings {
                inhale: self.inhale_sec,
                hold_in: self.hold_in_sec,
                exhale: self.exhale_sec,
                hold_out: self.hold_out_sec,
            },
            recommended_cycles: self.recommended_cycles,
            arousal_impact: self.arousal_impact,
        }
    }
}

impl FfiBreathPattern {
    /// The pattern `p` with its timings spread out.
    pub fn from(p: &BreathPattern) -> (r: Self)
        ensures
            r@ == p@,
    {
        FfiBreathPattern {
            id: p.id.clone(),
            label: p.label.clone(),
            tag: p.tag.clone(),
            description: p.description.clone(),
            inhale_sec: p.timings.inhale,
            hold_in_sec: p.timings.hold_in,
            exhale_sec: p.timings.exhale,
            hold_out_sec: p.timings.hold_out,
            recommended_cycles: p.recommended_cycles,
            arousal_impact: p.arousal_impact,
        }
    }
}

/// The values of a sequence of patterns in their outward form.
pub open spec fn ffi_pattern_views(s: Seq<FfiBreathPattern>) -> Seq<PatternView> {
    s.map_values(|p: FfiBreathPattern| p@)
}

} // verus!
