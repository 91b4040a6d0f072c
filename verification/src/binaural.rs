//! Binaural beat settings for the four brain-wave states.

use vstd::prelude::*;
use vstd::string::StringExecFns;

verus! {

/// A brain-wave state.
#[derive(Debug, Clone, Copy, PartialEq, Eq, Structural)]
pub enum FfiBrainWaveState {
    Delta,
    Theta,
    Alpha,
    Beta,
}

/// Settings of a binaural beat. Frequencies are in millionths of a hertz.
#[derive(Debug)]
pub struct FfiBinauralConfig {
    pub base_freq: i64,
    pub beat_freq: i64,
    pub description: String,
    pub benefits: Vec<String>,
}

/// Mathematical value of a [`FfiBinauralConfig`].
pub struct BinauralView {
    pub base_freq: i64,
    pub beat_freq: i64,
    pub description: Seq<char>,
    pub benefits: Seq<Seq<char>>,
}

impl View for FfiBinauralConfig {
    type V = BinauralView;

    open spec fn view(&self) -> BinauralView {
        BinauralView {
            base_freq: self.base_freq,
            beat_freq: self.beat_freq,
            description: self.description@,
            benefits: self.benefits@.map_values(|s: String| s@),
        }
    }
}

/// The settings for a brain-wave state.
pub open spec fn binaural_config(state: FfiBrainWaveState) -> BinauralView {
    match state {
        FfiBrainWaveState::Delta => BinauralView {
            base_freq: 200_000_000,
            beat_freq: 2_500_000,
            description: "Deep Sleep & Healing"@,
            benefits: seq![
                "Deep restorative sleep"@,
                "Physical healing"@,
                "Pain relief"@,
                "Immune boost"@,
            ],
        },
        FfiBrainWaveState::Theta => BinauralView {
            base_freq: 200_000_000,
            beat_freq: 6_000_000,
            description: "Meditation & Creativity"@,
            benefits: seq![
                "Deep meditation"@,
                "Creative insights"@,
                "Emotional healing"@,
                "Vivid imagery"@,
            ],
        },
        FfiBrainWaveState::Alpha => BinauralView {
            base_freq: 200_000_000,
            beat_freq: 10_000_000,
            description: "Relaxed Focus"@,
            benefits: seq![
                "Calm awareness"@,
                "Stress reduction"@,
                "Peak performance"@,
                "Learning enhancement"@,
            ],
        },
        FfiBrainWaveState::Beta => BinauralView {
            base_freq: 220_000_000,
            beat_freq: 18_000_000,
            description: "Active Thinking"@,
            benefits: seq![
                "Mental clarity"@,
                "Problem solving"@,
                "Concentration"@,
                "Energy boost"@,
            ],
        },
    }
}

/// The brain-wave state for an arousal target: the slower the wave, the
/// lower the target.
pub open spec fn recommended_state(arousal_target: i64) -> FfiBrainWaveState {
    if arousal_target < 200_000 {
        FfiBrainWaveState::Delta
    } else if arousal_target < 400_000 {
        FfiBrainWaveState::Theta
    } else if arousal_target < 700_000 {
        FfiBrainWaveState::Alpha
    } else {
        FfiBrainWaveState::Beta
    }
}

fn config(base_freq: i64, beat_freq: i64, description: &str, benefits: (&str, &str, &str, &str)) -> (r:
    FfiBinauralConfig)
    ensures
        r@ == (BinauralView {
            base_freq,
            beat_freq,
            description: description@,
            benefits: seq![benefits.0@, benefits.1@, benefits.2@, benefits.3@],
        }),
{
    let mut list: Vec<String> = Vec::new();
    list.push(String::from_str(benefits.0));
    list.push(String::from_str(benefits.1));
    list.push(String::from_str(benefits.2));
    list.push(String::from_str(benefits.3));
    assert(list@.map_values(|s: String| s@) =~= seq![
        benefits.0@,
        benefits.1@,
        benefits.2@,
        benefits.3@,
    ]);
    FfiBinauralConfig {
        base_freq,
        beat_freq,
        description: String::from_str(description),
        benefits: list,
    }
}

/// The source of binaural settings.
#[derive(Debug, Clone, Copy)]
pub struct BinauralManager;

impl BinauralManager {
    pub fn new() -> (r: Self) {
        BinauralManager
    }

    /// The settings for the brain-wave state `state`.
    pub fn get_config(&self, state: FfiBrainWaveState) -> (r: FfiBinauralConfig)
        ensures
            r@ == binaural_config(state),
    {
        match state {
            FfiBrainWaveState::Delta => config(
                200_000_000,
                2_500_000,
                "Deep Sleep & Healing",
                ("Deep restorative sleep", "Physical healing", "Pain relief", "Immune boost"),
            ),
            FfiBrainWaveState::Theta => config(
                200_000_000,
                6_000_000,
                "Meditation & Creativity",
                ("Deep meditation", "Creative insights", "Emotional healing", "Vivid imagery"),
            ),
            FfiBrainWaveState::Alpha => config(
                200_000_000,
                10_000_000,
                "Relaxed Focus",
                ("Calm awareness", "Stress reduction", "Peak performance", "Learning enhancement"),
            ),
            FfiBrainWaveState::Beta => config(
                220_000_000,
                18_000_000,
                "Active Thinking",
                ("Mental clarity", "Problem solving", "Concentration", "Energy boost"),
            ),
        }
    }

    /// The brain-wave state for the arousal target `arousal_target`.
    pub fn get_recommended_state(&self, arousal_target: i64) -> (r: FfiBrainWaveState)
        ensures
            r == recommended_state(arousal_target),
    {
        if arousal_target < 200_000 {
            FfiBrainWaveState::Delta
        } else if arousal_target < 400_000 {
            FfiBrainWaveState::Theta
        } else if arousal_target < 700_000 {
            FfiBrainWaveState::Alpha
        } else {
            FfiBrainWaveState::Beta
        }
    }
}

} // verus!
