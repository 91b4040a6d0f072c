//! Control core of a biofeedback breathing-coach session.
//!
//! The core decides and never waits: it holds the rules of a session, and
//! leaves threads, queues and the outside collaborators to its caller.
//!
//! - [`safety`]: the safety verifier, five temporal specifications checked
//!   against each event, a bounded trace and the published state.
//! - [`runtime`]: the session runtime, a state machine from command and
//!   observation to next state and effects, gated by the safety verifier.
//! - [`handle`]: the caller's side, which turns calls into commands and
//!   answers queries from the published snapshot.
//! - [`pid`]: the feedback controller for the tempo.
//! - [`patterns`], [`recommend`], [`binaural`]: the pattern catalog, the
//!   recommender and the binaural settings.
//! - [`vault`]: encryption at rest.
//! - [`fixed`], [`text`], [`clock`], [`types`]: fixed-point arithmetic, its
//!   decimal text, the clocks, and the value types.
//!
//! Every real-valued quantity is a signed fixed-point number in millionths
//! (see [`fixed`]), so that the rules are exact integer arithmetic: a tempo
//! scale of 1.4 is `1_400_000`, a phase of four seconds is `4_000_000`.

pub mod fixed;
pub mod text;
pub mod types;
pub mod safety;
pub mod patterns;
pub mod pid;
pub mod clock;
pub mod runtime;
pub mod binaural;
pub mod recommend;
pub mod vault;
pub mod handle;

pub use crate::binaural::{BinauralManager, FfiBinauralConfig, FfiBrainWaveState};
pub use crate::handle::ZenOneRuntime;
pub use crate::patterns::{builtin_patterns, BreathPattern, BreathTimings, FfiBreathPattern};
pub use crate::pid::{create_tempo_controller, FfiPidConfig, FfiPidDiagnostics, PidController};
pub use crate::recommend::{FfiPatternRecommendation, FfiTimeOfDay, PatternRecommender};
pub use crate::safety::{
    FfiKernelEvent, FfiKernelEventType, FfiSafetyCheckResult, FfiSafetyViolation,
    FfiViolationSeverity, SafetyMonitor,
};
pub use crate::types::{
    FfiBeliefMode, FfiBeliefState, FfiEstimate, FfiFrame, FfiPhase, FfiResonance, FfiRuntimeState,
    FfiRuntimeStatus, FfiSafetyStatus, FfiSessionStats, ZenOneError,
};
pub use crate::vault::SecureVault;
