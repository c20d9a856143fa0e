//! The lifecycle state machine: host-level state transitions and the
//! prepare / start / stop / unprepare hooks they map to.
//!
//! States run Null, Ready, Paused, Playing, with Null terminal on both
//! ends. Transitions are host-driven and delivered one at a time; each is
//! idempotent and independently retryable.

use vstd::prelude::*;

verus! {

/// The lifecycle state of a stage.
#[derive(Clone, Copy, Debug, PartialEq, Eq, Structural)]
pub enum LifecycleState {
    /// No resources held; the initial and final state.
    Null,
    /// Format-independent resources prepared.
    Ready,
    /// Quiescent but ready for data flow.
    Paused,
    /// Actively flowing data.
    Playing,
}

/// A host-delivered state transition request.
#[derive(Clone, Copy, Debug, PartialEq, Eq, Structural)]
pub enum StateChange {
    /// Null to Ready: prepare resources.
    NullToReady,
    /// Ready to Paused: no hook.
    ReadyToPaused,
    /// Paused to Playing: arm the stage for data flow.
    PausedToPlaying,
    /// Playing to Paused: quiesce and reset synchronization state.
    PlayingToPaused,
    /// Paused to Ready: no hook.
    PausedToReady,
    /// Ready to Null: release prepared resources.
    ReadyToNull,
}

/// What a successful state change reports to the host.
#[derive(Clone, Copy, Debug, PartialEq, Eq, Structural)]
pub enum StateChangeSuccess {
    /// The transition completed.
    Success,
    /// The transition completed but the stage will not preroll (live
    /// sources): reported for the Ready-to-Paused transition.
    NoPreroll,
}

/// A failed state change, reported to the host as an initialization
/// failure.
#[derive(Clone, Copy, Debug, PartialEq, Eq, Structural)]
pub struct StateChangeError;

/// The state a transition ends in.
pub open spec fn change_target(t: StateChange) -> LifecycleState {
    match t {
        StateChange::NullToReady => LifecycleState::Ready,
        StateChange::ReadyToPaused => LifecycleState::Paused,
        StateChange::PausedToPlaying => LifecycleState::Playing,
        StateChange::PlayingToPaused => LifecycleState::Paused,
        StateChange::PausedToReady => LifecycleState::Ready,
        StateChange::ReadyToNull => LifecycleState::Null,
    }
}

} // verus!
