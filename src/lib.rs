//! A finite-state-transition engine for orthogonal application states, with
//! a matcher language that tests a state value or a transition in progress.

pub mod laws;
pub mod matching;
pub mod state;

pub use matching::{ByPair, ByPairResult, ByRef, ByState, Equals, MatchesStateTransition, StateMatcher};
pub use state::{
    apply_state_transition, run_enter_schedule, run_in, run_state_transition, ActiveTransition,
    MatchableState, NextMatchableState, PendingTransition, Phase, PhaseRun, StatePhases,
    StateStore,
};
