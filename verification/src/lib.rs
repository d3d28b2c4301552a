//! A speedrun timing core: a finite-state timing engine that drives a single
//! run attempt across an ordered sequence of segments, maintaining two
//! parallel clocks (Real Time and Game Time), a comparison against historical
//! runs, and a serializable snapshot of every state transition.
//!
//! Every operation of the [`Timer`] carries a contract against a
//! mathematical model of the timer ([`TimerVal`]): the postcondition names
//! the exact state the operation produces for every instant the clock may
//! have supplied, and exactly when the instant is known (a manual test
//! clock), so is the state. Durations and instants are whole nanosecond
//! counts with saturating arithmetic, so every time computation is total.
//! The laws the engine obeys — the phase/index correspondence, the pause
//! accounting, snapshot round trips, reset idempotence and comparison
//! rotation — are stated and proved in [`mod@laws`].

use vstd::prelude::*;

mod clock;
mod component;
mod laws;
mod run;
mod stamp;
mod state;
mod timer;
mod timespan;

pub use component::{Cache, ComponentState};
pub use laws::{
    lemma_comparison_rotation, lemma_pause_resume_anchor_order,
    lemma_phase_index_correspondence, lemma_reset_idempotent, lemma_running_time_progression,
    lemma_state_round_trip, spec_next_comparison_iter, wrap_position,
};
pub use run::{Attempt, AttemptVal, CustomVariable, Run, RunVal, Segment, SegmentVal, VariableVal};
pub use stamp::{AtomicDateTime, DateVal, TimeStamp};
pub use state::{StateVal, TimerState};
pub use timer::{Action, CreationError, Snapshot, Timer, TimerClock, TimerPhase, TimerVal};
pub use timespan::{sat64, span_opt, Time, TimeSpan, TimeVal, TimingMethod};

verus! {

} // verus!
