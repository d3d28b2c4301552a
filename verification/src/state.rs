use vstd::prelude::*;

use crate::run::{date_opt, RunVal, SegmentVal};
use crate::stamp::{AtomicDateTime, DateVal};
use crate::timer::{Action, TimerPhase, TimerVal};
use crate::timespan::{span_opt, Time, TimeSpan, TimeVal, TimingMethod};

verus! {

/// The mathematical value of a `TimerState`.
pub ghost struct StateVal {
    pub splits: Seq<TimeVal>,
    pub phase: TimerPhase,
    pub current_split_index: Option<int>,
    pub current_timing_method: TimingMethod,
    pub current_comparison: Seq<char>,
    pub attempt_started: Option<DateVal>,
    pub attempt_ended: Option<DateVal>,
    pub time_paused_at: int,
    pub is_game_time_paused: bool,
    pub game_time_pause_time: Option<int>,
    pub loading_times: Option<int>,
    pub start_time_utc: DateVal,
    pub start_time_with_offset_utc: DateVal,
    pub adjusted_start_time_utc: DateVal,
    pub split_name: Seq<char>,
    pub action: Action,
}

/// A serializable snapshot of the timer: the per-segment split times,
/// the phase, the indices and names an external observer needs, and the
/// wall-clock anchors. This is the value handed to change observers and
/// written to disk.
#[derive(Clone, Debug)]
pub struct TimerState {
    /// The split time of every segment, in order.
    pub splits: Vec<Time>,
    /// The phase the timer was in.
    pub phase: TimerPhase,
    /// The split the attempt was on.
    pub current_split_index: Option<usize>,
    /// The selected timing method.
    pub current_timing_method: TimingMethod,
    /// The name of the selected comparison.
    pub current_comparison: String,
    /// When the attempt started.
    pub attempt_started: Option<AtomicDateTime>,
    /// When the attempt ended.
    pub attempt_ended: Option<AtomicDateTime>,
    /// The Real Time reading frozen by a pause.
    pub time_paused_at: TimeSpan,
    /// Whether the game timer was paused.
    pub is_game_time_paused: bool,
    /// The Game Time reading frozen by a game-timer pause.
    pub game_time_pause_time: Option<TimeSpan>,
    /// The loading times, present exactly when Game Time is initialised.
    pub loading_times: Option<TimeSpan>,
    /// The wall-clock instant the attempt started at.
    pub start_time_utc: AtomicDateTime,
    /// The start instant shifted by the run's offset.
    pub start_time_with_offset_utc: AtomicDateTime,
    /// The start-with-offset instant shifted by the pauses so far.
    pub adjusted_start_time_utc: AtomicDateTime,
    /// The current segment's name, or `"empty"` when no split is
    /// current.
    pub split_name: String,
    /// The operation this snapshot was taken after.
    pub action: Action,
}

impl View for TimerState {
    type V = StateVal;

    open spec fn view(&self) -> StateVal {
        StateVal {
            splits: self.splits@.map_values(|t: Time| t@),
            phase: self.phase,
            current_split_index: match self.current_split_index {
                Some(i) => Some(i as int),
                None => None,
            },
            current_timing_method: self.current_timing_method,
            current_comparison: self.current_comparison@,
            attempt_started: date_opt(self.attempt_started),
            attempt_ended: date_opt(self.attempt_ended),
            time_paused_at: self.time_paused_at@,
            is_game_time_paused: self.is_game_time_paused,
            game_time_pause_time: span_opt(self.game_time_pause_time),
            loading_times: span_opt(self.loading_times),
            start_time_utc: self.start_time_utc@,
            start_time_with_offset_utc: self.start_time_with_offset_utc@,
            adjusted_start_time_utc: self.adjusted_start_time_utc@,
            split_name: self.split_name@,
            action: self.action,
        }
    }
}

/// The snapshot a timer produces: every field copied from the timer,
/// the split times taken from the run's segments, and the split name
/// taken from the current segment (the literal `"empty"` when no split
/// is current).
pub open spec fn spec_timer_state(t: TimerVal, action: Action) -> StateVal {
    StateVal {
        splits: t.run.segments.map_values(|s: SegmentVal| s.split_time),
        phase: t.phase,
        current_split_index: t.current_split_index,
        current_timing_method: t.current_timing_method,
        current_comparison: t.current_comparison,
        attempt_started: t.attempt_started,
        attempt_ended: t.attempt_ended,
        time_paused_at: t.time_paused_at,
        is_game_time_paused: t.is_game_time_paused,
        game_time_pause_time: t.game_time_pause_time,
        loading_times: t.loading_times,
        start_time_utc: t.start_time_utc,
        start_time_with_offset_utc: t.start_time_with_offset_utc,
        adjusted_start_time_utc: t.adjusted_start_time_utc,
        split_name: match t.current_split_index {
            Some(i) => if 0 <= i < t.run.segments.len() {
                t.run.segments[i].name
            } else {
                "empty"@
            },
            None => "empty"@,
        },
        action,
    }
}

/// Whether a snapshot can be loaded into a timer: the split count must
/// match the run's segment count, and the snapshot must respect the
/// timer's invariants, so that loading it keeps the timer well-formed.
pub open spec fn spec_state_consistent(s: StateVal, t: TimerVal) -> bool {
    &&& s.splits.len() == t.run.segments.len()
    &&& (s.phase == TimerPhase::NotRunning <==> s.current_split_index is None)
    &&& (s.phase == TimerPhase::Ended ==> s.current_split_index == Some(
        t.run.segments.len() as int,
    ))
    &&& ((s.phase == TimerPhase::Running || s.phase == TimerPhase::Paused)
        ==> match s.current_split_index {
        Some(i) => 0 <= i < t.run.segments.len(),
        None => false,
    })
    &&& t.run.comparisons.contains(s.current_comparison)
    &&& (s.is_game_time_paused ==> s.game_time_pause_time is Some)
    &&& (s.phase != TimerPhase::NotRunning ==> s.attempt_started is Some)
    &&& (s.phase == TimerPhase::Ended ==> s.attempt_ended is Some)
    &&& (s.phase == TimerPhase::Ended ==> s.splits.len() >= 1 && s.splits.last().real is Some)
}

/// The timer after a snapshot is loaded at the instant `now`: the split
/// times, phase, index, method, comparison, pause anchors, game-time
/// fields, loading times and wall-clock anchors all come from the
/// snapshot (each from its own field); the monotonic anchors restart at
/// `now`, treating the loaded attempt as resumed at the current
/// instant.
pub open spec fn spec_replace_state(t: TimerVal, s: StateVal, now: int) -> TimerVal {
    TimerVal {
        run: RunVal {
            segments: Seq::new(
                t.run.segments.len(),
                |i: int| SegmentVal { split_time: s.splits[i], ..t.run.segments[i] },
            ),
            ..t.run
        },
        phase: s.phase,
        current_split_index: s.current_split_index,
        current_timing_method: s.current_timing_method,
        current_comparison: s.current_comparison,
        attempt_started: s.attempt_started,
        attempt_ended: s.attempt_ended,
        start_time: now,
        start_time_with_offset: now,
        adjusted_start_time: now,
        time_paused_at: s.time_paused_at,
        is_game_time_paused: s.is_game_time_paused,
        game_time_pause_time: s.game_time_pause_time,
        loading_times: s.loading_times,
        start_time_utc: s.start_time_utc,
        start_time_with_offset_utc: s.start_time_with_offset_utc,
        adjusted_start_time_utc: s.adjusted_start_time_utc,
        ..t
    }
}

} // verus!
