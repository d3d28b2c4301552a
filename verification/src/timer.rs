use vstd::prelude::*;

use crate::clock::system_now_nanos;
use crate::run::{personal_best_name, personal_best_name_str, Run, RunVal, Segment, SegmentVal};
use crate::stamp::{AtomicDateTime, DateVal, TimeStamp};
use crate::timespan::{sat64, span_opt, Time, TimeSpan, TimeVal, TimingMethod};

verus! {

/// The phase of the timer: where in the lifecycle of an attempt it is.
#[derive(Clone, Copy, Debug, PartialEq, Eq, Structural)]
pub enum TimerPhase {
    /// No attempt is in progress.
    NotRunning,
    /// An attempt is in progress and the clock is running.
    Running,
    /// An attempt is in progress and the clock is paused.
    Paused,
    /// The attempt reached the end of the run and has not been reset yet.
    Ended,
}

impl TimerPhase {
    /// The textual name of the phase, as the snapshot schema spells it.
    pub open spec fn spec_name(self) -> Seq<char> {
        match self {
            TimerPhase::NotRunning => "NotRunning"@,
            TimerPhase::Running => "Running"@,
            TimerPhase::Paused => "Paused"@,
            TimerPhase::Ended => "Ended"@,
        }
    }

    /// The textual name of the phase.
    pub fn name(&self) -> (r: &'static str)
        ensures
            r@ == self.spec_name(),
    {
        match self {
            TimerPhase::NotRunning => "NotRunning",
            TimerPhase::Running => "Running",
            TimerPhase::Paused => "Paused",
            TimerPhase::Ended => "Ended",
        }
    }

    /// The phase a textual name stands for, if any.
    pub open spec fn spec_from_name(name: Seq<char>) -> Option<TimerPhase> {
        if name == "NotRunning"@ {
            Some(TimerPhase::NotRunning)
        } else if name == "Running"@ {
            Some(TimerPhase::Running)
        } else if name == "Paused"@ {
            Some(TimerPhase::Paused)
        } else if name == "Ended"@ {
            Some(TimerPhase::Ended)
        } else {
            None
        }
    }

    /// Parses a textual phase name.
    pub fn from_name(name: &str) -> (r: Option<TimerPhase>)
        ensures
            r == TimerPhase::spec_from_name(name@),
    {
        if crate::run::str_eq(name, "NotRunning") {
            Some(TimerPhase::NotRunning)
        } else if crate::run::str_eq(name, "Running") {
            Some(TimerPhase::Running)
        } else if crate::run::str_eq(name, "Paused") {
            Some(TimerPhase::Paused)
        } else if crate::run::str_eq(name, "Ended") {
            Some(TimerPhase::Ended)
        } else {
            None
        }
    }
}

/// The operation a state snapshot was taken after.
#[derive(Clone, Copy, Debug, PartialEq, Eq, Structural)]
pub enum Action {
    /// A synthetic snapshot, not caused by an operation; its textual
    /// name in the snapshot schema is `"None"`.
    NoOp,
    /// The attempt was started.
    Start,
    /// A split was recorded.
    Split,
    /// The current split was skipped.
    Skip,
    /// The previous split was undone.
    Undo,
    /// The attempt was reset.
    Reset,
    /// The attempt was paused.
    Pause,
    /// The attempt was resumed.
    Resume,
}

impl Action {
    /// The textual name of the action, as the snapshot schema spells it.
    pub open spec fn spec_name(self) -> Seq<char> {
        match self {
            Action::NoOp => "None"@,
            Action::Start => "Start"@,
            Action::Split => "Split"@,
            Action::Skip => "Skip"@,
            Action::Undo => "Undo"@,
            Action::Reset => "Reset"@,
            Action::Pause => "Pause"@,
            Action::Resume => "Resume"@,
        }
    }

    /// The textual name of the action.
    pub fn name(&self) -> (r: &'static str)
        ensures
            r@ == self.spec_name(),
    {
        match self {
            Action::NoOp => "None",
            Action::Start => "Start",
            Action::Split => "Split",
            Action::Skip => "Skip",
            Action::Undo => "Undo",
            Action::Reset => "Reset",
            Action::Pause => "Pause",
            Action::Resume => "Resume",
        }
    }
}

/// The error of building a timer from a run without segments.
#[derive(Clone, Copy, Debug, PartialEq, Eq, Structural)]
pub enum CreationError {
    /// The timer cannot be created, because the run has no segments.
    EmptyRun,
}

impl CreationError {
    /// A human-readable description of the error.
    pub fn message(&self) -> (r: &'static str)
        ensures
            r@ == "the run has no segments"@,
    {
        "the run has no segments"
    }
}

/// The source of "now": the system's wall clock, or a manually driven
/// clock for deterministic testing. A manual clock reads as the instant
/// it was last set to, and its samples count as unsynced.
#[derive(Clone, Copy, Debug, PartialEq, Eq, Structural)]
pub enum TimerClock {
    /// Samples come from the system's wall clock.
    System,
    /// Samples read as the given count of nanoseconds.
    Manual(i64),
}

/// The mathematical value of a `Timer`.
pub ghost struct TimerVal {
    pub run: RunVal,
    pub phase: TimerPhase,
    pub current_split_index: Option<int>,
    pub current_timing_method: TimingMethod,
    pub current_comparison: Seq<char>,
    pub attempt_started: Option<DateVal>,
    pub attempt_ended: Option<DateVal>,
    pub start_time: int,
    pub start_time_with_offset: int,
    pub adjusted_start_time: int,
    pub time_paused_at: int,
    pub is_game_time_paused: bool,
    pub game_time_pause_time: Option<int>,
    pub loading_times: Option<int>,
    pub start_time_utc: DateVal,
    pub start_time_with_offset_utc: DateVal,
    pub adjusted_start_time_utc: DateVal,
    pub use_utc: bool,
    /// `None` for the system clock; `Some(nanos)` for a manual clock.
    pub clock: Option<int>,
}

impl TimerVal {
    /// The invariant every reachable timer satisfies. The phase and the
    /// split index determine each other: no attempt means no index, an
    /// ended attempt sits one past the last segment, and a live attempt
    /// sits on a real segment. The current comparison is always one of
    /// the run's comparisons, a paused game timer always has a pause
    /// time, a live attempt has a start instant, and an ended attempt has
    /// an end instant and a recorded real split time on the last segment.
    pub open spec fn wf(self) -> bool {
        &&& self.run.wf()
        &&& self.run.segments.len() >= 1
        &&& (self.phase == TimerPhase::NotRunning <==> self.current_split_index is None)
        &&& (self.phase == TimerPhase::Ended ==> self.current_split_index == Some(
            self.run.segments.len() as int,
        ))
        &&& ((self.phase == TimerPhase::Running || self.phase == TimerPhase::Paused)
            ==> match self.current_split_index {
            Some(i) => 0 <= i < self.run.segments.len(),
            None => false,
        })
        &&& self.run.comparisons.contains(self.current_comparison)
        &&& (self.is_game_time_paused ==> self.game_time_pause_time is Some)
        &&& (self.phase != TimerPhase::NotRunning ==> self.attempt_started is Some)
        &&& (self.phase == TimerPhase::Ended ==> self.attempt_ended is Some)
        &&& (self.phase == TimerPhase::Ended ==> self.run.segments.last().split_time.real is Some)
    }

    /// The Real Time read off the monotonic anchors at the instant `now`.
    pub open spec fn real_time_mono_at(self, now: int) -> Option<int> {
        match self.phase {
            TimerPhase::NotRunning => Some(self.run.offset),
            TimerPhase::Running => Some(sat64(now - self.adjusted_start_time)),
            TimerPhase::Paused => Some(self.time_paused_at),
            TimerPhase::Ended => self.run.segments.last().split_time.real,
        }
    }

    /// The Real Time read off the wall-clock anchors at the instant `now`.
    pub open spec fn real_time_utc_at(self, now: int) -> Option<int> {
        match self.phase {
            TimerPhase::NotRunning => Some(self.run.offset),
            TimerPhase::Running => Some(sat64(now - self.adjusted_start_time_utc.nanos)),
            TimerPhase::Paused => Some(self.time_paused_at),
            TimerPhase::Ended => self.run.segments.last().split_time.real,
        }
    }

    /// The Game Time at the instant `now`: frozen while the game timer is
    /// paused, derived from Real Time and the loading times while it is
    /// initialised, absent otherwise.
    pub open spec fn game_time_at(self, now: int) -> Option<int> {
        match self.phase {
            TimerPhase::NotRunning => Some(self.run.offset),
            TimerPhase::Ended => self.run.segments.last().split_time.game,
            _ => {
                if self.is_game_time_paused {
                    self.game_time_pause_time
                } else if self.loading_times is Some {
                    match self.real_time_mono_at(now) {
                        Some(rt) => Some(sat64(rt - self.loading_times.unwrap())),
                        None => None,
                    }
                } else {
                    None
                }
            },
        }
    }

    /// The pair of times the timer reads as at the instant `now`. The
    /// Real Time axis follows the authoritative anchor set selected by
    /// `use_utc`.
    pub open spec fn time_at(self, now: int) -> TimeVal {
        TimeVal {
            real: if self.use_utc {
                self.real_time_utc_at(now)
            } else {
                self.real_time_mono_at(now)
            },
            game: self.game_time_at(now),
        }
    }
}

/// The timer after `start` at the instant `now`: a fresh attempt begins
/// when no attempt is in progress; otherwise nothing changes. The
/// monotonic and wall-clock anchors are planted at `now`, shifted by the
/// run's offset; Game Time is deinitialised; the run registers the new
/// attempt.
pub open spec fn spec_start(t: TimerVal, now: int, synced: bool) -> TimerVal {
    if t.phase != TimerPhase::NotRunning {
        t
    } else {
        TimerVal {
            phase: TimerPhase::Running,
            current_split_index: Some(0int),
            attempt_started: Some(DateVal { nanos: now, synced }),
            start_time: now,
            start_time_with_offset: sat64(now - t.run.offset),
            adjusted_start_time: sat64(now - t.run.offset),
            time_paused_at: t.run.offset,
            loading_times: None,
            run: RunVal {
                attempt_count: if t.run.attempt_count == i32::MAX as int {
                    t.run.attempt_count
                } else {
                    t.run.attempt_count + 1
                },
                modified: true,
                ..t.run
            },
            start_time_utc: DateVal { nanos: now, synced },
            start_time_with_offset_utc: DateVal { nanos: sat64(now - t.run.offset), synced },
            adjusted_start_time_utc: DateVal { nanos: sat64(now - t.run.offset), synced },
            ..t
        }
    }
}

/// The timer after `split` at the instant `now`: while running and with
/// a non-negative current Real Time, the current time and a snapshot of
/// the custom variables are written onto the current segment and the
/// index advances; reaching one past the last segment ends the attempt.
/// On any other input nothing changes.
pub open spec fn spec_split(t: TimerVal, now: int, synced: bool) -> TimerVal {
    if t.phase == TimerPhase::Running {
        match t.time_at(now).real {
            Some(rt) => if rt >= 0 && t.current_split_index is Some {
                let time = t.time_at(now);
                let vars = t.run.variables.map_values(|v: crate::run::VariableVal| (v.name, v.value));
                let i = t.current_split_index.unwrap();
                let seg2 = SegmentVal { split_time: time, variables: vars, ..t.run.segments[i] };
                let base = TimerVal {
                    run: RunVal {
                        segments: t.run.segments.update(i, seg2),
                        modified: true,
                        ..t.run
                    },
                    current_split_index: Some(i + 1),
                    ..t
                };
                if i + 1 == t.run.segments.len() {
                    TimerVal {
                        phase: TimerPhase::Ended,
                        attempt_ended: Some(DateVal { nanos: now, synced }),
                        ..base
                    }
                } else {
                    base
                }
            } else {
                t
            },
            None => t,
        }
    } else {
        t
    }
}

/// The timer after `skip_split`: while an attempt is live and not on the
/// last split, the current segment's split information is cleared and
/// the index advances. On any other input nothing changes.
pub open spec fn spec_skip_split(t: TimerVal) -> TimerVal {
    if (t.phase == TimerPhase::Running || t.phase == TimerPhase::Paused)
        && t.current_split_index is Some && t.current_split_index.unwrap() + 1
        < t.run.segments.len() {
        let i = t.current_split_index.unwrap();
        TimerVal {
            run: RunVal {
                segments: t.run.segments.update(i, t.run.segments[i].cleared()),
                modified: true,
                ..t.run
            },
            current_split_index: Some(i + 1),
            ..t
        }
    } else {
        t
    }
}

/// The timer after `undo_split`: while an attempt is live or ended and
/// at least one split has been recorded, the index steps back and the
/// now-current segment's split information is cleared; an ended attempt
/// returns to running. On any other input nothing changes.
pub open spec fn spec_undo_split(t: TimerVal) -> TimerVal {
    if t.phase != TimerPhase::NotRunning && t.current_split_index is Some
        && t.current_split_index.unwrap() > 0 {
        let i = t.current_split_index.unwrap() - 1;
        TimerVal {
            phase: if t.phase == TimerPhase::Ended {
                TimerPhase::Running
            } else {
                t.phase
            },
            run: RunVal {
                segments: t.run.segments.update(i, t.run.segments[i].cleared()),
                modified: true,
                ..t.run
            },
            current_split_index: Some(i),
            ..t
        }
    } else {
        t
    }
}

/// The timer after `pause` at the instant `now`: a running attempt
/// freezes its Real Time reading into `time_paused_at` and enters the
/// paused phase. On any other input nothing changes.
pub open spec fn spec_pause(t: TimerVal, now: int) -> TimerVal {
    if t.phase == TimerPhase::Running {
        TimerVal {
            time_paused_at: match t.time_at(now).real {
                Some(rt) => rt,
                None => t.time_paused_at,
            },
            phase: TimerPhase::Paused,
            ..t
        }
    } else {
        t
    }
}

/// The timer after `resume` at the instant `now`: a paused attempt
/// returns to running, with the adjusted start anchors moved so that the
/// Real Time reading continues from the frozen value.
pub open spec fn spec_resume(t: TimerVal, now: int, synced: bool) -> TimerVal {
    if t.phase == TimerPhase::Paused {
        TimerVal {
            adjusted_start_time: sat64(now - t.time_paused_at),
            adjusted_start_time_utc: DateVal { nanos: sat64(now - t.time_paused_at), synced },
            phase: TimerPhase::Running,
            ..t
        }
    } else {
        t
    }
}

/// The timer after `set_loading_times` at the instant `now`: the loading
/// times are set, and a paused game timer's pause time is re-derived
/// from the current Real Time so the Game Time reading stays consistent.
pub open spec fn spec_set_loading_times(t: TimerVal, time: int, now: int) -> TimerVal {
    let gtpt = if t.is_game_time_paused {
        match t.time_at(now).real {
            Some(rt) => Some(sat64(rt - time)),
            None => t.game_time_pause_time,
        }
    } else {
        t.game_time_pause_time
    };
    TimerVal { loading_times: Some(time), game_time_pause_time: gtpt, ..t }
}

/// The timer after `pause_game_time` at the instant `now`: a running
/// game timer freezes at the current Game Time, or at the current Real
/// Time when Game Time is absent. Nothing changes if it is paused.
pub open spec fn spec_pause_game_time(t: TimerVal, now: int) -> TimerVal {
    if t.is_game_time_paused {
        t
    } else {
        let ct = t.time_at(now);
        TimerVal {
            game_time_pause_time: if ct.game is Some {
                ct.game
            } else {
                ct.real
            },
            is_game_time_paused: true,
            ..t
        }
    }
}

/// The timer after `resume_game_time` at the instant `now`: a paused
/// game timer resumes, with the loading times set to the difference of
/// Real Time and Game Time so that Game Time continues from where it
/// was frozen. Nothing changes if it is not paused.
pub open spec fn spec_resume_game_time(t: TimerVal, now: int) -> TimerVal {
    if !t.is_game_time_paused {
        t
    } else {
        let ct = t.time_at(now);
        let diff = match (ct.real, ct.game) {
            (Some(r), Some(g)) => sat64(r - g),
            _ => 0,
        };
        let t2 = spec_set_loading_times(t, diff, now);
        TimerVal { is_game_time_paused: false, ..t2 }
    }
}

/// The timer after `set_game_time` at the instant `now`: a paused game
/// timer shows exactly the given Game Time, and the loading times are
/// re-derived from the current Real Time.
pub open spec fn spec_set_game_time(t: TimerVal, game_time: int, now: int) -> TimerVal {
    let gtpt = if t.is_game_time_paused {
        Some(game_time)
    } else {
        t.game_time_pause_time
    };
    let loading = match t.time_at(now).real {
        Some(rt) => Some(sat64(rt - game_time)),
        None => t.loading_times,
    };
    TimerVal { game_time_pause_time: gtpt, loading_times: loading, ..t }
}

impl TimerVal {
    /// The total pause time of the current attempt at the instant `now`:
    /// while paused, the time spent beyond the frozen reading; after a
    /// resume, the distance the adjusted start anchor was moved; absent
    /// when there was no pause.
    pub open spec fn pause_time_at(self, now: int) -> Option<int> {
        if self.phase == TimerPhase::Paused {
            if self.use_utc {
                Some(sat64(sat64(now - self.start_time_with_offset_utc.nanos)
                    - self.time_paused_at))
            } else {
                Some(sat64(sat64(now - self.start_time_with_offset) - self.time_paused_at))
            }
        } else if self.phase == TimerPhase::Running || self.phase == TimerPhase::Ended {
            if self.use_utc {
                if self.start_time_with_offset_utc != self.adjusted_start_time_utc {
                    Some(sat64(self.adjusted_start_time_utc.nanos
                        - self.start_time_with_offset_utc.nanos))
                } else {
                    None
                }
            } else {
                if self.start_time_with_offset != self.adjusted_start_time {
                    Some(sat64(self.adjusted_start_time - self.start_time_with_offset))
                } else {
                    None
                }
            }
        } else {
            None
        }
    }

    /// The duration of the current attempt at the instant `now`: how
    /// long the attempt has been going regardless of the run's offset,
    /// pauses included; zero without an attempt; fixed once ended.
    pub open spec fn duration_at(self, now: int) -> int {
        match self.phase {
            TimerPhase::NotRunning => 0,
            TimerPhase::Running | TimerPhase::Paused => if self.use_utc {
                sat64(now - self.start_time_utc.nanos)
            } else {
                sat64(now - self.start_time)
            },
            TimerPhase::Ended => match (self.attempt_ended, self.attempt_started) {
                (Some(e), Some(s)) => sat64(e.nanos - s.nanos),
                _ => 0,
            },
        }
    }
}

/// The timer after `undo_all_pauses` at the instant `now`: a paused
/// attempt resumes; an ended attempt has the total pause time added onto
/// the final segment's split time; and in every live or ended phase the
/// adjusted start anchors collapse back onto the start-with-offset
/// anchors, removing all pause time from the Real Time reading.
pub open spec fn spec_undo_all_pauses(t: TimerVal, now: int, synced: bool) -> TimerVal {
    let t1 = if t.phase == TimerPhase::Paused {
        spec_resume(t, now, synced)
    } else if t.phase == TimerPhase::Ended {
        let p = match t.pause_time_at(now) {
            Some(p) => p,
            None => 0,
        };
        let li = t.run.segments.len() - 1;
        let seg2 = SegmentVal {
            split_time: t.run.segments[li].split_time.plus(
                TimeVal { real: Some(p), game: Some(p) },
            ),
            ..t.run.segments[li]
        };
        TimerVal { run: RunVal { segments: t.run.segments.update(li, seg2), ..t.run }, ..t }
    } else {
        t
    };
    TimerVal {
        adjusted_start_time: t1.start_time_with_offset,
        adjusted_start_time_utc: t1.start_time_with_offset_utc,
        ..t1
    }
}

/// The position of the current comparison in the run's comparison list.
/// Under well-formedness the list holds the current comparison exactly
/// once, so the position is determined.
pub open spec fn comparison_index(t: TimerVal) -> int {
    choose|i: int|
        0 <= i < t.run.comparisons.len() && t.run.comparisons[i] == t.current_comparison
}

/// The timer after `switch_to_next_comparison`: the comparison one
/// position after the current one, wrapping around at the end of the
/// list.
pub open spec fn spec_next_comparison(t: TimerVal) -> TimerVal {
    let n = t.run.comparisons.len() as int;
    let i = comparison_index(t);
    let j = if i + 1 >= n {
        0
    } else {
        i + 1
    };
    TimerVal { current_comparison: t.run.comparisons[j], ..t }
}

/// The timer after `switch_to_previous_comparison`: the comparison one
/// position before the current one, wrapping around at the start of the
/// list.
pub open spec fn spec_previous_comparison(t: TimerVal) -> TimerVal {
    let n = t.run.comparisons.len() as int;
    let i = comparison_index(t);
    let j = if i == 0 {
        n - 1
    } else {
        i - 1
    };
    TimerVal { current_comparison: t.run.comparisons[j], ..t }
}


/// The timer after the end of an attempt is recorded: an attempt that
/// did not finish naturally gets `now` as its end instant.
pub open spec fn spec_record_attempt_end(t: TimerVal, now: int, synced: bool) -> TimerVal {
    if t.phase != TimerPhase::Ended {
        TimerVal { attempt_ended: Some(DateVal { nanos: now, synced }), ..t }
    } else {
        t
    }
}

/// The timer after the current attempt is appended to the run's attempt
/// history: with the final time when the attempt ended, an empty time
/// otherwise, and with the total pause time.
pub open spec fn spec_update_attempt_history(t: TimerVal, now: int) -> TimerVal {
    let time = if t.phase == TimerPhase::Ended {
        t.time_at(now)
    } else {
        TimeVal::empty()
    };
    TimerVal {
        run: RunVal {
            attempt_history: t.run.attempt_history.push(
                crate::run::AttemptVal {
                    index: t.run.attempt_count,
                    time,
                    started: t.attempt_started,
                    ended: t.attempt_ended,
                    pause_time: t.pause_time_at(now),
                },
            ),
            ..t.run
        },
        ..t
    }
}

/// The timer with the best segment times folded from the current
/// attempt.
pub open spec fn spec_update_best_segments(t: TimerVal) -> TimerVal {
    TimerVal {
        run: RunVal {
            segments: crate::run::spec_best_segments_from(t.run.segments, 0, 0, 0),
            ..t.run
        },
        ..t
    }
}

/// The timer after the current attempt is promoted to the personal
/// best: the old personal best is imported into the segment history,
/// every split time becomes the personal-best split time, and the run's
/// upload identifier is cleared.
pub open spec fn spec_set_run_as_pb(t: TimerVal) -> TimerVal {
    let segs1 = crate::run::spec_import_pb_from(
        t.run.segments,
        0,
        crate::run::spec_import_id(t.run.segments),
        0,
        0,
    );
    let segs2 = segs1.map_values(
        |s: SegmentVal| SegmentVal { personal_best_split_time: s.split_time, ..s },
    );
    TimerVal {
        run: RunVal { segments: segs2, run_id: Seq::<char>::empty(), ..t.run },
        ..t
    }
}

/// The timer after the personal best is updated: the attempt is
/// promoted exactly when the last segment's split time under the
/// current timing method is present and beats the stored personal-best
/// split time (an absent personal best is always beaten).
pub open spec fn spec_update_pb_splits(t: TimerVal) -> TimerVal {
    let last = t.run.segments.last();
    let split = last.split_time.by_method(t.current_timing_method);
    let pb = last.personal_best_split_time.by_method(t.current_timing_method);
    let improved = match split {
        Some(s) => match pb {
            Some(p) => s < p,
            None => true,
        },
        None => false,
    };
    if improved {
        spec_set_run_as_pb(t)
    } else {
        t
    }
}

/// The timer after the current attempt's deltas are appended to the
/// segment history, up to the split the attempt reached.
pub open spec fn spec_update_segment_history(t: TimerVal) -> TimerVal {
    match t.current_split_index {
        Some(i) => TimerVal {
            run: RunVal {
                segments: crate::run::spec_segment_history_from(
                    t.run.segments,
                    0,
                    i,
                    crate::run::spec_latest_attempt_index(t.run.attempt_history),
                    0,
                    0,
                ),
                ..t.run
            },
            ..t
        },
        None => t,
    }
}

/// The timer after the stateful half of a reset: the attempt end is
/// recorded, the game timer resumed, the loading times zeroed; and when
/// the splits are to be kept, the attempt history, best segments,
/// personal best and segment history are updated, in that order.
pub open spec fn spec_reset_state(t: TimerVal, now: int, synced: bool, update: bool) -> TimerVal {
    let t1 = spec_record_attempt_end(t, now, synced);
    let t2 = spec_resume_game_time(t1, now);
    let t3 = spec_set_loading_times(t2, 0, now);
    if update {
        spec_update_segment_history(
            spec_update_pb_splits(spec_update_best_segments(spec_update_attempt_history(t3, now))),
        )
    } else {
        t3
    }
}

/// The timer after the structural half of a reset: no attempt, no
/// index, every segment's split information cleared, and the comparison
/// list regenerated.
pub open spec fn spec_reset_splits(t: TimerVal) -> TimerVal {
    TimerVal {
        phase: TimerPhase::NotRunning,
        current_split_index: None,
        run: RunVal {
            segments: t.run.segments.map_values(|s: SegmentVal| s.cleared()),
            comparisons: if t.run.comparisons.contains(personal_best_name()) {
                t.run.comparisons
            } else {
                t.run.comparisons.push(personal_best_name())
            },
            ..t.run
        },
        ..t
    }
}

/// The timer after `reset` at the instant `now`: an attempt in progress
/// is wound down (storing its data in the run's history when
/// `update_splits` holds) and the timer returns to not running. Without
/// an attempt nothing changes.
pub open spec fn spec_reset(t: TimerVal, now: int, synced: bool, update: bool) -> TimerVal {
    if t.phase == TimerPhase::NotRunning {
        t
    } else {
        spec_reset_splits(spec_reset_state(t, now, synced, update))
    }
}

/// The timer after `reset_and_set_attempt_as_pb` at the instant `now`:
/// as a reset that keeps the splits, with the current attempt promoted
/// to the personal best in between.
pub open spec fn spec_reset_and_set_attempt_as_pb(t: TimerVal, now: int, synced: bool) -> TimerVal {
    if t.phase == TimerPhase::NotRunning {
        t
    } else {
        spec_reset_splits(spec_set_run_as_pb(spec_reset_state(t, now, synced, true)))
    }
}

/// A specific point in time the timer was observed at: the time read
/// then is frozen, while everything else still reflects the underlying
/// timer.
pub struct Snapshot<'timer> {
    timer: &'timer Timer,
    time: Time,
}

impl<'timer> Snapshot<'timer> {
    /// The observed timer.
    pub closed spec fn spec_timer(&self) -> TimerVal {
        self.timer@
    }

    /// The frozen pair of times.
    pub closed spec fn spec_time(&self) -> TimeVal {
        self.time@
    }

    /// The time the timer was at when the snapshot was taken. The Game
    /// Time axis is absent if Game Time was not initialised.
    pub fn current_time(&self) -> (r: Time)
        ensures
            r@ == self.spec_time(),
    {
        self.time
    }

    /// The underlying timer.
    pub fn timer(&self) -> (r: &Timer)
        ensures
            r@ == self.spec_timer(),
    {
        self.timer
    }
}

/// The core entity: a timer driving one run attempt at a time across the
/// run's segments, under the four-phase lifecycle, with independent Real
/// Time and Game Time accounting.
#[derive(Clone, Debug)]
pub struct Timer {
    run: Run,
    phase: TimerPhase,
    current_split_index: Option<usize>,
    current_timing_method: TimingMethod,
    current_comparison: String,
    attempt_started: Option<AtomicDateTime>,
    attempt_ended: Option<AtomicDateTime>,
    start_time: TimeStamp,
    start_time_with_offset: TimeStamp,
    adjusted_start_time: TimeStamp,
    time_paused_at: TimeSpan,
    is_game_time_paused: bool,
    game_time_pause_time: Option<TimeSpan>,
    loading_times: Option<TimeSpan>,
    start_time_utc: AtomicDateTime,
    start_time_with_offset_utc: AtomicDateTime,
    adjusted_start_time_utc: AtomicDateTime,
    use_utc: bool,
    clock: TimerClock,
}

impl View for Timer {
    type V = TimerVal;

    closed spec fn view(&self) -> TimerVal {
        TimerVal {
            run: self.run@,
            phase: self.phase,
            current_split_index: match self.current_split_index {
                Some(i) => Some(i as int),
                None => None,
            },
            current_timing_method: self.current_timing_method,
            current_comparison: self.current_comparison@,
            attempt_started: crate::run::date_opt(self.attempt_started),
            attempt_ended: crate::run::date_opt(self.attempt_ended),
            start_time: self.start_time@,
            start_time_with_offset: self.start_time_with_offset@,
            adjusted_start_time: self.adjusted_start_time@,
            time_paused_at: self.time_paused_at@,
            is_game_time_paused: self.is_game_time_paused,
            game_time_pause_time: span_opt(self.game_time_pause_time),
            loading_times: span_opt(self.loading_times),
            start_time_utc: self.start_time_utc@,
            start_time_with_offset_utc: self.start_time_with_offset_utc@,
            adjusted_start_time_utc: self.adjusted_start_time_utc@,
            use_utc: self.use_utc,
            clock: match self.clock {
                TimerClock::System => None,
                TimerClock::Manual(n) => Some(n as int),
            },
        }
    }
}

impl Timer {
    /// Builds a timer from a run. The run must have at least one segment,
    /// so that the timer can store a final time; an empty run is refused.
    /// The timer starts out not running, displaying Real Time, compared
    /// against the personal best, with the wall clock authoritative.
    pub fn new(run: Run) -> (r: Result<Timer, CreationError>)
        requires
            run@.wf(),
        ensures
            r is Ok <==> run@.segments.len() >= 1,
            match r {
                Ok(timer) => timer@.wf() && timer@.phase == TimerPhase::NotRunning && timer@.run
                    == (RunVal {
                    comparisons: if run@.comparisons.contains(personal_best_name()) {
                        run@.comparisons
                    } else {
                        run@.comparisons.push(personal_best_name())
                    },
                    ..run@
                }) && timer@.current_split_index is None && timer@.current_timing_method
                    == TimingMethod::RealTime && timer@.current_comparison == personal_best_name()
                    && timer@.attempt_started is None && timer@.attempt_ended is None
                    && timer@.time_paused_at == 0 && !timer@.is_game_time_paused
                    && timer@.game_time_pause_time is None && timer@.loading_times is None
                    && timer@.use_utc && timer@.clock is None,
                Err(e) => e == CreationError::EmptyRun,
            },
    {
        if run.is_empty() {
            return Err(CreationError::EmptyRun);
        }
        let mut run = run;
        run.regenerate_comparisons();
        let now = TimeStamp::from_nanos(0);
        let now_utc = AtomicDateTime::new(0, false);
        let timer = Timer {
            run,
            phase: TimerPhase::NotRunning,
            current_split_index: None,
            current_timing_method: TimingMethod::RealTime,
            current_comparison: personal_best_name_str().to_owned(),
            attempt_started: None,
            attempt_ended: None,
            start_time: now,
            start_time_with_offset: now,
            adjusted_start_time: now,
            time_paused_at: TimeSpan::zero(),
            is_game_time_paused: false,
            game_time_pause_time: None,
            loading_times: None,
            start_time_utc: now_utc,
            start_time_with_offset_utc: now_utc,
            adjusted_start_time_utc: now_utc,
            use_utc: true,
            clock: TimerClock::System,
        };
        proof {
            assert(timer@.run.comparisons.contains(personal_best_name()));
        }
        Ok(timer)
    }

    /// Samples the clock once: the same instant as a monotonic stamp and
    /// as a wall-clock instant. A system sample counts as synced; a
    /// manual one reads as the instant the clock was set to, unsynced.
    fn now(&self) -> (r: (TimeStamp, AtomicDateTime))
        ensures
            r.0@ == r.1@.nanos,
            r.1@.synced == (self@.clock is None),
            self@.clock matches Some(n) ==> r.0@ == n,
    {
        match self.clock {
            TimerClock::System => {
                let n = system_now_nanos();
                (TimeStamp::from_nanos(n), AtomicDateTime::new(n, true))
            },
            TimerClock::Manual(n) => (TimeStamp::from_nanos(n), AtomicDateTime::new(n, false)),
        }
    }

    /// Switches the timer to a manual clock that reads as the given
    /// instant until it is set again. Nothing else changes.
    pub fn set_manual_clock(&mut self, nanos: i64)
        ensures
            final(self)@ == (TimerVal { clock: Some(nanos as int), ..old(self)@ }),
    {
        self.clock = TimerClock::Manual(nanos);
    }

    /// Switches the timer back to the system's wall clock.
    pub fn use_system_clock(&mut self)
        ensures
            final(self)@ == (TimerVal { clock: None, ..old(self)@ }),
    {
        self.clock = TimerClock::System;
    }

    /// Selects which anchor set is authoritative for the Real Time
    /// reads: the wall-clock anchors or the monotonic ones.
    pub fn use_utc(&mut self, use_utc: bool)
        ensures
            final(self)@ == (TimerVal { use_utc, ..old(self)@ }),
    {
        self.use_utc = use_utc;
    }

    /// The run in use by the timer.
    pub fn run(&self) -> (r: &Run)
        ensures
            r@ == self@.run,
    {
        &self.run
    }

    /// Marks the run as unmodified: all changes have been saved.
    pub fn mark_as_unmodified(&mut self)
        ensures
            final(self)@ == (TimerVal {
                run: RunVal { modified: false, ..old(self)@.run },
                ..old(self)@
            }),
    {
        self.run.mark_as_unmodified();
    }

    /// The current phase.
    pub fn current_phase(&self) -> (r: TimerPhase)
        ensures
            r == self@.phase,
    {
        self.phase
    }

    /// The currently selected timing method.
    pub fn current_timing_method(&self) -> (r: TimingMethod)
        ensures
            r == self@.current_timing_method,
    {
        self.current_timing_method
    }

    /// Selects the timing method.
    pub fn set_current_timing_method(&mut self, method: TimingMethod)
        ensures
            final(self)@ == (TimerVal { current_timing_method: method, ..old(self)@ }),
    {
        self.current_timing_method = method;
    }

    /// Toggles between the Real Time and Game Time timing methods.
    pub fn toggle_timing_method(&mut self)
        ensures
            final(self)@ == (TimerVal {
                current_timing_method: match old(self)@.current_timing_method {
                    TimingMethod::RealTime => TimingMethod::GameTime,
                    TimingMethod::GameTime => TimingMethod::RealTime,
                },
                ..old(self)@
            }),
    {
        self.current_timing_method = match self.current_timing_method {
            TimingMethod::RealTime => TimingMethod::GameTime,
            TimingMethod::GameTime => TimingMethod::RealTime,
        };
    }

    /// The name of the comparison currently compared against.
    pub fn current_comparison(&self) -> (r: &str)
        ensures
            r@ == self@.current_comparison,
    {
        self.current_comparison.as_str()
    }

    /// The index of the split the attempt is on: absent while no attempt
    /// is in progress, and equal to the segment count once the attempt
    /// has ended.
    pub fn current_split_index(&self) -> (r: Option<usize>)
        ensures
            match r {
                Some(i) => self@.current_split_index == Some(i as int),
                None => self@.current_split_index is None,
            },
    {
        self.current_split_index
    }

    /// The segment the attempt is currently on, if an attempt is in
    /// progress and has not ended.
    pub fn current_split(&self) -> (r: Option<&Segment>)
        ensures
            match r {
                Some(seg) => match self@.current_split_index {
                    Some(i) => 0 <= i < self@.run.segments.len() && seg@ == self@.run.segments[i],
                    None => false,
                },
                None => match self@.current_split_index {
                    Some(i) => i >= self@.run.segments.len(),
                    None => true,
                },
            },
    {
        match self.current_split_index {
            Some(i) => {
                if i < self.run.len() {
                    Some(self.run.segment(i))
                } else {
                    None
                }
            },
            None => None,
        }
    }

    /// Whether Game Time is initialised for the current attempt: exactly
    /// when the loading times are present.
    pub fn is_game_time_initialized(&self) -> (r: bool)
        ensures
            r == (self@.loading_times is Some),
    {
        self.loading_times.is_some()
    }

    /// Whether the game timer is paused. While it is not, Game Time
    /// advances like Real Time.
    pub fn is_game_time_paused(&self) -> (r: bool)
        ensures
            r == self@.is_game_time_paused,
    {
        self.is_game_time_paused
    }

    /// The loading times: Real Time minus Game Time; zero while Game
    /// Time is uninitialised.
    pub fn loading_times(&self) -> (r: TimeSpan)
        ensures
            r@ == match self@.loading_times {
                Some(l) => l,
                None => 0,
            },
    {
        match self.loading_times {
            Some(l) => l,
            None => TimeSpan::zero(),
        }
    }

    /// Initialises Game Time for the current attempt without changing
    /// the loading times it may already have.
    pub fn initialize_game_time(&mut self)
        ensures
            final(self)@ == (TimerVal {
                loading_times: Some(
                    match old(self)@.loading_times {
                        Some(l) => l,
                        None => 0,
                    },
                ),
                ..old(self)@
            }),
    {
        self.loading_times = Some(self.loading_times());
    }

    /// Deinitialises Game Time for the current attempt.
    pub fn deinitialize_game_time(&mut self)
        ensures
            final(self)@ == (TimerVal { loading_times: None, ..old(self)@ }),
    {
        self.loading_times = None;
    }
}

impl Timer {
    /// The pair of times at the sampled instant, computed from the phase
    /// and the anchors, with one instant for both axes.
    fn current_time_at(&self, now: TimeStamp, now_utc: AtomicDateTime) -> (r: Time)
        requires
            self@.wf(),
            now@ == now_utc@.nanos,
        ensures
            r@ == self@.time_at(now@),
    {
        let last_index = self.run.len() - 1;
        proof {
            assert(self@.run.segments.last() == self@.run.segments[last_index as int]);
        }
        let real_mono: Option<TimeSpan> = match self.phase {
            TimerPhase::NotRunning => Some(self.run.offset()),
            TimerPhase::Running => Some(now.minus_stamp(self.adjusted_start_time)),
            TimerPhase::Paused => Some(self.time_paused_at),
            TimerPhase::Ended => self.run.segment(last_index).split_time().real_time,
        };
        let real_utc: Option<TimeSpan> = match self.phase {
            TimerPhase::NotRunning => Some(self.run.offset()),
            TimerPhase::Running => Some(now_utc.minus_date(self.adjusted_start_time_utc)),
            TimerPhase::Paused => Some(self.time_paused_at),
            TimerPhase::Ended => self.run.segment(last_index).split_time().real_time,
        };
        let game: Option<TimeSpan> = match self.phase {
            TimerPhase::NotRunning => Some(self.run.offset()),
            TimerPhase::Ended => self.run.segment(last_index).split_time().game_time,
            _ => {
                if self.is_game_time_paused {
                    self.game_time_pause_time
                } else if self.loading_times.is_some() {
                    let loading = self.loading_times();
                    match real_mono {
                        Some(rt) => Some(rt.minus(loading)),
                        None => None,
                    }
                } else {
                    None
                }
            },
        };
        Time {
            real_time: if self.use_utc {
                real_utc
            } else {
                real_mono
            },
            game_time: game,
        }
    }

    /// Takes a snapshot: freezes the current time so that everything
    /// read through it works with one consistent observation.
    pub fn snapshot(&self) -> (r: Snapshot<'_>)
        requires
            self@.wf(),
        ensures
            r.spec_timer() == self@,
            exists|now: int| r.spec_time() == #[trigger] self@.time_at(now),
            self@.clock matches Some(n) ==> r.spec_time() == self@.time_at(n),
    {
        let (t0, t0_utc) = self.now();
        let time = self.current_time_at(t0, t0_utc);
        proof {
            assert(time@ == self@.time_at(t0@));
        }
        Snapshot { timer: self, time }
    }

    /// Starts a new attempt if none is in progress; otherwise nothing
    /// happens.
    pub fn start(&mut self)
        requires
            old(self)@.wf(),
        ensures
            final(self)@.wf(),
            exists|now: int| final(self)@ == #[trigger] spec_start(old(self)@, now, old(self)@.clock is None),
            old(self)@.clock matches Some(n) ==> final(self)@ == spec_start(old(self)@, n, false),
    {
        let (t0, t0_utc) = self.now();
        if self.phase == TimerPhase::NotRunning {
            self.phase = TimerPhase::Running;
            self.current_split_index = Some(0);
            self.attempt_started = Some(t0_utc);
            self.start_time = t0;
            self.start_time_utc = t0_utc;
            let offset = self.run.offset();
            self.start_time_with_offset = t0.minus_span(offset);
            self.adjusted_start_time = self.start_time_with_offset;
            self.time_paused_at = offset;
            self.loading_times = None;
            self.run.start_next_run();
            self.start_time_with_offset_utc = t0_utc.minus_span(offset);
            self.adjusted_start_time_utc = self.start_time_with_offset_utc;
        }
        proof {
            assert(self@ == spec_start(old(self)@, t0@, old(self)@.clock is None));
        }
    }

    /// Stores the current time as the current segment's split time and
    /// advances, if an attempt is running and its Real Time is not
    /// negative; ends the attempt on the last split. Otherwise nothing
    /// happens.
    pub fn split(&mut self)
        requires
            old(self)@.wf(),
        ensures
            final(self)@.wf(),
            exists|now: int| final(self)@ == #[trigger] spec_split(old(self)@, now, old(self)@.clock is None),
            old(self)@.clock matches Some(n) ==> final(self)@ == spec_split(old(self)@, n, false),
    {
        let (t0, t0_utc) = self.now();
        let current_time = self.current_time_at(t0, t0_utc);
        let accept = self.phase == TimerPhase::Running && match current_time.real_time {
            Some(rt) => rt.is_non_negative(),
            None => false,
        };
        if accept {
            let n = self.run.len();
            let variables = self.run.variables_snapshot();
            let i = match self.current_split_index {
                Some(i) => i,
                None => 0,
            };
            proof {
                assert(i < n);
            }
            let ghost segs_pre = self@.run.segments;
            self.run.set_split_time_at(i, current_time);
            self.run.set_variables_at(i, variables);
            proof {
                let time = old(self)@.time_at(t0@);
                let vars = old(self)@.run.variables.map_values(
                    |v: crate::run::VariableVal| (v.name, v.value),
                );
                let seg2 = SegmentVal { split_time: time, variables: vars, ..segs_pre[i as int] };
                assert(self@.run.segments =~= segs_pre.update(i as int, seg2));
            }
            self.current_split_index = Some(i + 1);
            if i + 1 == n {
                self.phase = TimerPhase::Ended;
                self.attempt_ended = Some(t0_utc);
            }
            self.run.mark_as_modified();
        }
        proof {
            assert(self@ == spec_split(old(self)@, t0@, old(self)@.clock is None));
        }
    }

    /// Starts a new attempt, or records a split in the one in progress.
    pub fn split_or_start(&mut self)
        requires
            old(self)@.wf(),
        ensures
            final(self)@.wf(),
            old(self)@.phase == TimerPhase::NotRunning ==> exists|now: int|
                final(self)@ == #[trigger] spec_start(old(self)@, now, old(self)@.clock is None),
            old(self)@.phase != TimerPhase::NotRunning ==> exists|now: int|
                final(self)@ == #[trigger] spec_split(old(self)@, now, old(self)@.clock is None),
            old(self)@.clock matches Some(n) ==> final(self)@ == if old(self)@.phase
                == TimerPhase::NotRunning {
                spec_start(old(self)@, n, false)
            } else {
                spec_split(old(self)@, n, false)
            },
    {
        if self.phase == TimerPhase::NotRunning {
            self.start();
        } else {
            self.split();
        }
    }

    /// Skips the current split, if an attempt is in progress and the
    /// current split is not the last one. Otherwise nothing happens.
    pub fn skip_split(&mut self)
        requires
            old(self)@.wf(),
        ensures
            final(self)@.wf(),
            final(self)@ == spec_skip_split(old(self)@),
    {
        let n = self.run.len();
        let can_skip = (self.phase == TimerPhase::Running || self.phase == TimerPhase::Paused)
            && match self.current_split_index {
            Some(i) => i < n && i + 1 < n,
            None => false,
        };
        if can_skip {
            let i = match self.current_split_index {
                Some(i) => i,
                None => 0,
            };
            self.run.clear_split_info_at(i);
            self.current_split_index = Some(i + 1);
            self.run.mark_as_modified();
        }
    }

    /// Removes the split time of the previous split and steps back, if
    /// an attempt is in progress and at least one split was recorded; an
    /// ended attempt returns to running. Otherwise nothing happens.
    pub fn undo_split(&mut self)
        requires
            old(self)@.wf(),
        ensures
            final(self)@.wf(),
            final(self)@ == spec_undo_split(old(self)@),
    {
        let can_undo = self.phase != TimerPhase::NotRunning && match self.current_split_index {
            Some(i) => i > 0,
            None => false,
        };
        if can_undo {
            if self.phase == TimerPhase::Ended {
                self.phase = TimerPhase::Running;
            }
            let i = match self.current_split_index {
                Some(i) => i - 1,
                None => 0,
            };
            self.current_split_index = Some(i);
            self.run.clear_split_info_at(i);
            self.run.mark_as_modified();
        }
    }
}

impl Timer {
    /// Pauses a running attempt; otherwise nothing happens.
    pub fn pause(&mut self)
        requires
            old(self)@.wf(),
        ensures
            final(self)@.wf(),
            exists|now: int| final(self)@ == #[trigger] spec_pause(old(self)@, now),
            old(self)@.clock matches Some(n) ==> final(self)@ == spec_pause(old(self)@, n),
    {
        let (t0, t0_utc) = self.now();
        if self.phase == TimerPhase::Running {
            let current_time = self.current_time_at(t0, t0_utc);
            match current_time.real_time {
                Some(rt) => {
                    self.time_paused_at = rt;
                },
                None => {},
            }
            self.phase = TimerPhase::Paused;
        }
        proof {
            assert(self@ == spec_pause(old(self)@, t0@));
        }
    }

    /// Resumes a paused attempt; otherwise nothing happens.
    pub fn resume(&mut self)
        requires
            old(self)@.wf(),
        ensures
            final(self)@.wf(),
            exists|now: int|
                final(self)@ == #[trigger] spec_resume(old(self)@, now, old(self)@.clock is None),
            old(self)@.clock matches Some(n) ==> final(self)@ == spec_resume(old(self)@, n, false),
    {
        let (t0, t0_utc) = self.now();
        if self.phase == TimerPhase::Paused {
            self.adjusted_start_time = t0.minus_span(self.time_paused_at);
            self.adjusted_start_time_utc = t0_utc.minus_span(self.time_paused_at);
            self.phase = TimerPhase::Running;
        }
        proof {
            assert(self@ == spec_resume(old(self)@, t0@, old(self)@.clock is None));
        }
    }

    /// Toggles an active attempt between paused and running; otherwise
    /// nothing happens.
    pub fn toggle_pause(&mut self)
        requires
            old(self)@.wf(),
        ensures
            final(self)@.wf(),
            old(self)@.phase == TimerPhase::Running ==> exists|now: int|
                final(self)@ == #[trigger] spec_pause(old(self)@, now),
            old(self)@.phase == TimerPhase::Paused ==> exists|now: int|
                final(self)@ == #[trigger] spec_resume(old(self)@, now, old(self)@.clock is None),
            old(self)@.phase == TimerPhase::NotRunning || old(self)@.phase == TimerPhase::Ended
                ==> final(self)@ == old(self)@,
    {
        match self.phase {
            TimerPhase::Running => self.pause(),
            TimerPhase::Paused => self.resume(),
            _ => {},
        }
    }

    /// Toggles an active attempt between paused and running, or starts a
    /// new attempt if none is in progress.
    pub fn toggle_pause_or_start(&mut self)
        requires
            old(self)@.wf(),
        ensures
            final(self)@.wf(),
            old(self)@.phase == TimerPhase::Running ==> exists|now: int|
                final(self)@ == #[trigger] spec_pause(old(self)@, now),
            old(self)@.phase == TimerPhase::Paused ==> exists|now: int|
                final(self)@ == #[trigger] spec_resume(old(self)@, now, old(self)@.clock is None),
            old(self)@.phase == TimerPhase::NotRunning ==> exists|now: int|
                final(self)@ == #[trigger] spec_start(old(self)@, now, old(self)@.clock is None),
            old(self)@.phase == TimerPhase::Ended ==> final(self)@ == old(self)@,
    {
        match self.phase {
            TimerPhase::Running => self.pause(),
            TimerPhase::Paused => self.resume(),
            TimerPhase::NotRunning => self.start(),
            _ => {},
        }
    }

    /// The total pause time of the current attempt, absent when there
    /// has been no pause.
    pub fn get_pause_time(&self) -> (r: Option<TimeSpan>)
        requires
            self@.wf(),
        ensures
            exists|now: int| span_opt(r) == #[trigger] self@.pause_time_at(now),
            self@.clock matches Some(n) ==> span_opt(r) == self@.pause_time_at(n),
    {
        let (t0, t0_utc) = self.now();
        let r = self.pause_time_with(t0, t0_utc);
        proof {
            assert(span_opt(r) == self@.pause_time_at(t0@));
        }
        r
    }

    /// The total pause time computed against a given instant.
    fn pause_time_with(&self, now: TimeStamp, now_utc: AtomicDateTime) -> (r: Option<TimeSpan>)
        requires
            self@.wf(),
            now@ == now_utc@.nanos,
        ensures
            span_opt(r) == self@.pause_time_at(now@),
    {
        match self.phase {
            TimerPhase::Paused => {
                if self.use_utc {
                    Some(
                        now_utc.minus_date(self.start_time_with_offset_utc).minus(
                            self.time_paused_at,
                        ),
                    )
                } else {
                    Some(now.minus_stamp(self.start_time_with_offset).minus(self.time_paused_at))
                }
            },
            TimerPhase::Running | TimerPhase::Ended => {
                if self.use_utc {
                    let differ = self.start_time_with_offset_utc.unix_nanos()
                        != self.adjusted_start_time_utc.unix_nanos()
                        || self.start_time_with_offset_utc.synced()
                        != self.adjusted_start_time_utc.synced();
                    if differ {
                        Some(self.adjusted_start_time_utc.minus_date(self.start_time_with_offset_utc))
                    } else {
                        None
                    }
                } else {
                    if self.start_time_with_offset.nanos() != self.adjusted_start_time.nanos() {
                        Some(self.adjusted_start_time.minus_stamp(self.start_time_with_offset))
                    } else {
                        None
                    }
                }
            },
            TimerPhase::NotRunning => None,
        }
    }

    /// The duration of the current attempt: unaffected by the run's
    /// offset, pauses included; zero while no attempt is in progress.
    pub fn current_attempt_duration(&self) -> (r: TimeSpan)
        requires
            self@.wf(),
        ensures
            exists|now: int| r@ == #[trigger] self@.duration_at(now),
            self@.clock matches Some(n) ==> r@ == self@.duration_at(n),
    {
        let (t0, t0_utc) = self.now();
        let r = match self.phase {
            TimerPhase::NotRunning => TimeSpan::zero(),
            TimerPhase::Running | TimerPhase::Paused => {
                if self.use_utc {
                    t0_utc.minus_date(self.start_time_utc)
                } else {
                    t0.minus_stamp(self.start_time)
                }
            },
            TimerPhase::Ended => {
                match (self.attempt_ended, self.attempt_started) {
                    (Some(e), Some(s)) => e.minus_date(s),
                    _ => TimeSpan::zero(),
                }
            },
        };
        proof {
            assert(r@ == self@.duration_at(t0@));
        }
        r
    }

    /// Removes all pause time from the current attempt: resumes a paused
    /// attempt, extends an ended attempt's final split time by the pause
    /// time, and collapses the adjusted start anchors.
    pub fn undo_all_pauses(&mut self)
        requires
            old(self)@.wf(),
        ensures
            final(self)@.wf(),
            exists|now: int|
                final(self)@ == #[trigger] spec_undo_all_pauses(
                    old(self)@,
                    now,
                    old(self)@.clock is None,
                ),
            old(self)@.clock matches Some(n) ==> final(self)@ == spec_undo_all_pauses(
                old(self)@,
                n,
                false,
            ),
    {
        let (t0, t0_utc) = self.now();
        match self.phase {
            TimerPhase::Paused => {
                self.adjusted_start_time = t0.minus_span(self.time_paused_at);
                self.adjusted_start_time_utc = t0_utc.minus_span(self.time_paused_at);
                self.phase = TimerPhase::Running;
            },
            TimerPhase::Ended => {
                let pause_time = match self.pause_time_with(t0, t0_utc) {
                    Some(p) => p,
                    None => TimeSpan::zero(),
                };
                let li = self.run.len() - 1;
                let extension = Time {
                    real_time: Some(pause_time),
                    game_time: Some(pause_time),
                };
                let new_split = self.run.segment(li).split_time().plus(extension);
                self.run.set_split_time_at(li, new_split);
            },
            _ => {},
        }
        self.adjusted_start_time = self.start_time_with_offset;
        self.adjusted_start_time_utc = self.start_time_with_offset_utc;
        proof {
            assert(self@.run.segments.len() >= 1);
            if old(self)@.phase == TimerPhase::Ended {
                assert(self@.run.segments.last() == self@.run.segments[
                    self@.run.segments.len() - 1
                ]);
            }
            assert(self@ == spec_undo_all_pauses(old(self)@, t0@, old(self)@.clock is None));
        }
    }

    /// Pauses the game timer, freezing the Game Time reading; nothing
    /// happens if it is already paused.
    pub fn pause_game_time(&mut self)
        requires
            old(self)@.wf(),
        ensures
            final(self)@.wf(),
            exists|now: int| final(self)@ == #[trigger] spec_pause_game_time(old(self)@, now),
            old(self)@.clock matches Some(n) ==> final(self)@ == spec_pause_game_time(
                old(self)@,
                n,
            ),
    {
        let (t0, t0_utc) = self.now();
        if !self.is_game_time_paused {
            let current_time = self.current_time_at(t0, t0_utc);
            self.game_time_pause_time = match current_time.game_time {
                Some(g) => Some(g),
                None => current_time.real_time,
            };
            self.is_game_time_paused = true;
        }
        proof {
            assert(self@ == spec_pause_game_time(old(self)@, t0@));
        }
    }

    /// Resumes the game timer so that Game Time advances like Real Time
    /// again, continuing from the value it was frozen at; nothing
    /// happens if it is not paused.
    pub fn resume_game_time(&mut self)
        requires
            old(self)@.wf(),
        ensures
            final(self)@.wf(),
            exists|now: int| final(self)@ == #[trigger] spec_resume_game_time(old(self)@, now),
            old(self)@.clock matches Some(n) ==> final(self)@ == spec_resume_game_time(
                old(self)@,
                n,
            ),
    {
        let (t0, t0_utc) = self.now();
        self.resume_game_time_with(t0, t0_utc);
        proof {
            assert(self@ == spec_resume_game_time(old(self)@, t0@));
        }
    }

    /// Resumes the game timer against a given instant.
    fn resume_game_time_with(&mut self, now: TimeStamp, now_utc: AtomicDateTime)
        requires
            old(self)@.wf(),
            now@ == now_utc@.nanos,
        ensures
            final(self)@.wf(),
            final(self)@ == spec_resume_game_time(old(self)@, now@),
    {
        if self.is_game_time_paused {
            let current_time = self.current_time_at(now, now_utc);
            let diff = match (current_time.real_time, current_time.game_time) {
                (Some(r), Some(g)) => r.minus(g),
                _ => TimeSpan::zero(),
            };
            self.set_loading_times_with(diff, now, now_utc);
            self.is_game_time_paused = false;
        }
    }

    /// Sets the loading times against a given instant.
    fn set_loading_times_with(&mut self, time: TimeSpan, now: TimeStamp, now_utc: AtomicDateTime)
        requires
            old(self)@.wf(),
            now@ == now_utc@.nanos,
        ensures
            final(self)@.wf(),
            final(self)@ == spec_set_loading_times(old(self)@, time@, now@),
    {
        if self.is_game_time_paused {
            let current_time = self.current_time_at(now, now_utc);
            match current_time.real_time {
                Some(rt) => {
                    self.game_time_pause_time = Some(rt.minus(time));
                },
                None => {},
            }
        }
        self.loading_times = Some(time);
    }

    /// Specifies the time the game has been loading; Game Time is then
    /// Real Time minus this value. A paused game timer's frozen reading
    /// is re-derived to match.
    pub fn set_loading_times(&mut self, time: TimeSpan)
        requires
            old(self)@.wf(),
        ensures
            final(self)@.wf(),
            exists|now: int|
                final(self)@ == #[trigger] spec_set_loading_times(old(self)@, time@, now),
            old(self)@.clock matches Some(n) ==> final(self)@ == spec_set_loading_times(
                old(self)@,
                time@,
                n,
            ),
    {
        let (t0, t0_utc) = self.now();
        self.set_loading_times_with(time, t0, t0_utc);
        proof {
            assert(self@ == spec_set_loading_times(old(self)@, time@, t0@));
        }
    }

    /// Sets the Game Time to the given value, also while the game timer
    /// is paused, so that the Game Timer never shows a time that did not
    /// come from the game.
    pub fn set_game_time(&mut self, game_time: TimeSpan)
        requires
            old(self)@.wf(),
        ensures
            final(self)@.wf(),
            exists|now: int|
                final(self)@ == #[trigger] spec_set_game_time(old(self)@, game_time@, now),
            old(self)@.clock matches Some(n) ==> final(self)@ == spec_set_game_time(
                old(self)@,
                game_time@,
                n,
            ),
    {
        let (t0, t0_utc) = self.now();
        if self.is_game_time_paused {
            self.game_time_pause_time = Some(game_time);
        }
        let current_time = self.current_time_at(t0, t0_utc);
        match current_time.real_time {
            Some(rt) => {
                self.loading_times = Some(rt.minus(game_time));
            },
            None => {},
        }
        proof {
            assert(self@ == spec_set_game_time(old(self)@, game_time@, t0@));
        }
    }
}

impl Timer {
    /// Promotes the current attempt to the personal best.
    fn set_run_as_pb_internal(&mut self)
        requires
            old(self)@.wf(),
        ensures
            final(self)@.wf(),
            final(self)@ == spec_set_run_as_pb(old(self)@),
    {
        proof {
            crate::run::lemma_import_pb_from_shape(
                self@.run.segments,
                0,
                crate::run::spec_import_id(self@.run.segments),
                0,
                0,
            );
        }
        self.run.import_pb_into_segment_history();
        self.run.set_splits_as_pb();
        self.run.clear_run_id();
        proof {
            assert(self@ == spec_set_run_as_pb(old(self)@));
            assert(self@.run.segments.len() == old(self)@.run.segments.len());
            if self@.phase == TimerPhase::Ended {
                let li = self@.run.segments.len() - 1;
                assert(self@.run.segments[li].split_time
                    == old(self)@.run.segments[li].split_time);
            }
        }
    }

    /// Updates the personal best from the current attempt if the last
    /// segment's split time under the current timing method beats it.
    fn update_pb_splits_internal(&mut self)
        requires
            old(self)@.wf(),
        ensures
            final(self)@.wf(),
            final(self)@ == spec_update_pb_splits(old(self)@),
    {
        let li = self.run.len() - 1;
        proof {
            assert(self@.run.segments.last() == self@.run.segments[li as int]);
        }
        let split_time = self.run.segment(li).split_time().by_method(self.current_timing_method);
        let pb_time = self.run.segment(li).personal_best_split_time().by_method(
            self.current_timing_method,
        );
        let improved = match split_time {
            Some(s) => match pb_time {
                Some(p) => s.lt(&p),
                None => true,
            },
            None => false,
        };
        if improved {
            self.set_run_as_pb_internal();
        }
    }

    /// The stateful half of a reset, against a given instant.
    fn reset_state_with(&mut self, update_times: bool, now: TimeStamp, now_utc: AtomicDateTime)
        requires
            old(self)@.wf(),
            now@ == now_utc@.nanos,
        ensures
            final(self)@.wf(),
            final(self)@ == spec_reset_state(old(self)@, now@, now_utc@.synced, update_times),
    {
        if !(self.phase == TimerPhase::Ended) {
            self.attempt_ended = Some(now_utc);
        }
        proof {
            assert(self@ == spec_record_attempt_end(old(self)@, now@, now_utc@.synced));
        }
        self.resume_game_time_with(now, now_utc);
        self.set_loading_times_with(TimeSpan::zero(), now, now_utc);
        if update_times {
            let ghost t3 = self@;
            let time = if self.phase == TimerPhase::Ended {
                self.current_time_at(now, now_utc)
            } else {
                Time::new()
            };
            let pause_time = self.pause_time_with(now, now_utc);
            let started = self.attempt_started;
            let ended = self.attempt_ended;
            self.run.add_attempt(time, started, ended, pause_time);
            proof {
                assert(self@ == spec_update_attempt_history(t3, now@));
            }
            let ghost t4 = self@;
            self.run.update_best_segments();
            proof {
                assert(self@ == spec_update_best_segments(t4));
                crate::run::lemma_best_segments_from_shape(t4.run.segments, 0, 0, 0);
                if self@.phase == TimerPhase::Ended {
                    let li = self@.run.segments.len() - 1;
                    assert(self@.run.segments[li].split_time
                        == t4.run.segments[li].split_time);
                }
                assert(self@.wf());
            }
            self.update_pb_splits_internal();
            let ghost t6 = self@;
            match self.current_split_index {
                Some(i) => {
                    self.run.update_segment_history(i);
                },
                None => {},
            }
            proof {
                assert(self@ == spec_update_segment_history(t6));
                if t6.current_split_index is Some {
                    crate::run::lemma_segment_history_from_shape(
                        t6.run.segments,
                        0,
                        t6.current_split_index.unwrap(),
                        crate::run::spec_latest_attempt_index(t6.run.attempt_history),
                        0,
                        0,
                    );
                    if self@.phase == TimerPhase::Ended {
                        let li = self@.run.segments.len() - 1;
                        assert(self@.run.segments[li].split_time
                            == t6.run.segments[li].split_time);
                    }
                }
                assert(self@.wf());
            }
        }
    }

    /// The structural half of a reset: returns the timer to not running
    /// and clears every segment's split information.
    fn reset_splits_internal(&mut self)
        requires
            old(self)@.wf(),
        ensures
            final(self)@.wf(),
            final(self)@ == spec_reset_splits(old(self)@),
    {
        self.phase = TimerPhase::NotRunning;
        self.current_split_index = None;
        self.run.clear_all_split_info();
        self.run.regenerate_comparisons();
        proof {
            let comps = old(self)@.run.comparisons;
            if !comps.contains(personal_best_name()) {
                let k = choose|k: int|
                    0 <= k < comps.len() && comps[k] == old(self)@.current_comparison;
                assert(self@.run.comparisons[k] == self@.current_comparison);
                assert(self@.run.comparisons.contains(self@.current_comparison));
            }
        }
    }

    /// Resets the current attempt, if one is in progress: when
    /// `update_splits` holds, the attempt's information is folded into
    /// the run's history; otherwise it is discarded. The timer returns
    /// to not running either way.
    pub fn reset(&mut self, update_splits: bool)
        requires
            old(self)@.wf(),
        ensures
            final(self)@.wf(),
            exists|now: int|
                final(self)@ == #[trigger] spec_reset(
                    old(self)@,
                    now,
                    old(self)@.clock is None,
                    update_splits,
                ),
            old(self)@.clock matches Some(n) ==> final(self)@ == spec_reset(
                old(self)@,
                n,
                false,
                update_splits,
            ),
    {
        let (t0, t0_utc) = self.now();
        if !(self.phase == TimerPhase::NotRunning) {
            self.reset_state_with(update_splits, t0, t0_utc);
            self.reset_splits_internal();
        }
        proof {
            assert(self@ == spec_reset(old(self)@, t0@, old(self)@.clock is None, update_splits));
        }
    }

    /// Resets the current attempt, if one is in progress, storing its
    /// split times as the new personal best.
    pub fn reset_and_set_attempt_as_pb(&mut self)
        requires
            old(self)@.wf(),
        ensures
            final(self)@.wf(),
            exists|now: int|
                final(self)@ == #[trigger] spec_reset_and_set_attempt_as_pb(
                    old(self)@,
                    now,
                    old(self)@.clock is None,
                ),
            old(self)@.clock matches Some(n) ==> final(self)@ == spec_reset_and_set_attempt_as_pb(
                old(self)@,
                n,
                false,
            ),
    {
        let (t0, t0_utc) = self.now();
        if !(self.phase == TimerPhase::NotRunning) {
            self.reset_state_with(true, t0, t0_utc);
            self.set_run_as_pb_internal();
            self.reset_splits_internal();
        }
        proof {
            assert(self@ == spec_reset_and_set_attempt_as_pb(
                old(self)@,
                t0@,
                old(self)@.clock is None,
            ));
        }
    }
}

/// The timer after `set_custom_variable`: the named metadata variable
/// gets the value, a missing one is created as temporary, and the run
/// counts as modified when the variable is permanent.
pub open spec fn spec_set_custom_variable(t: TimerVal, name: Seq<char>, value: Seq<char>) -> TimerVal {
    let vars = t.run.variables;
    if exists|k: int| 0 <= k < vars.len() && vars[k].name == name {
        let k = choose|k: int| 0 <= k < vars.len() && vars[k].name == name;
        TimerVal {
            run: RunVal {
                variables: vars.update(k, crate::run::VariableVal { value, ..vars[k] }),
                modified: t.run.modified || vars[k].is_permanent,
                ..t.run
            },
            ..t
        }
    } else {
        TimerVal {
            run: RunVal {
                variables: vars.push(
                    crate::run::VariableVal { name, value, is_permanent: false },
                ),
                ..t.run
            },
            ..t
        }
    }
}

impl Timer {
    /// Switches to the next comparison in the run's list, wrapping
    /// around at the end.
    pub fn switch_to_next_comparison(&mut self)
        requires
            old(self)@.wf(),
        ensures
            final(self)@.wf(),
            final(self)@ == spec_next_comparison(old(self)@),
    {
        let idx_opt = self.run.find_comparison(self.current_comparison.as_str());
        let n = self.run.comparisons().len();
        let i = match idx_opt {
            Some(i) => i,
            None => 0,
        };
        proof {
            if idx_opt is None {
                assert(self@.run.comparisons.contains(self@.current_comparison));
                assert(false);
            }
            let k = comparison_index(self@);
            if k < i as int {
                assert(self@.run.comparisons[k] != self@.run.comparisons[i as int]);
            } else if k > i as int {
                assert(self@.run.comparisons[i as int] != self@.run.comparisons[k]);
            }
            assert(k == i as int);
        }
        let j = if i + 1 >= n {
            0
        } else {
            i + 1
        };
        let name = self.run.comparisons()[j].clone();
        self.current_comparison = name;
        proof {
            assert(self@.run.comparisons.contains(self@.current_comparison));
        }
    }

    /// Switches to the previous comparison in the run's list, wrapping
    /// around at the start.
    pub fn switch_to_previous_comparison(&mut self)
        requires
            old(self)@.wf(),
        ensures
            final(self)@.wf(),
            final(self)@ == spec_previous_comparison(old(self)@),
    {
        let idx_opt = self.run.find_comparison(self.current_comparison.as_str());
        let n = self.run.comparisons().len();
        let i = match idx_opt {
            Some(i) => i,
            None => 0,
        };
        proof {
            if idx_opt is None {
                assert(self@.run.comparisons.contains(self@.current_comparison));
                assert(false);
            }
            let k = comparison_index(self@);
            if k < i as int {
                assert(self@.run.comparisons[k] != self@.run.comparisons[i as int]);
            } else if k > i as int {
                assert(self@.run.comparisons[i as int] != self@.run.comparisons[k]);
            }
            assert(k == i as int);
        }
        let j = if i == 0 {
            n - 1
        } else {
            i - 1
        };
        let name = self.run.comparisons()[j].clone();
        self.current_comparison = name;
        proof {
            assert(self@.run.comparisons.contains(self@.current_comparison));
        }
    }

    /// Selects the comparison with the given name; a name the run does
    /// not know is refused and nothing changes.
    pub fn set_current_comparison(&mut self, comparison: &str) -> (r: Result<(), ()>)
        requires
            old(self)@.wf(),
        ensures
            final(self)@.wf(),
            r is Ok <==> old(self)@.run.comparisons.contains(comparison@),
            final(self)@ == if old(self)@.run.comparisons.contains(comparison@) {
                TimerVal { current_comparison: comparison@, ..old(self)@ }
            } else {
                old(self)@
            },
    {
        match self.run.find_comparison(comparison) {
            Some(_) => {
                self.current_comparison = comparison.to_owned();
                Ok(())
            },
            None => Err(()),
        }
    }

    /// Sets the value of the named custom variable, creating a
    /// temporary one if it does not exist; a permanent variable marks
    /// the run modified.
    pub fn set_custom_variable(&mut self, name: &str, value: &str)
        requires
            old(self)@.wf(),
        ensures
            final(self)@.wf(),
            final(self)@ == spec_set_custom_variable(old(self)@, name@, value@),
    {
        let permanent = self.run.set_custom_variable_value(name, value);
        if permanent {
            self.run.mark_as_modified();
        }
    }

    /// Takes the run out of the timer, resetting the current attempt
    /// first; `update_splits` decides whether the attempt is stored in
    /// the run's history or discarded.
    pub fn into_run(self, update_splits: bool) -> (r: Run)
        requires
            self@.wf(),
        ensures
            exists|now: int|
                r@ == (#[trigger] spec_reset(
                    self@,
                    now,
                    self@.clock is None,
                    update_splits,
                )).run,
            self@.clock matches Some(n) ==> r@ == spec_reset(self@, n, false, update_splits).run,
    {
        let mut this = self;
        this.reset(update_splits);
        this.run
    }

    /// Replaces the run in use by the timer. A run without segments
    /// cannot be timed and comes back as the error; otherwise the old
    /// run is returned, after the current attempt was reset into it. A
    /// current comparison the new run does not know falls back to the
    /// personal best.
    pub fn replace_run(&mut self, run: Run, update_splits: bool) -> (r: Result<Run, Run>)
        requires
            old(self)@.wf(),
            run@.wf(),
        ensures
            final(self)@.wf(),
            r is Ok <==> run@.segments.len() >= 1,
            run@.segments.len() == 0 ==> final(self)@ == old(self)@ && (r matches Err(e)
                && e@ == run@),
            run@.segments.len() >= 1 ==> exists|now: int|
                {
                    let t1 = #[trigger] spec_reset(
                        old(self)@,
                        now,
                        old(self)@.clock is None,
                        update_splits,
                    );
                    let comparison = if run@.comparisons.contains(t1.current_comparison) {
                        t1.current_comparison
                    } else {
                        personal_best_name()
                    };
                    let run2 = RunVal {
                        comparisons: if run@.comparisons.contains(personal_best_name()) {
                            run@.comparisons
                        } else {
                            run@.comparisons.push(personal_best_name())
                        },
                        ..run@
                    };
                    &&& final(self)@ == (TimerVal {
                        run: run2,
                        current_comparison: comparison,
                        ..t1
                    })
                    &&& (r matches Ok(old_run) && old_run@ == t1.run)
                },
    {
        if run.is_empty() {
            return Err(run);
        }
        self.reset(update_splits);
        match run.find_comparison(self.current_comparison.as_str()) {
            Some(_) => {},
            None => {
                self.current_comparison = personal_best_name_str().to_owned();
            },
        }
        let mut new_run = run;
        new_run.regenerate_comparisons();
        proof {
            if new_run@.comparisons == run@.comparisons.push(personal_best_name()) {
                if run@.comparisons.contains(self@.current_comparison) {
                    let k = choose|k: int|
                        0 <= k < run@.comparisons.len() && run@.comparisons[k]
                            == self@.current_comparison;
                    assert(new_run@.comparisons[k] == self@.current_comparison);
                }
            }
            assert(new_run@.comparisons.contains(self@.current_comparison));
        }
        core::mem::swap(&mut self.run, &mut new_run);
        Ok(new_run)
    }

    /// Replaces the run in use by the timer, dropping the old one. A
    /// run without segments cannot be timed and comes back as the
    /// error.
    pub fn set_run(&mut self, run: Run) -> (r: Result<(), Run>)
        requires
            old(self)@.wf(),
            run@.wf(),
        ensures
            final(self)@.wf(),
            r is Ok <==> run@.segments.len() >= 1,
            run@.segments.len() == 0 ==> final(self)@ == old(self)@ && (r matches Err(e)
                && e@ == run@),
            run@.segments.len() >= 1 ==> exists|now: int|
                {
                    let t1 = #[trigger] spec_reset(
                        old(self)@,
                        now,
                        old(self)@.clock is None,
                        false,
                    );
                    let comparison = if run@.comparisons.contains(t1.current_comparison) {
                        t1.current_comparison
                    } else {
                        personal_best_name()
                    };
                    let run2 = RunVal {
                        comparisons: if run@.comparisons.contains(personal_best_name()) {
                            run@.comparisons
                        } else {
                            run@.comparisons.push(personal_best_name())
                        },
                        ..run@
                    };
                    final(self)@ == (TimerVal {
                        run: run2,
                        current_comparison: comparison,
                        ..t1
                    })
                },
    {
        match self.replace_run(run, false) {
            Ok(_) => Ok(()),
            Err(rejected) => Err(rejected),
        }
    }
}

impl Timer {
    /// Builds the snapshot of the timer, tagged with the operation it
    /// follows.
    pub fn timer_state(&self, action: Action) -> (r: crate::state::TimerState)
        requires
            self@.wf(),
        ensures
            r@ == crate::state::spec_timer_state(self@, action),
    {
        let segments = self.run.segments();
        let n = segments.len();
        let mut splits: Vec<Time> = Vec::new();
        let mut i: usize = 0;
        while i < n
            invariant
                n == self@.run.segments.len(),
                segments@.map_values(|s: Segment| s@) == self@.run.segments,
                i <= n,
                splits@.len() == i,
                forall|j: int|
                    0 <= j < i ==> (#[trigger] splits@[j])@ == self@.run.segments[j].split_time,
            decreases n - i,
        {
            splits.push(segments[i].split_time());
            i = i + 1;
        }
        proof {
            assert(splits@.map_values(|t: Time| t@) =~= self@.run.segments.map_values(
                |s: SegmentVal| s.split_time,
            ));
        }
        let split_name = match self.current_split() {
            Some(seg) => seg.name().to_owned(),
            None => "empty".to_owned(),
        };
        crate::state::TimerState {
            splits,
            phase: self.phase,
            current_split_index: self.current_split_index,
            current_timing_method: self.current_timing_method,
            current_comparison: self.current_comparison.clone(),
            attempt_started: self.attempt_started,
            attempt_ended: self.attempt_ended,
            time_paused_at: self.time_paused_at,
            is_game_time_paused: self.is_game_time_paused,
            game_time_pause_time: self.game_time_pause_time,
            loading_times: self.loading_times,
            start_time_utc: self.start_time_utc,
            start_time_with_offset_utc: self.start_time_with_offset_utc,
            adjusted_start_time_utc: self.adjusted_start_time_utc,
            split_name,
            action,
        }
    }

    /// Whether a snapshot fits this timer, so that loading it is
    /// accepted: the split counts match and the snapshot respects the
    /// timer's invariants.
    pub fn accepts_state(&self, state: &crate::state::TimerState) -> (r: bool)
        ensures
            r == crate::state::spec_state_consistent(state@, self@),
    {
        let n = self.run.len();
        let len_ok = state.splits.len() == n;
        let index_ok = match (state.phase, state.current_split_index) {
            (TimerPhase::NotRunning, opt) => opt.is_none(),
            (TimerPhase::Ended, Some(i)) => i == n,
            (TimerPhase::Ended, None) => false,
            (_, Some(i)) => i < n,
            (_, None) => false,
        };
        let comparison_ok = match self.run.find_comparison(state.current_comparison.as_str()) {
            Some(_) => true,
            None => false,
        };
        let game_ok = !state.is_game_time_paused || state.game_time_pause_time.is_some();
        let started_ok = match state.phase {
            TimerPhase::NotRunning => true,
            _ => state.attempt_started.is_some(),
        };
        let ended_ok = match state.phase {
            TimerPhase::Ended => state.attempt_ended.is_some() && state.splits.len() >= 1 && match
                state.splits[state.splits.len() - 1].real_time {
                Some(_) => true,
                None => false,
            },
            _ => true,
        };
        proof {
            if state@.splits.len() >= 1 {
                assert(state@.splits.last() == state@.splits[state@.splits.len() - 1]);
            }
        }
        len_ok && index_ok && comparison_ok && game_ok && started_ok && ended_ok
    }

    /// Loads a snapshot into the timer: every observable field is
    /// restored from its own field of the snapshot, and the monotonic
    /// anchors restart at the current instant. The snapshot must fit
    /// the run (`accepts_state`); a caller that cannot guarantee the
    /// fit has to check first and fail loudly itself.
    pub fn replace_state(&mut self, state: &crate::state::TimerState)
        requires
            old(self)@.wf(),
            crate::state::spec_state_consistent(state@, old(self)@),
        ensures
            final(self)@.wf(),
            exists|now: int|
                final(self)@ == #[trigger] crate::state::spec_replace_state(
                    old(self)@,
                    state@,
                    now,
                ),
            old(self)@.clock matches Some(n) ==> final(self)@ == crate::state::spec_replace_state(
                old(self)@,
                state@,
                n,
            ),
    {
        let (t0, _t0_utc) = self.now();
        let n = self.run.len();
        let mut i: usize = 0;
        while i < n
            invariant
                n == self@.run.segments.len(),
                n == old(self)@.run.segments.len(),
                n == state@.splits.len(),
                i <= n,
                self@ == (TimerVal {
                    run: RunVal { segments: self@.run.segments, ..old(self)@.run },
                    ..old(self)@
                }),
                forall|j: int|
                    0 <= j < i ==> self@.run.segments[j] == (SegmentVal {
                        split_time: state@.splits[j],
                        ..old(self)@.run.segments[j]
                    }),
                forall|j: int| i <= j < n ==> self@.run.segments[j] == old(self)@.run.segments[j],
            decreases n - i,
        {
            let ghost pre = self@.run.segments;
            let time = state.splits[i];
            self.run.set_split_time_at(i, time);
            proof {
                assert forall|j: int| 0 <= j < n && j != i implies self@.run.segments[j] == pre[j]
                    by {}
            }
            i = i + 1;
        }
        self.phase = state.phase;
        self.current_split_index = state.current_split_index;
        self.current_timing_method = state.current_timing_method;
        self.current_comparison = state.current_comparison.clone();
        self.attempt_started = state.attempt_started;
        self.attempt_ended = state.attempt_ended;
        self.start_time = t0;
        self.start_time_with_offset = t0;
        self.adjusted_start_time = t0;
        self.time_paused_at = state.time_paused_at;
        self.is_game_time_paused = state.is_game_time_paused;
        self.game_time_pause_time = state.game_time_pause_time;
        self.loading_times = state.loading_times;
        self.start_time_utc = state.start_time_utc;
        self.start_time_with_offset_utc = state.start_time_with_offset_utc;
        self.adjusted_start_time_utc = state.adjusted_start_time_utc;
        proof {
            assert(self@.run.segments =~= Seq::new(
                old(self)@.run.segments.len(),
                |j: int| SegmentVal { split_time: state@.splits[j], ..old(self)@.run.segments[j] },
            ));
            assert(self@ == crate::state::spec_replace_state(old(self)@, state@, t0@));
            if self@.phase == TimerPhase::Ended {
                assert(self@.run.segments.last().split_time.real == state@.splits.last().real);
            }
        }
    }
}

} // verus!
