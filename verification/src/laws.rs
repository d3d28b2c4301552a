use vstd::prelude::*;

use crate::run::SegmentVal;
use crate::state::{spec_replace_state, spec_state_consistent, spec_timer_state};
use crate::timer::{
    comparison_index, spec_next_comparison, spec_pause, spec_reset, spec_resume, Action,
    TimerPhase, TimerVal,
};

verus! {

/// The phase and the split index determine each other in every
/// well-formed timer: there is no index exactly while no attempt is in
/// progress, the index sits one past the last segment exactly while the
/// attempt has ended, and otherwise it names a real segment.
pub proof fn lemma_phase_index_correspondence(t: TimerVal)
    requires
        t.wf(),
    ensures
        t.phase == TimerPhase::NotRunning <==> t.current_split_index is None,
        t.phase == TimerPhase::Ended <==> t.current_split_index == Some(
            t.run.segments.len() as int,
        ),
        (t.phase == TimerPhase::Running || t.phase == TimerPhase::Paused)
            ==> 0 <= t.current_split_index.unwrap() < t.run.segments.len(),
{
}

/// Pausing at one instant and resuming at a later one never moves the
/// adjusted start anchor before the start-with-offset anchor: the pause
/// accounting only ever pushes the anchor forward. The hypotheses ask
/// that the clock did not run backwards between the pause and the
/// resume, that the two anchor sets agree (as every sample plants them
/// at one instant), and that no reading saturated.
pub proof fn lemma_pause_resume_anchor_order(
    t: TimerVal,
    t_pause: int,
    now: int,
    synced: bool,
)
    requires
        t.phase == TimerPhase::Running,
        t.adjusted_start_time >= t.start_time_with_offset,
        t.adjusted_start_time_utc.nanos == t.adjusted_start_time,
        t.start_time_with_offset_utc.nanos == t.start_time_with_offset,
        t_pause <= now,
        i64::MIN <= t_pause - t.adjusted_start_time <= i64::MAX,
        i64::MIN <= now - (t_pause - t.adjusted_start_time) <= i64::MAX,
    ensures
        ({
            let resumed = spec_resume(spec_pause(t, t_pause), now, synced);
            &&& resumed.adjusted_start_time >= resumed.start_time_with_offset
            &&& resumed.adjusted_start_time_utc.nanos
                >= resumed.start_time_with_offset_utc.nanos
        }),
{
}

/// While the timer runs, the Real Time reading advances exactly as the
/// clock does: two reads differ by the time that passed between them,
/// as long as neither reading saturated.
pub proof fn lemma_running_time_progression(t: TimerVal, now1: int, now2: int)
    requires
        t.phase == TimerPhase::Running,
        ({
            let anchor = if t.use_utc {
                t.adjusted_start_time_utc.nanos
            } else {
                t.adjusted_start_time
            };
            &&& i64::MIN <= now1 - anchor <= i64::MAX
            &&& i64::MIN <= now2 - anchor <= i64::MAX
        }),
    ensures
        t.time_at(now1).real is Some,
        t.time_at(now2).real is Some,
        t.time_at(now2).real.unwrap() - t.time_at(now1).real.unwrap() == now2 - now1,
{
}

/// Round trip: the snapshot of a well-formed timer, loaded into a
/// well-formed timer over a run of the same shape, restores every
/// observable the snapshot carries: phase, index, split times, timing
/// method, comparison, the game-time fields, the loading times, the
/// attempt instants and the wall-clock anchors.
pub proof fn lemma_state_round_trip(t: TimerVal, u: TimerVal, now: int)
    requires
        t.wf(),
        u.wf(),
        u.run.segments.len() == t.run.segments.len(),
        u.run.comparisons == t.run.comparisons,
    ensures
        spec_state_consistent(spec_timer_state(t, Action::NoOp), u),
        ({
            let u2 = spec_replace_state(u, spec_timer_state(t, Action::NoOp), now);
            &&& u2.phase == t.phase
            &&& u2.current_split_index == t.current_split_index
            &&& u2.run.segments.map_values(|s: SegmentVal| s.split_time) == t.run.segments.map_values(
                |s: SegmentVal| s.split_time,
            )
            &&& u2.current_timing_method == t.current_timing_method
            &&& u2.current_comparison == t.current_comparison
            &&& u2.is_game_time_paused == t.is_game_time_paused
            &&& u2.game_time_pause_time == t.game_time_pause_time
            &&& u2.loading_times == t.loading_times
            &&& u2.attempt_started == t.attempt_started
            &&& u2.attempt_ended == t.attempt_ended
            &&& u2.start_time_utc == t.start_time_utc
            &&& u2.start_time_with_offset_utc == t.start_time_with_offset_utc
            &&& u2.adjusted_start_time_utc == t.adjusted_start_time_utc
        }),
{
    let s = spec_timer_state(t, Action::NoOp);
    if t.phase == TimerPhase::Ended {
        assert(s.splits.last() == s.splits[s.splits.len() - 1]);
        assert(s.splits[s.splits.len() - 1] == t.run.segments[t.run.segments.len() - 1].split_time);
        assert(t.run.segments.last() == t.run.segments[t.run.segments.len() - 1]);
    }
    let u2 = spec_replace_state(u, s, now);
    assert(u2.run.segments.map_values(|sv: SegmentVal| sv.split_time) =~= t.run.segments.map_values(
        |sv: SegmentVal| sv.split_time,
    ));
}

/// Resetting twice is the same as resetting once: a reset always lands
/// in the not-running phase, and a reset of a not-running timer changes
/// nothing, whichever instants the clock supplied and whether or not
/// the splits were to be updated.
pub proof fn lemma_reset_idempotent(
    t: TimerVal,
    now1: int,
    now2: int,
    synced1: bool,
    synced2: bool,
    update: bool,
)
    ensures
        spec_reset(spec_reset(t, now1, synced1, update), now2, synced2, update) == spec_reset(
            t,
            now1,
            synced1,
            update,
        ),
{
}

/// `switch_to_next_comparison` applied `k` times in a row.
pub open spec fn spec_next_comparison_iter(t: TimerVal, k: nat) -> TimerVal
    decreases k,
{
    if k == 0 {
        t
    } else {
        spec_next_comparison(spec_next_comparison_iter(t, (k - 1) as nat))
    }
}

/// The position `steps` places after `start`, wrapped once around a
/// list of length `n`.
pub open spec fn wrap_position(x: int, n: int) -> int {
    if x >= n {
        x - n
    } else {
        x
    }
}

proof fn lemma_comparison_rotation_step(t: TimerVal, k: nat)
    requires
        t.wf(),
        k <= t.run.comparisons.len(),
    ensures
        spec_next_comparison_iter(t, k) == (TimerVal {
            current_comparison: t.run.comparisons[wrap_position(
                comparison_index(t) + k,
                t.run.comparisons.len() as int,
            )],
            ..t
        }),
    decreases k,
{
    let n = t.run.comparisons.len() as int;
    let i0 = comparison_index(t);
    assert(t.run.comparisons.contains(t.current_comparison));
    assert(0 <= i0 < n && t.run.comparisons[i0] == t.current_comparison);
    if k == 0 {
        assert(t.run.comparisons[wrap_position(i0, n)] == t.current_comparison);
        assert(spec_next_comparison_iter(t, 0) == (TimerVal {
            current_comparison: t.run.comparisons[wrap_position(i0 + 0, n)],
            ..t
        }));
    } else {
        lemma_comparison_rotation_step(t, (k - 1) as nat);
        let p = wrap_position(i0 + k - 1, n);
        let prev = spec_next_comparison_iter(t, (k - 1) as nat);
        assert(prev.current_comparison == t.run.comparisons[p]);
        assert(0 <= p < n);
        assert(prev.run.comparisons.contains(prev.current_comparison)) by {
            assert(prev.run.comparisons[p] == prev.current_comparison);
        }
        let q = comparison_index(prev);
        assert(0 <= q < n && prev.run.comparisons[q] == prev.current_comparison);
        if q < p {
            assert(t.run.comparisons[q] != t.run.comparisons[p]);
        } else if q > p {
            assert(t.run.comparisons[p] != t.run.comparisons[q]);
        }
        assert(q == p);
    }
}

/// Rotation: applying `switch_to_next_comparison` exactly as many times
/// as the run has comparisons returns the timer to the comparison it
/// started on, and changes nothing else.
pub proof fn lemma_comparison_rotation(t: TimerVal)
    requires
        t.wf(),
    ensures
        spec_next_comparison_iter(t, t.run.comparisons.len()) == t,
{
    let n = t.run.comparisons.len() as int;
    let i0 = comparison_index(t);
    assert(t.run.comparisons.contains(t.current_comparison));
    assert(0 <= i0 < n && t.run.comparisons[i0] == t.current_comparison);
    lemma_comparison_rotation_step(t, t.run.comparisons.len());
    assert(wrap_position(i0 + n, n) == i0);
    assert(spec_next_comparison_iter(t, t.run.comparisons.len()).current_comparison
        == t.current_comparison);
}

} // verus!
