use speedrun_timing::{
    Action, Cache, ComponentState, Run, Segment, Time, TimeSpan, Timer, TimerPhase, TimingMethod,
};

const SEC: i64 = 1_000_000_000;

fn run_with(names: &[&str]) -> Run {
    let mut run = Run::new();
    for n in names {
        run.push_segment(Segment::new((*n).to_string()));
    }
    run
}

fn secs(s: i64) -> TimeSpan {
    TimeSpan::from_seconds(s)
}

#[test]
fn state_round_trip_restores_observables() {
    let run = run_with(&["A", "B", "C"]);
    let mut timer = Timer::new(run).unwrap();
    timer.set_manual_clock(0);
    timer.start();
    timer.set_manual_clock(4 * SEC);
    timer.split();
    timer.initialize_game_time();
    timer.set_loading_times(secs(1));

    let state = timer.timer_state(Action::NoOp);
    assert_eq!(state.phase, TimerPhase::Running);
    assert_eq!(state.current_split_index, Some(1));
    assert_eq!(state.split_name, "B");
    assert_eq!(state.splits.len(), 3);
    assert_eq!(state.splits[0].real_time, Some(secs(4)));

    let run2 = run_with(&["A", "B", "C"]);
    let mut other = Timer::new(run2).unwrap();
    other.set_manual_clock(100 * SEC);
    assert!(other.accepts_state(&state));
    other.replace_state(&state);

    assert_eq!(other.current_phase(), TimerPhase::Running);
    assert_eq!(other.current_split_index(), Some(1));
    assert_eq!(other.current_comparison(), "Personal Best");
    assert_eq!(other.run().segments()[0].split_time().real_time, Some(secs(4)));
    assert_eq!(other.run().segments()[1].split_time().real_time, None);
    assert!(other.is_game_time_initialized());
    assert!(!other.is_game_time_paused());
    assert_eq!(other.loading_times(), secs(1));

    let state2 = other.timer_state(Action::NoOp);
    assert_eq!(state2.phase, state.phase);
    assert_eq!(state2.current_split_index, state.current_split_index);
    assert_eq!(state2.current_comparison, state.current_comparison);
    assert_eq!(state2.splits, state.splits);
    assert_eq!(state2.attempt_started, state.attempt_started);
    assert_eq!(state2.attempt_ended, state.attempt_ended);
    assert_eq!(state2.time_paused_at, state.time_paused_at);
    assert_eq!(state2.game_time_pause_time, state.game_time_pause_time);
    assert_eq!(state2.loading_times, state.loading_times);
    assert_eq!(state2.start_time_utc, state.start_time_utc);
    assert_eq!(
        state2.start_time_with_offset_utc,
        state.start_time_with_offset_utc
    );
    assert_eq!(state2.adjusted_start_time_utc, state.adjusted_start_time_utc);
    assert_eq!(state2.split_name, state.split_name);
}

#[test]
fn state_with_wrong_split_count_is_refused() {
    let run = run_with(&["A", "B"]);
    let mut timer = Timer::new(run).unwrap();
    timer.set_manual_clock(0);
    timer.start();
    let state = timer.timer_state(Action::NoOp);

    let run2 = run_with(&["Lonely"]);
    let other = Timer::new(run2).unwrap();
    assert!(!other.accepts_state(&state));
}

#[test]
fn snapshot_freezes_the_reading() {
    let run = run_with(&["Only"]);
    let mut timer = Timer::new(run).unwrap();
    timer.set_manual_clock(0);
    timer.start();
    timer.set_manual_clock(3 * SEC);
    let snapshot = timer.snapshot();
    let first = snapshot.current_time();
    let second = snapshot.current_time();
    assert_eq!(first, second);
    assert_eq!(first.real_time, Some(secs(3)));
    assert_eq!(snapshot.timer().current_phase(), TimerPhase::Running);
}

#[test]
fn phase_names_round_trip() {
    let phases = [
        TimerPhase::NotRunning,
        TimerPhase::Running,
        TimerPhase::Paused,
        TimerPhase::Ended,
    ];
    for phase in phases {
        assert_eq!(TimerPhase::from_name(phase.name()), Some(phase));
    }
    assert_eq!(TimerPhase::from_name("HalfRunning"), None);
    assert_eq!(TimerPhase::NotRunning.name(), "NotRunning");
}

#[test]
fn action_names_match_the_schema() {
    assert_eq!(Action::NoOp.name(), "None");
    assert_eq!(Action::Start.name(), "Start");
    assert_eq!(Action::Split.name(), "Split");
    assert_eq!(Action::Skip.name(), "Skip");
    assert_eq!(Action::Undo.name(), "Undo");
    assert_eq!(Action::Reset.name(), "Reset");
    assert_eq!(Action::Pause.name(), "Pause");
    assert_eq!(Action::Resume.name(), "Resume");
}

#[test]
fn component_cache_dispatch() {
    assert_eq!(Cache::new(&ComponentState::DetailedTimer), Cache::DetailedTimer);
    assert_eq!(Cache::new(&ComponentState::Splits), Cache::Splits);
    assert_eq!(Cache::new(&ComponentState::Title), Cache::Title);
    assert_eq!(Cache::new(&ComponentState::Timer), Cache::Empty);
    assert_eq!(Cache::new(&ComponentState::BlankSpace), Cache::Empty);
    let mut cache = Cache::new(&ComponentState::Splits);
    cache.make_empty();
    assert_eq!(cache, Cache::Empty);
}

#[test]
fn system_clock_timer_still_steps_through_phases() {
    let run = run_with(&["Only"]);
    let mut timer = Timer::new(run).unwrap();
    timer.start();
    assert_eq!(timer.current_phase(), TimerPhase::Running);
    timer.reset(false);
    assert_eq!(timer.current_phase(), TimerPhase::NotRunning);
    timer.use_system_clock();
    timer.use_utc(false);
    timer.start();
    assert_eq!(timer.current_phase(), TimerPhase::Running);
}

#[test]
fn saturating_span_arithmetic() {
    let big = TimeSpan::from_nanos(i64::MAX);
    let one = TimeSpan::from_nanos(1);
    assert_eq!(big.plus(one), TimeSpan::from_nanos(i64::MAX));
    let small = TimeSpan::from_nanos(i64::MIN);
    assert_eq!(small.minus(one), TimeSpan::from_nanos(i64::MIN));
    assert_eq!(TimeSpan::from_seconds(3).total_nanos(), 3 * SEC);
    assert_eq!(TimeSpan::from_seconds(i64::MAX).total_nanos(), i64::MAX);
    assert!(TimeSpan::from_nanos(-1).lt(&TimeSpan::zero()));
    assert!(!TimeSpan::from_nanos(-1).is_non_negative());
}

#[test]
fn custom_variable_overwrite_keeps_one_entry() {
    let run = run_with(&["Only"]);
    let mut timer = Timer::new(run).unwrap();
    timer.set_custom_variable("deaths", "3");
    timer.set_custom_variable("deaths", "4");
    let vars = timer.run().custom_variables();
    assert_eq!(vars.len(), 1);
    assert_eq!(vars[0].value(), "4");
}

#[test]
fn undo_all_pauses_resumes_a_paused_attempt() {
    let run = run_with(&["Only"]);
    let mut timer = Timer::new(run).unwrap();
    timer.set_manual_clock(0);
    timer.start();
    timer.set_manual_clock(5 * SEC);
    timer.pause();
    timer.set_manual_clock(9 * SEC);
    timer.undo_all_pauses();
    assert_eq!(timer.current_phase(), TimerPhase::Running);
    assert_eq!(timer.get_pause_time(), None);
    timer.set_manual_clock(10 * SEC);
    assert_eq!(timer.snapshot().current_time().real_time, Some(secs(10)));
}

#[test]
fn set_loading_times_rederives_a_paused_game_time() {
    let run = run_with(&["Only"]);
    let mut timer = Timer::new(run).unwrap();
    timer.set_manual_clock(0);
    timer.start();
    timer.initialize_game_time();
    timer.set_manual_clock(5 * SEC);
    timer.pause_game_time();
    assert_eq!(timer.snapshot().current_time().game_time, Some(secs(5)));
    timer.set_loading_times(secs(2));
    assert_eq!(timer.snapshot().current_time().game_time, Some(secs(3)));
}

#[test]
fn replace_run_keeps_a_comparison_both_runs_know() {
    let mut run = run_with(&["Only"]);
    run.add_comparison("Best Segments".to_string()).unwrap();
    let mut timer = Timer::new(run).unwrap();
    timer.set_current_comparison("Best Segments").unwrap();

    let mut fresh = run_with(&["Other"]);
    fresh.add_comparison("Best Segments".to_string()).unwrap();
    timer.replace_run(fresh, false).unwrap();
    assert_eq!(timer.current_comparison(), "Best Segments");

    let plain = run_with(&["Plain"]);
    timer.replace_run(plain, false).unwrap();
    assert_eq!(timer.current_comparison(), "Personal Best");
}

#[test]
fn time_builders_and_method_selection() {
    let time = Time::new()
        .with_real_time(Some(secs(10)))
        .with_game_time(Some(secs(8)));
    assert_eq!(time.by_method(TimingMethod::RealTime), Some(secs(10)));
    assert_eq!(time.by_method(TimingMethod::GameTime), Some(secs(8)));
    let extension = Time::new().with_real_time(Some(secs(1)));
    let sum = time.plus(extension);
    assert_eq!(sum.real_time, Some(secs(11)));
    assert_eq!(sum.game_time, None);
    assert_eq!(Time::new().real_time, None);
}
