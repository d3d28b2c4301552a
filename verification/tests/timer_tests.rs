use speedrun_timing::{
    Run, Segment, TimeSpan, Timer, TimerPhase, TimingMethod,
};

const SEC: i64 = 1_000_000_000;

fn run_with(names: &[&str]) -> Run {
    let mut run = Run::new();
    for n in names {
        run.push_segment(Segment::new((*n).to_string()));
    }
    run
}

fn secs(s: i64) -> TimeSpan {
    TimeSpan::from_seconds(s)
}

#[test]
fn happy_path_two_segments() {
    let run = run_with(&["A", "B"]);
    let mut timer = Timer::new(run).unwrap();
    timer.set_manual_clock(0);
    timer.start();
    assert_eq!(timer.current_phase(), TimerPhase::Running);
    assert_eq!(timer.current_split_index(), Some(0));

    timer.set_manual_clock(10 * SEC);
    timer.split();
    assert_eq!(timer.current_split_index(), Some(1));
    let seg_a = &timer.run().segments()[0];
    assert_eq!(seg_a.split_time().real_time, Some(secs(10)));

    timer.set_manual_clock(15 * SEC);
    timer.split();
    assert_eq!(timer.current_phase(), TimerPhase::Ended);
    let seg_b = &timer.run().segments()[1];
    assert_eq!(seg_b.split_time().real_time, Some(secs(15)));
}

#[test]
fn negative_offset_rejects_early_split() {
    let mut run = run_with(&["Only"]);
    run.set_offset(secs(-3));
    let mut timer = Timer::new(run).unwrap();
    timer.set_manual_clock(0);
    timer.start();

    timer.set_manual_clock(1 * SEC);
    let time = timer.snapshot().current_time();
    assert_eq!(time.real_time, Some(secs(-2)));

    timer.split();
    assert_eq!(timer.current_phase(), TimerPhase::Running);
    assert_eq!(timer.current_split_index(), Some(0));
    assert_eq!(timer.run().segments()[0].split_time().real_time, None);

    timer.set_manual_clock(4 * SEC);
    timer.split();
    assert_eq!(timer.current_phase(), TimerPhase::Ended);
    assert_eq!(timer.run().segments()[0].split_time().real_time, Some(secs(1)));
}

#[test]
fn pause_and_resume_freeze_real_time() {
    let run = run_with(&["Only"]);
    let mut timer = Timer::new(run).unwrap();
    timer.set_manual_clock(0);
    timer.start();

    timer.set_manual_clock(5 * SEC);
    timer.pause();
    assert_eq!(timer.current_phase(), TimerPhase::Paused);
    assert_eq!(timer.snapshot().current_time().real_time, Some(secs(5)));

    timer.set_manual_clock(15 * SEC);
    assert_eq!(timer.snapshot().current_time().real_time, Some(secs(5)));
    timer.resume();
    assert_eq!(timer.current_phase(), TimerPhase::Running);

    timer.set_manual_clock(16 * SEC);
    assert_eq!(timer.snapshot().current_time().real_time, Some(secs(6)));
    assert_eq!(timer.get_pause_time(), Some(secs(10)));
}

#[test]
fn skip_then_undo() {
    let run = run_with(&["One", "Two", "Three"]);
    let mut timer = Timer::new(run).unwrap();
    timer.set_manual_clock(0);
    timer.start();

    timer.set_manual_clock(2 * SEC);
    timer.split();
    assert_eq!(timer.current_split_index(), Some(1));

    timer.set_manual_clock(3 * SEC);
    timer.skip_split();
    assert_eq!(timer.current_split_index(), Some(2));
    assert_eq!(timer.run().segments()[1].split_time().real_time, None);

    timer.undo_split();
    assert_eq!(timer.current_split_index(), Some(1));
    assert_eq!(timer.run().segments()[1].split_time().real_time, None);
    assert_eq!(timer.current_phase(), TimerPhase::Running);
    assert_eq!(timer.run().segments()[0].split_time().real_time, Some(secs(2)));
}

#[test]
fn skip_is_refused_on_last_split() {
    let run = run_with(&["Only"]);
    let mut timer = Timer::new(run).unwrap();
    timer.set_manual_clock(0);
    timer.start();
    timer.skip_split();
    assert_eq!(timer.current_split_index(), Some(0));
}

#[test]
fn reset_with_update_promotes_personal_best() {
    let run = run_with(&["A", "B"]);
    let mut timer = Timer::new(run).unwrap();

    timer.set_manual_clock(0);
    timer.start();
    timer.set_manual_clock(10 * SEC);
    timer.split();
    timer.set_manual_clock(20 * SEC);
    timer.split();
    assert_eq!(timer.current_phase(), TimerPhase::Ended);
    timer.reset(true);

    assert_eq!(timer.current_phase(), TimerPhase::NotRunning);
    assert_eq!(timer.current_split_index(), None);
    assert_eq!(timer.run().attempt_history().len(), 1);
    assert_eq!(
        timer.run().segments()[0].personal_best_split_time().real_time,
        Some(secs(10))
    );
    assert_eq!(
        timer.run().segments()[1].personal_best_split_time().real_time,
        Some(secs(20))
    );
    assert_eq!(timer.run().segments()[0].best_segment_time().real_time, Some(secs(10)));
    assert_eq!(timer.run().segments()[1].best_segment_time().real_time, Some(secs(10)));
    assert_eq!(timer.run().segments()[0].split_time().real_time, None);
    assert_eq!(timer.run().segments()[1].split_time().real_time, None);

    // A faster attempt beats the stored personal best.
    timer.set_manual_clock(100 * SEC);
    timer.start();
    timer.set_manual_clock(109 * SEC);
    timer.split();
    timer.set_manual_clock(119 * SEC);
    timer.split();
    timer.reset(true);

    assert_eq!(timer.run().attempt_history().len(), 2);
    assert_eq!(
        timer.run().segments()[0].personal_best_split_time().real_time,
        Some(secs(9))
    );
    assert_eq!(
        timer.run().segments()[1].personal_best_split_time().real_time,
        Some(secs(19))
    );
    assert_eq!(timer.run().segments()[0].best_segment_time().real_time, Some(secs(9)));
    assert_eq!(timer.run().segments()[1].best_segment_time().real_time, Some(secs(10)));
}

#[test]
fn slower_attempt_keeps_personal_best() {
    let run = run_with(&["A"]);
    let mut timer = Timer::new(run).unwrap();

    timer.set_manual_clock(0);
    timer.start();
    timer.set_manual_clock(10 * SEC);
    timer.split();
    timer.reset(true);
    assert_eq!(
        timer.run().segments()[0].personal_best_split_time().real_time,
        Some(secs(10))
    );

    timer.set_manual_clock(100 * SEC);
    timer.start();
    timer.set_manual_clock(112 * SEC);
    timer.split();
    timer.reset(true);
    assert_eq!(
        timer.run().segments()[0].personal_best_split_time().real_time,
        Some(secs(10))
    );
    assert_eq!(timer.run().segments()[0].best_segment_time().real_time, Some(secs(10)));
}

#[test]
fn game_time_pauses_independently_of_real_time() {
    let run = run_with(&["Only"]);
    let mut timer = Timer::new(run).unwrap();
    timer.set_manual_clock(0);
    timer.start();
    assert!(!timer.is_game_time_initialized());
    timer.initialize_game_time();
    assert!(timer.is_game_time_initialized());
    timer.set_loading_times(secs(2));

    timer.set_manual_clock(10 * SEC);
    let time = timer.snapshot().current_time();
    assert_eq!(time.real_time, Some(secs(10)));
    assert_eq!(time.game_time, Some(secs(8)));

    timer.pause_game_time();
    assert!(timer.is_game_time_paused());
    timer.set_manual_clock(15 * SEC);
    let time = timer.snapshot().current_time();
    assert_eq!(time.real_time, Some(secs(15)));
    assert_eq!(time.game_time, Some(secs(8)));

    timer.resume_game_time();
    assert!(!timer.is_game_time_paused());
    assert_eq!(timer.loading_times(), secs(7));
    timer.set_manual_clock(16 * SEC);
    let time = timer.snapshot().current_time();
    assert_eq!(time.game_time, Some(secs(9)));
}

#[test]
fn set_game_time_updates_loading_times() {
    let run = run_with(&["Only"]);
    let mut timer = Timer::new(run).unwrap();
    timer.set_manual_clock(0);
    timer.start();
    timer.initialize_game_time();
    timer.set_manual_clock(10 * SEC);
    timer.set_game_time(secs(4));
    assert_eq!(timer.loading_times(), secs(6));
    let time = timer.snapshot().current_time();
    assert_eq!(time.game_time, Some(secs(4)));
}

#[test]
fn undo_all_pauses_extends_final_split() {
    let run = run_with(&["Only"]);
    let mut timer = Timer::new(run).unwrap();
    timer.set_manual_clock(0);
    timer.start();
    timer.set_manual_clock(5 * SEC);
    timer.pause();
    timer.set_manual_clock(15 * SEC);
    timer.resume();
    timer.set_manual_clock(16 * SEC);
    timer.split();
    assert_eq!(timer.current_phase(), TimerPhase::Ended);
    assert_eq!(timer.run().segments()[0].split_time().real_time, Some(secs(6)));
    assert_eq!(timer.get_pause_time(), Some(secs(10)));

    timer.undo_all_pauses();
    assert_eq!(timer.run().segments()[0].split_time().real_time, Some(secs(16)));
    assert_eq!(timer.get_pause_time(), None);
}

#[test]
fn current_attempt_duration_ignores_offset_and_pauses() {
    let mut run = run_with(&["Only"]);
    run.set_offset(secs(-10));
    let mut timer = Timer::new(run).unwrap();
    timer.set_manual_clock(0);
    assert_eq!(timer.current_attempt_duration(), secs(0));
    timer.start();
    timer.set_manual_clock(2 * SEC);
    assert_eq!(timer.current_attempt_duration(), secs(2));
    timer.pause();
    timer.set_manual_clock(7 * SEC);
    assert_eq!(timer.current_attempt_duration(), secs(7));
}

#[test]
fn reset_is_idempotent() {
    let run = run_with(&["A", "B"]);
    let mut timer = Timer::new(run).unwrap();
    timer.set_manual_clock(0);
    timer.start();
    timer.set_manual_clock(3 * SEC);
    timer.split();
    timer.reset(true);

    let phase1 = timer.current_phase();
    let history1 = timer.run().attempt_history().len();
    let split1 = timer.run().segments()[0].split_time();
    timer.reset(true);
    assert_eq!(timer.current_phase(), phase1);
    assert_eq!(timer.run().attempt_history().len(), history1);
    assert_eq!(timer.run().segments()[0].split_time(), split1);
}

#[test]
fn comparison_rotation_returns_to_start() {
    let mut run = run_with(&["Only"]);
    run.add_comparison("Best Segments".to_string()).unwrap();
    run.add_comparison("Average Segments".to_string()).unwrap();
    let mut timer = Timer::new(run).unwrap();
    assert_eq!(timer.current_comparison(), "Personal Best");

    timer.switch_to_next_comparison();
    assert_eq!(timer.current_comparison(), "Best Segments");
    timer.switch_to_next_comparison();
    assert_eq!(timer.current_comparison(), "Average Segments");
    timer.switch_to_next_comparison();
    assert_eq!(timer.current_comparison(), "Personal Best");

    timer.switch_to_previous_comparison();
    assert_eq!(timer.current_comparison(), "Average Segments");
}

#[test]
fn unknown_comparison_is_refused() {
    let run = run_with(&["Only"]);
    let mut timer = Timer::new(run).unwrap();
    assert_eq!(timer.set_current_comparison("No Such Comparison"), Err(()));
    assert_eq!(timer.current_comparison(), "Personal Best");
    assert_eq!(timer.set_current_comparison("Personal Best"), Ok(()));
}

#[test]
fn empty_run_is_refused() {
    let run = Run::new();
    match Timer::new(run) {
        Ok(_) => panic!("a run without segments must be refused"),
        Err(e) => {
            assert_eq!(e, speedrun_timing::CreationError::EmptyRun);
            assert_eq!(e.message(), "the run has no segments");
        },
    }
}

#[test]
fn replace_run_rejects_empty_and_returns_old() {
    let run = run_with(&["Only"]);
    let mut timer = Timer::new(run).unwrap();
    let empty = Run::new();
    match timer.replace_run(empty, false) {
        Ok(_) => panic!("an empty run must come back as the error"),
        Err(rejected) => assert!(rejected.is_empty()),
    }
    let fresh = run_with(&["New A", "New B"]);
    let old = timer.replace_run(fresh, false).unwrap();
    assert_eq!(old.len(), 1);
    assert_eq!(timer.run().len(), 2);
    assert_eq!(timer.current_comparison(), "Personal Best");
}

#[test]
fn into_run_resets_first() {
    let run = run_with(&["Only"]);
    let mut timer = Timer::new(run).unwrap();
    timer.set_manual_clock(0);
    timer.start();
    timer.set_manual_clock(4 * SEC);
    timer.split();
    let run = timer.into_run(true);
    assert_eq!(run.attempt_history().len(), 1);
    assert_eq!(run.segments()[0].split_time().real_time, None);
    assert_eq!(
        run.segments()[0].personal_best_split_time().real_time,
        Some(secs(4))
    );
}

#[test]
fn split_or_start_and_toggles() {
    let run = run_with(&["A", "B"]);
    let mut timer = Timer::new(run).unwrap();
    timer.set_manual_clock(0);
    timer.split_or_start();
    assert_eq!(timer.current_phase(), TimerPhase::Running);
    timer.set_manual_clock(1 * SEC);
    timer.split_or_start();
    assert_eq!(timer.current_split_index(), Some(1));

    timer.toggle_pause();
    assert_eq!(timer.current_phase(), TimerPhase::Paused);
    timer.toggle_pause();
    assert_eq!(timer.current_phase(), TimerPhase::Running);

    timer.reset(false);
    timer.toggle_pause_or_start();
    assert_eq!(timer.current_phase(), TimerPhase::Running);
}

#[test]
fn phase_and_index_correspond_in_every_phase() {
    let run = run_with(&["Only"]);
    let mut timer = Timer::new(run).unwrap();
    timer.set_manual_clock(0);
    assert_eq!(timer.current_phase(), TimerPhase::NotRunning);
    assert_eq!(timer.current_split_index(), None);

    timer.start();
    assert_eq!(timer.current_split_index(), Some(0));

    timer.set_manual_clock(1 * SEC);
    timer.pause();
    assert_eq!(timer.current_split_index(), Some(0));
    timer.resume();

    timer.set_manual_clock(2 * SEC);
    timer.split();
    assert_eq!(timer.current_phase(), TimerPhase::Ended);
    assert_eq!(timer.current_split_index(), Some(1));

    timer.reset(false);
    assert_eq!(timer.current_phase(), TimerPhase::NotRunning);
    assert_eq!(timer.current_split_index(), None);
}

#[test]
fn loading_times_presence_is_game_time_initialized() {
    let run = run_with(&["Only"]);
    let mut timer = Timer::new(run).unwrap();
    assert!(!timer.is_game_time_initialized());
    timer.initialize_game_time();
    assert!(timer.is_game_time_initialized());
    timer.deinitialize_game_time();
    assert!(!timer.is_game_time_initialized());
    timer.set_loading_times(secs(1));
    assert!(timer.is_game_time_initialized());
    timer.set_manual_clock(0);
    timer.start();
    assert!(!timer.is_game_time_initialized());
}

#[test]
fn custom_variables_are_snapshot_on_split() {
    let run = run_with(&["Only"]);
    let mut timer = Timer::new(run).unwrap();
    timer.set_manual_clock(0);
    timer.start();
    timer.set_custom_variable("deaths", "3");
    timer.set_manual_clock(1 * SEC);
    timer.split();
    let vars = timer.run().segments()[0].variables();
    assert_eq!(vars.len(), 1);
    assert_eq!(vars[0].0, "deaths");
    assert_eq!(vars[0].1, "3");
    let stored = timer.run().custom_variables();
    assert_eq!(stored.len(), 1);
    assert_eq!(stored[0].name(), "deaths");
    assert_eq!(stored[0].value(), "3");
    assert!(!stored[0].is_permanent());
}

#[test]
fn attempt_history_records_time_and_pauses() {
    let run = run_with(&["Only"]);
    let mut timer = Timer::new(run).unwrap();
    timer.set_manual_clock(0);
    timer.start();
    timer.set_manual_clock(5 * SEC);
    timer.pause();
    timer.set_manual_clock(8 * SEC);
    timer.resume();
    timer.set_manual_clock(10 * SEC);
    timer.split();
    timer.reset(true);

    let history = timer.run().attempt_history();
    assert_eq!(history.len(), 1);
    assert_eq!(history[0].index(), 1);
    assert_eq!(history[0].time().real_time, Some(secs(7)));
    assert_eq!(history[0].pause_time(), Some(secs(3)));
    assert_eq!(timer.run().attempt_count(), 1);
}

#[test]
fn segment_history_gets_the_attempt_deltas() {
    let run = run_with(&["A", "B"]);
    let mut timer = Timer::new(run).unwrap();
    timer.set_manual_clock(0);
    timer.start();
    timer.set_manual_clock(4 * SEC);
    timer.split();
    timer.set_manual_clock(9 * SEC);
    timer.split();
    timer.reset(true);

    // Promoting the attempt to the personal best first imports the old
    // (absent) personal best under a negative index; the attempt's own
    // deltas follow under the attempt index.
    let seg_a = &timer.run().segments()[0];
    let seg_b = &timer.run().segments()[1];
    assert_eq!(seg_a.history().len(), 2);
    assert_eq!(seg_b.history().len(), 2);
    assert_eq!(seg_a.history()[0].0, -1);
    assert_eq!(seg_a.history()[0].1.real_time, None);
    assert_eq!(seg_a.history()[1].0, 1);
    assert_eq!(seg_a.history()[1].1.real_time, Some(secs(4)));
    assert_eq!(seg_b.history()[1].1.real_time, Some(secs(5)));
}

#[test]
fn reset_and_set_attempt_as_pb_overrides_slower_pb() {
    let run = run_with(&["Only"]);
    let mut timer = Timer::new(run).unwrap();
    timer.set_manual_clock(0);
    timer.start();
    timer.set_manual_clock(10 * SEC);
    timer.split();
    timer.reset(true);
    assert_eq!(
        timer.run().segments()[0].personal_best_split_time().real_time,
        Some(secs(10))
    );

    // A slower attempt would not be promoted by a plain reset, but
    // reset_and_set_attempt_as_pb forces it.
    timer.set_manual_clock(100 * SEC);
    timer.start();
    timer.set_manual_clock(115 * SEC);
    timer.split();
    timer.reset_and_set_attempt_as_pb();
    assert_eq!(timer.current_phase(), TimerPhase::NotRunning);
    assert_eq!(
        timer.run().segments()[0].personal_best_split_time().real_time,
        Some(secs(15))
    );
    assert_eq!(timer.run().run_id(), "");
}

#[test]
fn toggle_timing_method_flips() {
    let run = run_with(&["Only"]);
    let mut timer = Timer::new(run).unwrap();
    assert_eq!(timer.current_timing_method(), TimingMethod::RealTime);
    timer.toggle_timing_method();
    assert_eq!(timer.current_timing_method(), TimingMethod::GameTime);
    timer.toggle_timing_method();
    assert_eq!(timer.current_timing_method(), TimingMethod::RealTime);
    timer.set_current_timing_method(TimingMethod::GameTime);
    assert_eq!(timer.current_timing_method(), TimingMethod::GameTime);
}

#[test]
fn modification_flag_follows_operations() {
    let run = run_with(&["Only"]);
    let mut timer = Timer::new(run).unwrap();
    assert!(!timer.run().has_been_modified());
    timer.set_manual_clock(0);
    timer.start();
    assert!(timer.run().has_been_modified());
    timer.mark_as_unmodified();
    assert!(!timer.run().has_been_modified());
}
