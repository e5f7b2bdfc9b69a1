use ghost_maze::mode::{
    phase, start_frightened_timer, tick_frightened, tick_mode, FrightenedMode, FrightenedTimer,
    Mode, ModeController, ModeTimer, FRIGHTENED_DURATION, SECOND,
};
use ghost_maze::timer::{Countdown, TimerKind};

const MS: u64 = 1_000_000;

#[test]
fn phase_table() {
    assert_eq!(phase(0), (Mode::Scatter, Some(7 * SECOND)));
    assert_eq!(phase(1), (Mode::Chase, Some(20 * SECOND)));
    assert_eq!(phase(2), (Mode::Scatter, Some(7 * SECOND)));
    assert_eq!(phase(3), (Mode::Chase, Some(20 * SECOND)));
    assert_eq!(phase(4), (Mode::Scatter, Some(5 * SECOND)));
    assert_eq!(phase(5), (Mode::Chase, Some(20 * SECOND)));
    assert_eq!(phase(6), (Mode::Scatter, Some(5 * SECOND)));
    assert_eq!(phase(7), (Mode::Chase, None));
}

#[test]
fn repeating_timer_keeps_the_overshoot() {
    let mut timer = Countdown::new(7 * SECOND, TimerKind::Repeating);
    timer.tick(3 * SECOND);
    assert!(!timer.finished());
    assert_eq!(timer.elapsed(), 3 * SECOND);
    assert_eq!(timer.remaining(), 4 * SECOND);
    timer.tick(5 * SECOND);
    assert!(timer.finished());
    assert_eq!(timer.elapsed(), SECOND);
    timer.tick(SECOND);
    assert!(!timer.finished());
    assert_eq!(timer.elapsed(), 2 * SECOND);
    // Several rounds in one step: what is left after whole durations.
    timer.tick(20 * SECOND);
    assert!(timer.finished());
    assert_eq!(timer.elapsed(), SECOND);
}

#[test]
fn repeating_timer_finishes_exactly_at_its_duration() {
    let mut timer = Countdown::new(7 * SECOND, TimerKind::Repeating);
    timer.tick(7 * SECOND - 1);
    assert!(!timer.finished());
    timer.tick(1);
    assert!(timer.finished());
    assert_eq!(timer.elapsed(), 0);
}

#[test]
fn one_shot_timer_rests_at_its_duration() {
    let mut timer = Countdown::new(6 * SECOND, TimerKind::Once);
    timer.tick(4 * SECOND);
    assert!(!timer.finished());
    assert_eq!(timer.elapsed(), 4 * SECOND);
    timer.tick(4 * SECOND);
    assert!(timer.finished());
    assert_eq!(timer.elapsed(), 6 * SECOND);
    assert_eq!(timer.remaining(), 0);
    timer.tick(4 * SECOND);
    assert!(timer.finished());
    assert_eq!(timer.elapsed(), 6 * SECOND);
    timer.reset();
    assert!(!timer.finished());
    assert_eq!(timer.elapsed(), 0);
}

#[test]
fn paused_timer_keeps_its_time() {
    let mut timer = Countdown::new(7 * SECOND, TimerKind::Repeating);
    timer.tick(3 * SECOND);
    timer.pause();
    assert!(timer.paused());
    timer.tick(10 * SECOND);
    assert_eq!(timer.elapsed(), 3 * SECOND);
    assert!(!timer.finished());
    timer.unpause();
    timer.tick(SECOND);
    assert_eq!(timer.elapsed(), 4 * SECOND);
}

#[test]
fn paused_repeating_timer_drops_its_finished_flag() {
    let mut timer = Countdown::new(7 * SECOND, TimerKind::Repeating);
    timer.tick(8 * SECOND);
    assert!(timer.finished());
    timer.pause();
    timer.tick(SECOND);
    assert!(!timer.finished());
    assert_eq!(timer.elapsed(), SECOND);
}

#[test]
fn set_duration_keeps_the_elapsed_time() {
    let mut timer = Countdown::new(7 * SECOND, TimerKind::Repeating);
    timer.tick(3 * SECOND);
    timer.set_duration(20 * SECOND);
    assert_eq!(timer.duration(), 20 * SECOND);
    assert_eq!(timer.elapsed(), 3 * SECOND);
    assert_eq!(timer.remaining(), 17 * SECOND);
}

#[test]
fn controller_starts_in_scatter() {
    let modes = ModeController::new();
    assert_eq!(modes.mode(), Mode::Scatter);
    assert_eq!(modes.frightened(), FrightenedMode::Disabled);
    assert_eq!(modes.phase_index(), 0);
    assert_eq!(modes.phase_remaining(), Some(7 * SECOND));
    assert_eq!(modes.frightened_remaining(), None);
}

/// The phase that the table gives for the time `t`, by partial sums.
fn lookup(t: u64) -> usize {
    let lengths = [7, 20, 7, 20, 5, 20, 5];
    let mut start = 0;
    for (i, length) in lengths.iter().enumerate() {
        start += length * SECOND;
        if t < start {
            return i;
        }
    }
    7
}

#[test]
fn mode_sequencing_follows_the_table() {
    let mut modes = ModeController::new();
    let mut time: u64 = 0;
    let delta = 16 * MS + 666_667;
    while time < 100 * SECOND {
        let before = modes.phase_index();
        let change = modes.tick(delta);
        time += delta;
        let index = modes.phase_index();
        assert_eq!(index, lookup(time), "at {} ns", time);
        assert_eq!(change.mode_changed, index != before);
        assert!(!change.frightened_ended);
        let (mode, _) = phase(index);
        assert_eq!(modes.mode(), mode);
    }
    assert_eq!(modes.phase_index(), 7);
    assert_eq!(modes.mode(), Mode::Chase);
}

#[test]
fn mode_sequencing_at_the_phase_boundaries() {
    let mut modes = ModeController::new();
    let steps: [(u64, usize, Mode); 9] = [
        (7 * SECOND - 1, 0, Mode::Scatter),
        (1, 1, Mode::Chase),
        (20 * SECOND, 2, Mode::Scatter),
        (7 * SECOND, 3, Mode::Chase),
        (20 * SECOND, 4, Mode::Scatter),
        (5 * SECOND - 1, 4, Mode::Scatter),
        (1, 5, Mode::Chase),
        (20 * SECOND, 6, Mode::Scatter),
        (5 * SECOND, 7, Mode::Chase),
    ];
    for (delta, index, mode) in steps {
        modes.tick(delta);
        assert_eq!(modes.phase_index(), index);
        assert_eq!(modes.mode(), mode);
    }
}

#[test]
fn last_phase_is_permanent() {
    let mut modes = ModeController::new();
    for _ in 0..100 {
        modes.tick(SECOND);
    }
    assert_eq!(modes.phase_index(), 7);
    assert_eq!(modes.phase_remaining(), None);
    for delta in [1, SECOND, 1000 * SECOND, u64::MAX] {
        let change = modes.tick(delta);
        assert!(!change.mode_changed);
        assert_eq!(modes.phase_index(), 7);
        assert_eq!(modes.mode(), Mode::Chase);
    }
    modes.eat_energizer();
    for _ in 0..10 {
        modes.tick(SECOND);
        assert_eq!(modes.phase_index(), 7);
        assert_eq!(modes.mode(), Mode::Chase);
    }
    assert_eq!(modes.frightened(), FrightenedMode::Disabled);
    for _ in 0..30 {
        modes.tick(SECOND);
        assert_eq!(modes.phase_index(), 7);
        assert_eq!(modes.mode(), Mode::Chase);
    }
}

#[test]
fn one_long_step_enters_one_phase_only() {
    let mut modes = ModeController::new();
    let change = modes.tick(30 * SECOND);
    assert!(change.mode_changed);
    assert_eq!(modes.phase_index(), 1);
    assert_eq!(modes.mode(), Mode::Chase);
}

#[test]
fn frightened_pause_resume() {
    let mut modes = ModeController::new();
    modes.tick(4 * SECOND);
    assert_eq!(modes.phase_remaining(), Some(3 * SECOND));
    modes.eat_energizer();
    assert_eq!(modes.frightened(), FrightenedMode::Enabled);
    assert_eq!(modes.frightened_remaining(), Some(FRIGHTENED_DURATION));
    for second in 1..6 {
        let change = modes.tick(SECOND);
        assert!(!change.frightened_ended);
        assert!(!change.mode_changed);
        assert_eq!(modes.frightened(), FrightenedMode::Enabled);
        assert_eq!(modes.frightened_remaining(), Some((6 - second) * SECOND));
        assert_eq!(modes.mode(), Mode::Scatter);
        assert_eq!(modes.phase_remaining(), Some(3 * SECOND));
    }
    let change = modes.tick(SECOND);
    assert!(change.frightened_ended);
    assert_eq!(modes.frightened(), FrightenedMode::Disabled);
    assert_eq!(modes.frightened_remaining(), None);
    // Scatter resumes with the three seconds that were left, not with a
    // fresh seven.
    assert_eq!(modes.mode(), Mode::Scatter);
    assert_eq!(modes.phase_index(), 0);
    assert_eq!(modes.phase_remaining(), Some(3 * SECOND));
    modes.tick(3 * SECOND - 1);
    assert_eq!(modes.mode(), Mode::Scatter);
    let change = modes.tick(1);
    assert!(change.mode_changed);
    assert_eq!(modes.mode(), Mode::Chase);
}

#[test]
fn frightened_retrigger_extends_and_does_not_stack() {
    let mut modes = ModeController::new();
    modes.tick(SECOND);
    modes.eat_energizer();
    modes.tick(4 * SECOND);
    assert_eq!(modes.frightened_remaining(), Some(2 * SECOND));
    modes.eat_energizer();
    assert_eq!(modes.frightened_remaining(), Some(6 * SECOND));
    modes.tick(5 * SECOND);
    assert_eq!(modes.frightened(), FrightenedMode::Enabled);
    let change = modes.tick(SECOND);
    assert!(change.frightened_ended);
    assert_eq!(modes.frightened(), FrightenedMode::Disabled);
    assert_eq!(modes.phase_remaining(), Some(6 * SECOND));
}

#[test]
fn frightened_can_start_again_after_it_ended() {
    let mut modes = ModeController::new();
    modes.eat_energizer();
    modes.tick(6 * SECOND);
    assert_eq!(modes.frightened(), FrightenedMode::Disabled);
    modes.tick(2 * SECOND);
    assert_eq!(modes.phase_remaining(), Some(5 * SECOND));
    modes.eat_energizer();
    assert_eq!(modes.frightened(), FrightenedMode::Enabled);
    assert_eq!(modes.frightened_remaining(), Some(6 * SECOND));
    modes.tick(7 * SECOND);
    assert_eq!(modes.frightened(), FrightenedMode::Disabled);
    assert_eq!(modes.phase_remaining(), Some(5 * SECOND));
}

#[test]
fn tick_mode_advances_phase_and_mode() {
    let mut timer = ModeTimer::new();
    let mut mode = Mode::Scatter;
    tick_mode(6 * SECOND, &mut timer, &mut mode);
    assert_eq!(timer.index(), 0);
    assert_eq!(mode, Mode::Scatter);
    tick_mode(2 * SECOND, &mut timer, &mut mode);
    assert_eq!(timer.index(), 1);
    assert_eq!(mode, Mode::Chase);
    // The second by which the first phase overshot counts for the next.
    assert_eq!(timer.timer().elapsed(), SECOND);
    assert_eq!(timer.timer().duration(), 20 * SECOND);
}

#[test]
fn frightened_timer_parts() {
    let mut mode_timer = ModeTimer::new();
    let mut frightened_timer = FrightenedTimer::new();
    let mut mode = FrightenedMode::Disabled;
    assert!(frightened_timer.timer().paused());
    // Before any spell the paused timer does not run.
    tick_frightened(10 * SECOND, &mut mode_timer, &mut frightened_timer, &mut mode);
    assert_eq!(frightened_timer.timer().elapsed(), 0);
    assert!(!frightened_timer.timer().finished());

    mode = FrightenedMode::Enabled;
    start_frightened_timer(&mut mode_timer, &mut frightened_timer);
    assert!(mode_timer.timer().paused());
    assert!(!frightened_timer.timer().paused());
    tick_frightened(5 * SECOND, &mut mode_timer, &mut frightened_timer, &mut mode);
    assert_eq!(mode, FrightenedMode::Enabled);
    assert!(mode_timer.timer().paused());
    tick_frightened(SECOND, &mut mode_timer, &mut frightened_timer, &mut mode);
    assert_eq!(mode, FrightenedMode::Disabled);
    assert!(!mode_timer.timer().paused());
    assert!(frightened_timer.timer().paused());
}

#[test]
fn idle_spell_leaves_the_schedule_alone() {
    let mut mode_timer = ModeTimer::new();
    let mut frightened_timer = FrightenedTimer::new();
    let mut mode = Mode::Scatter;
    let mut frightened = FrightenedMode::Enabled;
    // A spell starts and runs out.
    start_frightened_timer(&mut mode_timer, &mut frightened_timer);
    tick_frightened(6 * SECOND, &mut mode_timer, &mut frightened_timer, &mut frightened);
    assert_eq!(frightened, FrightenedMode::Disabled);
    assert!(!mode_timer.timer().paused());
    // Seven exact phases later the schedule rests, paused, in its last
    // phase.
    for seconds in [7, 20, 7, 20, 5, 20, 5] {
        tick_mode(seconds * SECOND, &mut mode_timer, &mut mode);
        tick_frightened(seconds * SECOND, &mut mode_timer, &mut frightened_timer, &mut frightened);
    }
    assert_eq!(mode_timer.index(), 7);
    assert_eq!(mode, Mode::Chase);
    assert!(mode_timer.timer().paused());
    // With no spell on, the spell's tick changes nothing.
    for delta in [1, SECOND, 100 * SECOND] {
        tick_frightened(delta, &mut mode_timer, &mut frightened_timer, &mut frightened);
        assert_eq!(frightened, FrightenedMode::Disabled);
        assert!(mode_timer.timer().paused());
        assert_eq!(mode_timer.index(), 7);
        assert_eq!(mode_timer.timer().elapsed(), 0);
        assert!(frightened_timer.timer().paused());
        assert!(frightened_timer.timer().finished());
    }
}

#[test]
fn idle_spell_does_not_end_a_pause() {
    let mut mode_timer = ModeTimer::new();
    let mut frightened_timer = FrightenedTimer::new();
    let mut frightened = FrightenedMode::Enabled;
    start_frightened_timer(&mut mode_timer, &mut frightened_timer);
    tick_frightened(7 * SECOND, &mut mode_timer, &mut frightened_timer, &mut frightened);
    assert!(!mode_timer.timer().paused());
    // A mode that is set without the spell's timer being started is left
    // as it is: only the step in which the timer runs out clears it.
    let mut other = FrightenedMode::Enabled;
    tick_frightened(SECOND, &mut mode_timer, &mut frightened_timer, &mut other);
    assert_eq!(other, FrightenedMode::Enabled);
    assert!(!mode_timer.timer().paused());
}

#[test]
fn steps_up_to_a_phase_end_follow_the_table() {
    // Whole phases in one step each.
    let mut modes = ModeController::new();
    let mut time = 0;
    for seconds in [7, 20, 7, 20, 5, 20, 5] {
        modes.tick(seconds * SECOND);
        time += seconds * SECOND;
        assert_eq!(modes.phase_index(), lookup(time));
    }
    // Steps that overshoot a phase end by less than the next phase.
    let mut modes = ModeController::new();
    modes.tick(13 * SECOND);
    assert_eq!(modes.phase_index(), lookup(13 * SECOND));
    assert_eq!(modes.phase_remaining(), Some(14 * SECOND));
    modes.tick(20 * SECOND);
    assert_eq!(modes.phase_index(), lookup(33 * SECOND));
    assert_eq!(modes.phase_remaining(), Some(SECOND));
}

#[test]
fn timer_kinds() {
    assert_eq!(Countdown::new(SECOND, TimerKind::Once).kind(), TimerKind::Once);
    assert_eq!(ModeTimer::new().timer().kind(), TimerKind::Repeating);
    assert_eq!(FrightenedTimer::new().timer().kind(), TimerKind::Once);
}
