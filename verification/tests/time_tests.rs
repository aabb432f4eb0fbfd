use metatopia_engine::time::{span_between, Timer, TimerState};

#[test]
fn span_is_never_negative() {
    assert_eq!(span_between(10, 4), 6);
    assert_eq!(span_between(4, 10), 0);
    assert_eq!(span_between(7, 7), 0);
    assert_eq!(span_between(u128::MAX, 0), u128::MAX);
}

#[test]
fn running_timer_counts_from_its_start() {
    let state = TimerState::new(100, 50);
    assert_eq!(state.elapsed_at(100), 0);
    assert_eq!(state.elapsed_at(130), 30);
    assert_eq!(state.remaining_at(130), 20);
    assert!(!state.finished_at(130));
    assert_eq!(state.elapsed_at(150), 50);
    assert!(state.finished_at(150));
    assert_eq!(state.remaining_at(150), 0);
    assert_eq!(state.remaining_at(1000), 0);
    assert_eq!(state.elapsed_at(40), 0);
    assert_eq!(state.remaining_at(40), 50);
}

#[test]
fn paused_timer_stands_still() {
    let mut state = TimerState::new(0, 100);
    state.pause_at(30);
    assert!(state.paused);
    assert_eq!(state.pause_time, Some(30));
    assert_eq!(state.elapsed_at(30), 30);
    assert_eq!(state.elapsed_at(90), 30);
    assert_eq!(state.remaining_at(5000), 70);
    state.pause_at(60);
    assert_eq!(state.pause_time, Some(30));
    state.resume_at(80);
    assert!(!state.paused);
    assert_eq!(state.pause_time, None);
    assert_eq!(state.accumulated_pause, 50);
    assert_eq!(state.elapsed_at(80), 30);
    assert_eq!(state.elapsed_at(100), 50);
    state.resume_at(95);
    assert_eq!(state.accumulated_pause, 50);
    state.pause_at(110);
    state.resume_at(120);
    assert_eq!(state.accumulated_pause, 60);
    assert_eq!(state.elapsed_at(160), 100);
    assert!(state.finished_at(160));
    assert!(!state.finished_at(159));
}

#[test]
fn reset_starts_afresh() {
    let mut state = TimerState::new(0, 40);
    state.pause_at(10);
    state.resume_at(25);
    state.pause_at(30);
    state.reset_at(500);
    assert_eq!(state, TimerState::new(500, 40));
    assert_eq!(state.elapsed_at(500), 0);
    assert_eq!(state.remaining_at(500), 40);
    assert_eq!(state.elapsed_at(510), 10);
}

#[test]
fn pauses_beyond_all_measure_saturate() {
    let mut state = TimerState::new(0, 10);
    state.accumulated_pause = u128::MAX - 5;
    state.pause_at(0);
    state.resume_at(100);
    assert_eq!(state.accumulated_pause, u128::MAX);
    assert_eq!(state.elapsed_at(u128::MAX), 0);
    let mut odd = TimerState { start: 0, duration: 10, paused: true, pause_time: None, accumulated_pause: 3 };
    assert_eq!(odd.elapsed_at(20), 17);
    odd.resume_at(50);
    assert_eq!(odd, TimerState { start: 0, duration: 10, paused: false, pause_time: None, accumulated_pause: 3 });
    let mut early = TimerState::new(0, 10);
    early.pause_at(40);
    early.resume_at(30);
    assert_eq!(early.accumulated_pause, 0);
}

#[test]
fn timer_follows_the_clock() {
    let long = 3_600_000_000_000u128;
    let mut timer = Timer::new(long);
    assert_eq!(timer.state(), TimerState::new(0, long));
    assert!(!timer.finished());
    let first = timer.elapsed();
    let second = timer.elapsed();
    assert!(first <= second);
    assert!(second < long);
    assert!(timer.remaining() <= long);
    assert!(timer.remaining() > 0);
    timer.pause();
    assert!(timer.state().paused);
    let frozen = timer.elapsed();
    assert_eq!(timer.elapsed(), frozen);
    assert_eq!(timer.state().pause_time, Some(frozen));
    let before = timer.state();
    timer.pause();
    assert_eq!(timer.state(), before);
    timer.resume();
    assert!(!timer.state().paused);
    assert_eq!(timer.state().pause_time, None);
    let after = timer.state();
    timer.resume();
    assert_eq!(timer.state(), after);
    assert!(timer.elapsed() >= frozen);
    timer.reset();
    assert_eq!(timer.state().duration, long);
    assert_eq!(timer.state().accumulated_pause, 0);
    assert!(!timer.state().paused);
    assert!(timer.state().start >= frozen);
    let done = Timer::new(0);
    assert!(done.finished());
    assert_eq!(done.remaining(), 0);
}
