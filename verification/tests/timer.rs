use pomo_tui::timer_backend::{Timer, TimerMode, TimerState, TimerTick, TimerUsageMode};

#[test]
fn three_second_countdown_reports_33_66_100() {
    let mut t = Timer::new(3);
    let sent = t.start();
    assert_eq!(sent, vec![33, 66, 100]);
}

#[test]
fn countdown_reports_one_value_per_second() {
    for secs in [0u16, 1, 2, 7, 100, 101, 1500] {
        let mut t = Timer::new(secs);
        let sent = t.start();
        assert_eq!(sent.len(), secs as usize);
    }
}

#[test]
fn countdown_ends_at_100_and_never_exceeds_it() {
    for secs in [1u16, 3, 60, 100, 250, 1500] {
        let mut t = Timer::new(secs);
        let sent = t.start();
        assert_eq!(*sent.last().unwrap(), 100);
        assert!(sent.iter().all(|&p| p <= 100));
    }
}

#[test]
fn progress_is_monotonically_non_decreasing() {
    for secs in [1u16, 3, 99, 100, 101, 250, 1500] {
        let mut t = Timer::new(secs);
        let sent = t.start();
        assert!(sent.windows(2).all(|w| w[0] <= w[1]));
    }
}

#[test]
fn progress_is_strictly_increasing_up_to_100_seconds() {
    for secs in [1u16, 2, 3, 50, 100] {
        let mut t = Timer::new(secs);
        let sent = t.start();
        assert!(sent.windows(2).all(|w| w[0] < w[1]));
    }
}

#[test]
fn zero_duration_countdown_reports_nothing() {
    let mut t = Timer::new(0);
    assert_eq!(t.start(), Vec::<u16>::new());
    assert_eq!(t.tick(), TimerTick::Finished);
}

#[test]
fn one_second_countdown_reports_only_100() {
    let mut t = Timer::new(1);
    assert_eq!(t.start(), vec![100]);
}

#[test]
fn tick_walks_the_same_values_as_start() {
    let mut by_tick = Timer::new(4);
    let mut collected = Vec::new();
    loop {
        match by_tick.tick() {
            TimerTick::Progress(p) => collected.push(p),
            _ => break,
        }
    }
    assert_eq!(collected, vec![25, 50, 75, 100]);
}

#[test]
fn finished_timer_never_reports_again() {
    let mut t = Timer::new(2);
    t.start();
    assert_eq!(t.tick(), TimerTick::Finished);
    assert_eq!(t.tick(), TimerTick::Finished);
    assert_eq!(t.elapsed, 2);
}

#[test]
fn paused_timer_does_not_advance_or_report() {
    let mut t = Timer::new(5);
    t.is_paused = true;
    assert_eq!(t.tick(), TimerTick::Paused);
    assert_eq!(t.elapsed, 0);
    assert_eq!(t.start(), Vec::<u16>::new());
    assert_eq!(t.secs, 5);
}

#[test]
fn resumed_timer_continues_from_where_it_paused() {
    let mut t = Timer::new(4);
    assert_eq!(t.tick(), TimerTick::Progress(25));
    t.is_paused = true;
    assert_eq!(t.tick(), TimerTick::Paused);
    t.is_paused = false;
    assert_eq!(t.tick(), TimerTick::Progress(50));
    assert_eq!(t.secs, 4);
}

#[test]
fn set_timer_end_reconfigures_the_total() {
    let mut t = Timer::new(10);
    t.set_timer_end(2);
    assert_eq!(t.secs, 2);
    assert_eq!(t.start(), vec![50, 100]);
}

#[test]
fn shrinking_the_total_below_elapsed_finishes_the_countdown() {
    let mut t = Timer::new(5);
    t.tick();
    t.tick();
    t.set_timer_end(1);
    assert_eq!(t.tick(), TimerTick::Finished);
    assert_eq!(t.start(), Vec::<u16>::new());
    assert_eq!(t.elapsed, 2);
}

#[test]
fn default_timer_is_a_fresh_25_minute_session() {
    let t = Timer::default();
    assert_eq!(t.secs, 1500);
    assert_eq!(t.elapsed, 0);
    assert!(!t.is_paused);
}

#[test]
fn default_timer_modes() {
    assert_eq!(TimerUsageMode::default(), TimerUsageMode::Normal);
    assert_eq!(TimerMode::default(), TimerMode::Pomodoro);
    assert_eq!(TimerState::default(), TimerState::Stopped);
}
