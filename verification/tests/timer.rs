use passwordgenerator::timer::{AutoCloseTimer, TickOutcome, TimerState, CLOSE_AFTER_SEC};

#[test]
fn new_timer_is_idle() {
    let timer = AutoCloseTimer::new(true);
    assert_eq!(timer, AutoCloseTimer { armed: true, state: TimerState::Idle });
    assert_eq!(timer.remaining(), None);
    assert_eq!(AutoCloseTimer::new(false).state, TimerState::Idle);
}

#[test]
fn generation_starts_ten_seconds() {
    assert_eq!(CLOSE_AFTER_SEC, 10);
    let mut timer = AutoCloseTimer::new(true);
    timer.password_generated();
    assert_eq!(timer.state, TimerState::Running { remaining: 10 });
    assert_eq!(timer.remaining(), Some(10));
}

#[test]
fn generation_starts_nothing_when_switched_off() {
    let mut timer = AutoCloseTimer::new(false);
    timer.password_generated();
    assert_eq!(timer.state, TimerState::Idle);
    assert_eq!(timer.tick(true), TickOutcome::Blank);
}

#[test]
fn tenth_tick_expires() {
    let mut timer = AutoCloseTimer::new(true);
    timer.password_generated();
    let mut expired = 0;
    for tick in 1..=9 {
        assert_eq!(timer.tick(true), TickOutcome::Remaining(10 - tick));
        assert_eq!(timer.remaining(), Some(10 - tick));
    }
    for _ in 10..=25 {
        match timer.tick(true) {
            TickOutcome::Expired => expired += 1,
            TickOutcome::Stopped => {}
            other => panic!("{:?}", other),
        }
        assert_eq!(timer.state, TimerState::Expired);
    }
    assert_eq!(expired, 1);
}

#[test]
fn expiry_comes_exactly_on_the_tenth_tick() {
    let mut timer = AutoCloseTimer::new(true);
    timer.password_generated();
    let outcomes: Vec<TickOutcome> = (0..11).map(|_| timer.tick(true)).collect();
    assert_eq!(outcomes[8], TickOutcome::Remaining(1));
    assert_eq!(outcomes[9], TickOutcome::Expired);
    assert_eq!(outcomes[10], TickOutcome::Stopped);
}

#[test]
fn new_password_restarts_the_countdown() {
    let mut timer = AutoCloseTimer::new(true);
    timer.password_generated();
    timer.tick(true);
    timer.tick(true);
    assert_eq!(timer.remaining(), Some(8));
    timer.password_generated();
    assert_eq!(timer.remaining(), Some(10));
}

#[test]
fn pointer_press_cancels_a_running_countdown() {
    let mut timer = AutoCloseTimer::new(true);
    timer.password_generated();
    timer.tick(true);
    assert!(timer.pointer_pressed());
    assert_eq!(timer.state, TimerState::Cancelled);
    assert_eq!(timer.remaining(), None);
    for _ in 0..30 {
        assert_eq!(timer.tick(true), TickOutcome::Blank);
        assert_eq!(timer.state, TimerState::Cancelled);
    }
    assert!(!timer.pointer_pressed());
    timer.password_generated();
    assert_eq!(timer.remaining(), Some(10));
    assert_eq!(timer.tick(true), TickOutcome::Remaining(9));
}

#[test]
fn pointer_press_is_ignored_when_nothing_runs() {
    let mut idle = AutoCloseTimer::new(true);
    assert!(!idle.pointer_pressed());
    assert_eq!(idle.state, TimerState::Idle);
    let mut off = AutoCloseTimer::new(false);
    off.password_generated();
    assert!(!off.pointer_pressed());
    assert_eq!(off.state, TimerState::Idle);
}

#[test]
fn switching_off_ends_the_countdown() {
    let mut timer = AutoCloseTimer::new(true);
    timer.password_generated();
    timer.set_armed(false);
    assert_eq!(timer, AutoCloseTimer { armed: false, state: TimerState::Idle });
    assert_eq!(timer.remaining(), None);
    assert_eq!(timer.tick(true), TickOutcome::Blank);

    let mut cancelled = AutoCloseTimer::new(true);
    cancelled.password_generated();
    cancelled.pointer_pressed();
    cancelled.set_armed(false);
    assert_eq!(cancelled.state, TimerState::Idle);
}

#[test]
fn switching_on_waits_for_the_next_password() {
    let mut timer = AutoCloseTimer::new(true);
    timer.password_generated();
    timer.set_armed(false);
    timer.set_armed(true);
    assert_eq!(timer, AutoCloseTimer { armed: true, state: TimerState::Idle });
    for _ in 0..15 {
        assert_eq!(timer.tick(true), TickOutcome::Blank);
    }
    timer.password_generated();
    assert_eq!(timer.remaining(), Some(10));
}

#[test]
fn switching_on_twice_keeps_the_countdown() {
    let mut timer = AutoCloseTimer::new(true);
    timer.password_generated();
    timer.tick(true);
    timer.set_armed(true);
    assert_eq!(timer.remaining(), Some(9));
}

#[test]
fn invisible_surface_stops_the_ticks() {
    let mut timer = AutoCloseTimer::new(true);
    timer.password_generated();
    timer.tick(true);
    assert_eq!(timer.tick(false), TickOutcome::Stopped);
    assert_eq!(timer.state, TimerState::Running { remaining: 9 });
    let mut idle = AutoCloseTimer::new(false);
    assert_eq!(idle.tick(false), TickOutcome::Stopped);
}

#[test]
fn expired_timer_stays_expired() {
    let mut timer = AutoCloseTimer::new(true);
    timer.password_generated();
    for _ in 0..10 {
        timer.tick(true);
    }
    assert_eq!(timer.state, TimerState::Expired);
    timer.password_generated();
    assert_eq!(timer.state, TimerState::Expired);
    assert!(!timer.pointer_pressed());
    timer.set_armed(false);
    assert_eq!(timer.state, TimerState::Expired);
    timer.set_armed(true);
    assert_eq!(timer.state, TimerState::Expired);
    assert_eq!(timer.remaining(), None);
}

#[test]
fn one_second_left_expires_on_the_next_tick() {
    let mut timer = AutoCloseTimer { armed: true, state: TimerState::Running { remaining: 1 } };
    assert_eq!(timer.tick(true), TickOutcome::Expired);
    let mut none_left =
        AutoCloseTimer { armed: true, state: TimerState::Running { remaining: 0 } };
    assert_eq!(none_left.tick(true), TickOutcome::Expired);
}

#[test]
fn switching_on_again_does_not_lift_a_cancellation() {
    let mut timer = AutoCloseTimer::new(true);
    timer.password_generated();
    timer.pointer_pressed();
    timer.set_armed(true);
    assert_eq!(timer.state, TimerState::Cancelled);
    assert_eq!(timer.tick(true), TickOutcome::Blank);
}

#[test]
fn countdown_without_the_feature_shows_nothing() {
    let mut timer = AutoCloseTimer { armed: false, state: TimerState::Running { remaining: 4 } };
    assert_eq!(timer.remaining(), None);
    assert_eq!(timer.tick(true), TickOutcome::Blank);
    assert!(!timer.pointer_pressed());
    timer.set_armed(true);
    assert_eq!(timer.state, TimerState::Idle);
}

#[test]
fn countdown_below_one_expires_at_once() {
    for remaining in [0, -1, -50, i32::MIN] {
        let mut timer = AutoCloseTimer { armed: true, state: TimerState::Running { remaining } };
        assert_eq!(timer.tick(true), TickOutcome::Expired);
        assert_eq!(timer.state, TimerState::Expired);
    }
    let mut long = AutoCloseTimer { armed: true, state: TimerState::Running { remaining: i32::MAX } };
    assert_eq!(long.tick(true), TickOutcome::Remaining(i32::MAX - 1));
}
