use passwordgenerator::charset::CharClass;
use passwordgenerator::config::{SessionConfig, StoredConfig, ToggleOutcome};
use passwordgenerator::generator::Strategy;
use passwordgenerator::session::Session;
use passwordgenerator::timer::{TickOutcome, TimerState};

fn record(auto_close: bool, copy_immediately: bool) -> StoredConfig {
    StoredConfig {
        groups: 2,
        auto_close,
        copy_immediately,
        allow_lowercase: Some(true),
        allow_uppercase: Some(false),
        allow_digits: Some(true),
        allow_special: None,
    }
}

#[test]
fn session_starts_from_defaults_without_a_record() {
    let (session, dirty) = Session::start(None);
    assert!(!dirty);
    assert_eq!(session.config, SessionConfig::default());
    assert!(session.timer.armed);
    assert_eq!(session.timer.state, TimerState::Idle);
    assert_eq!(session.clipboard.pending, None);
    assert_eq!(session.password, "");
}

#[test]
fn session_start_repairs_a_record_without_classes() {
    let mut stored = record(false, false);
    stored.allow_lowercase = Some(false);
    stored.allow_digits = Some(false);
    stored.allow_special = Some(false);
    let (session, dirty) = Session::start(Some(stored));
    assert!(dirty);
    assert!(session.config.allow_lowercase);
    assert!(!session.timer.armed);
}

#[test]
fn generating_shows_a_password_and_starts_the_countdown() {
    let (mut session, _) = Session::start(Some(record(true, false)));
    assert_eq!(session.generate(Strategy::UniformPool, session.config.groups, true), None);
    assert_eq!(session.password.len(), 11);
    assert!(session
        .password
        .chars()
        .all(|c| c == '-' || c.is_ascii_lowercase() || c.is_ascii_digit() || "!@#$%^&*".contains(c)));
    assert_eq!(session.timer.remaining(), Some(10));
    assert_eq!(session.clipboard.pending, None);
}

#[test]
fn generating_copies_at_once_in_the_foreground() {
    let (mut session, _) = Session::start(Some(record(false, true)));
    let copied = session.generate(Strategy::UniformPool, session.config.groups, true);
    assert_eq!(copied, Some(session.password.clone()));
    assert_eq!(session.clipboard.pending, None);
    assert_eq!(session.timer.state, TimerState::Idle);
}

#[test]
fn generating_in_the_background_queues_the_copy() {
    let (mut session, _) = Session::start(Some(record(false, true)));
    assert_eq!(session.generate(Strategy::FixedQuota, 3, false), None);
    let first = session.password.clone();
    assert_eq!(session.clipboard.pending, Some(first));
    assert_eq!(session.generate(Strategy::FixedQuota, 3, false), None);
    let second = session.password.clone();
    assert_eq!(session.foregrounded(), Some(second));
    assert_eq!(session.foregrounded(), None);
}

#[test]
fn accepted_password_is_handled_like_a_generated_one() {
    let (mut session, _) = Session::start(Some(record(true, true)));
    assert_eq!(
        session.accept_password("abcde".to_string(), true),
        Some("abcde".to_string())
    );
    assert_eq!(session.password, "abcde");
    assert_eq!(session.timer.remaining(), Some(10));
    assert_eq!(session.accept_password("fghij".to_string(), false), None);
    assert_eq!(session.clipboard.pending, Some("fghij".to_string()));
    assert_eq!(session.copy_requested(), "fghij");
}

#[test]
fn empty_password_changes_only_the_display() {
    let (mut session, _) = Session::start(Some(record(true, true)));
    session.accept_password("abcde".to_string(), false);
    session.tick(true);
    assert_eq!(session.accept_password(String::new(), true), None);
    assert_eq!(session.password, "");
    assert_eq!(session.clipboard.pending, Some("abcde".to_string()));
    assert_eq!(session.timer.remaining(), Some(9));
}

#[test]
fn generating_without_copy_immediately_empties_the_queue() {
    let (mut session, _) = Session::start(Some(record(false, true)));
    session.accept_password("abcde".to_string(), false);
    session.config.copy_immediately = false;
    assert_eq!(session.accept_password("fghij".to_string(), true), None);
    assert_eq!(session.clipboard.pending, None);
}

#[test]
fn switching_copy_immediately_on_copies_the_display() {
    let (mut session, _) = Session::start(Some(record(false, false)));
    session.accept_password("abcde".to_string(), true);
    assert_eq!(session.set_copy_immediately(true, true), Some("abcde".to_string()));
    assert!(session.config.copy_immediately);
    assert_eq!(session.set_copy_immediately(false, true), None);
    assert!(!session.config.copy_immediately);
    assert_eq!(session.set_copy_immediately(true, false), None);
    assert_eq!(session.clipboard.pending, Some("abcde".to_string()));
    assert_eq!(session.set_copy_immediately(false, false), None);
    assert_eq!(session.clipboard.pending, None);
    assert_eq!(session.foregrounded(), None);
}

#[test]
fn switching_auto_close_drives_the_timer() {
    let (mut session, _) = Session::start(Some(record(true, false)));
    session.accept_password("abcde".to_string(), true);
    session.set_auto_close(false);
    assert!(!session.config.auto_close);
    assert!(!session.timer.armed);
    assert_eq!(session.timer.remaining(), None);
    assert_eq!(session.tick(true), TickOutcome::Blank);
    session.set_auto_close(true);
    assert!(session.config.auto_close);
    assert_eq!(session.tick(true), TickOutcome::Blank);
    session.accept_password("fghij".to_string(), true);
    assert_eq!(session.tick(true), TickOutcome::Remaining(9));
}

#[test]
fn session_expires_on_the_tenth_tick() {
    let (mut session, _) = Session::start(None);
    session.generate(Strategy::UniformPool, session.config.groups, true);
    for left in (1..=9).rev() {
        assert_eq!(session.tick(true), TickOutcome::Remaining(left));
    }
    assert_eq!(session.tick(true), TickOutcome::Expired);
    assert_eq!(session.tick(true), TickOutcome::Stopped);
}

#[test]
fn pointer_press_stops_the_session_countdown() {
    let (mut session, _) = Session::start(None);
    session.generate(Strategy::UniformPool, session.config.groups, true);
    assert!(session.pointer_pressed());
    assert_eq!(session.timer.remaining(), None);
    assert_eq!(session.tick(true), TickOutcome::Blank);
    assert!(!session.pointer_pressed());
    session.generate(Strategy::UniformPool, session.config.groups, true);
    assert_eq!(session.timer.remaining(), Some(10));
}

#[test]
fn session_vetoes_the_last_class() {
    let (mut session, _) = Session::start(Some(record(true, false)));
    assert_eq!(session.toggle_charset(CharClass::Special, false), ToggleOutcome::Accepted);
    assert_eq!(session.toggle_charset(CharClass::Digit, false), ToggleOutcome::Accepted);
    let before = session.config;
    assert_eq!(session.toggle_charset(CharClass::Lowercase, false), ToggleOutcome::Vetoed);
    assert_eq!(session.config, before);
    assert_eq!(session.toggle_charset(CharClass::Lowercase, true), ToggleOutcome::Unchanged);
    session.generate(Strategy::UniformPool, session.config.groups, true);
    assert!(session.password.chars().all(|c| c == '-' || c.is_ascii_lowercase()));
}

#[test]
fn group_count_is_used_by_the_next_generation() {
    let (mut session, _) = Session::start(None);
    session.set_groups(7);
    assert_eq!(session.config.groups, 7);
    session.generate(Strategy::UniformPool, session.config.groups, true);
    assert_eq!(session.password.len(), 41);
    session.generate(Strategy::UniformPool, 1, true);
    assert_eq!(session.password.len(), 5);
    assert_eq!(session.config.groups, 7);
}

#[test]
fn session_starts_with_a_group_count_in_range() {
    let mut stored = record(true, false);
    stored.groups = 50;
    let (session, dirty) = Session::start(Some(stored));
    assert!(dirty);
    assert_eq!(session.config.groups, 10);
    stored.groups = -2;
    let (session, dirty) = Session::start(Some(stored));
    assert!(dirty);
    assert_eq!(session.config.groups, 1);
    stored.groups = 4;
    let (session, dirty) = Session::start(Some(stored));
    assert!(!dirty);
    assert_eq!(session.config.groups, 4);
}
