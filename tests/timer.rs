use gesture_training::modifications::PlaybackState;
use gesture_training::timer::{ImageTime, PlaybackTimer, TickOutcome};

fn running(ms: u64) -> PlaybackTimer {
    let mut t = PlaybackTimer::new(ImageTime::FixedTime(ms));
    t.load_completed(0);
    t
}

#[test]
fn paused_time_is_not_counted() {
    let mut t = running(10_000);
    assert_eq!(t.tick(3_000), TickOutcome::TimeLeft(7_000));
    assert!(t.pause());
    assert_eq!(t.tick(5_000), TickOutcome::Idle);
    assert_eq!(t.tick(8_000), TickOutcome::Idle);
    assert!(t.resume(8_000));
    assert_eq!(t.tick(11_000), TickOutcome::TimeLeft(4_000));
    assert_eq!(t.time_left, 4_000);
}

#[test]
fn pause_and_resume_are_idempotent() {
    let mut t = running(5_000);
    assert!(t.pause());
    assert!(!t.pause());
    assert_eq!(t.state, PlaybackState::Paused);
    assert!(t.resume(10));
    assert!(!t.resume(20));
    assert_eq!(t.state, PlaybackState::Running);
    assert_eq!(t.last_tick, 10);
}

#[test]
fn timeout_fires_once() {
    let mut t = running(1_000);
    assert_eq!(t.tick(400), TickOutcome::TimeLeft(600));
    assert_eq!(t.tick(1_200), TickOutcome::Timeout);
    assert_eq!(t.time_left, 0);
    assert_eq!(t.tick(1_400), TickOutcome::Idle);
}

#[test]
fn no_limit_never_times_out() {
    let mut t = PlaybackTimer::new(ImageTime::NoLimit);
    t.load_completed(0);
    assert_eq!(t.tick(1_000_000_000), TickOutcome::Idle);
    let mut z = PlaybackTimer::new(ImageTime::from_seconds(0));
    z.load_completed(0);
    assert_eq!(z.tick(u64::MAX), TickOutcome::Idle);
}

#[test]
fn loading_suspends_the_countdown() {
    let mut t = running(2_000);
    t.start_loading();
    assert_eq!(t.state, PlaybackState::Loading);
    assert_eq!(t.tick(5_000), TickOutcome::Idle);
    assert!(!t.pause());
    t.load_completed(6_000);
    assert_eq!(t.time_left, 2_000);
    assert_eq!(t.tick(6_500), TickOutcome::TimeLeft(1_500));
}

#[test]
fn completed_timer_stays_completed() {
    let mut t = running(2_000);
    t.complete();
    t.start_loading();
    t.load_completed(10);
    assert_eq!(t.state, PlaybackState::Completed);
    assert_eq!(t.tick(5_000), TickOutcome::Idle);
}

#[test]
fn image_time_from_seconds() {
    assert_eq!(ImageTime::from_seconds(30), ImageTime::FixedTime(30_000));
    assert_eq!(ImageTime::from_seconds(0), ImageTime::NoLimit);
    assert_eq!(ImageTime::default(), ImageTime::FixedTime(30_000));
    assert_eq!(ImageTime::FixedTime(5_000).full_time_ms(), 5_000);
}
