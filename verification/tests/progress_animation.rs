use setup_wizard::progress::{animation_step, ANIMATION_TARGET, PROGRESS_SCALE};
use setup_wizard::session::SetupSession;

#[test]
fn first_ticks_follow_the_asymptotic_rule() {
    // One step adds a rounded-down 2% of the distance to the target.
    assert_eq!(animation_step(0), 19_000);
    assert_eq!(animation_step(19_000), 37_620);
    assert_eq!(animation_step(949_999), 949_999);
    assert_eq!(animation_step(ANIMATION_TARGET), ANIMATION_TARGET);
}

#[test]
fn animation_is_monotone_and_stays_below_the_target() {
    let mut s = SetupSession::default();
    assert!(s.begin_run());
    let mut previous = s.progress_value();
    for _ in 0..10_000 {
        s.animation_tick();
        let current = s.progress_value();
        assert!(current >= previous);
        assert!(current < ANIMATION_TARGET);
        previous = current;
    }
    assert!(s.is_running());
}

#[test]
fn ticks_outside_running_change_nothing() {
    let mut s = SetupSession::default();
    s.animation_tick();
    assert!(s.is_idle());
    assert_eq!(s.progress_value(), 0);

    assert!(s.begin_run());
    s.finish_success();
    s.animation_tick();
    assert_eq!(s.progress_value(), PROGRESS_SCALE);
}

#[test]
fn progress_reaches_full_only_through_success() {
    let mut s = SetupSession::default();
    assert!(s.begin_run());
    for _ in 0..100 {
        s.animation_tick();
    }
    assert!(s.progress_value() < ANIMATION_TARGET);
    s.finish_success();
    assert_eq!(s.progress_value(), PROGRESS_SCALE);

    let mut f = SetupSession::default();
    assert!(f.begin_run());
    for _ in 0..100 {
        f.animation_tick();
    }
    f.finish_failure(Some(1), &String::new());
    assert!(f.progress_value() < ANIMATION_TARGET);
}
