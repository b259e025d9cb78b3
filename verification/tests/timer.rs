use sprite_anim::timer::{Timer, TimerMode};

#[test]
fn test_repeating_timer_fires_on_period() {
    let mut t = Timer::new(100, TimerMode::Repeating);
    assert!(!t.tick(99));
    assert!(t.tick(1));
    // the period restarts after a firing
    assert_eq!(t.elapsed_ms, 0);
    assert!(!t.tick(99));
    assert!(t.tick(2));
    assert_eq!(t.elapsed_ms, 0);
}

#[test]
fn test_repeating_timer_excess_not_carried() {
    let mut t = Timer::new(100, TimerMode::Repeating);
    // a huge delta completes only one period and leaves no remainder
    assert!(t.tick(1000));
    assert_eq!(t.elapsed_ms, 0);
    assert!(!t.tick(99));
}

#[test]
fn test_once_timer_fires_exactly_once() {
    let mut t = Timer::new(100, TimerMode::Once);
    assert!(!t.tick(50));
    assert_eq!(t.remaining_ms(), 50);
    assert!(t.tick(50));
    assert!(!t.tick(1000));
    assert!(!t.tick(1000));
    assert_eq!(t.remaining_ms(), 0);
}

#[test]
fn test_zero_delta_makes_no_progress() {
    let mut t = Timer::new(100, TimerMode::Repeating);
    assert!(!t.tick(0));
    assert_eq!(t.elapsed_ms, 0);
    assert_eq!(t.remaining_ms(), 100);
}
