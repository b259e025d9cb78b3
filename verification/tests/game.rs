use sprite_anim::debug::DebugMode;
use sprite_anim::game::{BackgroundConfig, ClickCounter};

#[test]
fn test_click_counter_default() {
    let counter = ClickCounter::default();
    assert_eq!(counter.0, 0);
}

#[test]
fn test_click_counter_increment() {
    let mut counter = ClickCounter(5);
    counter.0 += 1;
    assert_eq!(counter.0, 6);
}

#[test]
fn test_record_click_counts_up() {
    let mut counter = ClickCounter::default();
    counter.record_click();
    counter.record_click();
    assert_eq!(counter.0, 2);
}

#[test]
fn test_background_changes_every_fifth_click() {
    assert!(!ClickCounter(0).should_change_background());
    assert!(ClickCounter(5).should_change_background());
    assert!(!ClickCounter(7).should_change_background());
    assert!(ClickCounter(10).should_change_background());
}

#[test]
fn test_random_background_is_configured() {
    let config = BackgroundConfig::default();
    let known = [
        "backgrounds/summer 2/Summer2.png",
        "backgrounds/summer 3/Summer3.png",
        "backgrounds/summer 4/Summer4.png",
        "backgrounds/summer5/Summer5.png",
        "backgrounds/summer6/Summer6.png",
        "backgrounds/summer7/Summer7.png",
        "backgrounds/summer8/Summer8.png",
    ];
    for _ in 0..50 {
        let pick = config.get_random_background();
        assert!(known.contains(&pick.as_str()));
    }
}

#[test]
fn test_debug_mode_toggle() {
    let mut mode = DebugMode::default();
    assert!(!mode.enabled);
    mode.toggle();
    assert!(mode.enabled);
    mode.toggle();
    assert!(!mode.enabled);
}
