use sprite_anim::animation::{Animation, AnimationError, AnimationLibrary, AnimationState};
use sprite_anim::timer::TimerMode;

fn animation(name: &str, frames: Vec<usize>, frame_duration_ms: u64) -> Animation {
    Animation::new(name.to_owned(), frames, frame_duration_ms).unwrap()
}

fn library(animations: Vec<Animation>) -> AnimationLibrary {
    AnimationLibrary::from_animations(animations).unwrap()
}

#[test]
fn test_animation_rejects_empty_frames() {
    let r = Animation::new("empty".to_owned(), Vec::new(), 100);
    assert_eq!(r.unwrap_err(), AnimationError::EmptyAnimation);
}

#[test]
fn test_animation_rejects_zero_duration() {
    let r = Animation::new("flat".to_owned(), vec![1, 2], 0);
    assert_eq!(r.unwrap_err(), AnimationError::NonPositiveDuration);
}

#[test]
fn test_library_construction_invariant() {
    // every cataloged animation has frames to show and a positive period
    let lib = AnimationLibrary::new();
    let names = lib.get_animation_names();
    assert_eq!(names.len(), 10);
    for name in &names {
        let a = lib.get(name).unwrap();
        assert!(!a.frames.is_empty());
        assert!(a.frame_duration_ms > 0);
    }
}

#[test]
fn test_library_catalog_entries() {
    let lib = AnimationLibrary::new();
    let idle = lib.get("idle").unwrap();
    assert_eq!(idle.frames, vec![0, 1, 2, 3, 4, 5]);
    assert_eq!(idle.frame_duration_ms, 500);
    let walk = lib.get("walk").unwrap();
    assert_eq!(walk.frames, vec![12, 13, 14]);
    assert_eq!(walk.frame_duration_ms, 200);
    let box_play = lib.get("box_play").unwrap();
    assert_eq!(box_play.frames.len(), 33);
    assert_eq!(box_play.frames[0], 84);
    assert_eq!(box_play.frames[21], 108);
    let damage = lib.get("damage").unwrap();
    assert_eq!(damage.frames, vec![204, 205, 206, 207, 208, 209, 210, 211, 211]);
}

#[test]
fn test_library_unknown_name_lookup() {
    let lib = AnimationLibrary::new();
    assert!(lib.get("cute").is_none());
    assert!(lib.get("").is_none());
}

#[test]
fn test_from_animations_rejects_duplicate_names() {
    let anims = vec![
        animation("a", vec![0], 100),
        animation("b", vec![1], 100),
        animation("a", vec![2], 100),
    ];
    assert!(AnimationLibrary::from_animations(anims).is_none());
}

#[test]
fn test_from_animations_rejects_invalid_animation() {
    // an empty frame list slipped in by hand is refused at population time
    let bad = Animation { name: "bad".to_owned(), frames: Vec::new(), frame_duration_ms: 100 };
    assert!(AnimationLibrary::from_animations(vec![bad]).is_none());
}

#[test]
fn test_animation_state_default() {
    let state = AnimationState::default();
    assert_eq!(state.current_animation, "idle");
    assert_eq!(state.current_frame, 0);
    assert_eq!(state.timer.duration_ms, 500);
    assert!(state.next_animation.is_none());
}

#[test]
fn test_animation_state_custom() {
    let state = AnimationState::new("sleep", 100).unwrap();
    assert_eq!(state.current_animation, "sleep");
    assert_eq!(state.current_frame, 0);
    assert_eq!(state.timer.duration_ms, 100);
    assert_eq!(state.timer.mode, TimerMode::Repeating);
    assert!(state.next_animation.is_none());
}

#[test]
fn test_animation_state_rejects_zero_duration() {
    assert_eq!(AnimationState::new("idle", 0).unwrap_err(), AnimationError::NonPositiveDuration);
}

#[test]
fn test_play_animation_restarts_timer() {
    let lib = AnimationLibrary::new();
    let mut state = AnimationState::default();
    state.advance(500, &lib);
    state.play_animation("walk", &lib);
    assert_eq!(state.current_animation, "walk");
    assert_eq!(state.current_frame, 0);
    assert_eq!(state.timer.duration_ms, 200);
    assert_eq!(state.timer.elapsed_ms, 0);
    assert!(state.next_animation.is_none());
}

#[test]
fn test_play_animation_unknown_name_keeps_timer() {
    let lib = AnimationLibrary::new();
    let mut state = AnimationState::default();
    state.play_animation("cute", &lib);
    assert_eq!(state.current_animation, "cute");
    // the previous half-second timer is left in place, stale
    assert_eq!(state.timer.duration_ms, 500);
}

#[test]
fn test_frame_wrap_returns_to_zero() {
    // idle has six frames: six firings walk the index 1..5 and back to 0
    let lib = AnimationLibrary::new();
    let mut state = AnimationState::default();
    let mut seen = Vec::new();
    for _ in 0..6 {
        state.advance(500, &lib);
        seen.push(state.current_frame);
    }
    assert_eq!(seen, vec![1, 2, 3, 4, 5, 0]);
}

#[test]
fn test_single_advance_per_tick() {
    // ten periods' worth of delta still advances the frame by exactly one
    let lib = library(vec![animation("fast", (0..10).collect(), 100)]);
    let mut state = AnimationState::new("fast", 100).unwrap();
    let display = state.advance(1000, &lib);
    assert_eq!(state.current_frame, 1);
    assert_eq!(display, Some(1));
}

#[test]
fn test_transition_then_return() {
    let lib = library(vec![
        animation("a", vec![10, 11], 100),
        animation("b", vec![20, 21, 22], 100),
    ]);
    let mut state = AnimationState::new("a", 100).unwrap();
    state.play_animation_then_return("a", "b", 1000, &lib).unwrap();
    state.advance(400, &lib);
    assert_eq!(state.current_animation, "a");
    state.advance(400, &lib);
    assert_eq!(state.current_animation, "a");
    assert!(state.next_animation.is_some());
    // cumulative 1000: the transition fires on this tick, exactly once
    let display = state.advance(200, &lib);
    assert_eq!(state.current_animation, "b");
    assert_eq!(state.current_frame, 0);
    assert!(state.next_animation.is_none());
    assert_eq!(display, Some(20));
}

#[test]
fn test_rearm_overwrites_pending_transition() {
    let lib = library(vec![
        animation("a", vec![0], 100),
        animation("b", vec![1], 100),
        animation("c", vec![2], 100),
    ]);
    let mut state = AnimationState::new("a", 100).unwrap();
    state.play_animation_then_return("a", "b", 1000, &lib).unwrap();
    state.advance(300, &lib);
    // re-arm before the first fires: only the second is honored
    state.play_animation_then_return("a", "c", 2000, &lib).unwrap();
    // past the point where the first would have fired: nothing fires
    state.advance(1000, &lib);
    assert_eq!(state.current_animation, "a");
    assert!(state.next_animation.is_some());
    // the second fires at its own full hold, to its own target
    state.advance(1000, &lib);
    assert_eq!(state.current_animation, "c");
    assert_eq!(state.current_frame, 0);
    assert!(state.next_animation.is_none());
}

#[test]
fn test_play_then_return_rejects_zero_hold() {
    let lib = AnimationLibrary::new();
    let mut state = AnimationState::default();
    let r = state.play_animation_then_return("walk", "idle", 0, &lib);
    assert_eq!(r.unwrap_err(), AnimationError::NonPositiveDuration);
    // nothing changed
    assert_eq!(state.current_animation, "idle");
    assert!(state.next_animation.is_none());
}

#[test]
fn test_unknown_name_advance_is_safe() {
    let lib = AnimationLibrary::new();
    let mut state = AnimationState::default();
    state.advance(500, &lib);
    state.advance(500, &lib);
    assert_eq!(state.current_frame, 2);
    // point the state at a name the library does not know
    state.current_animation = "missing".to_owned();
    let display = state.advance(500, &lib);
    assert_eq!(display, None);
    assert_eq!(state.current_frame, 2);
    assert_eq!(state.current_animation, "missing");
}

#[test]
fn test_idle_scenario_displays() {
    // advance 0.5s: frame 1; 0.2s more: still frame 1; 0.3s more: frame 2
    let lib = AnimationLibrary::new();
    let mut state = AnimationState::default();
    assert_eq!(state.advance(500, &lib), Some(1));
    assert_eq!(state.current_frame, 1);
    assert_eq!(state.advance(200, &lib), Some(1));
    assert_eq!(state.current_frame, 1);
    assert_eq!(state.advance(300, &lib), Some(2));
    assert_eq!(state.current_frame, 2);
}

#[test]
fn test_cute_then_idle_scenario() {
    let lib = library(vec![
        animation("cute", (48..56).collect(), 150),
        animation("idle", (0..6).collect(), 500),
    ]);
    let mut state = AnimationState::new("idle", 500).unwrap();
    state.play_animation_then_return("cute", "idle", 2000, &lib).unwrap();
    assert_eq!(state.current_animation, "cute");
    assert_eq!(state.current_frame, 0);
    let display = state.advance(2000, &lib);
    assert_eq!(state.current_animation, "idle");
    assert_eq!(state.current_frame, 0);
    assert_eq!(display, Some(0));
}

#[test]
fn test_frame_progress_introspection() {
    let lib = AnimationLibrary::new();
    let mut state = AnimationState::default();
    assert_eq!(state.frame_progress(&lib), Some((1, 6)));
    state.advance(500, &lib);
    assert_eq!(state.frame_progress(&lib), Some((2, 6)));
    state.current_animation = "missing".to_owned();
    assert_eq!(state.frame_progress(&lib), None);
}

#[test]
fn test_transition_remaining_introspection() {
    let lib = AnimationLibrary::new();
    let mut state = AnimationState::default();
    assert_eq!(state.transition_remaining_ms(), None);
    state.play_animation_then_return("walk", "idle", 2000, &lib).unwrap();
    assert_eq!(state.transition_remaining_ms(), Some(2000));
    state.advance(500, &lib);
    assert_eq!(state.transition_remaining_ms(), Some(1500));
}
