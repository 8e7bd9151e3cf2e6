use blocks::input::{
    InputHandler, InputSample, InputState, KeyboardSample, TouchPhase, TouchPosition, TouchSample,
};

fn no_keys() -> KeyboardSample {
    KeyboardSample {
        left_pressed: false,
        right_pressed: false,
        down_pressed: false,
        up_pressed: false,
        left_down: false,
        right_down: false,
        down_down: false,
        up_down: false,
    }
}

fn key_sample(time_ms: u64, keys: KeyboardSample) -> InputSample {
    InputSample { time_ms, keys, touch: None }
}

fn touch_sample(time_ms: u64, phase: TouchPhase, x: i32) -> InputSample {
    InputSample {
        time_ms,
        keys: no_keys(),
        touch: Some(TouchSample { phase, position: TouchPosition { x } }),
    }
}

#[test]
fn fresh_key_press_emits_immediately() {
    let mut handler = InputHandler::new();
    let mut keys = no_keys();
    keys.left_pressed = true;
    keys.left_down = true;
    assert_eq!(handler.update(&key_sample(1000, keys)), InputState::MoveLeft);

    let mut keys = no_keys();
    keys.right_pressed = true;
    keys.right_down = true;
    assert_eq!(handler.update(&key_sample(1100, keys)), InputState::MoveRight);

    let mut keys = no_keys();
    keys.up_pressed = true;
    keys.up_down = true;
    assert_eq!(handler.update(&key_sample(1200, keys)), InputState::Rotate);
}

#[test]
fn held_key_repeats_on_the_cooldown_cadence() {
    let mut handler = InputHandler::new();
    let mut press = no_keys();
    press.left_pressed = true;
    press.left_down = true;
    let mut held = no_keys();
    held.left_down = true;

    // Initial press at t=1000 emits at once.
    assert_eq!(handler.update(&key_sample(1000, press)), InputState::MoveLeft);
    // Below the hold threshold nothing repeats.
    assert_eq!(handler.update(&key_sample(1150, held)), InputState::Idle);
    // Past the hold threshold the first repeat fires (cooldown measured from
    // the recognizer's start).
    assert_eq!(handler.update(&key_sample(1210, held)), InputState::MoveLeft);
    // The next poll comes too soon after that repeat.
    assert_eq!(handler.update(&key_sample(1260, held)), InputState::Idle);
    assert_eq!(handler.update(&key_sample(1300, held)), InputState::Idle);
    // More than the cooldown after the last repeat, the next one fires.
    assert_eq!(handler.update(&key_sample(1320, held)), InputState::MoveLeft);
}

#[test]
fn releasing_the_key_stops_the_repeats() {
    let mut handler = InputHandler::new();
    let mut press = no_keys();
    press.left_pressed = true;
    press.left_down = true;
    let mut held = no_keys();
    held.left_down = true;

    assert_eq!(handler.update(&key_sample(1000, press)), InputState::MoveLeft);
    assert_eq!(handler.update(&key_sample(1500, no_keys())), InputState::Idle);
    // The hold record is gone; a later poll with the key down again does not
    // repeat without a fresh press.
    assert_eq!(handler.update(&key_sample(2000, held)), InputState::Idle);
}

#[test]
fn held_down_key_drops_every_poll() {
    let mut handler = InputHandler::new();
    let mut press = no_keys();
    press.down_pressed = true;
    press.down_down = true;
    let mut held = no_keys();
    held.down_down = true;

    // A fresh down-key press records the hold but emits nothing by itself.
    assert_eq!(handler.update(&key_sample(1000, press)), InputState::Idle);
    assert_eq!(handler.update(&key_sample(1210, held)), InputState::Drop);
    assert_eq!(handler.update(&key_sample(1220, held)), InputState::Drop);
    assert_eq!(handler.update(&key_sample(1230, held)), InputState::Drop);
}

#[test]
fn swipe_moves_once_per_cooldown_window() {
    let mut handler = InputHandler::new();
    assert_eq!(
        handler.update(&touch_sample(1000, TouchPhase::Started, 100)),
        InputState::Idle
    );
    // 40 pixels to the right is beyond the swipe threshold.
    assert_eq!(
        handler.update(&touch_sample(1250, TouchPhase::Moved, 140)),
        InputState::MoveRight
    );
    // Another large displacement right away is consumed by the cooldown.
    assert_eq!(
        handler.update(&touch_sample(1300, TouchPhase::Moved, 190)),
        InputState::Idle
    );
}

#[test]
fn swipe_left_by_sign_of_displacement() {
    let mut handler = InputHandler::new();
    handler.update(&touch_sample(1000, TouchPhase::Started, 100));
    assert_eq!(
        handler.update(&touch_sample(1250, TouchPhase::Moved, 55)),
        InputState::MoveLeft
    );
}

#[test]
fn short_tap_rotates_and_clears_the_gesture() {
    let mut handler = InputHandler::new();
    handler.update(&touch_sample(1000, TouchPhase::Started, 100));
    assert_eq!(
        handler.update(&touch_sample(1100, TouchPhase::Ended, 101)),
        InputState::Rotate
    );
    // The release cleared the recorded start and all gesture flags.
    assert!(handler.touch_start.is_none());
    assert!(!handler.is_moving);
    assert!(!handler.is_dropping);
    assert!(handler.move_direction.is_none());
    // A second release without a fresh touch neither rotates again ...
    assert_eq!(
        handler.update(&touch_sample(1120, TouchPhase::Ended, 101)),
        InputState::Idle
    );
    // ... nor can the stale start turn a later stationary pointer into a drop.
    assert_eq!(
        handler.update(&touch_sample(2000, TouchPhase::Stationary, 101)),
        InputState::Idle
    );
    assert!(!handler.is_dropping);
}

#[test]
fn slow_release_does_not_rotate() {
    let mut handler = InputHandler::new();
    handler.update(&touch_sample(1000, TouchPhase::Started, 100));
    assert_eq!(
        handler.update(&touch_sample(1200, TouchPhase::Ended, 100)),
        InputState::Idle
    );
}

#[test]
fn stationary_hold_drops_instead_of_moving() {
    let mut handler = InputHandler::new();
    handler.update(&touch_sample(1000, TouchPhase::Started, 100));
    // Still below the hold threshold: nothing yet.
    assert_eq!(
        handler.update(&touch_sample(1150, TouchPhase::Stationary, 100)),
        InputState::Idle
    );
    // Held stationary past the threshold: a drop, never a horizontal move.
    let intent = handler.update(&touch_sample(1250, TouchPhase::Stationary, 100));
    assert_eq!(intent, InputState::Drop);
    // The drop persists while the pointer stays down, even if it wobbles.
    assert_eq!(
        handler.update(&touch_sample(1300, TouchPhase::Moved, 104)),
        InputState::Drop
    );
    assert_eq!(
        handler.update(&touch_sample(1350, TouchPhase::Stationary, 104)),
        InputState::Drop
    );
}

#[test]
fn release_resets_the_gesture_state() {
    let mut handler = InputHandler::new();
    handler.update(&touch_sample(1000, TouchPhase::Started, 100));
    handler.update(&touch_sample(1250, TouchPhase::Stationary, 100));
    assert_eq!(
        handler.update(&touch_sample(2000, TouchPhase::Cancelled, 100)),
        InputState::Idle
    );
    assert!(!handler.is_dropping);
    assert!(handler.touch_start.is_none());
    // Without a new Started, a stationary pointer means nothing.
    assert_eq!(
        handler.update(&touch_sample(3000, TouchPhase::Stationary, 100)),
        InputState::Idle
    );
}

#[test]
fn stuck_pointer_is_reset_after_the_timeout() {
    let mut handler = InputHandler::new();
    handler.update(&touch_sample(1000, TouchPhase::Started, 100));
    handler.update(&touch_sample(1250, TouchPhase::Stationary, 100));
    assert!(handler.is_dropping);
    // Far past the stuck timeout the gesture state is dropped before the
    // sample is interpreted.
    assert_eq!(
        handler.update(&touch_sample(20_000, TouchPhase::Moved, 100)),
        InputState::Idle
    );
    assert!(!handler.is_dropping);
    assert!(handler.touch_start.is_none());
}

#[test]
fn touch_wins_over_keyboard_in_the_same_poll() {
    let mut handler = InputHandler::new();
    handler.update(&touch_sample(1000, TouchPhase::Started, 100));
    let mut keys = no_keys();
    keys.left_pressed = true;
    keys.left_down = true;
    let sample = InputSample {
        time_ms: 1250,
        keys,
        touch: Some(TouchSample { phase: TouchPhase::Moved, position: TouchPosition { x: 140 } }),
    };
    assert_eq!(handler.update(&sample), InputState::MoveRight);
}

#[test]
fn reset_forgets_held_keys_and_gestures() {
    let mut handler = InputHandler::new();
    let mut press = no_keys();
    press.left_pressed = true;
    press.left_down = true;
    let mut held = no_keys();
    held.left_down = true;
    handler.update(&key_sample(1000, press));
    handler.reset();
    assert!(handler.key_hold_start.is_none());
    assert_eq!(handler.update(&key_sample(1500, held)), InputState::Idle);
}
