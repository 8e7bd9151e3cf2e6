use vstd::prelude::*;

use crate::config::{
    HOLD_THRESHOLD_MS, MOVE_COOLDOWN_HOLD_MS, MOVE_COOLDOWN_MS, MOVE_COOLDOWN_SWIPE_MS,
    SWIPE_THRESHOLD_PX, TOUCH_STUCK_TIMEOUT_MS, TOUCH_THRESHOLD_MS,
};

verus! {

/// One discrete game intent per poll.
#[derive(Clone, Copy, PartialEq, Eq, Structural, Debug)]
pub enum InputState {
    Idle,
    MoveLeft,
    MoveRight,
    Rotate,
    Drop,
}

/// The four logical movement keys.
#[derive(Clone, Copy, PartialEq, Eq, Structural, Debug)]
pub enum GameKey {
    Left,
    Right,
    Down,
    Up,
}

/// Raw key state for one poll: which logical keys were freshly pressed this
/// tick, and which are currently held down.
#[derive(Clone, Copy, PartialEq, Eq, Structural, Debug)]
pub struct KeyboardSample {
    pub left_pressed: bool,
    pub right_pressed: bool,
    pub down_pressed: bool,
    pub up_pressed: bool,
    pub left_down: bool,
    pub right_down: bool,
    pub down_down: bool,
    pub up_down: bool,
}

/// Phase of the single tracked pointer.
#[derive(Clone, Copy, PartialEq, Eq, Structural, Debug)]
pub enum TouchPhase {
    Started,
    Moved,
    Stationary,
    Ended,
    Cancelled,
}

/// Horizontal pointer position in whole pixels.
#[derive(Clone, Copy, PartialEq, Eq, Structural, Debug)]
pub struct TouchPosition {
    pub x: i32,
}

/// One pointer reading: its phase and position.
#[derive(Clone, Copy, PartialEq, Eq, Structural, Debug)]
pub struct TouchSample {
    pub phase: TouchPhase,
    pub position: TouchPosition,
}

/// Everything the recognizer reads in one poll: the current time and the raw
/// keyboard and pointer state.
#[derive(Clone, Copy, PartialEq, Eq, Structural, Debug)]
pub struct InputSample {
    pub time_ms: u64,
    pub keys: KeyboardSample,
    pub touch: Option<TouchSample>,
}

/// The recognizer's persistent state between polls.
#[derive(Clone, Copy, Debug)]
pub struct InputHandler {
    pub touch_start: Option<(TouchPosition, u64)>,
    pub last_move_time: u64,
    pub key_hold_start: Option<(GameKey, u64)>,
    pub is_moving: bool,
    pub is_dropping: bool,
    pub move_direction: Option<InputState>,
}

/// Milliseconds from `from` to `now`, clamped at zero when the clock reads
/// earlier than the recorded instant.
pub open spec fn spec_elapsed(now: u64, from: u64) -> int {
    if now >= from {
        now - from
    } else {
        0
    }
}

fn elapsed(now: u64, from: u64) -> (e: u64)
    ensures
        e == spec_elapsed(now, from),
{
    if now >= from {
        now - from
    } else {
        0
    }
}

pub open spec fn spec_key_down(keys: KeyboardSample, key: GameKey) -> bool {
    match key {
        GameKey::Left => keys.left_down,
        GameKey::Right => keys.right_down,
        GameKey::Down => keys.down_down,
        GameKey::Up => keys.up_down,
    }
}

/// The recognizer state with all gesture and hold bookkeeping dropped.
pub open spec fn spec_cleared(h: InputHandler) -> InputHandler {
    InputHandler {
        touch_start: None,
        key_hold_start: None,
        is_moving: false,
        is_dropping: false,
        move_direction: None,
        ..h
    }
}

/// The recognizer state with only the touch gesture bookkeeping dropped; a
/// held key is unaffected.
pub open spec fn spec_touch_reset(h: InputHandler) -> InputHandler {
    InputHandler {
        touch_start: None,
        is_moving: false,
        is_dropping: false,
        move_direction: None,
        ..h
    }
}

/// The keyboard sub-machine: a fresh key-down emits its intent at once and
/// records the hold; a key held past the hold threshold repeats moves on a
/// cooldown cadence and re-emits drop every poll.
pub open spec fn spec_handle_keyboard(h: InputHandler, keys: KeyboardSample, now: u64) -> (
    InputHandler,
    InputState,
) {
    if keys.left_pressed {
        (
            InputHandler { key_hold_start: Some((GameKey::Left, now)), ..h },
            InputState::MoveLeft,
        )
    } else if keys.right_pressed {
        (
            InputHandler { key_hold_start: Some((GameKey::Right, now)), ..h },
            InputState::MoveRight,
        )
    } else {
        let h1 = if keys.down_pressed {
            InputHandler { key_hold_start: Some((GameKey::Down, now)), ..h }
        } else {
            h
        };
        if keys.up_pressed {
            (InputHandler { key_hold_start: Some((GameKey::Up, now)), ..h1 }, InputState::Rotate)
        } else {
            spec_held_key(h1, keys, now)
        }
    }
}

/// The held-key half of the keyboard sub-machine.
pub open spec fn spec_held_key(h: InputHandler, keys: KeyboardSample, now: u64) -> (
    InputHandler,
    InputState,
) {
    match h.key_hold_start {
        Some((key, start)) => {
            if spec_key_down(keys, key) {
                if spec_elapsed(now, start) > HOLD_THRESHOLD_MS {
                    match key {
                        GameKey::Left => {
                            if spec_elapsed(now, h.last_move_time) > MOVE_COOLDOWN_MS {
                                (InputHandler { last_move_time: now, ..h }, InputState::MoveLeft)
                            } else {
                                (h, InputState::Idle)
                            }
                        },
                        GameKey::Right => {
                            if spec_elapsed(now, h.last_move_time) > MOVE_COOLDOWN_MS {
                                (InputHandler { last_move_time: now, ..h }, InputState::MoveRight)
                            } else {
                                (h, InputState::Idle)
                            }
                        },
                        GameKey::Down => (h, InputState::Drop),
                        GameKey::Up => (h, InputState::Idle),
                    }
                } else {
                    (h, InputState::Idle)
                }
            } else {
                (InputHandler { key_hold_start: None, ..h }, InputState::Idle)
            }
        },
        None => (h, InputState::Idle),
    }
}

/// The touch sub-machine: swipes move once per cooldown window, a stationary
/// hold turns into a continuous drop, a short release is a tap that rotates,
/// and release or cancellation clears the gesture state. A pointer stuck down
/// past the stuck timeout is reset before its sample is interpreted.
pub open spec fn spec_handle_touch(h0: InputHandler, touch: Option<TouchSample>, now: u64) -> (
    InputHandler,
    InputState,
) {
    match touch {
        None => (h0, InputState::Idle),
        Some(t) => {
            let h = if h0.touch_start matches Some((_, st)) && spec_elapsed(now, st)
                > TOUCH_STUCK_TIMEOUT_MS {
                spec_touch_reset(h0)
            } else {
                h0
            };
            match t.phase {
                TouchPhase::Started => (
                    InputHandler { touch_start: Some((t.position, now)), ..h },
                    InputState::Idle,
                ),
                TouchPhase::Moved => spec_touch_moved(h, t, now),
                TouchPhase::Stationary => spec_touch_stationary(h, now),
                TouchPhase::Ended => spec_touch_ended(h, now),
                TouchPhase::Cancelled => spec_touch_ended(h, now),
            }
        },
    }
}

pub open spec fn spec_touch_moved(h: InputHandler, t: TouchSample, now: u64) -> (
    InputHandler,
    InputState,
) {
    if h.is_dropping {
        (h, InputState::Drop)
    } else {
        match h.touch_start {
            Some((start_pos, _)) => {
                let dx = t.position.x - start_pos.x;
                if dx > SWIPE_THRESHOLD_PX || -dx > SWIPE_THRESHOLD_PX {
                    if spec_elapsed(now, h.last_move_time) > MOVE_COOLDOWN_SWIPE_MS {
                        let dir = if dx > 0 {
                            InputState::MoveRight
                        } else {
                            InputState::MoveLeft
                        };
                        (
                            InputHandler {
                                last_move_time: now,
                                is_moving: true,
                                move_direction: Some(dir),
                                ..h
                            },
                            dir,
                        )
                    } else {
                        (h, InputState::Idle)
                    }
                } else {
                    (h, InputState::Idle)
                }
            },
            None => (h, InputState::Idle),
        }
    }
}

pub open spec fn spec_touch_stationary(h: InputHandler, now: u64) -> (InputHandler, InputState) {
    if h.is_moving {
        if spec_elapsed(now, h.last_move_time) > MOVE_COOLDOWN_HOLD_MS {
            let dir = match h.move_direction {
                Some(d) => d,
                None => InputState::Idle,
            };
            (InputHandler { last_move_time: now, ..h }, dir)
        } else {
            (h, InputState::Idle)
        }
    } else {
        match h.touch_start {
            Some((_, start_time)) => {
                if spec_elapsed(now, start_time) > HOLD_THRESHOLD_MS {
                    (InputHandler { is_dropping: true, ..h }, InputState::Drop)
                } else {
                    (h, InputState::Idle)
                }
            },
            None => (h, InputState::Idle),
        }
    }
}

/// Release or cancellation always clears the gesture state; a release within
/// the tap threshold that triggered neither a swipe nor a hold is a tap and
/// rotates on its way out.
pub open spec fn spec_touch_ended(h: InputHandler, now: u64) -> (InputHandler, InputState) {
    match h.touch_start {
        Some((_, start_time)) => {
            if spec_elapsed(now, start_time) < TOUCH_THRESHOLD_MS && !h.is_moving {
                (spec_touch_reset(h), InputState::Rotate)
            } else {
                (spec_touch_reset(h), InputState::Idle)
            }
        },
        None => (spec_touch_reset(h), InputState::Idle),
    }
}

/// One full poll: the touch sub-machine runs first and its intent, if any,
/// short-circuits the keyboard sub-machine.
pub open spec fn spec_update(h: InputHandler, sample: InputSample) -> (InputHandler, InputState) {
    let (h1, touch_intent) = spec_handle_touch(h, sample.touch, sample.time_ms);
    if touch_intent != InputState::Idle {
        (h1, touch_intent)
    } else {
        spec_handle_keyboard(h1, sample.keys, sample.time_ms)
    }
}

impl InputHandler {
    pub fn new() -> (h: InputHandler)
        ensures
            h.touch_start is None,
            h.last_move_time == 0,
            h.key_hold_start is None,
            !h.is_moving,
            !h.is_dropping,
            h.move_direction is None,
    {
        InputHandler {
            touch_start: None,
            last_move_time: 0,
            key_hold_start: None,
            is_moving: false,
            is_dropping: false,
            move_direction: None,
        }
    }

    /// Turns one raw sample into at most one discrete intent.
    pub fn update(&mut self, sample: &InputSample) -> (intent: InputState)
        ensures
            (*final(self), intent) == spec_update(*old(self), *sample),
    {
        let touch_intent = self.handle_touch(&sample.touch, sample.time_ms);
        if touch_intent != InputState::Idle {
            return touch_intent;
        }
        self.handle_keyboard(&sample.keys, sample.time_ms)
    }

    fn handle_keyboard(&mut self, keys: &KeyboardSample, now: u64) -> (intent: InputState)
        ensures
            (*final(self), intent) == spec_handle_keyboard(*old(self), *keys, now),
    {
        if keys.left_pressed {
            self.key_hold_start = Some((GameKey::Left, now));
            return InputState::MoveLeft;
        }
        if keys.right_pressed {
            self.key_hold_start = Some((GameKey::Right, now));
            return InputState::MoveRight;
        }
        if keys.down_pressed {
            self.key_hold_start = Some((GameKey::Down, now));
        }
        if keys.up_pressed {
            self.key_hold_start = Some((GameKey::Up, now));
            return InputState::Rotate;
        }

        if let Some((key, start_time)) = self.key_hold_start {
            let down = match key {
                GameKey::Left => keys.left_down,
                GameKey::Right => keys.right_down,
                GameKey::Down => keys.down_down,
                GameKey::Up => keys.up_down,
            };
            if down {
                if elapsed(now, start_time) > HOLD_THRESHOLD_MS {
                    match key {
                        GameKey::Left => {
                            if elapsed(now, self.last_move_time) > MOVE_COOLDOWN_MS {
                                self.last_move_time = now;
                                return InputState::MoveLeft;
                            }
                        },
                        GameKey::Right => {
                            if elapsed(now, self.last_move_time) > MOVE_COOLDOWN_MS {
                                self.last_move_time = now;
                                return InputState::MoveRight;
                            }
                        },
                        GameKey::Down => {
                            return InputState::Drop;
                        },
                        GameKey::Up => {},
                    }
                }
            } else {
                self.key_hold_start = None;
            }
        }
        InputState::Idle
    }

    fn handle_touch(&mut self, touch: &Option<TouchSample>, now: u64) -> (intent: InputState)
        ensures
            (*final(self), intent) == spec_handle_touch(*old(self), *touch, now),
    {
        let t = match touch {
            None => {
                return InputState::Idle;
            },
            Some(t) => *t,
        };

        // Defend against a pointer that never reports its release.
        if let Some((_, start_time)) = self.touch_start {
            if elapsed(now, start_time) > TOUCH_STUCK_TIMEOUT_MS {
                self.touch_start = None;
                self.reset_movement();
            }
        }

        match t.phase {
            TouchPhase::Started => {
                self.touch_start = Some((t.position, now));
                InputState::Idle
            },
            TouchPhase::Moved => {
                if self.is_dropping {
                    return InputState::Drop;
                }
                if let Some((start_pos, _)) = self.touch_start {
                    let dx = t.position.x as i64 - start_pos.x as i64;
                    if dx > SWIPE_THRESHOLD_PX || -dx > SWIPE_THRESHOLD_PX {
                        if elapsed(now, self.last_move_time) > MOVE_COOLDOWN_SWIPE_MS {
                            self.last_move_time = now;
                            self.is_moving = true;
                            let dir = if dx > 0 {
                                InputState::MoveRight
                            } else {
                                InputState::MoveLeft
                            };
                            self.move_direction = Some(dir);
                            return dir;
                        }
                        return InputState::Idle;
                    }
                }
                InputState::Idle
            },
            TouchPhase::Stationary => {
                if self.is_moving {
                    if elapsed(now, self.last_move_time) > MOVE_COOLDOWN_HOLD_MS {
                        self.last_move_time = now;
                        return match self.move_direction {
                            Some(d) => d,
                            None => InputState::Idle,
                        };
                    }
                } else if let Some((_, start_time)) = self.touch_start {
                    if elapsed(now, start_time) > HOLD_THRESHOLD_MS {
                        self.is_dropping = true;
                        return InputState::Drop;
                    }
                }
                InputState::Idle
            },
            TouchPhase::Ended | TouchPhase::Cancelled => {
                let tapped = match self.touch_start {
                    Some((_, start_time)) => elapsed(now, start_time) < TOUCH_THRESHOLD_MS
                        && !self.is_moving,
                    None => false,
                };
                self.touch_start = None;
                self.reset_movement();
                if tapped {
                    InputState::Rotate
                } else {
                    InputState::Idle
                }
            },
        }
    }

    fn reset_movement(&mut self)
        ensures
            *final(self) == (InputHandler {
                is_moving: false,
                is_dropping: false,
                move_direction: None,
                ..*old(self)
            }),
    {
        self.is_moving = false;
        self.is_dropping = false;
        self.move_direction = None;
    }

    /// Forgets every held key and gesture, so input from one piece does not
    /// bleed into the next.
    pub fn reset(&mut self)
        ensures
            *final(self) == spec_cleared(*old(self)),
    {
        self.touch_start = None;
        self.key_hold_start = None;
        self.reset_movement();
    }
}

/// The move intent a held movement key stands for.
pub open spec fn spec_move_of_key(k: GameKey) -> InputState {
    match k {
        GameKey::Left => InputState::MoveLeft,
        GameKey::Right => InputState::MoveRight,
        _ => InputState::Idle,
    }
}

/// Law: while a movement key stays held past the hold threshold with no fresh
/// key press, a repeat move intent is emitted exactly when the move cooldown
/// has elapsed since the last recorded move, and emitting one records the
/// current time; otherwise the poll changes nothing.
pub proof fn lemma_held_key_repeat(
    h: InputHandler,
    keys: KeyboardSample,
    now: u64,
    start: u64,
    k: GameKey,
)
    requires
        !keys.left_pressed,
        !keys.right_pressed,
        !keys.down_pressed,
        !keys.up_pressed,
        k == GameKey::Left || k == GameKey::Right,
        h.key_hold_start == Some((k, start)),
        spec_key_down(keys, k),
        spec_elapsed(now, start) > HOLD_THRESHOLD_MS,
    ensures
        spec_handle_keyboard(h, keys, now).1 == spec_move_of_key(k) <==> spec_elapsed(
            now,
            h.last_move_time,
        ) > MOVE_COOLDOWN_MS,
        spec_handle_keyboard(h, keys, now).1 == spec_move_of_key(k) ==> spec_handle_keyboard(
            h,
            keys,
            now,
        ).0.last_move_time == now,
        spec_handle_keyboard(h, keys, now).1 != spec_move_of_key(k) ==> spec_handle_keyboard(
            h,
            keys,
            now,
        ) == (h, InputState::Idle),
{
}

/// Law: repeated move intents from one held movement key are spaced by more
/// than the move cooldown, not emitted on every poll: if the poll at `t1`
/// emits a repeat and a later poll at `t2` emits the next, then `t2` exceeds
/// `t1` by more than the cooldown.
pub proof fn lemma_held_key_cadence(
    h: InputHandler,
    keys1: KeyboardSample,
    t1: u64,
    keys2: KeyboardSample,
    t2: u64,
    start: u64,
    k: GameKey,
)
    requires
        !keys1.left_pressed && !keys1.right_pressed && !keys1.down_pressed && !keys1.up_pressed,
        !keys2.left_pressed && !keys2.right_pressed && !keys2.down_pressed && !keys2.up_pressed,
        k == GameKey::Left || k == GameKey::Right,
        h.key_hold_start == Some((k, start)),
        spec_key_down(keys1, k) && spec_key_down(keys2, k),
        spec_elapsed(t1, start) > HOLD_THRESHOLD_MS,
        spec_elapsed(t2, start) > HOLD_THRESHOLD_MS,
        spec_handle_keyboard(h, keys1, t1).1 == spec_move_of_key(k),
        spec_handle_keyboard(spec_handle_keyboard(h, keys1, t1).0, keys2, t2).1
            == spec_move_of_key(k),
    ensures
        t2 > t1 + MOVE_COOLDOWN_MS,
{
}

/// Law: the drop key re-emits a drop intent on every poll while held past the
/// hold threshold, without touching the cooldown bookkeeping.
pub proof fn lemma_held_down_key_drops(h: InputHandler, keys: KeyboardSample, now: u64, start: u64)
    requires
        !keys.left_pressed,
        !keys.right_pressed,
        !keys.down_pressed,
        !keys.up_pressed,
        h.key_hold_start == Some((GameKey::Down, start)),
        keys.down_down,
        spec_elapsed(now, start) > HOLD_THRESHOLD_MS,
    ensures
        spec_handle_keyboard(h, keys, now) == (h, InputState::Drop),
{
}

/// Law: a pointer that stays stationary past the hold threshold without ever
/// having triggered a swipe yields a drop intent, never a horizontal move,
/// and the drop sticks for the rest of the gesture.
pub proof fn lemma_stationary_hold_drops(
    h: InputHandler,
    t: TouchSample,
    now: u64,
    sp: TouchPosition,
    st: u64,
)
    requires
        t.phase == TouchPhase::Stationary,
        h.touch_start == Some((sp, st)),
        !h.is_moving,
        spec_elapsed(now, st) > HOLD_THRESHOLD_MS,
        spec_elapsed(now, st) <= TOUCH_STUCK_TIMEOUT_MS,
    ensures
        spec_handle_touch(h, Some(t), now).1 == InputState::Drop,
        spec_handle_touch(h, Some(t), now).0.is_dropping,
{
}

/// Law: pointer release or cancellation clears the whole gesture state —
/// recorded start, swipe and drop flags, and remembered direction — and the
/// poll rotates exactly when the gesture was a tap: released within the tap
/// threshold without ever having swiped.
pub proof fn lemma_release_resets_gesture(h: InputHandler, t: TouchSample, now: u64)
    requires
        t.phase == TouchPhase::Ended || t.phase == TouchPhase::Cancelled,
    ensures
        spec_handle_touch(h, Some(t), now).0.touch_start is None,
        !spec_handle_touch(h, Some(t), now).0.is_moving,
        !spec_handle_touch(h, Some(t), now).0.is_dropping,
        spec_handle_touch(h, Some(t), now).0.move_direction is None,
        spec_handle_touch(h, Some(t), now).1 == InputState::Rotate <==> (h.touch_start matches Some(
            (_, st),
        ) && spec_elapsed(now, st) < TOUCH_THRESHOLD_MS && !h.is_moving),
{
}

} // verus!
