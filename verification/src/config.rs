use vstd::prelude::*;

verus! {

/// Number of columns of the playing field.
pub const BOARD_WIDTH: i32 = 10;

/// Number of rows of the playing field.
pub const BOARD_HEIGHT: i32 = 20;

/// Duration of the line-clear flash animation, in milliseconds.
pub const LINE_CLEAR_MS: u64 = 500;

/// Gravity interval while a drop intent is active, in milliseconds.
pub const DROP_INTERVAL_MS: u64 = 50;

/// How long a key must stay held before move intents repeat, and how long a
/// touch must stay still before it counts as a hold, in milliseconds.
pub const HOLD_THRESHOLD_MS: u64 = 200;

/// Minimum spacing between repeated move intents from a held key, in milliseconds.
pub const MOVE_COOLDOWN_MS: u64 = 100;

/// A touch released within this many milliseconds counts as a tap.
pub const TOUCH_THRESHOLD_MS: u64 = 150;

/// Minimum spacing between move intents from a swipe, in milliseconds.
pub const MOVE_COOLDOWN_SWIPE_MS: u64 = 200;

/// Minimum spacing between repeated move intents from a held swipe, in milliseconds.
pub const MOVE_COOLDOWN_HOLD_MS: u64 = 100;

/// A pointer that stays down this long is considered stuck and its state is reset.
pub const TOUCH_STUCK_TIMEOUT_MS: u64 = 10000;

/// Horizontal pointer displacement, in pixels, beyond which a touch counts as a swipe.
pub const SWIPE_THRESHOLD_PX: i64 = 30;

/// Number of configured difficulty levels.
pub const NUM_LEVELS: usize = 10;

/// The input recognizer's thresholds, all in milliseconds except the swipe
/// distance, which is in pixels.
pub struct InputConfig {
    pub swipe_threshold_px: i64,
    pub hold_threshold_ms: u64,
    pub move_cooldown_ms: u64,
    pub touch_threshold_ms: u64,
    pub move_cooldown_swipe_ms: u64,
    pub move_cooldown_hold_ms: u64,
    pub touch_stuck_timeout_ms: u64,
}

pub fn input_config() -> (c: InputConfig)
    ensures
        c.swipe_threshold_px == SWIPE_THRESHOLD_PX,
        c.hold_threshold_ms == HOLD_THRESHOLD_MS,
        c.move_cooldown_ms == MOVE_COOLDOWN_MS,
        c.touch_threshold_ms == TOUCH_THRESHOLD_MS,
        c.move_cooldown_swipe_ms == MOVE_COOLDOWN_SWIPE_MS,
        c.move_cooldown_hold_ms == MOVE_COOLDOWN_HOLD_MS,
        c.touch_stuck_timeout_ms == TOUCH_STUCK_TIMEOUT_MS,
{
    InputConfig {
        swipe_threshold_px: SWIPE_THRESHOLD_PX,
        hold_threshold_ms: HOLD_THRESHOLD_MS,
        move_cooldown_ms: MOVE_COOLDOWN_MS,
        touch_threshold_ms: TOUCH_THRESHOLD_MS,
        move_cooldown_swipe_ms: MOVE_COOLDOWN_SWIPE_MS,
        move_cooldown_hold_ms: MOVE_COOLDOWN_HOLD_MS,
        touch_stuck_timeout_ms: TOUCH_STUCK_TIMEOUT_MS,
    }
}

/// The dimensions of the playing field.
pub struct BoardDimensions {
    pub width: i32,
    pub height: i32,
}

impl BoardDimensions {
    pub fn standard() -> (d: BoardDimensions)
        ensures
            d.width == BOARD_WIDTH,
            d.height == BOARD_HEIGHT,
    {
        BoardDimensions { width: BOARD_WIDTH, height: BOARD_HEIGHT }
    }
}

/// The labels shown by a frontend; the engine itself never renders them.
pub struct UiText {
    pub game_name: &'static str,
    pub start: &'static str,
    pub start_button: &'static str,
    pub gameover: &'static str,
    pub gameover_button: &'static str,
    pub score: &'static str,
    pub level: &'static str,
    pub highscore: &'static str,
}

pub fn ui_text() -> (t: UiText)
    ensures
        t.game_name@ == "Blocks"@,
        t.start@ == ""@,
        t.start_button@ == "Start"@,
        t.gameover@ == "Spiel vorbei"@,
        t.gameover_button@ == "Neu starten"@,
        t.score@ == "Score: "@,
        t.level@ == "Level: "@,
        t.highscore@ == "Highscore: "@,
{
    UiText {
        game_name: "Blocks",
        start: "",
        start_button: "Start",
        gameover: "Spiel vorbei",
        gameover_button: "Neu starten",
        score: "Score: ",
        level: "Level: ",
        highscore: "Highscore: ",
    }
}

/// Base score for clearing 1, 2, 3 or 4 rows at once.
pub struct ScoreConfig {
    pub single: u32,
    pub double: u32,
    pub triple: u32,
    pub tetris: u32,
}

pub fn score_config() -> (c: ScoreConfig)
    ensures
        c.single == 100,
        c.double == 300,
        c.triple == 500,
        c.tetris == 800,
{
    ScoreConfig { single: 100, double: 300, triple: 500, tetris: 800 }
}

/// One difficulty level: gravity cadence, the cumulative line count needed to
/// leave it, and the score multiplier in tenths (10 means a factor of one).
pub struct LevelConfig {
    pub fall_interval_ms: u64,
    pub lines_required: u32,
    pub score_multiplier_tenths: u32,
}

/// The fixed level table: fall intervals never increase, required lines
/// strictly increase.
pub open spec fn spec_levels() -> Seq<LevelConfig> {
    seq![
        LevelConfig { fall_interval_ms: 480, lines_required: 10, score_multiplier_tenths: 10 },
        LevelConfig { fall_interval_ms: 400, lines_required: 20, score_multiplier_tenths: 15 },
        LevelConfig { fall_interval_ms: 320, lines_required: 30, score_multiplier_tenths: 20 },
        LevelConfig { fall_interval_ms: 240, lines_required: 40, score_multiplier_tenths: 25 },
        LevelConfig { fall_interval_ms: 160, lines_required: 50, score_multiplier_tenths: 30 },
        LevelConfig { fall_interval_ms: 140, lines_required: 60, score_multiplier_tenths: 35 },
        LevelConfig { fall_interval_ms: 120, lines_required: 70, score_multiplier_tenths: 40 },
        LevelConfig { fall_interval_ms: 110, lines_required: 80, score_multiplier_tenths: 45 },
        LevelConfig { fall_interval_ms: 100, lines_required: 90, score_multiplier_tenths: 47 },
        LevelConfig { fall_interval_ms: 100, lines_required: 100, score_multiplier_tenths: 50 },
    ]
}

/// Every level's fall interval, multiplier and threshold lie within the
/// table's range.
pub proof fn lemma_level_bounds(l: int)
    requires
        0 <= l < NUM_LEVELS,
    ensures
        100 <= spec_levels()[l].fall_interval_ms <= 480,
        10 <= spec_levels()[l].score_multiplier_tenths <= 50,
        10 <= spec_levels()[l].lines_required <= 100,
{
    if l == 0 {
        assert(spec_levels()[l].score_multiplier_tenths == 10);
    } else if l == 1 {
        assert(spec_levels()[l].score_multiplier_tenths == 15);
    } else if l == 2 {
        assert(spec_levels()[l].score_multiplier_tenths == 20);
    } else if l == 3 {
        assert(spec_levels()[l].score_multiplier_tenths == 25);
    } else if l == 4 {
        assert(spec_levels()[l].score_multiplier_tenths == 30);
    } else if l == 5 {
        assert(spec_levels()[l].score_multiplier_tenths == 35);
    } else if l == 6 {
        assert(spec_levels()[l].score_multiplier_tenths == 40);
    } else if l == 7 {
        assert(spec_levels()[l].score_multiplier_tenths == 45);
    } else if l == 8 {
        assert(spec_levels()[l].score_multiplier_tenths == 47);
    } else {
        assert(spec_levels()[l].score_multiplier_tenths == 50);
    }
}

/// From one level to the next the fall interval never grows and the line
/// threshold strictly grows: difficulty only goes up.
pub proof fn lemma_level_table_monotonic(l: int)
    requires
        1 <= l < NUM_LEVELS,
    ensures
        spec_levels()[l].fall_interval_ms <= spec_levels()[l - 1].fall_interval_ms,
        spec_levels()[l].lines_required > spec_levels()[l - 1].lines_required,
{
    if l == 1 {
        assert(spec_levels()[1].fall_interval_ms == 400);
    } else if l == 2 {
        assert(spec_levels()[2].fall_interval_ms == 320);
    } else if l == 3 {
        assert(spec_levels()[3].fall_interval_ms == 240);
    } else if l == 4 {
        assert(spec_levels()[4].fall_interval_ms == 160);
    } else if l == 5 {
        assert(spec_levels()[5].fall_interval_ms == 140);
    } else if l == 6 {
        assert(spec_levels()[6].fall_interval_ms == 120);
    } else if l == 7 {
        assert(spec_levels()[7].fall_interval_ms == 110);
    } else if l == 8 {
        assert(spec_levels()[8].fall_interval_ms == 100);
    } else {
        assert(spec_levels()[9].fall_interval_ms == 100);
    }
}

pub fn level_config(level: usize) -> (c: LevelConfig)
    requires
        level < NUM_LEVELS,
    ensures
        c == spec_levels()[level as int],
{
    if level == 0 {
        LevelConfig { fall_interval_ms: 480, lines_required: 10, score_multiplier_tenths: 10 }
    } else if level == 1 {
        LevelConfig { fall_interval_ms: 400, lines_required: 20, score_multiplier_tenths: 15 }
    } else if level == 2 {
        LevelConfig { fall_interval_ms: 320, lines_required: 30, score_multiplier_tenths: 20 }
    } else if level == 3 {
        LevelConfig { fall_interval_ms: 240, lines_required: 40, score_multiplier_tenths: 25 }
    } else if level == 4 {
        LevelConfig { fall_interval_ms: 160, lines_required: 50, score_multiplier_tenths: 30 }
    } else if level == 5 {
        LevelConfig { fall_interval_ms: 140, lines_required: 60, score_multiplier_tenths: 35 }
    } else if level == 6 {
        LevelConfig { fall_interval_ms: 120, lines_required: 70, score_multiplier_tenths: 40 }
    } else if level == 7 {
        LevelConfig { fall_interval_ms: 110, lines_required: 80, score_multiplier_tenths: 45 }
    } else if level == 8 {
        LevelConfig { fall_interval_ms: 100, lines_required: 90, score_multiplier_tenths: 47 }
    } else {
        LevelConfig { fall_interval_ms: 100, lines_required: 100, score_multiplier_tenths: 50 }
    }
}

} // verus!
