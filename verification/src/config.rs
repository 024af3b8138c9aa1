use vstd::prelude::*;
use crate::units::{COORD_LIMIT, SUBUNITS};

verus! {

// Fixed geometry of the game's sprites and play field, in sub-units.

/// Where the bird spawns horizontally.
pub const BIRD_SPAWN_X: i64 = 100 * SUBUNITS;

/// Size of the bird's collision box.
pub const BIRD_WIDTH: i64 = 34 * SUBUNITS;

pub const BIRD_HEIGHT: i64 = 24 * SUBUNITS;

/// The bird is pinned to this height (and its fall stopped) when it would
/// leave the play field through the top.
pub const CEILING_Y: i64 = 12 * SUBUNITS;

/// Vertical speed set by a flap: a fixed upward impulse of 6.5 units.
pub const FLAP_IMPULSE: i64 = -1950;  // -6.5 units

/// Ticks over which a flap tweens the rotation toward its target.
pub const FLAP_TICKS: i64 = 6;

/// Rotation the flap tween drives toward (looking up).
pub const ROTATION_TARGET: i64 = -1 * SUBUNITS;

/// Nose-down rotation limit; the drift stops once rotation reaches it.
pub const ROTATION_MAX: i64 = 450;  // 1.5 units

/// Per-tick nose-dive rotation increment while below the limit.
pub const ROTATION_DRIFT: i64 = 15;  // 0.05 units

/// The gravity constant is divided by this fixed sub-step divisor to give
/// the per-tick velocity increment.
pub const GRAVITY_DIVISOR: i64 = 30;

/// Size of one pipe sprite.
pub const PIPE_WIDTH: i64 = 54 * SUBUNITS;

pub const PIPE_HEIGHT: i64 = 320 * SUBUNITS;

/// Half a pipe's width: the scoring midline, and the horizontal bias of the
/// obstacle's local collision frame.
pub const PIPE_HALF_WIDTH: i64 = 27 * SUBUNITS;

/// Vertical bias of the obstacle's local collision frame.
pub const PIPE_COLLIDE_BIAS_Y: i64 = 12 * SUBUNITS;

/// Local offset of the bottom pipe below the group's anchor.
pub const BOTTOM_PIPE_OFFSET_Y: i64 = 440 * SUBUNITS;

/// An obstacle reset at `(x, y)` anchors at `y` minus this bias, centering
/// the gap around `y`.
pub const PIPE_GAP_BIAS_Y: i64 = 160 * SUBUNITS;

/// An obstacle whose anchor falls left of this threshold is fully off
/// screen and retires itself.
pub const PIPE_RETIRE_X: i64 = -54 * SUBUNITS;

/// The ground strip: top edge, height, and the width of one ground tile.
pub const GROUND_TOP_Y: i64 = 400 * SUBUNITS;

pub const GROUND_HEIGHT: i64 = 112 * SUBUNITS;

pub const GROUND_TILE_WIDTH: i64 = 335 * SUBUNITS;

/// Tile widths of the three parallax background layers.
pub const FOREST_TILE_WIDTH: i64 = 335 * SUBUNITS;

pub const CITYSCAPE_TILE_WIDTH: i64 = 300 * SUBUNITS;

pub const CLOUD_TILE_WIDTH: i64 = 352 * SUBUNITS;

/// Vertical center of the start / restart button.
pub const BUTTON_CENTER_Y: i64 = 300 * SUBUNITS;

/// Scores that earn the first and the second medal on the game-over board.
pub const MEDAL_ONE_SCORE: i64 = 10;

pub const MEDAL_TWO_SCORE: i64 = 20;

/// The tunable constants of a game, passed to each component at
/// construction.  All lengths and speeds are in sub-units.
#[derive(Clone, Copy, PartialEq, Eq, Structural, Debug)]
pub struct Config {
    /// Play-field size.
    pub screen_width: i64,
    pub screen_height: i64,
    /// Gravity constant; each tick adds `gravity / GRAVITY_DIVISOR` to the
    /// bird's downward speed.
    pub gravity: i64,
    /// How far the field scrolls left per tick.
    pub scroll_speed: i64,
    /// A new obstacle spawns every this many ticks.
    pub spawn_interval: i64,
    /// The random vertical offset of a spawned obstacle is drawn uniformly
    /// from `[spawn_offset_min, spawn_offset_max)`.
    pub spawn_offset_min: i64,
    pub spawn_offset_max: i64,
}

impl Config {
    /// A sane configuration: positive dimensions and spawn interval,
    /// non-negative gravity, a scroll speed below the narrowest tile width
    /// (so no layer wraps more than once per tick), and a non-empty spawn
    /// offset range, everything inside the storage band.
    pub open spec fn wf(self) -> bool {
        &&& 0 < self.screen_width <= COORD_LIMIT
        &&& 0 < self.screen_height <= COORD_LIMIT
        &&& 0 <= self.gravity <= COORD_LIMIT
        &&& 0 <= self.scroll_speed < CITYSCAPE_TILE_WIDTH
        &&& 0 < self.spawn_interval <= COORD_LIMIT
        &&& -COORD_LIMIT <= self.spawn_offset_min
        &&& self.spawn_offset_min < self.spawn_offset_max
        &&& self.spawn_offset_max <= COORD_LIMIT
    }

    /// Velocity gained per tick under gravity.
    pub open spec fn gravity_per_tick(self) -> int {
        self.gravity as int / GRAVITY_DIVISOR as int
    }

    /// The stock constants of the game.
    pub open spec fn standard_spec() -> Config {
        Config {
            screen_width: (288 * SUBUNITS) as i64,
            screen_height: (505 * SUBUNITS) as i64,
            gravity: 2730,  // 9.1 units
            scroll_speed: (3 * SUBUNITS) as i64,
            spawn_interval: 80,
            spawn_offset_min: (-100 * SUBUNITS) as i64,
            spawn_offset_max: (100 * SUBUNITS) as i64,
        }
    }

    pub fn standard() -> (c: Config)
        ensures
            c == Config::standard_spec(),
            c.wf(),
    {
        Config {
            screen_width: 288 * SUBUNITS,
            screen_height: 505 * SUBUNITS,
            gravity: 2730,
            scroll_speed: 3 * SUBUNITS,
            spawn_interval: 80,
            spawn_offset_min: -100 * SUBUNITS,
            spawn_offset_max: 100 * SUBUNITS,
        }
    }
}

} // verus!
