//! The fixed-point scales and the dimensions of the court.

use vstd::prelude::*;

verus! {

/// One normalized device unit: the court spans `-UNIT ..= UNIT` on both axes.
pub const UNIT: i64 = 1_000_000_000;

/// Distance a paddle with a held key travels per millisecond (0.002).
pub const PADDLE_TRAVEL_PER_MS: i64 = 2_000_000;

/// Largest distance of a paddle's centre from the horizontal axis (0.85).
pub const PADDLE_Y_LIMIT: i64 = 850_000_000;

/// Horizontal position of the left paddle's centre (-0.9).
pub const LEFT_PADDLE_X: i64 = -900_000_000;

/// Horizontal position of the right paddle's centre (0.9).
pub const RIGHT_PADDLE_X: i64 = 900_000_000;

/// Half of the ball's side (0.025).
pub const BALL_HALF_EXTENT: i64 = 25_000_000;

/// Half of a paddle's width (0.025).
pub const PADDLE_HALF_WIDTH: i64 = 25_000_000;

/// Half of a paddle's height (0.15).
pub const PADDLE_HALF_HEIGHT: i64 = 150_000_000;

/// Height beyond which the ball's centre has met the top wall (0.975); the
/// bottom wall lies at its negation.
pub const WALL_Y: i64 = 975_000_000;

/// Distance the ball travels per frame (0.01).
pub const BALL_SPEED: i64 = 10_000_000;

/// The value that stands for a sine or cosine of one.
pub const TRIG_ONE: i64 = 1_000_000;

/// Distance the ball travels along an axis per frame for each millionth of
/// the sine or cosine along it: `BALL_SPEED` over `TRIG_ONE`.
pub const BALL_STEP_PER_TRIG: i64 = 10;

/// One degree, in the unit of headings.
pub const DEGREE: i64 = 1_000_000;

/// Half a turn (180 degrees).
pub const HALF_TURN: i64 = 180_000_000;

/// Bound of the random change of heading after a bounce (10 degrees).
pub const MAX_PERTURBATION: i64 = 10_000_000;

/// Heading of the ball when a match starts (80 degrees).
pub const INITIAL_HEADING: i64 = 80_000_000;

/// `value` brought into `low ..= high`.
pub open spec fn clamped(value: int, low: int, high: int) -> int {
    if value < low {
        low
    } else if value > high {
        high
    } else {
        value
    }
}

/// Brings `value` into `low ..= high`.
pub fn clamp(value: i64, low: i64, high: i64) -> (r: i64)
    requires
        low <= high,
    ensures
        r == clamped(value as int, low as int, high as int),
        low <= r <= high,
{
    if value < low {
        low
    } else if value > high {
        high
    } else {
        value
    }
}

} // verus!
