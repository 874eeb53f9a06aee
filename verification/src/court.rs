//! The match as mathematics: its state, and what a frame makes of it.

use vstd::prelude::*;
use crate::entropy::{lemma_perturbation_bounds, perturbation_of};
use crate::keys::Key;
use crate::units::{
    clamped, BALL_HALF_EXTENT, BALL_STEP_PER_TRIG, HALF_TURN, LEFT_PADDLE_X, MAX_PERTURBATION,
    PADDLE_HALF_HEIGHT, PADDLE_HALF_WIDTH, PADDLE_TRAVEL_PER_MS, PADDLE_Y_LIMIT, RIGHT_PADDLE_X,
    WALL_Y,
};

verus! {

/// Largest distance of the ball from the origin, and largest heading, from
/// which a frame can still be computed in 64 bits.
pub const REACH: i64 = 4_000_000_000_000_000_000;

/// Sine and cosine of the ball's heading, in millionths, as the caller's
/// trigonometry gives them. The heading is a bearing: it is measured from the
/// upward axis, clockwise.
#[derive(Clone, Copy, Debug, PartialEq, Eq, Structural)]
pub struct Trig {
    pub sin: i32,
    pub cos: i32,
}

/// A point of the court.
#[derive(Clone, Copy, Debug, PartialEq, Eq, Structural)]
pub struct Point {
    pub x: i64,
    pub y: i64,
}

/// One of the two paddles.
#[derive(Clone, Copy, Debug, PartialEq, Eq, Structural)]
pub enum Side {
    Left,
    Right,
}

/// Horizontal position of a paddle's centre, which never changes.
pub open spec fn paddle_x_of(side: Side) -> int {
    match side {
        Side::Left => LEFT_PADDLE_X as int,
        Side::Right => RIGHT_PADDLE_X as int,
    }
}

/// What a match is, as mathematics: the view of a `PongState`.
pub struct Court {
    pub surface_width: int,
    pub surface_height: int,
    pub left_y: int,
    pub right_y: int,
    pub ball_x: int,
    pub ball_y: int,
    pub heading: int,
    pub held: Seq<Key>,
    pub paddles_dirty: bool,
}

/// Distance that a steered paddle travels in `delta_ms` milliseconds.
pub open spec fn travel(delta_ms: int) -> int {
    delta_ms * PADDLE_TRAVEL_PER_MS
}

/// Height of a paddle after a frame: up by `distance` if its upward key is
/// held, down by `distance` if its downward key is held (both, if both are),
/// then brought back into the court.
pub open spec fn steered(y: int, up: bool, down: bool, distance: int) -> int {
    let raised = if up {
        y + distance
    } else {
        y
    };
    let lowered = if down {
        raised - distance
    } else {
        raised
    };
    clamped(lowered, -PADDLE_Y_LIMIT, PADDLE_Y_LIMIT as int)
}

/// Whether one of the four steering keys is held.
pub open spec fn steering(held: Seq<Key>) -> bool {
    held.contains(Key::Up) || held.contains(Key::Down) || held.contains(Key::W) || held.contains(
        Key::S,
    )
}

/// Distance the ball travels along an axis in one frame, from the sine or
/// cosine of its heading along that axis.
pub open spec fn ball_step(trig: int) -> int {
    trig * BALL_STEP_PER_TRIG
}

/// Whether a ball at height `y` has passed the top or the bottom wall.
pub open spec fn beyond_wall(y: int) -> bool {
    y > WALL_Y || y < -WALL_Y
}

/// Whether the ball's box and the box of a paddle centred at
/// (`paddle_x`, `paddle_y`) overlap on both axes.
pub open spec fn touches(ball_x: int, ball_y: int, paddle_x: int, paddle_y: int) -> bool {
    &&& ball_x - BALL_HALF_EXTENT < paddle_x + PADDLE_HALF_WIDTH
    &&& ball_x + BALL_HALF_EXTENT > paddle_x - PADDLE_HALF_WIDTH
    &&& ball_y - BALL_HALF_EXTENT < paddle_y + PADDLE_HALF_HEIGHT
    &&& ball_y + BALL_HALF_EXTENT > paddle_y - PADDLE_HALF_HEIGHT
}

impl Court {
    /// Both paddles lie within the court and no key is listed twice.
    pub open spec fn wf(self) -> bool {
        &&& -PADDLE_Y_LIMIT <= self.left_y <= PADDLE_Y_LIMIT
        &&& -PADDLE_Y_LIMIT <= self.right_y <= PADDLE_Y_LIMIT
        &&& self.held.no_duplicates()
    }

    /// The ball and its heading are near enough to zero for another frame.
    pub open spec fn has_headroom(self) -> bool {
        &&& -REACH <= self.ball_x <= REACH
        &&& -REACH <= self.ball_y <= REACH
        &&& -REACH <= self.heading <= REACH
    }

    /// Height of a paddle's centre.
    pub open spec fn paddle_y(self, side: Side) -> int {
        match side {
            Side::Left => self.left_y,
            Side::Right => self.right_y,
        }
    }

    /// Whether the ball touches a paddle.
    pub open spec fn ball_touches(self, side: Side) -> bool {
        touches(self.ball_x, self.ball_y, paddle_x_of(side), self.paddle_y(side))
    }

    /// The paddles follow the held keys for `delta_ms` milliseconds.
    pub open spec fn steer(self, delta_ms: int) -> Court {
        Court {
            left_y: steered(
                self.left_y,
                self.held.contains(Key::W),
                self.held.contains(Key::S),
                travel(delta_ms),
            ),
            right_y: steered(
                self.right_y,
                self.held.contains(Key::Up),
                self.held.contains(Key::Down),
                travel(delta_ms),
            ),
            paddles_dirty: self.paddles_dirty || steering(self.held),
            ..self
        }
    }

    /// The ball travels for one frame along its heading.
    pub open spec fn integrate(self, trig: Trig) -> Court {
        Court {
            ball_x: self.ball_x + ball_step(trig.sin as int),
            ball_y: self.ball_y + ball_step(trig.cos as int),
            ..self
        }
    }

    /// A ball beyond a wall is turned back: its heading is mirrored on the
    /// horizontal axis and then changed by what `draw` stands for.
    pub open spec fn wall_bounce(self, draw: u32) -> Court {
        if beyond_wall(self.ball_y) {
            Court { heading: HALF_TURN - self.heading + perturbation_of(draw), ..self }
        } else {
            self
        }
    }

    /// A ball that touches a paddle is sent back: its heading is negated and
    /// then changed by what `draw` stands for.
    pub open spec fn paddle_bounce(self, side: Side, draw: u32) -> Court {
        if self.ball_touches(side) {
            Court { heading: -self.heading + perturbation_of(draw), ..self }
        } else {
            self
        }
    }

    /// The walls, the left paddle and the right paddle are tried in this
    /// order, each with a draw of its own.
    pub open spec fn bounce(self, draws: (u32, u32, u32)) -> Court {
        self.wall_bounce(draws.0).paddle_bounce(Side::Left, draws.1).paddle_bounce(
            Side::Right,
            draws.2,
        )
    }

    /// One whole frame: the paddles are steered, the ball travels, and then
    /// it bounces off whatever it has met.
    pub open spec fn advance(self, delta_ms: int, trig: Trig, draws: (u32, u32, u32)) -> Court {
        self.steer(delta_ms).integrate(trig).bounce(draws)
    }
}

/// While none of the four steering keys is held, a frame leaves both
/// paddles where they are, however long it lasts.
pub proof fn lemma_idle_paddles_rest(court: Court, delta_ms: nat, trig: Trig, draws: (u32, u32, u32))
    requires
        court.wf(),
        !steering(court.held),
    ensures
        court.advance(delta_ms as int, trig, draws).left_y == court.left_y,
        court.advance(delta_ms as int, trig, draws).right_y == court.right_y,
{
}

/// After a frame both paddles lie within the court, whatever the frame's
/// length and wherever they were.
pub proof fn lemma_paddles_stay_in_court(
    court: Court,
    delta_ms: nat,
    trig: Trig,
    draws: (u32, u32, u32),
)
    ensures
        -PADDLE_Y_LIMIT <= court.advance(delta_ms as int, trig, draws).left_y <= PADDLE_Y_LIMIT,
        -PADDLE_Y_LIMIT <= court.advance(delta_ms as int, trig, draws).right_y <= PADDLE_Y_LIMIT,
{
}

/// While the right paddle's upward key is the only steering key held, a
/// frame raises the right paddle by 0.002 of the court's half-width per
/// millisecond, as far as the court allows, and leaves the left paddle
/// where it is.
pub proof fn lemma_lone_up_key_raises_right_paddle(
    court: Court,
    delta_ms: nat,
    trig: Trig,
    draws: (u32, u32, u32),
)
    requires
        court.wf(),
        court.held.contains(Key::Up),
        !court.held.contains(Key::Down),
        !court.held.contains(Key::W),
        !court.held.contains(Key::S),
    ensures
        court.advance(delta_ms as int, trig, draws).right_y == clamped(
            court.right_y + delta_ms * PADDLE_TRAVEL_PER_MS,
            -PADDLE_Y_LIMIT,
            PADDLE_Y_LIMIT as int,
        ),
        court.advance(delta_ms as int, trig, draws).left_y == court.left_y,
{
}

/// While both keys of a paddle are held, the two movements cancel.
pub proof fn lemma_opposed_keys_cancel(court: Court, delta_ms: nat, trig: Trig, draws: (u32, u32, u32))
    requires
        court.wf(),
        court.held.contains(Key::Up) == court.held.contains(Key::Down),
        court.held.contains(Key::W) == court.held.contains(Key::S),
    ensures
        court.advance(delta_ms as int, trig, draws).left_y == court.left_y,
        court.advance(delta_ms as int, trig, draws).right_y == court.right_y,
{
}

/// A frame moves the ball by the sine and the cosine of its heading, each
/// times the ball's speed, whatever the frame's length, the held keys and
/// the draws.
pub proof fn lemma_ball_travels_by_heading(
    court: Court,
    delta_ms: nat,
    other_delta_ms: nat,
    trig: Trig,
    draws: (u32, u32, u32),
    other_draws: (u32, u32, u32),
)
    ensures
        court.advance(delta_ms as int, trig, draws).ball_x == court.ball_x + trig.sin
            * BALL_STEP_PER_TRIG,
        court.advance(delta_ms as int, trig, draws).ball_y == court.ball_y + trig.cos
            * BALL_STEP_PER_TRIG,
        court.advance(other_delta_ms as int, trig, other_draws).ball_x == court.advance(
            delta_ms as int,
            trig,
            draws,
        ).ball_x,
        court.advance(other_delta_ms as int, trig, other_draws).ball_y == court.advance(
            delta_ms as int,
            trig,
            draws,
        ).ball_y,
{
}

/// The ball cannot touch both paddles at once: the court is too wide.
pub proof fn lemma_one_paddle_at_a_time(court: Court)
    ensures
        !(court.ball_touches(Side::Left) && court.ball_touches(Side::Right)),
{
}

/// Where the ball's travel in a frame takes it beyond the top or the
/// bottom wall and it touches no paddle there, its heading after the frame
/// is half a turn less the heading before, changed by less than ten
/// degrees.
pub proof fn lemma_wall_turns_ball_back(
    court: Court,
    delta_ms: nat,
    trig: Trig,
    draws: (u32, u32, u32),
)
    requires
        beyond_wall(court.ball_y + ball_step(trig.cos as int)),
        !court.steer(delta_ms as int).integrate(trig).ball_touches(Side::Left),
        !court.steer(delta_ms as int).integrate(trig).ball_touches(Side::Right),
    ensures
        court.advance(delta_ms as int, trig, draws).heading == HALF_TURN - court.heading
            + perturbation_of(draws.0),
        -MAX_PERTURBATION <= perturbation_of(draws.0) < MAX_PERTURBATION,
{
    lemma_perturbation_bounds(draws.0);
}

/// Where the ball's travel in a frame keeps it between the walls and brings
/// it to touch a paddle, its heading after the frame is the negated heading
/// before, changed by less than ten degrees.
pub proof fn lemma_paddle_sends_ball_back(
    court: Court,
    side: Side,
    delta_ms: nat,
    trig: Trig,
    draws: (u32, u32, u32),
)
    requires
        !beyond_wall(court.ball_y + ball_step(trig.cos as int)),
        court.steer(delta_ms as int).integrate(trig).ball_touches(side),
    ensures
        ({
            let draw = match side {
                Side::Left => draws.1,
                Side::Right => draws.2,
            };
            &&& court.advance(delta_ms as int, trig, draws).heading == -court.heading
                + perturbation_of(draw)
            &&& -MAX_PERTURBATION <= perturbation_of(draw) < MAX_PERTURBATION
        }),
{
    lemma_perturbation_bounds(draws.1);
    lemma_perturbation_bounds(draws.2);
    lemma_one_paddle_at_a_time(court.steer(delta_ms as int).integrate(trig));
}

/// Where the ball's travel in a frame keeps it between the walls and away
/// from both paddles, the frame leaves its heading as it is.
pub proof fn lemma_free_ball_keeps_heading(
    court: Court,
    delta_ms: nat,
    trig: Trig,
    draws: (u32, u32, u32),
)
    requires
        !beyond_wall(court.ball_y + ball_step(trig.cos as int)),
        !court.steer(delta_ms as int).integrate(trig).ball_touches(Side::Left),
        !court.steer(delta_ms as int).integrate(trig).ball_touches(Side::Right),
    ensures
        court.advance(delta_ms as int, trig, draws).heading == court.heading,
{
}

} // verus!
