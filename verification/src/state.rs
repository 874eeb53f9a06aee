//! The match as it runs: its state in machine integers, and the frame
//! computed on it.

use vstd::prelude::*;
use crate::court::{
    beyond_wall, paddle_x_of, Court, Point, Side, Trig, REACH,
};
use crate::entropy::{draw, perturbation, perturbation_of};
use crate::keys::{after_input, Key, KeyboardInput, PressedKeys};
use crate::units::{
    clamp, BALL_HALF_EXTENT, BALL_STEP_PER_TRIG, HALF_TURN, INITIAL_HEADING, LEFT_PADDLE_X,
    MAX_PERTURBATION, PADDLE_HALF_HEIGHT, PADDLE_HALF_WIDTH, PADDLE_TRAVEL_PER_MS, PADDLE_Y_LIMIT,
    RIGHT_PADDLE_X, WALL_Y,
};

verus! {

/// Time after which a steered paddle has crossed the whole court, in
/// milliseconds: longer frames move it no further.
pub const FULL_TRAVEL_MS: u128 = 850;

/// A match: two paddles, a ball, its heading, and the held keys.
#[derive(Debug)]
pub struct PongState {
    /// Width of the surface that the match is drawn on, in pixels.
    pub surface_width: u32,
    /// Height of that surface, in pixels.
    pub surface_height: u32,
    /// Height of the left paddle's centre.
    pub left_paddle_y: i64,
    /// Height of the right paddle's centre.
    pub right_paddle_y: i64,
    /// Centre of the ball.
    pub ball: Point,
    /// Heading of the ball, in millionths of a degree.
    pub ball_direction: i64,
    /// The keys that are held.
    pub pressed_keycodes: PressedKeys,
    /// Whether a paddle may have moved since the paddles were last handed to
    /// the graphics device.
    pub paddles_dirty: bool,
}

impl View for PongState {
    type V = Court;

    open spec fn view(&self) -> Court {
        Court {
            surface_width: self.surface_width as int,
            surface_height: self.surface_height as int,
            left_y: self.left_paddle_y as int,
            right_y: self.right_paddle_y as int,
            ball_x: self.ball.x as int,
            ball_y: self.ball.y as int,
            heading: self.ball_direction as int,
            held: self.pressed_keycodes@,
            paddles_dirty: self.paddles_dirty,
        }
    }
}

impl PongState {
    /// The match as it starts on a surface of the given size: paddles at
    /// mid-height, the ball at the origin and heading 80 degrees, no key
    /// held.
    pub fn new(surface_width: u32, surface_height: u32) -> (r: PongState)
        ensures
            r@ == (Court {
                surface_width: surface_width as int,
                surface_height: surface_height as int,
                left_y: 0,
                right_y: 0,
                ball_x: 0,
                ball_y: 0,
                heading: INITIAL_HEADING as int,
                held: Seq::<Key>::empty(),
                paddles_dirty: false,
            }),
            r@.wf(),
            r@.has_headroom(),
    {
        PongState {
            surface_width,
            surface_height,
            left_paddle_y: 0,
            right_paddle_y: 0,
            ball: Point { x: 0, y: 0 },
            ball_direction: INITIAL_HEADING,
            pressed_keycodes: PressedKeys::new(),
            paddles_dirty: false,
        }
    }

    /// Whether the state is well formed.
    pub fn is_valid(&self) -> (r: bool)
        ensures
            r == self@.wf(),
    {
        -PADDLE_Y_LIMIT <= self.left_paddle_y && self.left_paddle_y <= PADDLE_Y_LIMIT
            && -PADDLE_Y_LIMIT <= self.right_paddle_y && self.right_paddle_y <= PADDLE_Y_LIMIT
            && self.pressed_keycodes.is_distinct()
    }

    /// Whether another frame can be computed.
    pub fn has_headroom(&self) -> (r: bool)
        ensures
            r == self@.has_headroom(),
    {
        -REACH <= self.ball.x && self.ball.x <= REACH && -REACH <= self.ball.y && self.ball.y
            <= REACH && -REACH <= self.ball_direction && self.ball_direction <= REACH
    }

    /// Records the new size of the surface.
    pub fn resize(&mut self, width: u32, height: u32)
        ensures
            final(self)@ == (Court {
                surface_width: width as int,
                surface_height: height as int,
                ..old(self)@
            }),
    {
        self.surface_width = width;
        self.surface_height = height;
    }

    /// Applies one keyboard event to the held keys.
    pub fn input(&mut self, input: KeyboardInput)
        ensures
            final(self)@ == (Court { held: after_input(old(self)@.held, input), ..old(self)@ }),
            old(self)@.wf() ==> final(self)@.wf(),
    {
        self.pressed_keycodes.apply(input);
    }

    /// Moves both paddles as the held keys ask, for a frame of `delta_ms`
    /// milliseconds.
    pub fn steer(&mut self, delta_ms: u128)
        requires
            old(self)@.wf(),
        ensures
            final(self)@ == old(self)@.steer(delta_ms as int),
            final(self)@.wf(),
    {
        let capped: u128 = if delta_ms > FULL_TRAVEL_MS {
            FULL_TRAVEL_MS
        } else {
            delta_ms
        };
        let distance: i64 = (capped as i64) * PADDLE_TRAVEL_PER_MS;
        let mut changed: bool = false;
        if self.pressed_keycodes.contains(Key::Up) {
            self.right_paddle_y = self.right_paddle_y + distance;
            changed = true;
        }
        if self.pressed_keycodes.contains(Key::Down) {
            self.right_paddle_y = self.right_paddle_y - distance;
            changed = true;
        }
        if self.pressed_keycodes.contains(Key::W) {
            self.left_paddle_y = self.left_paddle_y + distance;
            changed = true;
        }
        if self.pressed_keycodes.contains(Key::S) {
            self.left_paddle_y = self.left_paddle_y - distance;
            changed = true;
        }
        self.right_paddle_y = clamp(self.right_paddle_y, -PADDLE_Y_LIMIT, PADDLE_Y_LIMIT);
        self.left_paddle_y = clamp(self.left_paddle_y, -PADDLE_Y_LIMIT, PADDLE_Y_LIMIT);
        if changed {
            self.paddles_dirty = true;
        }
    }

    /// Moves the ball by one frame along its heading.
    pub fn integrate(&mut self, trig: Trig)
        requires
            old(self)@.has_headroom(),
        ensures
            final(self)@ == old(self)@.integrate(trig),
    {
        self.ball.x = self.ball.x + (trig.sin as i64) * BALL_STEP_PER_TRIG;
        self.ball.y = self.ball.y + (trig.cos as i64) * BALL_STEP_PER_TRIG;
    }

    /// Centre of a paddle.
    pub fn paddle(&self, side: Side) -> (r: Point)
        ensures
            r.x == paddle_x_of(side),
            r.y == self@.paddle_y(side),
    {
        match side {
            Side::Left => Point { x: LEFT_PADDLE_X, y: self.left_paddle_y },
            Side::Right => Point { x: RIGHT_PADDLE_X, y: self.right_paddle_y },
        }
    }

    /// Whether the ball has passed the top or the bottom wall.
    pub fn ball_beyond_wall(&self) -> (r: bool)
        ensures
            r == beyond_wall(self@.ball_y),
    {
        self.ball.y > WALL_Y || self.ball.y < -WALL_Y
    }

    /// Whether the ball's box and a paddle's box overlap.
    pub fn ball_touches(&self, side: Side) -> (r: bool)
        ensures
            r == self@.ball_touches(side),
    {
        let paddle: Point = self.paddle(side);
        let ball_left: i128 = self.ball.x as i128 - BALL_HALF_EXTENT as i128;
        let ball_right: i128 = self.ball.x as i128 + BALL_HALF_EXTENT as i128;
        let ball_top: i128 = self.ball.y as i128 + BALL_HALF_EXTENT as i128;
        let ball_bottom: i128 = self.ball.y as i128 - BALL_HALF_EXTENT as i128;
        ball_left < paddle.x as i128 + PADDLE_HALF_WIDTH as i128 && ball_right > paddle.x as i128
            - PADDLE_HALF_WIDTH as i128 && ball_bottom < paddle.y as i128
            + PADDLE_HALF_HEIGHT as i128 && ball_top > paddle.y as i128
            - PADDLE_HALF_HEIGHT as i128
    }

    /// Turns the ball back from whatever it has met, with the given draws
    /// in place of random ones: the first for a wall, the second for the
    /// left paddle, the third for the right paddle.
    pub fn bounce(&mut self, draws: (u32, u32, u32))
        requires
            -REACH <= old(self)@.heading <= REACH,
        ensures
            final(self)@ == old(self)@.bounce(draws),
    {
        if self.ball_beyond_wall() {
            self.ball_direction = HALF_TURN - self.ball_direction + perturbation(draws.0);
        }
        if self.ball_touches(Side::Left) {
            self.ball_direction = -self.ball_direction + perturbation(draws.1);
        }
        if self.ball_touches(Side::Right) {
            self.ball_direction = -self.ball_direction + perturbation(draws.2);
        }
    }

    /// Advances the match by one frame of `delta_ms` milliseconds, with the
    /// given draws in place of random ones.
    pub fn advance(&mut self, delta_ms: u128, trig: Trig, draws: (u32, u32, u32))
        requires
            old(self)@.wf(),
            old(self)@.has_headroom(),
        ensures
            final(self)@ == old(self)@.advance(delta_ms as int, trig, draws),
            final(self)@.wf(),
    {
        self.steer(delta_ms);
        self.integrate(trig);
        self.bounce(draws);
    }

    /// Adds a fresh random change of less than ten degrees to `direction`.
    pub fn randomize_direction(direction: &mut i64)
        requires
            i64::MIN + MAX_PERTURBATION <= *old(direction) <= i64::MAX - MAX_PERTURBATION,
        ensures
            exists|d: u32| *final(direction) == *old(direction) + #[trigger] perturbation_of(d),
    {
        let d: u32 = draw();
        *direction = *direction + perturbation(d);
    }

    /// Advances the match by one frame of `delta_ms` milliseconds. `trig`
    /// holds the sine and cosine of the heading before the call. Every
    /// bounce changes the heading by a fresh random amount, so the new
    /// state is the one that `advance` computes for some three draws.
    pub fn update(&mut self, delta_ms: u128, trig: Trig)
        requires
            old(self)@.wf(),
            old(self)@.has_headroom(),
        ensures
            exists|draws: (u32, u32, u32)|
                final(self)@ == #[trigger] old(self)@.advance(delta_ms as int, trig, draws),
            final(self)@.wf(),
    {
        self.steer(delta_ms);
        self.integrate(trig);
        let ghost moved = self@;
        let ghost mut d0: u32 = 0;
        let ghost mut d1: u32 = 0;
        let ghost mut d2: u32 = 0;
        if self.ball_beyond_wall() {
            self.ball_direction = HALF_TURN - self.ball_direction;
            let ghost mirrored = self.ball_direction;
            PongState::randomize_direction(&mut self.ball_direction);
            proof {
                d0 = choose|d: u32| self.ball_direction == mirrored + perturbation_of(d);
            }
        }
        assert(self@ == moved.wall_bounce(d0));
        if self.ball_touches(Side::Left) {
            self.ball_direction = -self.ball_direction;
            let ghost mirrored = self.ball_direction;
            PongState::randomize_direction(&mut self.ball_direction);
            proof {
                d1 = choose|d: u32| self.ball_direction == mirrored + perturbation_of(d);
            }
        }
        assert(self@ == moved.wall_bounce(d0).paddle_bounce(Side::Left, d1));
        if self.ball_touches(Side::Right) {
            self.ball_direction = -self.ball_direction;
            let ghost mirrored = self.ball_direction;
            PongState::randomize_direction(&mut self.ball_direction);
            proof {
                d2 = choose|d: u32| self.ball_direction == mirrored + perturbation_of(d);
            }
        }
        assert(self@ == old(self)@.advance(delta_ms as int, trig, (d0, d1, d2)));
    }
}

} // verus!
