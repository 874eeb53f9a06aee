//! What a frame asks of the graphics device, in the order in which it asks.

use vstd::prelude::*;
use crate::geometry::{Color, Position};
use crate::court::{Court, Trig};
use crate::state::PongState;
use crate::units::{LEFT_PADDLE_X, RIGHT_PADDLE_X, UNIT};

verus! {

/// Number of indices that one rectangle is drawn with.
pub const RECTANGLE_INDEX_COUNT: u32 = 6;

/// Number of paddles, each drawn as one instance of the paddle's shape.
pub const PADDLE_COUNT: u32 = 2;

/// A buffer on the graphics device.
#[derive(Clone, Copy, Debug, PartialEq, Eq, Structural)]
pub enum Buffer {
    /// The corners of a paddle.
    PaddleVertices,
    /// Where each paddle stands.
    PaddleInstances,
    /// The corners of the ball.
    BallVertices,
    /// Where the ball is.
    BallTransform,
    /// The corners that the triangles of a rectangle join, as 16-bit numbers.
    RectangleIndices,
}

/// One request to the graphics device.
#[derive(Clone, Copy, Debug, PartialEq, Eq, Structural)]
pub enum Step {
    /// Replace `Buffer::PaddleInstances` by these two positions.
    UploadPaddles { left: Position, right: Position },
    /// Replace `Buffer::BallTransform` by this position.
    UploadBall { transform: Position },
    /// Begin a render pass on the current frame, cleared to `clear`.
    BeginPass { clear: Color },
    /// Select the render pipeline.
    SetPipeline,
    /// Bind `buffer` as the vertex buffer of `slot`.
    SetVertexBuffer { slot: u32, buffer: Buffer },
    /// Bind `buffer` as the index buffer.
    SetIndexBuffer { buffer: Buffer },
    /// Draw `instance_count` instances of the bound shape, each from the
    /// first `index_count` indices.
    DrawIndexed { index_count: u32, base_vertex: i32, instance_count: u32 },
    /// End the render pass.
    EndPass,
    /// Hand everything recorded to the device's queue.
    Submit,
}

/// The background of every frame: opaque black.
pub open spec fn background() -> Color {
    Color { r: 0, g: 0, b: 0, a: UNIT }
}

/// The requests that draw both shapes, which are the same in every frame:
/// one pass that clears the frame, draws the paddle's shape twice and the
/// ball's shape once, and is then submitted.
pub open spec fn drawing() -> Seq<Step> {
    seq![
        Step::BeginPass { clear: background() },
        Step::SetPipeline,
        Step::SetVertexBuffer { slot: 0, buffer: Buffer::PaddleVertices },
        Step::SetVertexBuffer { slot: 1, buffer: Buffer::PaddleInstances },
        Step::SetIndexBuffer { buffer: Buffer::RectangleIndices },
        Step::DrawIndexed {
            index_count: RECTANGLE_INDEX_COUNT,
            base_vertex: 0,
            instance_count: PADDLE_COUNT,
        },
        Step::SetVertexBuffer { slot: 0, buffer: Buffer::BallVertices },
        Step::SetVertexBuffer { slot: 1, buffer: Buffer::BallTransform },
        Step::DrawIndexed { index_count: RECTANGLE_INDEX_COUNT, base_vertex: 0, instance_count: 1 },
        Step::EndPass,
        Step::Submit,
    ]
}

/// What the graphics device holds of the match.
pub struct Mirror {
    pub left: Position,
    pub right: Position,
    pub ball: Position,
}

impl Mirror {
    /// The device's copy after one request.
    pub open spec fn after(self, step: Step) -> Mirror {
        match step {
            Step::UploadPaddles { left, right } => Mirror { left, right, ..self },
            Step::UploadBall { transform } => Mirror { ball: transform, ..self },
            _ => self,
        }
    }

    /// Whether every draw among `steps`, carried out in order from this
    /// copy, reads exactly `current`.
    pub open spec fn draws_read(self, steps: Seq<Step>, current: Mirror) -> bool
        decreases steps.len(),
    {
        if steps.len() == 0 {
            true
        } else {
            &&& (steps[0] is DrawIndexed ==> self == current)
            &&& self.after(steps[0]).draws_read(steps.drop_first(), current)
        }
    }
}

impl Mirror {
    /// The device's copy after all of `steps`, in order.
    pub open spec fn after_all(self, steps: Seq<Step>) -> Mirror
        decreases steps.len(),
    {
        if steps.len() == 0 {
            self
        } else {
            self.after(steps[0]).after_all(steps.drop_first())
        }
    }
}

impl Court {
    /// Where the left paddle is drawn. The numbers of a court are those of
    /// a state, so they fit the positions that the device is given.
    pub open spec fn left_instance(self) -> Position {
        Position { x: LEFT_PADDLE_X, y: self.left_y as i64, z: 0 }
    }

    /// Where the right paddle is drawn.
    pub open spec fn right_instance(self) -> Position {
        Position { x: RIGHT_PADDLE_X, y: self.right_y as i64, z: 0 }
    }

    /// Where the ball is drawn.
    pub open spec fn ball_transform(self) -> Position {
        Position { x: self.ball_x as i64, y: self.ball_y as i64, z: 0 }
    }

    /// What the device must hold when the match is drawn.
    pub open spec fn mirror(self) -> Mirror {
        Mirror {
            left: self.left_instance(),
            right: self.right_instance(),
            ball: self.ball_transform(),
        }
    }

    /// Whether the device's copy of the paddles is current, or else the
    /// paddles are marked as moved.
    pub open spec fn paddles_current(self, device: Mirror) -> bool {
        !self.paddles_dirty ==> device.left == self.left_instance() && device.right
            == self.right_instance()
    }

    /// The uploads that precede the drawing: the paddles only if they are
    /// marked as moved, the ball always.
    pub open spec fn uploads(self) -> Seq<Step> {
        let ball = seq![Step::UploadBall { transform: self.ball_transform() }];
        if self.paddles_dirty {
            seq![
                Step::UploadPaddles { left: self.left_instance(), right: self.right_instance() },
            ] + ball
        } else {
            ball
        }
    }

    /// Everything that a frame asks of the device.
    pub open spec fn frame(self) -> Seq<Step> {
        self.uploads() + drawing()
    }

    /// The court once its frame has been handed to the device.
    pub open spec fn rendered(self) -> Court {
        Court { paddles_dirty: false, ..self }
    }
}

impl PongState {
    /// Lists what the device must do to show the match as it is, and marks
    /// the paddles as handed over.
    pub fn render(&mut self) -> (steps: Vec<Step>)
        ensures
            steps@ == old(self)@.frame(),
            final(self)@ == old(self)@.rendered(),
    {
        let mut steps: Vec<Step> = Vec::new();
        if self.paddles_dirty {
            steps.push(
                Step::UploadPaddles {
                    left: Position { x: LEFT_PADDLE_X, y: self.left_paddle_y, z: 0 },
                    right: Position { x: RIGHT_PADDLE_X, y: self.right_paddle_y, z: 0 },
                },
            );
            self.paddles_dirty = false;
        }
        steps.push(
            Step::UploadBall { transform: Position { x: self.ball.x, y: self.ball.y, z: 0 } },
        );
        assert(steps@ =~= old(self)@.uploads());
        steps.push(Step::BeginPass { clear: Color { r: 0, g: 0, b: 0, a: UNIT } });
        steps.push(Step::SetPipeline);
        steps.push(Step::SetVertexBuffer { slot: 0, buffer: Buffer::PaddleVertices });
        steps.push(Step::SetVertexBuffer { slot: 1, buffer: Buffer::PaddleInstances });
        steps.push(Step::SetIndexBuffer { buffer: Buffer::RectangleIndices });
        steps.push(
            Step::DrawIndexed {
                index_count: RECTANGLE_INDEX_COUNT,
                base_vertex: 0,
                instance_count: PADDLE_COUNT,
            },
        );
        steps.push(Step::SetVertexBuffer { slot: 0, buffer: Buffer::BallVertices });
        steps.push(Step::SetVertexBuffer { slot: 1, buffer: Buffer::BallTransform });
        steps.push(
            Step::DrawIndexed { index_count: RECTANGLE_INDEX_COUNT, base_vertex: 0, instance_count: 1 },
        );
        steps.push(Step::EndPass);
        steps.push(Step::Submit);
        assert(steps@ =~= old(self)@.frame());
        steps
    }
}

/// Where the device's copy of the paddles is current unless they are marked
/// as moved, every draw of the frame reads the match as it is, whatever the
/// device held of the ball; and after the frame the device holds the match
/// as it is.
pub proof fn lemma_frame_draws_current_state(court: Court, device: Mirror)
    requires
        court.paddles_current(device),
    ensures
        device.draws_read(court.frame(), court.mirror()),
        device.after_all(court.frame()) == court.mirror(),
        court.rendered().paddles_current(device.after_all(court.frame())),
{
    let steps = court.frame();
    reveal_with_fuel(Mirror::draws_read, 16);
    reveal_with_fuel(Mirror::after_all, 16);
    if court.paddles_dirty {
        assert(steps.len() == 13);
    } else {
        assert(steps.len() == 12);
    }
}

/// A frame of the simulation leaves the device's copy of the paddles
/// current unless it marks them as moved: paddles that no key steers stay
/// where they are.
pub proof fn lemma_advance_keeps_paddles_current(
    court: Court,
    device: Mirror,
    delta_ms: int,
    trig: Trig,
    draws: (u32, u32, u32),
)
    requires
        court.wf(),
        court.paddles_current(device),
    ensures
        court.advance(delta_ms, trig, draws).paddles_current(device),
{
}

} // verus!
