//! The shapes that are drawn: one rectangle for a paddle, one for the ball,
//! both made of the same two triangles.

use vstd::prelude::*;
use crate::units::{BALL_HALF_EXTENT, PADDLE_HALF_HEIGHT, PADDLE_HALF_WIDTH, UNIT};

verus! {

/// Brightness of every colour channel of the shapes (0.9 of full).
pub const SHADE: i64 = 900_000_000;

/// A place in space, relative to a shape's centre or as an offset of the
/// whole shape.
#[derive(Clone, Copy, Debug, PartialEq, Eq, Structural)]
pub struct Position {
    pub x: i64,
    pub y: i64,
    pub z: i64,
}

/// A colour; each channel and the opacity run from zero to `UNIT`.
#[derive(Clone, Copy, Debug, PartialEq, Eq, Structural)]
pub struct Color {
    pub r: i64,
    pub g: i64,
    pub b: i64,
    pub a: i64,
}

/// A corner of a shape.
#[derive(Clone, Copy, Debug, PartialEq, Eq, Structural)]
pub struct Vertex {
    pub position: Position,
    pub color: Color,
}

/// The colour of both shapes: light grey, opaque.
pub open spec fn shape_color() -> Color {
    Color { r: SHADE, g: SHADE, b: SHADE, a: UNIT }
}

/// The corners of a flat rectangle about the origin, in the order bottom
/// right, top right, bottom left, top left.
pub open spec fn rectangle_of(half_width: i64, half_height: i64) -> Seq<Vertex> {
    let right = half_width;
    let left = (-half_width) as i64;
    let top = half_height;
    let bottom = (-half_height) as i64;
    seq![
        Vertex { position: Position { x: right, y: bottom, z: 0 }, color: shape_color() },
        Vertex { position: Position { x: right, y: top, z: 0 }, color: shape_color() },
        Vertex { position: Position { x: left, y: bottom, z: 0 }, color: shape_color() },
        Vertex { position: Position { x: left, y: top, z: 0 }, color: shape_color() },
    ]
}

/// The corners that the two triangles of a rectangle join: the first three
/// corners, then the last three backwards.
pub open spec fn rectangle_index_list() -> Seq<u16> {
    seq![0u16, 1u16, 2u16, 3u16, 2u16, 1u16]
}

/// Twice the area of the triangle `a`, `b`, `c` as seen from the front:
/// positive where the corners run counter-clockwise.
pub open spec fn signed_area(a: Position, b: Position, c: Position) -> int {
    (b.x - a.x) * (c.y - a.y) - (b.y - a.y) * (c.x - a.x)
}

/// Builds the four corners of a rectangle about the origin.
pub fn rectangle(half_width: i64, half_height: i64) -> (r: [Vertex; 4])
    requires
        half_width > i64::MIN,
        half_height > i64::MIN,
    ensures
        r@ == rectangle_of(half_width, half_height),
{
    let color: Color = Color { r: SHADE, g: SHADE, b: SHADE, a: UNIT };
    let r: [Vertex; 4] = [
        Vertex { position: Position { x: half_width, y: -half_height, z: 0 }, color },
        Vertex { position: Position { x: half_width, y: half_height, z: 0 }, color },
        Vertex { position: Position { x: -half_width, y: -half_height, z: 0 }, color },
        Vertex { position: Position { x: -half_width, y: half_height, z: 0 }, color },
    ];
    assert(r@ =~= rectangle_of(half_width, half_height));
    r
}

/// The corners of a paddle.
pub fn paddle_vertices() -> (r: [Vertex; 4])
    ensures
        r@ == rectangle_of(PADDLE_HALF_WIDTH, PADDLE_HALF_HEIGHT),
{
    rectangle(PADDLE_HALF_WIDTH, PADDLE_HALF_HEIGHT)
}

/// The corners of the ball.
pub fn ball_vertices() -> (r: [Vertex; 4])
    ensures
        r@ == rectangle_of(BALL_HALF_EXTENT, BALL_HALF_EXTENT),
{
    rectangle(BALL_HALF_EXTENT, BALL_HALF_EXTENT)
}

/// The corners that the two triangles of either shape join.
pub fn rectangle_indices() -> (r: [u16; 6])
    ensures
        r@ == rectangle_index_list(),
{
    let r: [u16; 6] = [0, 1, 2, 3, 2, 1];
    assert(r@ =~= rectangle_index_list());
    r
}

/// Every index names one of the four corners, and each of the two triangles
/// of a rectangle of positive size runs counter-clockwise, so that it faces
/// the viewer, and covers half of the rectangle.
pub proof fn lemma_triangles_face_front(half_width: i64, half_height: i64)
    requires
        0 < half_width,
        0 < half_height,
    ensures
        forall|i: int|
            0 <= i < rectangle_index_list().len() ==> (#[trigger] rectangle_index_list()[i])
                < rectangle_of(half_width, half_height).len(),
        ({
            let corners = rectangle_of(half_width, half_height);
            let indices = rectangle_index_list();
            let first = signed_area(
                corners[indices[0] as int].position,
                corners[indices[1] as int].position,
                corners[indices[2] as int].position,
            );
            let second = signed_area(
                corners[indices[3] as int].position,
                corners[indices[4] as int].position,
                corners[indices[5] as int].position,
            );
            &&& first == (2 * half_width) * (2 * half_height)
            &&& second == first
            &&& first > 0
        }),
{
    let w: int = half_width as int;
    let h: int = half_height as int;
    assert((w - w) * (-h - -h) - (h - -h) * (-w - w) == (2 * w) * (2 * h)) by (nonlinear_arith);
    assert((-w - -w) * (h - h) - (-h - h) * (w - -w) == (2 * w) * (2 * h)) by (nonlinear_arith);
    assert((2 * w) * (2 * h) > 0) by (nonlinear_arith)
        requires
            0 < w,
            0 < h,
    ;
}

} // verus!
