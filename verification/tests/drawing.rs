use pong::court::{Point, Trig};
use pong::event::{Event, Reaction};
use pong::geometry::{
    ball_vertices, paddle_vertices, rectangle, rectangle_indices, Color, Position, Vertex,
};
use pong::keys::{ElementState, Key, KeyboardInput};
use pong::layout::{
    instance_layout, vertex_layout, InputStepMode, VertexAttribute, VertexFormat,
};
use pong::render::{Buffer, Step};
use pong::state::PongState;

const GREY: Color = Color { r: 900_000_000, g: 900_000_000, b: 900_000_000, a: 1_000_000_000 };

fn corner(x: i64, y: i64) -> Vertex {
    Vertex { position: Position { x, y, z: 0 }, color: GREY }
}

fn drawing() -> Vec<Step> {
    vec![
        Step::BeginPass { clear: Color { r: 0, g: 0, b: 0, a: 1_000_000_000 } },
        Step::SetPipeline,
        Step::SetVertexBuffer { slot: 0, buffer: Buffer::PaddleVertices },
        Step::SetVertexBuffer { slot: 1, buffer: Buffer::PaddleInstances },
        Step::SetIndexBuffer { buffer: Buffer::RectangleIndices },
        Step::DrawIndexed { index_count: 6, base_vertex: 0, instance_count: 2 },
        Step::SetVertexBuffer { slot: 0, buffer: Buffer::BallVertices },
        Step::SetVertexBuffer { slot: 1, buffer: Buffer::BallTransform },
        Step::DrawIndexed { index_count: 6, base_vertex: 0, instance_count: 1 },
        Step::EndPass,
        Step::Submit,
    ]
}

#[test]
fn the_paddle_is_a_tall_rectangle() {
    assert_eq!(
        paddle_vertices(),
        [
            corner(25_000_000, -150_000_000),
            corner(25_000_000, 150_000_000),
            corner(-25_000_000, -150_000_000),
            corner(-25_000_000, 150_000_000),
        ]
    );
}

#[test]
fn the_ball_is_a_square() {
    assert_eq!(
        ball_vertices(),
        [
            corner(25_000_000, -25_000_000),
            corner(25_000_000, 25_000_000),
            corner(-25_000_000, -25_000_000),
            corner(-25_000_000, 25_000_000),
        ]
    );
}

#[test]
fn a_rectangle_lists_its_corners_from_bottom_right() {
    assert_eq!(rectangle(3, 5), [corner(3, -5), corner(3, 5), corner(-3, -5), corner(-3, 5)]);
    assert_eq!(rectangle(0, 0), [corner(0, 0); 4]);
    assert_eq!(
        rectangle(i64::MAX, 1),
        [corner(i64::MAX, -1), corner(i64::MAX, 1), corner(-i64::MAX, -1), corner(-i64::MAX, 1)]
    );
}

#[test]
fn two_triangles_make_a_rectangle() {
    let indices = rectangle_indices();
    assert_eq!(indices, [0, 1, 2, 3, 2, 1]);
    let corners = paddle_vertices();
    for triangle in indices.chunks(3) {
        let a = corners[triangle[0] as usize].position;
        let b = corners[triangle[1] as usize].position;
        let c = corners[triangle[2] as usize].position;
        let doubled_area = (b.x - a.x) * (c.y - a.y) - (b.y - a.y) * (c.x - a.x);
        assert_eq!(doubled_area, 50_000_000 * 300_000_000);
    }
}

#[test]
fn a_corner_is_a_position_and_a_colour() {
    let layout = vertex_layout();
    assert_eq!(layout.array_stride, 28);
    assert_eq!(layout.step_mode, InputStepMode::Vertex);
    assert_eq!(
        layout.attributes,
        vec![
            VertexAttribute { format: VertexFormat::Float32x3, offset: 0, shader_location: 0 },
            VertexAttribute { format: VertexFormat::Float32x4, offset: 12, shader_location: 1 },
        ]
    );
    assert_eq!(layout.array_stride as usize, std::mem::size_of::<([f32; 3], [f32; 4])>());
}

#[test]
fn an_instance_is_an_offset() {
    let layout = instance_layout();
    assert_eq!(layout.array_stride, 12);
    assert_eq!(layout.step_mode, InputStepMode::Instance);
    assert_eq!(
        layout.attributes,
        vec![VertexAttribute { format: VertexFormat::Float32x3, offset: 0, shader_location: 2 }]
    );
    assert_eq!(layout.array_stride as usize, std::mem::size_of::<[f32; 3]>());
}

#[test]
fn formats_are_sized_in_bytes() {
    assert_eq!(VertexFormat::Float32x3.size(), 12);
    assert_eq!(VertexFormat::Float32x4.size(), 16);
}

#[test]
fn a_frame_uploads_the_ball_and_draws() {
    let mut state = PongState::new(800, 600);
    state.ball = Point { x: 11, y: -22 };
    let steps = state.render();
    let mut expected = vec![Step::UploadBall { transform: Position { x: 11, y: -22, z: 0 } }];
    expected.extend(drawing());
    assert_eq!(steps, expected);
    assert!(!state.paddles_dirty);
}

#[test]
fn a_frame_uploads_paddles_that_may_have_moved() {
    let mut state = PongState::new(800, 600);
    state.left_paddle_y = 100;
    state.right_paddle_y = -200;
    state.paddles_dirty = true;
    let steps = state.render();
    let mut expected = vec![
        Step::UploadPaddles {
            left: Position { x: -900_000_000, y: 100, z: 0 },
            right: Position { x: 900_000_000, y: -200, z: 0 },
        },
        Step::UploadBall { transform: Position { x: 0, y: 0, z: 0 } },
    ];
    expected.extend(drawing());
    assert_eq!(steps, expected);
    assert!(!state.paddles_dirty);
    assert_eq!(state.left_paddle_y, 100);
    assert_eq!(state.right_paddle_y, -200);

    let again = state.render();
    assert_eq!(again.len(), 12);
    assert_eq!(again[0], Step::UploadBall { transform: Position { x: 0, y: 0, z: 0 } });
}

#[test]
fn a_frame_is_submitted_once_and_last() {
    for dirty in [false, true] {
        let mut state = PongState::new(800, 600);
        state.paddles_dirty = dirty;
        let steps = state.render();
        assert_eq!(steps.iter().filter(|s| **s == Step::Submit).count(), 1);
        assert_eq!(steps.last(), Some(&Step::Submit));
        let first_draw = steps.iter().position(|s| matches!(s, Step::BeginPass { .. })).unwrap();
        for (i, step) in steps.iter().enumerate() {
            if matches!(step, Step::UploadBall { .. } | Step::UploadPaddles { .. }) {
                assert!(i < first_draw);
            }
        }
    }
}

#[test]
fn closing_leaves_the_loop() {
    let mut state = PongState::new(800, 600);
    assert!(matches!(state.handle(Event::CloseRequested), Reaction::Exit));
    assert_eq!(state.ball, Point { x: 0, y: 0 });
}

#[test]
fn a_new_size_reconfigures_the_surface() {
    let mut state = PongState::new(800, 600);
    let reaction = state.handle(Event::Resized { width: 640, height: 480 });
    assert!(matches!(reaction, Reaction::Reconfigure { width: 640, height: 480 }));
    assert_eq!((state.surface_width, state.surface_height), (640, 480));
}

#[test]
fn a_key_event_changes_the_held_keys() {
    let mut state = PongState::new(800, 600);
    let down = KeyboardInput { virtual_keycode: Some(Key::Up), state: ElementState::Pressed };
    let up = KeyboardInput { virtual_keycode: Some(Key::Up), state: ElementState::Released };
    assert!(matches!(state.handle(Event::KeyboardInput { input: down }), Reaction::Nothing));
    assert_eq!(state.pressed_keycodes.keys, vec![Key::Up]);
    assert!(matches!(state.handle(Event::KeyboardInput { input: up }), Reaction::Nothing));
    assert_eq!(state.pressed_keycodes.len(), 0);
    assert_eq!(state.right_paddle_y, 0);
}

#[test]
fn cleared_events_ask_for_a_redraw() {
    let mut state = PongState::new(800, 600);
    assert!(matches!(state.handle(Event::MainEventsCleared), Reaction::RequestRedraw));
    assert!(matches!(state.handle(Event::Other), Reaction::Nothing));
    assert_eq!(state.ball, Point { x: 0, y: 0 });
    assert_eq!(state.ball_direction, 80_000_000);
}

#[test]
fn a_redraw_simulates_and_then_draws() {
    let mut state = PongState::new(800, 600);
    state.pressed_keycodes.press(Key::W);
    let trig = Trig { sin: 1_000_000, cos: 0 };
    let reaction = state.handle(Event::RedrawRequested { delta_ms: 10, trig });
    let mut expected = vec![
        Step::UploadPaddles {
            left: Position { x: -900_000_000, y: 20_000_000, z: 0 },
            right: Position { x: 900_000_000, y: 0, z: 0 },
        },
        Step::UploadBall { transform: Position { x: 10_000_000, y: 0, z: 0 } },
    ];
    expected.extend(drawing());
    match reaction {
        Reaction::Present { steps } => assert_eq!(steps, expected),
        other => panic!("{:?}", other),
    }
    assert_eq!(state.left_paddle_y, 20_000_000);
    assert_eq!(state.ball, Point { x: 10_000_000, y: 0 });
    assert!(!state.paddles_dirty);
}

#[test]
fn a_redraw_without_steering_uploads_the_ball_alone() {
    let mut state = PongState::new(800, 600);
    let trig = Trig { sin: 0, cos: 1_000_000 };
    match state.handle(Event::RedrawRequested { delta_ms: 10, trig }) {
        Reaction::Present { steps } => {
            assert_eq!(steps.len(), 12);
            assert_eq!(
                steps[0],
                Step::UploadBall { transform: Position { x: 0, y: 10_000_000, z: 0 } }
            );
        }
        other => panic!("{:?}", other),
    }
}
