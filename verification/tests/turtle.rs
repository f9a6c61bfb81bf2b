use lsystem3d::renderer::Renderer;
use lsystem3d::turtle3d::Turtle3D;
use lsystem3d::vec3::Vec3Fx;

const FX: i64 = 65536;

fn chars(s: &str) -> Vec<char> {
    s.chars().collect()
}

fn fresh() -> (Turtle3D, Renderer) {
    let turtle = Turtle3D::new();
    let renderer = Renderer::new(16, 16).expect("nonzero area");
    (turtle, renderer)
}

#[test]
fn bracket_save_restore() {
    // Seed `[F]F` at ninety degrees: both segments run from the origin to
    // one step up, and the turtle ends one step up.
    let (mut turtle, mut renderer) = fresh();
    turtle.set_angle(90 * FX);
    turtle.interpret(&chars("[F]F"), &mut renderer);
    assert_eq!(turtle.current_state.position, Vec3Fx { x: 0, y: FX, z: 0 });
    let lines = renderer.get_lines();
    assert_eq!(lines.len(), 2);
    for line in lines {
        assert_eq!(line.start.position, Vec3Fx { x: 0, y: 0, z: 0 });
        assert_eq!(line.end.position, Vec3Fx { x: 0, y: FX, z: 0 });
    }
}

#[test]
fn yaw_quarter_turn_is_exact() {
    // `+F` at ninety degrees: yawing +Y about the +Z up axis lands exactly
    // on -X, and the drawn segment runs from the origin to (-1, 0, 0).
    let (mut turtle, mut renderer) = fresh();
    turtle.set_angle(90 * FX);
    turtle.interpret(&chars("+F"), &mut renderer);
    assert_eq!(
        turtle.current_state.position,
        Vec3Fx { x: -FX, y: 0, z: 0 }
    );
    let lines = renderer.get_lines();
    assert_eq!(lines.len(), 1);
    assert_eq!(lines[0].start.position, Vec3Fx { x: 0, y: 0, z: 0 });
    assert_eq!(lines[0].end.position, Vec3Fx { x: -FX, y: 0, z: 0 });
}

#[test]
fn yaw_then_unyaw_restores_heading() {
    // `+F-F` at ninety degrees: the `-` undoes the `+`, so the second
    // segment leaves the first endpoint heading along +Y again.
    let (mut turtle, mut renderer) = fresh();
    turtle.set_angle(90 * FX);
    turtle.interpret(&chars("+F-F"), &mut renderer);
    let lines = renderer.get_lines();
    assert_eq!(lines.len(), 2);
    assert_eq!(lines[0].start.position, Vec3Fx { x: 0, y: 0, z: 0 });
    assert_eq!(lines[0].end.position, Vec3Fx { x: -FX, y: 0, z: 0 });
    assert_eq!(lines[1].start.position, Vec3Fx { x: -FX, y: 0, z: 0 });
    assert_eq!(lines[1].end.position, Vec3Fx { x: -FX, y: FX, z: 0 });
    assert_eq!(
        turtle.current_state.direction,
        Vec3Fx { x: 0, y: FX, z: 0 }
    );
}

#[test]
fn turn_around_negates_heading() {
    let (mut turtle, mut renderer) = fresh();
    turtle.interpret(&chars("|"), &mut renderer);
    assert_eq!(
        turtle.current_state.direction,
        Vec3Fx { x: 0, y: -FX, z: 0 }
    );
}

#[test]
fn balanced_brackets_restore_whole_state() {
    // After any balanced bracket group the turtle state is exactly the one
    // from before it.
    let (mut turtle, mut renderer) = fresh();
    turtle.set_angle(90 * FX);
    turtle.interpret(&chars("[+F[&F]/F]"), &mut renderer);
    let initial = lsystem3d::turtle3d::TurtleState::new();
    assert_eq!(turtle.current_state.position, initial.position);
    assert_eq!(turtle.current_state.direction, initial.direction);
    assert_eq!(turtle.current_state.up, initial.up);
    assert_eq!(turtle.current_state.line_width, initial.line_width);
}

#[test]
fn pop_on_empty_stack_is_a_no_op() {
    let (mut turtle, mut renderer) = fresh();
    turtle.set_angle(90 * FX);
    turtle.interpret(&chars("]F"), &mut renderer);
    assert_eq!(turtle.current_state.position, Vec3Fx { x: 0, y: FX, z: 0 });
}

#[test]
fn unknown_symbols_are_ignored() {
    let (mut turtle, mut renderer) = fresh();
    turtle.interpret(&chars("XYZ@?"), &mut renderer);
    assert_eq!(turtle.current_state.position, Vec3Fx { x: 0, y: 0, z: 0 });
    assert_eq!(renderer.get_lines().len(), 0);
}

#[test]
fn lowercase_moves_without_drawing() {
    let (mut turtle, mut renderer) = fresh();
    turtle.interpret(&chars("fFg"), &mut renderer);
    assert_eq!(
        turtle.current_state.position,
        Vec3Fx { x: 0, y: 3 * FX, z: 0 }
    );
    let lines = renderer.get_lines();
    assert_eq!(lines.len(), 1);
    assert_eq!(lines[0].start.position, Vec3Fx { x: 0, y: FX, z: 0 });
}

#[test]
fn depth_color_at_origin() {
    // Height coloring at y = 0 sits halfway between brown and green.
    let (mut turtle, mut renderer) = fresh();
    turtle.interpret(&chars("F"), &mut renderer);
    let lines = renderer.get_lines();
    assert_eq!(
        lines[0].start.color,
        Vec3Fx { x: 13107, y: 32768, z: 6553 }
    );
}

#[test]
fn palette_coloring_follows_the_hash_command() {
    let (mut turtle, mut renderer) = fresh();
    turtle.set_depth_colors(false);
    turtle.interpret(&chars("#F"), &mut renderer);
    // The second palette entry is brown.
    assert_eq!(
        renderer.get_lines()[0].start.color,
        Vec3Fx { x: 52429, y: 26214, z: 0 }
    );
}

#[test]
fn line_width_commands_clamp() {
    let (mut turtle, mut renderer) = fresh();
    // Forty narrowing steps pin the width at the floor.
    let narrow: String = "!".repeat(40);
    turtle.interpret(&chars(&narrow), &mut renderer);
    assert_eq!(turtle.current_state.line_width, 6554);
    turtle.reset();
    let widen: String = "'".repeat(40);
    turtle.interpret(&chars(&widen), &mut renderer);
    assert_eq!(turtle.current_state.line_width, 327680);
}

#[test]
fn frame_stays_orthonormal_within_tolerance() {
    // After a mixed command sequence at the default angle, heading and up
    // are unit length and perpendicular to within one part in a thousand.
    let (mut turtle, mut renderer) = fresh();
    turtle.interpret(
        &chars("F+F&F\\F^F/F-F|F+F&F/F^F\\F-F+F&F"),
        &mut renderer,
    );
    let d = turtle.current_state.direction;
    let u = turtle.current_state.up;
    let fx2: i128 = (FX as i128) * (FX as i128);
    let tolerance = fx2 / 1000;
    let norm_d = (d.x as i128) * (d.x as i128) + (d.y as i128) * (d.y as i128)
        + (d.z as i128) * (d.z as i128);
    let norm_u = (u.x as i128) * (u.x as i128) + (u.y as i128) * (u.y as i128)
        + (u.z as i128) * (u.z as i128);
    let dot = (d.x as i128) * (u.x as i128) + (d.y as i128) * (u.y as i128)
        + (d.z as i128) * (u.z as i128);
    assert!((norm_d - fx2).abs() <= tolerance);
    assert!((norm_u - fx2).abs() <= tolerance);
    assert!(dot.abs() <= tolerance);
}

#[test]
fn reset_restores_the_initial_state() {
    let (mut turtle, mut renderer) = fresh();
    turtle.interpret(&chars("F+F[F"), &mut renderer);
    turtle.reset();
    let initial = lsystem3d::turtle3d::TurtleState::new();
    assert_eq!(turtle.current_state.position, initial.position);
    assert_eq!(turtle.current_state.direction, initial.direction);
    assert_eq!(turtle.current_state.color, initial.color);
    assert_eq!(turtle.state_stack.len(), 0);
}
