use lsystem3d::LsysError;
use lsystem3d::camera::Camera;
use lsystem3d::lsystem::{LSystem, LSystemRule, Production};
use lsystem3d::renderer::{Line, Renderer, Vertex};
use lsystem3d::turtle3d::Turtle3D;
use lsystem3d::vec3::Vec3Fx;

const FX: i64 = 65536;
const BACKGROUND: u32 = 0x000020;

/// A camera on the +X axis looking straight at the origin.
fn centered_camera(distance_units: i64) -> Camera {
    Camera {
        position: Vec3Fx { x: distance_units * FX, y: 0, z: 0 },
        target: Vec3Fx { x: 0, y: 0, z: 0 },
        up: Vec3Fx { x: 0, y: FX, z: 0 },
        fov: 51471,
        aspect: FX,
        near: 6554,
        far: 65536000,
        yaw: 0,
        pitch: 0,
        distance: distance_units * FX,
        last_mouse_pos: None,
        is_rotating: false,
    }
}

fn point_line(p: Vec3Fx, color: Vec3Fx) -> Line {
    Line::new(Vertex::new(p, color), Vertex::new(p, color))
}

const RED: Vec3Fx = Vec3Fx { x: FX, y: 0, z: 0 };
const GREEN: Vec3Fx = Vec3Fx { x: 0, y: FX, z: 0 };

#[test]
fn zero_area_is_rejected() {
    assert!(matches!(Renderer::new(0, 7), Err(LsysError::ZeroArea)));
    assert!(matches!(Renderer::new(7, 0), Err(LsysError::ZeroArea)));
    assert!(Renderer::new(1, 1).is_ok());
}

#[test]
fn clear_fills_background_and_drops_lines() {
    let mut renderer = Renderer::new(8, 6).expect("nonzero area");
    renderer.add_line(point_line(Vec3Fx { x: 0, y: 0, z: 0 }, RED));
    renderer.clear();
    assert_eq!(renderer.get_lines().len(), 0);
    let buffer = renderer.get_buffer();
    assert_eq!(buffer.len(), 48);
    assert!(buffer.iter().all(|&pixel| pixel == BACKGROUND));
}

#[test]
fn target_projects_to_screen_center() {
    // A point at the camera target lands within one pixel of the center.
    let mut renderer = Renderer::new(9, 9).expect("nonzero area");
    renderer.clear();
    renderer.add_line(point_line(Vec3Fx { x: 0, y: 0, z: 0 }, RED));
    renderer.render(&centered_camera(10));
    let buffer = renderer.get_buffer();
    assert_eq!(buffer[5 * 9 + 5], 0xFF0000);
}

#[test]
fn nearer_fragment_wins_either_order() {
    // Both points sit on the view axis and share the center pixel; the red
    // one is nearer. Whichever is drawn first, red remains.
    let near_point = point_line(Vec3Fx { x: 0, y: 0, z: 0 }, RED);
    let far_point = point_line(Vec3Fx { x: -5 * FX, y: 0, z: 0 }, GREEN);

    let mut first = Renderer::new(9, 9).expect("nonzero area");
    first.clear();
    first.add_line(near_point);
    first.add_line(far_point);
    first.render(&centered_camera(10));
    assert_eq!(first.get_buffer()[5 * 9 + 5], 0xFF0000);

    let mut second = Renderer::new(9, 9).expect("nonzero area");
    second.clear();
    second.add_line(far_point);
    second.add_line(near_point);
    second.render(&centered_camera(10));
    assert_eq!(second.get_buffer()[5 * 9 + 5], 0xFF0000);
}

#[test]
fn point_behind_the_camera_is_dropped() {
    let mut renderer = Renderer::new(9, 9).expect("nonzero area");
    renderer.clear();
    // Twenty units along +X is behind a camera ten units out.
    renderer.add_line(point_line(Vec3Fx { x: 20 * FX, y: 0, z: 0 }, RED));
    renderer.render(&centered_camera(10));
    assert!(renderer.get_buffer().iter().all(|&pixel| pixel == BACKGROUND));
}

#[test]
fn thick_segment_covers_a_disk() {
    let mut renderer = Renderer::new(9, 9).expect("nonzero area");
    renderer.clear();
    let p = Vec3Fx { x: 0, y: 0, z: 0 };
    renderer.add_line(Line::new_with_thickness(
        Vertex::new(p, RED),
        Vertex::new(p, RED),
        3 * FX,
    ));
    renderer.render(&centered_camera(10));
    let buffer = renderer.get_buffer();
    // Radius two around the center pixel, by the inscribed-circle test.
    assert_eq!(buffer[5 * 9 + 5], 0xFF0000);
    assert_eq!(buffer[5 * 9 + 4], 0xFF0000);
    assert_eq!(buffer[5 * 9 + 6], 0xFF0000);
    assert_eq!(buffer[4 * 9 + 5], 0xFF0000);
    assert_eq!(buffer[6 * 9 + 5], 0xFF0000);
    // The square's corner at offset (2, 2) is outside the circle.
    assert_eq!(buffer[7 * 9 + 7], BACKGROUND);
}

#[test]
fn resize_reallocates_with_clear_values() {
    let mut renderer = Renderer::new(4, 4).expect("nonzero area");
    renderer.add_line(point_line(Vec3Fx { x: 0, y: 0, z: 0 }, RED));
    renderer.resize(3, 2);
    let buffer = renderer.get_buffer();
    assert_eq!(buffer.len(), 6);
    assert!(buffer.iter().all(|&pixel| pixel == BACKGROUND));
    // The segment list is kept across a resize.
    assert_eq!(renderer.get_lines().len(), 1);
}

#[test]
fn color_channels_pack_high_to_low() {
    let mut renderer = Renderer::new(9, 9).expect("nonzero area");
    renderer.clear();
    // Half red, full green, quarter blue.
    let color = Vec3Fx { x: FX / 2, y: FX, z: FX / 4 };
    renderer.add_line(point_line(Vec3Fx { x: 0, y: 0, z: 0 }, color));
    renderer.render(&centered_camera(10));
    // 127 = 32768 * 255 / 65536, 63 = 16384 * 255 / 65536.
    assert_eq!(renderer.get_buffer()[5 * 9 + 5], (127 << 16) | (255 << 8) | 63);
}

#[test]
fn whole_pipeline_draws_a_figure() {
    let rule = LSystemRule {
        name: "koch".to_string(),
        seed: "F".to_string(),
        angle: 90 * FX,
        iterations: 1,
        rules: vec![Production { symbol: 'F', replacement: "F+F-F-F+F".to_string() }],
        step_length: Some(FX),
        depth_based: Some(true),
        palette: Vec::new(),
        description: String::new(),
    };
    let mut system = LSystem::new(rule);
    system.generate().expect("within the length cap");
    let mut turtle = Turtle3D::new();
    let mut renderer = Renderer::new(64, 64).expect("nonzero area");
    renderer.clear();
    system.draw_3d(&mut turtle, &mut renderer);
    assert_eq!(renderer.get_lines().len(), 5);
    renderer.render(&centered_camera(10));
    let drawn = renderer.get_buffer().iter().filter(|&&p| p != BACKGROUND).count();
    assert!(drawn > 0);
}
