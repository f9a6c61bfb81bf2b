use lsystem3d::camera::{Camera, DISTANCE_MAX, DISTANCE_MIN, PITCH_MIN};

const FX: i64 = 65536;

#[test]
fn new_camera_defaults() {
    let camera = Camera::new(FX);
    assert_eq!(camera.distance, 10 * FX);
    assert_eq!(camera.yaw, 0);
    assert_eq!(camera.pitch, -19661);
    assert_eq!(camera.near, 6554);
    assert_eq!(camera.far, 1000 * FX);
    assert!(!camera.is_rotating);
}

#[test]
fn pitch_clamps_at_the_floor_exactly() {
    // Dragging down hard pins the pitch at a tenth above minus a quarter
    // turn, and further drags leave it there.
    let mut camera = Camera::new(FX);
    camera.start_rotation(0, 0);
    for step in 1..=4i64 {
        camera.update_rotation(0, step * 100 * FX);
    }
    assert_eq!(camera.pitch, PITCH_MIN);
    camera.update_rotation(0, 1000 * FX);
    assert_eq!(camera.pitch, PITCH_MIN);
}

#[test]
fn rotation_needs_an_active_drag() {
    let mut camera = Camera::new(FX);
    let yaw = camera.yaw;
    let pitch = camera.pitch;
    camera.update_rotation(50 * FX, 50 * FX);
    camera.update_rotation(90 * FX, 90 * FX);
    assert_eq!(camera.yaw, yaw);
    assert_eq!(camera.pitch, pitch);
}

#[test]
fn stop_rotation_freezes_the_angles() {
    let mut camera = Camera::new(FX);
    camera.start_rotation(0, 0);
    camera.update_rotation(100 * FX, 0);
    let yaw = camera.yaw;
    camera.stop_rotation();
    camera.update_rotation(500 * FX, 0);
    assert_eq!(camera.yaw, yaw);
}

#[test]
fn drag_moves_yaw_by_a_hundredth() {
    let mut camera = Camera::new(FX);
    camera.start_rotation(0, 0);
    camera.update_rotation(100 * FX, 0);
    // One hundred pixels right turn the yaw down by one radian.
    assert_eq!(camera.yaw, -FX);
}

#[test]
fn zoom_clamps_at_both_ends() {
    let mut camera = Camera::new(FX);
    for _ in 0..100 {
        camera.zoom(FX);
    }
    assert_eq!(camera.distance, DISTANCE_MAX);
    for _ in 0..100 {
        camera.zoom(-FX);
    }
    assert_eq!(camera.distance, DISTANCE_MIN);
}

#[test]
fn set_aspect_ratio_changes_only_the_aspect() {
    let mut camera = Camera::new(FX);
    let distance = camera.distance;
    camera.set_aspect_ratio(2 * FX);
    assert_eq!(camera.aspect, 2 * FX);
    assert_eq!(camera.distance, distance);
}

#[test]
fn centered_view_matrix_is_axis_aligned() {
    let mut camera = Camera::new(FX);
    camera.pitch = 0;
    camera.yaw = 0;
    camera.update_from_angles();
    assert_eq!(camera.position.x, 10 * FX);
    assert_eq!(camera.position.y, 0);
    assert_eq!(camera.position.z, 0);
    let view = camera.view_matrix();
    assert_eq!((view.r0.x, view.r0.y, view.r0.z, view.r0.w), (0, 0, FX, 0));
    assert_eq!((view.r1.x, view.r1.y, view.r1.z, view.r1.w), (0, FX, 0, 0));
    assert_eq!((view.r2.x, view.r2.y, view.r2.z, view.r2.w), (-FX, 0, 0, 10 * FX));
    assert_eq!((view.r3.x, view.r3.y, view.r3.z, view.r3.w), (0, 0, 0, FX));
}

#[test]
fn projection_matrix_shape() {
    let camera = Camera::new(FX);
    let proj = camera.projection_matrix();
    assert_eq!((proj.r0.y, proj.r0.z, proj.r0.w), (0, 0, 0));
    assert_eq!((proj.r1.x, proj.r1.z, proj.r1.w), (0, 0, 0));
    assert_eq!((proj.r3.x, proj.r3.y, proj.r3.z, proj.r3.w), (0, 0, FX, 0));
    // A forty-five degree field of view gives a focal factor near
    // cot(22.5 degrees), about 2.4142.
    assert!((proj.r1.y - 158218).abs() < FX / 50);
}
