use blackhole_sim::camera::{
    Camera, DEFAULT_ASPECT_BITS, DEFAULT_SCALE_BITS, DEFAULT_YAW_BITS, FAR_PLANE_BITS,
    FIELD_OF_VIEW_BITS, MAX_PITCH_BITS, MAX_SCALE_BITS, MIN_PITCH_BITS, MIN_SCALE_BITS,
    NEAR_PLANE_BITS, ORBIT_DISTANCE_BITS, ZOOM_SENSITIVITY_BITS,
};
use blackhole_sim::scalar::{Scalar, Vector3};
use cgmath::{perspective, Deg, EuclideanSpace, Matrix3, Matrix4, Point3, Rad, SquareMatrix};

fn s(x: f32) -> Scalar {
    Scalar::from_bits(x.to_bits())
}

fn f(x: Scalar) -> f32 {
    f32::from_bits(x.to_bits())
}

// Zooms as a caller does: the product first, then the camera's limits.
fn zoom(camera: &mut Camera, delta: f32) {
    let factor = 1.0 + delta * f32::from_bits(ZOOM_SENSITIVITY_BITS);
    camera.zoom(s(f(camera.scale) * factor));
}

fn rotate(camera: &mut Camera, dx: f32, dy: f32) {
    camera.rotate(s(f(camera.rotation_y) + dx), s(f(camera.rotation_x) + dy));
}

fn pan(camera: &mut Camera, dx: f32, dy: f32) {
    let pan_scale = 1.0 / f(camera.scale);
    camera.pan(s(f(camera.position.x) - dx * pan_scale), s(f(camera.position.y) + dy * pan_scale));
}

fn view_projection(camera: &Camera) -> Matrix4<f32> {
    let distance = f32::from_bits(ORBIT_DISTANCE_BITS) / f(camera.scale);
    let rot_x = Matrix3::from_angle_x(Rad(f(camera.rotation_x)));
    let rot_y = Matrix3::from_angle_y(Rad(f(camera.rotation_y)));
    let eye = Point3::from_vec(rot_y * rot_x * cgmath::Vector3::new(0.0, 0.0, distance));
    let view = Matrix4::look_at_rh(eye, Point3::new(0.0, 0.0, 0.0), cgmath::Vector3::unit_y());
    let proj = perspective(
        Deg(f32::from_bits(FIELD_OF_VIEW_BITS)),
        f(camera.aspect_ratio),
        f32::from_bits(NEAR_PLANE_BITS),
        f32::from_bits(FAR_PLANE_BITS),
    );
    proj * view
}

#[test]
fn camera_constants_encode_their_values() {
    assert_eq!(DEFAULT_SCALE_BITS, 3.0f32.to_bits());
    assert_eq!(MIN_SCALE_BITS, 0.3f32.to_bits());
    assert_eq!(MAX_SCALE_BITS, 5.0f32.to_bits());
    assert_eq!(MIN_PITCH_BITS, (-1.5f32).to_bits());
    assert_eq!(MAX_PITCH_BITS, 1.5f32.to_bits());
    assert_eq!(DEFAULT_YAW_BITS, std::f32::consts::FRAC_PI_2.to_bits());
    assert_eq!(ORBIT_DISTANCE_BITS, 800.0f32.to_bits());
    assert_eq!(DEFAULT_ASPECT_BITS, 1.0f32.to_bits());
    assert_eq!(ZOOM_SENSITIVITY_BITS, 0.01f32.to_bits());
    assert_eq!(FIELD_OF_VIEW_BITS, 45.0f32.to_bits());
    assert_eq!(NEAR_PLANE_BITS, 0.1f32.to_bits());
    assert_eq!(FAR_PLANE_BITS, 5000.0f32.to_bits());
}

#[test]
fn new_camera_has_the_defaults() {
    let camera = Camera::new();
    assert_eq!(camera.position, Vector3 { x: s(0.0), y: s(0.0), z: s(800.0) });
    assert_eq!(camera.scale, s(3.0));
    assert_eq!(camera.aspect_ratio, s(1.0));
    assert_eq!(camera.rotation_x, s(0.0));
    assert_eq!(camera.rotation_y, s(std::f32::consts::FRAC_PI_2));
}

#[test]
fn zoom_scales_by_one_hundredth_per_unit() {
    let mut camera = Camera::new();
    zoom(&mut camera, 10.0);
    assert_eq!(camera.scale, s(3.0 * (1.0 + 10.0 * 0.01)));
    assert_eq!(f(camera.scale), 3.3000002);
}

#[test]
fn zoom_far_out_stops_at_the_minimum_and_the_matrix_stays_sound() {
    let mut camera = Camera::new();
    zoom(&mut camera, -1000.0);
    assert_eq!(camera.scale, s(0.3));
    let matrix = view_projection(&camera);
    let entries: &[f32; 16] = matrix.as_ref();
    assert!(entries.iter().all(|e| e.is_finite()));
    assert!(matrix.invert().is_some());
}

#[test]
fn zoom_far_in_stops_at_the_maximum() {
    let mut camera = Camera::new();
    zoom(&mut camera, 1000.0);
    assert_eq!(camera.scale, s(5.0));
}

#[test]
fn repeated_extreme_zooms_stay_within_the_limits() {
    let mut camera = Camera::new();
    let deltas = [
        1.0e9f32,
        -1.0e9,
        f32::MAX,
        f32::MIN,
        f32::INFINITY,
        f32::NEG_INFINITY,
        -100.0,
        -99.0,
        0.0,
        250.0,
        -1000.0,
        1.0e-30,
    ];
    for round in 0..4 {
        for delta in deltas {
            zoom(&mut camera, delta);
            let scale = f(camera.scale);
            assert!((0.3..=5.0).contains(&scale), "round {round}, delta {delta}: {scale}");
        }
    }
}

#[test]
fn zoom_by_a_nan_leaves_a_nan() {
    let mut camera = Camera::new();
    zoom(&mut camera, f32::NAN);
    assert!(f(camera.scale).is_nan());
}

#[test]
fn zoom_leaves_everything_but_the_scale() {
    let mut camera = Camera::new();
    let before = camera;
    zoom(&mut camera, 20.0);
    assert_eq!(camera.position, before.position);
    assert_eq!(camera.rotation_x, before.rotation_x);
    assert_eq!(camera.rotation_y, before.rotation_y);
    assert_eq!(camera.aspect_ratio, before.aspect_ratio);
}

#[test]
fn rotate_adds_to_yaw_and_pitch() {
    let mut camera = Camera::new();
    rotate(&mut camera, 0.25, -0.5);
    assert_eq!(camera.rotation_y, s(std::f32::consts::FRAC_PI_2 + 0.25));
    assert_eq!(camera.rotation_x, s(-0.5));
}

#[test]
fn repeated_rotation_never_passes_a_pole() {
    let mut camera = Camera::new();
    for _ in 0..1000 {
        rotate(&mut camera, 0.3, 0.4);
        assert!(f(camera.rotation_x) <= 1.5);
    }
    assert_eq!(camera.rotation_x, s(1.5));
    for _ in 0..1000 {
        rotate(&mut camera, -0.3, -0.7);
        assert!(f(camera.rotation_x) >= -1.5);
    }
    assert_eq!(camera.rotation_x, s(-1.5));
    rotate(&mut camera, 0.0, f32::INFINITY);
    assert_eq!(camera.rotation_x, s(1.5));
    rotate(&mut camera, 0.0, f32::NEG_INFINITY);
    assert_eq!(camera.rotation_x, s(-1.5));
}

#[test]
fn yaw_is_free() {
    let mut camera = Camera::new();
    for _ in 0..1000 {
        rotate(&mut camera, 1.0, 0.0);
    }
    assert!(f(camera.rotation_y) > 1000.0);
}

#[test]
fn pan_moves_against_the_drag_along_x_and_with_it_along_y() {
    let mut camera = Camera::new();
    pan(&mut camera, 30.0, 60.0);
    assert_eq!(camera.position, Vector3 { x: s(-10.0), y: s(20.0), z: s(800.0) });
    assert_eq!(camera.scale, s(3.0));
    assert_eq!(camera.rotation_x, s(0.0));
    assert_eq!(camera.rotation_y, s(std::f32::consts::FRAC_PI_2));
}

#[test]
fn reset_gives_a_camera_as_constructed() {
    let mut camera = Camera::new();
    rotate(&mut camera, 2.0, 1.0);
    zoom(&mut camera, -40.0);
    pan(&mut camera, 12.0, -7.0);
    assert_ne!(camera, Camera::new());
    camera.reset();
    assert_eq!(camera, Camera::new());
}

#[test]
fn reset_keeps_the_aspect_ratio() {
    let mut camera = Camera::new();
    camera.set_aspect_ratio(s(16.0 / 9.0));
    zoom(&mut camera, 50.0);
    camera.reset();
    assert_eq!(camera.aspect_ratio, s(16.0 / 9.0));
    assert_eq!(camera.scale, s(3.0));
    assert_eq!(camera.position, Camera::new().position);
    assert_eq!(camera.rotation_x, s(0.0));
    assert_eq!(camera.rotation_y, s(std::f32::consts::FRAC_PI_2));
}

#[test]
fn set_aspect_ratio_changes_only_the_ratio() {
    let mut camera = Camera::new();
    camera.set_aspect_ratio(s(1024.0 / 768.0));
    let mut expected = Camera::new();
    expected.aspect_ratio = s(1024.0 / 768.0);
    assert_eq!(camera, expected);
}
