use blackhole_sim::camera::Camera;
use blackhole_sim::frame::{
    AppState, FrameStep, MILLISECONDS_BITS, NOMINAL_FRAME_BITS, REPORT_INTERVAL,
};
use blackhole_sim::graphics::{preferred_format, Graphics, FRAME_LATENCY};
use blackhole_sim::input::{CameraCommand, InputState, Point};
use blackhole_sim::render::Renderer;
use blackhole_sim::scalar::Scalar;
use blackhole_sim::simulation::{ComputeDispatch, DrawCall};

fn s(x: f32) -> Scalar {
    Scalar::from_bits(x.to_bits())
}

fn f(x: Scalar) -> f32 {
    f32::from_bits(x.to_bits())
}

fn app() -> AppState {
    AppState::new(&vec![true, false]).unwrap()
}

// Runs one frame as a caller does: the elapsed seconds first.
fn frame(app: &mut AppState, time: f32) -> blackhole_sim::frame::FrameUpdate {
    let elapsed = (time - f(app.last_time)) / f32::from_bits(MILLISECONDS_BITS);
    app.update(s(time), s(elapsed))
}

fn dispatch() -> ComputeDispatch {
    ComputeDispatch { bind_group: 0, workgroups_x: 2048, workgroups_y: 1, workgroups_z: 1 }
}

fn draw() -> DrawCall {
    DrawCall { bind_group: 0, first_vertex: 0, end_vertex: 131072, first_instance: 0, end_instance: 1 }
}

#[test]
fn frame_constants_encode_their_values() {
    assert_eq!(NOMINAL_FRAME_BITS, 0.016f32.to_bits());
    assert_eq!(MILLISECONDS_BITS, 1000.0f32.to_bits());
    assert_eq!(REPORT_INTERVAL, 60);
    assert_eq!(FRAME_LATENCY, 2);
}

#[test]
fn renderer_can_be_made() {
    assert_eq!(Renderer::new(), Renderer {});
}

#[test]
fn new_app_state() {
    let app = app();
    assert_eq!(app.graphics, Graphics { width: 1024, height: 768, format: 1 });
    assert_eq!(app.camera, Camera::new());
    assert_eq!(app.input_handler.state(), InputState::new());
    assert_eq!(app.simulation.params().particle_count, 131072);
    assert!(!app.paused);
    assert_eq!(app.last_time, s(0.0));
    assert_eq!(app.frame_count, 0);
}

#[test]
fn no_format_no_app_state() {
    assert!(AppState::new(&vec![]).is_none());
    assert!(Graphics::new(&vec![]).is_none());
}

#[test]
fn first_non_srgb_format_is_preferred() {
    assert_eq!(preferred_format(&vec![]), None);
    assert_eq!(preferred_format(&vec![false]), Some(0));
    assert_eq!(preferred_format(&vec![true]), Some(0));
    assert_eq!(preferred_format(&vec![true, true, true]), Some(0));
    assert_eq!(preferred_format(&vec![true, true, false, false]), Some(2));
    assert_eq!(preferred_format(&vec![false, true, false]), Some(0));
    assert_eq!(Graphics::new(&vec![true, true, false]).unwrap().format, 2);
}

#[test]
fn first_frame_takes_the_nominal_time() {
    let mut app = app();
    let update = frame(&mut app, 5000.0);
    assert_eq!(update.dt, s(0.016));
    assert_eq!(app.last_time, s(5000.0));
    assert_eq!(app.simulation.params().dt, s(0.016));
    assert!(update.params.is_some());
    assert!(update.commands.is_empty());
    assert!(!update.pause_changed);
}

#[test]
fn later_frames_take_the_elapsed_time() {
    let mut app = app();
    frame(&mut app, 1000.0);
    let update = frame(&mut app, 1012.5);
    assert_eq!(update.dt, s(0.0125));
    assert_eq!(app.simulation.params().dt, s(0.0125));
    assert_eq!(app.last_time, s(1012.5));
}

#[test]
fn a_stall_reaches_the_simulation_capped() {
    let mut app = app();
    frame(&mut app, 1000.0);
    let update = frame(&mut app, 2000.0);
    assert_eq!(update.dt, s(1.0));
    assert_eq!(app.simulation.params().dt, s(0.033));
    let bytes = update.params.unwrap();
    assert_eq!(&bytes[0..4], &0.033f32.to_ne_bytes());
}

#[test]
fn a_frame_at_time_zero_counts_as_no_frame_before() {
    let mut app = app();
    frame(&mut app, 0.0);
    let update = frame(&mut app, 16.0);
    assert_eq!(update.dt, s(0.016));
}

#[test]
fn pause_key_toggles_once_per_press() {
    let mut app = app();
    app.input_handler.key_down("Space");
    let update = frame(&mut app, 100.0);
    assert!(update.pause_changed);
    assert!(app.paused);
    assert!(update.params.is_none());
    let update = frame(&mut app, 116.0);
    assert!(!update.pause_changed);
    assert!(app.paused);
    app.input_handler.key_down("Space");
    let update = frame(&mut app, 132.0);
    assert!(update.pause_changed);
    assert!(!app.paused);
    assert!(update.params.is_some());
}

#[test]
fn paused_frames_leave_the_simulation_alone() {
    let mut app = app();
    frame(&mut app, 100.0);
    frame(&mut app, 110.0);
    let before = app.simulation.params();
    app.input_handler.key_down("Space");
    let update = frame(&mut app, 900.0);
    assert!(update.params.is_none());
    assert!(!update.report);
    assert_eq!(app.simulation.params(), before);
    assert_eq!(app.frame_count, 2);
    assert_eq!(app.last_time, s(900.0));
}

#[test]
fn paused_frames_still_move_the_camera() {
    let mut app = app();
    app.input_handler.key_down("Space");
    frame(&mut app, 100.0);
    app.input_handler.mouse_down(0, Point { x: 0, y: 0 });
    app.input_handler.mouse_move(Point { x: 12, y: -5 });
    let update = frame(&mut app, 116.0);
    assert_eq!(update.commands, vec![CameraCommand::Rotate { dx: 12, dy: -5 }]);
}

#[test]
fn update_does_not_touch_the_camera() {
    let mut app = app();
    app.input_handler.key_down("KeyR");
    app.input_handler.wheel(s(30.0));
    let update = frame(&mut app, 100.0);
    assert_eq!(
        update.commands,
        vec![CameraCommand::Zoom { delta: s(-30.0) }, CameraCommand::Reset]
    );
    assert_eq!(app.camera, Camera::new());
}

#[test]
fn frame_rate_is_reported_every_sixty_simulated_frames() {
    let mut app = app();
    let mut reports = Vec::new();
    for i in 1..=180u32 {
        if frame(&mut app, i as f32 * 16.0).report {
            reports.push(i);
        }
    }
    assert_eq!(reports, vec![60, 120, 180]);
}

#[test]
fn paused_frames_are_not_counted_for_the_report() {
    let mut app = app();
    for i in 1..=59u32 {
        assert!(!frame(&mut app, i as f32).report);
    }
    app.input_handler.key_down("Space");
    for i in 60..=70u32 {
        assert!(!frame(&mut app, i as f32).report);
    }
    app.input_handler.key_down("Space");
    assert!(frame(&mut app, 71.0).report);
}

#[test]
fn running_frame_computes_then_renders() {
    let app = app();
    assert_eq!(
        app.render(true),
        vec![
            FrameStep::Compute(dispatch()),
            FrameStep::BeginRenderPass,
            FrameStep::WriteCamera,
            FrameStep::Draw(draw()),
            FrameStep::Submit,
            FrameStep::Present,
        ]
    );
}

#[test]
fn paused_frame_renders_without_computing() {
    let mut app = app();
    app.input_handler.key_down("Space");
    frame(&mut app, 10.0);
    assert_eq!(
        app.render(true),
        vec![
            FrameStep::BeginRenderPass,
            FrameStep::WriteCamera,
            FrameStep::Draw(draw()),
            FrameStep::Submit,
            FrameStep::Present,
        ]
    );
}

#[test]
fn frame_without_a_surface_is_skipped() {
    let mut app = app();
    assert!(app.render(false).is_empty());
    app.input_handler.key_down("Space");
    frame(&mut app, 10.0);
    assert!(app.render(false).is_empty());
}

#[test]
fn resize_sets_size_and_aspect_ratio() {
    let mut app = app();
    assert!(app.resize(1920, 1080, s(1920.0 / 1080.0)));
    assert_eq!(app.graphics, Graphics { width: 1920, height: 1080, format: 1 });
    assert_eq!(app.camera.aspect_ratio, s(1920.0 / 1080.0));
    assert_eq!(app.camera.scale, s(3.0));
}

#[test]
fn resize_to_nothing_keeps_the_surface() {
    let mut app = app();
    assert!(!app.resize(0, 600, s(0.0)));
    assert_eq!(app.graphics, Graphics { width: 1024, height: 768, format: 1 });
    assert_eq!(app.camera.aspect_ratio, s(0.0));
    assert!(!app.resize(800, 0, s(f32::INFINITY)));
    assert_eq!(app.graphics, Graphics { width: 1024, height: 768, format: 1 });
    assert_eq!(app.camera.aspect_ratio, s(f32::INFINITY));
}

#[test]
fn graphics_resize_alone() {
    let mut graphics = Graphics::new(&vec![false]).unwrap();
    assert!(graphics.resize(1, 1));
    assert_eq!(graphics, Graphics { width: 1, height: 1, format: 0 });
    assert!(!graphics.resize(0, 0));
    assert_eq!(graphics, Graphics { width: 1, height: 1, format: 0 });
}
