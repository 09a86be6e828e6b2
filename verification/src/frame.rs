//! One frame: what the accumulated input and the clock make of the run
//! state, and the order of the work that the device is given.
use vstd::prelude::*;
use crate::camera::Camera;
use crate::encoding::is_native_encoding;
use crate::graphics::{is_preferred_format, Graphics, INITIAL_HEIGHT, INITIAL_WIDTH};
use crate::input::{CameraCommand, InputHandler, InputState};
use crate::scalar::Scalar;
use crate::simulation::{
    max_timestep,
    ComputeDispatch,
    DrawCall,
    Simulation,
    SimulationParams,
    GRAVITY_BITS,
    NUM_PARTICLES,
};

verus! {

/// Encoding of 0.016, the seconds assumed for a frame that has none before
/// it to measure against.
pub const NOMINAL_FRAME_BITS: u32 = 0x3C83_126F;

/// Encoding of 1000.0, the milliseconds in a second.
pub const MILLISECONDS_BITS: u32 = 0x447A_0000;

/// Simulated frames between two reports of the frame rate.
pub const REPORT_INTERVAL: u32 = 60;

/// One piece of work within a frame.
#[derive(Clone, Copy, Debug, PartialEq, Eq, Structural)]
pub enum FrameStep {
    /// Record the dispatch of the update kernel.
    Compute(ComputeDispatch),
    /// Begin the render pass on the acquired surface, cleared.
    BeginRenderPass,
    /// Write the camera's view-projection matrix to the camera buffer.
    WriteCamera,
    /// Record the draw of the particles.
    Draw(DrawCall),
    /// Submit everything recorded, as one batch.
    Submit,
    /// Present the surface.
    Present,
}

/// What one call of [`AppState::update`] leaves for the caller to do.
pub struct FrameUpdate {
    /// The seconds that this frame stands for, before the simulation caps
    /// them.
    pub dt: Scalar,
    /// What the camera is asked to do, in order.
    pub commands: Vec<CameraCommand>,
    /// The bytes to write at the start of the parameter buffer, where the
    /// simulation runs.
    pub params: Option<Vec<u8>>,
    /// Whether this frame paused or resumed the simulation.
    pub pause_changed: bool,
    /// Whether the frame rate is to be reported now.
    pub report: bool,
}

/// Everything the frame loop owns.
pub struct AppState {
    pub graphics: Graphics,
    pub simulation: Simulation,
    pub camera: Camera,
    pub input_handler: InputHandler,
    /// Whether the simulation stands still.
    pub paused: bool,
    /// The time of the last frame in milliseconds; zero before the first.
    pub last_time: Scalar,
    /// Simulated frames since the frame rate was last reported.
    pub frame_count: u32,
}

/// The seconds that a frame stands for: `elapsed` where there is a frame
/// before it, and 0.016 where there is none.
pub open spec fn frame_seconds(last_time: Scalar, elapsed: Scalar) -> Scalar {
    if last_time.gt(Scalar { bits: 0 }) {
        elapsed
    } else {
        Scalar { bits: NOMINAL_FRAME_BITS }
    }
}

/// The count of simulated frames after one more.
pub open spec fn next_frame_count(frame_count: u32) -> u32 {
    ((frame_count % REPORT_INTERVAL + 1) % (REPORT_INTERVAL as int)) as u32
}

/// The work of one frame, in order. Nothing where no surface could be
/// acquired: the frame is skipped. Else the update kernel unless paused, and
/// always the render pass: begun, given the camera, drawn. Then all of it is
/// submitted and the surface presented.
pub open spec fn frame_plan(
    paused: bool,
    surface_acquired: bool,
    dispatch: ComputeDispatch,
    draw: DrawCall,
) -> Seq<FrameStep> {
    if !surface_acquired {
        Seq::empty()
    } else {
        let compute = if paused {
            Seq::empty()
        } else {
            seq![FrameStep::Compute(dispatch)]
        };
        compute + seq![
            FrameStep::BeginRenderPass,
            FrameStep::WriteCamera,
            FrameStep::Draw(draw),
            FrameStep::Submit,
            FrameStep::Present,
        ]
    }
}

impl AppState {
    /// The state before the first frame: running, with no frame before it,
    /// a new camera, a handler that has seen nothing, and the standard
    /// simulation. None where the surface supports no format.
    pub fn new(srgb: &Vec<bool>) -> (state: Option<AppState>)
        ensures
            srgb@.len() == 0 <==> state is None,
            state matches Some(s) ==> {
                &&& s.graphics.width == INITIAL_WIDTH
                &&& s.graphics.height == INITIAL_HEIGHT
                &&& is_preferred_format(srgb@, s.graphics.format as int)
                &&& s.simulation@ == SimulationParams::initial(
                    NUM_PARTICLES,
                    Scalar { bits: GRAVITY_BITS },
                )
                &&& s.camera == Camera::initial()
                &&& s.input_handler@ == InputState::initial()
                &&& !s.paused
                &&& s.last_time == (Scalar { bits: 0 })
                &&& s.frame_count == 0
            },
    {
        match Graphics::new(srgb) {
            Some(graphics) => Some(
                AppState {
                    graphics,
                    simulation: Simulation::new(),
                    camera: Camera::new(),
                    input_handler: InputHandler::new(),
                    paused: false,
                    last_time: Scalar::from_bits(0),
                    frame_count: 0,
                },
            ),
            None => None,
        }
    }

    /// Begins a frame at `current_time` milliseconds. `elapsed` is the time
    /// since the frame before in seconds, which the caller forms as
    /// `(current_time - last_time) / 1000`; it is read only where there is a
    /// frame before.
    ///
    /// In order: the clock is set; the input is consumed, and what it asks
    /// of the camera is handed out; a pending press of the pause key turns
    /// the pause over; and unless paused now, the simulation takes the
    /// frame's seconds and one more simulated frame is counted. The camera
    /// itself is not touched: its commands need arithmetic, and the caller
    /// applies them.
    pub fn update(&mut self, current_time: Scalar, elapsed: Scalar) -> (update: FrameUpdate)
        ensures
            final(self).last_time == current_time,
            final(self).graphics == old(self).graphics,
            final(self).camera == old(self).camera,
            update.dt == frame_seconds(old(self).last_time, elapsed),
            update.commands@ == old(self).input_handler@.pending_commands(),
            final(self).input_handler@ == (InputState {
                pause_pressed: false,
                ..old(self).input_handler@.drained()
            }),
            update.pause_changed == old(self).input_handler@.pause_pressed,
            final(self).paused == (old(self).paused != update.pause_changed),
            final(self).paused ==> {
                &&& final(self).simulation@ == old(self).simulation@
                &&& final(self).frame_count == old(self).frame_count
                &&& update.params is None
                &&& !update.report
            },
            !final(self).paused ==> {
                &&& final(self).simulation@ == (SimulationParams {
                    dt: update.dt.min_spec(max_timestep()),
                    ..old(self).simulation@
                })
                &&& final(self).frame_count == next_frame_count(old(self).frame_count)
                &&& update.report == (final(self).frame_count == 0)
                &&& update.params matches Some(bytes) && is_native_encoding(
                    bytes@,
                    final(self).simulation@.words(),
                )
            },
    {
        let dt: Scalar = if self.last_time.greater_than(Scalar::from_bits(0)) {
            elapsed
        } else {
            Scalar::from_bits(NOMINAL_FRAME_BITS)
        };
        self.last_time = current_time;
        let commands: Vec<CameraCommand> = self.input_handler.update_camera();
        let pause_changed: bool = self.input_handler.pause_toggled();
        if pause_changed {
            self.paused = !self.paused;
        }
        if self.paused {
            FrameUpdate { dt, commands, params: None, pause_changed, report: false }
        } else {
            let bytes: Vec<u8> = self.simulation.update(dt);
            self.frame_count = (self.frame_count % REPORT_INTERVAL + 1) % REPORT_INTERVAL;
            FrameUpdate {
                dt,
                commands,
                params: Some(bytes),
                pause_changed,
                report: self.frame_count == 0,
            }
        }
    }

    /// The work of this frame, in the order in which it is recorded and
    /// submitted. `surface_acquired` says whether the surface gave a texture
    /// to draw to; where it did not, the frame is skipped and nothing is
    /// lost.
    pub fn render(&self, surface_acquired: bool) -> (steps: Vec<FrameStep>)
        ensures
            steps@ == frame_plan(
                self.paused,
                surface_acquired,
                self.simulation.compute_pass_spec(),
                self.simulation.render_pass_spec(),
            ),
    {
        let mut steps: Vec<FrameStep> = Vec::new();
        if surface_acquired {
            if !self.paused {
                steps.push(FrameStep::Compute(self.simulation.compute_pass()));
            }
            steps.push(FrameStep::BeginRenderPass);
            steps.push(FrameStep::WriteCamera);
            steps.push(FrameStep::Draw(self.simulation.render_pass()));
            steps.push(FrameStep::Submit);
            steps.push(FrameStep::Present);
        }
        assert(steps@ =~= frame_plan(
            self.paused,
            surface_acquired,
            self.simulation.compute_pass_spec(),
            self.simulation.render_pass_spec(),
        ));
        steps
    }

    /// The window changed to `width` by `height`, which makes an aspect
    /// ratio of `aspect_ratio`: the caller forms `width / height`. The
    /// camera takes the ratio in any case; the surface takes the size unless
    /// a side of it is zero. Says whether the surface is to be configured
    /// again.
    pub fn resize(&mut self, width: u32, height: u32, aspect_ratio: Scalar) -> (reconfigure: bool)
        ensures
            reconfigure == (width > 0 && height > 0),
            final(self).graphics == (if reconfigure {
                Graphics { width, height, ..old(self).graphics }
            } else {
                old(self).graphics
            }),
            final(self).camera == (Camera { aspect_ratio, ..old(self).camera }),
            final(self).simulation@ == old(self).simulation@,
            final(self).input_handler@ == old(self).input_handler@,
            final(self).paused == old(self).paused,
            final(self).last_time == old(self).last_time,
            final(self).frame_count == old(self).frame_count,
    {
        let reconfigure: bool = self.graphics.resize(width, height);
        self.camera.set_aspect_ratio(aspect_ratio);
        reconfigure
    }
}

/// Within a frame the device is given its work in the right order. A frame
/// that is drawn at all is drawn whether or not the simulation is paused;
/// the update kernel runs exactly when it is not paused, and before the
/// draw that shows its result; the camera is written before that draw;
/// everything is recorded before it is submitted, and the surface is
/// presented last.
pub proof fn law_frame_order(
    paused: bool,
    surface_acquired: bool,
    dispatch: ComputeDispatch,
    draw: DrawCall,
)
    ensures
        ({
            let plan = frame_plan(paused, surface_acquired, dispatch, draw);
            let drawn = plan.index_of(FrameStep::Draw(draw));
            &&& surface_acquired <==> plan.contains(FrameStep::Draw(draw))
            &&& surface_acquired && !paused <==> plan.contains(FrameStep::Compute(dispatch))
            &&& forall|i: int, d: ComputeDispatch|
                0 <= i < plan.len() && plan[i] == FrameStep::Compute(d) ==> d == dispatch && i
                    < drawn
            &&& forall|i: int|
                0 <= i < plan.len() && plan[i] == FrameStep::WriteCamera ==> i < drawn
            &&& surface_acquired ==> {
                &&& plan.contains(FrameStep::WriteCamera)
                &&& plan.contains(FrameStep::BeginRenderPass)
                &&& plan.index_of(FrameStep::BeginRenderPass) < drawn
                &&& plan[plan.len() - 2] == FrameStep::Submit
                &&& plan[plan.len() - 1] == FrameStep::Present
                &&& drawn < plan.len() - 2
            }
        }),
{
    let plan = frame_plan(paused, surface_acquired, dispatch, draw);
    if surface_acquired {
        if paused {
            assert(plan =~= seq![
                FrameStep::BeginRenderPass,
                FrameStep::WriteCamera,
                FrameStep::Draw(draw),
                FrameStep::Submit,
                FrameStep::Present,
            ]);
            assert(plan[0] == FrameStep::BeginRenderPass);
            assert(plan[1] == FrameStep::WriteCamera);
            assert(plan[2] == FrameStep::Draw(draw));
            assert(plan.index_of(FrameStep::Draw(draw)) == 2);
            assert(plan.index_of(FrameStep::BeginRenderPass) == 0);
        } else {
            assert(plan =~= seq![
                FrameStep::Compute(dispatch),
                FrameStep::BeginRenderPass,
                FrameStep::WriteCamera,
                FrameStep::Draw(draw),
                FrameStep::Submit,
                FrameStep::Present,
            ]);
            assert(plan[0] == FrameStep::Compute(dispatch));
            assert(plan[1] == FrameStep::BeginRenderPass);
            assert(plan[2] == FrameStep::WriteCamera);
            assert(plan[3] == FrameStep::Draw(draw));
            assert(plan.index_of(FrameStep::Draw(draw)) == 3);
            assert(plan.index_of(FrameStep::BeginRenderPass) == 1);
        }
    } else {
        assert(plan =~= Seq::<FrameStep>::empty());
    }
}

} // verus!
