//! The camera: an eye that orbits the origin, looking at it.
//!
//! The camera's numbers are scalars, and this module holds what is decided
//! about them: the state a camera starts in and returns to, and the limits
//! that zooming and turning never pass. The sums and products that move the
//! camera are formed by the caller; each method says which.
use vstd::prelude::*;
use crate::scalar::{Scalar, Vector3, lemma_clamp_within};

verus! {

/// Encoding of 3.0, the scale of a new camera.
pub const DEFAULT_SCALE_BITS: u32 = 0x4040_0000;

/// Encoding of 0.3, the smallest scale.
pub const MIN_SCALE_BITS: u32 = 0x3E99_999A;

/// Encoding of 5.0, the largest scale.
pub const MAX_SCALE_BITS: u32 = 0x40A0_0000;

/// Encoding of -1.5, the lowest pitch in radians.
pub const MIN_PITCH_BITS: u32 = 0xBFC0_0000;

/// Encoding of 1.5, the highest pitch in radians.
pub const MAX_PITCH_BITS: u32 = 0x3FC0_0000;

/// Encoding of a quarter turn, the yaw of a new camera.
pub const DEFAULT_YAW_BITS: u32 = 0x3FC9_0FDB;

/// Encoding of 800.0: the distance of the eye at scale 1, and the height of
/// a new camera's position.
pub const ORBIT_DISTANCE_BITS: u32 = 0x4448_0000;

/// Encoding of 1.0, the aspect ratio of a new camera.
pub const DEFAULT_ASPECT_BITS: u32 = 0x3F80_0000;

/// Encoding of 0.01, the part of the scale gained for each unit of zoom
/// delta.
pub const ZOOM_SENSITIVITY_BITS: u32 = 0x3C23_D70A;

/// Encoding of 45.0, the vertical field of view in degrees.
pub const FIELD_OF_VIEW_BITS: u32 = 0x4234_0000;

/// Encoding of 0.1, the near plane.
pub const NEAR_PLANE_BITS: u32 = 0x3DCC_CCCD;

/// Encoding of 5000.0, the far plane.
pub const FAR_PLANE_BITS: u32 = 0x459C_4000;

/// The smallest scale.
pub open spec fn min_scale() -> Scalar {
    Scalar { bits: MIN_SCALE_BITS }
}

/// The largest scale.
pub open spec fn max_scale() -> Scalar {
    Scalar { bits: MAX_SCALE_BITS }
}

/// The lowest pitch.
pub open spec fn min_pitch() -> Scalar {
    Scalar { bits: MIN_PITCH_BITS }
}

/// The highest pitch.
pub open spec fn max_pitch() -> Scalar {
    Scalar { bits: MAX_PITCH_BITS }
}

/// Where the camera is and how it looks.
#[derive(Clone, Copy, Debug, PartialEq, Eq, Structural)]
pub struct Camera {
    /// The panned position.
    pub position: Vector3,
    /// The zoom: the eye orbits at 800 divided by the scale.
    pub scale: Scalar,
    /// Width of the view over its height.
    pub aspect_ratio: Scalar,
    /// Pitch in radians.
    pub rotation_x: Scalar,
    /// Yaw in radians.
    pub rotation_y: Scalar,
}

/// One change to a camera.
#[derive(Clone, Copy, Debug, PartialEq, Eq, Structural)]
pub enum CameraChange {
    /// [`Camera::set_aspect_ratio`].
    Aspect { aspect_ratio: Scalar },
    /// [`Camera::pan`].
    Pan { x: Scalar, y: Scalar },
    /// [`Camera::rotate`].
    Rotate { yaw: Scalar, pitch: Scalar },
    /// [`Camera::zoom`].
    Zoom { scaled: Scalar },
    /// [`Camera::reset`].
    Reset,
}

impl CameraChange {
    /// Whether the change brings no NaN to the scale or the pitch.
    pub open spec fn defined(self) -> bool {
        match self {
            CameraChange::Rotate { yaw, pitch } => !pitch.nan(),
            CameraChange::Zoom { scaled } => !scaled.nan(),
            _ => true,
        }
    }
}

impl Camera {
    /// The camera as it is constructed: above the origin at height 800,
    /// scale 3, square view, level, turned a quarter.
    pub open spec fn initial() -> Camera {
        Camera {
            position: Vector3 {
                x: Scalar { bits: 0 },
                y: Scalar { bits: 0 },
                z: Scalar { bits: ORBIT_DISTANCE_BITS },
            },
            scale: Scalar { bits: DEFAULT_SCALE_BITS },
            aspect_ratio: Scalar { bits: DEFAULT_ASPECT_BITS },
            rotation_x: Scalar { bits: 0 },
            rotation_y: Scalar { bits: DEFAULT_YAW_BITS },
        }
    }

    /// The camera with position, scale and rotation as constructed; the
    /// aspect ratio belongs to the window and stays.
    pub open spec fn after_reset(self) -> Camera {
        Camera { aspect_ratio: self.aspect_ratio, ..Camera::initial() }
    }

    /// The camera turned to `yaw`, and to `pitch` held within the poles.
    pub open spec fn after_rotate(self, yaw: Scalar, pitch: Scalar) -> Camera {
        Camera {
            rotation_y: yaw,
            rotation_x: pitch.clamp_spec(min_pitch(), max_pitch()),
            ..self
        }
    }

    /// The camera at the scale `scaled` held within the scale limits.
    pub open spec fn after_zoom(self, scaled: Scalar) -> Camera {
        Camera { scale: scaled.clamp_spec(min_scale(), max_scale()), ..self }
    }

    /// The camera moved to `x`, `y` at its height.
    pub open spec fn after_pan(self, x: Scalar, y: Scalar) -> Camera {
        Camera { position: Vector3 { x, y, z: self.position.z }, ..self }
    }

    /// The camera after `change`.
    pub open spec fn after(self, change: CameraChange) -> Camera {
        match change {
            CameraChange::Aspect { aspect_ratio } => Camera { aspect_ratio, ..self },
            CameraChange::Pan { x, y } => self.after_pan(x, y),
            CameraChange::Rotate { yaw, pitch } => self.after_rotate(yaw, pitch),
            CameraChange::Zoom { scaled } => self.after_zoom(scaled),
            CameraChange::Reset => self.after_reset(),
        }
    }

    /// The camera after each of `changes` in turn.
    pub open spec fn after_all(self, changes: Seq<CameraChange>) -> Camera
        decreases changes.len(),
    {
        if changes.len() == 0 {
            self
        } else {
            self.after_all(changes.drop_last()).after(changes.last())
        }
    }

    /// Whether the scale and the pitch are within their limits.
    pub open spec fn within_limits(self) -> bool {
        &&& self.scale.within(min_scale(), max_scale())
        &&& self.rotation_x.within(min_pitch(), max_pitch())
    }

    /// A camera as constructed.
    pub fn new() -> (camera: Camera)
        ensures
            camera == Camera::initial(),
            camera.within_limits(),
    {
        Camera {
            position: Vector3 {
                x: Scalar::from_bits(0),
                y: Scalar::from_bits(0),
                z: Scalar::from_bits(ORBIT_DISTANCE_BITS),
            },
            scale: Scalar::from_bits(DEFAULT_SCALE_BITS),
            aspect_ratio: Scalar::from_bits(DEFAULT_ASPECT_BITS),
            rotation_x: Scalar::from_bits(0),
            rotation_y: Scalar::from_bits(DEFAULT_YAW_BITS),
        }
    }

    /// Takes the aspect ratio of the view: its width over its height.
    pub fn set_aspect_ratio(&mut self, aspect_ratio: Scalar)
        ensures
            *final(self) == (Camera { aspect_ratio, ..*old(self) }),
    {
        self.aspect_ratio = aspect_ratio;
    }

    /// Moves the camera to `x`, `y`. For a drag of `dx`, `dy` pixels the
    /// caller passes `position.x - dx / scale` and `position.y + dy / scale`:
    /// up on the screen is down in pixels. Height, scale and rotation stay.
    pub fn pan(&mut self, x: Scalar, y: Scalar)
        ensures
            *final(self) == old(self).after_pan(x, y),
    {
        self.position.x = x;
        self.position.y = y;
    }

    /// Turns the camera. For a drag of `dx`, `dy` radians the caller passes
    /// `rotation_y + dx` as `yaw` and `rotation_x + dy` as `pitch`. The yaw
    /// is taken as it is; the pitch is held within 1.5 radians of level, so
    /// that the camera never tips over a pole. A pitch that is a NaN stays
    /// one.
    pub fn rotate(&mut self, yaw: Scalar, pitch: Scalar)
        ensures
            *final(self) == old(self).after_rotate(yaw, pitch),
            !pitch.nan() ==> final(self).rotation_x.within(min_pitch(), max_pitch()),
            pitch.within(min_pitch(), max_pitch()) ==> final(self).rotation_x == pitch,
    {
        proof {
            lemma_clamp_within(pitch, min_pitch(), max_pitch());
        }
        self.rotation_y = yaw;
        self.rotation_x = pitch.clamp(
            Scalar::from_bits(MIN_PITCH_BITS),
            Scalar::from_bits(MAX_PITCH_BITS),
        );
    }

    /// Zooms the camera. For a zoom delta `delta` the caller passes
    /// `scale * (1 + delta * 0.01)` as `scaled`. The scale becomes `scaled`
    /// held within 0.3 and 5, so that the projection never degenerates or
    /// turns inside out. A product that is a NaN stays one.
    pub fn zoom(&mut self, scaled: Scalar)
        ensures
            *final(self) == old(self).after_zoom(scaled),
            !scaled.nan() ==> final(self).scale.within(min_scale(), max_scale()),
            scaled.within(min_scale(), max_scale()) ==> final(self).scale == scaled,
    {
        proof {
            lemma_clamp_within(scaled, min_scale(), max_scale());
        }
        self.scale = scaled.clamp(
            Scalar::from_bits(MIN_SCALE_BITS),
            Scalar::from_bits(MAX_SCALE_BITS),
        );
    }

    /// Puts position, scale and rotation back to what a new camera has. The
    /// aspect ratio stays.
    pub fn reset(&mut self)
        ensures
            *final(self) == old(self).after_reset(),
            final(self).within_limits(),
    {
        self.position = Vector3 {
            x: Scalar::from_bits(0),
            y: Scalar::from_bits(0),
            z: Scalar::from_bits(ORBIT_DISTANCE_BITS),
        };
        self.scale = Scalar::from_bits(DEFAULT_SCALE_BITS);
        self.rotation_x = Scalar::from_bits(0);
        self.rotation_y = Scalar::from_bits(DEFAULT_YAW_BITS);
    }
}

/// Zooming never takes the scale out of its limits: whatever the camera was,
/// after a zoom to anything but a NaN the scale is within 0.3 and 5, and no
/// other change moves a scale that is within them out of them.
pub proof fn law_zoom_keeps_scale_within_limits(camera: Camera, change: CameraChange)
    requires
        change.defined(),
    ensures
        change is Zoom ==> camera.after(change).scale.within(min_scale(), max_scale()),
        camera.scale.within(min_scale(), max_scale()) ==> camera.after(change).scale.within(
            min_scale(),
            max_scale(),
        ),
{
    if let CameraChange::Zoom { scaled } = change {
        lemma_clamp_within(scaled, min_scale(), max_scale());
    }
}

/// Turning never takes the pitch past a pole: whatever the camera was, after
/// a turn to any pitch but a NaN the pitch is within 1.5 radians of level,
/// and no other change moves a pitch that is within that out of it.
pub proof fn law_rotate_keeps_pitch_within_limits(camera: Camera, change: CameraChange)
    requires
        change.defined(),
    ensures
        change is Rotate ==> camera.after(change).rotation_x.within(min_pitch(), max_pitch()),
        camera.rotation_x.within(min_pitch(), max_pitch()) ==> camera.after(
            change,
        ).rotation_x.within(min_pitch(), max_pitch()),
{
    if let CameraChange::Rotate { yaw, pitch } = change {
        lemma_clamp_within(pitch, min_pitch(), max_pitch());
    }
}

/// However long a run of changes, a camera that started within its limits
/// is within them at the end, as long as no zoom or pitch was a NaN.
pub proof fn law_limits_hold_throughout(camera: Camera, changes: Seq<CameraChange>)
    requires
        camera.within_limits(),
        forall|i: int| 0 <= i < changes.len() ==> (#[trigger] changes[i]).defined(),
    ensures
        camera.after_all(changes).within_limits(),
    decreases changes.len(),
{
    if changes.len() > 0 {
        let before = changes.drop_last();
        assert forall|i: int| 0 <= i < before.len() implies (#[trigger] before[i]).defined() by {
            assert(before[i] == changes[i]);
        }
        law_limits_hold_throughout(camera, before);
        law_zoom_keeps_scale_within_limits(camera.after_all(before), changes.last());
        law_rotate_keeps_pitch_within_limits(camera.after_all(before), changes.last());
    }
}

/// A reset brings back the camera as constructed: position, scale and
/// rotation always, and the whole camera where the aspect ratio is still the
/// one it was constructed with.
pub proof fn law_reset_restores_initial(camera: Camera)
    ensures
        camera.after_reset().position == Camera::initial().position,
        camera.after_reset().scale == Camera::initial().scale,
        camera.after_reset().rotation_x == Camera::initial().rotation_x,
        camera.after_reset().rotation_y == Camera::initial().rotation_y,
        camera.aspect_ratio == Camera::initial().aspect_ratio ==> camera.after_reset()
            == Camera::initial(),
        camera.after_reset().after_reset() == camera.after_reset(),
{
}

} // verus!
