//! The host-side core of a particle visualizer: point masses orbit a central
//! mass on the device, and this crate decides what the host does about it.
//!
//! - [`scalar`]: single-precision numbers held by their encoding, with the
//!   order, the tests and the clamps that the rest is built on.
//! - [`camera`]: the orbiting camera and the limits it never leaves.
//! - [`input`]: pointer, wheel, touch and key events, accumulated and
//!   consumed once per frame.
//! - [`simulation`]: the parameter record and what each pass asks of the
//!   device.
//! - [`particles`]: who is seeded where, and the contents of the particle
//!   buffer.
//! - [`layout`]: the buffers and the binding sets of the two kernels.
//! - [`encoding`]: the bytes that a buffer receives.
//! - [`graphics`]: the surface's size and format.
//! - [`frame`]: the run state and the order of work within a frame.
//! - [`render`]: the renderer.
//!
//! Nothing here computes in floating point or talks to a device. A caller
//! does both, and hands in encoded numbers and plain values.
pub mod camera;
pub mod encoding;
pub mod frame;
pub mod graphics;
pub mod input;
pub mod layout;
pub mod particles;
pub mod render;
pub mod scalar;
pub mod simulation;
