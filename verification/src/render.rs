//! The renderer's own state.
use vstd::prelude::*;

verus! {

/// The renderer. It has no state of its own yet: what a frame draws is
/// decided by the simulation and the frame plan.
#[derive(Clone, Copy, Debug, PartialEq, Eq, Structural)]
pub struct Renderer {}

impl Renderer {
    /// A new renderer.
    pub fn new() -> (r: Renderer)
        ensures
            r == (Renderer {}),
    {
        Renderer {}
    }
}

} // verus!
