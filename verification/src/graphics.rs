//! The drawing surface as the frame loop knows it: its size and the format
//! chosen for it.
use vstd::prelude::*;

verus! {

/// Width of the surface before the first resize.
pub const INITIAL_WIDTH: u32 = 1024;

/// Height of the surface before the first resize.
pub const INITIAL_HEIGHT: u32 = 768;

/// Frames that may be queued for presentation.
pub const FRAME_LATENCY: u32 = 2;

/// The surface's configuration.
#[derive(Clone, Copy, Debug, PartialEq, Eq, Structural)]
pub struct Graphics {
    /// Width in pixels, never zero.
    pub width: u32,
    /// Height in pixels, never zero.
    pub height: u32,
    /// Index of the chosen format among those that the surface supports.
    pub format: usize,
}

/// Whether `index` is the format to configure a surface with, where
/// `srgb[i]` says whether the `i`-th supported format is an sRGB format: the
/// first that is not, or else the first of all.
pub open spec fn is_preferred_format(srgb: Seq<bool>, index: int) -> bool {
    &&& 0 <= index < srgb.len()
    &&& forall|i: int| 0 <= i < index ==> srgb[i]
    &&& (!srgb[index] || (index == 0 && forall|i: int| 0 <= i < srgb.len() ==> srgb[i]))
}

/// The format to configure a surface with, by its index in `srgb`; none
/// where the surface supports no format at all.
pub fn preferred_format(srgb: &Vec<bool>) -> (choice: Option<usize>)
    ensures
        srgb@.len() == 0 <==> choice is None,
        choice matches Some(index) ==> is_preferred_format(srgb@, index as int),
{
    if srgb.len() == 0 {
        return None;
    }
    let mut i: usize = 0;
    while i < srgb.len()
        invariant
            i <= srgb.len(),
            forall|k: int| 0 <= k < i ==> srgb@[k],
        decreases srgb.len() - i,
    {
        if !srgb[i] {
            return Some(i);
        }
        i = i + 1;
    }
    Some(0)
}

impl Graphics {
    /// The configuration of a new surface, 1024 by 768, in the preferred one
    /// of its formats; none where the surface supports no format.
    pub fn new(srgb: &Vec<bool>) -> (graphics: Option<Graphics>)
        ensures
            srgb@.len() == 0 <==> graphics is None,
            graphics matches Some(g) ==> g.width == INITIAL_WIDTH && g.height == INITIAL_HEIGHT
                && is_preferred_format(srgb@, g.format as int),
    {
        match preferred_format(srgb) {
            Some(format) => Some(
                Graphics { width: INITIAL_WIDTH, height: INITIAL_HEIGHT, format },
            ),
            None => None,
        }
    }

    /// Takes a new size, unless a side of it is zero: a surface cannot be
    /// configured without area, and the old size stays. Says whether the
    /// surface is to be configured again.
    pub fn resize(&mut self, new_width: u32, new_height: u32) -> (reconfigure: bool)
        ensures
            reconfigure == (new_width > 0 && new_height > 0),
            reconfigure ==> *final(self) == (Graphics {
                width: new_width,
                height: new_height,
                ..*old(self)
            }),
            !reconfigure ==> *final(self) == *old(self),
    {
        if new_width > 0 && new_height > 0 {
            self.width = new_width;
            self.height = new_height;
            true
        } else {
            false
        }
    }
}

} // verus!
