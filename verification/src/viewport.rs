use vstd::prelude::*;

verus! {

/// A sub-rectangle of the presentation surface, in whole pixels with a
/// top-left origin. Used both to restrict rendering and to select the
/// region a capture reads back.
#[derive(Clone, Copy, Debug, PartialEq, Eq, Structural)]
pub struct Viewport {
    /// The left edge, in pixels from the surface's left.
    pub x: u32,
    /// The top edge, in pixels from the surface's top.
    pub y: u32,
    /// The width in pixels.
    pub width: u32,
    /// The height in pixels.
    pub height: u32,
}

} // verus!
