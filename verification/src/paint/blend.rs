//! Blend modes of the recording interface.
//!
//! The modes are recorded with each operation; how (and whether) a backend
//! realises each one is the backend's concern.

use vstd::prelude::*;

verus! {

/// A compositing or blending mode.
#[derive(Clone, Copy, PartialEq, Eq, Structural, Debug)]
pub enum BlendMode {
    Clear,
    Source,
    Destination,
    SourceOver,
    DestinationOver,
    SourceIn,
    DestinationIn,
    SourceOut,
    DestinationOut,
    SourceAtop,
    DestinationAtop,
    Xor,
    Plus,
    Modulate,
    Screen,
    Overlay,
    Darken,
    Lighten,
    ColorDodge,
    ColorBurn,
    HardLight,
    SoftLight,
    Difference,
    Exclusion,
    Multiply,
    Hue,
    Saturation,
    Color,
    Luminosity,
}

impl Default for BlendMode {
    /// The default mode paints the source over the destination.
    fn default() -> (r: Self)
        ensures
            r == BlendMode::SourceOver,
    {
        BlendMode::SourceOver
    }
}

} // verus!
