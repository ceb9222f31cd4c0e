//! The backend contract.
//!
//! A rendering backend replays the recorded queue: it is resized, handed
//! each segment in draw order, and asked once at the end for its output
//! bytes.  The drive loop lives with the embedding program.

use vstd::prelude::*;
use crate::operate::Segment;

pub mod svg;

verus! {

/// What a rendering backend implements.  Implementations are free in how
/// they realise each segment; nothing is promised of them.
pub trait PainterBackend {
    /// Rebinds the backend to a new canvas extent, keeping previously
    /// drawn content within the overlap.
    fn resize(&mut self, size: (u32, u32));

    /// Draws one recorded segment.
    fn draw(&mut self, seg: &Segment);

    /// Finishes the render pass and hands the output bytes out; called
    /// once at the end.
    fn finish(&mut self) -> Vec<u8>;
}

} // verus!
