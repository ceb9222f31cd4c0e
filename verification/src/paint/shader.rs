//! Shaders: what a paint fills with.

use vstd::prelude::*;
use crate::paint::color::Color;

verus! {

/// What a paint fills with.  Solid colors are fully supported; the
/// gradient and pattern variants are recorded for backends that can
/// realise them.
#[derive(Clone, Copy, PartialEq, Eq, Structural, Debug)]
pub enum Shader {
    /// A solid color shader.
    SolidColor(Color),
    /// A linear gradient shader.
    LinearGradient(LinearGradient),
    /// A radial gradient shader.
    RadialGradient(RadialGradient),
    /// A pattern shader.
    Pattern,
}

/// Raw pattern bytes handed to a backend.
pub struct Pattern<'a> {
    pub data: &'a [u8],
}

/// A linear gradient shader's parameters; the recording interface keeps
/// the variant, and a backend that can realise gradients fills it in.
#[derive(Clone, Copy, PartialEq, Eq, Structural, Debug)]
pub struct LinearGradient {}

/// A radial gradient shader's parameters, kept as the linear one is.
#[derive(Clone, Copy, PartialEq, Eq, Structural, Debug)]
pub struct RadialGradient {}

} // verus!
