//! A retained-mode 2D vector-graphics recorder.
//!
//! Callers issue canvas-style path, style and paint commands; the library
//! records them as an ordered, backend-agnostic list of drawing operations
//! that a rendering backend later replays.  All geometry is held in 64-bit
//! fixed-point coordinates: a raw value counts units of `1 / SCALE_ONE`.

mod fixed;
pub mod backend;
pub mod bbox;
pub mod codec;
pub mod context2d;
pub mod font;
pub mod numfmt;
pub mod operate;
pub mod paint;
pub mod path;
pub mod path2d;
pub mod polygon;
pub mod style_bucket;
pub mod transform;
pub mod woff;

pub use bbox::BoundingBox;
pub use context2d::Context;
pub use fixed::SCALE_ONE;
pub use font::{FontBucket, FontStyles, Glyph};
pub use paint::stroke::{LineCap, LineJoin};
pub use path::PathData;
pub use transform::Transform;
