//! A standalone path handle for the recording interface.
//!
//! A `Path2D` owns a path that is built directly in raw coordinates and
//! crosses the interface boundary in the numeric wire encoding.

use vstd::prelude::*;
use crate::codec::{path2array, path_code};
use crate::path::{CurvePoints, PathData, PathSegment, curve_seg, spec_last_pos, spec_quad_to_curve};

verus! {

/// A standalone path.
#[derive(Debug)]
pub struct Path2D(pub PathData);

impl View for Path2D {
    type V = Seq<PathSegment>;

    open spec fn view(&self) -> Seq<PathSegment> {
        self.0@
    }
}

impl Path2D {
    /// An empty path.
    pub fn new() -> (r: Self)
        ensures
            r@ == Seq::<PathSegment>::empty(),
    {
        Path2D(PathData::new())
    }

    /// Removes every segment.
    pub fn begin_path(&mut self)
        ensures
            final(self)@ == Seq::<PathSegment>::empty(),
    {
        self.0.clear();
    }

    /// Appends an arc already decomposed into cubic pieces (see
    /// [`PathData::arc2`]).
    pub fn arc(&mut self, sx: i64, sy: i64, cubics: Option<Vec<CurvePoints>>, ex: i64, ey: i64)
        ensures
            final(self)@ == match cubics {
                Some(cs) => old(self)@.push(PathSegment::MoveTo { x: sx, y: sy })
                    + cs@.map(|i: int, c: CurvePoints| curve_seg(c)),
                None => old(self)@.push(PathSegment::MoveTo { x: sx, y: sy })
                    .push(PathSegment::LineTo { x: ex, y: ey }),
            },
    {
        self.0.arc2(sx, sy, cubics, ex, ey)
    }

    /// Moves the current position.
    pub fn move_to(&mut self, x: i64, y: i64)
        ensures
            final(self)@ == old(self)@.push(PathSegment::MoveTo { x, y }),
    {
        self.0.move_to(x, y);
    }

    /// Draws a line from the current position.
    pub fn line_to(&mut self, x: i64, y: i64)
        ensures
            final(self)@ == old(self)@.push(PathSegment::LineTo { x, y }),
    {
        self.0.line_to(x, y);
    }

    /// Draws a cubic curve from the current position.
    pub fn curve_to(&mut self, x1: i64, y1: i64, x2: i64, y2: i64, x: i64, y: i64)
        ensures
            final(self)@ == old(self)@.push(PathSegment::CurveTo { x1, y1, x2, y2, x, y }),
    {
        self.0.curve_to(x1, y1, x2, y2, x, y);
    }

    /// Draws a quadratic curve from the current position, elevated to a
    /// cubic segment.  The path must not be empty nor end right after a
    /// close.
    pub fn quad_to(&mut self, x1: i64, y1: i64, x: i64, y: i64)
        requires
            old(self)@.len() > 0,
            !(old(self)@.last() is ClosePath),
        ensures
            ({
                let (px, py) = spec_last_pos(old(self)@);
                let (cx1, cy1, cx2, cy2, cx, cy) = spec_quad_to_curve(
                    px, py, x1 as int, y1 as int, x as int, y as int);
                final(self)@ == old(self)@.push(PathSegment::CurveTo {
                    x1: cx1 as i64, y1: cy1 as i64, x2: cx2 as i64, y2: cy2 as i64,
                    x: cx as i64, y: cy as i64,
                })
            }),
    {
        self.0.quad_to(x1, y1, x, y);
    }

    /// Closes the current subpath.
    pub fn close_path(&mut self)
        ensures
            final(self)@ == old(self)@.push(PathSegment::ClosePath),
    {
        self.0.close();
    }

    /// Hands the path out in the numeric wire encoding.
    pub fn to_rust(self) -> (r: Vec<i64>)
        requires
            self@.len() <= i64::MAX,
        ensures
            r@ == path_code(self@),
    {
        self.encode_array()
    }

    /// The numeric wire encoding of the path.
    pub fn encode_array(&self) -> (r: Vec<i64>)
        requires
            self@.len() <= i64::MAX,
        ensures
            r@ == path_code(self@),
    {
        path2array(&self.0)
    }
}

} // verus!
