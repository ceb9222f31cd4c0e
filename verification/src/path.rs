//! Path geometry.
//!
//! A path is an ordered sequence of segments; each segment is a move, a
//! line, a cubic curve or a close instruction.  All coordinates are raw
//! fixed-point values, stored after any transform has been applied, so the
//! sequence is in device space.

use vstd::prelude::*;
use crate::fixed::fx_bounded;
use crate::transform::{Transform, TransformModel, spec_apply_x, spec_apply_y};

verus! {

/// One move/line/curve/close instruction of a path.  For a curve, `(x, y)`
/// is the end point and `(x1, y1)`, `(x2, y2)` are the control points.
#[derive(Clone, Copy, PartialEq, Eq, Structural, Debug)]
pub enum PathSegment {
    MoveTo { x: i64, y: i64 },
    LineTo { x: i64, y: i64 },
    CurveTo { x: i64, y: i64, x1: i64, y1: i64, x2: i64, y2: i64 },
    ClosePath,
}

/// All coordinates of the segment are within the fixed-point range.
pub open spec fn seg_bounded(s: PathSegment) -> bool {
    match s {
        PathSegment::MoveTo { x, y } => fx_bounded(x as int) && fx_bounded(y as int),
        PathSegment::LineTo { x, y } => fx_bounded(x as int) && fx_bounded(y as int),
        PathSegment::CurveTo { x, y, x1, y1, x2, y2 } => {
            &&& fx_bounded(x as int) && fx_bounded(y as int)
            &&& fx_bounded(x1 as int) && fx_bounded(y1 as int)
            &&& fx_bounded(x2 as int) && fx_bounded(y2 as int)
        },
        PathSegment::ClosePath => true,
    }
}

/// The segment with every point mapped by the transform model `m`.
pub open spec fn spec_apply_seg(m: TransformModel, s: PathSegment) -> PathSegment {
    match s {
        PathSegment::MoveTo { x, y } => PathSegment::MoveTo {
            x: spec_apply_x(m, x as int, y as int) as i64,
            y: spec_apply_y(m, x as int, y as int) as i64,
        },
        PathSegment::LineTo { x, y } => PathSegment::LineTo {
            x: spec_apply_x(m, x as int, y as int) as i64,
            y: spec_apply_y(m, x as int, y as int) as i64,
        },
        PathSegment::CurveTo { x, y, x1, y1, x2, y2 } => PathSegment::CurveTo {
            x: spec_apply_x(m, x as int, y as int) as i64,
            y: spec_apply_y(m, x as int, y as int) as i64,
            x1: spec_apply_x(m, x1 as int, y1 as int) as i64,
            y1: spec_apply_y(m, x1 as int, y1 as int) as i64,
            x2: spec_apply_x(m, x2 as int, y2 as int) as i64,
            y2: spec_apply_y(m, x2 as int, y2 as int) as i64,
        },
        PathSegment::ClosePath => PathSegment::ClosePath,
    }
}

/// An ordered sequence of path segments.
#[derive(Debug)]
pub struct PathData(pub Vec<PathSegment>);

impl Default for PathData {
    /// The default path is empty.
    fn default() -> (r: Self)
        ensures
            r@ == Seq::<PathSegment>::empty(),
    {
        PathData(Vec::<PathSegment>::new())
    }
}

impl Clone for PathData {
    /// The clone holds the same segments.
    fn clone(&self) -> (r: Self)
        ensures
            r@ == self@,
    {
        let mut v = Vec::<PathSegment>::new();
        let mut i: usize = 0;
        while i < self.0.len()
            invariant
                i <= self.0.len(),
                v@ == self.0@.take(i as int),
            decreases self.0.len() - i,
        {
            v.push(self.0[i]);
            proof {
                assert(self.0@.take(i + 1 as int) == self.0@.take(i as int).push(self.0@[i as int]));
            }
            i = i + 1;
        }
        proof {
            assert(self.0@.take(self.0@.len() as int) == self.0@);
        }
        PathData(v)
    }
}

impl View for PathData {
    type V = Seq<PathSegment>;

    open spec fn view(&self) -> Seq<PathSegment> {
        self.0@
    }
}

/// The result of elevating, with floor rounding, the quadratic control
/// value `n1 + 2*(n2 - n1)/3`, written as in the two-thirds interpolation
/// rule `(n1 + 2*n2) / 3`.
pub open spec fn spec_quad_calc(n1: int, n2: int) -> int {
    (n1 + 2 * n2) / 3
}

/// The cubic control points equivalent to a quadratic curve from `(px, py)`
/// over control point `(x1, y1)` to `(x, y)`.
pub open spec fn spec_quad_to_curve(px: int, py: int, x1: int, y1: int, x: int, y: int)
    -> (int, int, int, int, int, int) {
    (
        spec_quad_calc(px, x1),
        spec_quad_calc(py, y1),
        spec_quad_calc(x, x1),
        spec_quad_calc(y, y1),
        x,
        y,
    )
}

fn quad_calc(n1: i64, n2: i64) -> (r: i64)
    ensures
        r as int == spec_quad_calc(n1 as int, n2 as int),
{
    let sum: i128 = (n1 as i128) + 2 * (n2 as i128);
    let q: i128 = match sum.checked_div_euclid(3) {
        Some(q) => q,
        None => 0,
    };
    q as i64
}

/// Elevates a quadratic curve to the cubic control points, by the standard
/// two-thirds interpolation rule with floor rounding.
pub fn quad_to_curve(px: i64, py: i64, x1: i64, y1: i64, x: i64, y: i64)
    -> (r: (i64, i64, i64, i64, i64, i64))
    ensures
        (r.0 as int, r.1 as int, r.2 as int, r.3 as int, r.4 as int, r.5 as int)
            == spec_quad_to_curve(px as int, py as int, x1 as int, y1 as int, x as int, y as int),
{
    (
        quad_calc(px, x1),
        quad_calc(py, y1),
        quad_calc(x, x1),
        quad_calc(y, y1),
        x,
        y,
    )
}

fn quad_to_curve_seg(px: i64, py: i64, x1: i64, y1: i64, x: i64, y: i64) -> (r: PathSegment)
    ensures
        ({
            let (cx1, cy1, cx2, cy2, cx, cy) = spec_quad_to_curve(
                px as int, py as int, x1 as int, y1 as int, x as int, y as int);
            r == (PathSegment::CurveTo {
                x1: cx1 as i64, y1: cy1 as i64, x2: cx2 as i64, y2: cy2 as i64, x: cx as i64, y: cy as i64,
            })
        }),
{
    let (x1, y1, x2, y2, x, y) = quad_to_curve(px, py, x1, y1, x, y);
    PathSegment::CurveTo { x1, y1, x2, y2, x, y }
}

/// The cubic pieces an arc decomposes into; each piece carries two control
/// points and an end point in raw coordinates.
#[derive(Clone, Copy, PartialEq, Eq, Structural, Debug)]
pub struct CurvePoints {
    pub x1: i64,
    pub y1: i64,
    pub x2: i64,
    pub y2: i64,
    pub x: i64,
    pub y: i64,
}

/// The curve segment with the given control and end points.
pub open spec fn curve_seg(c: CurvePoints) -> PathSegment {
    PathSegment::CurveTo { x: c.x, y: c.y, x1: c.x1, y1: c.y1, x2: c.x2, y2: c.y2 }
}

/// All points of the piece are within the fixed-point range.
pub open spec fn curve_points_bounded(c: CurvePoints) -> bool {
    seg_bounded(curve_seg(c))
}

/// An arc spanning more than a half turn carries the large-arc flag; the
/// angles are raw fixed-point degrees.
pub fn large_arc_flag(start_angle: i64, end_angle: i64) -> (r: bool)
    ensures
        r == (end_angle as int - start_angle as int > 180 * 65536),
{
    (end_angle as i128) - (start_angle as i128) > 180 * 65536
}

impl PathData {
    /// Constructs an empty path.
    pub fn new() -> (r: Self)
        ensures
            r@ == Seq::<PathSegment>::empty(),
    {
        PathData(Vec::<PathSegment>::new())
    }

    /// The number of segments.
    pub fn len(&self) -> (r: usize)
        ensures
            r == self@.len(),
    {
        self.0.len()
    }

    /// Whether the path has no segments.
    pub fn is_empty(&self) -> (r: bool)
        ensures
            r == (self@.len() == 0),
    {
        self.0.is_empty()
    }

    /// The segment at the given position.
    pub fn get(&self, i: usize) -> (r: &PathSegment)
        requires
            i < self@.len(),
        ensures
            *r == self@[i as int],
    {
        &self.0[i]
    }

    /// Removes every segment.
    pub fn clear(&mut self)
        ensures
            final(self)@ == Seq::<PathSegment>::empty(),
    {
        self.0.clear();
    }

    /// Appends a segment.
    pub fn push(&mut self, seg: PathSegment)
        ensures
            final(self)@ == old(self)@.push(seg),
    {
        self.0.push(seg);
    }

    /// Moves the current position.
    pub fn move_to(&mut self, x: i64, y: i64)
        ensures
            final(self)@ == old(self)@.push(PathSegment::MoveTo { x, y }),
    {
        self.push(PathSegment::MoveTo { x, y });
    }

    /// Draws a line from the current position.
    pub fn line_to(&mut self, x: i64, y: i64)
        ensures
            final(self)@ == old(self)@.push(PathSegment::LineTo { x, y }),
    {
        self.push(PathSegment::LineTo { x, y });
    }

    /// Draws a cubic curve from the current position.
    pub fn curve_to(&mut self, x1: i64, y1: i64, x2: i64, y2: i64, x: i64, y: i64)
        ensures
            final(self)@ == old(self)@.push(PathSegment::CurveTo { x1, y1, x2, y2, x, y }),
    {
        self.push(PathSegment::CurveTo { x1, y1, x2, y2, x, y });
    }

    /// Draws a quadratic curve from the current position, elevated to a
    /// cubic segment.
    pub fn quad_to(&mut self, x1: i64, y1: i64, x: i64, y: i64)
        requires
            old(self)@.len() > 0,
            !(old(self)@.last() is ClosePath),
        ensures
            ({
                let (px, py) = spec_last_pos(old(self)@);
                let (cx1, cy1, cx2, cy2, cx, cy) = spec_quad_to_curve(
                    px, py, x1 as int, y1 as int, x as int, y as int);
                final(self)@ == old(self)@.push(PathSegment::CurveTo {
                    x1: cx1 as i64, y1: cy1 as i64, x2: cx2 as i64, y2: cy2 as i64,
                    x: cx as i64, y: cy as i64,
                })
            }),
    {
        let (prev_x, prev_y) = self.last_pos();
        let seg = quad_to_curve_seg(prev_x, prev_y, x1, y1, x, y);
        self.push(seg);
    }

    /// Closes the current subpath.
    pub fn close(&mut self)
        ensures
            final(self)@ == old(self)@.push(PathSegment::ClosePath),
    {
        self.push(PathSegment::ClosePath);
    }

    /// The end point of the last segment.  The caller must not ask right
    /// after a close instruction: that indicates a broken call sequence.
    pub fn last_pos(&self) -> (r: (i64, i64))
        requires
            self@.len() > 0,
            !(self@.last() is ClosePath),
        ensures
            (r.0 as int, r.1 as int) == spec_last_pos(self@),
    {
        let seg = self.0[self.0.len() - 1];
        match seg {
            PathSegment::MoveTo { x, y }
            | PathSegment::LineTo { x, y }
            | PathSegment::CurveTo { x, y, .. } => (x, y),
            PathSegment::ClosePath => (0, 0),
        }
    }

    /// Appends an arc already decomposed into cubic pieces: first a move to
    /// the arc's start point, then the pieces, or a straight line to the
    /// arc's end point where the decomposition was unsolvable (`None`).
    pub fn arc2(&mut self, sx: i64, sy: i64, cubics: Option<Vec<CurvePoints>>, ex: i64, ey: i64)
        ensures
            final(self)@ == match cubics {
                Some(cs) => old(self)@.push(PathSegment::MoveTo { x: sx, y: sy })
                    + cs@.map(|i: int, c: CurvePoints| curve_seg(c)),
                None => old(self)@.push(PathSegment::MoveTo { x: sx, y: sy })
                    .push(PathSegment::LineTo { x: ex, y: ey }),
            },
    {
        self.move_to(sx, sy);
        match cubics {
            Some(cs) => {
                let ghost base = self@;
                let ghost mapped = cs@.map(|i: int, c: CurvePoints| curve_seg(c));
                let mut i: usize = 0;
                while i < cs.len()
                    invariant
                        i <= cs.len(),
                        mapped == cs@.map(|k: int, c: CurvePoints| curve_seg(c)),
                        self@ == base + mapped.take(i as int),
                    decreases cs.len() - i,
                {
                    let c = cs[i];
                    self.curve_to(c.x1, c.y1, c.x2, c.y2, c.x, c.y);
                    proof {
                        assert(mapped.take(i + 1 as int) == mapped.take(i as int).push(curve_seg(cs@[i as int])));
                    }
                    i = i + 1;
                }
                proof {
                    assert(mapped.take(cs@.len() as int) == mapped);
                }
            }
            None => {
                self.line_to(ex, ey);
            }
        }
    }

    /// Appends an arc already decomposed into cubic pieces, continuing from
    /// the current position, or a straight line to `(x, y)` where the
    /// decomposition was unsolvable.
    pub fn arc_to(&mut self, cubics: Option<Vec<CurvePoints>>, x: i64, y: i64)
        ensures
            final(self)@ == match cubics {
                Some(cs) => old(self)@ + cs@.map(|i: int, c: CurvePoints| curve_seg(c)),
                None => old(self)@.push(PathSegment::LineTo { x, y }),
            },
    {
        match cubics {
            Some(cs) => {
                let ghost base = self@;
                let ghost mapped = cs@.map(|i: int, c: CurvePoints| curve_seg(c));
                let mut i: usize = 0;
                while i < cs.len()
                    invariant
                        i <= cs.len(),
                        mapped == cs@.map(|k: int, c: CurvePoints| curve_seg(c)),
                        self@ == base + mapped.take(i as int),
                    decreases cs.len() - i,
                {
                    let c = cs[i];
                    self.curve_to(c.x1, c.y1, c.x2, c.y2, c.x, c.y);
                    proof {
                        assert(mapped.take(i + 1 as int) == mapped.take(i as int).push(curve_seg(cs@[i as int])));
                    }
                    i = i + 1;
                }
                proof {
                    assert(mapped.take(cs@.len() as int) == mapped);
                    assert(self@ == base + mapped);
                }
            }
            None => {
                self.line_to(x, y);
            }
        }
    }

    /// Moves all segments of `other` to the end of this path, leaving
    /// `other` empty.
    pub fn append(&mut self, other: &mut PathData)
        ensures
            final(self)@ == old(self)@ + old(other)@,
            final(other)@ == Seq::<PathSegment>::empty(),
    {
        self.0.append(&mut other.0);
    }

    /// Every coordinate of every segment is within the fixed-point range.
    pub open spec fn all_bounded(self) -> bool {
        segs_all_bounded(self@)
    }

    /// Runtime test for `all_bounded`.
    pub fn is_all_bounded(&self) -> (r: bool)
        ensures
            r == self.all_bounded(),
    {
        let mut i: usize = 0;
        while i < self.0.len()
            invariant
                i <= self@.len(),
                forall|k: int| 0 <= k < i ==> #[trigger] seg_bounded(self@[k]),
            decreases self@.len() - i,
        {
            let seg = self.0[i];
            let ok = match seg {
                PathSegment::MoveTo { x, y } => is_fx(x) && is_fx(y),
                PathSegment::LineTo { x, y } => is_fx(x) && is_fx(y),
                PathSegment::CurveTo { x, y, x1, y1, x2, y2 } => {
                    is_fx(x) && is_fx(y) && is_fx(x1) && is_fx(y1) && is_fx(x2) && is_fx(y2)
                }
                PathSegment::ClosePath => true,
            };
            if !ok {
                assert(!seg_bounded(self@[i as int]));
                return false;
            }
            i = i + 1;
        }
        true
    }

    /// Applies a transform to every point of every segment, in place.
    pub fn transform(&mut self, ts: Transform)
        requires
            ts.lhs_ok(),
            old(self).all_bounded(),
        ensures
            final(self)@ == old(self)@.map(|i: int, s: PathSegment| spec_apply_seg(ts@, s)),
    {
        proof {
            assert(old(self).all_bounded());
            assert(forall|i: int| 0 <= i < old(self)@.len() ==> #[trigger] seg_bounded(old(self)@[i]));
        }
        transform_path(&mut self.0, ts);
    }

    /// Returns a copy of the path with a transform applied to every point.
    pub fn transform_to(&self, ts: Transform) -> (r: PathData)
        requires
            ts.lhs_ok(),
            self.all_bounded(),
        ensures
            r@ == self@.map(|i: int, s: PathSegment| spec_apply_seg(ts@, s)),
    {
        let mut path = self.clone();
        proof {
            assert(forall|i: int| 0 <= i < path.0@.len() ==> #[trigger] seg_bounded(path.0@[i]));
        }
        transform_path(&mut path.0, ts);
        path
    }

    /// Applies a transform to every point of every segment at or after the
    /// given position, in place.
    pub fn transform_from(&mut self, offset: usize, ts: Transform)
        requires
            ts.lhs_ok(),
            old(self).all_bounded(),
            offset <= old(self)@.len(),
        ensures
            final(self)@.len() == old(self)@.len(),
            forall|i: int| 0 <= i < offset ==> final(self)@[i] == old(self)@[i],
            forall|i: int| offset <= i < old(self)@.len()
                ==> final(self)@[i] == spec_apply_seg(ts@, old(self)@[i]),
    {
        let mut i: usize = offset;
        while i < self.0.len()
            invariant
                offset <= i <= self.0.len(),
                self.0.len() == old(self)@.len(),
                ts.lhs_ok(),
                forall|k: int| 0 <= k < offset ==> self@[k] == old(self)@[k],
                forall|k: int| offset <= k < i ==> self@[k] == spec_apply_seg(ts@, old(self)@[k]),
                forall|k: int| i <= k < old(self)@.len() ==> self@[k] == old(self)@[k],
                old(self).all_bounded(),
            decreases self.0.len() - i,
        {
            let seg = self.0[i];
            assert(seg_bounded(old(self)@[i as int]));
            let new_seg = apply_seg(&ts, seg);
            self.0[i] = new_seg;
            i = i + 1;
        }
    }
}

fn is_fx(v: i64) -> (r: bool)
    ensures
        r == fx_bounded(v as int),
{
    -0x8000_0000 <= v && v <= 0x8000_0000
}

/// Every coordinate of every segment of `s` is within the fixed-point
/// range.
pub open spec fn segs_all_bounded(s: Seq<PathSegment>) -> bool {
    forall|i: int| 0 <= i < s.len() ==> #[trigger] seg_bounded(s[i])
}

/// The end point of the last segment of `s`, which must be a move, line or
/// curve.
pub open spec fn spec_last_pos(s: Seq<PathSegment>) -> (int, int) {
    match s.last() {
        PathSegment::MoveTo { x, y } => (x as int, y as int),
        PathSegment::LineTo { x, y } => (x as int, y as int),
        PathSegment::CurveTo { x, y, .. } => (x as int, y as int),
        PathSegment::ClosePath => (0, 0),
    }
}

impl PartialEq for PathData {
    /// Two paths are equal when they hold the same segments in the same
    /// order.
    fn eq(&self, other: &PathData) -> (r: bool) {
        if self.0.len() != other.0.len() {
            return false;
        }
        let mut i: usize = 0;
        while i < self.0.len()
            invariant
                i <= self.0.len(),
                self.0.len() == other.0.len(),
                forall|k: int| 0 <= k < i ==> self@[k] == other@[k],
            decreases self.0.len() - i,
        {
            if self.0[i] != other.0[i] {
                assert(self@[i as int] != other@[i as int]);
                return false;
            }
            i = i + 1;
        }
        proof {
            assert(self@ =~= other@);
        }
        true
    }
}

impl vstd::std_specs::cmp::PartialEqSpecImpl for PathData {
    open spec fn obeys_eq_spec() -> bool {
        true
    }

    open spec fn eq_spec(&self, other: &PathData) -> bool {
        self@ == other@
    }
}

fn apply_seg(ts: &Transform, seg: PathSegment) -> (r: PathSegment)
    requires
        ts.lhs_ok(),
        seg_bounded(seg),
    ensures
        r == spec_apply_seg(ts@, seg),
{
    match seg {
        PathSegment::MoveTo { x, y } => {
            let (nx, ny) = ts.apply(x, y);
            PathSegment::MoveTo { x: nx, y: ny }
        }
        PathSegment::LineTo { x, y } => {
            let (nx, ny) = ts.apply(x, y);
            PathSegment::LineTo { x: nx, y: ny }
        }
        PathSegment::CurveTo { x, y, x1, y1, x2, y2 } => {
            let (nx, ny) = ts.apply(x, y);
            let (nx1, ny1) = ts.apply(x1, y1);
            let (nx2, ny2) = ts.apply(x2, y2);
            PathSegment::CurveTo { x: nx, y: ny, x1: nx1, y1: ny1, x2: nx2, y2: ny2 }
        }
        PathSegment::ClosePath => PathSegment::ClosePath,
    }
}

fn transform_path(segments: &mut Vec<PathSegment>, ts: Transform)
    requires
        ts.lhs_ok(),
        forall|i: int| 0 <= i < old(segments)@.len() ==> #[trigger] seg_bounded(old(segments)@[i]),
    ensures
        final(segments)@ == old(segments)@.map(|i: int, s: PathSegment| spec_apply_seg(ts@, s)),
{
    let ghost orig = segments@;
    let ghost mapped = orig.map(|i: int, s: PathSegment| spec_apply_seg(ts@, s));
    let mut i: usize = 0;
    while i < segments.len()
        invariant
            i <= segments.len(),
            segments.len() == orig.len(),
            ts.lhs_ok(),
            mapped == orig.map(|k: int, s: PathSegment| spec_apply_seg(ts@, s)),
            forall|k: int| 0 <= k < i ==> segments@[k] == mapped[k],
            forall|k: int| i <= k < orig.len() ==> segments@[k] == orig[k],
            forall|k: int| 0 <= k < orig.len() ==> #[trigger] seg_bounded(orig[k]),
        decreases segments.len() - i,
    {
        let seg = segments[i];
        assert(seg_bounded(orig[i as int]));
        let new_seg = apply_seg(&ts, seg);
        segments[i] = new_seg;
        i = i + 1;
    }
    proof {
        assert(segments@ =~= mapped);
    }
}

/// Accumulates segments while applying the current transform to every
/// incoming point, so the stored path is in device space.
#[derive(Debug)]
pub struct PathBuilder(pub PathData);

impl Default for PathBuilder {
    /// The default builder has no recorded segments.
    fn default() -> (r: Self)
        ensures
            r@ == Seq::<PathSegment>::empty(),
    {
        PathBuilder(PathData::default())
    }
}

impl Clone for PathBuilder {
    /// The clone holds the same segments.
    fn clone(&self) -> (r: Self)
        ensures
            r@ == self@,
    {
        PathBuilder(self.0.clone())
    }
}

impl View for PathBuilder {
    type V = Seq<PathSegment>;

    open spec fn view(&self) -> Seq<PathSegment> {
        self.0@
    }
}

impl PathBuilder {
    /// Removes every recorded segment.
    pub fn begin_path(&mut self)
        ensures
            final(self)@ == Seq::<PathSegment>::empty(),
    {
        self.0.clear();
    }

    /// Draws a cubic curve through the transform.
    pub fn bezier_curve_to(&mut self, cp1x: i64, cp1y: i64, cp2x: i64, cp2y: i64, x: i64, y: i64, transform: &Transform)
        requires
            transform.lhs_ok(),
            fx_bounded(cp1x as int) && fx_bounded(cp1y as int),
            fx_bounded(cp2x as int) && fx_bounded(cp2y as int),
            fx_bounded(x as int) && fx_bounded(y as int),
        ensures
            final(self)@ == old(self)@.push(spec_apply_seg(transform@,
                PathSegment::CurveTo { x, y, x1: cp1x, y1: cp1y, x2: cp2x, y2: cp2y })),
    {
        let (x1, y1) = transform.apply(cp1x, cp1y);
        let (x2, y2) = transform.apply(cp2x, cp2y);
        let (x, y) = transform.apply(x, y);
        self.0.curve_to(x1, y1, x2, y2, x, y)
    }

    /// Closes the current subpath.
    pub fn close_path(&mut self)
        ensures
            final(self)@ == old(self)@.push(PathSegment::ClosePath),
    {
        self.0.close();
    }

    /// Draws a line through the transform.
    pub fn line_to(&mut self, x: i64, y: i64, transform: &Transform)
        requires
            transform.lhs_ok(),
            fx_bounded(x as int) && fx_bounded(y as int),
        ensures
            final(self)@ == old(self)@.push(spec_apply_seg(transform@, PathSegment::LineTo { x, y })),
    {
        let (x, y) = transform.apply(x, y);
        self.0.line_to(x, y)
    }

    /// Moves the current position through the transform.
    pub fn move_to(&mut self, x: i64, y: i64, transform: &Transform)
        requires
            transform.lhs_ok(),
            fx_bounded(x as int) && fx_bounded(y as int),
        ensures
            final(self)@ == old(self)@.push(spec_apply_seg(transform@, PathSegment::MoveTo { x, y })),
    {
        let (x, y) = transform.apply(x, y);
        self.0.move_to(x, y)
    }

    /// Draws a quadratic curve through the transform: the cubic control
    /// points are computed from the untransformed previous position, then
    /// every point passes through the transform.
    pub fn quadratic_curve_to(&mut self, cpx: i64, cpy: i64, x: i64, y: i64, transform: &Transform)
        requires
            transform.lhs_ok(),
            old(self)@.len() > 0,
            !(old(self)@.last() is ClosePath),
            fx_bounded(spec_last_pos(old(self)@).0) && fx_bounded(spec_last_pos(old(self)@).1),
            fx_bounded(cpx as int) && fx_bounded(cpy as int),
            fx_bounded(x as int) && fx_bounded(y as int),
        ensures
            ({
                let (px, py) = spec_last_pos(old(self)@);
                let (cx1, cy1, cx2, cy2, cx, cy) = spec_quad_to_curve(
                    px, py, cpx as int, cpy as int, x as int, y as int);
                final(self)@ == old(self)@.push(spec_apply_seg(transform@, PathSegment::CurveTo {
                    x: cx as i64, y: cy as i64,
                    x1: cx1 as i64, y1: cy1 as i64,
                    x2: cx2 as i64, y2: cy2 as i64,
                }))
            }),
    {
        let (prev_x, prev_y) = self.0.last_pos();
        let (x1, y1, x2, y2, x, y) = quad_to_curve(prev_x, prev_y, cpx, cpy, x, y);
        proof {
            lemma_quad_calc_bounded(prev_x as int, cpx as int);
            lemma_quad_calc_bounded(prev_y as int, cpy as int);
            lemma_quad_calc_bounded(x as int, cpx as int);
            lemma_quad_calc_bounded(y as int, cpy as int);
        }
        let (x1, y1) = transform.apply(x1, y1);
        let (x2, y2) = transform.apply(x2, y2);
        let (x, y) = transform.apply(x, y);
        self.0.curve_to(x1, y1, x2, y2, x, y)
    }

    /// Appends an arc already decomposed into cubic pieces, every point
    /// passed through the transform: a move to the start point, then the
    /// pieces, or a straight line to the end point where the decomposition
    /// was unsolvable.
    pub fn arc(&mut self, sx: i64, sy: i64, cubics: Option<Vec<CurvePoints>>, ex: i64, ey: i64, transform: &Transform)
        requires
            transform.lhs_ok(),
            fx_bounded(sx as int) && fx_bounded(sy as int),
            fx_bounded(ex as int) && fx_bounded(ey as int),
            cubics is Some ==> forall|i: int| 0 <= i < cubics.unwrap()@.len()
                ==> #[trigger] curve_points_bounded(cubics.unwrap()@[i]),
        ensures
            final(self)@ == match cubics {
                Some(cs) => old(self)@.push(spec_apply_seg(transform@, PathSegment::MoveTo { x: sx, y: sy }))
                    + cs@.map(|i: int, c: CurvePoints| spec_apply_seg(transform@, curve_seg(c))),
                None => old(self)@.push(spec_apply_seg(transform@, PathSegment::MoveTo { x: sx, y: sy }))
                    .push(spec_apply_seg(transform@, PathSegment::LineTo { x: ex, y: ey })),
            },
    {
        self.move_to(sx, sy, transform);
        match cubics {
            Some(cs) => {
                let ghost base = self@;
                let ghost mapped = cs@.map(|i: int, c: CurvePoints| spec_apply_seg(transform@, curve_seg(c)));
                let mut i: usize = 0;
                while i < cs.len()
                    invariant
                        i <= cs.len(),
                        transform.lhs_ok(),
                        mapped == cs@.map(|k: int, c: CurvePoints| spec_apply_seg(transform@, curve_seg(c))),
                        forall|k: int| 0 <= k < cs@.len() ==> #[trigger] curve_points_bounded(cs@[k]),
                        self@ == base + mapped.take(i as int),
                    decreases cs.len() - i,
                {
                    let c = cs[i];
                    assert(curve_points_bounded(cs@[i as int]));
                    self.bezier_curve_to(c.x1, c.y1, c.x2, c.y2, c.x, c.y, transform);
                    proof {
                        assert(mapped.take(i + 1 as int) == mapped.take(i as int).push(
                            spec_apply_seg(transform@, curve_seg(cs@[i as int]))));
                    }
                    i = i + 1;
                }
                proof {
                    assert(mapped.take(cs@.len() as int) == mapped);
                }
            }
            None => {
                self.line_to(ex, ey, transform);
            }
        }
    }

    /// Removes every recorded segment.
    pub fn clear(&mut self)
        ensures
            final(self)@ == Seq::<PathSegment>::empty(),
    {
        self.0.clear();
    }

    /// Closes the current subpath.
    pub fn close(&mut self)
        ensures
            final(self)@ == old(self)@.push(PathSegment::ClosePath),
    {
        self.0.close();
    }

    /// Moves all segments of `path` to the end of the recorded path,
    /// leaving `path` empty.
    pub fn append_path(&mut self, path: &mut PathData)
        ensures
            final(self)@ == old(self)@ + old(path)@,
            final(path)@ == Seq::<PathSegment>::empty(),
    {
        self.0.append(path);
    }

    /// Applies a transform to every recorded point.
    pub fn transform(&mut self, ts: &Transform)
        requires
            ts.lhs_ok(),
            old(self).0.all_bounded(),
        ensures
            final(self)@ == old(self)@.map(|i: int, s: PathSegment| spec_apply_seg(ts@, s)),
    {
        self.0.transform(ts.clone())
    }

    /// Hands the recorded path out.
    pub fn into_path_data(self) -> (r: PathData)
        ensures
            r@ == self@,
    {
        self.0
    }
}

/// The two-thirds interpolation of two values within the fixed-point range
/// stays within it.
proof fn lemma_quad_calc_bounded(n1: int, n2: int)
    requires
        fx_bounded(n1),
        fx_bounded(n2),
    ensures
        fx_bounded(spec_quad_calc(n1, n2)),
{
    vstd::arithmetic::div_mod::lemma_div_is_ordered(-0x1_8000_0000, n1 + 2 * n2, 3);
    vstd::arithmetic::div_mod::lemma_div_is_ordered(n1 + 2 * n2, 0x1_8000_0000, 3);
    assert((-0x1_8000_0000) / 3int == -0x8000_0000);
    assert(0x1_8000_0000int / 3int == 0x8000_0000);
}


/// A rectangle request is drawable when both extents are positive and the
/// far corner stays within the machine range.
pub open spec fn rect_valid(x: int, y: int, w: int, h: int) -> bool {
    &&& w > 0
    &&& h > 0
    &&& x + w <= i64::MAX
    &&& y + h <= i64::MAX
}

/// The closed rectangle path from `(x, y)` with extent `(w, h)`, wound
/// clockwise.
pub open spec fn rect_path(x: int, y: int, w: int, h: int) -> Seq<PathSegment> {
    let l = x as i64;
    let t = y as i64;
    let r = (x + w) as i64;
    let b = (y + h) as i64;
    seq![
        PathSegment::MoveTo { x: l, y: t },
        PathSegment::LineTo { x: r, y: t },
        PathSegment::LineTo { x: r, y: b },
        PathSegment::LineTo { x: l, y: b },
        PathSegment::ClosePath,
    ]
}

/// The closed rectangle path from `(x, y)` with extent `(w, h)`, wound
/// the other way round, for carving a region out under the non-zero rule.
pub open spec fn rect_path_reverse(x: int, y: int, w: int, h: int) -> Seq<PathSegment> {
    let l = x as i64;
    let t = y as i64;
    let r = (x + w) as i64;
    let b = (y + h) as i64;
    seq![
        PathSegment::MoveTo { x: l, y: t },
        PathSegment::LineTo { x: l, y: b },
        PathSegment::LineTo { x: r, y: b },
        PathSegment::LineTo { x: r, y: t },
        PathSegment::ClosePath,
    ]
}

impl PathData {
    /// The closed rectangle path from `(x, y)` with extent `(w, h)`;
    /// nothing when an extent is zero or negative or a corner leaves the
    /// machine range.
    pub fn create_rect(x: i64, y: i64, w: i64, h: i64) -> (r: Option<PathData>)
        ensures
            match r {
                Some(p) => rect_valid(x as int, y as int, w as int, h as int)
                    && p@ == rect_path(x as int, y as int, w as int, h as int),
                None => !rect_valid(x as int, y as int, w as int, h as int),
            },
    {
        if w <= 0 || h <= 0 {
            return None;
        }
        let right = match x.checked_add(w) {
            Some(v) => v,
            None => {
                return None;
            }
        };
        let bottom = match y.checked_add(h) {
            Some(v) => v,
            None => {
                return None;
            }
        };
        let mut path = PathData::new();
        path.move_to(x, y);
        path.line_to(right, y);
        path.line_to(right, bottom);
        path.line_to(x, bottom);
        path.close();
        proof {
            assert(path@ =~= rect_path(x as int, y as int, w as int, h as int));
        }
        Some(path)
    }

    /// As `create_rect`, wound the other way round.
    pub fn create_rect_reverse(x: i64, y: i64, w: i64, h: i64) -> (r: Option<PathData>)
        ensures
            match r {
                Some(p) => rect_valid(x as int, y as int, w as int, h as int)
                    && p@ == rect_path_reverse(x as int, y as int, w as int, h as int),
                None => !rect_valid(x as int, y as int, w as int, h as int),
            },
    {
        if w <= 0 || h <= 0 {
            return None;
        }
        let right = match x.checked_add(w) {
            Some(v) => v,
            None => {
                return None;
            }
        };
        let bottom = match y.checked_add(h) {
            Some(v) => v,
            None => {
                return None;
            }
        };
        let mut path = PathData::new();
        path.move_to(x, y);
        path.line_to(x, bottom);
        path.line_to(right, bottom);
        path.line_to(right, y);
        path.close();
        proof {
            assert(path@ =~= rect_path_reverse(x as int, y as int, w as int, h as int));
        }
        Some(path)
    }
}

} // verus!
