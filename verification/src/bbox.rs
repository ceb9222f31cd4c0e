//! Bounding boxes.
//!
//! A bounding box is a mutable accumulator `(x1, y1, x2, y2)` in path
//! space that grows monotonically as points and segments are absorbed.  A
//! cubic curve contributes its end points and the curve values at the
//! roots of its derivative, computed analytically in fixed point, so the
//! box is tight rather than a hull of the control points.

use vstd::prelude::*;
use crate::numfmt::{dec_int, i64_to_dec};
use vstd::arithmetic::div_mod::{lemma_div_is_ordered, lemma_fundamental_div_mod};
use crate::fixed::{SCALE_ONE, fx_bounded, div_euclid_i128};
use crate::path::{PathData, PathSegment, seg_bounded};

verus! {

/// One unit cubed: the divisor that rescales a product of three raw values.
pub const SCALE_ONE_CUBED: i64 = 0x1_0000_0000_0000;

/// Bound on the coordinates the curve-extrema routines accept.
pub const BEZ_LIMIT: i64 = 0x1_0000_0000;

/// A coordinate the curve-extrema routines accept.
pub open spec fn bez_bounded(v: int) -> bool {
    -(BEZ_LIMIT as int) <= v <= BEZ_LIMIT as int
}

/// Mathematical model of a bounding box.
pub ghost struct BoxModel {
    pub x1: int,
    pub y1: int,
    pub x2: int,
    pub y2: int,
}

/// The box grown to contain the point `(x, y)`.
pub open spec fn absorb_point(b: BoxModel, x: int, y: int) -> BoxModel {
    BoxModel {
        x1: if x < b.x1 { x } else { b.x1 },
        x2: if x > b.x2 { x } else { b.x2 },
        y1: if y < b.y1 { y } else { b.y1 },
        y2: if y > b.y2 { y } else { b.y2 },
    }
}

/// The box grown to contain the value `x` on the horizontal axis.
pub open spec fn absorb_x(b: BoxModel, x: int) -> BoxModel {
    BoxModel {
        x1: if x < b.x1 { x } else { b.x1 },
        x2: if x > b.x2 { x } else { b.x2 },
        ..b
    }
}

/// The box grown to contain the value `y` on the vertical axis.
pub open spec fn absorb_y(b: BoxModel, y: int) -> BoxModel {
    BoxModel {
        y1: if y < b.y1 { y } else { b.y1 },
        y2: if y > b.y2 { y } else { b.y2 },
        ..b
    }
}

/// The floor of the square root of `n`.
pub open spec fn sqrt_floor(n: int) -> int {
    choose|r: int| r >= 0 && #[trigger] (r * r) <= n && (r + 1) * (r + 1) > n
}

/// Any two square-root floors of `n` agree, so `sqrt_floor` names the one
/// value with the property.
pub proof fn lemma_sqrt_floor_unique(n: int, r: int)
    requires
        r >= 0,
        r * r <= n,
        (r + 1) * (r + 1) > n,
    ensures
        sqrt_floor(n) == r,
{
    assert(exists|q: int| q >= 0 && #[trigger] (q * q) <= n && (q + 1) * (q + 1) > n) by {
        assert(r >= 0 && r * r <= n && (r + 1) * (r + 1) > n);
    }
    let q = sqrt_floor(n);
    assert(q >= 0 && q * q <= n && (q + 1) * (q + 1) > n);
    if q < r {
        assert((q + 1) * (q + 1) <= r * r) by (nonlinear_arith)
            requires 0 <= q < r;
        assert(false);
    }
    if r < q {
        assert((r + 1) * (r + 1) <= q * q) by (nonlinear_arith)
            requires 0 <= r < q;
        assert(false);
    }
}

/// Computes the floor of the square root by bisection.
pub fn isqrt_u128(n: u128) -> (r: u128)
    ensures
        r as int == sqrt_floor(n as int),
        r * r <= n,
{
    let mut lo: u128 = 0;
    let mut hi: u128 = 0xFFFF_FFFF_FFFF_FFFF;
    if n < hi {
        hi = n;
    }
    proof {
        assert((hi as int + 1) * (hi as int + 1) > n as int) by (nonlinear_arith)
            requires hi as int + 1 > 0xFFFF_FFFF_FFFF_FFFF || hi as int + 1 > n as int,
                n as int <= 0xFFFF_FFFF_FFFF_FFFF_FFFF_FFFF_FFFF_FFFF;
    }
    while lo < hi
        invariant
            0 <= lo <= hi,
            (lo as int) * (lo as int) <= n as int,
            (hi as int + 1) * (hi as int + 1) > n as int,
            hi <= 0xFFFF_FFFF_FFFF_FFFF,
        decreases hi - lo,
    {
        let mid: u128 = lo + (hi - lo + 1) / 2;
        if mid <= n / mid {
            proof {
                lemma_fundamental_div_mod(n as int, mid as int);
                assert((mid as int) * (mid as int) <= n as int) by (nonlinear_arith)
                    requires mid as int <= (n as int) / (mid as int),
                        mid as int > 0,
                        n as int == (mid as int) * ((n as int) / (mid as int)) + (n as int) % (mid as int),
                        (n as int) % (mid as int) >= 0;
            }
            lo = mid;
        } else {
            proof {
                lemma_fundamental_div_mod(n as int, mid as int);
                assert((mid as int) * (mid as int) > n as int) by (nonlinear_arith)
                    requires mid as int > (n as int) / (mid as int),
                        mid as int > 0,
                        n as int == (mid as int) * ((n as int) / (mid as int)) + (n as int) % (mid as int),
                        (n as int) % (mid as int) < mid as int;
            }
            hi = mid - 1;
        }
    }
    proof {
        lemma_sqrt_floor_unique(n as int, lo as int);
    }
    lo
}

/// The value of the cubic with control values `v0, v1, v2, v3` at the raw
/// parameter `t`, by the Bernstein form with one floor rescaling at the
/// end.
pub open spec fn spec_derive(v0: int, v1: int, v2: int, v3: int, t: int) -> int {
    let u = SCALE_ONE as int - t;
    ((u * u * u) * v0 + 3 * ((u * u * t) * v1) + 3 * ((u * (t * t)) * v2) + (t * t * t) * v3)
        / (SCALE_ONE_CUBED as int)
}

/// Evaluates the cubic with control values `v0, v1, v2, v3` at the raw
/// parameter `t`.
pub fn derive(v0: i64, v1: i64, v2: i64, v3: i64, t: i64) -> (r: i64)
    requires
        0 <= t as int <= SCALE_ONE as int,
        bez_bounded(v0 as int),
        bez_bounded(v1 as int),
        bez_bounded(v2 as int),
        bez_bounded(v3 as int),
    ensures
        r as int == spec_derive(v0 as int, v1 as int, v2 as int, v3 as int, t as int),
{
    let u: i128 = (SCALE_ONE as i128) - (t as i128);
    let t_w: i128 = t as i128;
    proof {
        assert(0 <= u * u <= 0x1_0000_0000 && 0 <= (u * u) * u <= 0x1_0000_0000_0000
            && 0 <= (u * u) * t_w <= 0x1_0000_0000_0000
            && 0 <= t_w * t_w <= 0x1_0000_0000
            && 0 <= u * (t_w * t_w) <= 0x1_0000_0000_0000
            && 0 <= (t_w * t_w) * t_w <= 0x1_0000_0000_0000) by (nonlinear_arith)
            requires 0 <= u <= 0x1_0000 && 0 <= t_w <= 0x1_0000;
    }
    let uu: i128 = u * u;
    let uuu: i128 = uu * u;
    let uut: i128 = uu * t_w;
    let tt: i128 = t_w * t_w;
    let utt: i128 = u * tt;
    let ttt: i128 = tt * t_w;
    proof {
        assert(-0x1_0000_0000_0000_0000_0000_0000 <= uuu * (v0 as int) <= 0x1_0000_0000_0000_0000_0000_0000
            && -0x1_0000_0000_0000_0000_0000_0000 <= uut * (v1 as int) <= 0x1_0000_0000_0000_0000_0000_0000
            && -0x1_0000_0000_0000_0000_0000_0000 <= utt * (v2 as int) <= 0x1_0000_0000_0000_0000_0000_0000
            && -0x1_0000_0000_0000_0000_0000_0000 <= ttt * (v3 as int) <= 0x1_0000_0000_0000_0000_0000_0000)
            by (nonlinear_arith)
            requires 0 <= uuu <= 0x1_0000_0000_0000 && 0 <= uut <= 0x1_0000_0000_0000
                && 0 <= utt <= 0x1_0000_0000_0000 && 0 <= ttt <= 0x1_0000_0000_0000
                && bez_bounded(v0 as int) && bez_bounded(v1 as int)
                && bez_bounded(v2 as int) && bez_bounded(v3 as int);
    }
    let m0: i128 = uuu * (v0 as i128);
    let m1: i128 = 3 * (uut * (v1 as i128));
    let m2: i128 = 3 * (utt * (v2 as i128));
    let m3: i128 = ttt * (v3 as i128);
    let numer: i128 = m0 + m1 + m2 + m3;
    let q: i128 = match numer.checked_div_euclid(SCALE_ONE_CUBED as i128) {
        Some(q) => q,
        None => 0,
    };
    proof {
        lemma_div_is_ordered(-0x8_0000_0000_0000_0000_0000_0000int, numer as int, SCALE_ONE_CUBED as int);
        lemma_div_is_ordered(numer as int, 0x8_0000_0000_0000_0000_0000_0000int, SCALE_ONE_CUBED as int);
        assert((-0x8_0000_0000_0000_0000_0000_0000int) / (SCALE_ONE_CUBED as int) == -0x8_0000_0000_0000);
        assert(0x8_0000_0000_0000_0000_0000_0000int / (SCALE_ONE_CUBED as int) == 0x8_0000_0000_0000);
    }
    q as i64
}

/// The raw parameters in the open unit interval at which the cubic with
/// control values `p0, p1, p2, p3` has a derivative root: none, the root
/// of the linear derivative, or up to two roots of the quadratic one, in
/// the order the box absorbs them.
pub open spec fn spec_axis_ts(p0: int, p1: int, p2: int, p3: int) -> Seq<int> {
    let b = 6 * p0 - 12 * p1 + 6 * p2;
    let a = -3 * p0 + 9 * p1 - 9 * p2 + 3 * p3;
    let c = 3 * p1 - 3 * p0;
    if a == 0 {
        if b == 0 {
            Seq::<int>::empty()
        } else {
            let t = (-c * (SCALE_ONE as int)) / b;
            if 0 < t < SCALE_ONE as int {
                seq![t]
            } else {
                Seq::<int>::empty()
            }
        }
    } else {
        let b2ac = b * b - 4 * (c * a);
        if b2ac < 0 {
            Seq::<int>::empty()
        } else {
            let s = sqrt_floor(b2ac * 0x1_0000_0000);
            let t1 = (-b * (SCALE_ONE as int) + s) / (2 * a);
            let t2 = (-b * (SCALE_ONE as int) - s) / (2 * a);
            let first: Seq<int> = if 0 < t1 < SCALE_ONE as int { seq![t1] } else { Seq::<int>::empty() };
            if 0 < t2 < SCALE_ONE as int {
                first.push(t2)
            } else {
                first
            }
        }
    }
}

/// The box after absorbing, on one axis, the cubic's values at its
/// derivative roots; `horizontal` selects the axis.
pub open spec fn spec_absorb_axis(bx: BoxModel, p0: int, p1: int, p2: int, p3: int, horizontal: bool) -> BoxModel
    decreases spec_axis_ts(p0, p1, p2, p3).len(),
{
    spec_absorb_ts(bx, p0, p1, p2, p3, spec_axis_ts(p0, p1, p2, p3), horizontal)
}

/// The box after absorbing, on one axis, the cubic's values at the given
/// raw parameters, in order.
pub open spec fn spec_absorb_ts(bx: BoxModel, p0: int, p1: int, p2: int, p3: int, ts: Seq<int>, horizontal: bool) -> BoxModel
    decreases ts.len(),
{
    if ts.len() == 0 {
        bx
    } else {
        let v = spec_derive(p0, p1, p2, p3, ts[0]);
        let grown = if horizontal { absorb_x(bx, v) } else { absorb_y(bx, v) };
        spec_absorb_ts(grown, p0, p1, p2, p3, ts.drop_first(), horizontal)
    }
}

/// The box after absorbing a whole cubic segment: both end points, then
/// the extremal values on each axis.
pub open spec fn spec_absorb_bezier(
    b: BoxModel,
    x0: int, y0: int, x1: int, y1: int, x2: int, y2: int, x: int, y: int,
) -> BoxModel {
    let b1 = absorb_point(b, x0, y0);
    let b2 = absorb_point(b1, x, y);
    let b3 = spec_absorb_axis(b2, x0, x1, x2, x, true);
    spec_absorb_axis(b3, y0, y1, y2, y, false)
}

/// Bounding box accumulator over raw fixed-point coordinates.
#[derive(Clone, Copy, PartialEq, Eq, Structural, Debug)]
pub struct BoundingBox {
    pub x1: i64,
    pub y1: i64,
    pub x2: i64,
    pub y2: i64,
}

impl View for BoundingBox {
    type V = BoxModel;

    open spec fn view(&self) -> BoxModel {
        BoxModel { x1: self.x1 as int, y1: self.y1 as int, x2: self.x2 as int, y2: self.y2 as int }
    }
}

impl BoundingBox {
    /// The degenerate box holding only the point `(x, y)`.
    pub fn new(x: i64, y: i64) -> (r: Self)
        ensures
            r@ == (BoxModel { x1: x as int, y1: y as int, x2: x as int, y2: y as int }),
    {
        BoundingBox { x1: x, y1: y, x2: x, y2: y }
    }

    /// The width of the box.
    pub fn get_width(&self) -> (r: i64)
        requires
            i64::MIN <= self@.x2 - self@.x1 <= i64::MAX,
        ensures
            r as int == self@.x2 - self@.x1,
    {
        self.x2 - self.x1
    }

    /// The height of the box.
    pub fn get_height(&self) -> (r: i64)
        requires
            i64::MIN <= self@.y2 - self@.y1 <= i64::MAX,
        ensures
            r as int == self@.y2 - self@.y1,
    {
        self.y2 - self.y1
    }

    /// The smallest box containing this box and the other.
    pub fn merge(&self, other: &BoundingBox) -> (r: Self)
        ensures
            r@ == (BoxModel {
                x1: if other@.x1 < self@.x1 { other@.x1 } else { self@.x1 },
                y1: if other@.y1 < self@.y1 { other@.y1 } else { self@.y1 },
                x2: if other@.x2 > self@.x2 { other@.x2 } else { self@.x2 },
                y2: if other@.y2 > self@.y2 { other@.y2 } else { self@.y2 },
            }),
    {
        let mut bbox = self.clone();
        if other.x1 < bbox.x1 {
            bbox.x1 = other.x1
        }
        if other.y1 < bbox.y1 {
            bbox.y1 = other.y1
        }
        if other.x2 > bbox.x2 {
            bbox.x2 = other.x2
        }
        if other.y2 > bbox.y2 {
            bbox.y2 = other.y2
        }
        bbox
    }

    /// Widens the box by `width` on every side.
    pub fn extends(&mut self, width: i64)
        requires
            i64::MIN <= old(self)@.x1 - width <= i64::MAX,
            i64::MIN <= old(self)@.y1 - width <= i64::MAX,
            i64::MIN <= old(self)@.x2 + width <= i64::MAX,
            i64::MIN <= old(self)@.y2 + width <= i64::MAX,
        ensures
            final(self)@ == (BoxModel {
                x1: old(self)@.x1 - width,
                y1: old(self)@.y1 - width,
                x2: old(self)@.x2 + width,
                y2: old(self)@.y2 + width,
            }),
    {
        self.x1 = self.x1 - width;
        self.y1 = self.y1 - width;
        self.x2 = self.x2 + width;
        self.y2 = self.y2 + width;
    }

    /// Moves the box by `(x, y)`.
    pub fn move_t(&mut self, x: i64, y: i64)
        requires
            i64::MIN <= old(self)@.x1 + x <= i64::MAX,
            i64::MIN <= old(self)@.y1 + y <= i64::MAX,
            i64::MIN <= old(self)@.x2 + x <= i64::MAX,
            i64::MIN <= old(self)@.y2 + y <= i64::MAX,
        ensures
            final(self)@ == (BoxModel {
                x1: old(self)@.x1 + x,
                y1: old(self)@.y1 + y,
                x2: old(self)@.x2 + x,
                y2: old(self)@.y2 + y,
            }),
    {
        self.x1 = self.x1 + x;
        self.y1 = self.y1 + y;
        self.x2 = self.x2 + x;
        self.y2 = self.y2 + y;
    }

    /// Grows the box to contain the point `(x, y)`.
    pub fn add_point(&mut self, x: i64, y: i64)
        ensures
            final(self)@ == absorb_point(old(self)@, x as int, y as int),
    {
        if x < self.x1 {
            self.x1 = x
        }
        if x > self.x2 {
            self.x2 = x
        }
        if y < self.y1 {
            self.y1 = y
        }
        if y > self.y2 {
            self.y2 = y
        }
    }

    /// Grows the box to contain the value `x` on the horizontal axis.
    pub fn add_point_x(&mut self, x: i64)
        ensures
            final(self)@ == absorb_x(old(self)@, x as int),
    {
        if x < self.x1 {
            self.x1 = x
        }
        if x > self.x2 {
            self.x2 = x
        }
    }

    /// Grows the box to contain the value `y` on the vertical axis.
    pub fn add_point_y(&mut self, y: i64)
        ensures
            final(self)@ == absorb_y(old(self)@, y as int),
    {
        if y < self.y1 {
            self.y1 = y
        }
        if y > self.y2 {
            self.y2 = y
        }
    }

    /// Grows the box to contain a cubic segment from `(x0, y0)` over the
    /// control points `(x1, y1)`, `(x2, y2)` to `(x, y)`: the end points
    /// and the curve's values at the roots of its derivative per axis.
    pub fn add_bezier(&mut self, x0: i64, y0: i64, x1: i64, y1: i64, x2: i64, y2: i64, x: i64, y: i64)
        requires
            bez_bounded(x0 as int) && bez_bounded(y0 as int),
            bez_bounded(x1 as int) && bez_bounded(y1 as int),
            bez_bounded(x2 as int) && bez_bounded(y2 as int),
            bez_bounded(x as int) && bez_bounded(y as int),
        ensures
            final(self)@ == spec_absorb_bezier(old(self)@,
                x0 as int, y0 as int, x1 as int, y1 as int,
                x2 as int, y2 as int, x as int, y as int),
    {
        self.add_point(x0, y0);
        self.add_point(x, y);
        self.absorb_axis(x0, x1, x2, x, true);
        self.absorb_axis(y0, y1, y2, y, false);
    }

    /// Grows the box as `add_bezier` does for a quadratic segment, after
    /// elevating it to the equivalent cubic by the two-thirds rule.
    pub fn add_quad(&mut self, x0: i64, y0: i64, x1: i64, y1: i64, x: i64, y: i64)
        requires
            fx_bounded(x0 as int) && fx_bounded(y0 as int),
            fx_bounded(x1 as int) && fx_bounded(y1 as int),
            fx_bounded(x as int) && fx_bounded(y as int),
        ensures
            ({
                let cp1x = x0 as int + spec_two_thirds(x1 as int - x0 as int);
                let cp1y = y0 as int + spec_two_thirds(y1 as int - y0 as int);
                let cp2x = cp1x + spec_third(x as int - x0 as int);
                let cp2y = cp1y + spec_third(y as int - y0 as int);
                final(self)@ == spec_absorb_bezier(old(self)@,
                    x0 as int, y0 as int, cp1x, cp1y, cp2x, cp2y, x as int, y as int)
            }),
    {
        let cp1x = add_two_thirds(x0, x1);
        let cp1y = add_two_thirds(y0, y1);
        let cp2x = add_third(cp1x, x0, x);
        let cp2y = add_third(cp1y, y0, y);
        self.add_bezier(x0, y0, cp1x, cp1y, cp2x, cp2y, x, y);
    }

    fn absorb_axis(&mut self, p0: i64, p1: i64, p2: i64, p3: i64, horizontal: bool)
        requires
            bez_bounded(p0 as int),
            bez_bounded(p1 as int),
            bez_bounded(p2 as int),
            bez_bounded(p3 as int),
        ensures
            final(self)@ == spec_absorb_axis(old(self)@, p0 as int, p1 as int, p2 as int, p3 as int, horizontal),
    {
        let bw: i128 = 6 * (p0 as i128) - 12 * (p1 as i128) + 6 * (p2 as i128);
        let aw: i128 = 9 * (p1 as i128) - 9 * (p2 as i128) + 3 * (p3 as i128) - 3 * (p0 as i128);
        let cw: i128 = 3 * (p1 as i128) - 3 * (p0 as i128);
        let ghost ts = spec_axis_ts(p0 as int, p1 as int, p2 as int, p3 as int);
        if aw == 0 {
            if bw == 0 {
                assert(ts.len() == 0);
                return;
            }
            let numer: i128 = -cw * (SCALE_ONE as i128);
            let t_wide: i128 = div_euclid_i128(numer, bw);
            if 0 < t_wide && t_wide < SCALE_ONE as i128 {
                let t = t_wide as i64;
                assert(ts =~= seq![t as int]);
                let v = derive(p0, p1, p2, p3, t);
                if horizontal {
                    self.add_point_x(v);
                } else {
                    self.add_point_y(v);
                }
                proof {
                    let p0i = p0 as int;
                    let p1i = p1 as int;
                    let p2i = p2 as int;
                    let p3i = p3 as int;
                    let grown = if horizontal {
                        absorb_x(old(self)@, spec_derive(p0i, p1i, p2i, p3i, ts[0]))
                    } else {
                        absorb_y(old(self)@, spec_derive(p0i, p1i, p2i, p3i, ts[0]))
                    };
                    assert(ts.drop_first() =~= Seq::<int>::empty());
                    assert(spec_absorb_ts(old(self)@, p0i, p1i, p2i, p3i, ts, horizontal)
                        == spec_absorb_ts(grown, p0i, p1i, p2i, p3i, ts.drop_first(), horizontal));
                    assert(spec_absorb_ts(grown, p0i, p1i, p2i, p3i, ts.drop_first(), horizontal) == grown);
                }
            } else {
                assert(ts.len() == 0);
            }
            return;
        }
        self.absorb_axis_quad(p0, p1, p2, p3, bw, aw, cw, horizontal);
    }

    #[verifier::rlimit(50)]
    fn absorb_axis_quad(&mut self, p0: i64, p1: i64, p2: i64, p3: i64, bw: i128, aw: i128, cw: i128, horizontal: bool)
        requires
            bez_bounded(p0 as int),
            bez_bounded(p1 as int),
            bez_bounded(p2 as int),
            bez_bounded(p3 as int),
            bw as int == 6 * (p0 as int) - 12 * (p1 as int) + 6 * (p2 as int),
            aw as int == -3 * (p0 as int) + 9 * (p1 as int) - 9 * (p2 as int) + 3 * (p3 as int),
            cw as int == 3 * (p1 as int) - 3 * (p0 as int),
            aw != 0,
        ensures
            final(self)@ == spec_absorb_axis(old(self)@, p0 as int, p1 as int, p2 as int, p3 as int, horizontal),
    {
        let ghost ts = spec_axis_ts(p0 as int, p1 as int, p2 as int, p3 as int);
        proof {
            assert(-0x20_0000_0000 <= bw as int <= 0x20_0000_0000);
            assert(-0x8_0000_0000 <= cw as int <= 0x8_0000_0000);
            assert(-0x20_0000_0000 <= aw as int <= 0x20_0000_0000);
            assert(0 <= bw as int * (bw as int) && bw as int * (bw as int) <= 0x4000000000000000000) by (nonlinear_arith)
                requires
                    -0x20_0000_0000 <= bw as int,
                    bw as int <= 0x20_0000_0000;
            assert(-0x1000000000000000000 <= cw as int * (aw as int)
                && cw as int * (aw as int) <= 0x1000000000000000000) by (nonlinear_arith)
                requires
                    -0x8_0000_0000 <= cw as int,
                    cw as int <= 0x8_0000_0000,
                    -0x20_0000_0000 <= aw as int,
                    aw as int <= 0x20_0000_0000;
        }
        let bb: i128 = bw * bw;
        let ca: i128 = cw * aw;
        let b2ac: i128 = bb - 4 * ca;
        if b2ac < 0 {
            assert(ts.len() == 0);
            return;
        }
        proof {
            assert((b2ac as int) * 0x1_0000_0000 <= 0x800000000000000000000000000)
                by (nonlinear_arith)
                requires 0 <= b2ac <= 0x8000000000000000000;
        }
        let scaled: u128 = (b2ac as u128) * 0x1_0000_0000;
        let s: u128 = isqrt_u128(scaled);
        proof {
            assert((s as int) * (s as int) <= (b2ac as int) * 0x1_0000_0000);
            assert(s as int <= 0x40000000000000) by (nonlinear_arith)
                requires (s as int) * (s as int) <= (b2ac as int) * 0x1_0000_0000
                    && 0 <= b2ac as int <= 0x8000000000000000000
                    && s as int >= 0;
        }
        let denom: i128 = 2 * aw;
        let numer1: i128 = -bw * (SCALE_ONE as i128) + (s as i128);
        let numer2: i128 = -bw * (SCALE_ONE as i128) - (s as i128);
        let t1_wide: i128 = div_euclid_i128(numer1, denom);
        let t2_wide: i128 = div_euclid_i128(numer2, denom);
        let ghost sqv = sqrt_floor((b2ac as int) * 0x1_0000_0000);
        let ghost t1 = (-(bw as int) * (SCALE_ONE as int) + sqv) / (2 * (aw as int));
        let ghost t2 = (-(bw as int) * (SCALE_ONE as int) - sqv) / (2 * (aw as int));
        proof {
            assert(t1_wide as int == t1);
            assert(t2_wide as int == t2);
        }
        let one_wide: i128 = SCALE_ONE as i128;
        if 0 < t1_wide && t1_wide < one_wide {
            let t = t1_wide as i64;
            let v = derive(p0, p1, p2, p3, t);
            if horizontal {
                self.add_point_x(v);
            } else {
                self.add_point_y(v);
            }
        }
        if 0 < t2_wide && t2_wide < one_wide {
            let t = t2_wide as i64;
            let v = derive(p0, p1, p2, p3, t);
            if horizontal {
                self.add_point_x(v);
            } else {
                self.add_point_y(v);
            }
        }
        proof {
            let p0i = p0 as int;
            let p1i = p1 as int;
            let p2i = p2 as int;
            let p3i = p3 as int;
            let one = SCALE_ONE as int;
            let first: Seq<int> = if 0 < t1 < one { seq![t1] } else { Seq::<int>::empty() };
            assert(ts == if 0 < t2 < one { first.push(t2) } else { first });
            if 0 < t1 < one {
                let g1 = if horizontal {
                    absorb_x(old(self)@, spec_derive(p0i, p1i, p2i, p3i, t1))
                } else {
                    absorb_y(old(self)@, spec_derive(p0i, p1i, p2i, p3i, t1))
                };
                if 0 < t2 < one {
                    assert(ts =~= seq![t1, t2]);
                    assert(ts.drop_first() =~= seq![t2]);
                    let g2 = if horizontal {
                        absorb_x(g1, spec_derive(p0i, p1i, p2i, p3i, t2))
                    } else {
                        absorb_y(g1, spec_derive(p0i, p1i, p2i, p3i, t2))
                    };
                    assert(ts.drop_first().drop_first() =~= Seq::<int>::empty());
                    assert(spec_absorb_ts(old(self)@, p0i, p1i, p2i, p3i, ts, horizontal)
                        == spec_absorb_ts(g1, p0i, p1i, p2i, p3i, ts.drop_first(), horizontal));
                    assert(spec_absorb_ts(g1, p0i, p1i, p2i, p3i, ts.drop_first(), horizontal)
                        == spec_absorb_ts(g2, p0i, p1i, p2i, p3i, ts.drop_first().drop_first(), horizontal));
                    assert(spec_absorb_ts(g2, p0i, p1i, p2i, p3i, ts.drop_first().drop_first(), horizontal) == g2);
                } else {
                    assert(ts =~= seq![t1]);
                    assert(ts.drop_first() =~= Seq::<int>::empty());
                    assert(spec_absorb_ts(old(self)@, p0i, p1i, p2i, p3i, ts, horizontal)
                        == spec_absorb_ts(g1, p0i, p1i, p2i, p3i, ts.drop_first(), horizontal));
                    assert(spec_absorb_ts(g1, p0i, p1i, p2i, p3i, ts.drop_first(), horizontal) == g1);
                }
            } else {
                if 0 < t2 < one {
                    assert(ts =~= seq![t2]);
                    let g1 = if horizontal {
                        absorb_x(old(self)@, spec_derive(p0i, p1i, p2i, p3i, t2))
                    } else {
                        absorb_y(old(self)@, spec_derive(p0i, p1i, p2i, p3i, t2))
                    };
                    assert(ts.drop_first() =~= Seq::<int>::empty());
                    assert(spec_absorb_ts(old(self)@, p0i, p1i, p2i, p3i, ts, horizontal)
                        == spec_absorb_ts(g1, p0i, p1i, p2i, p3i, ts.drop_first(), horizontal));
                    assert(spec_absorb_ts(g1, p0i, p1i, p2i, p3i, ts.drop_first(), horizontal) == g1);
                } else {
                    assert(ts =~= Seq::<int>::empty());
                }
            }
        }
    }
}

/// The floor two-thirds step `p0 + 2*(p1 - p0)/3` of the quadratic
/// elevation rule.
pub open spec fn spec_two_thirds(d: int) -> int {
    (2 * d) / 3
}

/// The floor third used by the quadratic elevation rule.
pub open spec fn spec_third(d: int) -> int {
    d / 3
}

fn add_two_thirds(p0: i64, p1: i64) -> (r: i64)
    requires
        fx_bounded(p0 as int),
        fx_bounded(p1 as int),
    ensures
        r as int == p0 as int + spec_two_thirds(p1 as int - p0 as int),
        -0x8000_0001 <= r as int <= 0x8000_0000,
{
    let d: i128 = 2 * ((p1 as i128) - (p0 as i128));
    let q: i128 = div_euclid_i128(d, 3);
    proof {
        lemma_fundamental_div_mod(d as int, 3);
        vstd::arithmetic::div_mod::lemma_mod_bound(d as int, 3);
    }
    (p0 as i128 + q) as i64
}

fn add_third(base: i64, p0: i64, p1: i64) -> (r: i64)
    requires
        -0x8000_0001 <= base as int <= 0x8000_0000,
        fx_bounded(p0 as int),
        fx_bounded(p1 as int),
    ensures
        r as int == base as int + spec_third(p1 as int - p0 as int),
        bez_bounded(r as int),
{
    let d: i128 = (p1 as i128) - (p0 as i128);
    let q: i128 = div_euclid_i128(d, 3);
    proof {
        lemma_fundamental_div_mod(d as int, 3);
        vstd::arithmetic::div_mod::lemma_mod_bound(d as int, 3);
    }
    (base as i128 + q) as i64
}


/// State of the bounding-box scan over a path: the box so far, the start
/// point of the current subpath and the previous end point.
pub ghost struct ScanState {
    pub bbox: BoxModel,
    pub sx: int,
    pub sy: int,
    pub px: int,
    pub py: int,
}

/// The initial box of the scan, taken from the first segment: its point
/// for a move or line, its first control point for a curve.
pub open spec fn spec_init_box(seg: PathSegment) -> BoxModel {
    match seg {
        PathSegment::MoveTo { x, y } => BoxModel { x1: x as int, y1: y as int, x2: x as int, y2: y as int },
        PathSegment::LineTo { x, y } => BoxModel { x1: x as int, y1: y as int, x2: x as int, y2: y as int },
        PathSegment::CurveTo { x1, y1, .. } => BoxModel { x1: x1 as int, y1: y1 as int, x2: x1 as int, y2: y1 as int },
        PathSegment::ClosePath => BoxModel { x1: 0, y1: 0, x2: 0, y2: 0 },
    }
}

/// One step of the bounding-box scan.
pub open spec fn spec_scan_step(st: ScanState, seg: PathSegment) -> ScanState {
    match seg {
        PathSegment::MoveTo { x, y } => ScanState {
            bbox: absorb_point(st.bbox, x as int, y as int),
            sx: x as int, sy: y as int, px: x as int, py: y as int,
        },
        PathSegment::LineTo { x, y } => ScanState {
            bbox: absorb_point(st.bbox, x as int, y as int),
            px: x as int, py: y as int, ..st
        },
        PathSegment::CurveTo { x, y, x1, y1, x2, y2 } => ScanState {
            bbox: spec_absorb_bezier(st.bbox, st.px, st.py,
                x1 as int, y1 as int, x2 as int, y2 as int, x as int, y as int),
            px: x as int, py: y as int, ..st
        },
        PathSegment::ClosePath => ScanState { px: st.sx, py: st.sy, ..st },
    }
}

/// The scan state after the first `n` segments, from the given initial
/// state.
pub open spec fn spec_scan_at(segs: Seq<PathSegment>, st0: ScanState, n: int) -> ScanState
    decreases n,
{
    if n <= 0 {
        st0
    } else {
        spec_scan_step(spec_scan_at(segs, st0, n - 1), segs[n - 1])
    }
}

/// The bounding box of a non-empty path whose first segment is not a close
/// instruction.
pub open spec fn spec_path_bbox(segs: Seq<PathSegment>) -> BoxModel {
    spec_scan_at(
        segs,
        ScanState { bbox: spec_init_box(segs[0]), sx: 0, sy: 0, px: 0, py: 0 },
        segs.len() as int,
    ).bbox
}

impl PathData {
    /// The tight bounding box over all subpaths, absorbing for every curve
    /// its analytic extrema; nothing for an empty path or one that starts
    /// with a close instruction.
    pub fn get_bounding_box(&self) -> (r: Option<BoundingBox>)
        requires
            self.all_bounded(),
        ensures
            match r {
                None => self@.len() == 0 || self@[0] is ClosePath,
                Some(b) => self@.len() > 0 && !(self@[0] is ClosePath)
                    && b@ == spec_path_bbox(self@),
            },
    {
        if self.is_empty() {
            return None;
        }
        let first = *self.get(0);
        let mut bbox = match first {
            PathSegment::MoveTo { x, y } => BoundingBox::new(x, y),
            PathSegment::LineTo { x, y } => BoundingBox::new(x, y),
            PathSegment::CurveTo { x1, y1, .. } => BoundingBox::new(x1, y1),
            PathSegment::ClosePath => {
                return None;
            }
        };
        let ghost st0 = ScanState { bbox: spec_init_box(self@[0]), sx: 0, sy: 0, px: 0, py: 0 };
        let mut start_x: i64 = 0;
        let mut start_y: i64 = 0;
        let mut prev_x: i64 = 0;
        let mut prev_y: i64 = 0;
        let mut i: usize = 0;
        while i < self.len()
            invariant
                i <= self@.len(),
                self.all_bounded(),
                ({
                    let st = spec_scan_at(self@, st0, i as int);
                    &&& bbox@ == st.bbox
                    &&& start_x as int == st.sx
                    &&& start_y as int == st.sy
                    &&& prev_x as int == st.px
                    &&& prev_y as int == st.py
                }),
                fx_bounded(prev_x as int) && fx_bounded(prev_y as int),
                fx_bounded(start_x as int) && fx_bounded(start_y as int),
            decreases self@.len() - i,
        {
            let seg = *self.get(i);
            assert(seg_bounded(self@[i as int]));
            match seg {
                PathSegment::MoveTo { x, y } => {
                    bbox.add_point(x, y);
                    start_x = x;
                    prev_x = x;
                    start_y = y;
                    prev_y = y;
                }
                PathSegment::LineTo { x, y } => {
                    bbox.add_point(x, y);
                    prev_x = x;
                    prev_y = y;
                }
                PathSegment::CurveTo { x, y, x1, y1, x2, y2 } => {
                    bbox.add_bezier(prev_x, prev_y, x1, y1, x2, y2, x, y);
                    prev_x = x;
                    prev_y = y;
                }
                PathSegment::ClosePath => {
                    prev_x = start_x;
                    prev_y = start_y;
                }
            }
            proof {
                assert(spec_scan_at(self@, st0, i + 1 as int)
                    == spec_scan_step(spec_scan_at(self@, st0, i as int), self@[i as int]));
            }
            i = i + 1;
        }
        Some(bbox)
    }
}

/// The box `b` widened to contain the box `o`.
pub open spec fn spec_widen(b: BoxModel, o: BoxModel) -> BoxModel {
    BoxModel {
        x1: if o.x1 < b.x1 { o.x1 } else { b.x1 },
        y1: if o.y1 < b.y1 { o.y1 } else { b.y1 },
        x2: if o.x2 > b.x2 { o.x2 } else { b.x2 },
        y2: if o.y2 > b.y2 { o.y2 } else { b.y2 },
    }
}

/// A plain corner-pair box, used to hand box lists across the recording
/// interface.
#[derive(Clone, Copy, PartialEq, Eq, Structural, Debug)]
pub struct BBox {
    x1: i64,
    y1: i64,
    x2: i64,
    y2: i64,
}

impl View for BBox {
    type V = BoxModel;

    closed spec fn view(&self) -> BoxModel {
        BoxModel { x1: self.x1 as int, y1: self.y1 as int, x2: self.x2 as int, y2: self.y2 as int }
    }
}

impl Default for BBox {
    /// The default box sits at the origin with no extent.
    fn default() -> (r: Self)
        ensures
            r@ == (BoxModel { x1: 0, y1: 0, x2: 0, y2: 0 }),
    {
        BBox { x1: 0, y1: 0, x2: 0, y2: 0 }
    }
}

impl BBox {
    /// Constructs a box from its corners.
    pub fn new(x1: i64, y1: i64, x2: i64, y2: i64) -> (r: BBox)
        ensures
            r@ == (BoxModel { x1: x1 as int, y1: y1 as int, x2: x2 as int, y2: y2 as int }),
    {
        BBox { x1, y1, x2, y2 }
    }

    /// The width measured from the origin: the right corner alone.
    pub fn get_width(&self) -> (r: i64)
        ensures
            r as int == self@.x2,
    {
        self.x2
    }

    /// The height measured from the origin: the bottom corner alone.
    pub fn get_height(&self) -> (r: i64)
        ensures
            r as int == self@.y2,
    {
        self.y2
    }

    /// The width between the two corners.
    pub fn get_real_width(&self) -> (r: i64)
        requires
            i64::MIN <= self@.x2 - self@.x1 <= i64::MAX,
        ensures
            r as int == self@.x2 - self@.x1,
    {
        self.x2 - self.x1
    }

    /// The height between the two corners.
    pub fn get_real_height(&self) -> (r: i64)
        requires
            i64::MIN <= self@.y2 - self@.y1 <= i64::MAX,
        ensures
            r as int == self@.y2 - self@.y1,
    {
        self.y2 - self.y1
    }

    /// Orders two boxes by the product of their horizontal corners.
    pub fn compare(&self, b: &Self) -> (r: bool)
        ensures
            r == (self@.x1 * self@.x2 > b@.x1 * b@.x2),
    {
        proof {
            assert(-0x4000_0000_0000_0000_0000_0000_0000_0000
                <= (self.x1 as int) * (self.x2 as int) <= 0x4000_0000_0000_0000_0000_0000_0000_0000
                && -0x4000_0000_0000_0000_0000_0000_0000_0000
                <= (b.x1 as int) * (b.x2 as int) <= 0x4000_0000_0000_0000_0000_0000_0000_0000)
                by (nonlinear_arith)
                requires
                    i64::MIN <= self.x1 <= i64::MAX,
                    i64::MIN <= self.x2 <= i64::MAX,
                    i64::MIN <= b.x1 <= i64::MAX,
                    i64::MIN <= b.x2 <= i64::MAX;
        }
        let lhs: i128 = (self.x1 as i128) * (self.x2 as i128);
        let rhs: i128 = (b.x1 as i128) * (b.x2 as i128);
        lhs > rhs
    }

    /// The corners as bracketed text `[x1,y1,x2,y2]`.
    pub fn to_text(&self) -> (r: String)
        ensures
            r@ == "["@ + dec_int(self@.x1) + ","@ + dec_int(self@.y1) + ","@
                + dec_int(self@.x2) + ","@ + dec_int(self@.y2) + "]"@,
    {
        proof {
            reveal_strlit("[");
            reveal_strlit(",");
            reveal_strlit("]");
        }
        let mut s = "[".to_owned();
        let a = i64_to_dec(self.x1);
        s.append(a.as_str());
        s.append(",");
        let b = i64_to_dec(self.y1);
        s.append(b.as_str());
        s.append(",");
        let c = i64_to_dec(self.x2);
        s.append(c.as_str());
        s.append(",");
        let d = i64_to_dec(self.y2);
        s.append(d.as_str());
        s.append("]");
        s
    }

    /// The corners as a flat array `[x1, y1, x2, y2]`.
    pub fn to_array(&self) -> (r: Vec<i64>)
        ensures
            r@.len() == 4,
            r@[0] as int == self@.x1 && r@[1] as int == self@.y1,
            r@[2] as int == self@.x2 && r@[3] as int == self@.y2,
    {
        let mut v = Vec::<i64>::new();
        v.push(self.x1);
        v.push(self.y1);
        v.push(self.x2);
        v.push(self.y2);
        v
    }
}

/// The total box of the first `n` boxes of the list, grown from the first
/// box of the list.
pub open spec fn spec_total_at(bs: Seq<BBox>, n: int) -> BoxModel
    decreases n,
{
    if n <= 0 {
        bs[0]@
    } else {
        spec_widen(spec_total_at(bs, n - 1), bs[n - 1]@)
    }
}

/// An ordered list of plain boxes.
#[derive(Clone, Debug)]
pub struct BBoxes(Vec<BBox>);

impl View for BBoxes {
    type V = Seq<BBox>;

    closed spec fn view(&self) -> Seq<BBox> {
        self.0@
    }
}

impl BBoxes {
    /// Constructs an empty list.
    pub fn new() -> (r: Self)
        ensures
            r@ == Seq::<BBox>::empty(),
    {
        BBoxes(Vec::<BBox>::new())
    }

    /// The number of boxes.
    pub fn len(&self) -> (r: usize)
        ensures
            r == self@.len(),
    {
        self.0.len()
    }

    /// The box at the given position.
    pub fn get(&self, i: usize) -> (r: &BBox)
        requires
            i < self@.len(),
        ensures
            *r == self@[i as int],
    {
        &self.0[i]
    }

    /// Appends a box.
    pub fn push(&mut self, b: BBox)
        ensures
            final(self)@ == old(self)@.push(b),
    {
        self.0.push(b);
    }

    /// The list as one flat array: the box count, then each box's four
    /// corners.
    pub fn to_array(&self) -> (r: Vec<i64>)
        requires
            self@.len() <= i64::MAX,
        ensures
            r@.len() == 1 + 4 * self@.len(),
            r@[0] == self@.len() as i64,
            forall|k: int| 0 <= k < self@.len() ==> {
                &&& r@[1 + 4 * k] as int == (#[trigger] self@[k])@.x1
                &&& r@[2 + 4 * k] as int == self@[k]@.y1
                &&& r@[3 + 4 * k] as int == self@[k]@.x2
                &&& r@[4 + 4 * k] as int == self@[k]@.y2
            },
    {
        let mut result = Vec::<i64>::new();
        let n = self.0.len();
        result.push(n as i64);
        let mut i: usize = 0;
        while i < n
            invariant
                i <= n,
                self@.len() == n <= i64::MAX,
                result@.len() == 1 + 4 * i,
                result@[0] == n as i64,
                forall|k: int| 0 <= k < i ==> {
                    &&& result@[1 + 4 * k] as int == (#[trigger] self@[k])@.x1
                    &&& result@[2 + 4 * k] as int == self@[k]@.y1
                    &&& result@[3 + 4 * k] as int == self@[k]@.x2
                    &&& result@[4 + 4 * k] as int == self@[k]@.y2
                },
            decreases n - i,
        {
            let b = self.0[i];
            result.push(b.x1);
            result.push(b.y1);
            result.push(b.x2);
            result.push(b.y2);
            i = i + 1;
        }
        result
    }

    /// The smallest box containing every box of the list, grown from the
    /// first; the zero box for an empty list.
    pub fn get_total_box(&self) -> (r: BBox)
        ensures
            r@ == if self@.len() > 0 {
                spec_total_at(self@, self@.len() as int)
            } else {
                BoxModel { x1: 0, y1: 0, x2: 0, y2: 0 }
            },
    {
        if self.0.len() == 0 {
            return BBox::default();
        }
        let mut b_box = self.0[0];
        let mut i: usize = 0;
        while i < self.0.len()
            invariant
                self@.len() > 0,
                i <= self@.len(),
                b_box@ == spec_total_at(self@, i as int),
            decreases self@.len() - i,
        {
            let item = self.0[i];
            if item.x1 < b_box.x1 {
                b_box.x1 = item.x1
            }
            if item.y1 < b_box.y1 {
                b_box.y1 = item.y1
            }
            if item.x2 > b_box.x2 {
                b_box.x2 = item.x2
            }
            if item.y2 > b_box.y2 {
                b_box.y2 = item.y2
            }
            i = i + 1;
        }
        b_box
    }
}

} // verus!
