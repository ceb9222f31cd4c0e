//! 2D affine transforms.
//!
//! A transform holds six raw fixed-point scalars `(a, b, c, d, e, f)` and
//! maps a point by `(x, y) -> (a*x + c*y + e, b*x + d*y + f)`, where each
//! product of raw values is floor-rescaled (see [`crate::fixed`]).  `append`
//! post-multiplies (applies the other transform after this one), `prepend`
//! pre-multiplies, and the identity is `(1, 0, 0, 1, 0, 0)` in units
//! (`SCALE_ONE` raw).

use vstd::prelude::*;
use vstd::arithmetic::div_mod::{lemma_div_multiples_vanish, lemma_mod_multiples_basic, lemma_div_is_ordered, lemma_fundamental_div_mod};
use crate::fixed::{SCALE_ONE, fx_bounded, fx_mul, fx_mul_i64};

verus! {

/// Mathematical model of a transform: the six raw scalars as unbounded
/// integers.
pub ghost struct TransformModel {
    pub a: int,
    pub b: int,
    pub c: int,
    pub d: int,
    pub e: int,
    pub f: int,
}

/// The model of a translation by raw `(x, y)`.
pub open spec fn translate_model(x: int, y: int) -> TransformModel {
    TransformModel { a: SCALE_ONE as int, b: 0, c: 0, d: SCALE_ONE as int, e: x, f: y }
}

/// The model of a scaling by raw factors `(sx, sy)`.
pub open spec fn scale_model(sx: int, sy: int) -> TransformModel {
    TransformModel { a: sx, b: 0, c: 0, d: sy, e: 0, f: 0 }
}

/// The model of a rotation with raw cosine and sine `(cos_v, sin_v)`.
pub open spec fn rotate_model(cos_v: int, sin_v: int) -> TransformModel {
    TransformModel { a: cos_v, b: sin_v, c: -sin_v, d: cos_v, e: 0, f: 0 }
}

/// The identity model.
pub open spec fn spec_identity() -> TransformModel {
    translate_model(0, 0)
}

/// Entry-wise product `m1 * m2` of two transform models.  Applying the
/// product to a point applies `m2` first and `m1` second
/// (see [`lemma_multiply_then_apply`]).
pub open spec fn spec_multiply(m1: TransformModel, m2: TransformModel) -> TransformModel {
    TransformModel {
        a: fx_mul(m1.a, m2.a) + fx_mul(m1.c, m2.b),
        b: fx_mul(m1.b, m2.a) + fx_mul(m1.d, m2.b),
        c: fx_mul(m1.a, m2.c) + fx_mul(m1.c, m2.d),
        d: fx_mul(m1.b, m2.c) + fx_mul(m1.d, m2.d),
        e: fx_mul(m1.a, m2.e) + fx_mul(m1.c, m2.f) + m1.e,
        f: fx_mul(m1.b, m2.e) + fx_mul(m1.d, m2.f) + m1.f,
    }
}

/// The x coordinate of the point `(x, y)` mapped by the model `m`.
pub open spec fn spec_apply_x(m: TransformModel, x: int, y: int) -> int {
    fx_mul(m.a, x) + fx_mul(m.c, y) + m.e
}

/// The y coordinate of the point `(x, y)` mapped by the model `m`.
pub open spec fn spec_apply_y(m: TransformModel, x: int, y: int) -> int {
    fx_mul(m.b, x) + fx_mul(m.d, y) + m.f
}

/// The linear part of the model consists of whole units, so its products
/// rescale without loss.  Translations, whole-unit scalings and quarter-turn
/// rotations are all of this kind.
pub open spec fn integral_linear(m: TransformModel) -> bool {
    &&& m.a % (SCALE_ONE as int) == 0
    &&& m.b % (SCALE_ONE as int) == 0
    &&& m.c % (SCALE_ONE as int) == 0
    &&& m.d % (SCALE_ONE as int) == 0
}

/// Bound on the translation scalars of the left factor of a product: they
/// are only added, never multiplied, so they may exceed the fixed-point
/// limit by far without overflowing the product.
pub const TRANS_SAFE: i64 = 0x4000_0000_0000_0000;

/// Translation bound of a well-formed recording state; leaves headroom so
/// that a further composition stays below `TRANS_SAFE`.
pub const TRANS_LIMIT: i64 = 0x0100_0000_0000_0000;

/// Bound on the linear scalars under which appending a rotation keeps them
/// within the fixed-point range.
pub const LINEAR_HEADROOM: i64 = 0x4000_0000;

/// 2D affine transform over raw fixed-point scalars.
#[derive(Clone, Copy, PartialEq, Eq, Structural, Debug)]
pub struct Transform {
    pub a: i64,
    pub b: i64,
    pub c: i64,
    pub d: i64,
    pub e: i64,
    pub f: i64,
}

impl View for Transform {
    type V = TransformModel;

    open spec fn view(&self) -> TransformModel {
        TransformModel {
            a: self.a as int,
            b: self.b as int,
            c: self.c as int,
            d: self.d as int,
            e: self.e as int,
            f: self.f as int,
        }
    }
}

impl Transform {
    /// The linear scalars are within the range the fixed-point routines
    /// accept.
    pub open spec fn linear_bounded(self) -> bool {
        &&& fx_bounded(self.a as int)
        &&& fx_bounded(self.b as int)
        &&& fx_bounded(self.c as int)
        &&& fx_bounded(self.d as int)
    }

    /// All six scalars are within the range the fixed-point routines accept;
    /// required of the right factor of a product, whose scalars all get
    /// multiplied.
    pub open spec fn strictly_bounded(self) -> bool {
        &&& self.linear_bounded()
        &&& fx_bounded(self.e as int)
        &&& fx_bounded(self.f as int)
    }

    /// The transform may stand as the left factor of a product: linear
    /// scalars within the fixed-point range, translation scalars merely
    /// small enough that adding them cannot overflow.
    pub open spec fn lhs_ok(self) -> bool {
        &&& self.linear_bounded()
        &&& -(TRANS_SAFE as int) <= self.e as int <= TRANS_SAFE as int
        &&& -(TRANS_SAFE as int) <= self.f as int <= TRANS_SAFE as int
    }

    /// Well-formed recording state: as `lhs_ok`, with headroom for a
    /// further composition.
    pub open spec fn bounded(self) -> bool {
        &&& self.linear_bounded()
        &&& -(TRANS_LIMIT as int) <= self.e as int <= TRANS_LIMIT as int
        &&& -(TRANS_LIMIT as int) <= self.f as int <= TRANS_LIMIT as int
    }

    /// Runtime test for `strictly_bounded`.
    pub fn is_strictly_bounded(&self) -> (r: bool)
        ensures
            r == self.strictly_bounded(),
    {
        -0x8000_0000 <= self.a && self.a <= 0x8000_0000
            && -0x8000_0000 <= self.b && self.b <= 0x8000_0000
            && -0x8000_0000 <= self.c && self.c <= 0x8000_0000
            && -0x8000_0000 <= self.d && self.d <= 0x8000_0000
            && -0x8000_0000 <= self.e && self.e <= 0x8000_0000
            && -0x8000_0000 <= self.f && self.f <= 0x8000_0000
    }

    /// Runtime test for `lhs_ok`.
    pub fn is_lhs_ok_exec(&self) -> (r: bool)
        ensures
            r == self.lhs_ok(),
    {
        -0x8000_0000 <= self.a && self.a <= 0x8000_0000
            && -0x8000_0000 <= self.b && self.b <= 0x8000_0000
            && -0x8000_0000 <= self.c && self.c <= 0x8000_0000
            && -0x8000_0000 <= self.d && self.d <= 0x8000_0000
            && -TRANS_SAFE <= self.e && self.e <= TRANS_SAFE
            && -TRANS_SAFE <= self.f && self.f <= TRANS_SAFE
    }

    /// Runtime test for `bounded`.
    pub fn is_bounded(&self) -> (r: bool)
        ensures
            r == self.bounded(),
    {
        -0x8000_0000 <= self.a && self.a <= 0x8000_0000
            && -0x8000_0000 <= self.b && self.b <= 0x8000_0000
            && -0x8000_0000 <= self.c && self.c <= 0x8000_0000
            && -0x8000_0000 <= self.d && self.d <= 0x8000_0000
            && -TRANS_LIMIT <= self.e && self.e <= TRANS_LIMIT
            && -TRANS_LIMIT <= self.f && self.f <= TRANS_LIMIT
    }

    /// Constructs a new transform.
    pub fn new(a: i64, b: i64, c: i64, d: i64, e: i64, f: i64) -> (r: Self)
        ensures
            r@ == (TransformModel { a: a as int, b: b as int, c: c as int, d: d as int, e: e as int, f: f as int }),
    {
        Transform { a, b, c, d, e, f }
    }

    /// Constructs a new translate transform.
    pub fn new_translate(x: i64, y: i64) -> (r: Self)
        ensures
            r@ == translate_model(x as int, y as int),
    {
        Transform::new(SCALE_ONE, 0, 0, SCALE_ONE, x, y)
    }

    /// Constructs a new scale transform from raw scale factors.
    pub fn new_scale(sx: i64, sy: i64) -> (r: Self)
        ensures
            r@ == scale_model(sx as int, sy as int),
    {
        Transform::new(sx, 0, 0, sy, 0, 0)
    }

    /// Constructs a new rotate transform from the raw cosine and sine of
    /// the angle; the caller supplies the trigonometric values.
    pub fn new_rotate(cos_v: i64, sin_v: i64) -> (r: Self)
        requires
            fx_bounded(sin_v as int),
        ensures
            r@ == rotate_model(cos_v as int, sin_v as int),
    {
        Transform::new(cos_v, sin_v, -sin_v, cos_v, 0, 0)
    }

    /// Constructs a new rotate transform about the given position, from the
    /// raw cosine and sine of the angle.
    pub fn new_rotate_at(cos_v: i64, sin_v: i64, x: i64, y: i64) -> (r: Self)
        requires
            -(SCALE_ONE as int) <= cos_v as int <= SCALE_ONE as int,
            -(SCALE_ONE as int) <= sin_v as int <= SCALE_ONE as int,
            fx_bounded(x as int),
            fx_bounded(y as int),
        ensures
            r@ == spec_multiply(
                spec_multiply(translate_model(x as int, y as int), rotate_model(cos_v as int, sin_v as int)),
                translate_model(-(x as int), -(y as int)),
            ),
    {
        let mut ts = Transform::identity();
        ts.translate(x, y);
        proof {
            lemma_identity_multiply(translate_model(x as int, y as int));
        }
        ts.rotate(cos_v, sin_v);
        proof {
            lemma_translate_multiply(x as int, y as int, rotate_model(cos_v as int, sin_v as int));
        }
        ts.translate(-x, -y);
        ts
    }

    /// Constructs a new skew transform along the X axis, from the raw
    /// tangent of the angle.
    pub fn new_skew_x(tan_v: i64) -> (r: Self)
        ensures
            r@ == (TransformModel { a: SCALE_ONE as int, b: 0, c: tan_v as int, d: SCALE_ONE as int, e: 0, f: 0 }),
    {
        Transform::new(SCALE_ONE, 0, tan_v, SCALE_ONE, 0, 0)
    }

    /// Constructs a new skew transform along the Y axis, from the raw
    /// tangent of the angle.
    pub fn new_skew_y(tan_v: i64) -> (r: Self)
        ensures
            r@ == (TransformModel { a: SCALE_ONE as int, b: tan_v as int, c: 0, d: SCALE_ONE as int, e: 0, f: 0 }),
    {
        Transform::new(SCALE_ONE, tan_v, 0, SCALE_ONE, 0, 0)
    }

    /// The identity transform.
    pub fn identity() -> (r: Self)
        ensures
            r@ == spec_identity(),
    {
        Transform::new(SCALE_ONE, 0, 0, SCALE_ONE, 0, 0)
    }

    /// Translates the current transform.
    pub fn translate(&mut self, x: i64, y: i64)
        requires
            old(self).lhs_ok(),
            fx_bounded(x as int),
            fx_bounded(y as int),
        ensures
            final(self)@ == spec_multiply(old(self)@, translate_model(x as int, y as int)),
    {
        let other = Transform::new_translate(x, y);
        self.append(&other);
    }

    /// Scales the current transform by raw scale factors.
    pub fn scale(&mut self, sx: i64, sy: i64)
        requires
            old(self).lhs_ok(),
            fx_bounded(sx as int),
            fx_bounded(sy as int),
        ensures
            final(self)@ == spec_multiply(old(self)@, scale_model(sx as int, sy as int)),
    {
        let other = Transform::new_scale(sx, sy);
        self.append(&other);
    }

    /// Rotates the current transform, given the raw cosine and sine of the
    /// angle.
    pub fn rotate(&mut self, cos_v: i64, sin_v: i64)
        requires
            old(self).lhs_ok(),
            fx_bounded(cos_v as int),
            fx_bounded(sin_v as int),
        ensures
            final(self)@ == spec_multiply(old(self)@, rotate_model(cos_v as int, sin_v as int)),
    {
        let other = Transform::new_rotate(cos_v, sin_v);
        self.append(&other);
    }

    /// Rotates the current transform about the given position.  The linear
    /// scalars need headroom because a rotation mixes two of them into each
    /// result scalar.
    pub fn rotate_at(&mut self, cos_v: i64, sin_v: i64, x: i64, y: i64)
        requires
            -(LINEAR_HEADROOM as int) <= old(self).a as int <= LINEAR_HEADROOM as int,
            -(LINEAR_HEADROOM as int) <= old(self).b as int <= LINEAR_HEADROOM as int,
            -(LINEAR_HEADROOM as int) <= old(self).c as int <= LINEAR_HEADROOM as int,
            -(LINEAR_HEADROOM as int) <= old(self).d as int <= LINEAR_HEADROOM as int,
            -(TRANS_LIMIT as int) <= old(self).e as int <= TRANS_LIMIT as int,
            -(TRANS_LIMIT as int) <= old(self).f as int <= TRANS_LIMIT as int,
            -(SCALE_ONE as int) <= cos_v as int <= SCALE_ONE as int,
            -(SCALE_ONE as int) <= sin_v as int <= SCALE_ONE as int,
            fx_bounded(x as int),
            fx_bounded(y as int),
        ensures
            final(self)@ == spec_multiply(
                spec_multiply(
                    spec_multiply(old(self)@, translate_model(x as int, y as int)),
                    rotate_model(cos_v as int, sin_v as int),
                ),
                translate_model(-(x as int), -(y as int)),
            ),
    {
        self.translate(x, y);
        proof {
            lemma_multiply_translate_right(old(self)@, x as int, y as int);
        }
        self.rotate(cos_v, sin_v);
        proof {
            let t1 = spec_multiply(old(self)@, translate_model(x as int, y as int));
            lemma_multiply_rotate_right(t1, cos_v as int, sin_v as int);
        }
        self.translate(-x, -y);
    }

    /// Skews the current transform along the X axis, given the raw tangent.
    pub fn skew_x(&mut self, tan_v: i64)
        requires
            old(self).lhs_ok(),
            fx_bounded(tan_v as int),
        ensures
            final(self)@ == spec_multiply(old(self)@, TransformModel { a: SCALE_ONE as int, b: 0, c: tan_v as int, d: SCALE_ONE as int, e: 0, f: 0 }),
    {
        let other = Transform::new_skew_x(tan_v);
        self.append(&other);
    }

    /// Skews the current transform along the Y axis, given the raw tangent.
    pub fn skew_y(&mut self, tan_v: i64)
        requires
            old(self).lhs_ok(),
            fx_bounded(tan_v as int),
        ensures
            final(self)@ == spec_multiply(old(self)@, TransformModel { a: SCALE_ONE as int, b: tan_v as int, c: 0, d: SCALE_ONE as int, e: 0, f: 0 }),
    {
        let other = Transform::new_skew_y(tan_v);
        self.append(&other);
    }

    /// Appends `other` to the current transform: `other` is applied after
    /// the transforms already recorded in `self`.
    pub fn append(&mut self, other: &Transform)
        requires
            old(self).lhs_ok(),
            other.strictly_bounded(),
        ensures
            final(self)@ == spec_multiply(old(self)@, other@),
    {
        let ts = multiply(self, other);
        self.a = ts.a;
        self.b = ts.b;
        self.c = ts.c;
        self.d = ts.d;
        self.e = ts.e;
        self.f = ts.f;
    }

    /// Prepends `other` to the current transform: `other` is applied before
    /// the transforms already recorded in `self`.
    pub fn prepend(&mut self, other: &Transform)
        requires
            old(self).strictly_bounded(),
            other.lhs_ok(),
        ensures
            final(self)@ == spec_multiply(other@, old(self)@),
    {
        let ts = multiply(other, self);
        self.a = ts.a;
        self.b = ts.b;
        self.c = ts.c;
        self.d = ts.d;
        self.e = ts.e;
        self.f = ts.f;
    }

    /// Returns the transform's scale part: the floor square roots of the
    /// squared lengths of the two column vectors, in raw steps.
    pub fn get_scale(&self) -> (r: (i64, i64))
        requires
            self.linear_bounded(),
        ensures
            r.0 as int == crate::bbox::sqrt_floor(self@.a * self@.a + self@.c * self@.c),
            r.1 as int == crate::bbox::sqrt_floor(self@.b * self@.b + self@.d * self@.d),
    {
        proof {
            assert(0 <= self.a as int * (self.a as int) <= 0x4000_0000_0000_0000
                && 0 <= self.b as int * (self.b as int) <= 0x4000_0000_0000_0000
                && 0 <= self.c as int * (self.c as int) <= 0x4000_0000_0000_0000
                && 0 <= self.d as int * (self.d as int) <= 0x4000_0000_0000_0000)
                by (nonlinear_arith)
                requires
                    fx_bounded(self.a as int),
                    fx_bounded(self.b as int),
                    fx_bounded(self.c as int),
                    fx_bounded(self.d as int);
        }
        let xx: u128 = ((self.a as i128) * (self.a as i128)) as u128;
        let cc: u128 = ((self.c as i128) * (self.c as i128)) as u128;
        let yy: u128 = ((self.b as i128) * (self.b as i128)) as u128;
        let dd: u128 = ((self.d as i128) * (self.d as i128)) as u128;
        let sx = crate::bbox::isqrt_u128(xx + cc);
        let sy = crate::bbox::isqrt_u128(yy + dd);
        proof {
            lemma_sqrt_fits_i64(xx as int + cc as int, sx as int);
            lemma_sqrt_fits_i64(yy as int + dd as int, sy as int);
        }
        (sx as i64, sy as i64)
    }

    /// Returns the transform's translate part.
    pub fn get_translate(&self) -> (r: (i64, i64))
        ensures
            r.0 as int == self@.e,
            r.1 as int == self@.f,
    {
        (self.e, self.f)
    }

    /// Applies the transform to the given raw coordinates.
    pub fn apply(&self, x: i64, y: i64) -> (r: (i64, i64))
        requires
            self.lhs_ok(),
            fx_bounded(x as int),
            fx_bounded(y as int),
        ensures
            r.0 as int == spec_apply_x(self@, x as int, y as int),
            r.1 as int == spec_apply_y(self@, x as int, y as int),
    {
        let new_x = fx_mul_i64(self.a, x) + fx_mul_i64(self.c, y) + self.e;
        let new_y = fx_mul_i64(self.b, x) + fx_mul_i64(self.d, y) + self.f;
        (new_x, new_y)
    }

    /// Applies the transform to the given raw coordinates in place.
    pub fn apply_to(&self, x: &mut i64, y: &mut i64)
        requires
            self.lhs_ok(),
            fx_bounded(*old(x) as int),
            fx_bounded(*old(y) as int),
        ensures
            *final(x) as int == spec_apply_x(self@, *old(x) as int, *old(y) as int),
            *final(y) as int == spec_apply_y(self@, *old(x) as int, *old(y) as int),
    {
        let tx = *x;
        let ty = *y;
        let (nx, ny) = self.apply(tx, ty);
        *x = nx;
        *y = ny;
    }
}

impl Default for Transform {
    /// The default transform is the identity.
    fn default() -> (r: Self)
        ensures
            r@ == spec_identity(),
    {
        Transform::identity()
    }
}

fn multiply(ts1: &Transform, ts2: &Transform) -> (r: Transform)
    requires
        ts1.lhs_ok(),
        ts2.strictly_bounded(),
    ensures
        r@ == spec_multiply(ts1@, ts2@),
{
    Transform {
        a: fx_mul_i64(ts1.a, ts2.a) + fx_mul_i64(ts1.c, ts2.b),
        b: fx_mul_i64(ts1.b, ts2.a) + fx_mul_i64(ts1.d, ts2.b),
        c: fx_mul_i64(ts1.a, ts2.c) + fx_mul_i64(ts1.c, ts2.d),
        d: fx_mul_i64(ts1.b, ts2.c) + fx_mul_i64(ts1.d, ts2.d),
        e: fx_mul_i64(ts1.a, ts2.e) + fx_mul_i64(ts1.c, ts2.f) + ts1.e,
        f: fx_mul_i64(ts1.b, ts2.e) + fx_mul_i64(ts1.d, ts2.f) + ts1.f,
    }
}

/// The floor square root of a sum of two squares of values within the
/// fixed-point range fits a signed 64-bit value.
proof fn lemma_sqrt_fits_i64(n: int, r: int)
    requires
        0 <= n <= 0x8000_0000_0000_0000,
        r >= 0,
        r * r <= n,
    ensures
        r <= 0x1_0000_0000,
{
    if r > 0x1_0000_0000 {
        assert(r * r > 0x8000_0000_0000_0000) by (nonlinear_arith)
            requires r > 0x1_0000_0000;
        assert(false);
    }
}

/// Multiplying on the left by the identity returns the other model.
pub proof fn lemma_identity_multiply(m: TransformModel)
    ensures
        spec_multiply(spec_identity(), m) == m,
{
    lemma_fx_mul_one(m.a);
    lemma_fx_mul_one(m.b);
    lemma_fx_mul_one(m.c);
    lemma_fx_mul_one(m.d);
    lemma_fx_mul_one(m.e);
    lemma_fx_mul_one(m.f);
}

/// Multiplying on the left by a translation adds its offsets to the other
/// model's translation scalars.
pub proof fn lemma_translate_multiply(x: int, y: int, m: TransformModel)
    ensures
        spec_multiply(translate_model(x, y), m) == (TransformModel { e: m.e + x, f: m.f + y, ..m }),
{
    lemma_fx_mul_one(m.a);
    lemma_fx_mul_one(m.b);
    lemma_fx_mul_one(m.c);
    lemma_fx_mul_one(m.d);
    lemma_fx_mul_one(m.e);
    lemma_fx_mul_one(m.f);
}

/// Multiplying on the right by a translation keeps the linear scalars and
/// moves the translation by a bounded amount.
proof fn lemma_multiply_translate_right(m: TransformModel, x: int, y: int)
    requires
        fx_bounded(m.a),
        fx_bounded(m.b),
        fx_bounded(m.c),
        fx_bounded(m.d),
        fx_bounded(x),
        fx_bounded(y),
    ensures
        ({
            let r = spec_multiply(m, translate_model(x, y));
            r.a == m.a && r.b == m.b && r.c == m.c && r.d == m.d
                && m.e - 0x8000_0000_0000 <= r.e <= m.e + 0x8000_0000_0000
                && m.f - 0x8000_0000_0000 <= r.f <= m.f + 0x8000_0000_0000
        }),
{
    lemma_fx_mul_one(m.a);
    lemma_fx_mul_one(m.b);
    lemma_fx_mul_one(m.c);
    lemma_fx_mul_one(m.d);
    lemma_fx_mul_bounded(m.a, x);
    lemma_fx_mul_bounded(m.c, y);
    lemma_fx_mul_bounded(m.b, x);
    lemma_fx_mul_bounded(m.d, y);
}

/// Multiplying on the right by a rotation whose sine and cosine are at most
/// one unit keeps the linear scalars within the fixed-point range (given
/// headroom) and keeps the translation scalars.
proof fn lemma_multiply_rotate_right(m: TransformModel, cos_v: int, sin_v: int)
    requires
        -(LINEAR_HEADROOM as int) <= m.a <= LINEAR_HEADROOM as int,
        -(LINEAR_HEADROOM as int) <= m.b <= LINEAR_HEADROOM as int,
        -(LINEAR_HEADROOM as int) <= m.c <= LINEAR_HEADROOM as int,
        -(LINEAR_HEADROOM as int) <= m.d <= LINEAR_HEADROOM as int,
        -(SCALE_ONE as int) <= cos_v <= SCALE_ONE as int,
        -(SCALE_ONE as int) <= sin_v <= SCALE_ONE as int,
    ensures
        ({
            let r = spec_multiply(m, rotate_model(cos_v, sin_v));
            fx_bounded(r.a) && fx_bounded(r.b) && fx_bounded(r.c) && fx_bounded(r.d)
                && r.e == m.e && r.f == m.f
        }),
{
    lemma_fx_mul_unit_factor(m.a, cos_v);
    lemma_fx_mul_unit_factor(m.b, cos_v);
    lemma_fx_mul_unit_factor(m.c, cos_v);
    lemma_fx_mul_unit_factor(m.d, cos_v);
    lemma_fx_mul_unit_factor(m.a, sin_v);
    lemma_fx_mul_unit_factor(m.b, sin_v);
    lemma_fx_mul_unit_factor(m.c, sin_v);
    lemma_fx_mul_unit_factor(m.d, sin_v);
    lemma_fx_mul_unit_factor(m.a, -sin_v);
    lemma_fx_mul_unit_factor(m.b, -sin_v);
    lemma_fx_mul_unit_factor(m.c, -sin_v);
    lemma_fx_mul_unit_factor(m.d, -sin_v);
}

/// Multiplying a raw value by one unit returns it unchanged.
pub proof fn lemma_fx_mul_one(x: int)
    ensures
        fx_mul(x, SCALE_ONE as int) == x,
        fx_mul(SCALE_ONE as int, x) == x,
{
    assert((x * 65536) / 65536 == x) by (nonlinear_arith);
    assert((65536 * x) / 65536 == x) by (nonlinear_arith);
}

/// The product of two values within the fixed-point range rescales to a
/// value of at most `2^46`.
pub proof fn lemma_fx_mul_bounded(x: int, y: int)
    requires
        fx_bounded(x),
        fx_bounded(y),
    ensures
        -0x4000_0000_0000 <= fx_mul(x, y) <= 0x4000_0000_0000,
{
    assert(-0x4000_0000_0000_0000 <= x * y <= 0x4000_0000_0000_0000) by (nonlinear_arith)
        requires fx_bounded(x) && fx_bounded(y);
    lemma_div_is_ordered(-0x4000_0000_0000_0000, x * y, 65536);
    lemma_div_is_ordered(x * y, 0x4000_0000_0000_0000, 65536);
    assert((-0x4000_0000_0000_0000) / 65536int == -0x4000_0000_0000);
    assert(0x4000_0000_0000_0000int / 65536int == 0x4000_0000_0000);
}

/// Rescaled product of a value with headroom and a factor of at most one
/// unit stays within the fixed-point range.
proof fn lemma_fx_mul_unit_factor(x: int, y: int)
    requires
        -(LINEAR_HEADROOM as int) <= x <= LINEAR_HEADROOM as int,
        -(SCALE_ONE as int) <= y <= SCALE_ONE as int,
    ensures
        -0x4000_0000 <= fx_mul(x, y) <= 0x4000_0000,
{
    assert((-0x4000_0000) * 65536int <= x * y <= 0x4000_0000int * 65536) by (nonlinear_arith)
        requires -0x4000_0000 <= x <= 0x4000_0000 && -65536 <= y <= 65536;
    lemma_div_is_ordered((-0x4000_0000) * 65536int, x * y, 65536);
    lemma_div_is_ordered(x * y, 0x4000_0000int * 65536, 65536);
    assert(((-0x4000_0000) * 65536int) / 65536 == -0x4000_0000) by (nonlinear_arith);
    assert((0x4000_0000int * 65536) / 65536 == 0x4000_0000) by (nonlinear_arith);
}

/// A product of a whole-unit value rescales without loss.
pub proof fn lemma_fx_mul_exact(x: int, y: int)
    requires
        x % (SCALE_ONE as int) == 0,
    ensures
        fx_mul(x, y) == (x / (SCALE_ONE as int)) * y,
{
    let k = x / 65536int;
    lemma_fundamental_div_mod(x, 65536);
    assert(x == 65536 * k);
    assert(x * y == 65536 * (k * y)) by (nonlinear_arith)
        requires x == 65536 * k;
    lemma_div_multiples_vanish(k * y, 65536);
}

/// The product of two models with whole-unit linear parts has a whole-unit
/// linear part again: the class of such transforms is closed under
/// composition.
pub proof fn lemma_multiply_integral(m1: TransformModel, m2: TransformModel)
    requires
        integral_linear(m1),
        integral_linear(m2),
    ensures
        integral_linear(spec_multiply(m1, m2)),
{
    let one = SCALE_ONE as int;
    let a1 = m1.a / one;
    let b1 = m1.b / one;
    let c1 = m1.c / one;
    let d1 = m1.d / one;
    let a2 = m2.a / one;
    let b2 = m2.b / one;
    let c2 = m2.c / one;
    let d2 = m2.d / one;
    lemma_fx_mul_exact(m1.a, m2.a);
    lemma_fx_mul_exact(m1.c, m2.b);
    lemma_fx_mul_exact(m1.b, m2.a);
    lemma_fx_mul_exact(m1.d, m2.b);
    lemma_fx_mul_exact(m1.a, m2.c);
    lemma_fx_mul_exact(m1.c, m2.d);
    lemma_fx_mul_exact(m1.b, m2.c);
    lemma_fx_mul_exact(m1.d, m2.d);
    lemma_fundamental_div_mod(m1.a, one);
    lemma_fundamental_div_mod(m1.b, one);
    lemma_fundamental_div_mod(m1.c, one);
    lemma_fundamental_div_mod(m1.d, one);
    lemma_fundamental_div_mod(m2.a, one);
    lemma_fundamental_div_mod(m2.b, one);
    lemma_fundamental_div_mod(m2.c, one);
    lemma_fundamental_div_mod(m2.d, one);
    assert(a1 * (one * a2) + c1 * (one * b2) == one * (a1 * a2 + c1 * b2)) by (nonlinear_arith);
    assert(b1 * (one * a2) + d1 * (one * b2) == one * (b1 * a2 + d1 * b2)) by (nonlinear_arith);
    assert(a1 * (one * c2) + c1 * (one * d2) == one * (a1 * c2 + c1 * d2)) by (nonlinear_arith);
    assert(b1 * (one * c2) + d1 * (one * d2) == one * (b1 * c2 + d1 * d2)) by (nonlinear_arith);
    lemma_mod_multiples_basic(a1 * a2 + c1 * b2, one);
    lemma_mod_multiples_basic(b1 * a2 + d1 * b2, one);
    lemma_mod_multiples_basic(a1 * c2 + c1 * d2, one);
    lemma_mod_multiples_basic(b1 * c2 + d1 * d2, one);
}

/// The primitive transforms of the recording interface have whole-unit
/// linear parts: every translation, every whole-unit scaling, and every
/// quarter-turn rotation (whose sine and cosine are zero or one unit).
pub proof fn lemma_primitives_integral(x: int, y: int, sx: int, sy: int, cos_v: int, sin_v: int)
    requires
        sx % (SCALE_ONE as int) == 0,
        sy % (SCALE_ONE as int) == 0,
        cos_v % (SCALE_ONE as int) == 0,
        sin_v % (SCALE_ONE as int) == 0,
    ensures
        integral_linear(translate_model(x, y)),
        integral_linear(scale_model(sx, sy)),
        integral_linear(rotate_model(cos_v, sin_v)),
{
    lemma_mod_multiples_basic(1, SCALE_ONE as int);
    lemma_mod_multiples_basic(0, SCALE_ONE as int);
    assert((-sin_v) % (SCALE_ONE as int) == 0) by {
        let k = sin_v / (SCALE_ONE as int);
        lemma_fundamental_div_mod(sin_v, SCALE_ONE as int);
        assert(-sin_v == (SCALE_ONE as int) * (-k));
        lemma_mod_multiples_basic(-k, SCALE_ONE as int);
    }
}

/// Composing two transforms with whole-unit linear parts and then applying
/// the product to a point gives the same point as applying the transforms
/// one after the other: `m2` first, `m1` second.  Together with
/// [`lemma_multiply_integral`] this extends to any sequence of
/// translations, whole-unit scalings and quarter-turn rotations.
pub proof fn lemma_multiply_then_apply(m1: TransformModel, m2: TransformModel, x: int, y: int)
    requires
        integral_linear(m1),
        integral_linear(m2),
    ensures
        spec_apply_x(spec_multiply(m1, m2), x, y)
            == spec_apply_x(m1, spec_apply_x(m2, x, y), spec_apply_y(m2, x, y)),
        spec_apply_y(spec_multiply(m1, m2), x, y)
            == spec_apply_y(m1, spec_apply_x(m2, x, y), spec_apply_y(m2, x, y)),
{
    let one = SCALE_ONE as int;
    let a1 = m1.a / one;
    let b1 = m1.b / one;
    let c1 = m1.c / one;
    let d1 = m1.d / one;
    let a2 = m2.a / one;
    let b2 = m2.b / one;
    let c2 = m2.c / one;
    let d2 = m2.d / one;
    lemma_fundamental_div_mod(m1.a, one);
    lemma_fundamental_div_mod(m1.b, one);
    lemma_fundamental_div_mod(m1.c, one);
    lemma_fundamental_div_mod(m1.d, one);
    lemma_fundamental_div_mod(m2.a, one);
    lemma_fundamental_div_mod(m2.b, one);
    lemma_fundamental_div_mod(m2.c, one);
    lemma_fundamental_div_mod(m2.d, one);

    // The product's linear scalars, written over the unit factors.
    lemma_fx_mul_exact(m1.a, m2.a);
    lemma_fx_mul_exact(m1.c, m2.b);
    lemma_fx_mul_exact(m1.b, m2.a);
    lemma_fx_mul_exact(m1.d, m2.b);
    lemma_fx_mul_exact(m1.a, m2.c);
    lemma_fx_mul_exact(m1.c, m2.d);
    lemma_fx_mul_exact(m1.b, m2.c);
    lemma_fx_mul_exact(m1.d, m2.d);
    lemma_fx_mul_exact(m1.a, m2.e);
    lemma_fx_mul_exact(m1.c, m2.f);
    lemma_fx_mul_exact(m1.b, m2.e);
    lemma_fx_mul_exact(m1.d, m2.f);
    let p = spec_multiply(m1, m2);
    assert(p.a == a1 * (one * a2) + c1 * (one * b2)) by (nonlinear_arith)
        requires p.a == a1 * m2.a + c1 * m2.b && m2.a == one * a2 + 0 && m2.b == one * b2 + 0;
    assert(p.a == one * (a1 * a2 + c1 * b2)) by (nonlinear_arith)
        requires p.a == a1 * (one * a2) + c1 * (one * b2);
    assert(p.c == a1 * (one * c2) + c1 * (one * d2)) by (nonlinear_arith)
        requires p.c == a1 * m2.c + c1 * m2.d && m2.c == one * c2 + 0 && m2.d == one * d2 + 0;
    assert(p.c == one * (a1 * c2 + c1 * d2)) by (nonlinear_arith)
        requires p.c == a1 * (one * c2) + c1 * (one * d2);
    assert(p.b == one * (b1 * a2 + d1 * b2)) by (nonlinear_arith)
        requires p.b == b1 * m2.a + d1 * m2.b && m2.a == one * a2 + 0 && m2.b == one * b2 + 0;
    assert(p.d == one * (b1 * c2 + d1 * d2)) by (nonlinear_arith)
        requires p.d == b1 * m2.c + d1 * m2.d && m2.c == one * c2 + 0 && m2.d == one * d2 + 0;

    // The product applied to the point, with every rescaling removed.
    lemma_mod_multiples_basic(a1 * a2 + c1 * b2, one);
    lemma_mod_multiples_basic(a1 * c2 + c1 * d2, one);
    lemma_mod_multiples_basic(b1 * a2 + d1 * b2, one);
    lemma_mod_multiples_basic(b1 * c2 + d1 * d2, one);
    lemma_fx_mul_exact(p.a, x);
    lemma_fx_mul_exact(p.c, y);
    lemma_fx_mul_exact(p.b, x);
    lemma_fx_mul_exact(p.d, y);
    lemma_div_multiples_vanish(a1 * a2 + c1 * b2, one);
    lemma_div_multiples_vanish(a1 * c2 + c1 * d2, one);
    lemma_div_multiples_vanish(b1 * a2 + d1 * b2, one);
    lemma_div_multiples_vanish(b1 * c2 + d1 * d2, one);

    // The step-by-step application, with every rescaling removed.
    lemma_fx_mul_exact(m2.a, x);
    lemma_fx_mul_exact(m2.c, y);
    lemma_fx_mul_exact(m2.b, x);
    lemma_fx_mul_exact(m2.d, y);
    let qx = spec_apply_x(m2, x, y);
    let qy = spec_apply_y(m2, x, y);
    lemma_fx_mul_exact(m1.a, qx);
    lemma_fx_mul_exact(m1.c, qy);
    lemma_fx_mul_exact(m1.b, qx);
    lemma_fx_mul_exact(m1.d, qy);

    assert((a1 * a2 + c1 * b2) * x == a1 * (a2 * x) + c1 * (b2 * x)) by (nonlinear_arith);
    assert((a1 * c2 + c1 * d2) * y == a1 * (c2 * y) + c1 * (d2 * y)) by (nonlinear_arith);
    assert((b1 * a2 + d1 * b2) * x == b1 * (a2 * x) + d1 * (b2 * x)) by (nonlinear_arith);
    assert((b1 * c2 + d1 * d2) * y == b1 * (c2 * y) + d1 * (d2 * y)) by (nonlinear_arith);
    assert(a1 * (a2 * x + c2 * y + m2.e) == a1 * (a2 * x) + a1 * (c2 * y) + a1 * m2.e) by (nonlinear_arith);
    assert(c1 * (b2 * x + d2 * y + m2.f) == c1 * (b2 * x) + c1 * (d2 * y) + c1 * m2.f) by (nonlinear_arith);
    assert(b1 * (a2 * x + c2 * y + m2.e) == b1 * (a2 * x) + b1 * (c2 * y) + b1 * m2.e) by (nonlinear_arith);
    assert(d1 * (b2 * x + d2 * y + m2.f) == d1 * (b2 * x) + d1 * (d2 * y) + d1 * m2.f) by (nonlinear_arith);
}

/// The composition law extended along a sequence: composing three
/// transforms with whole-unit linear parts and applying the product to a
/// point equals applying them to the point one after the other, the last
/// factor first.  Longer sequences follow the same way, one factor at a
/// time, since [`lemma_multiply_integral`] keeps the class closed.
pub proof fn lemma_sequence_then_apply(m1: TransformModel, m2: TransformModel, m3: TransformModel, x: int, y: int)
    requires
        integral_linear(m1),
        integral_linear(m2),
        integral_linear(m3),
    ensures
        ({
            let p3x = spec_apply_x(m3, x, y);
            let p3y = spec_apply_y(m3, x, y);
            let p2x = spec_apply_x(m2, p3x, p3y);
            let p2y = spec_apply_y(m2, p3x, p3y);
            &&& spec_apply_x(spec_multiply(spec_multiply(m1, m2), m3), x, y) == spec_apply_x(m1, p2x, p2y)
            &&& spec_apply_y(spec_multiply(spec_multiply(m1, m2), m3), x, y) == spec_apply_y(m1, p2x, p2y)
        }),
{
    lemma_multiply_integral(m1, m2);
    lemma_multiply_then_apply(spec_multiply(m1, m2), m3, x, y);
    let p3x = spec_apply_x(m3, x, y);
    let p3y = spec_apply_y(m3, x, y);
    lemma_multiply_then_apply(m1, m2, p3x, p3y);
}

} // verus!
