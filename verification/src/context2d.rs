//! The canvas-style recording context.
//!
//! A context owns the style state, the path being built and the operation
//! queue.  Drawing calls mutate the path and style; `fill` and `stroke`
//! snapshot the current path and resolved styles into a new queue entry;
//! `clear_rect` folds a cleared region into every entry already queued.
//! A backend replays the queue in order; the drive loop that feeds a
//! backend lives with the embedding program, which walks `operates()`
//! from front to back.

use vstd::prelude::*;
use crate::backend::PainterBackend;
use crate::fixed::{SCALE_ONE, fx_bounded};
use crate::font::{FontBucket, Glyph};
use crate::operate::{Operates, SegModel, VectorModel, spec_seg_append_clear};
use crate::paint::stroke::{LineCap, LineJoin, StrokeDash};
use crate::paint::{ClipMask, FillRule, Paint};
use crate::path::{CurvePoints, PathBuilder, PathData, PathSegment, curve_seg, curve_points_bounded, rect_valid, rect_path, seg_bounded, segs_all_bounded, spec_apply_seg, spec_last_pos, spec_quad_to_curve};
use crate::style_bucket::{BucketModel, StoreModel, StyleBucket, StyleStore, clip_model, default_bucket_model, spec_restore, spec_save};
use crate::transform::{Transform, TransformModel, rotate_model, spec_identity, spec_multiply, translate_model};

verus! {

/// Mathematical model of a recording context.
pub ghost struct ContextModel {
    pub width: i64,
    pub height: i64,
    pub style: StoreModel,
    pub path: Seq<PathSegment>,
    pub queue: Seq<SegModel>,
}

/// A recording session: canvas extent, style state, the path being built
/// and the queue of recorded operations.
#[derive(Debug)]
pub struct Context {
    width: i64,
    height: i64,
    style_bucket: StyleStore,
    path_cache: PathBuilder,
    operate_queue: Operates,
}

impl View for Context {
    type V = ContextModel;

    closed spec fn view(&self) -> ContextModel {
        ContextModel {
            width: self.width,
            height: self.height,
            style: self.style_bucket@,
            path: self.path_cache@,
            queue: self.operate_queue@,
        }
    }
}

/// The vector segment a fill call snapshots from the current state.
pub open spec fn fill_segment_model(path: Seq<PathSegment>, fill: Paint, rule: FillRule, clip: Option<(Seq<PathSegment>, FillRule)>) -> SegModel {
    SegModel::Vector(VectorModel {
        path,
        fill_rule: rule,
        fill: Some(fill),
        stroke: None,
        clip,
        clear_rect: None,
    })
}

/// The vector segment a stroke call snapshots from the current state.
pub open spec fn stroke_segment_model(path: Seq<PathSegment>, st: crate::paint::stroke::StrokeModel, clip: Option<(Seq<PathSegment>, FillRule)>) -> SegModel {
    SegModel::Vector(VectorModel {
        path,
        fill_rule: FillRule::Nonzero,
        fill: None,
        stroke: Some(st),
        clip,
        clear_rect: None,
    })
}

/// The stroke the context resolves from its current style.
pub open spec fn resolved_stroke(b: BucketModel) -> crate::paint::stroke::StrokeModel {
    crate::paint::stroke::StrokeModel {
        width: b.line_width,
        miter_limit: b.miter_limit,
        line_cap: b.line_cap,
        line_join: b.line_join,
        dash: b.line_dash_offset,
        paint: b.stroke,
    }
}

impl Context {
    /// A context over a 200 by 200 unit canvas.
    pub fn new() -> (r: Self)
        ensures
            r@.width as int == 200 * (SCALE_ONE as int),
            r@.height as int == 200 * (SCALE_ONE as int),
            r@.style.inner == default_bucket_model(),
            r@.path == Seq::<PathSegment>::empty(),
            r@.queue == Seq::<SegModel>::empty(),
    {
        Context::new_wh(200 * SCALE_ONE, 200 * SCALE_ONE)
    }

    /// A context over a canvas of the given raw extent.
    pub fn new_wh(width: i64, height: i64) -> (r: Self)
        ensures
            r@.width == width,
            r@.height == height,
            r@.style.inner == default_bucket_model(),
            r@.style.back == default_bucket_model(),
            r@.path == Seq::<PathSegment>::empty(),
            r@.queue == Seq::<SegModel>::empty(),
    {
        let r = Context {
            width,
            height,
            style_bucket: StyleStore::default(),
            path_cache: PathBuilder::default(),
            operate_queue: Operates::default(),
        };
        proof {
            assert(r@.path =~= Seq::<PathSegment>::empty());
        }
        r
    }

    /// Rebinds the canvas extent.
    pub fn reset_wh(&mut self, width: i64, height: i64)
        ensures
            final(self)@ == (ContextModel { width, height, ..old(self)@ }),
    {
        self.width = width;
        self.height = height;
    }

    /// The current transform.
    pub fn get_transform(&self) -> (r: Transform)
        ensures
            r@ == self@.style.inner.transform,
    {
        self.style_bucket.inner.transform
    }

    /// The full current style state.
    pub fn get_context_attributes(&self) -> (r: &StyleBucket)
        ensures
            r@ == self@.style.inner,
    {
        &self.style_bucket.inner
    }

    /// The path built so far.
    pub fn path_data(&self) -> (r: &PathData)
        ensures
            r@ == self@.path,
    {
        &self.path_cache.0
    }

    /// The recorded operation queue, in draw order.
    pub fn operates(&self) -> (r: &Operates)
        ensures
            r@ == self@.queue,
    {
        &self.operate_queue
    }

    /// Sets the font family of the current style.
    pub fn set_font_family(&mut self, family: &str)
        ensures
            final(self)@ == (ContextModel {
                style: StoreModel {
                    inner: BucketModel { font_family: family@, ..old(self)@.style.inner },
                    ..old(self)@.style
                },
                ..old(self)@
            }),
    {
        self.style_bucket.inner.font_family = family.to_owned();
    }

    /// Sets the raw font size of the current style.
    pub fn set_font_size(&mut self, size: i64)
        ensures
            final(self)@ == (ContextModel {
                style: StoreModel {
                    inner: BucketModel { font_size: size, ..old(self)@.style.inner },
                    ..old(self)@.style
                },
                ..old(self)@
            }),
    {
        self.style_bucket.inner.font_size = size;
    }

    /// Sets the stroke paint of the current style.
    pub fn set_stroke_style(&mut self, paint: Paint)
        ensures
            final(self)@ == (ContextModel {
                style: StoreModel {
                    inner: BucketModel { stroke: paint, ..old(self)@.style.inner },
                    ..old(self)@.style
                },
                ..old(self)@
            }),
    {
        self.style_bucket.inner.stroke = paint
    }

    /// Sets the fill paint of the current style.
    pub fn set_fill_style(&mut self, paint: Paint)
        ensures
            final(self)@ == (ContextModel {
                style: StoreModel {
                    inner: BucketModel { fill: paint, ..old(self)@.style.inner },
                    ..old(self)@.style
                },
                ..old(self)@
            }),
    {
        self.style_bucket.inner.fill = paint
    }

    /// Sets the raw line width of the current style.
    pub fn set_line_width(&mut self, width: i64)
        ensures
            final(self)@ == (ContextModel {
                style: StoreModel {
                    inner: BucketModel { line_width: width, ..old(self)@.style.inner },
                    ..old(self)@.style
                },
                ..old(self)@
            }),
    {
        self.style_bucket.inner.line_width = width
    }

    /// Sets the line cap of the current style.
    pub fn set_line_cap(&mut self, line_cap: LineCap)
        ensures
            final(self)@ == (ContextModel {
                style: StoreModel {
                    inner: BucketModel { line_cap, ..old(self)@.style.inner },
                    ..old(self)@.style
                },
                ..old(self)@
            }),
    {
        self.style_bucket.inner.line_cap = line_cap
    }

    /// Sets the line join of the current style.
    pub fn set_line_join(&mut self, line_join: LineJoin)
        ensures
            final(self)@ == (ContextModel {
                style: StoreModel {
                    inner: BucketModel { line_join, ..old(self)@.style.inner },
                    ..old(self)@.style
                },
                ..old(self)@
            }),
    {
        self.style_bucket.inner.line_join = line_join
    }

    /// Sets the raw miter limit of the current style.
    pub fn set_miter_limit(&mut self, miter_limit: i64)
        ensures
            final(self)@ == (ContextModel {
                style: StoreModel {
                    inner: BucketModel { miter_limit, ..old(self)@.style.inner },
                    ..old(self)@.style
                },
                ..old(self)@
            }),
    {
        self.style_bucket.inner.miter_limit = miter_limit
    }

    /// Sets or clears the dash pattern of the current style.
    pub fn set_line_dash_offset(&mut self, line_dash_offset: Option<StrokeDash>)
        ensures
            final(self)@ == (ContextModel {
                style: StoreModel {
                    inner: BucketModel {
                        line_dash_offset: crate::style_bucket::dash_model(line_dash_offset),
                        ..old(self)@.style.inner
                    },
                    ..old(self)@.style
                },
                ..old(self)@
            }),
    {
        self.style_bucket.inner.line_dash_offset = line_dash_offset
    }

    /// Sets or clears the dash pattern of the current style.
    pub fn set_line_dash(&mut self, line_dash: Option<StrokeDash>)
        ensures
            final(self)@ == (ContextModel {
                style: StoreModel {
                    inner: BucketModel {
                        line_dash_offset: crate::style_bucket::dash_model(line_dash),
                        ..old(self)@.style.inner
                    },
                    ..old(self)@.style
                },
                ..old(self)@
            }),
    {
        self.style_bucket.inner.line_dash_offset = line_dash;
    }

    /// The dash pattern of the current style.
    pub fn get_line_dash(&self) -> (r: Option<StrokeDash>)
        ensures
            crate::style_bucket::dash_model(r) == self@.style.inner.line_dash_offset,
    {
        crate::style_bucket::copy_dash(&self.style_bucket.inner.line_dash_offset)
    }

    /// Starts a new path.
    pub fn begin_path(&mut self)
        ensures
            final(self)@ == (ContextModel { path: Seq::<PathSegment>::empty(), ..old(self)@ }),
    {
        self.path_cache.clear();
    }

    /// Closes the current subpath.
    pub fn close_path(&mut self)
        ensures
            final(self)@ == (ContextModel {
                path: old(self)@.path.push(PathSegment::ClosePath),
                ..old(self)@
            }),
    {
        self.path_cache.close();
    }

    /// Moves the current position, through the current transform.
    pub fn move_to(&mut self, x: i64, y: i64)
        requires
            old(self).transform_ok(),
            fx_bounded(x as int) && fx_bounded(y as int),
        ensures
            final(self)@ == (ContextModel {
                path: old(self)@.path.push(spec_apply_seg(old(self)@.style.inner.transform,
                    PathSegment::MoveTo { x, y })),
                ..old(self)@
            }),
    {
        let ts = self.style_bucket.inner.transform;
        self.path_cache.move_to(x, y, &ts)
    }

    /// Draws a line from the current position, through the current
    /// transform.
    pub fn line_to(&mut self, x: i64, y: i64)
        requires
            old(self).transform_ok(),
            fx_bounded(x as int) && fx_bounded(y as int),
        ensures
            final(self)@ == (ContextModel {
                path: old(self)@.path.push(spec_apply_seg(old(self)@.style.inner.transform,
                    PathSegment::LineTo { x, y })),
                ..old(self)@
            }),
    {
        let ts = self.style_bucket.inner.transform;
        self.path_cache.line_to(x, y, &ts)
    }

    /// Draws a cubic curve from the current position, through the current
    /// transform.
    pub fn bezier_curve_to(&mut self, cp1x: i64, cp1y: i64, cp2x: i64, cp2y: i64, x: i64, y: i64)
        requires
            old(self).transform_ok(),
            fx_bounded(cp1x as int) && fx_bounded(cp1y as int),
            fx_bounded(cp2x as int) && fx_bounded(cp2y as int),
            fx_bounded(x as int) && fx_bounded(y as int),
        ensures
            final(self)@ == (ContextModel {
                path: old(self)@.path.push(spec_apply_seg(old(self)@.style.inner.transform,
                    PathSegment::CurveTo { x, y, x1: cp1x, y1: cp1y, x2: cp2x, y2: cp2y })),
                ..old(self)@
            }),
    {
        let ts = self.style_bucket.inner.transform;
        self.path_cache.bezier_curve_to(cp1x, cp1y, cp2x, cp2y, x, y, &ts)
    }

    /// Draws a quadratic curve from the current position, through the
    /// current transform.  The path must not be empty nor end right after
    /// a close: that indicates a broken call sequence.
    pub fn quadratic_curve_to(&mut self, cpx: i64, cpy: i64, x: i64, y: i64)
        requires
            old(self).transform_ok(),
            old(self)@.path.len() > 0,
            !(old(self)@.path.last() is ClosePath),
            fx_bounded(spec_last_pos(old(self)@.path).0) && fx_bounded(spec_last_pos(old(self)@.path).1),
            fx_bounded(cpx as int) && fx_bounded(cpy as int),
            fx_bounded(x as int) && fx_bounded(y as int),
        ensures
            ({
                let (px, py) = spec_last_pos(old(self)@.path);
                let (cx1, cy1, cx2, cy2, cx, cy) = spec_quad_to_curve(
                    px, py, cpx as int, cpy as int, x as int, y as int);
                final(self)@ == (ContextModel {
                    path: old(self)@.path.push(spec_apply_seg(old(self)@.style.inner.transform,
                        PathSegment::CurveTo {
                            x: cx as i64, y: cy as i64,
                            x1: cx1 as i64, y1: cy1 as i64,
                            x2: cx2 as i64, y2: cy2 as i64,
                        })),
                    ..old(self)@
                })
            }),
    {
        let ts = self.style_bucket.inner.transform;
        self.path_cache.quadratic_curve_to(cpx, cpy, x, y, &ts)
    }

    /// Appends an arc already decomposed into cubic pieces, through the
    /// current transform: a move to the start point, then the pieces, or
    /// a straight line to the end point where the decomposition was
    /// unsolvable.
    pub fn arc(&mut self, sx: i64, sy: i64, cubics: Option<Vec<CurvePoints>>, ex: i64, ey: i64)
        requires
            old(self).transform_ok(),
            fx_bounded(sx as int) && fx_bounded(sy as int),
            fx_bounded(ex as int) && fx_bounded(ey as int),
            cubics is Some ==> forall|i: int| 0 <= i < cubics.unwrap()@.len()
                ==> #[trigger] curve_points_bounded(cubics.unwrap()@[i]),
        ensures
            final(self)@ == (ContextModel {
                path: match cubics {
                    Some(cs) => old(self)@.path.push(spec_apply_seg(old(self)@.style.inner.transform,
                            PathSegment::MoveTo { x: sx, y: sy }))
                        + cs@.map(|i: int, c: CurvePoints| spec_apply_seg(old(self)@.style.inner.transform, curve_seg(c))),
                    None => old(self)@.path.push(spec_apply_seg(old(self)@.style.inner.transform,
                            PathSegment::MoveTo { x: sx, y: sy }))
                        .push(spec_apply_seg(old(self)@.style.inner.transform,
                            PathSegment::LineTo { x: ex, y: ey })),
                },
                ..old(self)@
            }),
    {
        let ts = self.style_bucket.inner.transform;
        self.path_cache.arc(sx, sy, cubics, ex, ey, &ts)
    }

    /// Appends a rectangle to the current path, through the current
    /// transform; reports nothing when the rectangle is not drawable.
    pub fn rect(&mut self, x: i64, y: i64, width: i64, height: i64) -> (r: Option<()>)
        requires
            old(self).transform_ok(),
            fx_bounded(x as int),
            fx_bounded(y as int),
            fx_bounded(x as int + width as int),
            fx_bounded(y as int + height as int),
        ensures
            r is Some <==> rect_valid(x as int, y as int, width as int, height as int),
            final(self)@ == if rect_valid(x as int, y as int, width as int, height as int) {
                ContextModel {
                    path: old(self)@.path + rect_path(x as int, y as int, width as int, height as int)
                        .map(|i: int, s: PathSegment| spec_apply_seg(old(self)@.style.inner.transform, s)),
                    ..old(self)@
                }
            } else {
                old(self)@
            },
    {
        let mut path = match PathData::create_rect(x, y, width, height) {
            Some(p) => p,
            None => {
                return None;
            }
        };
        proof {
            assert(forall|i: int| 0 <= i < path@.len() ==> #[trigger] seg_bounded(path@[i])) by {
                assert(path@ == rect_path(x as int, y as int, width as int, height as int));
            }
        }
        let ts = self.style_bucket.inner.transform;
        path.transform(ts);
        self.path_cache.append_path(&mut path);
        Some(())
    }

    /// The current transform of the style state may stand as the left
    /// factor of a product.
    pub open spec fn transform_ok(self) -> bool {
        &&& fx_bounded(self@.style.inner.transform.a)
        &&& fx_bounded(self@.style.inner.transform.b)
        &&& fx_bounded(self@.style.inner.transform.c)
        &&& fx_bounded(self@.style.inner.transform.d)
        &&& -(crate::transform::TRANS_SAFE as int) <= self@.style.inner.transform.e <= crate::transform::TRANS_SAFE as int
        &&& -(crate::transform::TRANS_SAFE as int) <= self@.style.inner.transform.f <= crate::transform::TRANS_SAFE as int
    }

    /// Replaces the current transform.
    pub fn set_transform(&mut self, ts: &Transform)
        ensures
            final(self)@ == (ContextModel {
                style: StoreModel {
                    inner: BucketModel { transform: ts@, ..old(self)@.style.inner },
                    ..old(self)@.style
                },
                ..old(self)@
            }),
    {
        self.style_bucket.inner.set_transform(ts)
    }

    /// Resets the current transform to the identity.
    pub fn reset_transform(&mut self)
        ensures
            final(self)@ == (ContextModel {
                style: StoreModel {
                    inner: BucketModel { transform: spec_identity(), ..old(self)@.style.inner },
                    ..old(self)@.style
                },
                ..old(self)@
            }),
    {
        let ts = Transform::default();
        self.set_transform(&ts);
    }

    /// Appends a transform to the current one.
    pub fn transform(&mut self, ts: &Transform)
        requires
            old(self).transform_ok(),
            ts.strictly_bounded(),
        ensures
            final(self)@ == (ContextModel {
                style: StoreModel {
                    inner: BucketModel {
                        transform: spec_multiply(old(self)@.style.inner.transform, ts@),
                        ..old(self)@.style.inner
                    },
                    ..old(self)@.style
                },
                ..old(self)@
            }),
    {
        self.style_bucket.inner.transform(ts);
    }

    /// Appends a translation to the current transform.
    pub fn translate(&mut self, x: i64, y: i64)
        requires
            old(self).transform_ok(),
            fx_bounded(x as int) && fx_bounded(y as int),
        ensures
            final(self)@ == (ContextModel {
                style: StoreModel {
                    inner: BucketModel {
                        transform: spec_multiply(old(self)@.style.inner.transform, translate_model(x as int, y as int)),
                        ..old(self)@.style.inner
                    },
                    ..old(self)@.style
                },
                ..old(self)@
            }),
    {
        let ts = Transform::new_translate(x, y);
        self.transform(&ts);
    }

    /// Appends a rotation, given the raw cosine and sine of the angle, to
    /// the current transform.
    pub fn rotate(&mut self, cos_v: i64, sin_v: i64)
        requires
            old(self).transform_ok(),
            fx_bounded(cos_v as int) && fx_bounded(sin_v as int),
        ensures
            final(self)@ == (ContextModel {
                style: StoreModel {
                    inner: BucketModel {
                        transform: spec_multiply(old(self)@.style.inner.transform, rotate_model(cos_v as int, sin_v as int)),
                        ..old(self)@.style.inner
                    },
                    ..old(self)@.style
                },
                ..old(self)@
            }),
    {
        let ts = Transform::new_rotate(cos_v, sin_v);
        self.transform(&ts);
    }

    /// Saves the current style into the single backup slot.
    pub fn save(&mut self)
        ensures
            final(self)@ == (ContextModel { style: spec_save(old(self)@.style), ..old(self)@ }),
    {
        self.style_bucket.save();
    }

    /// Restores the current style from the single backup slot.
    pub fn restore(&mut self)
        ensures
            final(self)@ == (ContextModel { style: spec_restore(old(self)@.style), ..old(self)@ }),
    {
        self.style_bucket.restore();
    }

    /// Makes a path the current clip: the given one, or the path built so
    /// far.
    pub fn clip(&mut self, path: Option<PathData>, fill_rule: Option<FillRule>)
        ensures
            final(self)@ == (ContextModel {
                style: StoreModel {
                    inner: BucketModel {
                        clip_mask: Some((
                            match path {
                                Some(p) => p@,
                                None => old(self)@.path,
                            },
                            match fill_rule {
                                Some(r) => r,
                                None => FillRule::Nonzero,
                            },
                        )),
                        ..old(self)@.style.inner
                    },
                    ..old(self)@.style
                },
                ..old(self)@
            }),
    {
        let path = match path {
            Some(p) => p,
            None => self.path_cache.clone().into_path_data(),
        };
        self.style_bucket.inner.set_clip(path, fill_rule);
    }

    /// Folds a cleared rectangle, mapped through the current transform,
    /// into every operation already queued.
    pub fn clear_rect(&mut self, x: i64, y: i64, width: i64, height: i64)
        requires
            old(self).transform_ok(),
            fx_bounded(x as int),
            fx_bounded(y as int),
            fx_bounded(x as int + width as int),
            fx_bounded(y as int + height as int),
        ensures
            final(self)@ == (ContextModel {
                queue: old(self)@.queue.map(|i: int, m: SegModel| spec_seg_append_clear(
                    m, x as int, y as int, width as int, height as int,
                    old(self)@.style.inner.transform, old(self)@.width, old(self)@.height)),
                ..old(self)@
            }),
    {
        let ts = self.style_bucket.inner.transform;
        let w = self.width;
        let h = self.height;
        self.operate_queue.append_clear_rect(x, y, width, height, &ts, w, h)
    }

    /// Queues a fill of the given path, or of the path built so far,
    /// under the given rule or the non-zero default, with the current
    /// fill paint and clip.  The new entry goes at the end of the draw
    /// order.
    pub fn fill(&mut self, path: Option<PathData>, fill_rule: Option<FillRule>)
        ensures
            final(self)@ == (ContextModel {
                queue: old(self)@.queue.push(fill_segment_model(
                    match path {
                        Some(p) => p@,
                        None => old(self)@.path,
                    },
                    old(self)@.style.inner.fill,
                    match fill_rule {
                        Some(r) => r,
                        None => FillRule::Nonzero,
                    },
                    old(self)@.style.inner.clip_mask,
                )),
                ..old(self)@
            }),
    {
        let path = match path {
            Some(p) => p,
            None => self.path_cache.clone().into_path_data(),
        };
        let fill_rule = match fill_rule {
            Some(r) => r,
            None => FillRule::Nonzero,
        };
        let fill = self.style_bucket.inner.get_fill();
        let clip = crate::style_bucket::copy_clip(&self.style_bucket.inner.clip_mask);
        self.fill_snapshot(path, fill, fill_rule, clip)
    }

    /// Queues a fill of the rectangle from `(x, y)` with extent
    /// `(width, height)`, mapped through the current transform; a
    /// rectangle that is not drawable queues nothing.
    pub fn fill_rect(&mut self, x: i64, y: i64, width: i64, height: i64)
        requires
            old(self).transform_ok(),
            fx_bounded(x as int),
            fx_bounded(y as int),
            fx_bounded(x as int + width as int),
            fx_bounded(y as int + height as int),
        ensures
            final(self)@ == if rect_valid(x as int, y as int, width as int, height as int) {
                ContextModel {
                    queue: old(self)@.queue.push(fill_segment_model(
                        rect_path(x as int, y as int, width as int, height as int)
                            .map(|i: int, s: PathSegment| spec_apply_seg(old(self)@.style.inner.transform, s)),
                        old(self)@.style.inner.fill,
                        FillRule::Nonzero,
                        old(self)@.style.inner.clip_mask,
                    )),
                    ..old(self)@
                }
            } else {
                old(self)@
            },
    {
        let rect = match PathData::create_rect(x, y, width, height) {
            Some(p) => p,
            None => {
                return;
            }
        };
        proof {
            assert(forall|i: int| 0 <= i < rect@.len() ==> #[trigger] seg_bounded(rect@[i])) by {
                assert(rect@ == rect_path(x as int, y as int, width as int, height as int));
            }
        }
        let ts = self.style_bucket.inner.transform;
        let transformed = rect.transform_to(ts);
        self.fill(Some(transformed), None);
    }

    /// Queues a stroke of the given path, or of the path built so far,
    /// with the stroke resolved from the current style and the current
    /// clip.  The new entry goes at the end of the draw order.
    pub fn stroke(&mut self, path: Option<PathData>)
        ensures
            final(self)@ == (ContextModel {
                queue: old(self)@.queue.push(stroke_segment_model(
                    match path {
                        Some(p) => p@,
                        None => old(self)@.path,
                    },
                    resolved_stroke(old(self)@.style.inner),
                    old(self)@.style.inner.clip_mask,
                )),
                ..old(self)@
            }),
    {
        let path = match path {
            Some(p) => p,
            None => self.path_cache.clone().into_path_data(),
        };
        let st = self.style_bucket.inner.get_stroke();
        let clip = crate::style_bucket::copy_clip(&self.style_bucket.inner.clip_mask);
        self.stroke_snapshot(path, st, clip)
    }

    /// Queues a stroke of the rectangle from `(x, y)` with extent
    /// `(width, height)`, mapped through the current transform; a
    /// rectangle that is not drawable queues nothing.
    pub fn stroke_rect(&mut self, x: i64, y: i64, width: i64, height: i64)
        requires
            old(self).transform_ok(),
            fx_bounded(x as int),
            fx_bounded(y as int),
            fx_bounded(x as int + width as int),
            fx_bounded(y as int + height as int),
        ensures
            final(self)@ == if rect_valid(x as int, y as int, width as int, height as int) {
                ContextModel {
                    queue: old(self)@.queue.push(stroke_segment_model(
                        rect_path(x as int, y as int, width as int, height as int)
                            .map(|i: int, s: PathSegment| spec_apply_seg(old(self)@.style.inner.transform, s)),
                        resolved_stroke(old(self)@.style.inner),
                        old(self)@.style.inner.clip_mask,
                    )),
                    ..old(self)@
                }
            } else {
                old(self)@
            },
    {
        let rect = match PathData::create_rect(x, y, width, height) {
            Some(p) => p,
            None => {
                return;
            }
        };
        proof {
            assert(forall|i: int| 0 <= i < rect@.len() ==> #[trigger] seg_bounded(rect@[i])) by {
                assert(rect@ == rect_path(x as int, y as int, width as int, height as int));
            }
        }
        let ts = self.style_bucket.inner.transform;
        let transformed = rect.transform_to(ts);
        self.stroke(Some(transformed));
    }

    /// A provider's glyph may be placed when its transform may stand as
    /// the left factor of a product, its outline is within the
    /// fixed-point range, and so is the outline after that transform.
    pub open spec fn glyph_placeable(g: Glyph, x: i64, y: i64) -> bool {
        &&& g.transform.lhs_ok()
        &&& segs_all_bounded(g.path@)
        &&& segs_all_bounded(g.path@.map(|i: int, s: PathSegment| spec_apply_seg(g.transform@, s)))
    }

    /// The placed outline of a glyph: mapped by the glyph's own
    /// transform, then translated to `(x, y)`.
    pub open spec fn spec_placed_outline(g: Glyph, x: i64, y: i64) -> Seq<PathSegment> {
        g.path@
            .map(|i: int, s: PathSegment| spec_apply_seg(g.transform@, s))
            .map(|i: int, s: PathSegment| spec_apply_seg(translate_model(x as int, y as int), s))
    }

    /// Places a glyph as the text calls do: the outline is mapped by the
    /// provider's transform and then translated to `(x, y)`.  The placed
    /// outline comes back exactly when the glyph passes the range checks
    /// of `glyph_placeable`; a glyph beyond them places nothing.
    pub fn place_glyph(glyph: Glyph, x: i64, y: i64) -> (r: Option<PathData>)
        requires
            fx_bounded(x as int),
            fx_bounded(y as int),
        ensures
            r is Some <==> Context::glyph_placeable(glyph, x, y),
            r is Some ==> r.unwrap()@ == Context::spec_placed_outline(glyph, x, y),
    {
        let Glyph { mut path, fill_rule, transform } = glyph;
        if !transform.is_lhs_ok_exec() || !path.is_all_bounded() {
            return None;
        }
        path.transform(transform);
        if !path.is_all_bounded() {
            return None;
        }
        let shift = Transform::new_translate(x, y);
        path.transform(shift);
        Some(path)
    }

    /// Queues a fill of the text's glyph outline, as the provider hands
    /// it out, placed by the provider's transform and then translated to
    /// `(x, y)`.  Nothing is drawn — and nothing is reported — when the
    /// provider has no glyph or hands back a transform or outline beyond
    /// the machine range; otherwise the filled outline is returned.
    pub fn fill_text<F: FontBucket>(&mut self, text: &str, x: i64, y: i64, max_width: Option<i64>, font_bucket: &mut F) -> (r: Option<PathData>)
        requires
            fx_bounded(x as int) && fx_bounded(y as int),
        ensures
            match r {
                Some(p) => {
                    &&& final(self)@.width == old(self)@.width
                    &&& final(self)@.height == old(self)@.height
                    &&& final(self)@.style == old(self)@.style
                    &&& final(self)@.path == old(self)@.path
                    &&& final(self)@.queue.len() == old(self)@.queue.len() + 1
                    &&& final(self)@.queue.take(old(self)@.queue.len() as int) == old(self)@.queue
                    &&& match final(self)@.queue.last() {
                        SegModel::Vector(v) => {
                            &&& v.path == p@
                            &&& v.fill == Some(old(self)@.style.inner.fill)
                            &&& v.stroke is None
                            &&& v.clip == old(self)@.style.inner.clip_mask
                            &&& v.clear_rect is None
                        },
                        SegModel::Pixel(_) => false,
                    }
                    &&& exists|g: Glyph| #[trigger] Context::glyph_placeable(g, x, y)
                        && p@ == Context::spec_placed_outline(g, x, y)
                },
                None => final(self)@ == old(self)@,
            },
    {
        let style = self.style_bucket.inner.get_font_style();
        let glyph = match font_bucket.get_glyph(&style, text) {
            Some(g) => g,
            None => {
                return None;
            }
        };
        let ghost g0 = glyph;
        let fill_rule = glyph.fill_rule;
        let path = match Context::place_glyph(glyph, x, y) {
            Some(p) => p,
            None => {
                return None;
            }
        };
        let result = path.clone();
        self.fill(Some(path), Some(fill_rule));
        proof {
            assert(self@ == (ContextModel {
                queue: old(self)@.queue.push(fill_segment_model(
                    result@, old(self)@.style.inner.fill, fill_rule, old(self)@.style.inner.clip_mask)),
                ..old(self)@
            }));
            assert(self@.queue.take(old(self)@.queue.len() as int) =~= old(self)@.queue);
            assert(Context::glyph_placeable(g0, x, y)
                && result@ == Context::spec_placed_outline(g0, x, y));
        }
        Some(result)
    }

    /// Queues a stroke of the text's glyph outline, as `fill_text` places
    /// it; nothing is drawn — and nothing reported — when the provider
    /// has no glyph or hands back values beyond the machine range.
    pub fn stroke_text<F: FontBucket>(&mut self, text: &str, x: i64, y: i64, max_width: Option<i64>, font_bucket: &mut F) -> (r: Option<()>)
        requires
            fx_bounded(x as int) && fx_bounded(y as int),
        ensures
            match r {
                Some(u) => exists|g: Glyph| #[trigger] Context::glyph_placeable(g, x, y)
                    && final(self)@ == (ContextModel {
                        queue: old(self)@.queue.push(stroke_segment_model(
                            Context::spec_placed_outline(g, x, y),
                            resolved_stroke(old(self)@.style.inner),
                            old(self)@.style.inner.clip_mask)),
                        ..old(self)@
                    }),
                None => final(self)@ == old(self)@,
            },
    {
        let style = self.style_bucket.inner.get_font_style();
        let glyph = match font_bucket.get_glyph(&style, text) {
            Some(g) => g,
            None => {
                return None;
            }
        };
        let ghost g0 = glyph;
        let path = match Context::place_glyph(glyph, x, y) {
            Some(p) => p,
            None => {
                return None;
            }
        };
        let ghost placed = path@;
        self.stroke(Some(path));
        proof {
            assert(self@ == (ContextModel {
                queue: old(self)@.queue.push(stroke_segment_model(
                    placed, resolved_stroke(old(self)@.style.inner), old(self)@.style.inner.clip_mask)),
                ..old(self)@
            }));
            assert(Context::glyph_placeable(g0, x, y)
                && placed == Context::spec_placed_outline(g0, x, y));
        }
        Some(())
    }

    /// The render pass: hands every recorded operation to the backend in
    /// draw order, then asks the backend once for its output bytes.  What
    /// the backend makes of each operation is its own; the queue itself
    /// is not changed by rendering.
    pub fn render<B: PainterBackend>(&self, backend: &mut B) -> Vec<u8> {
        let ops = self.operates();
        let n = ops.len();
        let mut i: usize = 0;
        while i < n
            invariant
                i <= n,
                n == self@.queue.len(),
            decreases n - i,
        {
            let seg = self.operate_queue.get(i).segment();
            backend.draw(seg);
            i = i + 1;
        }
        backend.finish()
    }

    fn fill_snapshot(&mut self, path: PathData, fill: Paint, fill_rule: FillRule, clip_mask: Option<ClipMask>)
        ensures
            final(self)@ == (ContextModel {
                queue: old(self)@.queue.push(fill_segment_model(path@, fill, fill_rule, clip_model(clip_mask))),
                ..old(self)@
            }),
    {
        let appender = self.operate_queue.append()
            .vector()
            .set_path(path)
            .set_fill(fill)
            .set_fill_rule(fill_rule)
            .set_clip(clip_mask);
        appender.finish(&mut self.operate_queue);
    }

    fn stroke_snapshot(&mut self, path: PathData, stroke: crate::paint::stroke::Stroke, clip_mask: Option<ClipMask>)
        ensures
            final(self)@ == (ContextModel {
                queue: old(self)@.queue.push(stroke_segment_model(path@, stroke@, clip_model(clip_mask))),
                ..old(self)@
            }),
    {
        let appender = self.operate_queue.append()
            .vector()
            .set_path(path)
            .set_stroke(stroke)
            .set_clip(clip_mask);
        appender.finish(&mut self.operate_queue);
    }
}

} // verus!
