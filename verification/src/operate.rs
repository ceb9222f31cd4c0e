//! The deferred operation queue.
//!
//! `fill` and `stroke` snapshot the current path and styles into an
//! operate segment appended to the queue; the queue's order is the draw
//! order, and a backend must draw strictly in it.  A clear request does
//! not append a segment: it is folded retroactively into the clear
//! accumulator of every segment already queued, one pass over the whole
//! queue per request.

use vstd::prelude::*;
use crate::fixed::fx_bounded;
use crate::paint::blend::BlendMode;
use crate::paint::stroke::{Stroke, StrokeModel};
use crate::paint::{ClipMask, FillRule, Paint};
use crate::path::{PathData, PathSegment, rect_valid, rect_path, rect_path_reverse, spec_apply_seg, seg_bounded};
use crate::polygon::{Polygon, spec_points_path};
use crate::style_bucket::clip_model;
use crate::transform::{Transform, TransformModel};

verus! {

/// Mathematical model of a clear accumulator.
pub ghost struct ClearModel {
    pub width: i64,
    pub height: i64,
    pub list: Seq<Seq<PathSegment>>,
}

/// The accumulator of cleared rectangles: the canvas extent the clearing
/// is bound to, and the cleared regions as device-space rectangle paths.
#[derive(Debug)]
pub struct ClearRect {
    global_width: i64,
    global_height: i64,
    clear_list: Vec<PathData>,
}

impl View for ClearRect {
    type V = ClearModel;

    closed spec fn view(&self) -> ClearModel {
        ClearModel {
            width: self.global_width,
            height: self.global_height,
            list: self.clear_list@.map(|i: int, p: PathData| p@),
        }
    }
}

impl Clone for ClearRect {
    /// The clone holds the same extent and regions.
    fn clone(&self) -> (r: Self)
        ensures
            r@ == self@,
    {
        let mut clear_list = Vec::<PathData>::new();
        let mut i: usize = 0;
        while i < self.clear_list.len()
            invariant
                i <= self.clear_list@.len(),
                clear_list@.len() == i,
                forall|k: int| 0 <= k < i ==> #[trigger] clear_list@[k]@ == self.clear_list@[k]@,
            decreases self.clear_list@.len() - i,
        {
            clear_list.push(self.clear_list[i].clone());
            i = i + 1;
        }
        let r = ClearRect {
            global_width: self.global_width,
            global_height: self.global_height,
            clear_list,
        };
        proof {
            assert(r@.list =~= self@.list);
        }
        r
    }
}

/// The accumulator after one clear request: the transformed rectangle
/// appended when the rectangle is drawable, the accumulator unchanged
/// otherwise.
pub open spec fn spec_clear_append(
    c: ClearModel, x: int, y: int, w: int, h: int, ts: TransformModel,
) -> ClearModel {
    if rect_valid(x, y, w, h) {
        ClearModel {
            list: c.list.push(rect_path(x, y, w, h).map(|i: int, s: PathSegment| spec_apply_seg(ts, s))),
            ..c
        }
    } else {
        c
    }
}

impl ClearRect {
    /// An empty accumulator bound to the given canvas extent.
    pub fn new(width: i64, height: i64) -> (r: Self)
        ensures
            r@ == (ClearModel { width, height, list: Seq::<Seq<PathSegment>>::empty() }),
    {
        let r = ClearRect { global_width: width, global_height: height, clear_list: Vec::new() };
        proof {
            assert(r@.list =~= Seq::<Seq<PathSegment>>::empty());
        }
        r
    }

    /// Rebinds the accumulator to a new canvas width.
    pub fn set_global_width(&mut self, width: i64)
        ensures
            final(self)@ == (ClearModel { width, ..old(self)@ }),
    {
        self.global_width = width
    }

    /// Rebinds the accumulator to a new canvas height.
    pub fn set_global_height(&mut self, height: i64)
        ensures
            final(self)@ == (ClearModel { height, ..old(self)@ }),
    {
        self.global_height = height
    }

    /// Records one cleared rectangle, mapped through the caller's
    /// transform; reports nothing when the rectangle is not drawable, and
    /// then leaves the accumulator unchanged.
    pub fn append(&mut self, x: i64, y: i64, width: i64, height: i64, transform: &Transform) -> (r: Option<()>)
        requires
            transform.lhs_ok(),
            fx_bounded(x as int),
            fx_bounded(y as int),
            fx_bounded(x as int + width as int),
            fx_bounded(y as int + height as int),
        ensures
            final(self)@ == spec_clear_append(old(self)@, x as int, y as int, width as int, height as int, transform@),
            r is Some <==> rect_valid(x as int, y as int, width as int, height as int),
    {
        let mut rect = match PathData::create_rect(x, y, width, height) {
            Some(p) => p,
            None => {
                return None;
            }
        };
        proof {
            assert(forall|i: int| 0 <= i < rect@.len() ==> #[trigger] seg_bounded(rect@[i])) by {
                assert(rect@ == rect_path(x as int, y as int, width as int, height as int));
            }
        }
        rect.transform(*transform);
        let ghost pre = self@;
        self.clear_list.push(rect);
        proof {
            assert(self@.list =~= pre.list.push(
                rect_path(x as int, y as int, width as int, height as int)
                    .map(|i: int, s: PathSegment| spec_apply_seg(transform@, s))));
        }
        Some(())
    }

    /// The number of recorded regions.
    pub fn clear_count(&self) -> (r: usize)
        ensures
            r == self@.list.len(),
    {
        self.clear_list.len()
    }

    /// The canvas extent the clearing is bound to.
    pub fn global_extent(&self) -> (r: (i64, i64))
        ensures
            r.0 == self@.width && r.1 == self@.height,
    {
        (self.global_width, self.global_height)
    }

    /// The recorded regions as polygons of their move and line points, in
    /// order, ready for the union pass.
    pub fn clear_polygons(&self) -> (r: Vec<Polygon>)
        ensures
            r@.len() == self@.list.len(),
            forall|i: int| 0 <= i < r@.len()
                ==> #[trigger] r@[i]@ == spec_ml_points(self@.list[i], self@.list[i].len() as int),
    {
        let mut result = Vec::<Polygon>::new();
        let mut i: usize = 0;
        while i < self.clear_list.len()
            invariant
                i <= self.clear_list@.len(),
                result@.len() == i,
                forall|k: int| 0 <= k < i
                    ==> #[trigger] result@[k]@ == spec_ml_points(self@.list[k], self@.list[k].len() as int),
            decreases self.clear_list@.len() - i,
        {
            let path = &self.clear_list[i];
            let mut p = Polygon::new();
            let mut j: usize = 0;
            while j < path.len()
                invariant
                    j <= path@.len(),
                    p@ == spec_ml_points(path@, j as int),
                decreases path@.len() - j,
            {
                let seg = *path.get(j);
                match seg {
                    PathSegment::MoveTo { x, y } | PathSegment::LineTo { x, y } => {
                        p.add_point(x, y)
                    }
                    _ => {}
                }
                j = j + 1;
            }
            proof {
                assert(path@ == self@.list[i as int]);
            }
            result.push(p);
            i = i + 1;
        }
        result
    }

    /// The visible-region path of the accumulator: the full canvas
    /// rectangle wound in reverse, followed by the cleared region's
    /// polygons — everything except what has been cleared, under the
    /// non-zero rule.  The caller passes the cleared polygons, normally
    /// after unioning overlapping ones.
    pub fn get_path(&self, unions: Vec<Polygon>) -> (r: PathData)
        requires
            rect_valid(0, 0, self@.width as int, self@.height as int),
        ensures
            r@ == rect_path_reverse(0, 0, self@.width as int, self@.height as int)
                + spec_polys_path(unions@.map(|i: int, p: Polygon| p@), unions@.len() as int),
    {
        let ghost poly_views = unions@.map(|i: int, p: Polygon| p@);
        let mut path = PathData::new();
        let mut container = match PathData::create_rect_reverse(0, 0, self.global_width, self.global_height) {
            Some(p) => p,
            None => {
                proof {
                    assert(false);
                }
                PathData::new()
            }
        };
        path.append(&mut container);
        let mut rest = unions;
        let mut i: usize = 0;
        let n = rest.len();
        while i < n
            invariant
                i <= n,
                rest@.len() == n,
                poly_views.len() == n,
                forall|k: int| 0 <= k < n ==> #[trigger] rest@[k]@ == poly_views[k],
                path@ == rect_path_reverse(0, 0, self@.width as int, self@.height as int)
                    + spec_polys_path(poly_views, i as int),
            decreases n - i,
        {
            let p = rest[i].clone();
            let ghost pv = p@;
            let mut poly_path = p.into_path();
            let ghost pp = poly_path@;
            path.append(&mut poly_path);
            proof {
                assert(pv == poly_views[i as int]);
                assert(spec_polys_path(poly_views, i + 1 as int)
                    == spec_polys_path(poly_views, i as int)
                        + spec_points_path(poly_views[i as int], poly_views[i as int].len() as int)
                            .push(PathSegment::ClosePath));
                assert((rect_path_reverse(0, 0, self@.width as int, self@.height as int)
                    + spec_polys_path(poly_views, i as int)) + pp
                    =~= rect_path_reverse(0, 0, self@.width as int, self@.height as int)
                        + spec_polys_path(poly_views, i + 1 as int));
            }
            i = i + 1;
        }
        path
    }
}

/// The move and line points of the first `n` segments, in order.
pub open spec fn spec_ml_points(segs: Seq<PathSegment>, n: int) -> Seq<(i64, i64)>
    decreases n,
{
    if n <= 0 {
        Seq::<(i64, i64)>::empty()
    } else {
        let rest = spec_ml_points(segs, n - 1);
        match segs[n - 1] {
            PathSegment::MoveTo { x, y } => rest.push((x, y)),
            PathSegment::LineTo { x, y } => rest.push((x, y)),
            _ => rest,
        }
    }
}

/// The concatenated closed paths of the first `n` polygons.
pub open spec fn spec_polys_path(polys: Seq<Seq<(i64, i64)>>, n: int) -> Seq<PathSegment>
    decreases n,
{
    if n <= 0 {
        Seq::<PathSegment>::empty()
    } else {
        spec_polys_path(polys, n - 1)
            + spec_points_path(polys[n - 1], polys[n - 1].len() as int).push(PathSegment::ClosePath)
    }
}

/// Mathematical model of a vector segment.
pub ghost struct VectorModel {
    pub path: Seq<PathSegment>,
    pub fill_rule: FillRule,
    pub fill: Option<Paint>,
    pub stroke: Option<StrokeModel>,
    pub clip: Option<(Seq<PathSegment>, FillRule)>,
    pub clear_rect: Option<ClearModel>,
}

/// Mathematical model of a pixel segment.
pub ghost struct PixelModel {
    pub data: Seq<u8>,
    pub blend_mode: BlendMode,
    pub size: (u32, u32),
    pub opacity: i64,
    pub transform: TransformModel,
    pub clip: Option<(Seq<PathSegment>, FillRule)>,
    pub clear_rect: Option<ClearModel>,
}

/// Mathematical model of a queued segment.
pub ghost enum SegModel {
    Vector(VectorModel),
    Pixel(PixelModel),
}

/// A vector drawing instruction: a device-space path with its resolved
/// fill, stroke, clip and clear state.
#[derive(Debug)]
pub struct VectorSegment {
    pub path: PathData,
    pub fill_rule: FillRule,
    pub fill: Option<Paint>,
    pub stroke: Option<Stroke>,
    pub clip: Option<ClipMask>,
    pub clear_rect: Option<ClearRect>,
}

/// Model of an optional stroke.
pub open spec fn stroke_opt_model(s: Option<Stroke>) -> Option<StrokeModel> {
    match s {
        Some(st) => Some(st@),
        None => None,
    }
}

/// Model of an optional clear accumulator.
pub open spec fn clear_opt_model(c: Option<ClearRect>) -> Option<ClearModel> {
    match c {
        Some(cr) => Some(cr@),
        None => None,
    }
}

impl View for VectorSegment {
    type V = VectorModel;

    open spec fn view(&self) -> VectorModel {
        VectorModel {
            path: self.path@,
            fill_rule: self.fill_rule,
            fill: self.fill,
            stroke: stroke_opt_model(self.stroke),
            clip: clip_model(self.clip),
            clear_rect: clear_opt_model(self.clear_rect),
        }
    }
}

/// The model of an empty vector segment.
pub open spec fn default_vector_model() -> VectorModel {
    VectorModel {
        path: Seq::<PathSegment>::empty(),
        fill_rule: FillRule::Nonzero,
        fill: None,
        stroke: None,
        clip: None,
        clear_rect: None,
    }
}

impl Default for VectorSegment {
    /// An empty path under the non-zero rule, with no fill, stroke, clip
    /// or clear state.
    fn default() -> (r: Self)
        ensures
            r@ == default_vector_model(),
    {
        VectorSegment {
            path: PathData::new(),
            fill_rule: FillRule::Nonzero,
            fill: None,
            stroke: None,
            clip: None,
            clear_rect: None,
        }
    }
}

/// A raw-pixel drawing instruction: the bytes, their extent, and how to
/// composite them.
#[derive(Debug)]
pub struct PixelSegment {
    pub data: Vec<u8>,
    pub blend_mode: BlendMode,
    pub size: (u32, u32),
    pub opacity: i64,
    pub transform: Transform,
    pub clip: Option<ClipMask>,
    pub clear_rect: Option<ClearRect>,
}

impl View for PixelSegment {
    type V = PixelModel;

    open spec fn view(&self) -> PixelModel {
        PixelModel {
            data: self.data@,
            blend_mode: self.blend_mode,
            size: self.size,
            opacity: self.opacity,
            transform: self.transform@,
            clip: clip_model(self.clip),
            clear_rect: clear_opt_model(self.clear_rect),
        }
    }
}

impl PixelSegment {
    /// A pixel instruction with the given bytes and extent, composited
    /// source-over at full opacity with the identity transform.
    pub fn new(data: &[u8], size: (u32, u32)) -> (r: Self)
        ensures
            r@.data == data@,
            r@.blend_mode == BlendMode::SourceOver,
            r@.size == size,
            r@.opacity == crate::fixed::SCALE_ONE,
            r@.transform == crate::transform::spec_identity(),
            r@.clip is None,
            r@.clear_rect is None,
    {
        let mut bytes = Vec::<u8>::new();
        let mut i: usize = 0;
        while i < data.len()
            invariant
                i <= data@.len(),
                bytes@ == data@.take(i as int),
            decreases data@.len() - i,
        {
            bytes.push(data[i]);
            proof {
                assert(data@.take(i + 1 as int) =~= data@.take(i as int).push(data@[i as int]));
            }
            i = i + 1;
        }
        proof {
            assert(data@.take(data@.len() as int) =~= data@);
        }
        PixelSegment {
            data: bytes,
            blend_mode: BlendMode::default(),
            size,
            opacity: crate::fixed::SCALE_ONE,
            transform: Transform::default(),
            clip: None,
            clear_rect: None,
        }
    }
}

/// One queued drawing instruction.
#[derive(Debug)]
pub enum Segment {
    Vector(VectorSegment),
    Pixel(PixelSegment),
}

/// The model of a queued segment.
pub open spec fn segment_model(s: Segment) -> SegModel {
    match s {
        Segment::Vector(v) => SegModel::Vector(v@),
        Segment::Pixel(p) => SegModel::Pixel(p@),
    }
}

impl Default for Segment {
    /// The default instruction is an empty vector segment.
    fn default() -> (r: Self)
        ensures
            segment_model(r) == SegModel::Vector(default_vector_model()),
    {
        Segment::Vector(VectorSegment::default())
    }
}

/// A recorded drawing instruction, owned by the queue; immutable once
/// appended, except that a clear request may grow its clear accumulator.
#[derive(Debug)]
pub struct OperateSegment {
    inner: Segment,
}

impl View for OperateSegment {
    type V = SegModel;

    closed spec fn view(&self) -> SegModel {
        segment_model(self.inner)
    }
}

impl Default for OperateSegment {
    /// The default instruction is an empty vector segment.
    fn default() -> (r: Self)
        ensures
            r@ == SegModel::Vector(default_vector_model()),
    {
        OperateSegment { inner: Segment::default() }
    }
}

/// A segment model after one clear request was folded into it.
pub open spec fn spec_seg_append_clear(
    m: SegModel, x: int, y: int, w: int, h: int, ts: TransformModel, gw: i64, gh: i64,
) -> SegModel {
    match m {
        SegModel::Vector(v) => SegModel::Vector(VectorModel {
            clear_rect: Some(spec_clear_append(clear_or_new(v.clear_rect, gw, gh), x, y, w, h, ts)),
            ..v
        }),
        SegModel::Pixel(p) => SegModel::Pixel(PixelModel {
            clear_rect: Some(spec_clear_append(clear_or_new(p.clear_rect, gw, gh), x, y, w, h, ts)),
            ..p
        }),
    }
}

/// An existing clear accumulator, or a fresh one bound to the canvas
/// extent.
pub open spec fn clear_or_new(c: Option<ClearModel>, gw: i64, gh: i64) -> ClearModel {
    match c {
        Some(cm) => cm,
        None => ClearModel { width: gw, height: gh, list: Seq::<Seq<PathSegment>>::empty() },
    }
}

impl OperateSegment {
    /// The instruction inside.
    pub fn segment(&self) -> (r: &Segment)
        ensures
            segment_model(*r) == self@,
    {
        &self.inner
    }

    /// Folds one clear request into this instruction's clear accumulator,
    /// creating the accumulator bound to the canvas extent if the
    /// instruction had none.
    pub fn append_clear_rect(&mut self, x: i64, y: i64, width: i64, height: i64, transform: &Transform, g_width: i64, g_height: i64)
        requires
            transform.lhs_ok(),
            fx_bounded(x as int),
            fx_bounded(y as int),
            fx_bounded(x as int + width as int),
            fx_bounded(y as int + height as int),
        ensures
            final(self)@ == spec_seg_append_clear(old(self)@,
                x as int, y as int, width as int, height as int, transform@, g_width, g_height),
    {
        match &mut self.inner {
            Segment::Vector(v) => {
                let mut clear_rect = match v.clear_rect.take() {
                    Some(cr) => cr,
                    None => ClearRect::new(g_width, g_height),
                };
                clear_rect.append(x, y, width, height, transform);
                v.clear_rect = Some(clear_rect);
            }
            Segment::Pixel(p) => {
                let mut clear_rect = match p.clear_rect.take() {
                    Some(cr) => cr,
                    None => ClearRect::new(g_width, g_height),
                };
                clear_rect.append(x, y, width, height, transform);
                p.clear_rect = Some(clear_rect);
            }
        }
    }

    /// The width of the instruction: the bounding-box width of a vector
    /// path, the pixel width of a pixel instruction; nothing for a path
    /// with no box or a width beyond the machine range.
    pub fn width(&self) -> (r: Option<i64>)
        requires
            match self@ {
                SegModel::Vector(v) => crate::path::segs_all_bounded(v.path),
                SegModel::Pixel(_) => true,
            },
        ensures
            match self@ {
                SegModel::Vector(v) => {
                    if v.path.len() == 0 || v.path[0] is ClosePath {
                        r is None
                    } else {
                        let b = crate::bbox::spec_path_bbox(v.path);
                        if i64::MIN <= b.x2 - b.x1 <= i64::MAX {
                            r == Some((b.x2 - b.x1) as i64)
                        } else {
                            r is None
                        }
                    }
                },
                SegModel::Pixel(p) => r == Some(p.size.0 as i64),
            },
    {
        match &self.inner {
            Segment::Vector(seg) => {
                let b = match seg.path.get_bounding_box() {
                    Some(b) => b,
                    None => {
                        return None;
                    }
                };
                let w: i128 = (b.x2 as i128) - (b.x1 as i128);
                if -0x8000_0000_0000_0000i128 <= w && w <= 0x7FFF_FFFF_FFFF_FFFFi128 {
                    Some(w as i64)
                } else {
                    None
                }
            }
            Segment::Pixel(seg) => Some(seg.size.0 as i64),
        }
    }

    /// The height of the instruction, as `width`.
    pub fn height(&self) -> (r: Option<i64>)
        requires
            match self@ {
                SegModel::Vector(v) => crate::path::segs_all_bounded(v.path),
                SegModel::Pixel(_) => true,
            },
        ensures
            match self@ {
                SegModel::Vector(v) => {
                    if v.path.len() == 0 || v.path[0] is ClosePath {
                        r is None
                    } else {
                        let b = crate::bbox::spec_path_bbox(v.path);
                        if i64::MIN <= b.y2 - b.y1 <= i64::MAX {
                            r == Some((b.y2 - b.y1) as i64)
                        } else {
                            r is None
                        }
                    }
                },
                SegModel::Pixel(p) => r == Some(p.size.1 as i64),
            },
    {
        match &self.inner {
            Segment::Vector(seg) => {
                let b = match seg.path.get_bounding_box() {
                    Some(b) => b,
                    None => {
                        return None;
                    }
                };
                let h: i128 = (b.y2 as i128) - (b.y1 as i128);
                if -0x8000_0000_0000_0000i128 <= h && h <= 0x7FFF_FFFF_FFFF_FFFFi128 {
                    Some(h as i64)
                } else {
                    None
                }
            }
            Segment::Pixel(seg) => Some(seg.size.1 as i64),
        }
    }

    /// An empty vector instruction.
    pub fn create_vector() -> (r: Self)
        ensures
            r@ == SegModel::Vector(default_vector_model()),
    {
        OperateSegment::default()
    }

    /// A pixel instruction with the given bytes and extent.
    pub fn create_pixel(data: &[u8], size: (u32, u32)) -> (r: Self)
        ensures
            match r@ {
                SegModel::Pixel(p) => p.data == data@ && p.size == size,
                SegModel::Vector(_) => false,
            },
    {
        OperateSegment { inner: Segment::Pixel(PixelSegment::new(data, size)) }
    }

    /// Wraps a finished vector segment.
    pub fn from_vector(v: VectorSegment) -> (r: Self)
        ensures
            r@ == SegModel::Vector(v@),
    {
        OperateSegment { inner: Segment::Vector(v) }
    }

    /// Wraps a finished pixel segment.
    pub fn from_pixel(p: PixelSegment) -> (r: Self)
        ensures
            r@ == SegModel::Pixel(p@),
    {
        OperateSegment { inner: Segment::Pixel(p) }
    }
}

/// The ordered queue of recorded drawing instructions.
#[derive(Debug)]
pub struct Operates {
    queue: Vec<OperateSegment>,
}

impl View for Operates {
    type V = Seq<SegModel>;

    closed spec fn view(&self) -> Seq<SegModel> {
        self.queue@.map(|i: int, s: OperateSegment| s@)
    }
}

impl Default for Operates {
    /// The queue starts empty.
    fn default() -> (r: Self)
        ensures
            r@ == Seq::<SegModel>::empty(),
    {
        let r = Operates { queue: vec![] };
        proof {
            assert(r@ =~= Seq::<SegModel>::empty());
        }
        r
    }
}

impl Operates {
    /// The number of queued instructions.
    pub fn len(&self) -> (r: usize)
        ensures
            r == self@.len(),
    {
        self.queue.len()
    }

    /// The instruction at the given position in draw order.
    pub fn get(&self, i: usize) -> (r: &OperateSegment)
        requires
            i < self@.len(),
        ensures
            r@ == self@[i as int],
    {
        &self.queue[i]
    }

    /// Appends a finished instruction at the end of the draw order; every
    /// instruction already queued stays where it is, so later entries
    /// paint over earlier ones wherever they overlap.
    pub fn push(&mut self, seg: OperateSegment)
        ensures
            final(self)@ == old(self)@.push(seg@),
    {
        let ghost pre = self@;
        self.queue.push(seg);
        proof {
            assert(self@ =~= pre.push(self.queue@.last()@));
        }
    }

    /// Starts a new instruction for this queue.
    pub fn append(&self) -> (r: OperateAppender)
        ensures
            true,
    {
        OperateAppender {}
    }

    /// Folds one clear request into every instruction already queued, in
    /// one pass; instructions recorded after this call are not affected
    /// by it.
    pub fn append_clear_rect(&mut self, x: i64, y: i64, width: i64, height: i64, transform: &Transform, g_width: i64, g_height: i64)
        requires
            transform.lhs_ok(),
            fx_bounded(x as int),
            fx_bounded(y as int),
            fx_bounded(x as int + width as int),
            fx_bounded(y as int + height as int),
        ensures
            final(self)@ == old(self)@.map(|i: int, m: SegModel| spec_seg_append_clear(
                m, x as int, y as int, width as int, height as int, transform@, g_width, g_height)),
    {
        let ghost orig = self@;
        let ghost mapped = orig.map(|i: int, m: SegModel| spec_seg_append_clear(
            m, x as int, y as int, width as int, height as int, transform@, g_width, g_height));
        let mut i: usize = 0;
        while i < self.queue.len()
            invariant
                i <= self.queue@.len(),
                self.queue@.len() == orig.len(),
                transform.lhs_ok(),
                fx_bounded(x as int),
                fx_bounded(y as int),
                fx_bounded(x as int + width as int),
                fx_bounded(y as int + height as int),
                mapped == orig.map(|k: int, m: SegModel| spec_seg_append_clear(
                    m, x as int, y as int, width as int, height as int, transform@, g_width, g_height)),
                forall|k: int| 0 <= k < i ==> #[trigger] self.queue@[k]@ == mapped[k],
                forall|k: int| i <= k < orig.len() ==> #[trigger] self.queue@[k]@ == orig[k],
            decreases self.queue@.len() - i,
        {
            let item = &mut self.queue[i];
            item.append_clear_rect(x, y, width, height, transform, g_width, g_height);
            i = i + 1;
        }
        proof {
            assert(self@ =~= mapped);
        }
    }
}

/// Starts either kind of instruction.
pub struct OperateAppender {}

impl OperateAppender {
    /// Starts a vector instruction.
    pub fn vector(self) -> (r: VectorAppender)
        ensures
            r.segment@ == default_vector_model(),
    {
        VectorAppender { segment: VectorSegment::default() }
    }

    /// Starts a pixel instruction with the given bytes and extent.
    pub fn pixel(self, data: &[u8], size: (u32, u32)) -> (r: PixelAppender)
        ensures
            r.segment@.data == data@,
            r.segment@.size == size,
            r.segment@.clip is None,
            r.segment@.clear_rect is None,
    {
        PixelAppender { segment: PixelSegment::new(data, size) }
    }
}

/// Builds a vector instruction before it enters the queue.
pub struct VectorAppender {
    pub segment: VectorSegment,
}

impl VectorAppender {
    /// Appends the built instruction to the queue.
    pub fn finish(self, operates: &mut Operates)
        ensures
            final(operates)@ == old(operates)@.push(SegModel::Vector(self.segment@)),
    {
        operates.push(OperateSegment::from_vector(self.segment));
    }

    /// Sets the path.
    pub fn set_path(self, path_data: PathData) -> (r: Self)
        ensures
            r.segment@ == (VectorModel { path: path_data@, ..self.segment@ }),
    {
        VectorAppender { segment: VectorSegment { path: path_data, ..self.segment } }
    }

    /// Sets the fill rule.
    pub fn set_fill_rule(self, fill_rule: FillRule) -> (r: Self)
        ensures
            r.segment@ == (VectorModel { fill_rule, ..self.segment@ }),
    {
        VectorAppender { segment: VectorSegment { fill_rule, ..self.segment } }
    }

    /// Sets the fill paint.
    pub fn set_fill(self, paint: Paint) -> (r: Self)
        ensures
            r.segment@ == (VectorModel { fill: Some(paint), ..self.segment@ }),
    {
        VectorAppender { segment: VectorSegment { fill: Some(paint), ..self.segment } }
    }

    /// Sets the stroke.
    pub fn set_stroke(self, stroke: Stroke) -> (r: Self)
        ensures
            r.segment@ == (VectorModel { stroke: Some(stroke@), ..self.segment@ }),
    {
        VectorAppender { segment: VectorSegment { stroke: Some(stroke), ..self.segment } }
    }

    /// Sets or clears the clip.
    pub fn set_clip(self, clip: Option<ClipMask>) -> (r: Self)
        ensures
            r.segment@ == (VectorModel { clip: clip_model(clip), ..self.segment@ }),
    {
        VectorAppender { segment: VectorSegment { clip, ..self.segment } }
    }
}

/// Builds a pixel instruction before it enters the queue.
pub struct PixelAppender {
    pub segment: PixelSegment,
}

impl PixelAppender {
    /// Appends the built instruction to the queue.
    pub fn finish(self, operates: &mut Operates)
        ensures
            final(operates)@ == old(operates)@.push(SegModel::Pixel(self.segment@)),
    {
        operates.push(OperateSegment::from_pixel(self.segment));
    }

    /// Sets the extent.
    pub fn set_size(self, size: (u32, u32)) -> (r: Self)
        ensures
            r.segment@ == (PixelModel { size, ..self.segment@ }),
    {
        PixelAppender { segment: PixelSegment { size, ..self.segment } }
    }

    /// Sets the blend mode.
    pub fn set_blend_mode(self, blend_mode: BlendMode) -> (r: Self)
        ensures
            r.segment@ == (PixelModel { blend_mode, ..self.segment@ }),
    {
        PixelAppender { segment: PixelSegment { blend_mode, ..self.segment } }
    }

    /// Sets the transform.
    pub fn set_transform(self, transform: Transform) -> (r: Self)
        ensures
            r.segment@ == (PixelModel { transform: transform@, ..self.segment@ }),
    {
        PixelAppender { segment: PixelSegment { transform, ..self.segment } }
    }

    /// Sets the clip.
    pub fn set_clip(self, clip: ClipMask) -> (r: Self)
        ensures
            r.segment@ == (PixelModel { clip: clip_model(Some(clip)), ..self.segment@ }),
    {
        PixelAppender { segment: PixelSegment { clip: Some(clip), ..self.segment } }
    }
}

} // verus!
