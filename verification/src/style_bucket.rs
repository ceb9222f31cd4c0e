//! The mutable canvas style state.
//!
//! A `StyleBucket` holds every style a drawing call resolves against; a
//! `StyleStore` wraps it with exactly one backup slot.  `save` copies the
//! current bucket into the backup and `restore` copies the backup back —
//! this is deliberately not a stack: a second consecutive `restore`
//! restores the same backup again (see [`lemma_double_save_restores_last`]).

use vstd::prelude::*;
use crate::fixed::SCALE_ONE;
use crate::font::FontStyles;
use crate::paint::blend::BlendMode;
use crate::paint::color::Color;
use crate::paint::stroke::{LineCap, LineJoin, Stroke, StrokeDash};
use crate::paint::{ClipMask, FillRule, Paint};
use crate::path::{PathData, PathSegment};
use crate::transform::{Transform, TransformModel, spec_identity, spec_multiply};

verus! {

/// Horizontal placement of drawn text.
#[derive(Clone, Copy, PartialEq, Eq, Structural, Debug)]
pub enum TextAlign {
    Left,
    Right,
    Center,
    Justify,
    Start,
    End,
}

/// Vertical anchor of drawn text.
#[derive(Clone, Copy, PartialEq, Eq, Structural, Debug)]
pub enum TextBaseLine {
    Top,
    Hanging,
    Middle,
    Alphabetic,
    Ideographic,
    Bottom,
}

/// Direction of drawn text.
#[derive(Clone, Copy, PartialEq, Eq, Structural, Debug)]
pub enum TextDirection {
    Ltr,
    Rtl,
}

/// Mathematical model of a dash pattern.
pub open spec fn dash_model(d: Option<StrokeDash>) -> Option<(Seq<i64>, i64)> {
    match d {
        Some(sd) => Some((sd.array@, sd.offset)),
        None => None,
    }
}

/// Mathematical model of a clip mask.
pub open spec fn clip_model(c: Option<ClipMask>) -> Option<(Seq<PathSegment>, FillRule)> {
    match c {
        Some(cm) => Some((cm.path@, cm.fill_rule)),
        None => None,
    }
}

/// Mathematical model of the style state.
pub ghost struct BucketModel {
    pub transform: TransformModel,
    pub fill: Paint,
    pub stroke: Paint,
    pub line_width: i64,
    pub line_cap: LineCap,
    pub line_join: LineJoin,
    pub miter_limit: i64,
    pub line_dash_offset: Option<(Seq<i64>, i64)>,
    pub shadow_offset_x: i64,
    pub shadow_offset_y: i64,
    pub shadow_blur: i64,
    pub shadow_color: Color,
    pub font_family: Seq<char>,
    pub font_size: i64,
    pub font_style: Seq<char>,
    pub text_align: TextAlign,
    pub text_base_line: TextBaseLine,
    pub direction: TextDirection,
    pub image_smoothing_enabled: bool,
    pub global_composite_operation: BlendMode,
    pub clip_mask: Option<(Seq<PathSegment>, FillRule)>,
}

/// The full mutable canvas style: transform, paints, stroke parameters,
/// shadow, font and text settings, compositing mode and current clip.
#[derive(Debug)]
pub struct StyleBucket {
    pub transform: Transform,
    pub fill: Paint,
    pub stroke: Paint,
    pub line_width: i64,
    pub line_cap: LineCap,
    pub line_join: LineJoin,
    pub miter_limit: i64,
    pub line_dash_offset: Option<StrokeDash>,
    pub shadow_offset_x: i64,
    pub shadow_offset_y: i64,
    pub shadow_blur: i64,
    pub shadow_color: Color,
    pub font_family: String,
    pub font_size: i64,
    pub font_style: String,
    pub text_align: TextAlign,
    pub text_base_line: TextBaseLine,
    pub direction: TextDirection,
    pub image_smoothing_enabled: bool,
    pub global_composite_operation: BlendMode,
    pub clip_mask: Option<ClipMask>,
}

impl View for StyleBucket {
    type V = BucketModel;

    open spec fn view(&self) -> BucketModel {
        BucketModel {
            transform: self.transform@,
            fill: self.fill,
            stroke: self.stroke,
            line_width: self.line_width,
            line_cap: self.line_cap,
            line_join: self.line_join,
            miter_limit: self.miter_limit,
            line_dash_offset: dash_model(self.line_dash_offset),
            shadow_offset_x: self.shadow_offset_x,
            shadow_offset_y: self.shadow_offset_y,
            shadow_blur: self.shadow_blur,
            shadow_color: self.shadow_color,
            font_family: self.font_family@,
            font_size: self.font_size,
            font_style: self.font_style@,
            text_align: self.text_align,
            text_base_line: self.text_base_line,
            direction: self.direction,
            image_smoothing_enabled: self.image_smoothing_enabled,
            global_composite_operation: self.global_composite_operation,
            clip_mask: clip_model(self.clip_mask),
        }
    }
}

/// The model every style state starts from.
pub open spec fn default_bucket_model() -> BucketModel {
    BucketModel {
        transform: spec_identity(),
        fill: Paint::default_paint_spec(),
        stroke: Paint::default_paint_spec(),
        line_width: SCALE_ONE,
        line_cap: LineCap::Butt,
        line_join: LineJoin::Miter,
        miter_limit: (4 * SCALE_ONE) as i64,
        line_dash_offset: None,
        shadow_offset_x: 0,
        shadow_offset_y: 0,
        shadow_blur: 0,
        shadow_color: Color { r: 0, g: 0, b: 0, a: 0 },
        font_family: Seq::<char>::empty(),
        font_size: (16 * SCALE_ONE) as i64,
        font_style: Seq::<char>::empty(),
        text_align: TextAlign::Left,
        text_base_line: TextBaseLine::Alphabetic,
        direction: TextDirection::Ltr,
        image_smoothing_enabled: false,
        global_composite_operation: BlendMode::SourceOver,
        clip_mask: None,
    }
}

/// A copy of an optional dash pattern carrying the same model.
pub fn copy_dash(d: &Option<StrokeDash>) -> (r: Option<StrokeDash>)
    ensures
        dash_model(r) == dash_model(*d),
{
    match d {
        Some(sd) => {
            let mut array = Vec::<i64>::new();
            let mut i: usize = 0;
            while i < sd.array.len()
                invariant
                    i <= sd.array@.len(),
                    array@ == sd.array@.take(i as int),
                decreases sd.array@.len() - i,
            {
                array.push(sd.array[i]);
                proof {
                    assert(sd.array@.take(i + 1 as int)
                        =~= sd.array@.take(i as int).push(sd.array@[i as int]));
                }
                i = i + 1;
            }
            proof {
                assert(sd.array@.take(sd.array@.len() as int) =~= sd.array@);
            }
            Some(StrokeDash { array, offset: sd.offset })
        }
        None => None,
    }
}

/// A copy of an optional clip carrying the same model.
pub fn copy_clip(c: &Option<ClipMask>) -> (r: Option<ClipMask>)
    ensures
        clip_model(r) == clip_model(*c),
{
    match c {
        Some(cm) => Some(cm.clone_mask()),
        None => None,
    }
}

impl Clone for StyleBucket {
    /// The clone carries the same style state.
    fn clone(&self) -> (r: Self)
        ensures
            r@ == self@,
    {
        StyleBucket {
            transform: self.transform,
            fill: self.fill,
            stroke: self.stroke,
            line_width: self.line_width,
            line_cap: self.line_cap,
            line_join: self.line_join,
            miter_limit: self.miter_limit,
            line_dash_offset: copy_dash(&self.line_dash_offset),
            shadow_offset_x: self.shadow_offset_x,
            shadow_offset_y: self.shadow_offset_y,
            shadow_blur: self.shadow_blur,
            shadow_color: self.shadow_color,
            font_family: self.font_family.clone(),
            font_size: self.font_size,
            font_style: self.font_style.clone(),
            text_align: self.text_align,
            text_base_line: self.text_base_line,
            direction: self.direction,
            image_smoothing_enabled: self.image_smoothing_enabled,
            global_composite_operation: self.global_composite_operation,
            clip_mask: copy_clip(&self.clip_mask),
        }
    }
}

impl Default for StyleBucket {
    /// The default style: identity transform, black paints, one-unit line
    /// width, mitered joins, sixteen-unit font size, no clip.
    fn default() -> (r: Self)
        ensures
            r@ == default_bucket_model(),
    {
        proof {
            reveal_strlit("");
            assert(""@ =~= Seq::<char>::empty());
        }
        StyleBucket {
            transform: Transform::default(),
            fill: Paint::default(),
            stroke: Paint::default(),
            line_width: SCALE_ONE,
            line_cap: LineCap::default(),
            line_join: LineJoin::default(),
            miter_limit: 4 * SCALE_ONE,
            line_dash_offset: None,
            shadow_offset_x: 0,
            shadow_offset_y: 0,
            shadow_blur: 0,
            shadow_color: Color::from_rgba8(0, 0, 0, 0),
            font_family: "".to_owned(),
            font_size: 16 * SCALE_ONE,
            font_style: "".to_owned(),
            text_align: TextAlign::Left,
            text_base_line: TextBaseLine::Alphabetic,
            direction: TextDirection::Ltr,
            image_smoothing_enabled: false,
            global_composite_operation: BlendMode::default(),
            clip_mask: None,
        }
    }
}

impl StyleBucket {
    /// Replaces the current transform.
    pub fn set_transform(&mut self, ts: &Transform)
        ensures
            final(self)@ == (BucketModel { transform: ts@, ..old(self)@ }),
    {
        self.transform = *ts;
    }

    /// Appends a transform to the current one: the new transform is
    /// applied after those already recorded.
    pub fn transform(&mut self, ts: &Transform)
        requires
            old(self).transform.lhs_ok(),
            ts.strictly_bounded(),
        ensures
            final(self)@ == (BucketModel {
                transform: spec_multiply(old(self)@.transform, ts@),
                ..old(self)@
            }),
    {
        self.transform.append(ts)
    }

    /// The current fill paint.
    pub fn get_fill(&self) -> (r: Paint)
        ensures
            r == self.fill,
    {
        self.fill
    }

    /// The current stroke: the stroke paint together with the line
    /// parameters of the style state.
    pub fn get_stroke(&self) -> (r: Stroke)
        ensures
            r.width == self.line_width,
            r.miter_limit == self.miter_limit,
            r.line_cap == self.line_cap,
            r.line_join == self.line_join,
            dash_model(r.dash) == self@.line_dash_offset,
            r.paint == self.stroke,
    {
        Stroke {
            width: self.line_width,
            miter_limit: self.miter_limit,
            line_cap: self.line_cap,
            line_join: self.line_join,
            dash: copy_dash(&self.line_dash_offset),
            paint: self.stroke,
        }
    }

    /// The font request matching the current style: its family and size,
    /// a line height of six fifths of a unit, and unset stretch, slant,
    /// variant and weight.
    pub fn get_font_style(&self) -> (r: FontStyles)
        ensures
            r.family@ == self@.font_family,
            r.size == self.font_size,
            r.line_height as int == 6 * (SCALE_ONE as int) / 5,
            r.stretch@ == Seq::<char>::empty(),
            r.style == crate::font::FontStyle::Normal,
            r.variant@ == Seq::<char>::empty(),
            r.weight@ == Seq::<char>::empty(),
    {
        proof {
            reveal_strlit("");
            assert(""@ =~= Seq::<char>::empty());
        }
        FontStyles {
            family: self.font_family.clone(),
            size: self.font_size,
            stretch: "".to_owned(),
            style: crate::font::FontStyle::Normal,
            variant: "".to_owned(),
            weight: "".to_owned(),
            line_height: 6 * SCALE_ONE / 5,
        }
    }

    /// Makes the given path the current clip, under the given rule or the
    /// non-zero default.
    pub fn set_clip(&mut self, path: PathData, fill_rule: Option<FillRule>)
        ensures
            final(self)@ == (BucketModel {
                clip_mask: Some((path@, match fill_rule {
                    Some(r) => r,
                    None => FillRule::Nonzero,
                })),
                ..old(self)@
            }),
    {
        let rule = match fill_rule {
            Some(r) => r,
            None => FillRule::Nonzero,
        };
        let clip_mask = ClipMask { path, fill_rule: rule };
        self.clip_mask = Some(clip_mask)
    }
}

/// Model of the style store: the current bucket and the one backup slot.
pub ghost struct StoreModel {
    pub inner: BucketModel,
    pub back: BucketModel,
}

/// The model after a save: the current bucket copied into the backup.
pub open spec fn spec_save(m: StoreModel) -> StoreModel {
    StoreModel { back: m.inner, ..m }
}

/// The model after a restore: the backup copied into the current bucket.
pub open spec fn spec_restore(m: StoreModel) -> StoreModel {
    StoreModel { inner: m.back, ..m }
}

/// The current style and its single backup slot.
#[derive(Debug)]
pub struct StyleStore {
    pub inner: StyleBucket,
    pub back: StyleBucket,
}

impl View for StyleStore {
    type V = StoreModel;

    open spec fn view(&self) -> StoreModel {
        StoreModel { inner: self.inner@, back: self.back@ }
    }
}

impl Default for StyleStore {
    /// Both slots start from the default style.
    fn default() -> (r: Self)
        ensures
            r@.inner == default_bucket_model(),
            r@.back == default_bucket_model(),
    {
        StyleStore { inner: StyleBucket::default(), back: StyleBucket::default() }
    }
}

impl Clone for StyleStore {
    /// The clone carries both slots.
    fn clone(&self) -> (r: Self)
        ensures
            r@ == self@,
    {
        StyleStore { inner: self.inner.clone(), back: self.back.clone() }
    }
}

impl StyleStore {
    /// Copies the current style into the single backup slot, overwriting
    /// whatever was saved before.
    pub fn save(&mut self)
        ensures
            final(self)@ == spec_save(old(self)@),
    {
        self.back = self.inner.clone();
    }

    /// Copies the backup slot back into the current style; the backup
    /// itself keeps its value, so a second restore yields the same state.
    pub fn restore(&mut self)
        ensures
            final(self)@ == spec_restore(old(self)@),
    {
        self.inner = self.back.clone();
    }
}

/// Law: a save followed by any reworking of the current style and then a
/// restore brings the current style back to the state that was saved.
pub proof fn lemma_save_then_restore(m: StoreModel, mutated: BucketModel)
    ensures
        ({
            let saved = spec_save(m);
            let worked = StoreModel { inner: mutated, back: saved.back };
            spec_restore(worked).inner == m.inner
        }),
{
}

/// Law of the single slot: after save, rework, save, rework, two restores
/// end at the state of the second save, not the first — the second
/// restore repeats the same backup.
pub proof fn lemma_double_save_restores_last(m: StoreModel, m1: BucketModel, m2: BucketModel)
    ensures
        ({
            let s1 = spec_save(m);
            let s2 = StoreModel { inner: m1, back: s1.back };
            let s3 = spec_save(s2);
            let s4 = StoreModel { inner: m2, back: s3.back };
            let s5 = spec_restore(s4);
            let s6 = spec_restore(s5);
            s6.inner == m1 && s5.inner == m1
        }),
{
}

} // verus!
