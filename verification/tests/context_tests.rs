use painter::SCALE_ONE;
use painter::backend::PainterBackend;
use painter::context2d::Context;
use painter::font::Glyph;
use painter::operate::Segment;
use painter::paint::{FillRule, Paint};
use painter::path::{PathData, PathSegment};
use painter::transform::Transform;

const ONE: i64 = SCALE_ONE;

#[test]
fn context2d_test() {
    let ctx = {
        let mut ctx = Context::new();
        let ts = Transform::new_translate(ONE, ONE);
        ctx.transform(&ts);
        ctx
    };
    println!("{:?}", &ctx);
}

#[test]
fn fill_snapshots_the_current_state() {
    let mut ctx = Context::new();
    ctx.set_fill_style(Paint::from_color_rgba8(1, 2, 3, 4));
    ctx.begin_path();
    ctx.move_to(0, 0);
    ctx.line_to(10 * ONE, 0);
    ctx.fill(None, Some(FillRule::Evenodd));
    let ops = ctx.operates();
    assert_eq!(ops.len(), 1);
    match ops.get(0).segment() {
        Segment::Vector(v) => {
            assert_eq!(v.fill, Some(Paint::from_color_rgba8(1, 2, 3, 4)));
            assert_eq!(v.fill_rule, FillRule::Evenodd);
            assert!(v.stroke.is_none());
            assert_eq!(v.path.len(), 2);
        }
        _ => panic!("expected a vector segment"),
    }
}

#[test]
fn stroke_resolves_the_line_settings() {
    let mut ctx = Context::new();
    ctx.set_line_width(5 * ONE);
    ctx.begin_path();
    ctx.move_to(0, 0);
    ctx.line_to(10 * ONE, 0);
    ctx.stroke(None);
    match ctx.operates().get(0).segment() {
        Segment::Vector(v) => {
            let st = v.stroke.as_ref().unwrap();
            assert_eq!(st.width, 5 * ONE);
            assert!(v.fill.is_none());
        }
        _ => panic!("expected a vector segment"),
    }
}

#[test]
fn fill_rect_applies_the_transform() {
    let mut ctx = Context::new();
    ctx.translate(100 * ONE, 0);
    ctx.fill_rect(0, 0, 10 * ONE, 10 * ONE);
    match ctx.operates().get(0).segment() {
        Segment::Vector(v) => {
            assert_eq!(*v.path.get(0), PathSegment::MoveTo { x: 100 * ONE, y: 0 });
        }
        _ => panic!("expected a vector segment"),
    }
}

#[test]
fn degenerate_rect_draws_nothing() {
    let mut ctx = Context::new();
    ctx.fill_rect(0, 0, 0, 10 * ONE);
    ctx.stroke_rect(0, 0, 10 * ONE, 0);
    assert_eq!(ctx.operates().len(), 0);
}

#[test]
fn clip_uses_the_built_path() {
    let mut ctx = Context::new();
    ctx.begin_path();
    ctx.move_to(0, 0);
    ctx.line_to(ONE, 0);
    ctx.clip(None, None);
    let attrs = ctx.get_context_attributes();
    let cm = attrs.clip_mask.as_ref().unwrap();
    assert_eq!(cm.fill_rule, FillRule::Nonzero);
    assert_eq!(cm.path.len(), 2);
}

#[test]
fn save_and_restore_are_single_slot() {
    let mut ctx = Context::new();
    ctx.save();
    ctx.set_fill_style(Paint::from_color_rgba8(9, 9, 9, 9));
    ctx.restore();
    assert_eq!(ctx.get_context_attributes().fill, Paint::default());
}

#[test]
fn explicit_path_overrides_the_cache() {
    let mut ctx = Context::new();
    let mut p = PathData::new();
    p.move_to(7 * ONE, 7 * ONE);
    ctx.fill(Some(p), None);
    match ctx.operates().get(0).segment() {
        Segment::Vector(v) => {
            assert_eq!(*v.path.get(0), PathSegment::MoveTo { x: 7 * ONE, y: 7 * ONE });
            assert_eq!(v.fill_rule, FillRule::Nonzero);
        }
        _ => panic!("expected a vector segment"),
    }
}

#[test]
fn rotate_then_transform_matches_direct_application() {
    let mut ctx = Context::new();
    ctx.rotate(0, ONE);
    let ts = ctx.get_transform();
    assert_eq!(ts.apply(10 * ONE, 0), (0, 10 * ONE));
    ctx.reset_transform();
    assert_eq!(ctx.get_transform(), Transform::default());
}

#[test]
fn place_glyph_translates_the_outline() {
    let mut outline = PathData::new();
    outline.move_to(ONE, 0);
    outline.line_to(2 * ONE, ONE);
    let glyph = Glyph {
        path: outline,
        fill_rule: FillRule::Nonzero,
        transform: Transform::default(),
    };
    let placed = Context::place_glyph(glyph, 10 * ONE, 20 * ONE).unwrap();
    assert_eq!(*placed.get(0), PathSegment::MoveTo { x: 11 * ONE, y: 20 * ONE });
    assert_eq!(*placed.get(1), PathSegment::LineTo { x: 12 * ONE, y: 21 * ONE });
}

#[test]
fn place_glyph_rejects_out_of_range_outlines() {
    // A provider transform whose scalars leave the fixed-point range
    // places nothing, and so does an outline driven out of range by a
    // huge translation in the provider's transform.
    let mut outline = PathData::new();
    outline.move_to(0, 0);
    let glyph = Glyph {
        path: outline,
        fill_rule: FillRule::Nonzero,
        transform: Transform::new(i64::MAX, 0, 0, i64::MAX, 0, 0),
    };
    assert!(Context::place_glyph(glyph, 0, 0).is_none());
    let mut outline = PathData::new();
    outline.move_to(0, 0);
    let glyph = Glyph {
        path: outline,
        fill_rule: FillRule::Nonzero,
        transform: Transform::new_translate(0x7000_0000_0000, 0),
    };
    assert!(Context::place_glyph(glyph, 0, 0).is_none());
}

struct CountingBackend {
    draws: u32,
}

impl PainterBackend for CountingBackend {
    fn resize(&mut self, _size: (u32, u32)) {}

    fn draw(&mut self, _seg: &Segment) {
        self.draws += 1;
    }

    fn finish(&mut self) -> Vec<u8> {
        vec![self.draws as u8]
    }
}

#[test]
fn render_feeds_the_whole_queue_then_finishes_once() {
    let mut ctx = Context::new();
    ctx.fill_rect(0, 0, ONE, ONE);
    ctx.fill_rect(0, 0, 2 * ONE, ONE);
    ctx.stroke_rect(0, 0, ONE, ONE);
    let mut backend = CountingBackend { draws: 0 };
    let out = ctx.render(&mut backend);
    assert_eq!(out, vec![3]);
    // Rendering does not change the queue: a second pass sees it again.
    let mut backend = CountingBackend { draws: 0 };
    assert_eq!(ctx.render(&mut backend), vec![3]);
}
