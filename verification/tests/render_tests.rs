use painter::SCALE_ONE;
use painter::context2d::Context;
use painter::operate::{Operates, Segment, VectorSegment};
use painter::paint::shader::Shader;
use painter::paint::Paint;
use painter::path::{PathData, PathSegment};

const ONE: i64 = SCALE_ONE;

fn to_skia_path(p: &PathData) -> Option<tiny_skia::Path> {
    let f = |v: i64| v as f32 / 65536.0;
    let mut pb = tiny_skia::PathBuilder::new();
    for i in 0..p.len() {
        match *p.get(i) {
            PathSegment::MoveTo { x, y } => pb.move_to(f(x), f(y)),
            PathSegment::LineTo { x, y } => pb.line_to(f(x), f(y)),
            PathSegment::CurveTo { x, y, x1, y1, x2, y2 } => {
                pb.cubic_to(f(x1), f(y1), f(x2), f(y2), f(x), f(y))
            }
            PathSegment::ClosePath => pb.close(),
        }
    }
    pb.finish()
}

fn draw_vector(pixmap: &mut tiny_skia::Pixmap, v: &VectorSegment) {
    // The raster pass a backend performs for one vector segment,
    // including the retroactive clear region as a clip.
    let path = match to_skia_path(&v.path) {
        Some(p) => p,
        None => return,
    };
    let mut paint = tiny_skia::Paint::default();
    if let Some(fill) = &v.fill {
        if let Shader::SolidColor(c) = fill.shader {
            paint.set_color_rgba8(c.r, c.g, c.b, c.a);
        }
    }
    let mask = v.clear_rect.as_ref().map(|cr| {
        let clear_path = cr.get_path(cr.clear_polygons());
        let sk = to_skia_path(&clear_path).unwrap();
        let mut mask = tiny_skia::Mask::new(pixmap.width(), pixmap.height()).unwrap();
        mask.fill_path(&sk, tiny_skia::FillRule::Winding, false, tiny_skia::Transform::identity());
        mask
    });
    pixmap.fill_path(
        &path,
        &paint,
        tiny_skia::FillRule::Winding,
        tiny_skia::Transform::identity(),
        mask.as_ref(),
    );
}

fn render(ops: &Operates, width: u32, height: u32) -> tiny_skia::Pixmap {
    let mut pixmap = tiny_skia::Pixmap::new(width, height).unwrap();
    for i in 0..ops.len() {
        match ops.get(i).segment() {
            Segment::Vector(v) => draw_vector(&mut pixmap, v),
            Segment::Pixel(_) => {}
        }
    }
    pixmap
}

#[test]
fn cleared_area_stays_untouched() {
    // A filled rectangle followed by a clear that covers it: on the next
    // render the pixels inside the cleared area are background again.
    let mut ctx = Context::new_wh(40 * ONE, 40 * ONE);
    ctx.set_fill_style(Paint::from_color_rgba8(255, 0, 0, 255));
    ctx.fill_rect(5 * ONE, 5 * ONE, 10 * ONE, 10 * ONE);
    ctx.clear_rect(0, 0, 20 * ONE, 20 * ONE);
    let pixmap = render(ctx.operates(), 40, 40);
    let inside = pixmap.pixel(10, 10).unwrap();
    assert_eq!(inside.alpha(), 0, "cleared pixel must stay background");
}

#[test]
fn uncleared_fill_shows_up() {
    let mut ctx = Context::new_wh(40 * ONE, 40 * ONE);
    ctx.set_fill_style(Paint::from_color_rgba8(255, 0, 0, 255));
    ctx.fill_rect(5 * ONE, 5 * ONE, 10 * ONE, 10 * ONE);
    let pixmap = render(ctx.operates(), 40, 40);
    let inside = pixmap.pixel(10, 10).unwrap();
    assert_eq!(inside.red(), 255);
}

#[test]
fn later_queue_entries_paint_over_earlier_ones() {
    // Two overlapping filled rectangles queued in that order: at the
    // overlap the second one's color wins, whatever styles each snapshot
    // carried.
    let mut ctx = Context::new_wh(40 * ONE, 40 * ONE);
    ctx.set_fill_style(Paint::from_color_rgba8(255, 0, 0, 255));
    ctx.fill_rect(0, 0, 20 * ONE, 20 * ONE);
    ctx.set_fill_style(Paint::from_color_rgba8(0, 0, 255, 255));
    ctx.fill_rect(10 * ONE, 10 * ONE, 20 * ONE, 20 * ONE);
    let pixmap = render(ctx.operates(), 40, 40);
    let overlap = pixmap.pixel(15, 15).unwrap();
    assert_eq!((overlap.red(), overlap.blue()), (0, 255));
    let only_first = pixmap.pixel(5, 5).unwrap();
    assert_eq!((only_first.red(), only_first.blue()), (255, 0));
}
