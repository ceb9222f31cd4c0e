use painter::SCALE_ONE;
use painter::backend::PainterBackend;
use painter::backend::svg::SvgRender;
use painter::operate::{Operates, Segment};
use painter::paint::{FillRule, Paint};
use painter::path::PathData;

const ONE: i64 = SCALE_ONE;

#[test]
fn svg_test() {
    let mut svg = SvgRender::new(40 * ONE, 40 * ONE);
    svg.resize_svg((40 * ONE, 40 * ONE), Some((20 * ONE, 20 * ONE, 60 * ONE, 60 * ONE)));
    let result = String::from_utf8(svg.finish()).unwrap();
    println!("{}", result);
    assert!(result.contains("viewBox=\"20 20 60 60\""));
    assert!(result.contains("width=\"40\""));
    assert!(result.contains("height=\"40\""));
}

#[test]
fn markup_holds_the_path_and_its_styles() {
    let mut svg = SvgRender::new(100 * ONE, 100 * ONE);
    let mut path = PathData::new();
    path.move_to(0, 0);
    path.line_to(10 * ONE, ONE + ONE / 2);
    path.close();
    let paint = Paint::from_color_rgba8(255, 0, 128, 128);
    svg.append_path(&path, Some(&paint), None, Some(FillRule::Evenodd), None);
    let result = String::from_utf8(svg.finish()).unwrap();
    assert!(result.contains("d=\"M 0 0 L 10 1.5 Z\""), "markup was: {}", result);
    assert!(result.contains("fill=\"rgba(255, 0, 128, 0.5)\""));
    assert!(result.contains("fill-rule=\"evenodd\""));
}

#[test]
fn clip_adds_a_definition_and_a_reference() {
    let mut svg = SvgRender::new(100 * ONE, 100 * ONE);
    let mut path = PathData::new();
    path.move_to(0, 0);
    path.line_to(10 * ONE, 0);
    let clip_path = PathData::create_rect(0, 0, 5 * ONE, 5 * ONE).unwrap();
    let clip = painter::paint::ClipMask { path: clip_path, fill_rule: FillRule::Nonzero };
    svg.append_path(&path, Some(&Paint::default()), None, None, Some(clip));
    let result = String::from_utf8(svg.finish()).unwrap();
    assert!(result.contains("clip-path=\"url(#use_id_1)\""), "markup was: {}", result);
    assert!(result.contains("<clipPath id=\"use_id_1\">"));
}

#[test]
fn draw_replays_fill_and_stroke_passes() {
    let mut ctx = painter::context2d::Context::new_wh(50 * ONE, 50 * ONE);
    ctx.set_fill_style(Paint::from_color_rgba8(1, 2, 3, 255));
    ctx.fill_rect(0, 0, 10 * ONE, 10 * ONE);
    ctx.begin_path();
    ctx.move_to(0, 0);
    ctx.line_to(20 * ONE, 20 * ONE);
    ctx.stroke(None);
    let mut svg = SvgRender::new(50 * ONE, 50 * ONE);
    let ops: &Operates = ctx.operates();
    for i in 0..ops.len() {
        match ops.get(i).segment() {
            seg @ Segment::Vector(_) => svg.draw(seg),
            seg @ Segment::Pixel(_) => svg.draw(seg),
        }
    }
    let result = String::from_utf8(svg.finish()).unwrap();
    assert!(result.contains("fill=\"rgba(1, 2, 3, 0.99609375)\""), "markup was: {}", result);
    assert!(result.contains("stroke=\"rgba(0, 0, 0, 0.99609375)\""));
    assert!(result.contains("stroke-width=\"1\""));
}

#[test]
fn tag_builders_carry_their_attributes() {
    let e = painter::backend::svg::create_image_tag("target.png");
    let g = painter::backend::svg::group(vec![e]);
    let m = painter::backend::svg::create_mask_tag(vec![], "m1".to_string());
    let c = painter::backend::svg::create_clip_tag(vec![], "c1".to_string());
    let u = painter::backend::svg::create_use_tag("c1".to_string());
    let d = painter::backend::svg::create_defs_tag();
    let f = painter::backend::svg::create_filter_tag();
    let p = painter::backend::svg::create_path_tag("M 0 0");
    let s = painter::backend::svg::create_style_tag("* { fill: none; }");
    let gg = painter::backend::svg::create_group();
    // The builders hand plain markup elements back; their serialisation
    // carries the attributes.
    let texts = vec![
        format!("{}", g), format!("{}", m), format!("{}", c), format!("{}", u),
        format!("{}", d), format!("{}", f), format!("{}", p), format!("{}", s),
        format!("{}", gg),
    ];
    assert!(texts[0].contains("xlink:href=\"target.png\""));
    assert!(texts[1].contains("mask"));
    assert!(texts[2].contains("clipPath"));
    assert!(texts[3].contains("xlink:href=\"#c1\""));
    assert!(texts[6].contains("d=\"M 0 0\""));
}

#[test]
fn finish_leaves_the_backend_unchanged() {
    let mut svg = SvgRender::new(10 * ONE, 10 * ONE);
    let mut path = PathData::new();
    path.move_to(0, 0);
    path.line_to(ONE, ONE);
    svg.append_path(&path, Some(&Paint::default()), None, None, None);
    let first = svg.finish();
    let second = svg.finish();
    assert_eq!(first, second);
}

#[test]
fn resize_restates_the_root_extent() {
    let mut svg = SvgRender::new(10 * ONE, 10 * ONE);
    svg.resize((25, 30));
    let result = String::from_utf8(svg.finish()).unwrap();
    assert!(result.contains("width=\"25\""), "markup was: {}", result);
    assert!(result.contains("height=\"30\""));
    assert!(result.contains("viewBox=\"0 0 25 30\""));
}
