use painter::SCALE_ONE;
use painter::bbox::BoundingBox;
use painter::path::{CurvePoints, PathBuilder, PathData, PathSegment, large_arc_flag, quad_to_curve};
use painter::transform::Transform;

const ONE: i64 = SCALE_ONE;

fn arc_cubics(cx: f64, cy: f64, radius: f64, start_angle: f64, end_angle: f64, anticlockwise: bool)
    -> (i64, i64, Option<Vec<CurvePoints>>, i64, i64) {
    // The trigonometric part of arc construction, as the embedding
    // program performs it: polar ends, then the cubic decomposition.
    let polar = |angle: f64| {
        let rad = (angle - 90.0) * std::f64::consts::PI / 180.0;
        (cx + radius * rad.cos(), cy + radius * rad.sin())
    };
    let (sx, sy) = polar(end_angle);
    let (ex, ey) = polar(start_angle);
    let large_arc = end_angle - start_angle > 180.0;
    let svg_arc = kurbo::SvgArc {
        from: kurbo::Point::new(sx, sy),
        to: kurbo::Point::new(ex, ey),
        radii: kurbo::Vec2::new(radius, radius),
        x_rotation: 0.0,
        large_arc,
        sweep: anticlockwise,
    };
    let to_raw = |v: f64| (v * 65536.0).round() as i64;
    match kurbo::Arc::from_svg_arc(&svg_arc) {
        Some(arc) => {
            let mut cubics = Vec::new();
            arc.to_cubic_beziers(0.1, |p1, p2, p| {
                cubics.push(CurvePoints {
                    x1: to_raw(p1.x), y1: to_raw(p1.y),
                    x2: to_raw(p2.x), y2: to_raw(p2.y),
                    x: to_raw(p.x), y: to_raw(p.y),
                });
            });
            (to_raw(sx), to_raw(sy), Some(cubics), to_raw(ex), to_raw(ey))
        }
        None => (to_raw(sx), to_raw(sy), None, to_raw(ex), to_raw(ey)),
    }
}

#[test]
fn path_test() {
    let mut pb = PathBuilder::default();
    pb.begin_path();
    let (sx, sy, cubics, ex, ey) = arc_cubics(1000.0, 1000.0, 800.0, 0.01, 360.0, false);
    pb.arc(sx, sy, cubics, ex, ey, &Transform::default());
    pb.close_path();
    let mut path = PathData::new();
    let (sx, sy, cubics, ex, ey) = arc_cubics(1000.0, 1000.0, 800.0, 0.01, 360.0, false);
    path.arc2(sx, sy, cubics, ex, ey);
    path.close();
    println!("{:?}", painter::codec::path2string(&pb.into_path_data()));
    println!("{:?}", painter::codec::path2string(&path));
}

#[test]
fn rectangle_bounding_box_is_exact() {
    // A straight 10 by 10 rectangle: the box is exactly its corners.
    let mut path = PathData::new();
    path.move_to(0, 0);
    path.line_to(10 * ONE, 0);
    path.line_to(10 * ONE, 10 * ONE);
    path.line_to(0, 10 * ONE);
    path.close();
    let b = path.get_bounding_box().unwrap();
    assert_eq!((b.x1, b.y1, b.x2, b.y2), (0, 0, 10 * ONE, 10 * ONE));
}

#[test]
fn curve_bounding_box_includes_extremum() {
    // A cubic arching above its end points: the box must reach the
    // analytic peak at three quarters of the control height, not stop at
    // the end points.
    let mut path = PathData::new();
    path.move_to(0, 0);
    path.curve_to(0, 100 * ONE, 100 * ONE, 100 * ONE, 100 * ONE, 0);
    let b = path.get_bounding_box().unwrap();
    assert_eq!(b.x1, 0);
    assert_eq!(b.x2, 100 * ONE);
    assert_eq!(b.y1, 0);
    assert_eq!(b.y2, 75 * ONE);
}

#[test]
fn quad_elevation_uses_two_thirds_rule() {
    let (x1, y1, x2, y2, x, y) = quad_to_curve(0, 0, 30 * ONE, 30 * ONE, 60 * ONE, 0);
    assert_eq!((x1, y1), (20 * ONE, 20 * ONE));
    assert_eq!((x2, y2), (40 * ONE, 20 * ONE));
    assert_eq!((x, y), (60 * ONE, 0));
}

#[test]
fn last_pos_reads_curve_end() {
    let mut path = PathData::new();
    path.move_to(ONE, 2 * ONE);
    path.curve_to(0, 0, 0, 0, 9 * ONE, 8 * ONE);
    assert_eq!(path.last_pos(), (9 * ONE, 8 * ONE));
}

#[test]
fn create_rect_rejects_flat_extents() {
    assert!(PathData::create_rect(0, 0, 0, 10 * ONE).is_none());
    assert!(PathData::create_rect(0, 0, 10 * ONE, -ONE).is_none());
    let p = PathData::create_rect(ONE, ONE, 2 * ONE, 3 * ONE).unwrap();
    assert_eq!(p.len(), 5);
    assert_eq!(*p.get(0), PathSegment::MoveTo { x: ONE, y: ONE });
    assert_eq!(*p.get(1), PathSegment::LineTo { x: 3 * ONE, y: ONE });
    assert_eq!(*p.get(2), PathSegment::LineTo { x: 3 * ONE, y: 4 * ONE });
    assert_eq!(*p.get(3), PathSegment::LineTo { x: ONE, y: 4 * ONE });
    assert_eq!(*p.get(4), PathSegment::ClosePath);
}

#[test]
fn transform_moves_every_point() {
    let mut path = PathData::new();
    path.move_to(ONE, ONE);
    path.line_to(2 * ONE, 2 * ONE);
    path.transform(Transform::new_translate(ONE, 0));
    assert_eq!(*path.get(0), PathSegment::MoveTo { x: 2 * ONE, y: ONE });
    assert_eq!(*path.get(1), PathSegment::LineTo { x: 3 * ONE, y: 2 * ONE });
}

#[test]
fn half_turn_arc_has_no_large_arc_flag() {
    // A span of exactly half a turn keeps the flag down; anything wider
    // raises it.
    assert!(!large_arc_flag(0, 180 * ONE));
    assert!(large_arc_flag(0, 180 * ONE + 1));
    assert!(!large_arc_flag(90 * ONE, 200 * ONE));
}

#[test]
fn arc_polyline_stays_near_circle() {
    // A half-turn arc of radius ten: the cubic decomposition's polyline
    // stays within the flattening tolerance of the true circle.
    let (sx, sy, cubics, _ex, _ey) = arc_cubics(0.0, 0.0, 10.0, 0.0, 180.0, false);
    let mut path = PathData::new();
    path.arc2(sx, sy, cubics, _ex, _ey);
    let to_f = |v: i64| v as f64 / 65536.0;
    let mut prev = (to_f(sx), to_f(sy));
    for i in 0..path.len() {
        if let PathSegment::CurveTo { x, y, x1, y1, x2, y2 } = *path.get(i) {
            let p0 = prev;
            let p1 = (to_f(x1), to_f(y1));
            let p2 = (to_f(x2), to_f(y2));
            let p3 = (to_f(x), to_f(y));
            for step in 0..=16 {
                let t = step as f64 / 16.0;
                let u = 1.0 - t;
                let px = u * u * u * p0.0 + 3.0 * u * u * t * p1.0 + 3.0 * u * t * t * p2.0 + t * t * t * p3.0;
                let py = u * u * u * p0.1 + 3.0 * u * u * t * p1.1 + 3.0 * u * t * t * p2.1 + t * t * t * p3.1;
                let dist = (px * px + py * py).sqrt();
                assert!((dist - 10.0).abs() < 0.2, "point off the circle: {}", dist);
            }
            prev = p3;
        }
    }
}

#[test]
fn quad_box_reaches_half_the_control_height() {
    let mut b = BoundingBox::new(0, 0);
    b.add_quad(0, 0, 30 * ONE, 30 * ONE, 60 * ONE, 0);
    assert_eq!(b.y2, 15 * ONE);
    assert_eq!(b.x2, 60 * ONE);
}
