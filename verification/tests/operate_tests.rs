use painter::SCALE_ONE;
use painter::operate::{ClearRect, Operates, OperateSegment, Segment};
use painter::path::{PathData, PathSegment};
use painter::polygon::{Polygon, partition_union};
use painter::transform::Transform;

const ONE: i64 = SCALE_ONE;

#[test]
fn operate_test() {
    let ctx = {
        let mut ops = Operates::default();
        {
            let mut path = PathData::new();
            path.move_to(ONE, ONE);
            path.line_to(2 * ONE, 2 * ONE);
            path.close();
            ops.append().vector().set_path(path).finish(&mut ops);
            ops.append().vector().set_path(PathData::default()).finish(&mut ops);
            ops
        }
    };
    println!("{:?}", &ctx);
}

#[test]
fn test_polygon() {
    let mut p0 = Polygon::new();
    p0.add_point(0, 0);
    p0.add_point(10 * ONE, 10 * ONE);
}

#[test]
fn queue_keeps_draw_order() {
    let mut ops = Operates::default();
    let mut a = PathData::new();
    a.move_to(0, 0);
    let mut b = PathData::new();
    b.move_to(ONE, ONE);
    ops.append().vector().set_path(a).finish(&mut ops);
    ops.append().vector().set_path(b).finish(&mut ops);
    assert_eq!(ops.len(), 2);
    match ops.get(0).segment() {
        Segment::Vector(v) => assert_eq!(*v.path.get(0), PathSegment::MoveTo { x: 0, y: 0 }),
        _ => panic!("expected a vector segment"),
    }
    match ops.get(1).segment() {
        Segment::Vector(v) => assert_eq!(*v.path.get(0), PathSegment::MoveTo { x: ONE, y: ONE }),
        _ => panic!("expected a vector segment"),
    }
}

#[test]
fn clear_rect_folds_into_queued_segments() {
    let mut ops = Operates::default();
    let mut a = PathData::new();
    a.move_to(0, 0);
    ops.append().vector().set_path(a).finish(&mut ops);
    ops.append_clear_rect(0, 0, 10 * ONE, 10 * ONE, &Transform::default(), 100 * ONE, 100 * ONE);
    match ops.get(0).segment() {
        Segment::Vector(v) => {
            let cr = v.clear_rect.as_ref().unwrap();
            assert_eq!(cr.clear_count(), 1);
            assert_eq!(cr.global_extent(), (100 * ONE, 100 * ONE));
        }
        _ => panic!("expected a vector segment"),
    }
    // A rectangle with no extent folds nothing in.
    ops.append_clear_rect(0, 0, 0, 10 * ONE, &Transform::default(), 100 * ONE, 100 * ONE);
    match ops.get(0).segment() {
        Segment::Vector(v) => assert_eq!(v.clear_rect.as_ref().unwrap().clear_count(), 1),
        _ => panic!("expected a vector segment"),
    }
}

#[test]
fn clear_path_carves_the_canvas() {
    let mut cr = ClearRect::new(100 * ONE, 100 * ONE);
    cr.append(10 * ONE, 10 * ONE, 20 * ONE, 20 * ONE, &Transform::default()).unwrap();
    let polys = cr.clear_polygons();
    assert_eq!(polys.len(), 1);
    assert_eq!(polys[0].points().len(), 4);
    let path = cr.get_path(polys);
    // The reverse-wound canvas rectangle, then the cleared region.
    assert_eq!(*path.get(0), PathSegment::MoveTo { x: 0, y: 0 });
    assert_eq!(*path.get(1), PathSegment::LineTo { x: 0, y: 100 * ONE });
    assert_eq!(path.len(), 10);
}

#[test]
fn partition_union_keeps_disjoint_and_hands_back_merged() {
    let mut a = Polygon::new();
    a.add_point(0, 0);
    let mut b = Polygon::new();
    b.add_point(ONE, ONE);
    let mut merged_single = Polygon::new();
    merged_single.add_point(2 * ONE, 2 * ONE);
    let (kept, merged, push_incoming) = partition_union(
        vec![a, b],
        vec![None, Some(merged_single)],
    );
    assert_eq!(kept.len(), 1);
    assert_eq!(kept[0].points()[0], (0, 0));
    assert_eq!(merged.len(), 1);
    assert_eq!(merged[0].points()[0], (2 * ONE, 2 * ONE));
    assert!(!push_incoming);
    let (kept2, merged2, push2) = partition_union(vec![], vec![]);
    assert_eq!(kept2.len(), 0);
    assert_eq!(merged2.len(), 0);
    assert!(push2);
}

#[test]
fn pixel_segment_extent() {
    let seg = OperateSegment::create_pixel(&[1, 2, 3, 4], (2, 1));
    assert_eq!(seg.width(), Some(2));
    assert_eq!(seg.height(), Some(1));
}

#[test]
fn vector_segment_extent_is_its_box() {
    let mut p = PathData::new();
    p.move_to(ONE, ONE);
    p.line_to(4 * ONE, 5 * ONE);
    let mut ops = Operates::default();
    ops.append().vector().set_path(p).finish(&mut ops);
    assert_eq!(ops.get(0).width(), Some(3 * ONE));
    assert_eq!(ops.get(0).height(), Some(4 * ONE));
}
