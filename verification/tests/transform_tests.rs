use painter::SCALE_ONE;
use painter::transform::Transform;

const ONE: i64 = SCALE_ONE;

#[test]
fn identity_applies_nothing() {
    let ts = Transform::default();
    assert_eq!(ts.apply(5 * ONE, 7 * ONE), (5 * ONE, 7 * ONE));
}

#[test]
fn translate_moves_points() {
    let mut ts = Transform::default();
    ts.translate(3 * ONE, 4 * ONE);
    assert_eq!(ts.apply(1 * ONE, 2 * ONE), (4 * ONE, 6 * ONE));
}

#[test]
fn scale_multiplies_points() {
    let mut ts = Transform::default();
    ts.scale(2 * ONE, 3 * ONE);
    assert_eq!(ts.apply(5 * ONE, 5 * ONE), (10 * ONE, 15 * ONE));
}

#[test]
fn quarter_rotation_swaps_axes() {
    // A quarter turn: cosine zero, sine one.
    let mut ts = Transform::default();
    ts.rotate(0, ONE);
    assert_eq!(ts.apply(10 * ONE, 0), (0, 10 * ONE));
}

#[test]
fn compose_then_apply_matches_stepwise_application() {
    // A translate/scale/quarter-rotate sequence: composing the transforms
    // and applying once equals applying each one to the point in the same
    // order (the later transform first, since points pass through the
    // whole recorded chain).
    let mut composed = Transform::default();
    composed.translate(3 * ONE, -2 * ONE);
    composed.scale(2 * ONE, 2 * ONE);
    composed.rotate(0, ONE);

    let point = (4 * ONE, 5 * ONE);
    let via_composed = composed.apply(point.0, point.1);

    let mut rot = Transform::default();
    rot.rotate(0, ONE);
    let mut sc = Transform::default();
    sc.scale(2 * ONE, 2 * ONE);
    let mut tr = Transform::default();
    tr.translate(3 * ONE, -2 * ONE);

    let p1 = rot.apply(point.0, point.1);
    let p2 = sc.apply(p1.0, p1.1);
    let p3 = tr.apply(p2.0, p2.1);
    assert_eq!(via_composed, p3);
}

#[test]
fn append_and_prepend_order() {
    let mut a = Transform::default();
    a.translate(ONE, 0);
    let b = Transform::new_scale(2 * ONE, 2 * ONE);
    let mut appended = a;
    appended.append(&b);
    // Appended transform applies the scale first, then the translate.
    assert_eq!(appended.apply(ONE, ONE), (3 * ONE, 2 * ONE));
    let mut prepended = a;
    prepended.prepend(&b);
    // Prepended transform applies the translate first, then the scale.
    assert_eq!(prepended.apply(ONE, ONE), (4 * ONE, 2 * ONE));
}

#[test]
fn rotate_at_round_trips_center() {
    let ts = Transform::new_rotate_at(0, ONE, 10 * ONE, 10 * ONE);
    // The rotation center stays fixed.
    assert_eq!(ts.apply(10 * ONE, 10 * ONE), (10 * ONE, 10 * ONE));
}

#[test]
fn get_translate_reads_offsets() {
    let ts = Transform::new_translate(7 * ONE, 9 * ONE);
    assert_eq!(ts.get_translate(), (7 * ONE, 9 * ONE));
}

#[test]
fn get_scale_of_a_pure_scale() {
    let ts = Transform::new_scale(3 * ONE, 4 * ONE);
    assert_eq!(ts.get_scale(), (3 * ONE, 4 * ONE));
}
