use painter::SCALE_ONE;
use painter::numfmt::{fx_to_dec, i64_to_dec, u64_to_dec, u8_frac256_to_dec};
use painter::path2d::Path2D;
use painter::bbox::{BBox, BBoxes};

const ONE: i64 = SCALE_ONE;

#[test]
fn integers_render_in_decimal() {
    assert_eq!(u64_to_dec(0), "0");
    assert_eq!(u64_to_dec(90210), "90210");
    assert_eq!(i64_to_dec(-42), "-42");
}

#[test]
fn fixed_point_values_render_exactly() {
    assert_eq!(fx_to_dec(0), "0");
    assert_eq!(fx_to_dec(3 * ONE), "3");
    assert_eq!(fx_to_dec(3 * ONE / 2), "1.5");
    assert_eq!(fx_to_dec(-ONE / 4), "-0.25");
    assert_eq!(fx_to_dec(1), "0.0000152587890625");
}

#[test]
fn alpha_fractions_render_exactly() {
    assert_eq!(u8_frac256_to_dec(0), "0");
    assert_eq!(u8_frac256_to_dec(128), "0.5");
    assert_eq!(u8_frac256_to_dec(255), "0.99609375");
}

#[test]
fn standalone_path_encodes_itself() {
    let mut p = Path2D::new();
    p.move_to(ONE, ONE);
    p.line_to(2 * ONE, 0);
    p.close_path();
    let encoded = p.encode_array();
    assert_eq!(encoded, vec![3, 0, ONE, ONE, 1, 2 * ONE, 0, 3]);
}

#[test]
fn box_lists_total_their_extent() {
    let mut boxes = BBoxes::new();
    boxes.push(BBox::new(0, 0, 10, 10));
    boxes.push(BBox::new(-5, 2, 3, 20));
    let total = boxes.get_total_box();
    assert_eq!(total.to_array(), vec![-5, 0, 10, 20]);
    assert_eq!(total.get_width(), 10);
    assert_eq!(total.get_real_width(), 15);
    assert!(BBox::new(4, 0, 5, 0).compare(&BBox::new(1, 0, 2, 0)));
    assert_eq!(boxes.get(1).to_text(), "[-5,2,3,20]");
    assert_eq!(boxes.to_array(), vec![2, 0, 0, 10, 10, -5, 2, 3, 20]);
}
