use painter::SCALE_ONE;
use painter::paint::color::Color;
use painter::paint::{Paint, FillRule, fill_rule_to_string, get_fill_rule};
use painter::paint::shader::Shader;
use painter::style_bucket::{StyleBucket, StyleStore};

const ONE: i64 = SCALE_ONE;

#[test]
fn defaults_follow_the_canvas_style() {
    let b = StyleBucket::default();
    assert_eq!(b.line_width, ONE);
    assert_eq!(b.miter_limit, 4 * ONE);
    assert_eq!(b.font_size, 16 * ONE);
    assert_eq!(b.fill, Paint::default());
    assert!(b.clip_mask.is_none());
}

#[test]
fn save_then_restore_brings_the_fill_back() {
    // Saving, changing the fill color and restoring yields the original
    // fill color again.
    let mut store = StyleStore::default();
    let original = store.inner.fill;
    store.save();
    store.inner.fill = Paint::from_color_rgba8(10, 20, 30, 40);
    store.restore();
    assert_eq!(store.inner.fill, original);
}

#[test]
fn second_restore_repeats_the_last_save() {
    // The backup is a single slot, not a stack: after two saves, both
    // restores yield the state of the second save, never the first.
    let mut store = StyleStore::default();
    store.save();
    store.inner.fill = Paint::from_color_rgba8(1, 1, 1, 255);
    let after_first_mutation = store.inner.fill;
    store.save();
    store.inner.fill = Paint::from_color_rgba8(2, 2, 2, 255);
    store.restore();
    assert_eq!(store.inner.fill, after_first_mutation);
    store.restore();
    assert_eq!(store.inner.fill, after_first_mutation);
    assert_ne!(store.inner.fill, Paint::default());
}

#[test]
fn paint_color_setters() {
    let mut p = Paint::default();
    assert!(p.is_solid_color());
    p.set_color_rgba8(9, 8, 7, 6);
    assert_eq!(p.shader, Shader::SolidColor(Color { r: 9, g: 8, b: 7, a: 6 }));
    let q = Paint::from_color(Color::from_rgba8(9, 8, 7, 6));
    assert_eq!(p, q);
}

#[test]
fn fill_rule_keywords() {
    assert_eq!(fill_rule_to_string(FillRule::Nonzero), "nonzero");
    assert_eq!(fill_rule_to_string(FillRule::Evenodd), "evenodd");
    assert_eq!(get_fill_rule("nonzero"), Some(FillRule::Nonzero));
    assert_eq!(get_fill_rule("evenodd"), Some(FillRule::Evenodd));
    assert_eq!(get_fill_rule("anything"), None);
}
