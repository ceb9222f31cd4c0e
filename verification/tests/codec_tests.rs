use painter::SCALE_ONE;
use painter::codec::{array2path, path2array, path2string, segment2string};
use painter::path::{PathData, PathSegment};

const ONE: i64 = SCALE_ONE;

fn sample_path() -> PathData {
    let mut p = PathData::new();
    p.move_to(ONE, 2 * ONE);
    p.line_to(3 * ONE, 4 * ONE);
    p.curve_to(5 * ONE, 6 * ONE, 7 * ONE, 8 * ONE, 9 * ONE, 10 * ONE);
    p.close();
    p
}

#[test]
fn round_trip_returns_the_path() {
    // Decoding the encoding yields the same segments for a path of moves,
    // lines, curves and closes.
    let p = sample_path();
    let encoded = path2array(&p);
    let decoded = array2path(&encoded).unwrap();
    assert!(decoded == p);
}

#[test]
fn encoding_layout_is_flat() {
    let mut p = PathData::new();
    p.move_to(5, 6);
    p.close();
    let encoded = path2array(&p);
    assert_eq!(encoded, vec![2, 0, 5, 6, 3]);
}

#[test]
fn tampered_count_is_rejected() {
    let p = sample_path();
    let mut encoded = path2array(&p);
    encoded[0] = encoded[0] + 1;
    assert!(array2path(&encoded).is_none());
    encoded[0] = -1;
    assert!(array2path(&encoded).is_none());
}

#[test]
fn unknown_tag_is_rejected() {
    let encoded: Vec<i64> = vec![1, 9, 0, 0];
    assert!(array2path(&encoded).is_none());
}

#[test]
fn incomplete_trailing_arguments_decode_to_nothing() {
    // A trailing half-read segment never completes; the count check
    // decides.
    let accepted: Vec<i64> = vec![1, 0, 5, 6, 0, 7];
    let decoded = array2path(&accepted).unwrap();
    assert_eq!(decoded.len(), 1);
    let rejected: Vec<i64> = vec![2, 0, 5, 6, 0, 7];
    assert!(array2path(&rejected).is_none());
}

#[test]
fn empty_input_is_rejected() {
    let encoded: Vec<i64> = vec![];
    assert!(array2path(&encoded).is_none());
}

#[test]
fn wire_path_test() {
    let raw = |v: f64| (v * 65536.0).round() as i64;
    let arr: Vec<i64> = vec![
        7,
        0, raw(1000.0), raw(200.0),
        2, raw(239.21167), raw(752.82623), raw(653.42926), raw(200.03024), raw(346.29065), raw(423.2123),
        2, raw(529.8529), raw(1647.2218), raw(132.13269), raw(1082.4402), raw(249.46776), raw(1443.5176),
        2, raw(1470.2867), raw(1647.2218), raw(810.2381), raw(1850.926), raw(1189.9016), raw(1850.926),
        2, raw(1760.928), raw(752.82623), raw(1750.6719), raw(1443.5176), raw(1868.007), raw(1082.4402),
        2, raw(1000.13965), raw(200.0), raw(1653.849), raw(423.2123), raw(1346.7103), raw(200.03024),
        3,
    ];
    let path = array2path(&arr);
    println!("{:?}", path);
    assert_eq!(path.unwrap().len(), 7);
}

#[test]
fn textual_encoding_matches_commands() {
    let mut p = PathData::new();
    p.move_to(0, 0);
    p.line_to(10 * ONE, 0);
    p.curve_to(ONE, 2 * ONE, 3 * ONE, 4 * ONE, 5 * ONE, 6 * ONE);
    p.close();
    assert_eq!(path2string(&p), "M 0 0 L 10 0 C 1 2 3 4 5 6 Z");
}

#[test]
fn textual_encoding_renders_fractions_exactly() {
    let seg = PathSegment::LineTo { x: ONE + ONE / 2, y: -ONE / 4 };
    assert_eq!(segment2string(&seg), "L 1.5 -0.25");
}
