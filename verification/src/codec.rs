//! The numeric wire encoding of a path.
//!
//! A path crosses the recording interface as a flat array
//! `[count, tag, args.., tag, args..]`: tag 0 is a move with two
//! arguments, 1 a line with two, 2 a curve with six (the two control
//! points first, the end point last), 3 a close with none.  Decoding
//! produces no path when a tag is unknown or when the declared count does
//! not match the number of segments actually decoded; incomplete trailing
//! arguments decode to no segment and are caught by the count check.

use vstd::prelude::*;
use crate::numfmt::fx_text;
use crate::numfmt::fx_to_dec;
use crate::path::{PathData, PathSegment};

verus! {

/// The wire words of one segment.
pub open spec fn seg_code(seg: PathSegment) -> Seq<i64> {
    match seg {
        PathSegment::MoveTo { x, y } => seq![0i64, x, y],
        PathSegment::LineTo { x, y } => seq![1i64, x, y],
        PathSegment::CurveTo { x, y, x1, y1, x2, y2 } => seq![2i64, x1, y1, x2, y2, x, y],
        PathSegment::ClosePath => seq![3i64],
    }
}

/// The wire words of a segment sequence, without the leading count.
pub open spec fn segs_code(segs: Seq<PathSegment>) -> Seq<i64>
    decreases segs.len(),
{
    if segs.len() == 0 {
        Seq::<i64>::empty()
    } else {
        seg_code(segs[0]) + segs_code(segs.drop_first())
    }
}

/// The full wire form of a path: the segment count, then the segments.
pub open spec fn path_code(segs: Seq<PathSegment>) -> Seq<i64> {
    seq![segs.len() as i64] + segs_code(segs)
}

/// The segments read from the wire words starting at position `i`: none
/// on an unknown tag, and no further segments once the words run out
/// mid-segment.
pub open spec fn spec_parse(input: Seq<i64>, i: int) -> Option<Seq<PathSegment>>
    decreases input.len() - i,
{
    if i >= input.len() {
        Some(Seq::<PathSegment>::empty())
    } else if input[i] == 0 {
        if i + 3 <= input.len() {
            match spec_parse(input, i + 3) {
                Some(rest) => Some(seq![PathSegment::MoveTo { x: input[i + 1], y: input[i + 2] }] + rest),
                None => None,
            }
        } else {
            Some(Seq::<PathSegment>::empty())
        }
    } else if input[i] == 1 {
        if i + 3 <= input.len() {
            match spec_parse(input, i + 3) {
                Some(rest) => Some(seq![PathSegment::LineTo { x: input[i + 1], y: input[i + 2] }] + rest),
                None => None,
            }
        } else {
            Some(Seq::<PathSegment>::empty())
        }
    } else if input[i] == 2 {
        if i + 7 <= input.len() {
            match spec_parse(input, i + 7) {
                Some(rest) => Some(seq![PathSegment::CurveTo {
                    x1: input[i + 1], y1: input[i + 2],
                    x2: input[i + 3], y2: input[i + 4],
                    x: input[i + 5], y: input[i + 6],
                }] + rest),
                None => None,
            }
        } else {
            Some(Seq::<PathSegment>::empty())
        }
    } else if input[i] == 3 {
        match spec_parse(input, i + 1) {
            Some(rest) => Some(seq![PathSegment::ClosePath] + rest),
            None => None,
        }
    } else {
        None
    }
}

/// The path decoded from the wire words: the segments after the count,
/// provided every tag is known and the count matches.
pub open spec fn spec_decode(input: Seq<i64>) -> Option<Seq<PathSegment>> {
    if input.len() == 0 {
        None
    } else {
        match spec_parse(input, 1) {
            Some(segs) => if input[0] == segs.len() as i64 && segs.len() <= i64::MAX {
                Some(segs)
            } else {
                None
            },
            None => None,
        }
    }
}

/// Encodes a path into its wire words.
pub fn path2array(path: &PathData) -> (r: Vec<i64>)
    requires
        path@.len() <= i64::MAX,
    ensures
        r@ == path_code(path@),
{
    let mut result = Vec::<i64>::new();
    let n: usize = path.len();
    result.push(n as i64);
    let mut i: usize = 0;
    while i < path.len()
        invariant
            i <= path@.len(),
            path@.len() == n <= i64::MAX,
            result@ == seq![n as i64] + segs_code(path@.take(i as int)),
        decreases path@.len() - i,
    {
        let seg = *path.get(i);
        match seg {
            PathSegment::MoveTo { x, y } => {
                result.push(0);
                result.push(x);
                result.push(y);
            }
            PathSegment::LineTo { x, y } => {
                result.push(1);
                result.push(x);
                result.push(y);
            }
            PathSegment::CurveTo { x, y, x1, y1, x2, y2 } => {
                result.push(2);
                result.push(x1);
                result.push(y1);
                result.push(x2);
                result.push(y2);
                result.push(x);
                result.push(y);
            }
            PathSegment::ClosePath => {
                result.push(3);
            }
        }
        proof {
            lemma_segs_code_push(path@.take(i as int), path@[i as int]);
            assert(path@.take(i + 1 as int) =~= path@.take(i as int).push(path@[i as int]));
            assert(result@ =~= seq![n as i64] + segs_code(path@.take(i + 1 as int)));
        }
        i = i + 1;
    }
    proof {
        assert(path@.take(path@.len() as int) =~= path@);
    }
    result
}

/// Decodes wire words into a path: no path when the words are empty, hold
/// an unknown tag, or declare a count other than the number of segments
/// they encode.
pub fn array2path(input: &Vec<i64>) -> (r: Option<PathData>)
    ensures
        match r {
            Some(pd) => spec_decode(input@) == Some(pd@),
            None => spec_decode(input@) is None,
        },
{
    if input.len() == 0 {
        return None;
    }
    let n: i64 = input[0];
    let mut pd = PathData::new();
    let mut i: usize = 1;
    let mut failed = false;
    let mut done = false;
    let ghost total = spec_parse(input@, 1);
    while i < input.len() && !done
        invariant
            1 <= i <= input@.len(),
            !failed && !done ==> match spec_parse(input@, i as int) {
                Some(suffix) => total == Some(pd@ + suffix),
                None => total is None,
            },
            done && !failed ==> total == Some(pd@),
            failed ==> total is None && done,
        decreases (if done { 0int } else { 1int }), input@.len() - i,
    {
        let ghost pd_pre = pd@;
        let tag = input[i];
        if tag == 0 {
            if input.len() - i >= 3 {
                pd.move_to(input[i + 1], input[i + 2]);
                i = i + 3;
            } else {
                proof {
                    assert(spec_parse(input@, i as int) == Some(Seq::<PathSegment>::empty()));
                    assert(pd@ + Seq::<PathSegment>::empty() =~= pd@);
                }
                done = true;
            }
        } else if tag == 1 {
            if input.len() - i >= 3 {
                pd.line_to(input[i + 1], input[i + 2]);
                i = i + 3;
            } else {
                proof {
                    assert(spec_parse(input@, i as int) == Some(Seq::<PathSegment>::empty()));
                    assert(pd@ + Seq::<PathSegment>::empty() =~= pd@);
                }
                done = true;
            }
        } else if tag == 2 {
            if input.len() - i >= 7 {
                pd.curve_to(input[i + 1], input[i + 2], input[i + 3], input[i + 4], input[i + 5], input[i + 6]);
                i = i + 7;
            } else {
                proof {
                    assert(spec_parse(input@, i as int) == Some(Seq::<PathSegment>::empty()));
                    assert(pd@ + Seq::<PathSegment>::empty() =~= pd@);
                }
                done = true;
            }
        } else if tag == 3 {
            pd.close();
            i = i + 1;
        } else {
            failed = true;
            done = true;
        }
        proof {
            if !failed && !done {
                match spec_parse(input@, i as int) {
                    Some(suffix) => {
                        assert(pd_pre + (pd@.subrange(pd_pre.len() as int, pd@.len() as int) + suffix)
                            =~= pd@ + suffix);
                    }
                    None => {}
                }
            }
        }
    }
    if failed {
        return None;
    }
    proof {
        if !done {
            assert(spec_parse(input@, i as int) == Some(Seq::<PathSegment>::empty()));
            assert(pd@ + Seq::<PathSegment>::empty() =~= pd@);
        }
        assert(total == Some(pd@));
    }
    if n >= 0 && pd.len() as u64 == n as u64 {
        proof {
            assert(pd@.len() == n);
            assert(pd@.len() <= i64::MAX);
            assert(pd@.len() as i64 == n);
            assert(input@[0] == pd@.len() as i64);
        }
        Some(pd)
    } else {
        proof {
            if pd@.len() <= i64::MAX && input@[0] == pd@.len() as i64 {
                assert(n == pd@.len() as i64);
                assert(n >= 0);
                assert(pd@.len() as u64 == n as u64);
                assert(false);
            }
        }
        None
    }
}

/// The wire words of a sequence extended by one segment are the words of
/// the sequence followed by the words of the segment.
pub proof fn lemma_segs_code_push(segs: Seq<PathSegment>, seg: PathSegment)
    ensures
        segs_code(segs.push(seg)) == segs_code(segs) + seg_code(seg),
    decreases segs.len(),
{
    if segs.len() == 0 {
        assert(segs.push(seg)[0] == seg);
        assert(segs.push(seg).drop_first() =~= Seq::<PathSegment>::empty());
        assert(segs_code(segs.push(seg))
            == seg_code(seg) + segs_code(Seq::<PathSegment>::empty()));
        assert(segs_code(Seq::<PathSegment>::empty()) == Seq::<i64>::empty());
        assert(seg_code(seg) + Seq::<i64>::empty() =~= seg_code(seg));
        assert(segs_code(segs) == Seq::<i64>::empty());
        assert(Seq::<i64>::empty() + seg_code(seg) =~= seg_code(seg));
    } else {
        assert(segs.push(seg).drop_first() =~= segs.drop_first().push(seg));
        lemma_segs_code_push(segs.drop_first(), seg);
        assert(segs_code(segs.push(seg))
            =~= seg_code(segs[0]) + (segs_code(segs.drop_first()) + seg_code(seg)));
        assert(seg_code(segs[0]) + (segs_code(segs.drop_first()) + seg_code(seg))
            =~= (seg_code(segs[0]) + segs_code(segs.drop_first())) + seg_code(seg));
    }
}

/// Parsing the wire words of a segment sequence starting where they begin
/// yields exactly that sequence.
pub proof fn lemma_parse_code(input: Seq<i64>, i: int, segs: Seq<PathSegment>)
    requires
        0 <= i <= input.len(),
        input.subrange(i, input.len() as int) == segs_code(segs),
    ensures
        spec_parse(input, i) == Some(segs),
    decreases segs.len(),
{
    let suffix = input.subrange(i, input.len() as int);
    if segs.len() == 0 {
        assert(suffix.len() == 0);
    } else {
        let head = segs[0];
        let rest = segs.drop_first();
        assert(segs_code(segs) == seg_code(head) + segs_code(rest));
        match head {
            PathSegment::MoveTo { x, y } => {
                let code = seq![0i64, x, y];
                assert(seg_code(head) == code);
                assert(suffix == code + segs_code(rest));
                assert(suffix[0] == 0 && suffix[1] == x && suffix[2] == y);
                assert(input[i] == 0 && input[i + 1] == x && input[i + 2] == y);
                let j = i + 3;
                assert(input.subrange(j, input.len() as int) =~= segs_code(rest)) by {
                    assert(forall|m: int| 0 <= m < segs_code(rest).len()
                        ==> #[trigger] segs_code(rest)[m] == suffix[3 + m]);
                };
                lemma_parse_code(input, j, rest);
                assert(spec_parse(input, i) == Some(seq![head] + rest));
            }
            PathSegment::LineTo { x, y } => {
                let code = seq![1i64, x, y];
                assert(seg_code(head) == code);
                assert(suffix == code + segs_code(rest));
                assert(suffix[0] == 1 && suffix[1] == x && suffix[2] == y);
                assert(input[i] == 1 && input[i + 1] == x && input[i + 2] == y);
                let j = i + 3;
                assert(input.subrange(j, input.len() as int) =~= segs_code(rest)) by {
                    assert(forall|m: int| 0 <= m < segs_code(rest).len()
                        ==> #[trigger] segs_code(rest)[m] == suffix[3 + m]);
                };
                lemma_parse_code(input, j, rest);
                assert(spec_parse(input, i) == Some(seq![head] + rest));
            }
            PathSegment::CurveTo { x, y, x1, y1, x2, y2 } => {
                let code = seq![2i64, x1, y1, x2, y2, x, y];
                assert(seg_code(head) == code);
                assert(suffix == code + segs_code(rest));
                assert(suffix[0] == 2 && suffix[1] == x1 && suffix[2] == y1
                    && suffix[3] == x2 && suffix[4] == y2 && suffix[5] == x && suffix[6] == y);
                assert(input[i] == 2 && input[i + 1] == x1 && input[i + 2] == y1
                    && input[i + 3] == x2 && input[i + 4] == y2
                    && input[i + 5] == x && input[i + 6] == y);
                let j = i + 7;
                assert(input.subrange(j, input.len() as int) =~= segs_code(rest)) by {
                    assert(forall|m: int| 0 <= m < segs_code(rest).len()
                        ==> #[trigger] segs_code(rest)[m] == suffix[7 + m]);
                };
                lemma_parse_code(input, j, rest);
                assert(spec_parse(input, i) == Some(seq![head] + rest));
            }
            PathSegment::ClosePath => {
                let code = seq![3i64];
                assert(seg_code(head) == code);
                assert(suffix == code + segs_code(rest));
                assert(suffix[0] == 3);
                assert(input[i] == 3);
                let j = i + 1;
                assert(input.subrange(j, input.len() as int) =~= segs_code(rest)) by {
                    assert(forall|m: int| 0 <= m < segs_code(rest).len()
                        ==> #[trigger] segs_code(rest)[m] == suffix[1 + m]);
                };
                lemma_parse_code(input, j, rest);
                assert(spec_parse(input, i) == Some(seq![head] + rest));
            }
        }
        assert(seq![head] + rest =~= segs);
    }
}

/// Round trip: decoding the wire form of any path yields that path again.
pub proof fn lemma_decode_encode(segs: Seq<PathSegment>)
    requires
        segs.len() <= i64::MAX,
    ensures
        spec_decode(path_code(segs)) == Some(segs),
{
    let code = path_code(segs);
    assert(code.subrange(1, code.len() as int) =~= segs_code(segs));
    lemma_parse_code(code, 1, segs);
    assert(code[0] == segs.len() as i64);
}

/// A tampered count is rejected: decoding the wire form of a path whose
/// leading count was replaced by any other value yields no path.
pub proof fn lemma_decode_tampered_count(segs: Seq<PathSegment>, header: i64)
    requires
        header != segs.len(),
    ensures
        spec_decode(seq![header] + segs_code(segs)) is None,
{
    let code = seq![header] + segs_code(segs);
    assert(code.subrange(1, code.len() as int) =~= segs_code(segs));
    lemma_parse_code(code, 1, segs);
    assert(code[0] == header);
}


/// The textual command of one segment: `M x y`, `L x y`,
/// `C x1 y1 x2 y2 x y` or `Z`, coordinates as exact decimals.
pub open spec fn seg_text(seg: PathSegment) -> Seq<char> {
    match seg {
        PathSegment::MoveTo { x, y } => "M "@ + fx_text(x as int) + " "@ + fx_text(y as int),
        PathSegment::LineTo { x, y } => "L "@ + fx_text(x as int) + " "@ + fx_text(y as int),
        PathSegment::CurveTo { x, y, x1, y1, x2, y2 } => "C "@
            + fx_text(x1 as int) + " "@ + fx_text(y1 as int) + " "@
            + fx_text(x2 as int) + " "@ + fx_text(y2 as int) + " "@
            + fx_text(x as int) + " "@ + fx_text(y as int),
        PathSegment::ClosePath => "Z"@,
    }
}

/// The textual form of the first `n` segments, joined by single spaces.
pub open spec fn path_text(segs: Seq<PathSegment>, n: int) -> Seq<char>
    decreases n,
{
    if n <= 0 {
        Seq::<char>::empty()
    } else if n == 1 {
        seg_text(segs[0])
    } else {
        path_text(segs, n - 1) + " "@ + seg_text(segs[n - 1])
    }
}

/// Renders one segment as its textual command.
pub fn segment2string(seg: &PathSegment) -> (r: String)
    ensures
        r@ == seg_text(*seg),
{
    proof {
        reveal_strlit("M ");
        reveal_strlit("L ");
        reveal_strlit("C ");
        reveal_strlit(" ");
        reveal_strlit("Z");
    }
    match seg {
        PathSegment::MoveTo { x, y } => {
            let mut s = "M ".to_owned();
            let a = fx_to_dec(*x);
            s.append(a.as_str());
            s.append(" ");
            let b = fx_to_dec(*y);
            s.append(b.as_str());
            s
        }
        PathSegment::LineTo { x, y } => {
            let mut s = "L ".to_owned();
            let a = fx_to_dec(*x);
            s.append(a.as_str());
            s.append(" ");
            let b = fx_to_dec(*y);
            s.append(b.as_str());
            s
        }
        PathSegment::CurveTo { x, y, x1, y1, x2, y2 } => {
            let mut s = "C ".to_owned();
            let a1 = fx_to_dec(*x1);
            s.append(a1.as_str());
            s.append(" ");
            let b1 = fx_to_dec(*y1);
            s.append(b1.as_str());
            s.append(" ");
            let a2 = fx_to_dec(*x2);
            s.append(a2.as_str());
            s.append(" ");
            let b2 = fx_to_dec(*y2);
            s.append(b2.as_str());
            s.append(" ");
            let a = fx_to_dec(*x);
            s.append(a.as_str());
            s.append(" ");
            let b = fx_to_dec(*y);
            s.append(b.as_str());
            s
        }
        PathSegment::ClosePath => "Z".to_owned(),
    }
}

/// Renders a path as its textual commands, joined by single spaces.
pub fn path2string(path: &PathData) -> (r: String)
    ensures
        r@ == path_text(path@, path@.len() as int),
{
    proof {
        reveal_strlit("");
        reveal_strlit(" ");
        assert(""@ =~= Seq::<char>::empty());
    }
    let mut result = "".to_owned();
    let mut i: usize = 0;
    while i < path.len()
        invariant
            i <= path@.len(),
            result@ == path_text(path@, i as int),
        decreases path@.len() - i,
    {
        proof {
            reveal_strlit(" ");
        }
        if i > 0 {
            result.append(" ");
        }
        let seg_str = segment2string(path.get(i));
        result.append(seg_str.as_str());
        i = i + 1;
    }
    result
}

} // verus!
