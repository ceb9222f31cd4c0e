//! Stroke parameters.

use vstd::prelude::*;
use crate::fixed::SCALE_ONE;
use crate::paint::Paint;

verus! {

/// The shape of a stroke's ends.
#[derive(Clone, Copy, PartialEq, Eq, Structural, Debug)]
pub enum LineCap {
    Butt,
    Round,
    Square,
}

impl Default for LineCap {
    /// Stroke ends are flat by default.
    fn default() -> (r: Self)
        ensures
            r == LineCap::Butt,
    {
        LineCap::Butt
    }
}

/// The shape of a stroke's corners.
#[derive(Clone, Copy, PartialEq, Eq, Structural, Debug)]
pub enum LineJoin {
    Miter,
    Round,
    Bevel,
}

impl Default for LineJoin {
    /// Stroke corners are mitered by default.
    fn default() -> (r: Self)
        ensures
            r == LineJoin::Miter,
    {
        LineJoin::Miter
    }
}

/// A dash pattern: raw on/off lengths and a raw start offset.
#[derive(Clone, PartialEq, Eq, Debug)]
pub struct StrokeDash {
    pub array: Vec<i64>,
    pub offset: i64,
}

/// Mathematical model of a stroke.
pub ghost struct StrokeModel {
    pub width: i64,
    pub miter_limit: i64,
    pub line_cap: LineCap,
    pub line_join: LineJoin,
    pub dash: Option<(Seq<i64>, i64)>,
    pub paint: Paint,
}

/// How a path is stroked: raw width and miter limit, cap and join shapes,
/// an optional dash pattern, and the paint that draws the stroke.
#[derive(Clone, Debug)]
pub struct Stroke {
    pub width: i64,
    pub miter_limit: i64,
    pub line_cap: LineCap,
    pub line_join: LineJoin,
    pub dash: Option<StrokeDash>,
    pub paint: Paint,
}

impl View for Stroke {
    type V = StrokeModel;

    open spec fn view(&self) -> StrokeModel {
        StrokeModel {
            width: self.width,
            miter_limit: self.miter_limit,
            line_cap: self.line_cap,
            line_join: self.line_join,
            dash: match self.dash {
                Some(sd) => Some((sd.array@, sd.offset)),
                None => None,
            },
            paint: self.paint,
        }
    }
}

impl Default for Stroke {
    /// The default stroke is one unit wide with a miter limit of four
    /// units, flat caps, mitered joins, no dash and the default paint.
    fn default() -> (r: Self)
        ensures
            r.width == SCALE_ONE,
            r.miter_limit as int == 4 * (SCALE_ONE as int),
            r.line_cap == LineCap::Butt,
            r.line_join == LineJoin::Miter,
            r.dash is None,
            r.paint == Paint::default_paint_spec(),
    {
        Stroke {
            width: SCALE_ONE,
            miter_limit: 4 * SCALE_ONE,
            line_cap: LineCap::Butt,
            line_join: LineJoin::Miter,
            dash: None,
            paint: Paint::default(),
        }
    }
}

impl Stroke {
    /// A copy of the stroke carrying the same model.
    pub fn clone_stroke(&self) -> (r: Stroke)
        ensures
            r@ == self@,
    {
        let dash = match &self.dash {
            Some(sd) => {
                let mut array = Vec::<i64>::new();
                let mut i: usize = 0;
                while i < sd.array.len()
                    invariant
                        i <= sd.array@.len(),
                        array@ == sd.array@.take(i as int),
                    decreases sd.array@.len() - i,
                {
                    array.push(sd.array[i]);
                    proof {
                        assert(sd.array@.take(i + 1 as int)
                            =~= sd.array@.take(i as int).push(sd.array@[i as int]));
                    }
                    i = i + 1;
                }
                proof {
                    assert(sd.array@.take(sd.array@.len() as int) =~= sd.array@);
                }
                Some(StrokeDash { array, offset: sd.offset })
            }
            None => None,
        };
        Stroke {
            width: self.width,
            miter_limit: self.miter_limit,
            line_cap: self.line_cap,
            line_join: self.line_join,
            dash,
            paint: self.paint,
        }
    }
}

/// The markup keyword of a line join.
pub fn lint_join_to_string(v: LineJoin) -> (r: String)
    ensures
        r@ == match v {
            LineJoin::Miter => "miter"@,
            LineJoin::Round => "round"@,
            LineJoin::Bevel => "bevel"@,
        },
{
    match v {
        LineJoin::Miter => "miter".to_owned(),
        LineJoin::Round => "round".to_owned(),
        LineJoin::Bevel => "bevel".to_owned(),
    }
}

/// The markup keyword of a line cap.
pub fn lint_cap_to_string(v: LineCap) -> (r: String)
    ensures
        r@ == match v {
            LineCap::Butt => "butt"@,
            LineCap::Round => "round"@,
            LineCap::Square => "square"@,
        },
{
    match v {
        LineCap::Butt => "butt".to_owned(),
        LineCap::Round => "round".to_owned(),
        LineCap::Square => "square".to_owned(),
    }
}

} // verus!
