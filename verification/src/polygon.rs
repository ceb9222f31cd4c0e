//! Simple polygons for the clip compositor.
//!
//! A polygon is an ordered point list.  The pairwise boolean union of two
//! polygons is the business of an outside geometry library and runs in
//! the embedding program; this module holds the point lists, the
//! conversion between polygons and paths, and the verified decision rule
//! of the incremental union: an incoming polygon is folded into an
//! existing one exactly when their union came back as a single polygon.

use vstd::prelude::*;
use crate::path::{PathData, PathSegment};

verus! {

/// A simple polygon as an ordered list of raw points.
#[derive(Debug)]
pub struct Polygon {
    points: Vec<(i64, i64)>,
}

impl View for Polygon {
    type V = Seq<(i64, i64)>;

    closed spec fn view(&self) -> Seq<(i64, i64)> {
        self.points@
    }
}

impl Clone for Polygon {
    /// The clone holds the same points.
    fn clone(&self) -> (r: Self)
        ensures
            r@ == self@,
    {
        let mut points = Vec::<(i64, i64)>::new();
        let mut i: usize = 0;
        while i < self.points.len()
            invariant
                i <= self.points@.len(),
                points@ == self.points@.take(i as int),
            decreases self.points@.len() - i,
        {
            points.push(self.points[i]);
            proof {
                assert(self.points@.take(i + 1 as int)
                    =~= self.points@.take(i as int).push(self.points@[i as int]));
            }
            i = i + 1;
        }
        proof {
            assert(self.points@.take(self.points@.len() as int) =~= self.points@);
        }
        Polygon { points }
    }
}

impl Default for Polygon {
    /// The default polygon has no points.
    fn default() -> (r: Self)
        ensures
            r@ == Seq::<(i64, i64)>::empty(),
    {
        Polygon { points: Vec::<(i64, i64)>::new() }
    }
}

/// The path of a point list: a move to the first point, lines to the
/// rest, and a close.
pub open spec fn spec_points_path(points: Seq<(i64, i64)>, n: int) -> Seq<PathSegment>
    decreases n,
{
    if n <= 0 {
        Seq::<PathSegment>::empty()
    } else if n == 1 {
        seq![PathSegment::MoveTo { x: points[0].0, y: points[0].1 }]
    } else {
        spec_points_path(points, n - 1).push(PathSegment::LineTo { x: points[n - 1].0, y: points[n - 1].1 })
    }
}

impl Polygon {
    /// Constructs an empty polygon.
    pub fn new() -> (r: Self)
        ensures
            r@ == Seq::<(i64, i64)>::empty(),
    {
        Polygon::default()
    }

    /// Constructs a polygon from a point list.
    pub fn from_points(points: Vec<(i64, i64)>) -> (r: Self)
        ensures
            r@ == points@,
    {
        Polygon { points }
    }

    /// The points, in order.
    pub fn points(&self) -> (r: &Vec<(i64, i64)>)
        ensures
            r@ == self@,
    {
        &self.points
    }

    /// Whether the polygon has no points.
    pub fn is_empty(&self) -> (r: bool)
        ensures
            r == (self@.len() == 0),
    {
        self.points.len() == 0
    }

    /// Appends a point.
    pub fn add_point(&mut self, x: i64, y: i64)
        ensures
            final(self)@ == old(self)@.push((x, y)),
    {
        self.points.push((x, y))
    }

    /// The closed path around the polygon: a move to the first point,
    /// lines to the rest, then a close.
    pub fn into_path(self) -> (r: PathData)
        ensures
            r@ == spec_points_path(self@, self@.len() as int).push(PathSegment::ClosePath),
    {
        let mut path = PathData::new();
        let mut i: usize = 0;
        while i < self.points.len()
            invariant
                i <= self.points@.len(),
                path@ == spec_points_path(self.points@, i as int),
            decreases self.points@.len() - i,
        {
            let (x, y) = self.points[i];
            if path.is_empty() {
                proof {
                    assert(i == 0) by {
                        if i > 0 {
                            assert(spec_points_path(self.points@, i as int).len() > 0);
                        }
                    }
                }
                path.move_to(x, y)
            } else {
                path.line_to(x, y)
            }
            i = i + 1;
        }
        path.close();
        path
    }
}

/// The polygons of `inner` whose union outcome was "disjoint", in order.
pub open spec fn spec_kept(inner: Seq<Seq<(i64, i64)>>, outcomes: Seq<Option<Seq<(i64, i64)>>>, n: int) -> Seq<Seq<(i64, i64)>>
    decreases n,
{
    if n <= 0 {
        Seq::<Seq<(i64, i64)>>::empty()
    } else {
        let rest = spec_kept(inner, outcomes, n - 1);
        if outcomes[n - 1] is None {
            rest.push(inner[n - 1])
        } else {
            rest
        }
    }
}

/// The merged single polygons of the union outcomes, in order.
pub open spec fn spec_merged(outcomes: Seq<Option<Seq<(i64, i64)>>>, n: int) -> Seq<Seq<(i64, i64)>>
    decreases n,
{
    if n <= 0 {
        Seq::<Seq<(i64, i64)>>::empty()
    } else {
        let rest = spec_merged(outcomes, n - 1);
        match outcomes[n - 1] {
            Some(p) => rest.push(p),
            None => rest,
        }
    }
}

/// The decision rule of the incremental union.  For each existing polygon
/// the outside geometry library reported either the single polygon its
/// union with the incoming one collapsed to, or that the two stay
/// disjoint.  The existing polygons that stay disjoint are kept as they
/// are; the collapsed ones are handed back for folding into one region;
/// the incoming polygon itself must be pushed exactly when nothing
/// collapsed or nothing existed.
pub fn partition_union(inner: Vec<Polygon>, outcomes: Vec<Option<Polygon>>)
    -> (r: (Vec<Polygon>, Vec<Polygon>, bool))
    requires
        inner@.len() == outcomes@.len(),
    ensures
        r.0@.map(|i: int, p: Polygon| p@) == spec_kept(
            inner@.map(|i: int, p: Polygon| p@),
            outcomes@.map(|i: int, o: Option<Polygon>| match o {
                Some(p) => Some(p@),
                None => None::<Seq<(i64, i64)>>,
            }),
            inner@.len() as int,
        ),
        r.1@.map(|i: int, p: Polygon| p@) == spec_merged(
            outcomes@.map(|i: int, o: Option<Polygon>| match o {
                Some(p) => Some(p@),
                None => None::<Seq<(i64, i64)>>,
            }),
            outcomes@.len() as int,
        ),
        r.2 == (inner@.len() == 0 || r.1@.len() == 0),
{
    let ghost inner_views = inner@.map(|i: int, p: Polygon| p@);
    let ghost outcome_views = outcomes@.map(|i: int, o: Option<Polygon>| match o {
        Some(p) => Some(p@),
        None => None::<Seq<(i64, i64)>>,
    });
    let n = inner.len();
    let mut kept = Vec::<Polygon>::new();
    let mut merged = Vec::<Polygon>::new();
    let mut i: usize = 0;
    while i < n
        invariant
            i <= n,
            inner@.len() == n,
            outcomes@.len() == n,
            inner_views == inner@.map(|j: int, p: Polygon| p@),
            outcome_views == outcomes@.map(|j: int, o: Option<Polygon>| match o {
                Some(p) => Some(p@),
                None => None::<Seq<(i64, i64)>>,
            }),
            kept@.map(|j: int, p: Polygon| p@) == spec_kept(inner_views, outcome_views, i as int),
            merged@.map(|j: int, p: Polygon| p@) == spec_merged(outcome_views, i as int),
        decreases n - i,
    {
        let ghost kept_views = kept@.map(|j: int, p: Polygon| p@);
        let ghost merged_views = merged@.map(|j: int, p: Polygon| p@);
        proof {
            assert(inner_views[i as int] == inner@[i as int]@);
            assert(outcome_views[i as int] == match outcomes@[i as int] {
                Some(p) => Some(p@),
                None => None::<Seq<(i64, i64)>>,
            });
        }
        match &outcomes[i] {
            Some(single) => {
                let copy = single.clone();
                merged.push(copy);
                proof {
                    assert(merged@.map(|j: int, p: Polygon| p@)
                        =~= merged_views.push(outcome_views[i as int].unwrap()));
                    assert(kept@.map(|j: int, p: Polygon| p@) =~= kept_views);
                }
            }
            None => {
                let copy = inner[i].clone();
                kept.push(copy);
                proof {
                    assert(kept@.map(|j: int, p: Polygon| p@)
                        =~= kept_views.push(inner_views[i as int]));
                    assert(merged@.map(|j: int, p: Polygon| p@) =~= merged_views);
                }
            }
        }
        i = i + 1;
    }
    let push_incoming = n == 0 || merged.len() == 0;
    (kept, merged, push_incoming)
}

/// The point list reported by a union outcome, if it collapsed.
pub open spec fn spec_outcome_view(o: Option<Polygon>) -> Option<Seq<(i64, i64)>> {
    match o {
        Some(p) => Some(p@),
        None => None,
    }
}

} // verus!
