//! Approximation of an edge by points and by the segments between them.

use vstd::prelude::*;
use crate::geometry::tolerance::Tolerance;
use crate::kernel::edges::Edge;
use crate::math::point::Point;

verus! {

/// A straight segment in space, from `a` to `b`.
#[derive(Clone, Copy, Debug, PartialEq, Eq)]
pub struct Segment {
    /// Where the segment starts
    pub a: Point<3>,
    /// Where the segment ends
    pub b: Point<3>,
}

/// An approximation of an edge, multiple edges, or a face
#[derive(Debug, PartialEq)]
pub struct Approximation {
    /// All points that make up the approximation
    ///
    /// These could be actual vertices from the model, points that
    /// approximate an edge, or points that approximate a face.
    pub points: Vec<Point<3>>,
    /// Segments that approximate edges
    ///
    /// All the points of these segments are meant to be in `points` too.
    /// [`Approximation::validate`] checks it.
    pub segments: Vec<Segment>,
}

/// Error returned by [`Approximation::validate`]
#[derive(Debug)]
pub struct ValidationError {
    /// Points that are duplicated
    pub duplicate_points: Vec<Point<3>>,
    /// Segments that are duplicated
    pub duplicate_segments: Vec<Segment>,
    /// Segments that have two equal points
    pub invalid_segments: Vec<Segment>,
    /// Segments that do not refer to points from the approximation
    pub segments_with_invalid_points: Vec<Segment>,
}

/// The items of `items` whose place meets `keep`, in their order.
pub open spec fn picked<T>(items: Seq<T>, keep: spec_fn(int) -> bool) -> Seq<T>
    decreases items.len(),
{
    if items.len() == 0 {
        Seq::empty()
    } else if keep(items.len() - 1) {
        picked(items.drop_last(), keep).push(items.last())
    } else {
        picked(items.drop_last(), keep)
    }
}

/// Whether the point at the place `i` has come before.
pub open spec fn point_repeats(points: Seq<Point<3>>, i: int) -> bool {
    exists|j: int| 0 <= j < i && #[trigger] points[j] == points[i]
}

/// Whether the segment at the place `i` has come before, in either
/// direction.
pub open spec fn segment_repeats(segments: Seq<Segment>, i: int) -> bool {
    exists|j: int|
        0 <= j < i && ((#[trigger] segments[j]) == segments[i] || (segments[j].a == segments[i].b
            && segments[j].b == segments[i].a))
}

/// Whether the segment at the place `i` has no length.
pub open spec fn segment_collapsed(segments: Seq<Segment>, i: int) -> bool {
    segments[i].a == segments[i].b
}

/// Whether an end of the segment at the place `i` is none of the points.
pub open spec fn segment_astray(points: Seq<Point<3>>, segments: Seq<Segment>, i: int) -> bool {
    !(points.contains(segments[i].a) && points.contains(segments[i].b))
}

/// The points that come a second time or more often, each as often as it
/// comes again.
pub open spec fn duplicate_points(points: Seq<Point<3>>) -> Seq<Point<3>> {
    picked(points, |i: int| point_repeats(points, i))
}

/// The segments that come a second time or more often, in either direction.
pub open spec fn duplicate_segments(segments: Seq<Segment>) -> Seq<Segment> {
    picked(segments, |i: int| segment_repeats(segments, i))
}

/// The segments that have no length.
pub open spec fn invalid_segments(segments: Seq<Segment>) -> Seq<Segment> {
    picked(segments, |i: int| segment_collapsed(segments, i))
}

/// The segments with an end that is none of the points.
pub open spec fn segments_with_invalid_points(
    points: Seq<Point<3>>,
    segments: Seq<Segment>,
) -> Seq<Segment> {
    picked(segments, |i: int| segment_astray(points, segments, i))
}

/// The segments between every point and the next one.
pub open spec fn segments_between(points: Seq<Point<3>>) -> Seq<Segment> {
    Seq::new(
        if points.len() >= 1 {
            (points.len() - 1) as nat
        } else {
            0
        },
        |i: int| Segment { a: points[i], b: points[i + 1] },
    )
}

/// The points of the approximation of `edge`: those of its curve, turned
/// round where the edge goes against its curve.
pub open spec fn edge_points(edge: &Edge, tolerance: Tolerance) -> Seq<Point<3>> {
    if edge.reverse {
        edge.curve.approx_points(tolerance).reverse()
    } else {
        edge.curve.approx_points(tolerance)
    }
}

/// The points that the segments of the approximation of `edge` connect: its
/// points, and for a closed edge the first point once more at the end.
pub open spec fn edge_segment_points(edge: &Edge, tolerance: Tolerance) -> Seq<Point<3>> {
    let points = edge_points(edge, tolerance);
    if edge.vertices is None && points.len() > 0 {
        points.push(points[0])
    } else {
        points
    }
}

/// Whether `point` is among the first `end` of `points`.
fn among(points: &Vec<Point<3>>, end: usize, point: &Point<3>) -> (r: bool)
    requires
        end <= points.len(),
    ensures
        r == exists|j: int| 0 <= j < end && #[trigger] points[j] == *point,
{
    let mut j: usize = 0;
    while j < end
        invariant
            j <= end <= points.len(),
            forall|k: int| 0 <= k < j ==> points[k] != *point,
        decreases end - j,
    {
        if points[j] == *point {
            return true;
        }
        j += 1;
    }
    false
}

impl Approximation {
    /// Compute an approximation for an edge
    ///
    /// `tolerance` defines how far the approximation is allowed to deviate
    /// from the actual edge.
    pub fn for_edge(edge: &Edge, tolerance: Tolerance) -> (r: Self)
        ensures
            r.points@ == edge_points(edge, tolerance),
            r.segments@ == segments_between(edge_segment_points(edge, tolerance)),
    {
        let mut forward: Vec<Point<3>> = Vec::new();
        edge.curve.approx(tolerance, &mut forward);
        assert(forward@ =~= edge.curve.approx_points(tolerance));

        let n = forward.len();
        let mut points: Vec<Point<3>> = Vec::new();
        if edge.reverse {
            let mut i: usize = n;
            while i > 0
                invariant
                    n == forward.len(),
                    i <= n,
                    points.len() == n - i,
                    forall|k: int| 0 <= k < points.len() ==> points[k] == forward[n - 1 - k],
                decreases i,
            {
                i -= 1;
                points.push(forward[i]);
            }
            assert(points@ =~= forward@.reverse());
        } else {
            points = forward;
        }

        let ghost ends = edge_segment_points(edge, tolerance);
        // An edge without vertices connects to itself: the last segment
        // leads back to the first point.
        let closed = edge.vertices.is_none() && n > 0;
        let count: usize = if n == 0 {
            0
        } else if closed {
            n
        } else {
            n - 1
        };
        let mut segments: Vec<Segment> = Vec::new();
        let mut i: usize = 0;
        while i < count
            invariant
                n == points.len(),
                points@ == edge_points(edge, tolerance),
                ends == edge_segment_points(edge, tolerance),
                closed == (edge.vertices is None && n > 0),
                count == segments_between(ends).len(),
                count <= n,
                i <= count,
                segments@ == segments_between(ends).take(i as int),
            decreases count - i,
        {
            let start = points[i];
            let end = if i + 1 < n {
                points[i + 1]
            } else {
                points[0]
            };
            segments.push(Segment { a: start, b: end });
            assert(segments_between(ends).take(i + 1) =~= segments_between(ends).take(
                i as int,
            ).push(segments_between(ends)[i as int]));
            i += 1;
        }
        assert(segments_between(ends).take(count as int) =~= segments_between(ends));

        Approximation { points, segments }
    }

    /// Validate the approximation
    ///
    /// Returns an error if a point or a segment comes twice, if a segment
    /// has no length, or if a segment has an end that is none of the
    /// points. The error holds the points and segments that are at fault.
    pub fn validate(&self) -> (r: Result<(), ValidationError>)
        ensures
            r is Ok <==> duplicate_points(self.points@).len() == 0 && duplicate_segments(
                self.segments@,
            ).len() == 0 && invalid_segments(self.segments@).len() == 0
                && segments_with_invalid_points(self.points@, self.segments@).len() == 0,
            r is Err ==> {
                &&& r->Err_0.duplicate_points@ == duplicate_points(self.points@)
                &&& r->Err_0.duplicate_segments@ == duplicate_segments(self.segments@)
                &&& r->Err_0.invalid_segments@ == invalid_segments(self.segments@)
                &&& r->Err_0.segments_with_invalid_points@ == segments_with_invalid_points(
                    self.points@,
                    self.segments@,
                )
            },
    {
        let mut duplicate: Vec<Point<3>> = Vec::new();
        let mut duplicate_of_segments: Vec<Segment> = Vec::new();
        let mut invalid: Vec<Segment> = Vec::new();
        let mut astray: Vec<Segment> = Vec::new();

        // Verify that there are no duplicate points
        let ghost repeats = |i: int| point_repeats(self.points@, i);
        let mut i: usize = 0;
        proof {
            assert(self.points@.take(0) =~= Seq::<Point<3>>::empty());
        }
        while i < self.points.len()
            invariant
                i <= self.points.len(),
                repeats == (|i: int| point_repeats(self.points@, i)),
                duplicate@ == picked(self.points@.take(i as int), repeats),
            decreases self.points.len() - i,
        {
            let point = self.points[i];
            proof {
                assert(self.points@.take(i + 1).drop_last() =~= self.points@.take(i as int));
                assert(self.points@.take(i + 1).last() == point);
                assert(repeats(i as int) == point_repeats(self.points@, i as int));
            }
            if among(&self.points, i, &point) {
                duplicate.push(point);
            }
            i += 1;
        }
        assert(self.points@.take(self.points.len() as int) =~= self.points@);

        let ghost twice = |i: int| segment_repeats(self.segments@, i);
        let ghost collapsed = |i: int| segment_collapsed(self.segments@, i);
        let ghost lost = |i: int| segment_astray(self.points@, self.segments@, i);
        let mut i: usize = 0;
        proof {
            assert(self.segments@.take(0) =~= Seq::<Segment>::empty());
        }
        while i < self.segments.len()
            invariant
                i <= self.segments.len(),
                twice == (|i: int| segment_repeats(self.segments@, i)),
                collapsed == (|i: int| segment_collapsed(self.segments@, i)),
                lost == (|i: int| segment_astray(self.points@, self.segments@, i)),
                duplicate_of_segments@ == picked(self.segments@.take(i as int), twice),
                invalid@ == picked(self.segments@.take(i as int), collapsed),
                astray@ == picked(self.segments@.take(i as int), lost),
            decreases self.segments.len() - i,
        {
            let segment = self.segments[i];
            proof {
                assert(self.segments@.take(i + 1).drop_last() =~= self.segments@.take(i as int));
                assert(self.segments@.take(i + 1).last() == segment);
                assert(twice(i as int) == segment_repeats(self.segments@, i as int));
                assert(collapsed(i as int) == segment_collapsed(self.segments@, i as int));
                assert(lost(i as int) == segment_astray(self.points@, self.segments@, i as int));
            }

            // Verify that there are no duplicate segments
            if self.seen_before(i) {
                duplicate_of_segments.push(segment);
            }
            // Verify that segments are actually segments

            if segment.a == segment.b {
                invalid.push(segment);
            }
            // Verify that segments refer to valid points

            let a_known = among(&self.points, self.points.len(), &segment.a);
            let b_known = among(&self.points, self.points.len(), &segment.b);
            if !(a_known && b_known) {
                astray.push(segment);
            }
            i += 1;
        }
        assert(self.segments@.take(self.segments.len() as int) =~= self.segments@);

        if !(duplicate.len() == 0 && duplicate_of_segments.len() == 0 && invalid.len() == 0
            && astray.len() == 0) {
            return Err(
                ValidationError {
                    duplicate_points: duplicate,
                    duplicate_segments: duplicate_of_segments,
                    invalid_segments: invalid,
                    segments_with_invalid_points: astray,
                },
            );
        }
        Ok(())
    }

    /// Whether the segment at the place `i` has come before, in either
    /// direction.
    fn seen_before(&self, i: usize) -> (r: bool)
        requires
            i < self.segments.len(),
        ensures
            r == segment_repeats(self.segments@, i as int),
    {
        let segment = self.segments[i];
        let mut j: usize = 0;
        while j < i
            invariant
                j <= i < self.segments.len(),
                segment == self.segments[i as int],
                forall|k: int|
                    0 <= k < j ==> !((#[trigger] self.segments[k]) == segment || (
                    self.segments[k].a == segment.b && self.segments[k].b == segment.a)),
            decreases i - j,
        {
            let other = self.segments[j];
            if (other.a == segment.a && other.b == segment.b) || (other.a == segment.b && other.b
                == segment.a) {
                return true;
            }
            j += 1;
        }
        false
    }
}

} // verus!
