//! Edges in space and the curves that they lie on.

use vstd::prelude::*;
use crate::geometry::curves::circle::{increment_for, CircleApproxParams};
use crate::geometry::tolerance::Tolerance;
use crate::math::circle::Circle;
use crate::math::line::Line;
use crate::math::point::{lemma_point3_of, point3_of, Point};
use crate::math::scalar::{Scalar, TAU_RAW};

verus! {

/// A curve in space.
#[derive(Clone, Debug, PartialEq, Eq)]
pub enum Curve {
    /// A circle
    Circle(Circle<3>),
    /// A line
    Line(Line<3>),
    /// A curve that is given by its approximation
    Mock {
        /// The points that the curve is approximated by, at every tolerance
        approx: Vec<Point<3>>,
    },
}

/// The number of corners into which a full circle with the given increment
/// is cut: as many as there are multiples of the increment, from zero on,
/// that are less than a full turn.
pub open spec fn full_circle_len(increment: int) -> int {
    (TAU_RAW - 1) / increment + 1
}

/// The corners of a full circle: the points of the circle at the multiples
/// of the increment, from zero up to a full turn, which is left out.
pub open spec fn full_circle(circle: &Circle<3>, tolerance: Tolerance) -> Seq<Point<3>> {
    let increment = increment_for(circle.radius()@, tolerance.inner()@);
    Seq::new(
        full_circle_len(increment) as nat,
        |k: int| point3_of(circle.point_coords(Scalar { raw: (k * increment) as i64 })),
    )
}

impl Curve {
    /// The points that approximate the whole curve at `tolerance`. A circle
    /// gives its corners once round; a line gives none, as the ends of an
    /// edge on it are vertices.
    pub open spec fn approx_points(&self, tolerance: Tolerance) -> Seq<Point<3>> {
        match self {
            Curve::Circle(circle) => full_circle(circle, tolerance),
            Curve::Line(_) => Seq::empty(),
            Curve::Mock { approx } => approx@,
        }
    }

    /// Adds the points that approximate the whole curve at `tolerance` at
    /// the end of `out`.
    pub fn approx(&self, tolerance: Tolerance, out: &mut Vec<Point<3>>)
        ensures
            final(out)@ == old(out)@ + self.approx_points(tolerance),
    {
        match self {
            Curve::Circle(circle) => {
                let params = CircleApproxParams::new(circle, tolerance);
                let inc: i64 = params.increment().raw;
                let n: i64 = (TAU_RAW - 1) / inc + 1;
                let ghost want = full_circle(circle, tolerance);
                let mut k: i64 = 0;
                assert(n <= TAU_RAW) by (nonlinear_arith)
                    requires
                        n == (TAU_RAW - 1) / (inc as int) + 1,
                        inc >= 1,
                ;
                assert(old(out)@ + want.take(0) =~= old(out)@);
                while k < n
                    invariant
                        0 <= k <= n,
                        n == want.len(),
                        n == full_circle_len(inc as int),
                        0 < inc,
                        inc == increment_for(circle.radius()@, tolerance.inner()@),
                        want == full_circle(circle, tolerance),
                        out@ == old(out)@ + want.take(k as int),
                    decreases n - k,
                {
                    assert(0 <= k * inc < TAU_RAW) by (nonlinear_arith)
                        requires
                            0 <= k < n,
                            n == (TAU_RAW - 1) / (inc as int) + 1,
                            inc > 0,
                    ;
                    let point = circle.point_from_circle_coords(
                        Point::from_t(Scalar { raw: k * inc }),
                    );
                    proof {
                        lemma_point3_of(point);
                        assert(old(out)@ + want.take(k + 1) =~= (old(out)@ + want.take(
                            k as int,
                        )).push(want[k as int]));
                    }
                    out.push(point);
                    k += 1;
                }
                assert(want.take(n as int) =~= want);
            },
            Curve::Line(_) => {
                assert(out@ =~= old(out)@ + Seq::<Point<3>>::empty());
            },
            Curve::Mock { approx } => {
                let n = approx.len();
                let mut i: usize = 0;
                assert(old(out)@ + approx@.take(0) =~= old(out)@);
                while i < n
                    invariant
                        n == approx.len(),
                        i <= n,
                        out@ == old(out)@ + approx@.take(i as int),
                    decreases n - i,
                {
                    out.push(approx[i]);
                    assert(old(out)@ + approx@.take(i + 1) =~= (old(out)@ + approx@.take(
                        i as int,
                    )).push(approx[i as int]));
                    i += 1;
                }
                assert(approx@.take(n as int) =~= approx@);
            },
        }
    }
}

/// An edge in space: a curve or a stretch of one.
#[derive(Clone, Debug, PartialEq, Eq)]
pub struct Edge {
    /// The curve that the edge lies on
    pub curve: Curve,
    /// Whether the edge ends in two vertices. An edge without vertices is
    /// closed: it comes back to where it starts.
    pub vertices: Option<[(); 2]>,
    /// Whether the edge goes against the direction of its curve
    pub reverse: bool,
}

} // verus!
