//! The stretch of a curve that an approximation covers.

use vstd::prelude::*;
use crate::math::point::Point;
use crate::math::scalar::Scalar;

verus! {

/// Two curve parameters that bound a stretch of a curve. The order of the two
/// is the direction of travel: from the first to the second.
#[derive(Clone, Copy, Debug, PartialEq, Eq, Hash, PartialOrd, Ord)]
pub struct CurveBoundary {
    /// Where the stretch starts and where it ends
    pub inner: [Point<1>; 2],
}

impl CurveBoundary {
    /// The stretch from `start` to `end`.
    pub open spec fn spec_from_points(start: Point<1>, end: Point<1>) -> CurveBoundary {
        CurveBoundary { inner: [start, end] }
    }

    /// The stretch from `start` to `end`.
    #[verifier::when_used_as_spec(spec_from_points)]
    pub fn from_points(start: Point<1>, end: Point<1>) -> (r: Self)
        ensures
            r == Self::spec_from_points(start, end),
            r.start() == start.t(),
            r.end() == end.t(),
            r.inner@ == seq![start, end],
    {
        let r = CurveBoundary { inner: [start, end] };
        assert(r.inner@ =~= seq![start, end]);
        assert(r.inner@ =~= Self::spec_from_points(start, end).inner@);
        assert(r.inner == Self::spec_from_points(start, end).inner);
        r
    }

    /// The parameter at which the stretch starts.
    pub open spec fn spec_start(&self) -> Scalar {
        self.inner[0].t()
    }

    /// The parameter at which the stretch starts.
    #[verifier::when_used_as_spec(spec_start)]
    pub fn start(&self) -> (r: Scalar)
        ensures
            r == self.spec_start(),
    {
        self.inner[0].t()
    }

    /// The parameter at which the stretch ends.
    pub open spec fn spec_end(&self) -> Scalar {
        self.inner[1].t()
    }

    /// The parameter at which the stretch ends.
    #[verifier::when_used_as_spec(spec_end)]
    pub fn end(&self) -> (r: Scalar)
        ensures
            r == self.spec_end(),
    {
        self.inner[1].t()
    }

    /// The smaller of the two parameters.
    pub open spec fn low(&self) -> int {
        if self.start()@ <= self.end()@ {
            self.start()@
        } else {
            self.end()@
        }
    }

    /// The larger of the two parameters.
    pub open spec fn high(&self) -> int {
        if self.start()@ <= self.end()@ {
            self.end()@
        } else {
            self.start()@
        }
    }

    /// The same stretch, travelled the other way.
    pub open spec fn spec_reverse(self) -> CurveBoundary {
        CurveBoundary { inner: [self.inner[1], self.inner[0]] }
    }

    /// The same stretch, travelled the other way.
    #[verifier::when_used_as_spec(spec_reverse)]
    pub fn reverse(self) -> (r: Self)
        ensures
            r == self.spec_reverse(),
            r.start() == self.end(),
            r.end() == self.start(),
            r.inner@ == seq![self.inner[1], self.inner[0]],
    {
        let r = CurveBoundary { inner: [self.inner[1], self.inner[0]] };
        assert(r.inner@ =~= seq![self.inner[1], self.inner[0]]);
        assert(r.inner@ =~= self.spec_reverse().inner@);
        assert(r.inner == self.spec_reverse().inner);
        r
    }

    /// Reversing a stretch twice gives the stretch itself.
    pub proof fn lemma_reverse_twice(self)
        ensures
            self.reverse().reverse() == self,
    {
        assert(self.reverse().reverse().inner@ =~= self.inner@);
        assert(self.reverse().reverse().inner == self.inner);
    }

    /// Whether the stretch has no length: both parameters are the same.
    pub fn is_empty(&self) -> (r: bool)
        ensures
            r == (self.start() == self.end()),
    {
        self.inner[0].t().raw == self.inner[1].t().raw
    }
}

} // verus!
