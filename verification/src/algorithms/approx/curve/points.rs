//! The points that stand for a stretch of a curve.

use vstd::prelude::*;
use crate::algorithms::approx::ApproxPoint;

verus! {

/// Points of a curve approximation, in the order of travel.
#[derive(Clone, Debug, Default, PartialEq, Eq, Hash, PartialOrd, Ord)]
pub struct CurveApproxPoints {
    /// Points of a curve approximation
    pub inner: Vec<ApproxPoint<1>>,
}

impl View for CurveApproxPoints {
    type V = Seq<ApproxPoint<1>>;

    open spec fn view(&self) -> Seq<ApproxPoint<1>> {
        self.inner@
    }
}

impl CurveApproxPoints {
    /// The approximation with the given points.
    pub fn from_points(points: Vec<ApproxPoint<1>>) -> (r: Self)
        ensures
            r@ == points@,
    {
        CurveApproxPoints { inner: points }
    }

    /// Reverse the orientation of the approximation: the same points, last
    /// one first.
    pub fn reverse(&mut self) -> (r: &mut Self)
        ensures
            r@ == old(self)@.reverse(),
            *final(self) == *final(r),
    {
        let n = self.inner.len();
        let mut out: Vec<ApproxPoint<1>> = Vec::new();
        let mut i: usize = n;
        while i > 0
            invariant
                n == self.inner.len(),
                i <= n,
                out.len() == n - i,
                forall|k: int| 0 <= k < out.len() ==> out[k] == self.inner[n - 1 - k],
            decreases i,
        {
            i -= 1;
            out.push(self.inner[i]);
        }
        assert(out@ =~= self.inner@.reverse());
        self.inner = out;
        self
    }

    /// A copy with the same points in the same order.
    pub fn duplicate(&self) -> (r: Self)
        ensures
            r@ == self@,
    {
        let n = self.inner.len();
        let mut out: Vec<ApproxPoint<1>> = Vec::new();
        let mut i: usize = 0;
        while i < n
            invariant
                n == self.inner.len(),
                i <= n,
                out@ == self.inner@.take(i as int),
            decreases n - i,
        {
            out.push(self.inner[i]);
            assert(self.inner@.take(i + 1) =~= self.inner@.take(i as int).push(self.inner[i as int]));
            i += 1;
        }
        assert(self.inner@.take(n as int) =~= self.inner@);
        CurveApproxPoints { inner: out }
    }
}

} // verus!
