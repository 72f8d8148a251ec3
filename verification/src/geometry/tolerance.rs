//! The tolerance that bounds every approximation.

use vstd::prelude::*;
use crate::math::scalar::Scalar;

verus! {

/// The largest distance by which an approximation may leave the geometry it
/// stands for. Always greater than zero.
#[derive(Clone, Copy, Debug, PartialEq, Eq, Hash, PartialOrd, Ord)]
pub struct Tolerance {
    value: Scalar,
}

/// The value that was refused as a tolerance because it is not greater than
/// zero.
#[derive(Clone, Copy, Debug, PartialEq, Eq, Structural)]
pub struct InvalidTolerance(pub Scalar);

impl Tolerance {
    #[verifier::type_invariant]
    spec fn positive(self) -> bool {
        self.value@ > 0
    }

    /// The tolerance as a scalar.
    pub closed spec fn spec_inner(self) -> Scalar {
        self.value
    }

    /// Whether the value is greater than zero, as every tolerance that
    /// [`Tolerance::from_scalar`] hands out is.
    pub open spec fn wf(self) -> bool {
        self.spec_inner()@ > 0
    }

    /// The tolerance with the value `scalar`; refused unless `scalar` is
    /// greater than zero.
    pub fn from_scalar(scalar: Scalar) -> (r: Result<Tolerance, InvalidTolerance>)
        ensures
            r is Ok <==> scalar@ > 0,
            r is Ok ==> r->Ok_0.spec_inner() == scalar && r->Ok_0.wf(),
            r is Err ==> r->Err_0 == InvalidTolerance(scalar),
    {
        if scalar.is_positive() {
            Ok(Tolerance { value: scalar })
        } else {
            Err(InvalidTolerance(scalar))
        }
    }

    /// The tolerance as a scalar.
    #[verifier::when_used_as_spec(spec_inner)]
    pub fn inner(self) -> (r: Scalar)
        ensures
            r == self.spec_inner(),
            self.wf(),
    {
        proof {
            use_type_invariant(&self);
        }
        self.value
    }
}

} // verus!
