//! Points and vectors of any dimension.

use vstd::prelude::*;
use vstd::std_specs::cmp::PartialEqSpecImpl;
use super::scalar::{scalar_of, Scalar};
use super::trig::{int_sqrt, isqrt};

verus! {

/// Coordinate-wise saturating sum of two coordinate tuples.
pub open spec fn coords_add(a: Seq<Scalar>, b: Seq<Scalar>) -> Seq<Scalar> {
    Seq::new(a.len(), |i: int| a[i].add(b[i]))
}

/// Coordinate-wise saturating difference of two coordinate tuples.
pub open spec fn coords_sub(a: Seq<Scalar>, b: Seq<Scalar>) -> Seq<Scalar> {
    Seq::new(a.len(), |i: int| a[i].sub(b[i]))
}

/// Every coordinate multiplied by `k`.
pub open spec fn coords_scale(a: Seq<Scalar>, k: Scalar) -> Seq<Scalar> {
    Seq::new(a.len(), |i: int| a[i].mul(k))
}

/// Every coordinate divided by `k`, which is not zero.
pub open spec fn coords_quotient(a: Seq<Scalar>, k: Scalar) -> Seq<Scalar>
    recommends
        k@ != 0,
{
    Seq::new(a.len(), |i: int| a[i].checked_div(k)->Some_0)
}

/// Every coordinate halved.
pub open spec fn coords_half(a: Seq<Scalar>) -> Seq<Scalar> {
    Seq::new(a.len(), |i: int| a[i].half())
}

/// The sum of the squares of the raw coordinates.
pub open spec fn sum_squares(a: Seq<Scalar>) -> int
    decreases a.len(),
{
    if a.len() == 0 {
        0
    } else {
        sum_squares(a.drop_last()) + a.last()@ * a.last()@
    }
}

/// The Euclidean length of a coordinate tuple, rounded down and saturated.
pub open spec fn coords_magnitude(a: Seq<Scalar>) -> Scalar {
    scalar_of(int_sqrt(sum_squares(a)))
}

/// A sum of squares is never negative.
pub proof fn lemma_sum_squares_nonnegative(a: Seq<Scalar>)
    ensures
        sum_squares(a) >= 0,
    decreases a.len(),
{
    if a.len() > 0 {
        lemma_sum_squares_nonnegative(a.drop_last());
        let x = a.last()@;
        assert(x * x >= 0) by (nonlinear_arith);
    }
}

/// The coordinate-wise combination of two arrays by a saturating operation.
fn combine<const D: usize>(a: &[Scalar; D], b: &[Scalar; D], subtract: bool) -> (r: [Scalar; D])
    ensures
        subtract ==> r@ == coords_sub(a@, b@),
        !subtract ==> r@ == coords_add(a@, b@),
{
    let mut out = *a;
    let mut i: usize = 0;
    while i < D
        invariant
            i <= D,
            forall|j: int| 0 <= j < i && subtract ==> out[j] == a[j].sub(b[j]),
            forall|j: int| 0 <= j < i && !subtract ==> out[j] == a[j].add(b[j]),
        decreases D - i,
    {
        out[i] = if subtract {
            a[i].sub(b[i])
        } else {
            a[i].add(b[i])
        };
        i += 1;
    }
    proof {
        if subtract {
            assert(out@ =~= coords_sub(a@, b@));
        } else {
            assert(out@ =~= coords_add(a@, b@));
        }
    }
    out
}

/// Every element of an array multiplied by `k`.
fn scale_all<const D: usize>(a: &[Scalar; D], k: Scalar) -> (r: [Scalar; D])
    ensures
        r@ == coords_scale(a@, k),
{
    let mut out = *a;
    let mut i: usize = 0;
    while i < D
        invariant
            i <= D,
            forall|j: int| 0 <= j < i ==> out[j] == a[j].mul(k),
        decreases D - i,
    {
        out[i] = a[i].mul(k);
        i += 1;
    }
    assert(out@ =~= coords_scale(a@, k));
    out
}

/// Whether two arrays hold the same scalars.
fn same_coords<const D: usize>(a: &[Scalar; D], b: &[Scalar; D]) -> (r: bool)
    ensures
        r == (*a == *b),
{
    let mut i: usize = 0;
    while i < D
        invariant
            i <= D,
            forall|j: int| 0 <= j < i ==> a[j] == b[j],
        decreases D - i,
    {
        if a[i] != b[i] {
            return false;
        }
        i += 1;
    }
    assert(a@ =~= b@);
    assert(*a == *b);
    true
}

/// A position: 1-D on a curve, 2-D on a surface, 3-D in space.
#[derive(Clone, Copy, Debug, Eq, Hash, PartialOrd, Ord)]
pub struct Point<const D: usize> {
    /// The coordinates, first axis first
    pub coords: [Scalar; D],
}

impl<const D: usize> View for Point<D> {
    type V = Seq<Scalar>;

    open spec fn view(&self) -> Seq<Scalar> {
        self.coords@
    }
}

impl<const D: usize> PartialEq for Point<D> {
    fn eq(&self, other: &Self) -> (r: bool) {
        same_coords(&self.coords, &other.coords)
    }
}

impl<const D: usize> PartialEqSpecImpl for Point<D> {
    open spec fn obeys_eq_spec() -> bool {
        true
    }

    open spec fn eq_spec(&self, other: &Self) -> bool {
        *self == *other
    }
}

/// A displacement between two points.
#[derive(Clone, Copy, Debug, Eq, Hash, PartialOrd, Ord)]
pub struct Vector<const D: usize> {
    /// The components, first axis first
    pub components: [Scalar; D],
}

impl<const D: usize> View for Vector<D> {
    type V = Seq<Scalar>;

    open spec fn view(&self) -> Seq<Scalar> {
        self.components@
    }
}

impl<const D: usize> PartialEq for Vector<D> {
    fn eq(&self, other: &Self) -> (r: bool) {
        same_coords(&self.components, &other.components)
    }
}

impl<const D: usize> PartialEqSpecImpl for Vector<D> {
    open spec fn obeys_eq_spec() -> bool {
        true
    }

    open spec fn eq_spec(&self, other: &Self) -> bool {
        *self == *other
    }
}

/// Two points with the same coordinates are the same point.
pub proof fn lemma_point_ext<const D: usize>(a: Point<D>, b: Point<D>)
    requires
        a@ =~= b@,
    ensures
        a == b,
{
    assert(a.coords == b.coords);
}

/// Two vectors with the same components are the same vector.
pub proof fn lemma_vector_ext<const D: usize>(a: Vector<D>, b: Vector<D>)
    requires
        a@ =~= b@,
    ensures
        a == b,
{
    assert(a.components == b.components);
}

impl<const D: usize> Point<D> {
    /// The point with the given coordinates.
    pub fn from_array(coords: [Scalar; D]) -> (r: Self)
        ensures
            r.coords == coords,
    {
        Point { coords }
    }

    /// The point reached from this one by the displacement `v`.
    pub fn add_vector(self, v: Vector<D>) -> (r: Self)
        ensures
            r@ == coords_add(self@, v@),
    {
        Point { coords: combine(&self.coords, &v.components, false) }
    }

    /// The displacement that leads from `other` to this point.
    pub fn sub_point(self, other: Self) -> (r: Vector<D>)
        ensures
            r@ == coords_sub(self@, other@),
    {
        Vector { components: combine(&self.coords, &other.coords, true) }
    }

    /// The displacement that leads from the origin to this point.
    pub open spec fn spec_to_vector(self) -> Vector<D> {
        Vector { components: self.coords }
    }

    /// The displacement that leads from the origin to this point.
    #[verifier::when_used_as_spec(spec_to_vector)]
    pub fn to_vector(self) -> (r: Vector<D>)
        ensures
            r == self.spec_to_vector(),
            r@ == self@,
    {
        Vector { components: self.coords }
    }
}

impl Point<1> {
    /// The point on a curve with parameter `t`.
    pub open spec fn spec_from_t(t: Scalar) -> Point<1> {
        Point { coords: [t] }
    }

    /// The point on a curve with parameter `t`.
    #[verifier::when_used_as_spec(spec_from_t)]
    pub fn from_t(t: Scalar) -> (r: Self)
        ensures
            r == Self::spec_from_t(t),
            r@ == seq![t],
    {
        let r = Point { coords: [t] };
        assert(r@ =~= seq![t]);
        assert(r@ =~= Self::spec_from_t(t)@);
        proof {
            lemma_point_ext(r, Self::spec_from_t(t));
        }
        r
    }

    /// The curve parameter.
    pub open spec fn spec_t(self) -> Scalar {
        self.coords[0]
    }

    /// The curve parameter.
    #[verifier::when_used_as_spec(spec_t)]
    pub fn t(self) -> (r: Scalar)
        ensures
            r == self.spec_t(),
    {
        self.coords[0]
    }
}

impl Point<2> {
    /// The point on a surface with coordinates `u` and `v`.
    pub open spec fn spec_from_uv(u: Scalar, v: Scalar) -> Point<2> {
        Point { coords: [u, v] }
    }

    /// The point on a surface with coordinates `u` and `v`.
    #[verifier::when_used_as_spec(spec_from_uv)]
    pub fn from_uv(u: Scalar, v: Scalar) -> (r: Self)
        ensures
            r == Self::spec_from_uv(u, v),
            r@ == seq![u, v],
    {
        let r = Point { coords: [u, v] };
        assert(r@ =~= seq![u, v]);
        assert(r@ =~= Self::spec_from_uv(u, v)@);
        proof {
            lemma_point_ext(r, Self::spec_from_uv(u, v));
        }
        r
    }

    /// The first surface coordinate.
    pub open spec fn spec_u(self) -> Scalar {
        self.coords[0]
    }

    /// The first surface coordinate.
    #[verifier::when_used_as_spec(spec_u)]
    pub fn u(self) -> (r: Scalar)
        ensures
            r == self.spec_u(),
    {
        self.coords[0]
    }

    /// The second surface coordinate.
    pub open spec fn spec_v(self) -> Scalar {
        self.coords[1]
    }

    /// The second surface coordinate.
    #[verifier::when_used_as_spec(spec_v)]
    pub fn v(self) -> (r: Scalar)
        ensures
            r == self.spec_v(),
    {
        self.coords[1]
    }
}

impl Point<3> {
    /// The point in space with coordinates `x`, `y` and `z`.
    pub open spec fn spec_from_xyz(x: Scalar, y: Scalar, z: Scalar) -> Point<3> {
        Point { coords: [x, y, z] }
    }

    /// The point in space with coordinates `x`, `y` and `z`.
    #[verifier::when_used_as_spec(spec_from_xyz)]
    pub fn from_xyz(x: Scalar, y: Scalar, z: Scalar) -> (r: Self)
        ensures
            r == Self::spec_from_xyz(x, y, z),
            r@ == seq![x, y, z],
    {
        let r = Point { coords: [x, y, z] };
        assert(r@ =~= seq![x, y, z]);
        assert(r@ =~= Self::spec_from_xyz(x, y, z)@);
        proof {
            lemma_point_ext(r, Self::spec_from_xyz(x, y, z));
        }
        r
    }
}

/// The surface point with the first two of the coordinates `c`.
pub open spec fn point2_of(c: Seq<Scalar>) -> Point<2> {
    Point::<2>::from_uv(c[0], c[1])
}

/// The point in space with the first three of the coordinates `c`.
pub open spec fn point3_of(c: Seq<Scalar>) -> Point<3> {
    Point::<3>::from_xyz(c[0], c[1], c[2])
}

/// A surface point is the one that its coordinates give.
pub proof fn lemma_point2_of(p: Point<2>)
    ensures
        point2_of(p@) == p,
{
    assert(point2_of(p@)@ =~= p@);
    lemma_point_ext(point2_of(p@), p);
}

/// A point in space is the one that its coordinates give.
pub proof fn lemma_point3_of(p: Point<3>)
    ensures
        point3_of(p@) == p,
{
    assert(point3_of(p@)@ =~= p@);
    lemma_point_ext(point3_of(p@), p);
}

impl<const D: usize> Vector<D> {
    /// The vector with the given components.
    pub fn from_array(components: [Scalar; D]) -> (r: Self)
        ensures
            r.components == components,
    {
        Vector { components }
    }

    /// The sum of two vectors.
    pub fn add(self, other: Self) -> (r: Self)
        ensures
            r@ == coords_add(self@, other@),
    {
        Vector { components: combine(&self.components, &other.components, false) }
    }

    /// The difference of two vectors.
    pub fn sub(self, other: Self) -> (r: Self)
        ensures
            r@ == coords_sub(self@, other@),
    {
        Vector { components: combine(&self.components, &other.components, true) }
    }

    /// The vector stretched by the factor `k`.
    pub fn scale(self, k: Scalar) -> (r: Self)
        ensures
            r@ == coords_scale(self@, k),
    {
        Vector { components: scale_all(&self.components, k) }
    }

    /// The vector with every component divided by `k`; none if `k` is zero.
    pub fn checked_div(self, k: Scalar) -> (r: Option<Self>)
        ensures
            r is None <==> k@ == 0,
            r is Some ==> r->Some_0@ == coords_quotient(self@, k),
    {
        if k.raw == 0 {
            return None;
        }
        let mut out = self.components;
        let mut i: usize = 0;
        while i < D
            invariant
                i <= D,
                k@ != 0,
                forall|j: int| 0 <= j < i ==> Some(out[j]) == self.components[j].checked_div(k),
            decreases D - i,
        {
            out[i] = self.components[i].checked_div(k).unwrap();
            i += 1;
        }
        assert(out@ =~= coords_quotient(self@, k));
        Some(Vector { components: out })
    }

    /// Half of the vector.
    pub fn half(self) -> (r: Self)
        ensures
            r@ == coords_half(self@),
    {
        let mut out = self.components;
        let mut i: usize = 0;
        while i < D
            invariant
                i <= D,
                forall|j: int| 0 <= j < i ==> out[j] == self.components[j].half(),
            decreases D - i,
        {
            out[i] = self.components[i].half();
            i += 1;
        }
        assert(out@ =~= coords_half(self@));
        Vector { components: out }
    }

    /// The point that this vector leads to from the origin.
    pub open spec fn spec_to_point(self) -> Point<D> {
        Point { coords: self.components }
    }

    /// The point that this vector leads to from the origin.
    #[verifier::when_used_as_spec(spec_to_point)]
    pub fn to_point(self) -> (r: Point<D>)
        ensures
            r == self.spec_to_point(),
            r@ == self@,
    {
        Point { coords: self.components }
    }

    /// The Euclidean length, rounded down to a raw unit and saturated.
    pub fn magnitude(self) -> (r: Scalar)
        ensures
            r == coords_magnitude(self@),
            r@ >= 0,
    {
        let mut sum: u128 = 0;
        let mut overflow = false;
        let mut i: usize = 0;
        proof {
            assert(self@.take(0) =~= Seq::<Scalar>::empty());
        }
        while i < D
            invariant
                i <= D,
                !overflow ==> sum == sum_squares(self@.take(i as int)),
                overflow ==> sum_squares(self@.take(i as int)) > u128::MAX,
            decreases D - i,
        {
            let c: i128 = self.components[i].raw as i128;
            assert(0 <= c * c <= 0x8000_0000_0000_0000 * 0x8000_0000_0000_0000) by (nonlinear_arith)
                requires
                    -0x8000_0000_0000_0000 <= c <= 0x8000_0000_0000_0000,
            ;
            let sq: u128 = (c * c) as u128;
            proof {
                assert(self@.take(i + 1).drop_last() =~= self@.take(i as int));
                assert(self@.take(i + 1).last() == self.components[i as int]);
                lemma_sum_squares_nonnegative(self@.take(i as int));
            }
            if !overflow {
                if sum > u128::MAX - sq {
                    overflow = true;
                } else {
                    sum = sum + sq;
                }
            }
            i += 1;
        }
        proof {
            assert(self@.take(D as int) =~= self@);
            lemma_sum_squares_nonnegative(self@);
        }
        if overflow {
            proof {
                let total = sum_squares(self@);
                let w = int_sqrt(total);
                lemma_int_sqrt_exists(total);
                assert(w > i64::MAX) by (nonlinear_arith)
                    requires
                        total > u128::MAX,
                        total < (w + 1) * (w + 1),
                        0 <= w,
                ;
            }
            Scalar { raw: i64::MAX }
        } else {
            let root: u64 = isqrt(sum);
            if root > i64::MAX as u64 {
                Scalar { raw: i64::MAX }
            } else {
                Scalar { raw: root as i64 }
            }
        }
    }
}

/// Every number that is not negative has a rounded-down square root.
pub proof fn lemma_int_sqrt_exists(x: int)
    requires
        x >= 0,
    ensures
        super::trig::is_int_sqrt(x, int_sqrt(x)),
{
    lemma_sqrt_search(x, 0);
}

/// Searching upward from a root that is not too large finds the square root.
proof fn lemma_sqrt_search(x: int, r: int)
    requires
        0 <= r,
        r * r <= x,
    ensures
        super::trig::is_int_sqrt(x, int_sqrt(x)),
    decreases x - r,
{
    if x < (r + 1) * (r + 1) {
        assert(super::trig::is_int_sqrt(x, r));
    } else {
        assert((r + 1) * (r + 1) >= r + 1) by (nonlinear_arith)
            requires
                0 <= r,
        ;
        lemma_sqrt_search(x, r + 1);
    }
}

} // verus!
