use vstd::prelude::*;

use crate::angle::Angle;

verus! {

/// Bound on the numerator and denominator of a length that the glyph
/// builders accept, so that scaling by the glyphs' fixed ratios stays
/// representable.
pub const LENGTH_LIMIT: i64 = 576460752303423488;

/// A length, kept exactly as the fraction `num / den` of the caller's unit.
#[derive(Clone, Copy, Debug, PartialEq, Eq, Structural)]
pub struct Length {
    pub num: i64,
    pub den: i64,
}

impl Length {
    /// The length `num / den` scaled by `a / b`, written without reduction.
    pub open spec fn scaled_by(self, a: int, b: int) -> Length {
        Length { num: (self.num * a) as i64, den: (self.den * b) as i64 }
    }

    /// Numerator and denominator lie within `LENGTH_LIMIT`; the denominator
    /// is positive.
    pub open spec fn fits(self) -> bool {
        -LENGTH_LIMIT <= self.num <= LENGTH_LIMIT && 0 < self.den <= LENGTH_LIMIT
    }

    pub open spec fn is_zero(self) -> bool {
        self.num == 0
    }

    /// The length zero.
    pub fn zero() -> (r: Length)
        ensures
            r.is_zero(),
            r.den == 1,
    {
        Length { num: 0, den: 1 }
    }

    /// The whole number `n` of units.
    pub fn units(n: i64) -> (r: Length)
        ensures
            r.num == n,
            r.den == 1,
    {
        Length { num: n, den: 1 }
    }

    /// This length times `a / b`.
    pub fn scale(self, a: i64, b: i64) -> (r: Length)
        requires
            i64::MIN <= self.num * a <= i64::MAX,
            i64::MIN <= self.den * b <= i64::MAX,
        ensures
            r == self.scaled_by(a as int, b as int),
    {
        Length { num: self.num * a, den: self.den * b }
    }
}

/// A position in polar form: a radius and an angle.
#[derive(Clone, Copy, Debug, PartialEq, Eq, Structural)]
pub struct PolarPoint {
    pub radius: Length,
    pub angle: Angle,
}

/// The polar vector `p` as a sum: empty where its radius is zero, the one
/// term `p` otherwise.
pub open spec fn polar_terms(p: PolarPoint) -> Seq<PolarPoint> {
    if p.radius.is_zero() {
        seq![]
    } else {
        seq![p]
    }
}

/// `p` with its radius scaled by `a / b`.
pub open spec fn scaled_polar(p: PolarPoint, a: int, b: int) -> PolarPoint {
    PolarPoint { radius: p.radius.scaled_by(a, b), angle: p.angle }
}

impl PolarPoint {
    pub fn new(radius: Length, angle: Angle) -> (r: PolarPoint)
        ensures
            r.radius == radius,
            r.angle == angle,
    {
        PolarPoint { radius, angle }
    }

    /// This position in the plane. A zero radius gives the origin, whatever
    /// the angle.
    pub fn to_cartesian(&self) -> (r: Cartesian)
        ensures
            r@ == polar_terms(*self),
            self.radius.is_zero() ==> r@ == Seq::<PolarPoint>::empty(),
    {
        let mut terms: Vec<PolarPoint> = Vec::new();
        if self.radius.num != 0 {
            terms.push(*self);
        }
        proof {
            assert(terms@ =~= polar_terms(*self));
        }
        Cartesian { terms }
    }
}

/// A point of the plane, kept exactly as the sum of polar vectors: the point
/// `(sum r cos a, sum r sin a)` over its terms. No term has a zero radius;
/// the origin has no terms.
#[derive(Debug)]
pub struct Cartesian {
    pub terms: Vec<PolarPoint>,
}

impl View for Cartesian {
    type V = Seq<PolarPoint>;

    open spec fn view(&self) -> Seq<PolarPoint> {
        self.terms@
    }
}

/// Two sums denote the same point when their terms pair off with equal
/// radii and angles a whole number of turns apart.
pub open spec fn coincide(a: Seq<PolarPoint>, b: Seq<PolarPoint>) -> bool {
    &&& a.len() == b.len()
    &&& forall|i: int|
        0 <= i < a.len() ==> {
            &&& #[trigger] a[i].radius == b[i].radius
            &&& (a[i].angle.millidegrees - b[i].angle.millidegrees) % 360000 == 0
        }
}

impl Cartesian {
    /// The vector sum of two points.
    pub fn plus(&self, other: &Cartesian) -> (r: Cartesian)
        ensures
            r@ == self@ + other@,
    {
        let mut terms: Vec<PolarPoint> = Vec::new();
        let mut i: usize = 0;
        while i < self.terms.len()
            invariant
                i <= self.terms@.len(),
                terms@ == self.terms@.subrange(0, i as int),
            decreases self.terms@.len() - i,
        {
            terms.push(self.terms[i]);
            i = i + 1;
            proof {
                assert(terms@ =~= self.terms@.subrange(0, i as int));
            }
        }
        let mut j: usize = 0;
        while j < other.terms.len()
            invariant
                j <= other.terms@.len(),
                terms@ == self.terms@ + other.terms@.subrange(0, j as int),
            decreases other.terms@.len() - j,
        {
            terms.push(other.terms[j]);
            j = j + 1;
            proof {
                assert(terms@ =~= self.terms@ + other.terms@.subrange(0, j as int));
            }
        }
        proof {
            assert(self.terms@ =~= self.terms@.subrange(0, self.terms@.len() as int));
            assert(other.terms@ =~= other.terms@.subrange(0, other.terms@.len() as int));
        }
        Cartesian { terms }
    }
}

/// A stroke: the points of one polyline in drawing order, or of one marker.
pub type Stroke = Vec<Cartesian>;

/// The points of a stroke as sums of polar vectors.
pub open spec fn stroke_view(s: Seq<Cartesian>) -> Seq<Seq<PolarPoint>> {
    s.map_values(|c: Cartesian| c@)
}

/// A list of strokes as sums of polar vectors.
pub open spec fn strokes_view(v: Seq<Stroke>) -> Seq<Seq<Seq<PolarPoint>>> {
    v.map_values(|s: Stroke| stroke_view(s@))
}

} // verus!
