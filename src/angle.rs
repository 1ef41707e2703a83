use vstd::prelude::*;

verus! {

/// An angle, counted in thousandths of a degree. Any value is allowed:
/// angles beyond a full turn, or negative ones, are never normalised.
#[derive(Clone, Copy, Debug, PartialEq, Eq, Structural)]
pub struct Angle {
    pub millidegrees: i64,
}

/// The nearest whole degree to `m` thousandths of a degree, halves rounded
/// away from zero.
pub open spec fn round_to_degree(m: int) -> int {
    if m >= 0 {
        (m + 500) / 1000
    } else {
        -((500 - m) / 1000)
    }
}

/// Bound on the angles that the glyph builders accept, so that turning
/// one by a further angle within the bound stays representable.
pub const ANGLE_LIMIT: i64 = 2305843009213693952;

/// The angle `a` turned on by `m` thousandths of a degree.
pub open spec fn turned(a: Angle, m: int) -> Angle {
    Angle { millidegrees: (a.millidegrees + m) as i64 }
}

impl Angle {
    /// The angle lies within `ANGLE_LIMIT` either way.
    pub open spec fn fits(self) -> bool {
        -ANGLE_LIMIT <= self.millidegrees <= ANGLE_LIMIT
    }

    /// The angle of `d` whole degrees.
    pub fn from_degrees(d: i64) -> (r: Angle)
        requires
            i64::MIN <= d * 1000 <= i64::MAX,
        ensures
            r.millidegrees == d * 1000,
    {
        Angle { millidegrees: d * 1000 }
    }

    /// The sum of two angles, with no wrapping at a full turn.
    pub fn add(self, other: Angle) -> (r: Angle)
        requires
            i64::MIN <= self.millidegrees + other.millidegrees <= i64::MAX,
        ensures
            r.millidegrees == self.millidegrees + other.millidegrees,
    {
        Angle { millidegrees: self.millidegrees + other.millidegrees }
    }

    /// The nearest whole degree, halves rounded away from zero.
    pub fn rounded_degrees(self) -> (r: i64)
        ensures
            r == round_to_degree(self.millidegrees as int),
    {
        let m = self.millidegrees;
        let q = m / 1000;
        let rem = m % 1000;
        if rem >= 500 {
            q + 1
        } else if rem <= -500 {
            q - 1
        } else {
            q
        }
    }
}

} // verus!
