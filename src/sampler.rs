use vstd::prelude::*;

use crate::angle::{round_to_degree, Angle};
use crate::geometry::{
    coincide, polar_terms, scaled_polar, stroke_view, Cartesian, Length, PolarPoint, Stroke,
};

verus! {

/// Bound on the ends of an angular range that the samplers accept, so that
/// every sampled whole degree is representable in thousandths.
pub const SWEEP_LIMIT: i64 = 4611686018427387904;

/// A range of angles from its first to its second component.
pub type Sweep = (Angle, Angle);

/// Both ends of the range lie within `SWEEP_LIMIT`.
pub open spec fn sweep_fits(range: Sweep) -> bool {
    &&& -SWEEP_LIMIT <= range.0.millidegrees <= SWEEP_LIMIT
    &&& -SWEEP_LIMIT <= range.1.millidegrees <= SWEEP_LIMIT
}

/// The first whole degree sampled: the start, rounded.
pub open spec fn first_degree(range: Sweep) -> int {
    round_to_degree(range.0.millidegrees as int)
}

/// The last whole degree sampled: the rounded end where it lies past the
/// rounded start, else the rounded end one turn further on.
pub open spec fn last_degree(range: Sweep) -> int {
    let s = round_to_degree(range.0.millidegrees as int);
    let e = round_to_degree(range.1.millidegrees as int);
    if s < e {
        e
    } else {
        e + 360
    }
}

/// How many whole degrees are sampled, from the first to the last inclusive.
pub open spec fn sample_count(range: Sweep) -> int {
    if first_degree(range) <= last_degree(range) {
        last_degree(range) - first_degree(range) + 1
    } else {
        0
    }
}

/// The polar vector of length `radius` at `deg` whole degrees.
pub open spec fn at_degree(radius: Length, deg: int) -> PolarPoint {
    PolarPoint { radius, angle: Angle { millidegrees: (deg * 1000) as i64 } }
}

/// The points of a circle of `radius` about the point `center`, one per
/// whole degree of the range.
pub open spec fn circle_points(center: Seq<PolarPoint>, radius: Length, range: Sweep) -> Seq<
    Seq<PolarPoint>,
> {
    Seq::new(
        sample_count(range) as nat,
        |i: int| center + polar_terms(at_degree(radius, first_degree(range) + i)),
    )
}

/// The single point of a dot placed at `orientation` from `position`, at
/// 1.2 times its length.
pub open spec fn dot_points(position: PolarPoint, orientation: PolarPoint) -> Seq<Seq<PolarPoint>> {
    seq![polar_terms(position) + polar_terms(scaled_polar(orientation, 6, 5))]
}

/// The two ends of a tick pointing along `orientation` from `position`: at
/// 1.0 and at 1.5 times its length.
pub open spec fn tick_points(position: PolarPoint, orientation: PolarPoint) -> Seq<
    Seq<PolarPoint>,
> {
    seq![
        polar_terms(position) + polar_terms(orientation),
        polar_terms(position) + polar_terms(scaled_polar(orientation, 3, 2)),
    ]
}

/// The full turn from 0 to 360 degrees.
pub open spec fn whole_turn() -> Sweep {
    (Angle { millidegrees: 0 }, Angle { millidegrees: 360000 })
}

/// The range from 0 to 360 degrees, which samples the whole circle.
pub fn full_turn() -> (r: Sweep)
    ensures
        r == whole_turn(),
        sweep_fits(r),
{
    (Angle { millidegrees: 0 }, Angle { millidegrees: 360000 })
}

proof fn lemma_round_bounds(m: int)
    ensures
        m >= 0 ==> 0 <= round_to_degree(m) <= m / 1000 + 1,
        m < 0 ==> -((0 - m) / 1000) - 1 <= round_to_degree(m) <= 0,
{
}

/// Samples the circle of `radius` about `center`, one point per whole degree
/// of `range`.
fn sample_circle(center: &Cartesian, radius: Length, range: Sweep) -> (r: Stroke)
    requires
        sweep_fits(range),
    ensures
        stroke_view(r@) == circle_points(center@, radius, range),
        r@.len() == sample_count(range),
{
    let s = range.0.rounded_degrees();
    let e = range.1.rounded_degrees();
    proof {
        lemma_round_bounds(range.0.millidegrees as int);
        lemma_round_bounds(range.1.millidegrees as int);
    }
    let last: i64 = if s < e { e } else { e + 360 };
    let ghost count = sample_count(range);
    let mut out: Stroke = Vec::new();
    let mut d: i64 = s;
    while d <= last
        invariant
            s == first_degree(range),
            last == last_degree(range),
            count == sample_count(range),
            -(SWEEP_LIMIT / 1000) - 1 <= s,
            last <= SWEEP_LIMIT / 1000 + 361,
            s <= d <= s + count,
            out@.len() == d - s,
            forall|i: int|
                0 <= i < out@.len() ==> #[trigger] out@[i]@ == center@ + polar_terms(
                    at_degree(radius, s + i),
                ),
        decreases last + 1 - d,
    {
        let unit = PolarPoint::new(radius, Angle { millidegrees: d * 1000 });
        let point = center.plus(&unit.to_cartesian());
        out.push(point);
        proof {
            assert(unit == at_degree(radius, s + (d - s)));
        }
        d = d + 1;
    }
    proof {
        assert(stroke_view(out@) =~= circle_points(center@, radius, range));
    }
    out
}

/// The arc of `radius` about `center`, one point per whole degree of
/// `range`. A range whose rounded end does not lie past its rounded start
/// runs on through a full turn: `(0, 360)` is the whole circle and
/// `(350, 10)` runs from 350 to 370 degrees.
pub fn arc(center: &PolarPoint, radius: Length, range: Sweep) -> (r: Stroke)
    requires
        sweep_fits(range),
    ensures
        stroke_view(r@) == circle_points(polar_terms(*center), radius, range),
        r@.len() == sample_count(range),
{
    sample_circle(&center.to_cartesian(), radius, range)
}

/// The arc of `radius` about the sum of two polar offsets, `first` and
/// `second`, one point per whole degree of `range` as for `arc`.
pub fn offset_arc(first: &PolarPoint, second: &PolarPoint, radius: Length, range: Sweep) -> (r:
    Stroke)
    requires
        sweep_fits(range),
    ensures
        stroke_view(r@) == circle_points(
            polar_terms(*first) + polar_terms(*second),
            radius,
            range,
        ),
        r@.len() == sample_count(range),
{
    let center = first.to_cartesian().plus(&second.to_cartesian());
    sample_circle(&center, radius, range)
}

/// A single-point marker at `position` plus 1.2 times `orientation`.
pub fn dot(position: &PolarPoint, orientation: &PolarPoint) -> (r: Stroke)
    requires
        i64::MIN <= orientation.radius.num * 6 <= i64::MAX,
        i64::MIN <= orientation.radius.den * 5 <= i64::MAX,
    ensures
        stroke_view(r@) == dot_points(*position, *orientation),
        r@.len() == 1,
{
    let far = PolarPoint::new(orientation.radius.scale(6, 5), orientation.angle);
    let point = position.to_cartesian().plus(&far.to_cartesian());
    let out: Stroke = vec![point];
    proof {
        assert(stroke_view(out@) =~= dot_points(*position, *orientation));
    }
    out
}

/// A two-point segment pointing outward along `orientation`: from
/// `position` plus `orientation` to `position` plus 1.5 times `orientation`.
pub fn radial_tick(position: &PolarPoint, orientation: &PolarPoint) -> (r: Stroke)
    requires
        i64::MIN <= orientation.radius.num * 3 <= i64::MAX,
        i64::MIN <= orientation.radius.den * 2 <= i64::MAX,
    ensures
        stroke_view(r@) == tick_points(*position, *orientation),
        r@.len() == 2,
{
    let base = position.to_cartesian();
    let far = PolarPoint::new(orientation.radius.scale(3, 2), orientation.angle);
    let near_point = base.plus(&orientation.to_cartesian());
    let far_point = base.plus(&far.to_cartesian());
    let out: Stroke = vec![near_point, far_point];
    proof {
        assert(stroke_view(out@) =~= tick_points(*position, *orientation));
    }
    out
}

} // verus!

verus! {

/// A whole turn samples 361 points, one per degree from 0 to 360, and the
/// last point coincides with the first: the circle closes.
pub proof fn lemma_whole_turn_closes(center: PolarPoint, radius: Length)
    ensures
        ({
            let pts = circle_points(polar_terms(center), radius, whole_turn());
            &&& pts.len() == 361
            &&& forall|i: int|
                0 <= i < 361 ==> #[trigger] pts[i] == polar_terms(center) + polar_terms(
                    at_degree(radius, i),
                )
            &&& coincide(pts[0], pts[360])
        }),
{
    let pts = circle_points(polar_terms(center), radius, whole_turn());
    assert(first_degree(whole_turn()) == 0);
    assert(last_degree(whole_turn()) == 360);
    let a = pts[0];
    let b = pts[360];
    let c = polar_terms(center);
    assert forall|i: int| 0 <= i < a.len() implies {
        &&& #[trigger] a[i].radius == b[i].radius
        &&& (a[i].angle.millidegrees - b[i].angle.millidegrees) % 360000 == 0
    } by {
        if i < c.len() {
            assert(a[i] == c[i]);
            assert(b[i] == c[i]);
        } else {
            assert(a[i] == at_degree(radius, 0));
            assert(b[i] == at_degree(radius, 360));
            assert((0 - 360000) % 360000 == 0int);
        }
    }
}

/// A range whose end lies before its start wraps forward through a full
/// turn: from 350 to 10 degrees samples 350, 351, ..., 370, 21 points.
pub proof fn lemma_wrapped_sweep(center: PolarPoint, radius: Length)
    ensures
        ({
            let range = (Angle { millidegrees: 350000 }, Angle { millidegrees: 10000 });
            let pts = circle_points(polar_terms(center), radius, range);
            &&& pts.len() == 21
            &&& forall|i: int|
                0 <= i < 21 ==> #[trigger] pts[i] == polar_terms(center) + polar_terms(
                    at_degree(radius, 350 + i),
                )
        }),
{
    let range = (Angle { millidegrees: 350000 }, Angle { millidegrees: 10000 });
    assert(first_degree(range) == 350);
    assert(last_degree(range) == 370);
}

/// The far end of a tick lies in the same direction from `position` as its
/// near end, at one and a half times the distance.
pub proof fn lemma_tick_far_end_scales_near_end(position: PolarPoint, orientation: PolarPoint)
    requires
        orientation.radius.num != 0,
        i64::MIN <= orientation.radius.num * 3 <= i64::MAX,
        i64::MIN <= orientation.radius.den * 2 <= i64::MAX,
    ensures
        ({
            let t = tick_points(position, orientation);
            let far = t[1][t[1].len() - 1];
            &&& t[0] == polar_terms(position) + seq![orientation]
            &&& t[1] == polar_terms(position) + seq![far]
            &&& far.angle == orientation.angle
            &&& far.radius.num * orientation.radius.den * 2 == orientation.radius.num
                * far.radius.den * 3
        }),
{
    let far = scaled_polar(orientation, 3, 2);
    assert(far.radius.num != 0);
    let t = tick_points(position, orientation);
    assert(t[1] == polar_terms(position) + seq![far]);
    assert(t[1][t[1].len() - 1] == far);
    let n = orientation.radius.num as int;
    let d = orientation.radius.den as int;
    assert((n * 3) * d * 2 == n * (d * 2) * 3) by (nonlinear_arith);
}

} // verus!
