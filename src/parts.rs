use vstd::prelude::*;

use crate::angle::{turned, Angle};
use crate::geometry::{
    polar_terms, scaled_polar, stroke_view, strokes_view, Length, PolarPoint, Stroke,
};
use crate::sampler::{
    circle_points, dot, dot_points, full_turn, offset_arc, radial_tick, sweep_fits, tick_points,
    whole_turn, Sweep,
};

verus! {

/// One motif of a glyph. Each carries the letter's own circle radius; a
/// vowel also the radius of its small circle and the absolute angle at
/// which that circle sits, and a single tick the angle by which it turns
/// from the placement.
#[derive(Clone, Copy, Debug, PartialEq, Eq, Structural)]
pub enum LetterPart {
    Vowel(Length, Length, Angle),
    Crescent(Length),
    Full(Length),
    Quarter(Length),
    New(Length),
    Dot1(Length),
    Dot2(Length),
    Dot3(Length),
    Dot4(Length),
    Line1(Length, Angle),
    Line2(Length),
    Line3(Length),
}

/// The range from `placement` turned by `from` to `placement` turned by
/// `to`, both in whole degrees.
pub open spec fn sweep_from(placement: Angle, from: int, to: int) -> Sweep {
    (turned(placement, from * 1000), turned(placement, to * 1000))
}

/// The polar vector of `radius` pointing `deg` whole degrees on from the
/// placement's angle.
pub open spec fn spoke(placement: PolarPoint, radius: Length, deg: int) -> PolarPoint {
    PolarPoint { radius, angle: turned(placement.angle, deg * 1000) }
}

/// One dot for each offset in `degrees`, in that order.
pub open spec fn dot_ring(placement: PolarPoint, radius: Length, degrees: Seq<i64>) -> Seq<
    Seq<Seq<PolarPoint>>,
> {
    degrees.map_values(|d: i64| dot_points(placement, spoke(placement, radius, d as int)))
}

/// One tick for each offset in `degrees`, in that order.
pub open spec fn tick_ring(placement: PolarPoint, radius: Length, degrees: Seq<i64>) -> Seq<
    Seq<Seq<PolarPoint>>,
> {
    degrees.map_values(|d: i64| tick_points(placement, spoke(placement, radius, d as int)))
}

/// The circle of `radius` offset from the placement by `offset`, sampled
/// over `range`.
pub open spec fn offset_circle(
    placement: PolarPoint,
    offset: PolarPoint,
    radius: Length,
    range: Sweep,
) -> Seq<Seq<PolarPoint>> {
    circle_points(polar_terms(placement) + polar_terms(offset), radius, range)
}

impl LetterPart {
    /// Every length and angle that the part carries fits the bounds of the
    /// glyph builders.
    pub open spec fn fits(self) -> bool {
        match self {
            LetterPart::Vowel(lr, vr, va) => lr.fits() && vr.fits() && va.fits(),
            LetterPart::Crescent(lr) => lr.fits(),
            LetterPart::Full(lr) => lr.fits(),
            LetterPart::Quarter(lr) => lr.fits(),
            LetterPart::New(lr) => lr.fits(),
            LetterPart::Dot1(lr) => lr.fits(),
            LetterPart::Dot2(lr) => lr.fits(),
            LetterPart::Dot3(lr) => lr.fits(),
            LetterPart::Dot4(lr) => lr.fits(),
            LetterPart::Line1(lr, o) => lr.fits() && o.fits(),
            LetterPart::Line2(lr) => lr.fits(),
            LetterPart::Line3(lr) => lr.fits(),
        }
    }

    /// The strokes that draw the part at `p`.
    pub open spec fn strokes(self, p: PolarPoint) -> Seq<Seq<Seq<PolarPoint>>> {
        match self {
            LetterPart::Vowel(lr, vr, va) => seq![
                offset_circle(p, PolarPoint { radius: lr, angle: va }, vr, whole_turn()),
            ],
            LetterPart::Crescent(lr) => seq![
                offset_circle(p, scaled_polar(spoke(p, lr, 180), 9, 10), lr, sweep_from(p.angle, 30, 330)),
            ],
            LetterPart::Full(lr) => seq![
                offset_circle(p, scaled_polar(spoke(p, lr, 180), 6, 5), lr, whole_turn()),
            ],
            LetterPart::Quarter(lr) => seq![
                offset_circle(p, spoke(p, Length { num: 0, den: 1 }, 180), lr, sweep_from(p.angle, 95, 265)),
            ],
            LetterPart::New(lr) => seq![
                offset_circle(p, spoke(p, Length { num: 0, den: 1 }, 180), lr, sweep_from(p.angle, 0, 360)),
            ],
            LetterPart::Dot1(lr) => dot_ring(p, lr, seq![180]),
            LetterPart::Dot2(lr) => dot_ring(p, lr, seq![135, 225]),
            LetterPart::Dot3(lr) => dot_ring(p, lr, seq![135, 180, 225]),
            LetterPart::Dot4(lr) => dot_ring(p, lr, seq![150, 165, 195, 210]),
            LetterPart::Line1(lr, o) => seq![
                tick_points(p, PolarPoint { radius: lr, angle: turned(p.angle, o.millidegrees as int) }),
            ],
            LetterPart::Line2(lr) => tick_ring(p, lr, seq![135, 225]),
            LetterPart::Line3(lr) => tick_ring(p, lr, seq![135, 180, 225]),
        }
    }

    /// The strokes that draw the part at `placement`: circles and arcs as
    /// polylines, dots as single points, ticks as two-point segments.
    pub fn evaluate(&self, placement: &PolarPoint) -> (r: Vec<Stroke>)
        requires
            self.fits(),
            placement.angle.fits(),
        ensures
            strokes_view(r@) == self.strokes(*placement),
    {
        let p = placement;
        let r: Vec<Stroke> = match *self {
            LetterPart::Vowel(lr, vr, va) => {
                let s = offset_arc(p, &PolarPoint::new(lr, va), vr, full_turn());
                vec![s]
            },
            LetterPart::Crescent(lr) => {
                let back = PolarPoint::new(lr.scale(9, 10), p.angle.add(Angle::from_degrees(180)));
                let s = offset_arc(p, &back, lr, turn_range(p.angle, 30, 330));
                vec![s]
            },
            LetterPart::Full(lr) => {
                let back = PolarPoint::new(lr.scale(6, 5), p.angle.add(Angle::from_degrees(180)));
                let s = offset_arc(p, &back, lr, full_turn());
                vec![s]
            },
            LetterPart::Quarter(lr) => {
                let centre = PolarPoint::new(Length::zero(), p.angle.add(Angle::from_degrees(180)));
                let s = offset_arc(p, &centre, lr, turn_range(p.angle, 95, 265));
                vec![s]
            },
            LetterPart::New(lr) => {
                let centre = PolarPoint::new(Length::zero(), p.angle.add(Angle::from_degrees(180)));
                let s = offset_arc(p, &centre, lr, turn_range(p.angle, 0, 360));
                vec![s]
            },
            LetterPart::Dot1(lr) => dots(p, lr, vec![180]),
            LetterPart::Dot2(lr) => dots(p, lr, vec![135, 225]),
            LetterPart::Dot3(lr) => dots(p, lr, vec![135, 180, 225]),
            LetterPart::Dot4(lr) => dots(p, lr, vec![150, 165, 195, 210]),
            LetterPart::Line1(lr, o) => {
                let s = radial_tick(p, &PolarPoint::new(lr, p.angle.add(o)));
                vec![s]
            },
            LetterPart::Line2(lr) => ticks(p, lr, vec![135, 225]),
            LetterPart::Line3(lr) => ticks(p, lr, vec![135, 180, 225]),
        };
        proof {
            assert(strokes_view(r@) =~= self.strokes(*placement));
        }
        r
    }
}

fn turn_range(a: Angle, from: i64, to: i64) -> (r: Sweep)
    requires
        a.fits(),
        0 <= from <= 360,
        0 <= to <= 360,
    ensures
        r == sweep_from(a, from as int, to as int),
        sweep_fits(r),
{
    (a.add(Angle::from_degrees(from)), a.add(Angle::from_degrees(to)))
}

fn dots(placement: &PolarPoint, radius: Length, degrees: Vec<i64>) -> (r: Vec<Stroke>)
    requires
        radius.fits(),
        placement.angle.fits(),
        forall|i: int| 0 <= i < degrees@.len() ==> 0 <= #[trigger] degrees@[i] <= 360,
    ensures
        strokes_view(r@) == dot_ring(*placement, radius, degrees@),
{
    let mut out: Vec<Stroke> = Vec::new();
    let mut i: usize = 0;
    while i < degrees.len()
        invariant
            i <= degrees@.len(),
            out@.len() == i,
            radius.fits(),
            placement.angle.fits(),
            forall|j: int| 0 <= j < degrees@.len() ==> 0 <= #[trigger] degrees@[j] <= 360,
            forall|j: int|
                0 <= j < i ==> stroke_view(#[trigger] out@[j]@) == dot_points(
                    *placement,
                    spoke(*placement, radius, degrees@[j] as int),
                ),
        decreases degrees@.len() - i,
    {
        let d = degrees[i];
        let toward = PolarPoint::new(radius, placement.angle.add(Angle::from_degrees(d)));
        out.push(dot(placement, &toward));
        i = i + 1;
    }
    proof {
        assert(strokes_view(out@) =~= dot_ring(*placement, radius, degrees@));
    }
    out
}

fn ticks(placement: &PolarPoint, radius: Length, degrees: Vec<i64>) -> (r: Vec<Stroke>)
    requires
        radius.fits(),
        placement.angle.fits(),
        forall|i: int| 0 <= i < degrees@.len() ==> 0 <= #[trigger] degrees@[i] <= 360,
    ensures
        strokes_view(r@) == tick_ring(*placement, radius, degrees@),
{
    let mut out: Vec<Stroke> = Vec::new();
    let mut i: usize = 0;
    while i < degrees.len()
        invariant
            i <= degrees@.len(),
            out@.len() == i,
            radius.fits(),
            placement.angle.fits(),
            forall|j: int| 0 <= j < degrees@.len() ==> 0 <= #[trigger] degrees@[j] <= 360,
            forall|j: int|
                0 <= j < i ==> stroke_view(#[trigger] out@[j]@) == tick_points(
                    *placement,
                    spoke(*placement, radius, degrees@[j] as int),
                ),
        decreases degrees@.len() - i,
    {
        let d = degrees[i];
        let toward = PolarPoint::new(radius, placement.angle.add(Angle::from_degrees(d)));
        out.push(radial_tick(placement, &toward));
        i = i + 1;
    }
    proof {
        assert(strokes_view(out@) =~= tick_ring(*placement, radius, degrees@));
    }
    out
}

} // verus!

verus! {

/// Evaluating a part is a pure function of the part and the placement: any
/// two evaluations of the same part at the same placement give the same
/// strokes.
pub proof fn lemma_evaluate_is_pure(
    part: LetterPart,
    placement: PolarPoint,
    first: Seq<Stroke>,
    second: Seq<Stroke>,
)
    requires
        strokes_view(first) == part.strokes(placement),
        strokes_view(second) == part.strokes(placement),
    ensures
        strokes_view(first) == strokes_view(second),
{
}

} // verus!
