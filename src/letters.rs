use vstd::prelude::*;

use crate::angle::Angle;
use crate::geometry::{polar_terms, scaled_polar, Length, PolarPoint, LENGTH_LIMIT};
use crate::parts::{spoke, LetterPart};
use crate::sampler::{at_degree, first_degree, last_degree, tick_points, whole_turn};

verus! {

/// The letters of the alphabet: five vowels and twenty-nine consonants.
#[derive(Clone, Copy, Debug, PartialEq, Eq, Structural)]
pub enum Letter {
    A,
    E,
    I,
    O,
    U,
    B,
    Ch,
    D,
    G,
    H,
    F,
    J,
    Ph,
    K,
    L,
    C,
    N,
    P,
    M,
    T,
    Wh,
    Sh,
    R,
    V,
    W,
    S,
    Th,
    Gh,
    Y,
    Z,
    Q,
    Qu,
    X,
    Ng,
}

/// A placement radius from which a letter's parts can be built and drawn:
/// its numerator within `LENGTH_LIMIT`, and its denominator positive and
/// small enough to be divided by three twice.
pub open spec fn placement_radius_fits(radius: Length) -> bool {
    &&& -LENGTH_LIMIT <= radius.num <= LENGTH_LIMIT
    &&& 0 < radius.den
    &&& radius.den * 9 <= LENGTH_LIMIT
}

/// The angle of `d` whole degrees.
pub open spec fn degrees(d: int) -> Angle {
    Angle { millidegrees: (d * 1000) as i64 }
}

impl Letter {
    pub open spec fn is_vowel(self) -> bool {
        self is A || self is E || self is I || self is O || self is U
    }

    /// The base shape of a consonant, drawn with the letter radius `lr`.
    pub open spec fn base(self, lr: Length) -> LetterPart {
        match self {
            Letter::B | Letter::Ch | Letter::D | Letter::G | Letter::H | Letter::F => {
                LetterPart::Crescent(lr)
            },
            Letter::J | Letter::Ph | Letter::K | Letter::L | Letter::C | Letter::N | Letter::P
            | Letter::M => LetterPart::Full(lr),
            Letter::T | Letter::Wh | Letter::Sh | Letter::R | Letter::V | Letter::W | Letter::S => {
                LetterPart::Quarter(lr)
            },
            _ => LetterPart::New(lr),
        }
    }

    /// The decoration of a consonant, if any, drawn with the letter radius
    /// `lr`.
    pub open spec fn decoration(self, lr: Length) -> Seq<LetterPart> {
        match self {
            Letter::Ph | Letter::Wh | Letter::Gh => seq![LetterPart::Dot1(lr)],
            Letter::Ch | Letter::K | Letter::Sh | Letter::Y => seq![LetterPart::Dot2(lr)],
            Letter::D | Letter::L | Letter::R | Letter::Z => seq![LetterPart::Dot3(lr)],
            Letter::C | Letter::Q => seq![LetterPart::Dot4(lr)],
            Letter::G | Letter::N | Letter::V | Letter::Qu => seq![
                LetterPart::Line1(lr, degrees(180)),
            ],
            Letter::H | Letter::P | Letter::W | Letter::X => seq![LetterPart::Line2(lr)],
            Letter::F | Letter::M | Letter::S | Letter::Ng => seq![LetterPart::Line3(lr)],
            _ => seq![],
        }
    }

    /// The parts of the letter placed at distance `radius`. Its own circle
    /// has a third of that radius, and a vowel's small circle a third of
    /// that again.
    pub open spec fn parts(self, radius: Length) -> Seq<LetterPart> {
        let lr = radius.scaled_by(1, 3);
        let vr = lr.scaled_by(1, 3);
        let zero = Length { num: 0, den: 1 };
        match self {
            Letter::A => seq![LetterPart::Vowel(lr, vr, degrees(0))],
            Letter::E => seq![LetterPart::Vowel(zero, vr, degrees(0))],
            Letter::I => seq![
                LetterPart::Vowel(zero, vr, degrees(0)),
                LetterPart::Line1(lr, degrees(180)),
            ],
            Letter::O => seq![LetterPart::Vowel(lr, vr, degrees(180))],
            Letter::U => seq![
                LetterPart::Vowel(zero, vr, degrees(0)),
                LetterPart::Line1(lr, degrees(0)),
            ],
            _ => seq![self.base(lr)] + self.decoration(lr),
        }
    }

    /// The parts that draw this letter at `placement`, in drawing order.
    pub fn letter_parts(&self, placement: &PolarPoint) -> (r: Vec<LetterPart>)
        requires
            placement_radius_fits(placement.radius),
        ensures
            r@ == self.parts(placement.radius),
            forall|i: int| 0 <= i < r@.len() ==> (#[trigger] r@[i]).fits(),
    {
        let lr = placement.radius.scale(1, 3);
        let vr = lr.scale(1, 3);
        let zero = Length::zero();
        let right = Angle::from_degrees(0);
        let left = Angle::from_degrees(180);
        let r = match *self {
            Letter::A => vec![LetterPart::Vowel(lr, vr, right)],
            Letter::E => vec![LetterPart::Vowel(zero, vr, right)],
            Letter::I => vec![LetterPart::Vowel(zero, vr, right), LetterPart::Line1(lr, left)],
            Letter::O => vec![LetterPart::Vowel(lr, vr, left)],
            Letter::U => vec![LetterPart::Vowel(zero, vr, right), LetterPart::Line1(lr, right)],
            Letter::B => vec![LetterPart::Crescent(lr)],
            Letter::Ch => vec![LetterPart::Crescent(lr), LetterPart::Dot2(lr)],
            Letter::D => vec![LetterPart::Crescent(lr), LetterPart::Dot3(lr)],
            Letter::G => vec![LetterPart::Crescent(lr), LetterPart::Line1(lr, left)],
            Letter::H => vec![LetterPart::Crescent(lr), LetterPart::Line2(lr)],
            Letter::F => vec![LetterPart::Crescent(lr), LetterPart::Line3(lr)],
            Letter::J => vec![LetterPart::Full(lr)],
            Letter::Ph => vec![LetterPart::Full(lr), LetterPart::Dot1(lr)],
            Letter::K => vec![LetterPart::Full(lr), LetterPart::Dot2(lr)],
            Letter::L => vec![LetterPart::Full(lr), LetterPart::Dot3(lr)],
            Letter::C => vec![LetterPart::Full(lr), LetterPart::Dot4(lr)],
            Letter::N => vec![LetterPart::Full(lr), LetterPart::Line1(lr, left)],
            Letter::P => vec![LetterPart::Full(lr), LetterPart::Line2(lr)],
            Letter::M => vec![LetterPart::Full(lr), LetterPart::Line3(lr)],
            Letter::T => vec![LetterPart::Quarter(lr)],
            Letter::Wh => vec![LetterPart::Quarter(lr), LetterPart::Dot1(lr)],
            Letter::Sh => vec![LetterPart::Quarter(lr), LetterPart::Dot2(lr)],
            Letter::R => vec![LetterPart::Quarter(lr), LetterPart::Dot3(lr)],
            Letter::V => vec![LetterPart::Quarter(lr), LetterPart::Line1(lr, left)],
            Letter::W => vec![LetterPart::Quarter(lr), LetterPart::Line2(lr)],
            Letter::S => vec![LetterPart::Quarter(lr), LetterPart::Line3(lr)],
            Letter::Th => vec![LetterPart::New(lr)],
            Letter::Gh => vec![LetterPart::New(lr), LetterPart::Dot1(lr)],
            Letter::Y => vec![LetterPart::New(lr), LetterPart::Dot2(lr)],
            Letter::Z => vec![LetterPart::New(lr), LetterPart::Dot3(lr)],
            Letter::Q => vec![LetterPart::New(lr), LetterPart::Dot4(lr)],
            Letter::Qu => vec![LetterPart::New(lr), LetterPart::Line1(lr, left)],
            Letter::X => vec![LetterPart::New(lr), LetterPart::Line2(lr)],
            Letter::Ng => vec![LetterPart::New(lr), LetterPart::Line3(lr)],
        };
        proof {
            assert(r@ =~= self.parts(placement.radius));
        }
        r
    }
}

} // verus!

verus! {

/// J is a single full circle of a third of the placement radius, drawn as
/// one stroke of 361 points about a centre set 1.2 letter radii from the
/// placement, opposite the placement's angle.
pub proof fn lemma_j_is_offset_full_circle(placement: PolarPoint)
    requires
        placement_radius_fits(placement.radius),
        placement.angle.fits(),
    ensures
        ({
            let lr = placement.radius.scaled_by(1, 3);
            let centre = polar_terms(placement) + polar_terms(
                scaled_polar(spoke(placement, lr, 180), 6, 5),
            );
            let strokes = LetterPart::Full(lr).strokes(placement);
            &&& Letter::J.parts(placement.radius) == seq![LetterPart::Full(lr)]
            &&& strokes.len() == 1
            &&& strokes[0].len() == 361
            &&& forall|i: int|
                0 <= i < 361 ==> #[trigger] strokes[0][i] == centre + polar_terms(
                    at_degree(lr, i),
                )
        }),
{
    let lr = placement.radius.scaled_by(1, 3);
    assert(Letter::J.parts(placement.radius) =~= seq![LetterPart::Full(lr)]);
    assert(first_degree(whole_turn()) == 0);
    assert(last_degree(whole_turn()) == 360);
}

/// M is a full circle followed by three ticks, each of two points, at 135,
/// 180 and 225 degrees on from the placement's angle.
pub proof fn lemma_m_is_full_circle_with_three_ticks(placement: PolarPoint)
    requires
        placement_radius_fits(placement.radius),
        placement.angle.fits(),
    ensures
        ({
            let lr = placement.radius.scaled_by(1, 3);
            let ticks = LetterPart::Line3(lr).strokes(placement);
            &&& Letter::M.parts(placement.radius) == seq![
                LetterPart::Full(lr),
                LetterPart::Line3(lr),
            ]
            &&& ticks.len() == 3
            &&& ticks[0] == tick_points(placement, spoke(placement, lr, 135))
            &&& ticks[1] == tick_points(placement, spoke(placement, lr, 180))
            &&& ticks[2] == tick_points(placement, spoke(placement, lr, 225))
            &&& ticks[0].len() == 2 && ticks[1].len() == 2 && ticks[2].len() == 2
        }),
{
    let lr = placement.radius.scaled_by(1, 3);
    assert(Letter::M.parts(placement.radius) =~= seq![
        LetterPart::Full(lr),
        LetterPart::Line3(lr),
    ]);
}

} // verus!
