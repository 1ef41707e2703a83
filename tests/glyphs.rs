use gallifreyan::angle::Angle;
use gallifreyan::geometry::{Cartesian, Length, PolarPoint};
use gallifreyan::letters::Letter;
use gallifreyan::parts::LetterPart;
use gallifreyan::sampler::{arc, dot, full_turn, offset_arc, radial_tick};

fn deg(d: i64) -> Angle {
    Angle::from_degrees(d)
}

fn polar(num: i64, den: i64, angle: Angle) -> PolarPoint {
    PolarPoint::new(Length { num, den }, angle)
}

fn terms(c: &Cartesian) -> Vec<PolarPoint> {
    c.terms.clone()
}

#[test]
fn add_sums_without_wrapping() {
    let a = Angle { millidegrees: 300_500 };
    let b = Angle { millidegrees: 200_250 };
    assert_eq!(a.add(b).millidegrees, 500_750);
    let c = Angle { millidegrees: -720_000 };
    assert_eq!(c.add(Angle { millidegrees: -1 }).millidegrees, -720_001);
}

#[test]
fn rounding_goes_half_away_from_zero() {
    assert_eq!(Angle { millidegrees: 1_500 }.rounded_degrees(), 2);
    assert_eq!(Angle { millidegrees: 1_499 }.rounded_degrees(), 1);
    assert_eq!(Angle { millidegrees: -1_500 }.rounded_degrees(), -2);
    assert_eq!(Angle { millidegrees: -1_499 }.rounded_degrees(), -1);
    assert_eq!(Angle { millidegrees: 499 }.rounded_degrees(), 0);
    assert_eq!(Angle { millidegrees: -500 }.rounded_degrees(), -1);
    assert_eq!(Angle { millidegrees: 359_999 }.rounded_degrees(), 360);
}

#[test]
fn zero_radius_is_origin_at_any_angle() {
    for m in [0, 90_000, 123_456, -45_000, 720_000] {
        let p = polar(0, 7, Angle { millidegrees: m });
        assert!(p.to_cartesian().terms.is_empty());
    }
    let q = polar(2, 1, deg(30));
    assert_eq!(terms(&q.to_cartesian()), vec![q]);
}

#[test]
fn plus_concatenates_terms() {
    let a = polar(1, 1, deg(10)).to_cartesian();
    let b = polar(3, 2, deg(20)).to_cartesian();
    assert_eq!(terms(&a.plus(&b)), vec![polar(1, 1, deg(10)), polar(3, 2, deg(20))]);
}

#[test]
fn whole_turn_has_361_points_and_closes() {
    let center = polar(3, 1, deg(45));
    let s = arc(&center, Length::units(5), full_turn());
    assert_eq!(s.len(), 361);
    for (i, p) in s.iter().enumerate() {
        assert_eq!(terms(p), vec![center, polar(5, 1, deg(i as i64))]);
    }
    let first = terms(&s[0]);
    let last = terms(&s[360]);
    assert_eq!(first[1].radius, last[1].radius);
    assert_eq!(last[1].angle.millidegrees - first[1].angle.millidegrees, 360_000);
}

#[test]
fn wrapped_range_samples_through_zero() {
    let center = polar(0, 1, deg(0));
    let s = arc(&center, Length::units(2), (deg(350), deg(10)));
    assert_eq!(s.len(), 21);
    for (i, p) in s.iter().enumerate() {
        assert_eq!(terms(p), vec![polar(2, 1, deg(350 + i as i64))]);
    }
}

#[test]
fn equal_ends_sample_a_full_turn() {
    let s = arc(&polar(0, 1, deg(0)), Length::units(1), (deg(90), deg(90)));
    assert_eq!(s.len(), 361);
    assert_eq!(terms(&s[0])[0].angle, deg(90));
    assert_eq!(terms(&s[360])[0].angle, deg(450));
}

#[test]
fn start_beyond_a_turn_past_end_is_empty() {
    let s = arc(&polar(0, 1, deg(0)), Length::units(1), (deg(1000), deg(0)));
    assert!(s.is_empty());
}

#[test]
fn range_ends_are_rounded() {
    let range = (Angle { millidegrees: 400 }, Angle { millidegrees: 2_600 });
    let s = arc(&polar(0, 1, deg(0)), Length::units(1), range);
    assert_eq!(s.len(), 4);
    assert_eq!(terms(&s[0])[0].angle, deg(0));
    assert_eq!(terms(&s[3])[0].angle, deg(3));
}

#[test]
fn offset_arc_sums_both_centres() {
    let a = polar(3, 1, deg(0));
    let b = polar(1, 1, deg(90));
    let s = offset_arc(&a, &b, Length { num: 1, den: 2 }, full_turn());
    assert_eq!(s.len(), 361);
    assert_eq!(terms(&s[7]), vec![a, b, polar(1, 2, deg(7))]);
}

#[test]
fn dot_is_one_point_at_six_fifths() {
    let p = polar(4, 1, deg(30));
    let o = polar(2, 3, deg(210));
    let s = dot(&p, &o);
    assert_eq!(s.len(), 1);
    assert_eq!(terms(&s[0]), vec![p, polar(12, 15, deg(210))]);
}

#[test]
fn tick_runs_from_one_to_one_and_a_half() {
    let p = polar(4, 1, deg(30));
    let o = polar(2, 3, deg(165));
    let s = radial_tick(&p, &o);
    assert_eq!(s.len(), 2);
    assert_eq!(terms(&s[0]), vec![p, o]);
    assert_eq!(terms(&s[1]), vec![p, polar(6, 6, deg(165))]);
}

#[test]
fn j_is_one_full_circle_offset_opposite() {
    let place = polar(9, 1, deg(90));
    let parts = Letter::J.letter_parts(&place);
    let lr = Length { num: 9, den: 3 };
    assert_eq!(parts, vec![LetterPart::Full(lr)]);
    let strokes = parts[0].evaluate(&place);
    assert_eq!(strokes.len(), 1);
    assert_eq!(strokes[0].len(), 361);
    for (i, p) in strokes[0].iter().enumerate() {
        assert_eq!(terms(p), vec![place, polar(54, 15, deg(270)), polar(9, 3, deg(i as i64))]);
    }
}

#[test]
fn m_is_full_circle_then_three_ticks() {
    let place = polar(6, 1, deg(10));
    let parts = Letter::M.letter_parts(&place);
    let lr = Length { num: 6, den: 3 };
    assert_eq!(parts, vec![LetterPart::Full(lr), LetterPart::Line3(lr)]);
    let ticks = parts[1].evaluate(&place);
    assert_eq!(ticks.len(), 3);
    for (k, off) in [135, 180, 225].iter().enumerate() {
        assert_eq!(ticks[k].len(), 2);
        assert_eq!(terms(&ticks[k][0]), vec![place, polar(6, 3, deg(10 + off))]);
        assert_eq!(terms(&ticks[k][1]), vec![place, polar(18, 6, deg(10 + off))]);
    }
}

#[test]
fn evaluating_twice_gives_identical_strokes() {
    let place = polar(7, 2, Angle { millidegrees: 33_333 });
    for letter in [Letter::A, Letter::D, Letter::C, Letter::S, Letter::Ng] {
        for part in letter.letter_parts(&place) {
            let one = part.evaluate(&place);
            let two = part.evaluate(&place);
            assert_eq!(one.len(), two.len());
            for (a, b) in one.iter().zip(two.iter()) {
                let ta: Vec<Vec<PolarPoint>> = a.iter().map(terms).collect();
                let tb: Vec<Vec<PolarPoint>> = b.iter().map(terms).collect();
                assert_eq!(ta, tb);
            }
        }
    }
}

#[test]
fn vowel_angle_is_absolute_not_relative() {
    let place = polar(9, 1, deg(90));
    let parts = Letter::A.letter_parts(&place);
    assert_eq!(
        parts,
        vec![LetterPart::Vowel(Length { num: 9, den: 3 }, Length { num: 9, den: 9 }, deg(0))]
    );
    let s = parts[0].evaluate(&place);
    assert_eq!(s.len(), 1);
    assert_eq!(s[0].len(), 361);
    assert_eq!(terms(&s[0][0]), vec![place, polar(9, 3, deg(0)), polar(9, 9, deg(0))]);
}

#[test]
fn centred_vowels_drop_the_zero_offset() {
    let place = polar(9, 1, deg(90));
    let parts = Letter::U.letter_parts(&place);
    assert_eq!(
        parts,
        vec![
            LetterPart::Vowel(Length::zero(), Length { num: 9, den: 9 }, deg(0)),
            LetterPart::Line1(Length { num: 9, den: 3 }, deg(0)),
        ]
    );
    let s = parts[0].evaluate(&place);
    assert_eq!(terms(&s[0][5]), vec![place, polar(9, 9, deg(5))]);
    let tick = parts[1].evaluate(&place);
    assert_eq!(terms(&tick[0][0]), vec![place, polar(9, 3, deg(90))]);
}

#[test]
fn crescent_leaves_a_sixty_degree_gap() {
    let place = polar(10, 1, deg(90));
    let s = LetterPart::Crescent(Length::units(1)).evaluate(&place);
    assert_eq!(s.len(), 1);
    assert_eq!(s[0].len(), 301);
    assert_eq!(
        terms(&s[0][0]),
        vec![place, polar(9, 10, deg(270)), polar(1, 1, deg(120))]
    );
    assert_eq!(terms(&s[0][300])[2], polar(1, 1, deg(420)));
}

#[test]
fn quarter_and_new_centre_on_the_placement() {
    let place = polar(10, 1, deg(20));
    let q = LetterPart::Quarter(Length::units(2)).evaluate(&place);
    assert_eq!(q[0].len(), 171);
    assert_eq!(terms(&q[0][0]), vec![place, polar(2, 1, deg(115))]);
    let n = LetterPart::New(Length::units(2)).evaluate(&place);
    assert_eq!(n[0].len(), 361);
    assert_eq!(terms(&n[0][360]), vec![place, polar(2, 1, deg(380))]);
}

#[test]
fn dot_clusters_sit_at_their_offsets() {
    let place = polar(3, 1, deg(0));
    let lr = Length::units(1);
    let cases: [(LetterPart, Vec<i64>); 4] = [
        (LetterPart::Dot1(lr), vec![180]),
        (LetterPart::Dot2(lr), vec![135, 225]),
        (LetterPart::Dot3(lr), vec![135, 180, 225]),
        (LetterPart::Dot4(lr), vec![150, 165, 195, 210]),
    ];
    for (part, offsets) in cases.iter() {
        let s = part.evaluate(&place);
        assert_eq!(s.len(), offsets.len());
        for (k, off) in offsets.iter().enumerate() {
            assert_eq!(s[k].len(), 1);
            assert_eq!(terms(&s[k][0]), vec![place, polar(6, 5, deg(*off))]);
        }
    }
}

#[test]
fn tick_clusters_sit_at_their_offsets() {
    let place = polar(3, 1, deg(0));
    let lr = Length::units(2);
    let two = LetterPart::Line2(lr).evaluate(&place);
    assert_eq!(two.len(), 2);
    assert_eq!(terms(&two[1][1]), vec![place, polar(6, 2, deg(225))]);
    let one = LetterPart::Line1(lr, deg(-30)).evaluate(&place);
    assert_eq!(one.len(), 1);
    assert_eq!(terms(&one[0][0]), vec![place, polar(2, 1, deg(-30))]);
}

#[test]
fn letter_table_groups() {
    let place = polar(3, 1, deg(0));
    let lr = Length { num: 3, den: 3 };
    let crescents = [Letter::B, Letter::Ch, Letter::D, Letter::G, Letter::H, Letter::F];
    let fulls = [
        Letter::J, Letter::Ph, Letter::K, Letter::L, Letter::C, Letter::N, Letter::P, Letter::M,
    ];
    let quarters = [Letter::T, Letter::Wh, Letter::Sh, Letter::R, Letter::V, Letter::W, Letter::S];
    let news = [
        Letter::Th, Letter::Gh, Letter::Y, Letter::Z, Letter::Q, Letter::Qu, Letter::X, Letter::Ng,
    ];
    for l in crescents {
        assert_eq!(l.letter_parts(&place)[0], LetterPart::Crescent(lr));
    }
    for l in fulls {
        assert_eq!(l.letter_parts(&place)[0], LetterPart::Full(lr));
    }
    for l in quarters {
        assert_eq!(l.letter_parts(&place)[0], LetterPart::Quarter(lr));
    }
    for l in news {
        assert_eq!(l.letter_parts(&place)[0], LetterPart::New(lr));
    }
    assert_eq!(Letter::B.letter_parts(&place).len(), 1);
    assert_eq!(Letter::T.letter_parts(&place).len(), 1);
    assert_eq!(Letter::Th.letter_parts(&place).len(), 1);
    assert_eq!(Letter::Ch.letter_parts(&place)[1], LetterPart::Dot2(lr));
    assert_eq!(Letter::Ph.letter_parts(&place)[1], LetterPart::Dot1(lr));
    assert_eq!(Letter::Q.letter_parts(&place)[1], LetterPart::Dot4(lr));
    assert_eq!(Letter::Qu.letter_parts(&place)[1], LetterPart::Line1(lr, deg(180)));
    assert_eq!(Letter::W.letter_parts(&place)[1], LetterPart::Line2(lr));
    assert_eq!(Letter::F.letter_parts(&place)[1], LetterPart::Line3(lr));
    assert_eq!(
        Letter::O.letter_parts(&place),
        vec![LetterPart::Vowel(lr, Length { num: 3, den: 9 }, deg(180))]
    );
    assert_eq!(
        Letter::I.letter_parts(&place),
        vec![
            LetterPart::Vowel(Length::zero(), Length { num: 3, den: 9 }, deg(0)),
            LetterPart::Line1(lr, deg(180)),
        ]
    );
    assert_eq!(
        Letter::E.letter_parts(&place),
        vec![LetterPart::Vowel(Length::zero(), Length { num: 3, den: 9 }, deg(0))]
    );
}

#[test]
fn scaling_keeps_the_fraction_unreduced() {
    let l = Length { num: 4, den: 6 };
    assert_eq!(l.scale(9, 10), Length { num: 36, den: 60 });
    assert_eq!(Length::units(7), Length { num: 7, den: 1 });
}
