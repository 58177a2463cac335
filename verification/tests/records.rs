use evolutionary_alg::best::BestRecord;
use evolutionary_alg::binary64::Binary64;
use evolutionary_alg::controller::MutationController;

fn b(x: f64) -> Binary64 {
    Binary64::from_bits(x.to_bits())
}

fn bits_of(values: &[f64]) -> Vec<Binary64> {
    values.iter().map(|x| b(*x)).collect()
}

#[test]
fn the_unset_record_holds_negative_infinity_at_position_zero() {
    let r = BestRecord::unset();
    assert_eq!(r.index, 0);
    assert_eq!(r.created_generation, 0);
    assert_eq!(r.fitness, b(f64::NEG_INFINITY));
}

#[test]
fn a_strictly_greater_fitness_takes_the_record() {
    let r = BestRecord { index: 2, fitness: b(10.0), created_generation: 3 };
    let next = r.consider(5, b(10.000000000000002), 7);
    assert_eq!(next, BestRecord { index: 5, fitness: b(10.000000000000002), created_generation: 7 });
}

#[test]
fn an_equal_fitness_leaves_the_record() {
    let r = BestRecord { index: 2, fitness: b(10.0), created_generation: 3 };
    assert_eq!(r.consider(5, b(10.0), 7), r);
    let zero = BestRecord { index: 1, fitness: b(0.0), created_generation: 1 };
    assert_eq!(zero.consider(4, b(-0.0), 2), zero);
    let minus_zero = BestRecord { index: 1, fitness: b(-0.0), created_generation: 1 };
    assert_eq!(minus_zero.consider(4, b(0.0), 2), minus_zero);
}

#[test]
fn a_smaller_fitness_or_nan_leaves_the_record() {
    let r = BestRecord { index: 2, fitness: b(10.0), created_generation: 3 };
    assert_eq!(r.consider(0, b(9.0), 7), r);
    assert_eq!(r.consider(0, b(f64::NAN), 7), r);
    assert_eq!(r.consider(0, b(f64::NEG_INFINITY), 7), r);
}

#[test]
fn any_number_above_negative_infinity_takes_the_unset_record() {
    let next = BestRecord::unset().consider(3, b(-1e300), 1);
    assert_eq!(next, BestRecord { index: 3, fitness: b(-1e300), created_generation: 1 });
    assert_eq!(BestRecord::unset().consider(3, b(f64::NEG_INFINITY), 1), BestRecord::unset());
}

#[test]
fn survey_finds_the_greatest_fitness() {
    let fitness = bits_of(&[3.0, -8.0, 11.5, 11.0, 2.0]);
    let r = BestRecord::unset().survey(&fitness, 1);
    assert_eq!(r, BestRecord { index: 2, fitness: b(11.5), created_generation: 1 });
}

#[test]
fn survey_keeps_the_first_of_equal_greatest_values() {
    let fitness = bits_of(&[1.0, 7.0, 7.0, 0.0, 7.0]);
    let r = BestRecord::unset().survey(&fitness, 4);
    assert_eq!(r, BestRecord { index: 1, fitness: b(7.0), created_generation: 4 });
    let zeros = bits_of(&[-5.0, -0.0, 0.0]);
    let r = BestRecord::unset().survey(&zeros, 4);
    assert_eq!(r, BestRecord { index: 1, fitness: b(-0.0), created_generation: 4 });
}

#[test]
fn survey_leaves_the_record_when_nothing_is_greater() {
    let incumbent = BestRecord { index: 0, fitness: b(50.0), created_generation: 2 };
    let fitness = bits_of(&[50.0, 49.0, f64::NAN, 50.0]);
    assert_eq!(incumbent.survey(&fitness, 9), incumbent);
    assert_eq!(incumbent.survey(&Vec::new(), 9), incumbent);
}

#[test]
fn survey_passes_over_nan() {
    let fitness = bits_of(&[f64::NAN, 4.0, f64::NAN, 5.0, f64::NAN]);
    let r = BestRecord::unset().survey(&fitness, 1);
    assert_eq!(r, BestRecord { index: 3, fitness: b(5.0), created_generation: 1 });
    let only_nan = bits_of(&[f64::NAN, f64::NAN]);
    assert_eq!(BestRecord::unset().survey(&only_nan, 1), BestRecord::unset());
}

#[test]
fn survey_replaces_an_incumbent_only_by_something_greater() {
    let incumbent = BestRecord { index: 4, fitness: b(6.0), created_generation: 2 };
    let fitness = bits_of(&[1.0, 6.5, 6.0, 9.0, 6.0]);
    let r = incumbent.survey(&fitness, 3);
    assert_eq!(r, BestRecord { index: 3, fitness: b(9.0), created_generation: 3 });
}

#[test]
fn a_new_controller_multiplies_from_the_configured_magnitude() {
    let c = MutationController::new(b(0.75));
    assert_eq!(
        c,
        MutationController { current: b(0.75), invert: false, min_seen: None, max_seen: None }
    );
    assert!(!c.out_of_band());
    assert_eq!(c.scale_base(b(0.75)), b(0.75));
    assert!(!c.scale_divides());
}

#[test]
fn the_band_ends_just_past_the_ceiling_and_just_below_the_floor() {
    let at = |x: f64| MutationController { current: b(x), invert: false, min_seen: None, max_seen: None };
    assert!(!at(60.0).out_of_band());
    assert!(at(60.00000000000001).out_of_band());
    assert!(at(f64::INFINITY).out_of_band());
    assert!(!at(1e-33).out_of_band());
    assert!(at(9.999999999999999e-34).out_of_band());
    assert!(at(0.0).out_of_band());
    assert!(at(-1.0).out_of_band());
    assert!(!at(1.0).out_of_band());
    assert!(!at(f64::NAN).out_of_band());
}

#[test]
fn inside_the_band_the_current_magnitude_is_scaled_in_the_current_direction() {
    let growing = MutationController { current: b(2.5), invert: false, min_seen: None, max_seen: None };
    assert_eq!(growing.scale_base(b(1.0)), b(2.5));
    assert!(!growing.scale_divides());
    let shrinking = MutationController { current: b(0.4), invert: true, min_seen: None, max_seen: None };
    assert_eq!(shrinking.scale_base(b(1.0)), b(0.4));
    assert!(shrinking.scale_divides());
}

#[test]
fn outside_the_band_the_direction_turns_and_the_configured_magnitude_is_scaled() {
    let grown = MutationController { current: b(69.0), invert: false, min_seen: None, max_seen: None };
    assert_eq!(grown.scale_base(b(1.0)), b(1.0));
    assert!(grown.scale_divides());
    let shrunk = MutationController { current: b(8e-34), invert: true, min_seen: None, max_seen: None };
    assert_eq!(shrunk.scale_base(b(1.0)), b(1.0));
    assert!(!shrunk.scale_divides());
}

#[test]
fn an_adjustment_records_the_magnitude_it_met() {
    let mut c = MutationController::new(b(1.0));
    c.adjust(b(1.25));
    assert_eq!(
        c,
        MutationController {
            current: b(1.25),
            invert: false,
            min_seen: Some(b(1.0)),
            max_seen: Some(b(1.0)),
        }
    );
    c.adjust(b(1.5625));
    assert_eq!(c.min_seen, Some(b(1.0)));
    assert_eq!(c.max_seen, Some(b(1.25)));
    assert_eq!(c.current, b(1.5625));
}

#[test]
fn an_adjustment_outside_the_band_turns_the_direction() {
    let mut c = MutationController {
        current: b(70.0),
        invert: false,
        min_seen: Some(b(1.0)),
        max_seen: Some(b(56.0)),
    };
    c.adjust(b(0.8));
    assert_eq!(
        c,
        MutationController {
            current: b(0.8),
            invert: true,
            min_seen: Some(b(1.0)),
            max_seen: Some(b(70.0)),
        }
    );
    c.adjust(b(0.64));
    assert!(c.invert);
    assert_eq!(c.min_seen, Some(b(0.8)));
    assert_eq!(c.max_seen, Some(b(70.0)));
}

#[test]
fn a_restart_brings_back_the_configured_magnitude_and_keeps_the_rest() {
    let mut c = MutationController {
        current: b(0.3),
        invert: true,
        min_seen: Some(b(0.4)),
        max_seen: Some(b(70.0)),
    };
    c.restart(b(1.0));
    assert_eq!(
        c,
        MutationController {
            current: b(1.0),
            invert: true,
            min_seen: Some(b(0.4)),
            max_seen: Some(b(70.0)),
        }
    );
}

#[test]
fn the_magnitude_swings_between_the_two_ends_of_the_band() {
    let initial = 1.0f64;
    let mut c = MutationController::new(b(initial));
    let mut turns = 0;
    let mut greatest = initial;
    let mut least = initial;
    for _ in 0..2000 {
        let was_inverted = c.invert;
        let base = f64::from_bits(c.scale_base(b(initial)).to_bits());
        let met = f64::from_bits(c.current.to_bits());
        if met > greatest {
            greatest = met;
        }
        if met < least {
            least = met;
        }
        let scaled = if c.scale_divides() { base / 1.25 } else { base * 1.25 };
        c.adjust(b(scaled));
        if c.invert != was_inverted {
            turns += 1;
            assert!(met > 60.0 || met < 1e-33);
            assert_eq!(base.to_bits(), initial.to_bits());
        } else {
            assert!(1e-33 <= met && met <= 60.0);
            assert_eq!(base.to_bits(), met.to_bits());
        }
        let now = f64::from_bits(c.current.to_bits());
        assert!(now <= 60.0 * 1.25 && now >= 1e-33 / 1.25);
        assert_eq!(c.max_seen, Some(b(greatest)));
        assert_eq!(c.min_seen, Some(b(least)));
    }
    assert!(turns >= 4);
    assert!(greatest > 60.0);
    assert!(least < 1e-33);
}
