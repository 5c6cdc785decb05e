use runaway_train::utils::clamp;
use runaway_train::utils::Fraction;
use runaway_train::utils::Timer;

#[test]
fn timer_never_started_never_counts() {
    let mut timer = Timer::new(0, 20, false);
    for _ in 0..25 {
        assert!(!timer.step());
        assert_eq!(timer.get_value(), 0);
    }
}

#[test]
fn timer_counts_to_its_end_and_latches() {
    let mut timer = Timer::new(0, 20, false);
    timer.start();
    for tick in 1..20 {
        assert!(!timer.step());
        assert_eq!(timer.get_value(), tick);
    }
    assert!(timer.step());
    assert_eq!(timer.get_value(), 20);
    for _ in 0..10 {
        assert!(timer.step());
        assert_eq!(timer.get_value(), 20);
    }
}

#[test]
fn timer_step_is_sticky_once_true() {
    let mut timer = Timer::new(3, 5, true);
    let mut seen_true = false;
    let mut value_when_done = 0;
    for _ in 0..50 {
        let done = timer.step();
        if seen_true {
            assert!(done);
            assert_eq!(timer.get_value(), value_when_done);
        } else if done {
            seen_true = true;
            value_when_done = timer.get_value();
        }
    }
    assert!(seen_true);
    assert_eq!(value_when_done, 5);
}

#[test]
fn timer_auto_start_counts_from_the_first_step() {
    let mut timer = Timer::new(0, 2, true);
    assert!(!timer.step());
    assert_eq!(timer.get_value(), 1);
    assert!(timer.step());
    assert_eq!(timer.get_value(), 2);
}

#[test]
fn timer_start_is_idempotent() {
    let mut once = Timer::new(0, 3, false);
    once.start();
    let mut twice = Timer::new(0, 3, false);
    twice.start();
    twice.start();
    assert_eq!(once, twice);
    for _ in 0..5 {
        assert_eq!(once.step(), twice.step());
        assert_eq!(once, twice);
    }
}

#[test]
fn timer_that_starts_past_its_end_counts_once_and_latches() {
    let mut timer = Timer::new(5, 3, true);
    assert!(timer.step());
    assert_eq!(timer.get_value(), 6);
    assert!(timer.step());
    assert_eq!(timer.get_value(), 6);
}

#[test]
fn timer_at_the_largest_count_does_not_overflow() {
    let mut timer = Timer::new(i32::MAX, 0, true);
    assert!(timer.step());
    assert_eq!(timer.get_value(), i32::MAX);
    assert!(timer.step());
    assert_eq!(timer.get_value(), i32::MAX);
}

#[test]
fn timer_with_end_zero_is_done_at_the_first_step() {
    let mut timer = Timer::new(0, 0, true);
    assert!(timer.step());
    assert_eq!(timer.get_value(), 1);
}

#[test]
fn timer_percentage_is_count_over_end() {
    let mut timer = Timer::new(0, 20, true);
    assert_eq!(timer.get_percentage(), Fraction { numerator: 0, denominator: 20 });
    for _ in 0..7 {
        timer.step();
    }
    let ratio = timer.get_percentage();
    assert_eq!(ratio, Fraction { numerator: 7, denominator: 20 });
    assert!(!ratio.complete());
    assert_eq!(f64::from(ratio.numerator) / f64::from(ratio.denominator), 0.35);
    for _ in 0..13 {
        timer.step();
    }
    assert!(timer.get_percentage().complete());
}

#[test]
fn fraction_scales_a_length_towards_zero() {
    let seven_twentieths = Fraction { numerator: 7, denominator: 20 };
    assert_eq!(seven_twentieths.of(344), 120);
    assert_eq!(seven_twentieths.of(129), 45);
    assert_eq!(seven_twentieths.of(-344), -120);
    assert_eq!(Fraction { numerator: -7, denominator: 20 }.of(344), -120);
    assert_eq!(Fraction { numerator: -7, denominator: -20 }.of(344), 120);
    assert_eq!(Fraction { numerator: 10, denominator: 20 }.of(342), 171);
    assert_eq!(Fraction { numerator: 20, denominator: 20 }.of(98), 98);
    assert_eq!(Fraction { numerator: 0, denominator: 20 }.of(98), 0);
}

#[test]
fn fraction_scale_stops_at_the_ends_of_i32() {
    assert_eq!(Fraction { numerator: i32::MAX, denominator: 1 }.of(i32::MAX), i32::MAX);
    assert_eq!(Fraction { numerator: i32::MAX, denominator: -1 }.of(i32::MAX), i32::MIN);
    assert_eq!(Fraction { numerator: i32::MIN, denominator: 1 }.of(i32::MIN), i32::MAX);
    assert_eq!(Fraction { numerator: i32::MIN, denominator: 1 }.of(1), i32::MIN);
    assert_eq!(Fraction { numerator: i32::MIN, denominator: -1 }.of(1), i32::MAX);
}

#[test]
fn fraction_is_complete_from_one_on() {
    assert!(!Fraction { numerator: 19, denominator: 20 }.complete());
    assert!(Fraction { numerator: 20, denominator: 20 }.complete());
    assert!(Fraction { numerator: 21, denominator: 20 }.complete());
    assert!(Fraction { numerator: -20, denominator: -20 }.complete());
    assert!(!Fraction { numerator: -19, denominator: -20 }.complete());
    assert!(!Fraction { numerator: 5, denominator: -20 }.complete());
}

#[test]
fn clamp_brings_integers_into_range() {
    assert_eq!(clamp(-5, 0, 10), 0);
    assert_eq!(clamp(0, 0, 10), 0);
    assert_eq!(clamp(7, 0, 10), 7);
    assert_eq!(clamp(10, 0, 10), 10);
    assert_eq!(clamp(11, 0, 10), 10);
    assert_eq!(clamp(i64::MIN, 0, i64::MAX), 0);
    assert_eq!(clamp(i64::MAX, 0, i64::MAX), i64::MAX);
}

#[test]
fn clamp_brings_floats_into_range() {
    assert_eq!(clamp(-0.25f32, 0.0, f32::MAX), 0.0);
    assert_eq!(clamp(0.5f32, 0.0, 1.0), 0.5);
    assert_eq!(clamp(1.5f64, 0.0, 1.0), 1.0);
}
