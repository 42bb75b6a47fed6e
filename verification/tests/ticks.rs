use poloto::layout::axis_range;
use poloto::arith::power_of_ten;
use poloto::ticks::{find_good_step, should_offset, tick_set};

#[test]
fn step_for_years() {
    // rough step 151 / 8 = 18.875: power 10, multiplier 2
    let (count, step, first) = find_good_step(9, 1850, 2001);
    assert_eq!((step.mult, step.exp), (2, 1));
    assert_eq!(count, 9);
    assert_eq!(first, 92);
}

#[test]
fn step_for_ten_to_twenty() {
    // rough step 10 / 9 = 1.11: power 1, multiplier 2
    let (count, step, first) = find_good_step(10, 10, 20);
    assert_eq!((step.mult, step.exp), (2, 0));
    assert_eq!(count, 6);
    assert_eq!(first, 5);
}

#[test]
fn step_below_one() {
    // rough step 1 / 9 = 0.11: power 0.1, multiplier 2
    let (count, step, first) = find_good_step(10, 0, 1);
    assert_eq!((step.mult, step.exp), (2, -1));
    assert_eq!(count, 6);
    assert_eq!(first, 0);
}

#[test]
fn step_of_a_widened_range() {
    // range 2 with 9 ticks: rough step 0.25, power 0.1, multiplier 5
    let (count, step, first) = find_good_step(9, 6, 8);
    assert_eq!((step.mult, step.exp), (5, -1));
    assert_eq!(count, 5);
    assert_eq!(first, 12);
}

#[test]
fn multiplier_is_strictly_above_the_rough_step() {
    // rough step exactly 1: the multiplier is 2, not 1
    let (_, step, _) = find_good_step(11, 0, 10);
    assert_eq!((step.mult, step.exp), (2, 0));
    // rough step exactly 2: 5
    let (_, step, _) = find_good_step(11, 0, 20);
    assert_eq!((step.mult, step.exp), (5, 0));
    // rough step exactly 5: 10
    let (_, step, _) = find_good_step(11, 0, 50);
    assert_eq!((step.mult, step.exp), (10, 0));
    // rough step 9.9: 10
    let (_, step, _) = find_good_step(11, 0, 99);
    assert_eq!((step.mult, step.exp), (10, 0));
}

#[test]
fn first_tick_of_a_negative_minimum_is_rounded_down() {
    // rough step 2.5: step 5, -7 / 5 rounded down is -2
    let (count, step, first) = find_good_step(5, -7, 3);
    assert_eq!((step.mult, step.exp), (5, 0));
    assert_eq!(count, 3);
    assert_eq!(first, -2);
}

#[test]
fn two_ticks_wished() {
    // rough step 100: power 100, multiplier 2
    let (count, step, first) = find_good_step(2, 0, 100);
    assert_eq!((step.mult, step.exp), (2, 2));
    assert_eq!(count, 2);
    assert_eq!(first, 0);
}

#[test]
fn widest_range_and_fewest_ticks() {
    let (count, step, first) = find_good_step(2, i64::MIN, i64::MAX);
    // the range is 2^64 - 1 = 1.8e19: power 1e19, multiplier 2
    assert_eq!((step.mult, step.exp), (2, 19));
    assert_eq!(count, 2);
    assert_eq!(first, -1);
}

#[test]
fn narrowest_range_and_most_ticks() {
    let (count, step, first) = find_good_step(u32::MAX, 0, 1);
    // rough step 1 / 4294967294 = 2.3e-10: power 1e-10, multiplier 5
    assert_eq!((step.mult, step.exp), (5, -10));
    assert_eq!(count, 2_000_000_001);
    assert_eq!(first, 0);
}

fn covers(desired: u32, min: i64, max: i64) -> bool {
    let (count, step, first) = find_good_step(desired, min, max);
    // compare in units of ten to the power of the exponent, if negative
    let (num, den) = if step.exp >= 0 {
        (step.mult as i128 * 10i128.pow(step.exp as u32), 1i128)
    } else {
        (step.mult as i128, 10i128.pow((-step.exp) as u32))
    };
    assert!([1, 2, 5, 10].contains(&step.mult));
    assert!(count >= 2 && count <= desired as usize);
    assert!(first * num <= min as i128 * den);
    assert!((first + count as i128) * num > max as i128 * den);
    (first + count as i128 - 1) * num >= max as i128 * den
}

#[test]
fn ticks_start_at_or_below_the_minimum() {
    let mut covered = 0;
    for desired in 2..14u32 {
        for min in -25..25i64 {
            for width in 1..40i64 {
                if covers(desired, min, min + width) {
                    covered += 1;
                }
            }
        }
    }
    assert!(covered > 0);
}

#[test]
fn last_tick_reaches_the_maximum_of_an_aligned_range() {
    // ticks 10, 12, ..., 20
    assert!(covers(10, 10, 20));
    // ticks 0, 50, 100
    assert!(covers(6, 0, 100));
}

#[test]
fn last_tick_may_lie_below_the_maximum() {
    // step 5 from 0: ticks 0, 5, 10, 15, 20, and the maximum is 21
    let (count, step, first) = find_good_step(11, 1, 21);
    assert_eq!((step.mult, step.exp, count, first), (5, 0, 5, 0));
    assert!(!covers(11, 1, 21));
    // step 20 from 1840: the last tick is 2000, and the maximum is 2001
    assert!(!covers(9, 1850, 2001));
}

#[test]
fn powers_of_ten() {
    assert_eq!(power_of_ten(0), 1);
    assert_eq!(power_of_ten(3), 1000);
    assert_eq!(power_of_ten(20), 100_000_000_000_000_000_000);
}

#[test]
fn numerator_and_denominator_of_a_step() {
    let (_, step, _) = find_good_step(9, 1850, 2001);
    assert_eq!((step.numerator(), step.denominator()), (20, 1));
    let (_, step, _) = find_good_step(10, 0, 1);
    assert_eq!((step.numerator(), step.denominator()), (2, 10));
}

#[test]
fn labels_are_relative_from_ten_thousand_steps() {
    assert!(should_offset(10_000, 10_008));
    assert!(should_offset(-10_010, -10_000));
    assert!(should_offset(-3, 10_000));
    assert!(!should_offset(9_999, 9_999));
    assert!(!should_offset(-9_999, 0));
    assert!(!should_offset(92, 100));
}

#[test]
fn tick_set_of_years() {
    let t = tick_set(9, &axis_range(1850, 2001));
    assert_eq!((t.step.mult, t.step.exp, t.count, t.first, t.offset), (2, 1, 9, 92, false));
}

#[test]
fn tick_set_far_from_zero() {
    // values about 10000 with a step of 1: rough step 0.5, power 0.1,
    // and the least multiplier above 5 is 10
    let t = tick_set(5, &axis_range(10_000, 10_002));
    assert_eq!((t.step.mult, t.step.exp), (10, -1));
    assert_eq!((t.count, t.first, t.offset), (3, 10_000, true));
}
