use poloto::arith::{floor_div, unsigned_abs};
use poloto::layout::milli;

#[test]
fn magnitude_of_a_number() {
    assert_eq!(unsigned_abs(0), 0);
    assert_eq!(unsigned_abs(17), 17);
    assert_eq!(unsigned_abs(-17), 17);
    assert_eq!(unsigned_abs(i128::MAX), i128::MAX as u128);
    assert_eq!(unsigned_abs(i128::MIN), (i128::MAX as u128) + 1);
}

#[test]
fn division_rounds_down() {
    assert_eq!(floor_div(7, 2), 3);
    assert_eq!(floor_div(-7, 2), -4);
    assert_eq!(floor_div(-8, 2), -4);
    assert_eq!(floor_div(-1, 5), -1);
    assert_eq!(floor_div(0, 5), 0);
    assert_eq!(floor_div(4, 5), 0);
    assert_eq!(floor_div(i128::MIN, 1), i128::MIN);
    assert_eq!(floor_div(i128::MIN, i128::MAX), -2);
    assert_eq!(floor_div(i128::MAX, i128::MAX), 1);
}

#[test]
fn thousandths_of_a_fraction() {
    // 2 / 3 = 0.666..., -2 / 3 = -0.666... rounded down
    assert_eq!(milli(2, 3), 666);
    assert_eq!(milli(-2, 3), -667);
    assert_eq!(milli(150, 30), 5_000);
    assert_eq!(milli(0, 7), 0);
}
