use poloto::decimal::{milli_string, push_nat, push_point, push_zeros, scaled_string};
use poloto::legend::{has_visible_name, WriteCounter};
use poloto::palette::{class_for, class_name, default_color, Color, NUM_COLORS};

#[test]
fn digits_of_a_number() {
    let mut s = String::from("n=");
    push_nat(&mut s, 0);
    assert_eq!(s, "n=0");
    push_nat(&mut s, 907);
    assert_eq!(s, "n=0907");
    let mut s = String::new();
    push_nat(&mut s, u128::MAX);
    assert_eq!(s, "340282366920938463463374607431768211455");
}

#[test]
fn digits_behind_the_point() {
    let mut s = String::new();
    push_point(&mut s, 5, 3);
    assert_eq!(s, "0.005");
    let mut s = String::new();
    push_point(&mut s, 12345, 2);
    assert_eq!(s, "123.45");
    let mut s = String::new();
    push_point(&mut s, 0, 1);
    assert_eq!(s, "0.0");
}

#[test]
fn zeros_are_appended() {
    let mut s = String::from("1");
    push_zeros(&mut s, 0);
    assert_eq!(s, "1");
    push_zeros(&mut s, 4);
    assert_eq!(s, "10000");
}

#[test]
fn text_of_scaled_numbers() {
    assert_eq!(scaled_string(5, -3), "0.005");
    assert_eq!(scaled_string(-5, -1), "-0.5");
    assert_eq!(scaled_string(12, 2), "1200");
    assert_eq!(scaled_string(-12, 2), "-1200");
    assert_eq!(scaled_string(0, 3), "0");
    assert_eq!(scaled_string(0, -2), "0.00");
    assert_eq!(scaled_string(42, 0), "42");
    assert_eq!(scaled_string(-42, 0), "-42");
}

#[test]
fn text_of_the_ends_of_the_number_range() {
    assert_eq!(scaled_string(i128::MAX, 0), "170141183460469231731687303715884105727");
    assert_eq!(scaled_string(i128::MIN, 0), "-170141183460469231731687303715884105728");
    assert_eq!(scaled_string(i128::MIN, -38), "-1.70141183460469231731687303715884105728");
}

#[test]
fn text_of_thousandths() {
    assert_eq!(milli_string(464_569), "464.569");
    assert_eq!(milli_string(150_000), "150");
    assert_eq!(milli_string(0), "0");
    assert_eq!(milli_string(37_500), "37.5");
    assert_eq!(milli_string(7), "0.007");
    assert_eq!(milli_string(-2_000), "-2");
    assert_eq!(milli_string(-1_500), "-1.5");
    assert_eq!(milli_string(-1), "-0.001");
}

#[test]
fn colours_repeat_after_six() {
    assert_eq!(NUM_COLORS, 6);
    assert_eq!(class_for(0), 0);
    assert_eq!(class_for(5), 5);
    assert_eq!(class_for(6), 0);
    assert_eq!(class_for(7), 1);
    assert_eq!(class_for(usize::MAX), usize::MAX % 6);
}

#[test]
fn classes_of_a_colour() {
    assert_eq!(class_name(0, true), "poloto0stroke");
    assert_eq!(class_name(5, false), "poloto5fill");
}

#[test]
fn colours_as_numbers() {
    let mut c: Color = default_color();
    assert_eq!((c.back, c.fore), (0, 0));
    c.back = 0xffffff;
    c.fore = 0x101010;
    assert_eq!((c.back, c.fore), (0xffffff, 0x101010));
}

#[test]
fn bytes_are_counted() {
    let mut c = WriteCounter::new();
    assert_eq!(c.get_counter(), 0);
    c.write_str("");
    assert_eq!(c.get_counter(), 0);
    c.write_str("abc");
    assert_eq!(c.get_counter(), 3);
    // two bytes for one character
    c.write_str("\u{e9}");
    assert_eq!(c.get_counter(), 5);
}

#[test]
fn a_name_shows_where_it_is_not_empty() {
    assert!(!has_visible_name(""));
    assert!(has_visible_name("cows"));
    assert!(has_visible_name(" "));
}

#[test]
fn thousandths_take_as_many_digits_as_needed() {
    assert_eq!(milli_string(1_250), "1.25");
    assert_eq!(milli_string(1_200), "1.2");
    assert_eq!(milli_string(1_205), "1.205");
    assert_eq!(milli_string(-10), "-0.01");
    assert_eq!(milli_string(-1_230), "-1.23");
    assert_eq!(milli_string(100), "0.1");
}
