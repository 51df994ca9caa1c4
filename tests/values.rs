use lang_idioms::animal::{Animal, Dog};
use lang_idioms::lifetime::create_int;
use lang_idioms::nullable::pointer_text;
use lang_idioms::optional::get_value;
use lang_idioms::square::square;

#[test]
fn get_value_when_valid() {
    assert_eq!(get_value(true), Some(10));
}

#[test]
fn get_value_when_invalid() {
    assert_eq!(get_value(false), None);
}

#[test]
fn created_int_is_ten() {
    assert_eq!(*create_int(), 10);
}

#[test]
fn square_of_sum_is_thirty_six() {
    let x: i32 = 5;
    assert_eq!(square(x + 1), 36);
}

#[test]
fn square_of_negative_and_zero() {
    assert_eq!(square(-4), 16);
    assert_eq!(square(0), 0);
    assert_eq!(square(46340), 2147395600);
}

#[test]
fn dog_says_woof() {
    assert_eq!(Dog.speak(), "Woof!");
}

#[test]
fn absent_pointer_text() {
    assert_eq!(pointer_text(None), "Pointer is null");
}

#[test]
fn present_pointer_text() {
    let v: i32 = 42;
    assert_eq!(pointer_text(Some(&v)), "42");
    let w: i32 = -7;
    assert_eq!(pointer_text(Some(&w)), "-7");
    let z: i32 = 0;
    assert_eq!(pointer_text(Some(&z)), "0");
    assert_eq!(pointer_text(Some(&i32::MIN)), "-2147483648");
}
