use manip::outcome::{axis_count, condition, interpret, Condition};
use manip::text::{push_integer, push_natural, signed_text, unsigned_text};

#[test]
fn zero_is_one_digit() {
    assert_eq!(unsigned_text(0), "0");
    assert_eq!(signed_text(0), "0");
}

#[test]
fn unsigned_text_has_no_leading_zero() {
    assert_eq!(unsigned_text(7), "7");
    assert_eq!(unsigned_text(10), "10");
    assert_eq!(unsigned_text(1000), "1000");
    assert_eq!(unsigned_text(9_876_543_210), "9876543210");
}

#[test]
fn unsigned_text_reaches_the_top_of_the_range() {
    assert_eq!(unsigned_text(u64::MAX), "18446744073709551615");
}

#[test]
fn signed_text_puts_a_minus_before_negative_numbers() {
    assert_eq!(signed_text(-1), "-1");
    assert_eq!(signed_text(-120), "-120");
    assert_eq!(signed_text(42), "42");
}

#[test]
fn signed_text_reaches_both_ends_of_the_range() {
    assert_eq!(signed_text(i64::MIN), "-9223372036854775808");
    assert_eq!(signed_text(i64::MAX), "9223372036854775807");
}

#[test]
fn decimal_text_agrees_with_the_standard_formatting() {
    let samples: [i64; 9] = [0, 1, -1, 9, 10, -10, 99, 2_147_483_647, -2_147_483_648];
    for n in samples {
        assert_eq!(signed_text(n), format!("{}", n));
    }
    let naturals: [u64; 6] = [0, 5, 19, 100, 65_535, 4_294_967_296];
    for n in naturals {
        assert_eq!(unsigned_text(n), format!("{}", n));
    }
}

#[test]
fn pushing_appends_to_what_is_there() {
    let mut s = String::from("code ");
    push_integer(&mut s, -5);
    assert_eq!(s, "code -5");
    push_natural(&mut s, 30);
    assert_eq!(s, "code -530");
}

#[test]
fn zero_is_success_and_carries_itself() {
    assert_eq!(interpret(0), Ok(0));
}

#[test]
fn every_other_code_is_a_failure_with_that_code() {
    assert_eq!(interpret(5), Err(5));
    assert_eq!(interpret(-1), Err(-1));
    assert_eq!(interpret(i32::MAX), Err(i32::MAX));
    assert_eq!(interpret(i32::MIN), Err(i32::MIN));
}

#[test]
fn the_five_documented_conditions() {
    assert_eq!(condition(0), Some(Condition::Moving));
    assert_eq!(condition(1), Some(Condition::Done));
    assert_eq!(condition(2), Some(Condition::Aborted));
    assert_eq!(condition(3), Some(Condition::Error));
    assert_eq!(condition(4), Some(Condition::NoStatus));
}

#[test]
fn other_status_values_have_no_meaning() {
    assert_eq!(condition(5), None);
    assert_eq!(condition(7), None);
    assert_eq!(condition(-1), None);
}

#[test]
fn axis_count_of_a_report_that_is_not_negative() {
    assert_eq!(axis_count(0), 0);
    assert_eq!(axis_count(3), 3);
    assert_eq!(axis_count(i32::MAX), i32::MAX as usize);
}

#[test]
fn axis_count_of_a_negative_report_wraps() {
    assert_eq!(axis_count(-1), usize::MAX);
    assert_eq!(axis_count(-1), -1i32 as usize);
    assert_eq!(axis_count(i32::MIN), i32::MIN as usize);
    assert_eq!(axis_count(-77), -77i32 as usize);
}
