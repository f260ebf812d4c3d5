use smtc2web::format_duration;
use smtc2web::text::{decimal_string, push_decimal, text_eq};

#[test]
fn format_duration_zero() {
    assert_eq!(format_duration(0), "00:00");
}

#[test]
fn format_duration_pads_minutes_and_seconds() {
    assert_eq!(format_duration(5), "00:05");
    assert_eq!(format_duration(59), "00:59");
    assert_eq!(format_duration(60), "01:00");
    assert_eq!(format_duration(125), "02:05");
    assert_eq!(format_duration(599), "09:59");
    assert_eq!(format_duration(600), "10:00");
}

#[test]
fn format_duration_long_runs_past_two_minute_digits() {
    assert_eq!(format_duration(5999), "99:59");
    assert_eq!(format_duration(6000), "100:00");
    assert_eq!(format_duration(6125), "102:05");
}

#[test]
fn format_duration_largest_input() {
    let s = u64::MAX;
    assert_eq!(format_duration(s), format!("{:02}:{:02}", s / 60, s % 60));
    assert_eq!(format_duration(s), "307445734561825860:15");
}

#[test]
fn format_duration_agrees_with_std_formatting() {
    for s in [0u64, 1, 9, 10, 61, 3599, 3600, 86399, 123456789] {
        assert_eq!(format_duration(s), format!("{:02}:{:02}", s / 60, s % 60));
    }
}

#[test]
fn decimal_string_values() {
    assert_eq!(decimal_string(0), "0");
    assert_eq!(decimal_string(7), "7");
    assert_eq!(decimal_string(10), "10");
    assert_eq!(decimal_string(1234567890), "1234567890");
    assert_eq!(decimal_string(u64::MAX), "18446744073709551615");
}

#[test]
fn push_decimal_appends() {
    let mut s = String::from("port ");
    push_decimal(&mut s, 3030);
    assert_eq!(s, "port 3030");
}

#[test]
fn text_eq_compares_characters() {
    assert!(text_eq("abc", "abc"));
    assert!(!text_eq("abc", "abd"));
    assert!(!text_eq("abc", "ab"));
    assert!(text_eq("", ""));
    assert!(text_eq("主题", "主题"));
}
