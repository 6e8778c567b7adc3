use env_sensor::display::{push_decimal, reading_message, Event, MESSAGE_CAPACITY};
use env_sensor::packet::EnvReading;

#[test]
fn it_works() {
    assert_ne!(Event::DisplayActivated, Event::DisplayDeactivated);
}

#[test]
fn message_lists_four_fields_in_order() {
    let r = EnvReading::new(12, 34, 0x0810, 0x0204);
    assert_eq!(
        reading_message(&r),
        "Temp: 516F\nHumidity: 2064%\nAQ PM 2.5: 12\nAQ PM 10: 34"
    );
}

#[test]
fn message_of_largest_values_fits() {
    let r = EnvReading::new(65535, 65535, 65535, 65535);
    let m = reading_message(&r);
    assert_eq!(m, "Temp: 65535F\nHumidity: 65535%\nAQ PM 2.5: 65535\nAQ PM 10: 65535");
    assert!(m.len() < MESSAGE_CAPACITY);
}

#[test]
fn message_of_zero_values() {
    let r = EnvReading::new(0, 0, 0, 0);
    assert_eq!(reading_message(&r), "Temp: 0F\nHumidity: 0%\nAQ PM 2.5: 0\nAQ PM 10: 0");
}

#[test]
fn decimal_has_no_leading_zeros() {
    let mut s = String::from("x=");
    push_decimal(&mut s, 1009);
    assert_eq!(s, "x=1009");
    let mut s = String::new();
    push_decimal(&mut s, 10);
    assert_eq!(s, "10");
}
