use ttl_memo::data_for_id;
use ttl_memo::render::decimal_string;

#[test]
fn decimal_of_zero_is_a_single_digit() {
    assert_eq!(decimal_string(0), "0");
}

#[test]
fn decimal_of_small_numbers() {
    assert_eq!(decimal_string(7), "7");
    assert_eq!(decimal_string(10), "10");
    assert_eq!(decimal_string(42), "42");
    assert_eq!(decimal_string(100), "100");
}

#[test]
fn decimal_of_the_largest_key() {
    assert_eq!(decimal_string(u32::MAX), "4294967295");
}

#[test]
fn data_for_id_renders_the_key() {
    assert_eq!(data_for_id(1), "Data for ID: 1");
    assert_eq!(data_for_id(0), "Data for ID: 0");
    assert_eq!(data_for_id(12345), "Data for ID: 12345");
    assert_eq!(data_for_id(u32::MAX), "Data for ID: 4294967295");
}
