use sip_trunk::text::{decimal_string, str_equal, uuid_string};

#[test]
fn decimal_rendering() {
    assert_eq!(decimal_string(0), "0");
    assert_eq!(decimal_string(7), "7");
    assert_eq!(decimal_string(10), "10");
    assert_eq!(decimal_string(422), "422");
    assert_eq!(decimal_string(u64::MAX), u64::MAX.to_string());
}

#[test]
fn hyphenated_identifier() {
    assert_eq!(uuid_string(0), "00000000-0000-0000-0000-000000000000");
    assert_eq!(
        uuid_string(0xa1b2c3d4_e5f6_0718_293a_4b5c6d7e8f90),
        "a1b2c3d4-e5f6-0718-293a-4b5c6d7e8f90"
    );
}

#[test]
fn string_equality() {
    assert!(str_equal("call.initiated", "call.initiated"));
    assert!(!str_equal("call.initiated", "call.initiated "));
    assert!(str_equal("", ""));
    assert!(!str_equal("é", "e"));
}
