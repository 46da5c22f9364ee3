use ticketing::SaturatingU16;

#[test]
fn addition_saturates_at_the_maximum() {
    let a = SaturatingU16::from(40000u16);
    assert_eq!(a + 30000u16, 65535);
    assert_eq!(SaturatingU16::from(65535u16) + 1u16, 65535);
    assert_eq!(SaturatingU16::from(65535u16) + 0u16, 65535);
    assert_eq!(SaturatingU16::from(65534u16) + 1u16, 65535);
}

#[test]
fn addition_below_the_maximum_is_exact() {
    assert_eq!(SaturatingU16::from(0u16) + 0u16, 0);
    assert_eq!(SaturatingU16::from(1000u16) + 2345u16, 3345);
    assert_eq!(SaturatingU16::from(30000u16) + 35535u16, 65535);
}

#[test]
fn addition_takes_every_operand_form() {
    assert_eq!(SaturatingU16::from(1u8) + SaturatingU16::from(2u16), 3);
    assert_eq!(SaturatingU16::from(&1u16) + &SaturatingU16::from(2u16), 3);
    assert_eq!(SaturatingU16::from(10u16) + &5u16, 15);
    assert_eq!(SaturatingU16::from(10u16) + 5u8, 15);
    assert_eq!(SaturatingU16::from(10u16) + &5u8, 15);
    assert_eq!(SaturatingU16::from(65500u16) + 255u8, 65535);
    assert_eq!(SaturatingU16::from(65500u16) + &SaturatingU16::from(&255u8), 65535);
}

#[test]
fn compares_with_raw_values_both_ways() {
    assert!(SaturatingU16::from(7u16) == 7u16);
    assert!(7u16 == SaturatingU16::from(7u16));
    assert!(SaturatingU16::from(7u16) != 8u16);
    assert!(8u16 != SaturatingU16::from(7u16));
}

#[test]
fn compares_with_itself() {
    assert_eq!(SaturatingU16::from(42u16), SaturatingU16::from(42u16));
    assert_ne!(SaturatingU16::from(42u16), SaturatingU16::from(43u16));
}

#[test]
fn byte_conversions_widen() {
    assert_eq!(SaturatingU16::from(200u8), SaturatingU16::from(200u16));
    assert_eq!(SaturatingU16::from(&200u8), SaturatingU16::from(200u16));
    assert!(SaturatingU16::from(255u8) == 255u16);
}

#[test]
fn borrowed_conversions_match_owned_ones() {
    assert_eq!(SaturatingU16::from(&40000u16), SaturatingU16::from(40000u16));
    assert_eq!(SaturatingU16::from(&9u8), SaturatingU16::from(9u8));
}

#[test]
fn debug_names_the_type_and_the_value() {
    let text = format!("{:?}", SaturatingU16::from(42u16));
    assert!(text.contains("SaturatingU16"));
    assert!(text.contains("42"));
}
