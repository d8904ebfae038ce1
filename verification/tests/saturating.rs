use ticket_store::saturating::SaturatingU16;

#[test]
fn conversions() {
    let from_u8 = SaturatingU16::from(7u8);
    let from_u16 = SaturatingU16::from(7u16);
    let from_u8_ref = SaturatingU16::from(&7u8);
    let from_u16_ref = SaturatingU16::from(&7u16);
    assert_eq!(from_u8, from_u16);
    assert_eq!(from_u8_ref, from_u16_ref);
    assert_eq!(from_u8, 7u16);
}

#[test]
fn addition_within_range() {
    let a = SaturatingU16::from(300u16);
    let b = SaturatingU16::from(14u16);
    assert_eq!(a + b, 314u16);
    assert_eq!(a + 14u16, 314u16);
    assert_eq!(a + &14u16, 314u16);
    assert_eq!(a + &b, 314u16);
}

#[test]
fn addition_saturates() {
    let a = SaturatingU16::from(u16::MAX);
    let b = SaturatingU16::from(2u16);
    assert_eq!(a + b, 65535u16);
    assert_eq!(SaturatingU16::from(65534u16) + 3u16, 65535u16);
}

#[test]
fn get_returns_the_value() {
    assert_eq!(SaturatingU16::from(42u16).get(), 42);
}
