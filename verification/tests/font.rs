use ndk::font::{AxisTag, FamilyVariant, FontWeight};

#[test]
fn font_weight_bounds() {
    assert!(FontWeight::new(0).is_err());
    assert_eq!(FontWeight::new(1).unwrap().value(), 1);
    assert_eq!(FontWeight::new(1000).unwrap().value(), 1000);
    assert!(FontWeight::new(1001).is_err());
}

#[test]
fn font_weight_named_values() {
    assert_eq!(FontWeight::thin().value(), 100);
    assert_eq!(FontWeight::extra_light().value(), 200);
    assert_eq!(FontWeight::light().value(), 300);
    assert_eq!(FontWeight::normal().value(), 400);
    assert_eq!(FontWeight::medium().value(), 500);
    assert_eq!(FontWeight::semi_bold().value(), 600);
    assert_eq!(FontWeight::bold().value(), 700);
    assert_eq!(FontWeight::extra_bold().value(), 800);
    assert_eq!(FontWeight::black().value(), 900);
    assert_eq!(FontWeight::max().value(), 1000);
    assert!(FontWeight::thin() < FontWeight::bold());
}

#[test]
fn font_weight_names() {
    assert_eq!(FontWeight::bold().name(), Some("Bold"));
    assert_eq!(FontWeight::normal().name(), Some("Normal (Regular)"));
    assert_eq!(FontWeight::black().name(), Some("Black (Heavy)"));
    assert_eq!(FontWeight::new(450).unwrap().name(), None);
    assert_eq!(FontWeight::max().name(), None);
}

#[test]
fn axis_tag_from_be() {
    let wght = u32::from_be_bytes(*b"wght");
    let tag = AxisTag::from_be(wght).ok().unwrap();
    assert_eq!(tag.to_be_bytes(), *b"wght");
    assert!(AxisTag::from_be(u32::from_be_bytes([0x20, 0x7e, 0x41, 0x42])).is_ok());
    assert!(AxisTag::from_be(u32::from_be_bytes([0x1f, 0x41, 0x41, 0x41])).is_err());
    assert!(AxisTag::from_be(u32::from_be_bytes([0x41, 0x41, 0x41, 0x7f])).is_err());
    assert!(AxisTag::from_be(0).is_err());
}

#[test]
fn family_variant_codes() {
    assert_eq!(FamilyVariant::Default.into_raw() as i64, ndk_sys::AFAMILY_VARIANT_DEFAULT as i64);
    assert_eq!(FamilyVariant::Compact.into_raw() as i64, ndk_sys::AFAMILY_VARIANT_COMPACT as i64);
    assert_eq!(FamilyVariant::Elegant.into_raw() as i64, ndk_sys::AFAMILY_VARIANT_ELEGANT as i64);
}

#[test]
fn font_weight_rebuilt_from_value() {
    for v in [1u16, 400, 1000] {
        let w = FontWeight::new(v).unwrap();
        assert_eq!(w.value(), v);
        assert_eq!(FontWeight::new(w.value()).unwrap(), w);
    }
}
