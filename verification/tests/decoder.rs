use rust_ia64::decoder::{extract_bits, Bundle, BundleTemplate, Decoder};

#[test]
fn test_bundle_template_from_bits() {
    assert_eq!(BundleTemplate::from_bits(0b00000), Some(BundleTemplate::MII));
    assert_eq!(BundleTemplate::from_bits(0b00001), Some(BundleTemplate::MIB));
    assert_eq!(BundleTemplate::from_bits(0b00010), Some(BundleTemplate::MMI));
    assert_eq!(BundleTemplate::from_bits(0b00011), Some(BundleTemplate::MMF));
    assert_eq!(BundleTemplate::from_bits(0b00100), Some(BundleTemplate::MLX));
    assert_eq!(BundleTemplate::from_bits(0b01000), Some(BundleTemplate::FBI));
    assert_eq!(BundleTemplate::from_bits(0b01001), Some(BundleTemplate::BBB));
    assert_eq!(BundleTemplate::from_bits(0b01010), Some(BundleTemplate::AAA));
    assert_eq!(BundleTemplate::from_bits(0b11111), None);
}

#[test]
fn test_extract_bits() {
    assert_eq!(extract_bits(0xFFFFFFFF, 0, 8), 0xFF);
    assert_eq!(extract_bits(0xFFFFFFFF, 8, 8), 0xFF);
    assert_eq!(extract_bits(0xFFFFFFFF, 16, 8), 0xFF);
    assert_eq!(extract_bits(0xFFFFFFFF, 24, 8), 0xFF);
    assert_eq!(extract_bits(0x12345678, 0, 4), 0x8);
    assert_eq!(extract_bits(0x12345678, 4, 4), 0x7);
}

#[test]
fn mod_test_bundle_creation() {
    let data = [0x00, 0x00, 0x00, 0x00, 0x00, 0x00, 0x00, 0x00,
               0x00, 0x00, 0x00, 0x00, 0x00, 0x00, 0x00, 0x00];
    let bundle = Bundle::new(data);
    assert!(bundle.is_ok());
    let bundle = bundle.unwrap();
    assert_eq!(bundle.template, BundleTemplate::MII);
}

#[test]
fn test_bundle_invalid_template() {
    let data = [0x1F, 0x00, 0x00, 0x00, 0x00, 0x00, 0x00, 0x00,
               0x00, 0x00, 0x00, 0x00, 0x00, 0x00, 0x00, 0x00];
    let bundle = Bundle::new(data);
    assert!(bundle.is_err());
}

#[test]
fn test_decoder_state() {
    let mut decoder = Decoder::new();
    assert!(!decoder.has_more_instructions());
    assert_eq!(decoder.current_type(), None);
    assert!(!decoder.has_stop_bit());

    let data = [0x00, 0x00, 0x00, 0x00, 0x00, 0x00, 0x00, 0x00,
               0x00, 0x00, 0x00, 0x00, 0x00, 0x00, 0x00, 0x00];
    assert!(decoder.load_bundle(data).is_ok());
    assert!(decoder.has_more_instructions());
}
