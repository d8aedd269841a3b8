use rust_ia64::decoder::bundle::{Bundle, BundleTemplate, SlotType};

#[test]
fn test_bundle_template() {
    assert_eq!(BundleTemplate::from_bits(0b00000).unwrap(), BundleTemplate::MII);
    assert_eq!(BundleTemplate::from_bits(0b00001).unwrap(), BundleTemplate::MIB);
    assert_eq!(BundleTemplate::from_bits(0b00010).unwrap(), BundleTemplate::MMI);
    assert_eq!(BundleTemplate::from_bits(0b00011).unwrap(), BundleTemplate::MMF);
    assert_eq!(BundleTemplate::from_bits(0b00100).unwrap(), BundleTemplate::MLX);
    assert_eq!(BundleTemplate::from_bits(0b01000).unwrap(), BundleTemplate::FBI);
    assert_eq!(BundleTemplate::from_bits(0b01001).unwrap(), BundleTemplate::BBB);
    assert_eq!(BundleTemplate::from_bits(0b01010).unwrap(), BundleTemplate::AAA);
    assert!(BundleTemplate::from_bits(0b00101).is_err());
    assert!(BundleTemplate::from_bits(0b11111).is_err());
}

#[test]
fn bundle_test_bundle_creation() {
    // Create MII bundle (template bits 0b00000)
    let data = 0x0123456789ABCDEF0123456789ABCD00_u128;
    let bundle = Bundle::new(data).unwrap();
    assert_eq!(bundle.template, BundleTemplate::MII);
    assert!(bundle.slots[0].is_some());
    assert!(bundle.slots[1].is_some());
    assert!(bundle.slots[2].is_some());
}

#[test]
fn test_slot_types() {
    // Test MII bundle slot types (template bits 0b00000)
    let data = 0x0123456789ABCDEF0123456789ABCD00_u128;
    let bundle = Bundle::new(data).unwrap();
    assert_eq!(bundle.get_slot_type(0).unwrap(), SlotType::M);
    assert_eq!(bundle.get_slot_type(1).unwrap(), SlotType::I);
    assert_eq!(bundle.get_slot_type(2).unwrap(), SlotType::I);

    // Test invalid slot index
    assert!(bundle.get_slot_type(3).is_err());
}

#[test]
fn test_bundle_extraction() {
    // Create a bundle with template bits set to 0b00000 (MII template)
    // and each 41-bit slot filled with 1s
    let mut data = 0u128;
    let slot_mask = (1u128 << 41) - 1;

    // Set up each 41-bit slot with all 1s
    // The template bits are at bits 0-4, so the slots start at bit 5
    data |= slot_mask << 5;  // First slot (starts after template bits)
    data |= slot_mask << 46; // Second slot
    data |= slot_mask << 87; // Third slot

    let bundle = Bundle::new(data).unwrap();

    // Each slot should be 41 bits of all 1s
    let expected = (1u64 << 41) - 1;
    assert_eq!(bundle.slots[0].unwrap(), expected);
    assert_eq!(bundle.slots[1].unwrap(), expected);
    assert_eq!(bundle.slots[2].unwrap(), expected);

    // Verify that we got the correct template
    assert_eq!(bundle.template, BundleTemplate::MII);
}

#[test]
fn test_invalid_template() {
    // Create bundle with invalid template bits
    let data = 0x1F_u128 << 1; // Set template bits to 0b11110
    assert!(Bundle::new(data).is_err());
}
