use rust_ia64::decoder::bundle::{Bundle, BundleTemplate, SlotType};

#[test]
fn a_bundle_is_its_tag_and_its_slots() {
    use_bundle_fields(!0x1Fu128, BundleTemplate::MII);
    use_bundle_fields(0x0123_4567_89AB_CDEF_0123_4567_89AB_CD08, BundleTemplate::FBI);
    use_bundle_fields((0x155_5555_5555u128 << 46) | 0b01010, BundleTemplate::AAA);
    let all = Bundle::new(!0x1Fu128).unwrap();
    assert_eq!(all.slots, [Some(0x1FF_FFFF_FFFF); 3]);
    // bit 5 belongs to slot 0, not to the tag
    let low = Bundle::new(1 << 5).unwrap();
    assert_eq!((low.template, low.slots), (BundleTemplate::MII, [Some(1), Some(0), Some(0)]));
    let edges = Bundle::new((1u128 << 45) | (1u128 << 46) | (1u128 << 86) | (1u128 << 87) | (1u128 << 127) | 1).unwrap();
    assert_eq!(edges.template, BundleTemplate::MIB);
    assert_eq!(edges.slots, [Some(1 << 40), Some(1 | 1 << 40), Some(1 | 1 << 40)]);
    for tag in 0u128..32 {
        let known = matches!(tag, 0 | 1 | 2 | 3 | 4 | 8 | 9 | 10);
        assert_eq!(Bundle::new(tag | (0x7u128 << 5)).is_ok(), known);
        assert_eq!(BundleTemplate::from_bits(tag as u8).is_ok(), known);
    }
    let mlx = Bundle::new(0b00100).unwrap();
    assert_eq!(
        (mlx.get_slot_type(0).unwrap(), mlx.get_slot_type(1).unwrap(), mlx.get_slot_type(2).unwrap()),
        (SlotType::M, SlotType::L, SlotType::X)
    );
    let mmf = Bundle::new(0b00011).unwrap();
    assert_eq!(
        (mmf.get_slot_type(0).unwrap(), mmf.get_slot_type(1).unwrap(), mmf.get_slot_type(2).unwrap()),
        (SlotType::M, SlotType::M, SlotType::F)
    );
    let bbb = Bundle::new(0b01001).unwrap();
    assert_eq!(bbb.get_slot_type(1).unwrap(), SlotType::B);
}

fn use_bundle_fields(data: u128, template: BundleTemplate) {
    let bundle = Bundle::new(data).unwrap();
    assert_eq!(bundle.template, template);
    let tag = data & 0x1F;
    let again = tag
        | (bundle.slots[0].unwrap() as u128) << 5
        | (bundle.slots[1].unwrap() as u128) << 46
        | (bundle.slots[2].unwrap() as u128) << 87;
    assert_eq!(again, data);
}
