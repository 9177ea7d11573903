use scap::linux::x11::pixel::{component, pixel_value};

#[test]
fn decodes_common_little_endian_xrgb_pixel() {
    assert_eq!(pixel_value(&[0x33, 0x22, 0x11, 0], true), 0x0011_2233);
    assert_eq!(component(0x0011_2233, 0x00ff_0000), 0x11);
    assert_eq!(component(0x0011_2233, 0x0000_ff00), 0x22);
    assert_eq!(component(0x0011_2233, 0x0000_00ff), 0x33);
}

#[test]
fn scales_rgb565_components() {
    assert_eq!(component(0xf800, 0xf800), 255);
    assert_eq!(component(0x07e0, 0x07e0), 255);
    assert_eq!(component(0x001f, 0x001f), 255);
}

#[test]
fn byte_orders_mirror_each_other() {
    assert_eq!(pixel_value(&[0, 0x11, 0x22, 0x33], false), 0x0011_2233);
    assert_eq!(pixel_value(&[0x12, 0x34], true), 0x3412);
    assert_eq!(pixel_value(&[0x34, 0x12], false), 0x3412);
    assert_eq!(pixel_value(&[], true), 0);
    assert_eq!(pixel_value(&[0xff, 0xff, 0xff, 0xff], true), u32::MAX);
}

#[test]
fn most_significant_first_keeps_the_low_bits_of_a_long_number() {
    assert_eq!(pixel_value(&[0xaa, 0x01, 0x02, 0x03, 0x04], false), 0x0102_0304);
}

#[test]
fn components_round_down_and_keep_their_order() {
    assert_eq!(component(0, 0xf800), 0);
    assert_eq!(component(0x8000, 0xf800), 131);
    assert_eq!(component(0x0400, 0x07e0), 129);
    assert_eq!(component(0xffff_ffff, 0), 0);
    assert_eq!(component(0xffff_ffff, 0xffff_ffff), 255);
    assert_eq!(component(1, 1), 255);
    let mut darker = 0;
    for level in 0..32u32 {
        let now = component(level << 11, 0xf800);
        assert!(now >= darker);
        darker = now;
    }
}

#[test]
fn bytes_are_taken_over_as_they_are() {
    for shift in [0u32, 3, 8, 16, 24] {
        for level in [0u32, 1, 0x7f, 0x80, 0xfe, 0xff] {
            assert_eq!(component(level << shift, 0xff << shift), level as u8);
        }
    }
}
