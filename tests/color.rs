use chat_embed::Color;

#[test]
fn packed_round_trip_over_samples() {
    for x in [0u32, 1, 0xff, 0x100, 0xabcdef, 0x00ff00, 0xff0000, 0xffffff, 0x7f7f7f] {
        assert_eq!(Color::from_packed(x).to_packed(), x);
    }
}

#[test]
fn packed_round_trip_over_every_blue_and_green() {
    for x in (0u32..0x1_0000).step_by(7) {
        assert_eq!(Color::from_packed(x | 0x420000).to_packed(), x | 0x420000);
    }
}

#[test]
fn decode_splits_channels() {
    let c = Color::from_packed(0x123456);
    assert_eq!(c, Color { red: 0x12, green: 0x34, blue: 0x56 });
}

#[test]
fn decode_drops_high_bits() {
    let c = Color::from_packed(0xff12_3456);
    assert_eq!(c, Color { red: 0x12, green: 0x34, blue: 0x56 });
    assert_eq!(c.to_packed(), 0x12_3456);
}

#[test]
fn encode_places_channels() {
    let c = Color { red: 1, green: 2, blue: 3 };
    assert_eq!(c.to_packed(), 0x010203);
    assert_eq!(Color { red: 255, green: 255, blue: 255 }.to_packed(), 0xffffff);
}

#[test]
fn default_color_is_not_black() {
    let c = Color::default();
    assert_eq!(c, Color { red: 222, green: 165, blue: 132 });
    assert_eq!(c.to_packed(), 0xdea584);
}

#[test]
fn from_impls_agree_with_codec() {
    let c: Color = Color::from(0x0a0b0cu32);
    assert_eq!(c, Color { red: 10, green: 11, blue: 12 });
    let x: u32 = u32::from(c);
    assert_eq!(x, 0x0a0b0c);
}
