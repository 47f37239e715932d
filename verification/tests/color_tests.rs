use seth::color::{color_to_hex, hex_to_color, Color, ColorComponent, ColorError};

#[test]
fn parses_rgb_token() {
    let c = hex_to_color("#e9e9e9").unwrap();
    assert_eq!(c, Color::Rgb { r: 0xe9, g: 0xe9, b: 0xe9 });
}

#[test]
fn parses_rgb_token_distinct_channels() {
    let c = hex_to_color("#0a1B2c").unwrap();
    assert_eq!(c, Color::Rgb { r: 0x0a, g: 0x1b, b: 0x2c });
}

#[test]
fn parses_argb_token() {
    let c = hex_to_color("#1e1e1ecd").unwrap();
    assert_eq!(c, Color::Argb { a: 0x1e, r: 0x1e, g: 0x1e, b: 0xcd });
}

#[test]
fn parses_argb_token_groups_in_order() {
    let c = hex_to_color("#ff112233").unwrap();
    assert_eq!(c, Color::Argb { a: 0xff, r: 0x11, g: 0x22, b: 0x33 });
}

#[test]
fn rgb_round_trip_canonical() {
    let token = "#0a1b2c";
    let c = hex_to_color(token).unwrap();
    assert_eq!(color_to_hex(c), token);
}

#[test]
fn argb_round_trip_canonical() {
    let token = "#cd1e2f3a";
    let c = hex_to_color(token).unwrap();
    assert_eq!(color_to_hex(c), token);
}

#[test]
fn rejects_wrong_length() {
    let e = hex_to_color("#e9e9e").unwrap_err();
    assert_eq!(e, ColorError::InvalidFormat(ColorComponent::Shape));
}

#[test]
fn rejects_missing_hash() {
    let e = hex_to_color("1e1e1ec").unwrap_err();
    assert_eq!(e, ColorError::InvalidFormat(ColorComponent::Shape));
}

#[test]
fn rejects_empty_token() {
    let e = hex_to_color("").unwrap_err();
    assert_eq!(e, ColorError::InvalidFormat(ColorComponent::Shape));
}

#[test]
fn rejects_bad_red_group() {
    let e = hex_to_color("#zz1122").unwrap_err();
    assert_eq!(e, ColorError::InvalidFormat(ColorComponent::Red));
}

#[test]
fn rejects_bad_green_group() {
    let e = hex_to_color("#11zz22").unwrap_err();
    assert_eq!(e, ColorError::InvalidFormat(ColorComponent::Green));
}

#[test]
fn rejects_bad_blue_group() {
    let e = hex_to_color("#1122zz").unwrap_err();
    assert_eq!(e, ColorError::InvalidFormat(ColorComponent::Blue));
}

#[test]
fn rejects_bad_alpha_group() {
    let e = hex_to_color("#zz112233").unwrap_err();
    assert_eq!(e, ColorError::InvalidFormat(ColorComponent::Alpha));
}

#[test]
fn accepts_upper_case_digits() {
    let c = hex_to_color("#AABBCC").unwrap();
    assert_eq!(c, Color::Rgb { r: 0xaa, g: 0xbb, b: 0xcc });
}
