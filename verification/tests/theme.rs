use tuxwire::theme::{parse_hex_color, Rgb};

#[test]
fn hex_colors_read_in_either_case() {
    assert_eq!(parse_hex_color("#24273a"), Some(Rgb { r: 0x24, g: 0x27, b: 0x3a }));
    assert_eq!(parse_hex_color("#F5A97F"), Some(Rgb { r: 0xf5, g: 0xa9, b: 0x7f }));
    assert_eq!(parse_hex_color("#000000"), Some(Rgb { r: 0, g: 0, b: 0 }));
    assert_eq!(parse_hex_color("#ffffff"), Some(Rgb { r: 255, g: 255, b: 255 }));
}

#[test]
fn anything_else_is_no_color() {
    assert_eq!(parse_hex_color("24273a"), None);
    assert_eq!(parse_hex_color("#24273"), None);
    assert_eq!(parse_hex_color("#24273aa"), None);
    assert_eq!(parse_hex_color("#2427g0"), None);
    assert_eq!(parse_hex_color(""), None);
    assert_eq!(parse_hex_color("#éééééé"), None);
}
