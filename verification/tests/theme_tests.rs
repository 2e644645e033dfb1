use melt_desktop::theme::{Rgba8, ThemeColors};

fn to_f32(c: Rgba8) -> [f32; 4] {
    [c.r as f32 / 255.0, c.g as f32 / 255.0, c.b as f32 / 255.0, c.a as f32 / 255.0]
}

#[test]
fn parse_6_digit_hex() {
    let colors = ThemeColors::default();
    let rgba = to_f32(colors.parse_color("#ff8000"));
    assert!((rgba[0] - 1.0).abs() < 0.01);
    assert!((rgba[1] - 0.502).abs() < 0.01);
    assert!((rgba[2] - 0.0).abs() < 0.01);
    assert!((rgba[3] - 1.0).abs() < 0.01);
}

#[test]
fn parse_8_digit_hex() {
    let colors = ThemeColors::default();
    let rgba = to_f32(colors.parse_color("#00000066"));
    assert!((rgba[0]).abs() < 0.01);
    assert!((rgba[3] - 0.4).abs() < 0.01);
}

#[test]
fn parse_without_hash() {
    let colors = ThemeColors::default();
    let rgba = to_f32(colors.parse_color("cdd6f4"));
    assert!(rgba[0] > 0.5);
}

#[test]
fn parse_invalid_returns_black() {
    let colors = ThemeColors::default();
    let rgba = to_f32(colors.parse_color("nope"));
    assert_eq!(rgba, [0.0, 0.0, 0.0, 1.0]);
}

#[test]
fn default_accent_matches_catppuccin_blue() {
    let colors = ThemeColors::default();
    let rgba = to_f32(colors.accent_rgba());
    assert!((rgba[0] - 0.537).abs() < 0.01);
    assert!((rgba[1] - 0.706).abs() < 0.01);
    assert!((rgba[2] - 0.980).abs() < 0.01);
}

#[test]
fn parse_exact_channels() {
    let t = ThemeColors::default();
    assert_eq!(t.parse_color("#ff8000"), Rgba8 { r: 255, g: 128, b: 0, a: 255 });
    assert_eq!(t.parse_color("#12345678"), Rgba8 { r: 0x12, g: 0x34, b: 0x56, a: 0x78 });
    assert_eq!(t.parse_color("##AbCdEf"), Rgba8 { r: 0xab, g: 0xcd, b: 0xef, a: 255 });
}

#[test]
fn parse_invalid_channels_give_black() {
    let t = ThemeColors::default();
    let black = Rgba8 { r: 0, g: 0, b: 0, a: 255 };
    // Any channel that is not two hexadecimal digits makes the whole
    // string invalid.
    assert_eq!(t.parse_color("zz8000"), black);
    assert_eq!(t.parse_color("ff8000zz"), black);
    assert_eq!(t.parse_color("112233zz"), black);
    assert_eq!(t.parse_color("+f0000"), black);
    assert_eq!(t.parse_color("-f0000"), black);
    // Wrong lengths give opaque black.
    assert_eq!(t.parse_color("#fff"), black);
    assert_eq!(t.parse_color(""), black);
}

#[test]
fn parse_multibyte_gives_black_without_panic() {
    let t = ThemeColors::default();
    let black = Rgba8 { r: 0, g: 0, b: 0, a: 255 };
    assert_eq!(t.parse_color("a\u{e9}\u{e9}\u{e9}b"), black);
    assert_eq!(t.parse_color("a\u{e9}bcd"), black);
    assert_eq!(t.parse_color("\u{e9}\u{e9}\u{e9}"), black);
    assert_eq!(to_f32(t.parse_color("a\u{e9}\u{e9}\u{e9}b")), [0.0, 0.0, 0.0, 1.0]);
}

#[test]
fn default_palette_channels() {
    let t = ThemeColors::default();
    assert_eq!(t.bg_primary_rgba(), Rgba8 { r: 0x1e, g: 0x1e, b: 0x2e, a: 255 });
    assert_eq!(t.bg_surface_rgba(), Rgba8 { r: 0x31, g: 0x32, b: 0x44, a: 255 });
    assert_eq!(t.text_primary_rgba(), Rgba8 { r: 0xcd, g: 0xd6, b: 0xf4, a: 255 });
    assert_eq!(t.border_active_rgba(), Rgba8 { r: 0x89, g: 0xb4, b: 0xfa, a: 255 });
    assert_eq!(t.border_inactive_rgba(), Rgba8 { r: 0x45, g: 0x47, b: 0x5a, a: 255 });
    assert_eq!(t.shadow_color_rgba(), Rgba8 { r: 0, g: 0, b: 0, a: 0x66 });
    assert_eq!(t.title_bar_bg_rgba(), Rgba8 { r: 0x18, g: 0x18, b: 0x25, a: 255 });
    assert_eq!(t.title_bar_text_rgba(), Rgba8 { r: 0xcd, g: 0xd6, b: 0xf4, a: 255 });
    assert_eq!(t.button_close_rgba(), Rgba8 { r: 0xf3, g: 0x8b, b: 0xa8, a: 255 });
    assert_eq!(t.button_maximize_rgba(), Rgba8 { r: 0xa6, g: 0xe3, b: 0xa1, a: 255 });
    assert_eq!(t.button_minimize_rgba(), Rgba8 { r: 0xf9, g: 0xe2, b: 0xaf, a: 255 });
}

#[test]
fn leading_hash_is_optional() {
    let t = ThemeColors::default();
    for s in ["ff8000", "00000066", "nope", "zz8000", "#abcdef"] {
        assert_eq!(t.parse_color(&format!("#{s}")), t.parse_color(s));
    }
}
