use melt_desktop::decorations::buttons::{generate_buttons, hit_test, ButtonAction};
use melt_desktop::decorations::borders::generate_borders;
use melt_desktop::decorations::title_bar::generate_title_bar;
use melt_desktop::decorations::{DecorationConfig, SolidRect, WindowDecorations};
use melt_desktop::geometry::{PixelPos, Point, Rectangle, Size};
use melt_desktop::theme::{Rgba8, ThemeColors};

fn test_config() -> DecorationConfig {
    DecorationConfig { border_width: 2, title_bar_height: 30 }
}

fn pixel(x: f64, y: f64) -> PixelPos {
    PixelPos { x: x.floor() as i64, y: y.floor() as i64 }
}

fn r(x: i32, y: i32, w: i32, h: i32) -> Rectangle {
    Rectangle { loc: Point { x, y }, size: Size { w, h } }
}

#[test]
fn hit_test_close_button() {
    let loc = Point { x: 100, y: 130 };
    let size = Size { w: 400, h: 300 };
    let config = test_config();
    let center = pixel(485.0, 115.0);
    assert_eq!(hit_test(center, loc, size, &config), Some(ButtonAction::Close));
}

#[test]
fn hit_test_maximize_button() {
    let loc = Point { x: 100, y: 130 };
    let size = Size { w: 400, h: 300 };
    let config = test_config();
    let center = pixel(461.0, 115.0);
    assert_eq!(hit_test(center, loc, size, &config), Some(ButtonAction::Maximize));
}

#[test]
fn hit_test_minimize_button() {
    let loc = Point { x: 100, y: 130 };
    let size = Size { w: 400, h: 300 };
    let config = test_config();
    let center = pixel(437.0, 115.0);
    assert_eq!(hit_test(center, loc, size, &config), Some(ButtonAction::Minimize));
}

#[test]
fn hit_test_miss() {
    let loc = Point { x: 100, y: 130 };
    let size = Size { w: 400, h: 300 };
    let config = test_config();
    let miss = pixel(300.0, 250.0);
    assert_eq!(hit_test(miss, loc, size, &config), None);
}

#[test]
fn hit_test_edges_and_gaps() {
    let loc = Point { x: 100, y: 130 };
    let size = Size { w: 400, h: 300 };
    let config = test_config();
    // Close spans x in [476, 494), y in [106, 124).
    assert_eq!(hit_test(pixel(476.0, 106.0), loc, size, &config), Some(ButtonAction::Close));
    assert_eq!(hit_test(pixel(493.9, 123.9), loc, size, &config), Some(ButtonAction::Close));
    assert_eq!(hit_test(pixel(494.0, 110.0), loc, size, &config), None);
    assert_eq!(hit_test(pixel(480.0, 124.0), loc, size, &config), None);
    // The gap between maximize and close.
    assert_eq!(hit_test(pixel(472.5, 110.0), loc, size, &config), None);
    // A title bar too short for buttons.
    let short = DecorationConfig { border_width: 2, title_bar_height: 12 };
    assert_eq!(hit_test(pixel(485.0, 115.0), loc, size, &short), None);
}

#[test]
fn title_bar_geometry_and_color() {
    let theme = ThemeColors::default();
    let loc = Point { x: 100, y: 130 };
    let size = Size { w: 400, h: 300 };
    let active = generate_title_bar(loc, size, true, &theme, &test_config());
    assert_eq!(active, vec![SolidRect { geometry: r(98, 100, 404, 30), color: theme.title_bar_bg_rgba() }]);
    let inactive = generate_title_bar(loc, size, false, &theme, &test_config());
    assert_eq!(inactive[0].color, theme.bg_surface_rgba());
    let none = generate_title_bar(loc, size, true, &theme, &DecorationConfig { border_width: 2, title_bar_height: 0 });
    assert!(none.is_empty());
}

#[test]
fn borders_geometry() {
    let theme = ThemeColors::default();
    let loc = Point { x: 100, y: 130 };
    let size = Size { w: 400, h: 300 };
    let b = generate_borders(loc, size, true, &theme, &test_config());
    let c = theme.border_active_rgba();
    assert_eq!(
        b,
        vec![
            SolidRect { geometry: r(98, 98, 404, 2), color: c },
            SolidRect { geometry: r(98, 430, 404, 2), color: c },
            SolidRect { geometry: r(98, 100, 2, 330), color: c },
            SolidRect { geometry: r(500, 100, 2, 330), color: c },
        ]
    );
    let none = generate_borders(loc, size, true, &theme, &DecorationConfig { border_width: 0, title_bar_height: 30 });
    assert!(none.is_empty());
    let inactive = generate_borders(loc, size, false, &theme, &test_config());
    assert_eq!(inactive[0].color, theme.border_inactive_rgba());
}

#[test]
fn buttons_geometry() {
    let theme = ThemeColors::default();
    let loc = Point { x: 100, y: 130 };
    let size = Size { w: 400, h: 300 };
    let b = generate_buttons(loc, size, true, &theme, &test_config());
    assert_eq!(
        b,
        vec![
            SolidRect { geometry: r(476, 106, 18, 18), color: theme.button_close_rgba() },
            SolidRect { geometry: r(452, 106, 18, 18), color: theme.button_maximize_rgba() },
            SolidRect { geometry: r(428, 106, 18, 18), color: theme.button_minimize_rgba() },
        ]
    );
    assert!(generate_buttons(loc, size, false, &theme, &test_config()).is_empty());
}

#[test]
fn generate_concatenates_in_order() {
    let theme = ThemeColors::default();
    let loc = Point { x: 100, y: 130 };
    let size = Size { w: 400, h: 300 };
    let cfg = test_config();
    let all = WindowDecorations::generate(loc, size, true, &theme, &cfg);
    let mut expected = generate_title_bar(loc, size, true, &theme, &cfg);
    expected.extend(generate_borders(loc, size, true, &theme, &cfg));
    expected.extend(generate_buttons(loc, size, true, &theme, &cfg));
    assert_eq!(all.len(), 8);
    assert_eq!(all, expected);
    assert_eq!(WindowDecorations::generate(loc, size, false, &theme, &cfg).len(), 5);
}

#[test]
fn outer_geometry_spans_decorations() {
    let loc = Point { x: 100, y: 130 };
    let size = Size { w: 400, h: 300 };
    assert_eq!(WindowDecorations::outer_geometry(loc, size, &test_config()), r(98, 98, 404, 334));
}

#[test]
fn custom_theme_colors_are_used() {
    let mut theme = ThemeColors::default();
    theme.button_close = "#010203".to_string();
    let b = generate_buttons(Point { x: 0, y: 50 }, Size { w: 200, h: 100 }, true, &theme, &test_config());
    assert_eq!(b[0].color, Rgba8 { r: 1, g: 2, b: 3, a: 255 });
}

#[test]
fn rectangle_contains_half_open() {
    let rect = r(10, 20, 5, 5);
    assert!(rect.contains(Point { x: 10, y: 20 }));
    assert!(rect.contains(Point { x: 14, y: 24 }));
    assert!(!rect.contains(Point { x: 15, y: 20 }));
    assert!(!rect.contains(Point { x: 9, y: 20 }));
    // The far edge saturates instead of overflowing.
    let big = r(i32::MAX - 1, 0, 10, 10);
    assert!(big.contains(Point { x: i32::MAX - 1, y: 0 }));
    assert!(!big.contains(Point { x: i32::MAX, y: 0 }));
}

#[test]
fn hit_test_agrees_with_drawn_buttons() {
    let theme = ThemeColors::default();
    let loc = Point { x: 100, y: 130 };
    let size = Size { w: 400, h: 300 };
    let cfg = test_config();
    let rects = generate_buttons(loc, size, true, &theme, &cfg);
    let actions = [ButtonAction::Close, ButtonAction::Maximize, ButtonAction::Minimize];
    for x in 400..520i64 {
        for y in 90..140i64 {
            let p = PixelPos { x, y };
            let inside: Vec<ButtonAction> = rects
                .iter()
                .zip(actions.iter())
                .filter(|(r, _)| {
                    let g = r.geometry;
                    (g.loc.x as i64) <= x
                        && x < (g.loc.x + g.size.w) as i64
                        && (g.loc.y as i64) <= y
                        && y < (g.loc.y + g.size.h) as i64
                })
                .map(|(_, a)| *a)
                .collect();
            assert!(inside.len() <= 1);
            assert_eq!(hit_test(p, loc, size, &cfg), inside.first().copied());
        }
    }
}

#[test]
fn borders_frame_outer_geometry() {
    let theme = ThemeColors::default();
    let loc = Point { x: 10, y: 40 };
    let size = Size { w: 50, h: 20 };
    let cfg = DecorationConfig { border_width: 3, title_bar_height: 25 };
    let outer = WindowDecorations::outer_geometry(loc, size, &cfg);
    let b = generate_borders(loc, size, false, &theme, &cfg);
    let t = generate_title_bar(loc, size, false, &theme, &cfg);
    assert_eq!(b[0].geometry.loc, outer.loc);
    assert_eq!(b[0].geometry.size.w, outer.size.w);
    assert_eq!(b[1].geometry.loc.y + 3, outer.loc.y + outer.size.h);
    assert_eq!(b[3].geometry.loc.x + 3, outer.loc.x + outer.size.w);
    assert_eq!(t[0].geometry.loc.y, b[0].geometry.loc.y + 3);
    assert_eq!(t[0].geometry.loc.y + t[0].geometry.size.h, loc.y);
    assert_eq!(b[2].geometry.loc.y + b[2].geometry.size.h, b[1].geometry.loc.y);
}

#[test]
fn precondition_checks() {
    let loc = Point { x: 100, y: 130 };
    let size = Size { w: 400, h: 300 };
    assert!(WindowDecorations::can_generate(loc, size, true, &test_config()));
    let far = Point { x: i32::MAX - 1, y: 130 };
    assert!(!WindowDecorations::can_generate(far, size, true, &test_config()));
    assert!(!WindowDecorations::can_outer_geometry(Point { x: i32::MIN, y: 0 }, size, &test_config()));
    assert!(melt_desktop::decorations::buttons::can_hit_test(PixelPos { x: 0, y: 0 }, loc, size, &test_config()));
    let mut bad = ThemeColors::default();
    bad.button_close = "a\u{e9}bcd".to_string();
    let b = generate_buttons(loc, size, true, &bad, &test_config());
    assert_eq!(b[0].color, Rgba8 { r: 0, g: 0, b: 0, a: 255 });
}

#[test]
fn borders_tile_the_ring() {
    let theme = ThemeColors::default();
    let loc = Point { x: 10, y: 40 };
    let size = Size { w: 7, h: 5 };
    let cfg = DecorationConfig { border_width: 2, title_bar_height: 4 };
    let outer = WindowDecorations::outer_geometry(loc, size, &cfg);
    let b = generate_borders(loc, size, true, &theme, &cfg);
    let holds = |r: &Rectangle, x: i32, y: i32| {
        r.loc.x <= x && x < r.loc.x + r.size.w && r.loc.y <= y && y < r.loc.y + r.size.h
    };
    for x in 0..40 {
        for y in 20..60 {
            let in_ring = holds(&outer, x, y)
                && !(loc.x <= x && x < loc.x + size.w && loc.y - 4 <= y && y < loc.y + size.h);
            let count = b.iter().filter(|e| holds(&e.geometry, x, y)).count();
            assert_eq!(count, if in_ring { 1 } else { 0 });
        }
    }
}
