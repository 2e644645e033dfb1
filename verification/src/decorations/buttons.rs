//! Close, maximize and minimize buttons: small coloured squares at the
//! right-hand end of the title bar, and the hit test that maps a pointer
//! position to the button under it.
//!
//! Layout, right to left within the title bar:
//! `... [minimize] 6px [maximize] 6px [close] 8px |` where `|` is the outer
//! edge of the right border. Each button is a square of side
//! `title_bar_height - 12`, centred vertically in the title bar.

use vstd::prelude::*;

use crate::geometry::{fits_i32, fits_i32_exec, rect, PixelPos, Point, Rectangle, Size};
use crate::theme::{hex_color, ThemeColors};

use super::{DecorationConfig, SolidRect};

verus! {

/// Subtracted from the title-bar height to get the button side length.
pub const BUTTON_INSET: i32 = 12;

/// Horizontal gap between adjacent buttons.
pub const BUTTON_GAP: i32 = 6;

/// Distance from the right edge of the title bar (border included) to the
/// right edge of the close button.
pub const RIGHT_MARGIN: i32 = 8;

/// The action associated with each window-management button.
#[derive(Debug, Clone, Copy, PartialEq, Eq, Structural)]
pub enum ButtonAction {
    /// Close the window.
    Close,
    /// Toggle the maximized state.
    Maximize,
    /// Minimize the window.
    Minimize,
}

/// Side length of every button.
pub open spec fn button_size(config: DecorationConfig) -> int {
    config.title_bar_height - BUTTON_INSET
}

/// Top edge of every button.
pub open spec fn button_y(window_loc: Point, config: DecorationConfig) -> int {
    window_loc.y - config.title_bar_height + (config.title_bar_height - button_size(config)) / 2
}

/// Right edge of the title bar, right border included.
pub open spec fn right_edge(window_loc: Point, window_size: Size, config: DecorationConfig) -> int {
    window_loc.x + window_size.w + config.border_width
}

/// Left edge of the close button.
pub open spec fn close_x(window_loc: Point, window_size: Size, config: DecorationConfig) -> int {
    right_edge(window_loc, window_size, config) - RIGHT_MARGIN - button_size(config)
}

/// Left edge of the maximize button.
pub open spec fn maximize_x(window_loc: Point, window_size: Size, config: DecorationConfig) -> int {
    close_x(window_loc, window_size, config) - BUTTON_GAP - button_size(config)
}

/// Left edge of the minimize button.
pub open spec fn minimize_x(window_loc: Point, window_size: Size, config: DecorationConfig) -> int {
    maximize_x(window_loc, window_size, config) - BUTTON_GAP - button_size(config)
}

/// The square button with left edge `x` contains the pointer.
pub open spec fn in_button(pointer: PixelPos, x: int, window_loc: Point, config: DecorationConfig) -> bool {
    let y = button_y(window_loc, config);
    let s = button_size(config);
    x <= pointer.x < x + s && y <= pointer.y < y + s
}

/// Arithmetic common to drawing and hit-testing: the button size, its top
/// edge, the right edge and the close button's left edge fit in `i32`.
pub open spec fn close_fits(window_loc: Point, window_size: Size, config: DecorationConfig) -> bool {
    let s = button_size(config);
    let re = right_edge(window_loc, window_size, config);
    &&& fits_i32(window_loc.y - config.title_bar_height)
    &&& fits_i32(window_loc.x + window_size.w)
    &&& fits_i32(re)
    &&& fits_i32(re - RIGHT_MARGIN)
    &&& fits_i32(re - RIGHT_MARGIN - s)
}

/// The maximize button's left edge fits in `i32`.
pub open spec fn maximize_fits(window_loc: Point, window_size: Size, config: DecorationConfig) -> bool {
    let cx = close_x(window_loc, window_size, config);
    fits_i32(cx - BUTTON_GAP) && fits_i32(cx - BUTTON_GAP - button_size(config))
}

/// The minimize button's left edge fits in `i32`.
pub open spec fn minimize_fits(window_loc: Point, window_size: Size, config: DecorationConfig) -> bool {
    let mx = maximize_x(window_loc, window_size, config);
    fits_i32(mx - BUTTON_GAP) && fits_i32(mx - BUTTON_GAP - button_size(config))
}

/// The arithmetic of [`generate_buttons`] stays within `i32` (nothing is
/// computed for an inactive window, and nothing after the size when the
/// size is not positive).
pub open spec fn buttons_fit(window_loc: Point, window_size: Size, is_active: bool, config: DecorationConfig) -> bool {
    is_active ==> {
        &&& fits_i32(button_size(config))
        &&& button_size(config) > 0 ==> {
            &&& close_fits(window_loc, window_size, config)
            &&& maximize_fits(window_loc, window_size, config)
            &&& minimize_fits(window_loc, window_size, config)
        }
    }
}

/// The buttons: none for an inactive window or a title bar of height at
/// most 12; otherwise close, maximize and minimize, in that order.
pub open spec fn button_rects(
    window_loc: Point,
    window_size: Size,
    is_active: bool,
    theme: ThemeColors,
    config: DecorationConfig,
) -> Seq<SolidRect> {
    let s = button_size(config);
    let y = button_y(window_loc, config);
    if !is_active || s <= 0 {
        seq![]
    } else {
        seq![
            SolidRect {
                geometry: rect(close_x(window_loc, window_size, config), y, s, s),
                color: hex_color(theme.button_close@),
            },
            SolidRect {
                geometry: rect(maximize_x(window_loc, window_size, config), y, s, s),
                color: hex_color(theme.button_maximize@),
            },
            SolidRect {
                geometry: rect(minimize_x(window_loc, window_size, config), y, s, s),
                color: hex_color(theme.button_minimize@),
            },
        ]
    }
}

/// The arithmetic of [`hit_test`] stays within `i32`: each button's
/// position is computed only when the pointer missed the buttons before it.
pub open spec fn hit_test_fits(
    pointer: PixelPos,
    window_loc: Point,
    window_size: Size,
    config: DecorationConfig,
) -> bool {
    &&& fits_i32(button_size(config))
    &&& button_size(config) > 0 ==> {
        &&& close_fits(window_loc, window_size, config)
        &&& !in_button(pointer, close_x(window_loc, window_size, config), window_loc, config) ==> {
            &&& maximize_fits(window_loc, window_size, config)
            &&& !in_button(pointer, maximize_x(window_loc, window_size, config), window_loc, config)
                ==> minimize_fits(window_loc, window_size, config)
        }
    }
}

/// The button under the pointer: close, then maximize, then minimize is
/// tried; none when the button size is not positive.
pub open spec fn button_under(
    pointer: PixelPos,
    window_loc: Point,
    window_size: Size,
    config: DecorationConfig,
) -> Option<ButtonAction> {
    if button_size(config) <= 0 {
        None
    } else if in_button(pointer, close_x(window_loc, window_size, config), window_loc, config) {
        Some(ButtonAction::Close)
    } else if in_button(pointer, maximize_x(window_loc, window_size, config), window_loc, config) {
        Some(ButtonAction::Maximize)
    } else if in_button(pointer, minimize_x(window_loc, window_size, config), window_loc, config) {
        Some(ButtonAction::Minimize)
    } else {
        None
    }
}

/// The button layout: only the active window has buttons, and only when
/// the title bar is taller than 12 pixels. Then there are three squares of
/// side `title_bar_height - 12`, centred vertically in the title bar (6
/// pixels from its top and from the content); right to left the close
/// button, 8 pixels from the outer right edge of the right border, then
/// the maximize and the minimize button, each 6 pixels left of the one
/// before; each has the colour the theme gives it.
pub proof fn law_button_layout(
    window_loc: Point,
    window_size: Size,
    is_active: bool,
    theme: ThemeColors,
    config: DecorationConfig,
)
    requires
        fits_i32(button_size(config)),
        button_size(config) > 0 ==> {
            &&& close_fits(window_loc, window_size, config)
            &&& maximize_fits(window_loc, window_size, config)
            &&& minimize_fits(window_loc, window_size, config)
        },
    ensures
        ({
            let r = button_rects(window_loc, window_size, is_active, theme, config);
            let s = config.title_bar_height - 12;
            let right = window_loc.x + window_size.w + config.border_width;
            &&& (!is_active || s <= 0) ==> r.len() == 0
            &&& (is_active && s > 0) ==> {
                &&& r.len() == 3
                &&& forall|i: int| 0 <= i < 3 ==> #[trigger] r[i].geometry.size == (Size { w: s as i32, h: s as i32 })
                &&& forall|i: int| 0 <= i < 3 ==> #[trigger] r[i].geometry.loc.y == window_loc.y - config.title_bar_height + 6
                &&& r[0].geometry.loc.y + s + 6 == window_loc.y
                &&& r[0].geometry.loc.x + s + 8 == right
                &&& r[1].geometry.loc.x + s + 6 == r[0].geometry.loc.x
                &&& r[2].geometry.loc.x + s + 6 == r[1].geometry.loc.x
                &&& r[0].color == hex_color(theme.button_close@)
                &&& r[1].color == hex_color(theme.button_maximize@)
                &&& r[2].color == hex_color(theme.button_minimize@)
            }
        }),
{
    if is_active && button_size(config) > 0 {
        assert(fits_i32(button_y(window_loc, config)));
    }
}

/// Generates the close / maximize / minimize buttons; only the active
/// (focused) window has them.
pub fn generate_buttons(
    window_loc: Point,
    window_size: Size,
    is_active: bool,
    theme: &ThemeColors,
    config: &DecorationConfig,
) -> (res: Vec<SolidRect>)
    requires
        buttons_fit(window_loc, window_size, is_active, *config),
    ensures
        res@ == button_rects(window_loc, window_size, is_active, *theme, *config),
{
    if !is_active {
        return Vec::new();
    }
    let btn_size = config.title_bar_height - BUTTON_INSET;
    if btn_size <= 0 {
        return Vec::new();
    }
    let btn_y = window_loc.y - config.title_bar_height + (config.title_bar_height - btn_size) / 2;
    let right_edge = window_loc.x + window_size.w + config.border_width;

    let close_x = right_edge - RIGHT_MARGIN - btn_size;
    let close = make_button(close_x, btn_y, btn_size, theme.button_close_rgba());
    let max_x = close_x - BUTTON_GAP - btn_size;
    let maximize = make_button(max_x, btn_y, btn_size, theme.button_maximize_rgba());
    let min_x = max_x - BUTTON_GAP - btn_size;
    let minimize = make_button(min_x, btn_y, btn_size, theme.button_minimize_rgba());

    let mut res = Vec::new();
    res.push(close);
    res.push(maximize);
    res.push(minimize);
    proof {
        assert(res@ =~= button_rects(window_loc, window_size, is_active, *theme, *config));
    }
    res
}

/// Maps a pointer position to the button under it, if any. The buttons are
/// placed exactly as [`generate_buttons`] places them; whether the window
/// is active is not checked.
pub fn hit_test(
    pointer_pos: PixelPos,
    window_loc: Point,
    window_size: Size,
    config: &DecorationConfig,
) -> (res: Option<ButtonAction>)
    requires
        hit_test_fits(pointer_pos, window_loc, window_size, *config),
    ensures
        res == button_under(pointer_pos, window_loc, window_size, *config),
{
    let btn_size = config.title_bar_height - BUTTON_INSET;
    if btn_size <= 0 {
        return None;
    }
    let btn_y = window_loc.y - config.title_bar_height + (config.title_bar_height - btn_size) / 2;
    let right_edge = window_loc.x + window_size.w + config.border_width;

    let close_x = right_edge - RIGHT_MARGIN - btn_size;
    if point_in_square(pointer_pos, close_x, btn_y, btn_size) {
        return Some(ButtonAction::Close);
    }
    let max_x = close_x - BUTTON_GAP - btn_size;
    if point_in_square(pointer_pos, max_x, btn_y, btn_size) {
        return Some(ButtonAction::Maximize);
    }
    let min_x = max_x - BUTTON_GAP - btn_size;
    if point_in_square(pointer_pos, min_x, btn_y, btn_size) {
        return Some(ButtonAction::Minimize);
    }
    None
}

/// Whether [`hit_test`] can run on these arguments: its arithmetic stays
/// within `i32`.
pub fn can_hit_test(pointer_pos: PixelPos, window_loc: Point, window_size: Size, config: &DecorationConfig) -> (res:
    bool)
    ensures
        res == hit_test_fits(pointer_pos, window_loc, window_size, *config),
{
    let lx = window_loc.x as i64;
    let ly = window_loc.y as i64;
    let w = window_size.w as i64;
    let bw = config.border_width as i64;
    let tbh = config.title_bar_height as i64;
    let s = tbh - 12;
    if !fits_i32_exec(s) {
        return false;
    }
    if s <= 0 {
        return true;
    }
    let by = ly - tbh + 6;
    let re = lx + w + bw;
    let cx = re - 8 - s;
    if !(fits_i32_exec(ly - tbh) && fits_i32_exec(lx + w) && fits_i32_exec(re) && fits_i32_exec(re - 8)
        && fits_i32_exec(cx)) {
        return false;
    }
    let in_close = cx <= pointer_pos.x && pointer_pos.x < cx + s && by <= pointer_pos.y && pointer_pos.y
        < by + s;
    if in_close {
        return true;
    }
    let mx = cx - 6 - s;
    if !(fits_i32_exec(cx - 6) && fits_i32_exec(mx)) {
        return false;
    }
    let in_max = mx <= pointer_pos.x && pointer_pos.x < mx + s && by <= pointer_pos.y && pointer_pos.y
        < by + s;
    if in_max {
        return true;
    }
    fits_i32_exec(mx - 6) && fits_i32_exec(mx - 6 - s)
}

/// One button square.
fn make_button(x: i32, y: i32, size: i32, color: crate::theme::Rgba8) -> (res: SolidRect)
    ensures
        res == (SolidRect { geometry: rect(x as int, y as int, size as int, size as int), color }),
{
    SolidRect { geometry: Rectangle::new(Point { x, y }, Size { w: size, h: size }), color }
}

/// The square with corner `(x, y)` and side `size` contains the pointer.
fn point_in_square(pos: PixelPos, x: i32, y: i32, size: i32) -> (res: bool)
    ensures
        res == (x <= pos.x < x + size && y <= pos.y < y + size),
{
    let x2: i64 = x as i64 + size as i64;
    let y2: i64 = y as i64 + size as i64;
    pos.x >= x as i64 && pos.x < x2 && pos.y >= y as i64 && pos.y < y2
}

/// `r` contains the pointer position.
pub open spec fn rect_holds(r: Rectangle, p: PixelPos) -> bool {
    r.loc.x <= p.x < r.loc.x + r.size.w && r.loc.y <= p.y < r.loc.y + r.size.h
}

/// The hit test agrees with the drawn buttons: when the title bar is too
/// short for buttons nothing is hit and none is drawn; otherwise the test
/// reports a button exactly when the pointer is inside the half-open square
/// of that button as drawn for the active window (close, maximize,
/// minimize in drawing order), and nothing exactly when the pointer is in
/// none of the three.
pub proof fn law_hit_test_matches_buttons(
    pointer: PixelPos,
    window_loc: Point,
    window_size: Size,
    theme: ThemeColors,
    config: DecorationConfig,
)
    requires
        fits_i32(button_size(config)),
        button_size(config) > 0 ==> {
            &&& close_fits(window_loc, window_size, config)
            &&& maximize_fits(window_loc, window_size, config)
            &&& minimize_fits(window_loc, window_size, config)
        },
    ensures
        ({
            let rects = button_rects(window_loc, window_size, true, theme, config);
            let hit = button_under(pointer, window_loc, window_size, config);
            &&& button_size(config) <= 0 ==> hit is None && rects.len() == 0
            &&& button_size(config) > 0 ==> {
                &&& rects.len() == 3
                &&& (hit == Some(ButtonAction::Close) <==> rect_holds(rects[0].geometry, pointer))
                &&& (hit == Some(ButtonAction::Maximize) <==> rect_holds(rects[1].geometry, pointer))
                &&& (hit == Some(ButtonAction::Minimize) <==> rect_holds(rects[2].geometry, pointer))
                &&& (hit is None <==> !rect_holds(rects[0].geometry, pointer) && !rect_holds(
                    rects[1].geometry,
                    pointer,
                ) && !rect_holds(rects[2].geometry, pointer))
            }
        }),
{
    if button_size(config) > 0 {
        assert(fits_i32(button_y(window_loc, config)));
    }
}

} // verus!
