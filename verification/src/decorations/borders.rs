//! The four border rectangles (top, bottom, left, right) that frame the
//! window content and the title bar together.

use vstd::prelude::*;

use crate::geometry::{fits_i32, rect, Point, Rectangle, Size};
use crate::theme::{hex_color, Rgba8, ThemeColors};

use super::{DecorationConfig, SolidRect};

verus! {

/// The border colour: active or inactive border colour of the theme.
pub open spec fn border_color(is_active: bool, theme: ThemeColors) -> Rgba8 {
    if is_active {
        hex_color(theme.border_active@)
    } else {
        hex_color(theme.border_inactive@)
    }
}

/// The border arithmetic stays within `i32` (nothing is computed when the
/// border width is not positive).
pub open spec fn borders_fit(window_loc: Point, window_size: Size, config: DecorationConfig) -> bool {
    let bw = config.border_width as int;
    let tbh = config.title_bar_height as int;
    bw > 0 ==> {
        &&& fits_i32(window_loc.x - bw)
        &&& fits_i32(window_loc.y - tbh)
        &&& fits_i32(window_loc.y - tbh - bw)
        &&& fits_i32(2 * bw)
        &&& fits_i32(window_size.w + 2 * bw)
        &&& fits_i32(window_size.h + tbh)
        &&& fits_i32(window_size.h + tbh + 2 * bw)
        &&& fits_i32(window_loc.y + window_size.h)
        &&& fits_i32(window_loc.x + window_size.w)
    }
}

/// The borders: none when the border width is not positive; otherwise the
/// top edge above the title bar, the bottom edge below the content, and the
/// left and right edges between them.
pub open spec fn border_rects(
    window_loc: Point,
    window_size: Size,
    is_active: bool,
    theme: ThemeColors,
    config: DecorationConfig,
) -> Seq<SolidRect> {
    let bw = config.border_width as int;
    let tbh = config.title_bar_height as int;
    let color = border_color(is_active, theme);
    let outer_x = window_loc.x - bw;
    let outer_y = window_loc.y - tbh - bw;
    let outer_w = window_size.w + 2 * bw;
    let side_h = window_size.h + tbh;
    if bw <= 0 {
        seq![]
    } else {
        seq![
            SolidRect { geometry: rect(outer_x, outer_y, outer_w, bw), color },
            SolidRect { geometry: rect(outer_x, window_loc.y + window_size.h, outer_w, bw), color },
            SolidRect { geometry: rect(outer_x, outer_y + bw, bw, side_h), color },
            SolidRect {
                geometry: rect(window_loc.x + window_size.w, outer_y + bw, bw, side_h),
                color,
            },
        ]
    }
}

/// Generates the four border edges of a window.
pub fn generate_borders(
    window_loc: Point,
    window_size: Size,
    is_active: bool,
    theme: &ThemeColors,
    config: &DecorationConfig,
) -> (res: Vec<SolidRect>)
    requires
        borders_fit(window_loc, window_size, *config),
    ensures
        res@ == border_rects(window_loc, window_size, is_active, *theme, *config),
{
    let bw = config.border_width;
    let tbh = config.title_bar_height;
    if bw <= 0 {
        return Vec::new();
    }
    let color = if is_active {
        theme.border_active_rgba()
    } else {
        theme.border_inactive_rgba()
    };
    let outer_x = window_loc.x - bw;
    let outer_y = window_loc.y - tbh - bw;
    let outer_w = window_size.w + 2 * bw;
    let outer_h = window_size.h + tbh + 2 * bw;

    let mut elements = Vec::new();
    elements.push(make_rect(outer_x, outer_y, outer_w, bw, color));
    let bottom_y = window_loc.y + window_size.h;
    elements.push(make_rect(outer_x, bottom_y, outer_w, bw, color));
    let side_y = outer_y + bw;
    let side_h = outer_h - 2 * bw;
    elements.push(make_rect(outer_x, side_y, bw, side_h, color));
    let right_x = window_loc.x + window_size.w;
    elements.push(make_rect(right_x, side_y, bw, side_h, color));
    proof {
        assert(elements@ =~= border_rects(window_loc, window_size, is_active, *theme, *config));
    }
    elements
}

/// One solid rectangle.
fn make_rect(x: i32, y: i32, w: i32, h: i32, color: Rgba8) -> (res: SolidRect)
    ensures
        res == (SolidRect { geometry: rect(x as int, y as int, w as int, h as int), color }),
{
    SolidRect { geometry: Rectangle::new(Point { x, y }, Size { w, h }), color }
}

} // verus!
