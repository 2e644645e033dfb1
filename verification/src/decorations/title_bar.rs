//! The title-bar rectangle: directly above the window content, spanning
//! the content width plus both border columns.

use vstd::prelude::*;

use crate::geometry::{fits_i32, rect, Point, Rectangle, Size};
use crate::theme::{hex_color, Rgba8, ThemeColors};

use super::{DecorationConfig, SolidRect};

verus! {

/// The title-bar colour: the title-bar background for the active window,
/// the surface background otherwise.
pub open spec fn title_bar_color(is_active: bool, theme: ThemeColors) -> Rgba8 {
    if is_active {
        hex_color(theme.title_bar_bg@)
    } else {
        hex_color(theme.bg_surface@)
    }
}

/// The title-bar arithmetic stays within `i32`.
pub open spec fn title_bar_fits(window_loc: Point, window_size: Size, config: DecorationConfig) -> bool {
    &&& fits_i32(window_loc.x - config.border_width)
    &&& fits_i32(window_loc.y - config.title_bar_height)
    &&& fits_i32(2 * config.border_width)
    &&& fits_i32(window_size.w + 2 * config.border_width)
}

/// The title bar: empty when its width or height is not positive.
pub open spec fn title_bar_rects(
    window_loc: Point,
    window_size: Size,
    is_active: bool,
    theme: ThemeColors,
    config: DecorationConfig,
) -> Seq<SolidRect> {
    let w = window_size.w + 2 * config.border_width;
    let h = config.title_bar_height as int;
    if w <= 0 || h <= 0 {
        seq![]
    } else {
        seq![
            SolidRect {
                geometry: rect(
                    window_loc.x - config.border_width,
                    window_loc.y - config.title_bar_height,
                    w,
                    h,
                ),
                color: title_bar_color(is_active, theme),
            },
        ]
    }
}

/// Generates the title-bar rectangle.
pub fn generate_title_bar(
    window_loc: Point,
    window_size: Size,
    is_active: bool,
    theme: &ThemeColors,
    config: &DecorationConfig,
) -> (res: Vec<SolidRect>)
    requires
        title_bar_fits(window_loc, window_size, *config),
    ensures
        res@ == title_bar_rects(window_loc, window_size, is_active, *theme, *config),
{
    let color = if is_active {
        theme.title_bar_bg_rgba()
    } else {
        theme.bg_surface_rgba()
    };
    let x = window_loc.x - config.border_width;
    let y = window_loc.y - config.title_bar_height;
    let w = window_size.w + 2 * config.border_width;
    let h = config.title_bar_height;
    if w <= 0 || h <= 0 {
        return Vec::new();
    }
    let mut res = Vec::new();
    res.push(SolidRect { geometry: Rectangle::new(Point { x, y }, Size { w, h }), color });
    res
}

} // verus!
