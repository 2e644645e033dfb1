//! Server-side window decorations: the title bar, the four borders and the
//! window-management buttons, each a solid coloured rectangle, and the
//! outer geometry that they span.

pub mod borders;
pub mod buttons;
pub mod title_bar;

use vstd::prelude::*;

use crate::geometry::{fits_i32, fits_i32_exec, rect, Point, Rectangle, Size};

use self::borders::{border_rects, borders_fit, generate_borders};
use self::buttons::{button_rects, buttons_fit, generate_buttons};
use self::title_bar::{
    generate_title_bar, title_bar_fits, title_bar_rects,
};
use crate::theme::{Rgba8, ThemeColors};

verus! {

/// Pixel sizes of the decorations.
#[derive(Debug, Clone, Copy, PartialEq, Eq, Structural)]
pub struct DecorationConfig {
    /// Width of each border edge, in logical pixels.
    pub border_width: i32,
    /// Height of the title bar, in logical pixels.
    pub title_bar_height: i32,
}

impl DecorationConfig {
    /// The decoration sizes of a configuration. The unsigned sizes are
    /// reinterpreted as `i32` (values above `i32::MAX` wrap to negative).
    pub fn from_config(config: &crate::config::MeltConfig) -> (res: Self)
        ensures
            res.border_width == config.appearance.border_width as i32,
            res.title_bar_height == config.appearance.title_bar_height as i32,
    {
        DecorationConfig {
            border_width: config.appearance.border_width as i32,
            title_bar_height: config.appearance.title_bar_height as i32,
        }
    }
}

/// One decoration element: a rectangle filled with a solid colour.
#[derive(Debug, Clone, Copy, PartialEq, Eq, Structural)]
pub struct SolidRect {
    pub geometry: Rectangle,
    pub color: Rgba8,
}

/// Entry point for the decorations of a single window.
pub struct WindowDecorations;

/// The outer-geometry arithmetic stays within `i32`.
pub open spec fn outer_fits(window_loc: Point, window_size: Size, config: DecorationConfig) -> bool {
    let bw = config.border_width as int;
    let tbh = config.title_bar_height as int;
    &&& fits_i32(window_loc.x - bw)
    &&& fits_i32(window_loc.y - tbh)
    &&& fits_i32(window_loc.y - tbh - bw)
    &&& fits_i32(2 * bw)
    &&& fits_i32(window_size.w + 2 * bw)
    &&& fits_i32(window_size.h + tbh)
    &&& fits_i32(window_size.h + tbh + 2 * bw)
}

/// The rectangle spanned by the window content, its title bar and borders.
pub open spec fn outer_rect(window_loc: Point, window_size: Size, config: DecorationConfig) -> Rectangle {
    let bw = config.border_width as int;
    let tbh = config.title_bar_height as int;
    rect(
        window_loc.x - bw,
        window_loc.y - tbh - bw,
        window_size.w + 2 * bw,
        window_size.h + tbh + 2 * bw,
    )
}

/// All decoration arithmetic stays within `i32`.
pub open spec fn decorations_fit(window_loc: Point, window_size: Size, is_active: bool, config: DecorationConfig) -> bool {
    &&& title_bar_fits(window_loc, window_size, config)
    &&& borders_fit(window_loc, window_size, config)
    &&& buttons_fit(window_loc, window_size, is_active, config)
}

/// All decoration rectangles of a window: title bar, then borders, then
/// buttons (back to front).
pub open spec fn decoration_rects(
    window_loc: Point,
    window_size: Size,
    is_active: bool,
    theme: ThemeColors,
    config: DecorationConfig,
) -> Seq<SolidRect> {
    title_bar_rects(window_loc, window_size, is_active, theme, config) + border_rects(
        window_loc,
        window_size,
        is_active,
        theme,
        config,
    ) + button_rects(window_loc, window_size, is_active, theme, config)
}

impl WindowDecorations {
    /// Generates all decoration rectangles for a window, to be drawn behind
    /// the window surface: the title bar, the four borders, then the buttons.
    ///
    /// `window_loc` and `window_size` are those of the window content,
    /// decorations not included.
    pub fn generate(
        window_loc: Point,
        window_size: Size,
        is_active: bool,
        theme: &ThemeColors,
        deco_config: &DecorationConfig,
    ) -> (res: Vec<SolidRect>)
        requires
            decorations_fit(window_loc, window_size, is_active, *deco_config),
        ensures
            res@ == decoration_rects(window_loc, window_size, is_active, *theme, *deco_config),
    {
        let mut elements = generate_title_bar(window_loc, window_size, is_active, theme, deco_config);
        let mut borders = generate_borders(window_loc, window_size, is_active, theme, deco_config);
        elements.append(&mut borders);
        let mut buttons = generate_buttons(window_loc, window_size, is_active, theme, deco_config);
        elements.append(&mut buttons);
        elements
    }

    /// Whether [`WindowDecorations::generate`] can run on these arguments:
    /// its arithmetic stays within `i32`.
    pub fn can_generate(window_loc: Point, window_size: Size, is_active: bool, deco_config: &DecorationConfig) -> (res:
        bool)
        ensures
            res == decorations_fit(window_loc, window_size, is_active, *deco_config),
    {
        let lx = window_loc.x as i64;
        let ly = window_loc.y as i64;
        let w = window_size.w as i64;
        let h = window_size.h as i64;
        let bw = deco_config.border_width as i64;
        let tbh = deco_config.title_bar_height as i64;
        let title_ok = fits_i32_exec(lx - bw) && fits_i32_exec(ly - tbh) && fits_i32_exec(2 * bw)
            && fits_i32_exec(w + 2 * bw);
        let borders_ok = bw <= 0 || (fits_i32_exec(lx - bw) && fits_i32_exec(ly - tbh)
            && fits_i32_exec(ly - tbh - bw) && fits_i32_exec(2 * bw) && fits_i32_exec(w + 2 * bw)
            && fits_i32_exec(h + tbh) && fits_i32_exec(h + tbh + 2 * bw) && fits_i32_exec(ly + h)
            && fits_i32_exec(lx + w));
        let s = tbh - 12;
        let re = lx + w + bw;
        let cx = re - 8 - s;
        let mx = cx - 6 - s;
        let buttons_ok = !is_active || (fits_i32_exec(s) && (s <= 0 || (fits_i32_exec(ly - tbh)
            && fits_i32_exec(lx + w) && fits_i32_exec(re) && fits_i32_exec(re - 8)
            && fits_i32_exec(cx) && fits_i32_exec(cx - 6) && fits_i32_exec(mx) && fits_i32_exec(
            mx - 6,
        ) && fits_i32_exec(mx - 6 - s))));
        title_ok && borders_ok && buttons_ok
    }

    /// Whether [`WindowDecorations::outer_geometry`] can run on these
    /// arguments: its arithmetic stays within `i32`.
    pub fn can_outer_geometry(window_loc: Point, window_size: Size, deco_config: &DecorationConfig) -> (res:
        bool)
        ensures
            res == outer_fits(window_loc, window_size, *deco_config),
    {
        let lx = window_loc.x as i64;
        let ly = window_loc.y as i64;
        let w = window_size.w as i64;
        let h = window_size.h as i64;
        let bw = deco_config.border_width as i64;
        let tbh = deco_config.title_bar_height as i64;
        fits_i32_exec(lx - bw) && fits_i32_exec(ly - tbh) && fits_i32_exec(ly - tbh - bw)
            && fits_i32_exec(2 * bw) && fits_i32_exec(w + 2 * bw) && fits_i32_exec(h + tbh)
            && fits_i32_exec(h + tbh + 2 * bw)
    }

    /// The rectangle that encloses the window content plus its borders and
    /// title bar.
    pub fn outer_geometry(
        window_loc: Point,
        window_size: Size,
        deco_config: &DecorationConfig,
    ) -> (res: Rectangle)
        requires
            outer_fits(window_loc, window_size, *deco_config),
        ensures
            res == outer_rect(window_loc, window_size, *deco_config),
    {
        let bw = deco_config.border_width;
        let tbh = deco_config.title_bar_height;
        Rectangle::new(
            Point { x: window_loc.x - bw, y: window_loc.y - tbh - bw },
            Size { w: window_size.w + 2 * bw, h: window_size.h + tbh + 2 * bw },
        )
    }
}

/// The borders frame the outer geometry: the top edge starts at its corner
/// and spans its width, the bottom edge ends at its bottom, the left and
/// right edges run down its sides between top and bottom edges, and the
/// title bar spans the same width right under the top edge and right above
/// the content.
pub proof fn law_borders_frame_outer_geometry(
    window_loc: Point,
    window_size: Size,
    is_active: bool,
    theme: ThemeColors,
    config: DecorationConfig,
)
    requires
        config.border_width > 0,
        config.title_bar_height > 0,
        window_size.w + 2 * config.border_width > 0,
        borders_fit(window_loc, window_size, config),
        outer_fits(window_loc, window_size, config),
    ensures
        ({
            let outer = outer_rect(window_loc, window_size, config);
            let b = border_rects(window_loc, window_size, is_active, theme, config);
            let t = title_bar_rects(window_loc, window_size, is_active, theme, config);
            let bw = config.border_width as int;
            &&& b.len() == 4 && t.len() == 1
            &&& b[0].geometry.loc == outer.loc
            &&& b[0].geometry.size.w == outer.size.w
            &&& b[1].geometry.loc.x == outer.loc.x
            &&& b[1].geometry.size.w == outer.size.w
            &&& b[1].geometry.loc.y + bw == outer.loc.y + outer.size.h
            &&& b[2].geometry.loc.x == outer.loc.x
            &&& b[2].geometry.loc.y == b[0].geometry.loc.y + bw
            &&& b[2].geometry.loc.y + b[2].geometry.size.h == b[1].geometry.loc.y
            &&& b[3].geometry.loc.x + bw == outer.loc.x + outer.size.w
            &&& b[3].geometry.loc.y == b[2].geometry.loc.y
            &&& b[3].geometry.size.h == b[2].geometry.size.h
            &&& t[0].geometry.loc.x == outer.loc.x
            &&& t[0].geometry.size.w == outer.size.w
            &&& t[0].geometry.loc.y == b[0].geometry.loc.y + bw
            &&& t[0].geometry.loc.y + t[0].geometry.size.h == window_loc.y
        }),
{
}

/// The integer point `(x, y)` lies in `r`.
pub open spec fn holds_point(r: Rectangle, x: int, y: int) -> bool {
    r.loc.x <= x < r.loc.x + r.size.w && r.loc.y <= y < r.loc.y + r.size.h
}

/// The four borders tile the ring between the outer geometry and the
/// region of the title bar and content: they do not overlap, and a point
/// lies in one of them exactly when it lies in the outer rectangle but not
/// in `[x, x + w) × [y - title_bar_height, y + h)` for the content at
/// `(x, y)` of size `(w, h)`.
pub proof fn law_borders_tile_ring(
    window_loc: Point,
    window_size: Size,
    is_active: bool,
    theme: ThemeColors,
    config: DecorationConfig,
)
    requires
        config.border_width > 0,
        config.title_bar_height >= 0,
        window_size.w >= 0,
        window_size.h >= 0,
        borders_fit(window_loc, window_size, config),
        outer_fits(window_loc, window_size, config),
    ensures
        ({
            let b = border_rects(window_loc, window_size, is_active, theme, config);
            let outer = outer_rect(window_loc, window_size, config);
            let tbh = config.title_bar_height as int;
            &&& b.len() == 4
            &&& forall|x: int, y: int|
                #![trigger holds_point(outer, x, y)]
                (holds_point(outer, x, y) && !(window_loc.x <= x < window_loc.x + window_size.w
                    && window_loc.y - tbh <= y < window_loc.y + window_size.h)) <==> (holds_point(
                    b[0].geometry,
                    x,
                    y,
                ) || holds_point(b[1].geometry, x, y) || holds_point(b[2].geometry, x, y)
                    || holds_point(b[3].geometry, x, y))
            &&& forall|i: int, j: int, x: int, y: int|
                0 <= i < j < 4 ==> !(#[trigger] holds_point(b[i].geometry, x, y) && #[trigger] holds_point(
                    b[j].geometry,
                    x,
                    y,
                ))
        }),
{
}

} // verus!
