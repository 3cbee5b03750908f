//! Screen geometry: the stack of regions that the form occupies and
//! rectangles centered on the screen.
//!
//! Everything here is integer arithmetic, so a layout is exact and the same
//! on every run; a zero-size screen gives zero-size regions.
use vstd::prelude::*;

verus! {

/// A rectangle of terminal cells: its top-left corner and its size.
#[derive(Clone, Copy, Debug, PartialEq, Eq, Structural)]
pub struct Rect {
    pub x: u16,
    pub y: u16,
    pub width: u16,
    pub height: u16,
}

impl Rect {
    /// The rectangle lies on the grid: its right and bottom edges are
    /// coordinates too.
    pub open spec fn wf(self) -> bool {
        self.x + self.width <= u16::MAX && self.y + self.height <= u16::MAX
    }
}

/// Columns left blank on each side of the form.
pub const MARGIN_HORIZONTAL: u16 = 5;

/// Rows left blank above and below the form.
pub const MARGIN_VERTICAL: u16 = 2;

/// Rows of an input box: its text line between two border lines.
pub const BOX_HEIGHT: u16 = 3;

/// Rows of the help line.
pub const HELP_HEIGHT: u16 = 1;

/// The regions of the form, from top to bottom.
#[derive(Clone, Copy, Debug, PartialEq, Eq, Structural)]
pub struct FormLayout {
    pub username: Rect,
    pub password: Rect,
    /// The rows between the password box and the help line.
    pub spacer: Rect,
    pub help: Rect,
}

pub open spec fn min(a: int, b: int) -> int {
    if a <= b {
        a
    } else {
        b
    }
}

/// `area` without `mh` columns on each side and `mv` rows above and below;
/// a zero-size rectangle at its corner where it is too small for that.
pub open spec fn inner(area: Rect, mh: int, mv: int) -> Rect {
    if area.width < 2 * mh || area.height < 2 * mv {
        Rect { width: 0, height: 0, ..area }
    } else {
        Rect {
            x: (area.x + mh) as u16,
            y: (area.y + mv) as u16,
            width: (area.width - 2 * mh) as u16,
            height: (area.height - 2 * mv) as u16,
        }
    }
}

/// The rows of `r` from `top` on, `height` of them.
pub open spec fn rows(r: Rect, top: int, height: int) -> Rect {
    Rect { y: (r.y + top) as u16, height: height as u16, ..r }
}

/// The form's regions inside `inner`: the two input boxes at the top, the
/// help line at the bottom and the spacer between them. Where there is not
/// room for all, the user name box comes first, then the password box, then
/// the help line; the spacer takes what is left.
pub open spec fn stack(inner: Rect) -> FormLayout {
    let h = inner.height as int;
    let u = min(BOX_HEIGHT as int, h);
    let p = min(BOX_HEIGHT as int, h - u);
    let l = min(HELP_HEIGHT as int, h - u - p);
    let s = h - u - p - l;
    FormLayout {
        username: rows(inner, 0, u),
        password: rows(inner, u, p),
        spacer: rows(inner, u + p, s),
        help: rows(inner, u + p + s, l),
    }
}

/// The form's regions on a screen `area`.
pub open spec fn form_regions(area: Rect) -> FormLayout {
    stack(inner(area, MARGIN_HORIZONTAL as int, MARGIN_VERTICAL as int))
}

/// Splits the screen `area` into the form's regions.
pub fn form_layout(area: Rect) -> (r: FormLayout)
    requires
        area.wf(),
    ensures
        r == form_regions(area),
        r.username.height + r.password.height + r.spacer.height + r.help.height == inner(
            area,
            MARGIN_HORIZONTAL as int,
            MARGIN_VERTICAL as int,
        ).height,
{
    let inner = if area.width < 2 * MARGIN_HORIZONTAL || area.height < 2 * MARGIN_VERTICAL {
        Rect { width: 0, height: 0, ..area }
    } else {
        Rect {
            x: area.x + MARGIN_HORIZONTAL,
            y: area.y + MARGIN_VERTICAL,
            width: area.width - 2 * MARGIN_HORIZONTAL,
            height: area.height - 2 * MARGIN_VERTICAL,
        }
    };
    let h = inner.height;
    let u = if BOX_HEIGHT <= h { BOX_HEIGHT } else { h };
    let p = if BOX_HEIGHT <= h - u { BOX_HEIGHT } else { h - u };
    let l = if HELP_HEIGHT <= h - u - p { HELP_HEIGHT } else { h - u - p };
    let s = h - u - p - l;
    FormLayout {
        username: Rect { height: u, ..inner },
        password: Rect { y: inner.y + u, height: p, ..inner },
        spacer: Rect { y: inner.y + u + p, height: s, ..inner },
        help: Rect { y: inner.y + u + p + s, height: l, ..inner },
    }
}

/// The sizes of the three bands that split an axis of length `extent` by
/// `percent`: the sides get `(100 - percent) / 2` percent and the middle
/// `percent` percent, each rounded down; the last band takes what rounding
/// left over, so that the three cover the axis.
pub open spec fn band_sizes(extent: int, percent: int) -> (int, int, int) {
    let side = (100 - percent) / 2;
    let first = extent * side / 100;
    let middle = extent * percent / 100;
    (first, middle, extent - first - middle)
}

/// The middle of the three-by-three grid that splits `r` by `percent_x`
/// across and `percent_y` down.
pub open spec fn centered(percent_x: int, percent_y: int, r: Rect) -> Rect {
    let (left, width, _) = band_sizes(r.width as int, percent_x);
    let (top, height, _) = band_sizes(r.height as int, percent_y);
    Rect {
        x: (r.x + left) as u16,
        y: (r.y + top) as u16,
        width: width as u16,
        height: height as u16,
    }
}

proof fn lemma_bands_fit(extent: int, percent: int)
    requires
        0 <= extent,
        0 <= percent <= 100,
    ensures
        ({
            let (first, middle, last) = band_sizes(extent, percent);
            0 <= first && 0 <= middle && 0 <= last && first + middle + last == extent
        }),
{
    let side = (100 - percent) / 2;
    let a = extent * side;
    let b = extent * percent;
    assert(0 <= a && 0 <= b && a + b <= extent * 100) by (nonlinear_arith)
        requires
            0 <= extent,
            0 <= side,
            0 <= percent,
            side + percent <= 100,
            a == extent * side,
            b == extent * percent,
    ;
    assert(a / 100 * 100 <= a && b / 100 * 100 <= b);
}

/// The first two bands of an axis of length `extent` split by `percent`.
fn bands(extent: u16, percent: u16) -> (r: (u16, u16))
    requires
        percent <= 100,
    ensures
        r.0 == band_sizes(extent as int, percent as int).0,
        r.1 == band_sizes(extent as int, percent as int).1,
        r.0 + r.1 <= extent,
{
    proof {
        lemma_bands_fit(extent as int, percent as int);
    }
    let side: u16 = (100 - percent) / 2;
    assert((extent as u32) * (side as u32) <= 65535 * 100) by (nonlinear_arith)
        requires
            side <= 100,
            extent <= 65535,
    ;
    assert((extent as u32) * (percent as u32) <= 65535 * 100) by (nonlinear_arith)
        requires
            percent <= 100,
            extent <= 65535,
    ;
    let first = ((extent as u32) * (side as u32) / 100) as u16;
    let middle = ((extent as u32) * (percent as u32) / 100) as u16;
    (first, middle)
}

/// A rectangle centered on `r`, `percent_x` percent of its width across and
/// `percent_y` percent of its height down.
pub fn centered_rect(percent_x: u16, percent_y: u16, r: Rect) -> (c: Rect)
    requires
        percent_x <= 100,
        percent_y <= 100,
        r.wf(),
    ensures
        c == centered(percent_x as int, percent_y as int, r),
        c.wf(),
        r.x <= c.x,
        c.x + c.width <= r.x + r.width,
        r.y <= c.y,
        c.y + c.height <= r.y + r.height,
{
    let (left, width) = bands(r.width, percent_x);
    let (top, height) = bands(r.height, percent_y);
    Rect { x: r.x + left, y: r.y + top, width, height }
}

/// Centering splits each axis of any screen into three bands that cover it
/// exactly: none is negative and their sizes add up to the screen's width
/// across and to its height down.
pub proof fn lemma_centered_bands_cover(r: Rect, percent_x: u16, percent_y: u16)
    requires
        percent_x <= 100,
        percent_y <= 100,
    ensures
        ({
            let (left, middle, right) = band_sizes(r.width as int, percent_x as int);
            0 <= left && 0 <= middle && 0 <= right && left + middle + right == r.width
        }),
        ({
            let (top, middle, bottom) = band_sizes(r.height as int, percent_y as int);
            0 <= top && 0 <= middle && 0 <= bottom && top + middle + bottom == r.height
        }),
{
    lemma_bands_fit(r.width as int, percent_x as int);
    lemma_bands_fit(r.height as int, percent_y as int);
}

} // verus!
