//! Placement of fixed-size boxes (popups, placeholders) in the terminal,
//! computed by the terminal layout engine.

use vstd::prelude::*;

use ratatui::layout::{Constraint, Flex, Layout, Rect};

verus! {

/// A rectangle of terminal cells.
#[derive(Debug, Clone, Copy, PartialEq, Eq, Structural)]
pub struct Area {
    pub x: u16,
    pub y: u16,
    pub width: u16,
    pub height: u16,
}

/// Rows of `area` that the layout engine can use: its bottom edge stops at
/// the last row a `u16` can address.
pub open spec fn rows_available(area: Area) -> int {
    if area.y + area.height > u16::MAX {
        u16::MAX - area.y
    } else {
        area.height as int
    }
}

/// Columns of `area` that the layout engine can use: its right edge stops
/// at the last column a `u16` can address.
pub open spec fn cols_available(area: Area) -> int {
    if area.x + area.width > u16::MAX {
        u16::MAX - area.x
    } else {
        area.width as int
    }
}

/// A band `[start, start + len)` lies in `[outer_start, outer_start +
/// outer_len)` with as much space before it as after it, give or take one
/// cell.
pub open spec fn centred_in(start: int, len: int, outer_start: int, outer_len: int) -> bool {
    let before = start - outer_start;
    let after = outer_start + outer_len - (start + len);
    &&& 0 <= before
    &&& 0 <= after
    &&& -1 <= before - after <= 1
}

/// The smaller of two sizes.
pub open spec fn min_size(a: int, b: int) -> int {
    if a <= b {
        a
    } else {
        b
    }
}

/// Where the layout engine puts a band of `height` rows centred vertically
/// in `area` (a one-constraint vertical layout with centred flex).
pub uninterp spec fn centered_rows(height: u16, area: Area) -> Area;

/// Where the layout engine puts a band of `width` columns centred
/// horizontally in `area` (a one-constraint horizontal layout with centred
/// flex).
pub uninterp spec fn centered_columns(width: u16, area: Area) -> Area;

/// Calls ratatui's `Layout::split` on a vertical layout of one
/// `Constraint::Length(height)` with `Flex::Center`. The result is named by
/// [`centered_rows`]. The engine builds vertical segments that keep the
/// column and the width of `area`. Its constraints hold both spacers equal
/// (their strength comes just below required), then the band at `height`
/// (a strong length constraint), inside the usable rows (required); so the
/// band is `height` rows, or all the usable rows when fewer, centred, with
/// the half-row that an odd remainder leaves rounded to one side.
#[verifier::external_body]
fn layout_centered_rows(height: u16, area: Area) -> (r: Area)
    ensures
        r == centered_rows(height, area),
        r.x == area.x,
        r.width == area.width,
        r.height == min_size(height as int, rows_available(area)),
        centred_in(r.y as int, r.height as int, area.y as int, rows_available(area)),
{
    let rect = Rect { x: area.x, y: area.y, width: area.width, height: area.height };
    let r = Layout::vertical([Constraint::Length(height)]).flex(Flex::Center).split(rect)[0];
    Area { x: r.x, y: r.y, width: r.width, height: r.height }
}

/// Calls ratatui's `Layout::split` on a horizontal layout of one
/// `Constraint::Length(width)` with `Flex::Center`. The result is named by
/// [`centered_columns`]. The engine builds horizontal segments that keep the
/// row and the height of `area`; as for rows, the band is `width` columns,
/// or all the usable columns when fewer, centred, with the half-column that
/// an odd remainder leaves rounded to one side.
#[verifier::external_body]
fn layout_centered_columns(width: u16, area: Area) -> (r: Area)
    ensures
        r == centered_columns(width, area),
        r.y == area.y,
        r.height == area.height,
        r.width == min_size(width as int, cols_available(area)),
        centred_in(r.x as int, r.width as int, area.x as int, cols_available(area)),
{
    let rect = Rect { x: area.x, y: area.y, width: area.width, height: area.height };
    let r = Layout::horizontal([Constraint::Length(width)]).flex(Flex::Center).split(rect)[0];
    Area { x: r.x, y: r.y, width: r.width, height: r.height }
}

/// A box of the given absolute size centred in `area`: first the rows,
/// then the columns within them. The box is as large as asked, or as the
/// usable part of `area` where that is smaller, and centred in it, give or
/// take one cell each way.
pub fn centered_rect_abs(width: u16, height: u16, area: Area) -> (r: Area)
    ensures
        r == centered_columns(width, centered_rows(height, area)),
        r.y == centered_rows(height, area).y,
        r.height == centered_rows(height, area).height,
        r.width == min_size(width as int, cols_available(area)),
        r.height == min_size(height as int, rows_available(area)),
        centred_in(r.x as int, r.width as int, area.x as int, cols_available(area)),
        centred_in(r.y as int, r.height as int, area.y as int, rows_available(area)),
{
    let rows = layout_centered_rows(height, area);
    layout_centered_columns(width, rows)
}

} // verus!
