use vstd::arithmetic::div_mod::{lemma_fundamental_div_mod, lemma_fundamental_div_mod_converse};
use vstd::prelude::*;

verus! {

/// The largest magnitude of a coordinate or a width that the geometry takes,
/// so that its sums and products stay within `i64`.
pub const COORDINATE_LIMIT: i64 = 0x1_0000_0000;

/// The fixed height of the mood widget.
pub const MOOD_WIDGET_HEIGHT: i64 = 200;

/// The margin above the mood cells that holds the month labels.
pub const MONTH_LABELS_SPACING: i64 = 20;

/// An axis-aligned rectangle in device units: `x0 <= x < x1`, `y0 <= y < y1`
/// (the y axis points down).
#[derive(Clone, Copy, Debug, PartialEq, Eq, Structural)]
pub struct Rect {
    pub x0: i64,
    pub y0: i64,
    pub x1: i64,
    pub y1: i64,
}

impl Rect {
    pub open spec fn contains_spec(self, x: int, y: int) -> bool {
        self.x0 <= x < self.x1 && self.y0 <= y < self.y1
    }

    /// `self` lies inside `outer`.
    pub open spec fn within(self, outer: Rect) -> bool {
        outer.x0 <= self.x0 && self.x1 <= outer.x1 && outer.y0 <= self.y0 && self.y1 <= outer.y1
    }

    /// Whether the point `(x, y)` lies inside the rectangle.
    pub fn contains(&self, x: i64, y: i64) -> (r: bool)
        ensures
            r == self.contains_spec(x as int, y as int),
    {
        self.x0 <= x && x < self.x1 && self.y0 <= y && y < self.y1
    }
}

/// A coordinate the geometry takes.
pub open spec fn valid_coordinate(v: i64) -> bool {
    -COORDINATE_LIMIT <= v <= COORDINATE_LIMIT
}

/// A width the geometry takes.
pub open spec fn valid_width(w: i64) -> bool {
    0 <= w <= COORDINATE_LIMIT
}

/// The widget's rectangle at origin `(x, y)`: the full available width `w`
/// and the fixed height.
pub open spec fn widget_rectangle(x: i64, y: i64, w: i64) -> Rect {
    Rect { x0: x, y0: y, x1: (x + w) as i64, y1: (y + MOOD_WIDGET_HEIGHT) as i64 }
}

/// The grid area of a widget rectangle: all of it below the month labels.
pub open spec fn mood_cells_area(r: Rect) -> Rect {
    Rect { x0: r.x0, y0: (r.y0 + MONTH_LABELS_SPACING) as i64, x1: r.x1, y1: r.y1 }
}

/// The rectangle and grid area of a widget at origin `(x, y)` with width `w`.
pub fn layout(x: i64, y: i64, w: i64) -> (r: (Rect, Rect))
    requires
        valid_coordinate(x),
        valid_coordinate(y),
        valid_width(w),
    ensures
        r.0 == widget_rectangle(x, y, w),
        r.1 == mood_cells_area(r.0),
        r.1.within(r.0),
        r.0.x1 - r.0.x0 == w,
        r.0.y1 - r.0.y0 == MOOD_WIDGET_HEIGHT,
        r.1.y1 - r.1.y0 == MOOD_WIDGET_HEIGHT - MONTH_LABELS_SPACING,
{
    let rectangle = Rect { x0: x, y0: y, x1: x + w, y1: y + MOOD_WIDGET_HEIGHT };
    let area = Rect {
        x0: rectangle.x0,
        y0: rectangle.y0 + MONTH_LABELS_SPACING,
        x1: rectangle.x1,
        y1: rectangle.y1,
    };
    (rectangle, area)
}

/// The column (counted from the left) or row (counted from the top) among
/// `n` equal cells over a span of `w` units that holds offset `dx`:
/// `floor(dx / (w / n))`.
pub open spec fn cell_index(dx: int, w: int, n: int) -> int {
    dx * n / w
}

/// The day and mood value of the cell of grid area `a` under the point
/// `(x, y)`, if the point lies in the area. Columns are days from the left;
/// rows are mood values with 0 at the bottom.
pub open spec fn cell_at_spec(a: Rect, x: int, y: int) -> Option<(int, int)> {
    if a.contains_spec(x, y) {
        Some(
            (
                cell_index(x - a.x0, a.x1 - a.x0, 31),
                11 - cell_index(y - a.y0, a.y1 - a.y0, 11) - 1,
            ),
        )
    } else {
        None
    }
}

/// An offset inside a span of `w` falls into one of the `n` cells.
pub proof fn lemma_cell_index_in_range(dx: int, w: int, n: int)
    requires
        0 <= dx < w,
        n > 0,
    ensures
        0 <= cell_index(dx, w, n) < n,
{
    let v = dx * n;
    assert(0 <= v < w * n) by (nonlinear_arith)
        requires
            0 <= dx < w,
            n > 0,
            v == dx * n,
    ;
    lemma_fundamental_div_mod(v, w);
    let q = v / w;
    let r = v % w;
    assert(0 <= q < n) by (nonlinear_arith)
        requires
            v == w * q + r,
            0 <= r < w,
            0 <= v < w * n,
    ;
}

/// Cell `d` of `n` equal cells over a span of `w` holds exactly the offsets
/// from `d * w / n` up to, not including, `(d + 1) * w / n`: every cell is
/// `w / n` wide.
pub proof fn lemma_cell_extent(dx: int, w: int, n: int, d: int)
    requires
        0 <= dx,
        w > 0,
        n > 0,
    ensures
        cell_index(dx, w, n) == d <==> d * w <= dx * n < (d + 1) * w,
{
    let v = dx * n;
    lemma_fundamental_div_mod(v, w);
    let q = v / w;
    let r = v % w;
    if q == d {
        assert(d * w <= v < (d + 1) * w) by (nonlinear_arith)
            requires
                v == w * q + r,
                0 <= r < w,
                q == d,
        ;
    }
    if d * w <= v && v < (d + 1) * w {
        assert(v == d * w + (v - d * w) && v - d * w < w) by (nonlinear_arith)
            requires
                v < (d + 1) * w,
        ;
        lemma_fundamental_div_mod_converse(v, w, d, v - d * w);
    }
}

/// For every origin and width: the widget is `w` wide and 200 high, its grid
/// area lies inside it, and the grid area is `w` wide and 180 high, so that
/// its 31 columns are `w / 31` wide and its 11 rows `180 / 11` high.
pub proof fn lemma_grid_geometry(x: i64, y: i64, w: i64)
    requires
        valid_coordinate(x),
        valid_coordinate(y),
        valid_width(w),
    ensures
        widget_rectangle(x, y, w).x1 - widget_rectangle(x, y, w).x0 == w,
        widget_rectangle(x, y, w).y1 - widget_rectangle(x, y, w).y0 == MOOD_WIDGET_HEIGHT,
        mood_cells_area(widget_rectangle(x, y, w)).within(widget_rectangle(x, y, w)),
        mood_cells_area(widget_rectangle(x, y, w)).x1 - mood_cells_area(widget_rectangle(x, y, w)).x0
            == w,
        mood_cells_area(widget_rectangle(x, y, w)).y1 - mood_cells_area(widget_rectangle(x, y, w)).y0
            == MOOD_WIDGET_HEIGHT - MONTH_LABELS_SPACING,
        MOOD_WIDGET_HEIGHT - MONTH_LABELS_SPACING == 180,
{
}

/// A grid area the geometry takes.
pub open spec fn valid_area(a: Rect) -> bool {
    &&& a.x0 <= a.x1
    &&& a.y0 <= a.y1
    &&& -2 * COORDINATE_LIMIT <= a.x0 && a.x1 <= 2 * COORDINATE_LIMIT
    &&& -2 * COORDINATE_LIMIT <= a.y0 && a.y1 <= 2 * COORDINATE_LIMIT
}

/// The day and mood value of the cell of grid area `a` under `(x, y)`.
pub fn cell_at(a: &Rect, x: i64, y: i64) -> (r: Option<(u8, u8)>)
    requires
        valid_area(*a),
    ensures
        match cell_at_spec(*a, x as int, y as int) {
            None => r.is_none(),
            Some((d, m)) => {
                &&& 0 <= d < 31
                &&& 0 <= m < 11
                &&& r == Some((d as u8, m as u8))
            },
        },
{
    if !a.contains(x, y) {
        return None;
    }
    let dx = (x - a.x0) as u64;
    let w = (a.x1 - a.x0) as u64;
    let dy = (y - a.y0) as u64;
    let h = (a.y1 - a.y0) as u64;
    proof {
        lemma_cell_index_in_range(dx as int, w as int, 31);
        lemma_cell_index_in_range(dy as int, h as int, 11);
    }
    let day = dx * 31 / w;
    let row = dy * 11 / h;
    Some((day as u8, (11 - row - 1) as u8))
}

/// A point of the cell of day `d` and mood value `m` of grid area `a`,
/// near its center.
pub open spec fn cell_center(a: Rect, d: int, m: int) -> (int, int) {
    (
        a.x0 + (2 * d + 1) * (a.x1 - a.x0) / 62,
        a.y0 + (2 * (10 - m) + 1) * (a.y1 - a.y0) / 22,
    )
}

/// The point near the middle of cell `i` of `n` cells over a span of `w`
/// lies in that span and in that cell, when each cell is at least two
/// units wide.
pub proof fn lemma_center_in_cell(w: int, n: int, i: int)
    requires
        n > 0,
        0 <= i < n,
        w >= 2 * n,
    ensures
        0 <= (2 * i + 1) * w / (2 * n) < w,
        cell_index((2 * i + 1) * w / (2 * n), w, n) == i,
{
    let v = (2 * i + 1) * w;
    lemma_fundamental_div_mod(v, 2 * n);
    let q = v / (2 * n);
    let r = v % (2 * n);
    assert(0 <= q && q < w && i * w <= q * n && q * n < i * w + w) by (nonlinear_arith)
        requires
            v == (2 * i + 1) * w,
            v == (2 * n) * q + r,
            0 <= r < 2 * n,
            n > 0,
            0 <= i < n,
            w >= 2 * n,
    ;
    lemma_fundamental_div_mod_converse(q * n, w, i, q * n - i * w);
}

/// Clicking the center of a cell hits that cell, when cells are at least
/// two units wide and high.
pub proof fn lemma_cell_center_hits_cell(a: Rect, d: int, m: int)
    requires
        0 <= d < 31,
        0 <= m < 11,
        a.x1 - a.x0 >= 62,
        a.y1 - a.y0 >= 22,
    ensures
        cell_at_spec(a, cell_center(a, d, m).0, cell_center(a, d, m).1) == Some((d, m)),
{
    lemma_center_in_cell(a.x1 - a.x0, 31, d);
    lemma_center_in_cell(a.y1 - a.y0, 11, 10 - m);
}

} // verus!
