//! The canvas: a fixed-size mutable grid of [`Cell`]s addressed by
//! `(x, y)` with the origin at the top-left corner.
//!
//! Reads outside the grid return no cell and writes outside the grid are
//! ignored; neither is an error. Writes merge through [`merged`], so a
//! written cell with a transparent component keeps what the canvas
//! already holds there. Every cell stored in a well-formed canvas is
//! concrete (no null glyph, no transparent color), which `new` establishes
//! and every write preserves.

use vstd::prelude::*;

use crate::cell::{concrete, default_cell, merged, spec_line_glyphs, Cell, CharFlags, Color,
    LineType, line_glyphs};
use crate::geometry::{spec_max, spec_min, Rect};

verus! {

/// Canvas edge lengths are confined to this many cells per axis.
pub const MAX_CANVAS_DIM: u32 = 10000;

/// A width-by-height grid of cells, stored row by row.
pub struct Canvas {
    pub width: u32,
    pub height: u32,
    pub cells: Vec<Vec<Cell>>,
}

impl Canvas {
    pub open spec fn w(&self) -> int {
        self.width as int
    }

    pub open spec fn h(&self) -> int {
        self.height as int
    }

    /// Well-formedness: bounded non-empty dimensions, a full grid of rows
    /// of the stated width, and only concrete cells stored.
    pub open spec fn wf(&self) -> bool {
        &&& 1 <= self.width <= MAX_CANVAS_DIM
        &&& 1 <= self.height <= MAX_CANVAS_DIM
        &&& self.cells@.len() == self.h()
        &&& forall|y: int| 0 <= y < self.h() ==> (#[trigger] self.cells@[y])@.len() == self.w()
        &&& forall|x: int, y: int|
            self.in_bounds(x, y) ==> concrete(#[trigger] self.cells@[y]@[x])
    }

    pub open spec fn in_bounds(&self, x: int, y: int) -> bool {
        0 <= x < self.w() && 0 <= y < self.h()
    }

    /// The cell stored at `(x, y)`; meaningful only in bounds.
    pub open spec fn at(&self, x: int, y: int) -> Cell {
        self.cells@[y]@[x]
    }

    /// A fresh canvas of the requested size, each edge length forced into
    /// `1 ..= MAX_CANVAS_DIM`, filled with the default cell.
    pub fn new(width: u32, height: u32) -> (c: Canvas)
        ensures
            c.wf(),
            c.w() == clamp_dim(width),
            c.h() == clamp_dim(height),
            forall|x: int, y: int| c.in_bounds(x, y) ==> #[trigger] c.at(x, y) == default_cell(),
    {
        let w = if width < 1 {
            1
        } else if width > MAX_CANVAS_DIM {
            MAX_CANVAS_DIM
        } else {
            width
        };
        let h = if height < 1 {
            1
        } else if height > MAX_CANVAS_DIM {
            MAX_CANVAS_DIM
        } else {
            height
        };
        let mut cells: Vec<Vec<Cell>> = Vec::new();
        let mut y: u32 = 0;
        while y < h
            invariant
                y <= h,
                cells@.len() == y,
                forall|yy: int| 0 <= yy < y ==> (#[trigger] cells@[yy])@.len() == w,
                forall|yy: int, xx: int|
                    0 <= yy < y && 0 <= xx < w ==> #[trigger] cells@[yy]@[xx] == default_cell(),
            decreases h - y,
        {
            let mut row: Vec<Cell> = Vec::new();
            let mut x: u32 = 0;
            while x < w
                invariant
                    x <= w,
                    row@.len() == x,
                    forall|xx: int| 0 <= xx < x ==> #[trigger] row@[xx] == default_cell(),
                decreases w - x,
            {
                row.push(Cell::blank());
                x = x + 1;
            }
            cells.push(row);
            y = y + 1;
        }
        Canvas { width: w, height: h, cells }
    }

    /// The cell at `(x, y)`, or nothing when the position lies outside
    /// the grid.
    pub fn get(&self, x: i64, y: i64) -> (r: Option<Cell>)
        requires
            self.wf(),
        ensures
            self.in_bounds(x as int, y as int) ==> r == Some(self.at(x as int, y as int)),
            !self.in_bounds(x as int, y as int) ==> r is None,
    {
        if 0 <= x && x < self.width as i64 && 0 <= y && y < self.height as i64 {
            Some(self.cells[y as usize][x as usize])
        } else {
            None
        }
    }

    /// Writes `c` over the cell at `(x, y)` through [`merged`]; a write
    /// outside the grid is ignored.
    pub fn put(&mut self, x: i64, y: i64, c: Cell)
        requires
            old(self).wf(),
        ensures
            final(self).wf(),
            final(self).w() == old(self).w(),
            final(self).h() == old(self).h(),
            forall|xx: int, yy: int|
                old(self).in_bounds(xx, yy) ==> #[trigger] final(self).at(xx, yy) == (if xx
                    == x as int && yy == y as int {
                    merged(old(self).at(xx, yy), c)
                } else {
                    old(self).at(xx, yy)
                }),
    {
        if 0 <= x && x < self.width as i64 && 0 <= y && y < self.height as i64 {
            let xi = x as usize;
            let yi = y as usize;
            let prev = self.cells[yi][xi];
            let m = Cell {
                code: if c.code != '\0' {
                    c.code
                } else {
                    prev.code
                },
                fore: if !matches!(c.fore, Color::Transparent) {
                    c.fore
                } else {
                    prev.fore
                },
                back: if !matches!(c.back, Color::Transparent) {
                    c.back
                } else {
                    prev.back
                },
                flags: c.flags,
            };
            self.cells[yi][xi] = m;
        }
    }
}

impl Canvas {
    /// Writes `c` over every cell of `r` that lies on the canvas.
    pub fn fill_rect(&mut self, r: Rect, c: Cell)
        requires
            old(self).wf(),
        ensures
            final(self).wf(),
            final(self).w() == old(self).w(),
            final(self).h() == old(self).h(),
            forall|xx: int, yy: int|
                old(self).in_bounds(xx, yy) ==> #[trigger] final(self).at(xx, yy) == (if r.spec_contains(
                    xx,
                    yy,
                ) {
                    merged(old(self).at(xx, yy), c)
                } else {
                    old(self).at(xx, yy)
                }),
    {
        let y0 = crate::geometry::max64(r.top, 0);
        let y1 = crate::geometry::min64(r.bottom, self.height as i64 - 1);
        let x0 = crate::geometry::max64(r.left, 0);
        let x1 = crate::geometry::min64(r.right, self.width as i64 - 1);
        let ghost orig = *self;
        let mut y = y0;
        while y <= y1
            invariant
                self.wf(),
                orig.wf(),
                self.w() == orig.w(),
                self.h() == orig.h(),
                y0 == spec_max(r.top as int, 0),
                y1 == spec_min(r.bottom as int, orig.h() - 1),
                x0 == spec_max(r.left as int, 0),
                x1 == spec_min(r.right as int, orig.w() - 1),
                y0 <= y,
                y <= y1 + 1 || y == y0,
                forall|xx: int, yy: int|
                    orig.in_bounds(xx, yy) ==> #[trigger] self.at(xx, yy) == (if r.spec_contains(
                        xx,
                        yy,
                    ) && yy < y {
                        merged(orig.at(xx, yy), c)
                    } else {
                        orig.at(xx, yy)
                    }),
            decreases y1 - y + 1,
        {
            let mut x = x0;
            while x <= x1
                invariant
                    self.wf(),
                    orig.wf(),
                    self.w() == orig.w(),
                    self.h() == orig.h(),
                    y0 == spec_max(r.top as int, 0),
                    y1 == spec_min(r.bottom as int, orig.h() - 1),
                    x0 == spec_max(r.left as int, 0),
                    x1 == spec_min(r.right as int, orig.w() - 1),
                    y0 <= y <= y1,
                    x0 <= x,
                    x <= x1 + 1 || x == x0,
                    forall|xx: int, yy: int|
                        orig.in_bounds(xx, yy) ==> #[trigger] self.at(xx, yy) == (if r.spec_contains(
                            xx,
                            yy,
                        ) && (yy < y || (yy == y && xx < x)) {
                            merged(orig.at(xx, yy), c)
                        } else {
                            orig.at(xx, yy)
                        }),
                decreases x1 - x + 1,
            {
                self.put(x, y, c);
                x = x + 1;
            }
            y = y + 1;
        }
    }

    /// Writes `c` over every canvas cell of the horizontal segment from
    /// `left` to `right` (in either order) on row `y`.
    pub fn fill_h_line(&mut self, left: i64, y: i64, right: i64, c: Cell)
        requires
            old(self).wf(),
        ensures
            final(self).wf(),
            final(self).w() == old(self).w(),
            final(self).h() == old(self).h(),
            forall|xx: int, yy: int|
                old(self).in_bounds(xx, yy) ==> #[trigger] final(self).at(xx, yy) == (if yy
                    == y as int && spec_min(left as int, right as int) <= xx <= spec_max(left as int, right as int) {
                    merged(old(self).at(xx, yy), c)
                } else {
                    old(self).at(xx, yy)
                }),
    {
        let r = Rect::new(left, y, right, y);
        self.fill_rect(r, c);
    }

    /// Writes `c` over every canvas cell of the vertical segment from
    /// `top` to `bottom` (in either order) on column `x`.
    pub fn fill_v_line(&mut self, x: i64, top: i64, bottom: i64, c: Cell)
        requires
            old(self).wf(),
        ensures
            final(self).wf(),
            final(self).w() == old(self).w(),
            final(self).h() == old(self).h(),
            forall|xx: int, yy: int|
                old(self).in_bounds(xx, yy) ==> #[trigger] final(self).at(xx, yy) == (if xx
                    == x as int && spec_min(top as int, bottom as int) <= yy <= spec_max(top as int, bottom as int) {
                    merged(old(self).at(xx, yy), c)
                } else {
                    old(self).at(xx, yy)
                }),
    {
        let r = Rect::new(x, top, x, bottom);
        self.fill_rect(r, c);
    }

    /// Writes `c` over every cell of the canvas.
    pub fn clear(&mut self, c: Cell)
        requires
            old(self).wf(),
        ensures
            final(self).wf(),
            final(self).w() == old(self).w(),
            final(self).h() == old(self).h(),
            forall|xx: int, yy: int|
                old(self).in_bounds(xx, yy) ==> #[trigger] final(self).at(xx, yy) == merged(
                    old(self).at(xx, yy),
                    c,
                ),
    {
        let r = Rect::new(0, 0, self.width as i64 - 1, self.height as i64 - 1);
        self.fill_rect(r, c);
    }

    /// Draws the outline of `r` in the given line style and colors. Only
    /// the border cells of `r` are touched; the interior and everything
    /// outside `r` keep their cells.
    pub fn draw_rect(&mut self, r: Rect, t: LineType, fore: Color, back: Color, flags: CharFlags)
        requires
            old(self).wf(),
        ensures
            final(self).wf(),
            final(self).w() == old(self).w(),
            final(self).h() == old(self).h(),
            forall|xx: int, yy: int|
                old(self).in_bounds(xx, yy) ==> #[trigger] final(self).at(xx, yy) == (if on_outline(
                    r,
                    xx,
                    yy,
                ) {
                    merged(
                        old(self).at(xx, yy),
                        Cell { code: outline_glyph(r, t, xx, yy), fore, back, flags },
                    )
                } else {
                    old(self).at(xx, yy)
                }),
    {
        let g = line_glyphs(t);
        let y0 = crate::geometry::max64(r.top, 0);
        let y1 = crate::geometry::min64(r.bottom, self.height as i64 - 1);
        let x0 = crate::geometry::max64(r.left, 0);
        let x1 = crate::geometry::min64(r.right, self.width as i64 - 1);
        let ghost orig = *self;
        let mut y = y0;
        while y <= y1
            invariant
                self.wf(),
                orig.wf(),
                self.w() == orig.w(),
                self.h() == orig.h(),
                g == spec_line_glyphs(t),
                y0 == spec_max(r.top as int, 0),
                y1 == spec_min(r.bottom as int, orig.h() - 1),
                x0 == spec_max(r.left as int, 0),
                x1 == spec_min(r.right as int, orig.w() - 1),
                y0 <= y,
                y <= y1 + 1 || y == y0,
                forall|xx: int, yy: int|
                    orig.in_bounds(xx, yy) ==> #[trigger] self.at(xx, yy) == (if on_outline(
                        r,
                        xx,
                        yy,
                    ) && yy < y {
                        merged(
                            orig.at(xx, yy),
                            Cell { code: outline_glyph(r, t, xx, yy), fore, back, flags },
                        )
                    } else {
                        orig.at(xx, yy)
                    }),
            decreases y1 - y + 1,
        {
            let mut x = x0;
            while x <= x1
                invariant
                    self.wf(),
                    orig.wf(),
                    self.w() == orig.w(),
                    self.h() == orig.h(),
                    g == spec_line_glyphs(t),
                    y0 == spec_max(r.top as int, 0),
                    y1 == spec_min(r.bottom as int, orig.h() - 1),
                    x0 == spec_max(r.left as int, 0),
                    x1 == spec_min(r.right as int, orig.w() - 1),
                    y0 <= y <= y1,
                    x0 <= x,
                    x <= x1 + 1 || x == x0,
                    forall|xx: int, yy: int|
                        orig.in_bounds(xx, yy) ==> #[trigger] self.at(xx, yy) == (if on_outline(
                            r,
                            xx,
                            yy,
                        ) && (yy < y || (yy == y && xx < x)) {
                            merged(
                                orig.at(xx, yy),
                                Cell { code: outline_glyph(r, t, xx, yy), fore, back, flags },
                            )
                        } else {
                            orig.at(xx, yy)
                        }),
                decreases x1 - x + 1,
            {
                if x == r.left || x == r.right || y == r.top || y == r.bottom {
                    let code = if x == r.left && y == r.bottom {
                        g.corner_bl
                    } else if x == r.right && y == r.bottom {
                        g.corner_br
                    } else if x == r.right && y == r.top {
                        g.corner_tr
                    } else if x == r.left && y == r.top {
                        g.corner_tl
                    } else if x == r.right {
                        g.v_right
                    } else if x == r.left {
                        g.v_left
                    } else if y == r.bottom {
                        g.h_bottom
                    } else {
                        g.h_top
                    };
                    self.put(x, y, Cell { code, fore, back, flags });
                }
                x = x + 1;
            }
            y = y + 1;
        }
    }

    /// Draws a horizontal line in the given style from `left` to `right`
    /// on row `y`.
    pub fn draw_h_line(
        &mut self,
        left: i64,
        y: i64,
        right: i64,
        t: LineType,
        fore: Color,
        back: Color,
        flags: CharFlags,
    )
        requires
            old(self).wf(),
        ensures
            final(self).wf(),
            final(self).w() == old(self).w(),
            final(self).h() == old(self).h(),
            forall|xx: int, yy: int|
                old(self).in_bounds(xx, yy) ==> #[trigger] final(self).at(xx, yy) == (if yy
                    == y as int && spec_min(left as int, right as int) <= xx <= spec_max(left as int, right as int) {
                    merged(
                        old(self).at(xx, yy),
                        Cell { code: spec_line_glyphs(t).horizontal, fore, back, flags },
                    )
                } else {
                    old(self).at(xx, yy)
                }),
    {
        let g = line_glyphs(t);
        self.fill_h_line(left, y, right, Cell { code: g.horizontal, fore, back, flags });
    }

    /// Draws a vertical line in the given style from `top` to `bottom`
    /// on column `x`.
    pub fn draw_v_line(
        &mut self,
        x: i64,
        top: i64,
        bottom: i64,
        t: LineType,
        fore: Color,
        back: Color,
        flags: CharFlags,
    )
        requires
            old(self).wf(),
        ensures
            final(self).wf(),
            final(self).w() == old(self).w(),
            final(self).h() == old(self).h(),
            forall|xx: int, yy: int|
                old(self).in_bounds(xx, yy) ==> #[trigger] final(self).at(xx, yy) == (if xx
                    == x as int && spec_min(top as int, bottom as int) <= yy <= spec_max(top as int, bottom as int) {
                    merged(
                        old(self).at(xx, yy),
                        Cell { code: spec_line_glyphs(t).vertical, fore, back, flags },
                    )
                } else {
                    old(self).at(xx, yy)
                }),
    {
        let g = line_glyphs(t);
        self.fill_v_line(x, top, bottom, Cell { code: g.vertical, fore, back, flags });
    }

    /// An independent deep copy of the canvas; later mutation of either
    /// canvas leaves the other untouched.
    pub fn snapshot(&self) -> (c: Canvas)
        requires
            self.wf(),
        ensures
            c.wf(),
            same_grid(c, *self),
    {
        let mut cells: Vec<Vec<Cell>> = Vec::new();
        let mut y: usize = 0;
        while y < self.height as usize
            invariant
                self.wf(),
                y <= self.h(),
                cells@.len() == y,
                forall|yy: int| 0 <= yy < y ==> (#[trigger] cells@[yy])@.len() == self.w(),
                forall|yy: int, xx: int|
                    0 <= yy < y && 0 <= xx < self.w() ==> #[trigger] cells@[yy]@[xx] == self.at(
                        xx,
                        yy,
                    ),
            decreases self.h() - y,
        {
            let mut row: Vec<Cell> = Vec::new();
            let mut x: usize = 0;
            while x < self.width as usize
                invariant
                    self.wf(),
                    0 <= y < self.h(),
                    x <= self.w(),
                    row@.len() == x,
                    forall|xx: int| 0 <= xx < x ==> #[trigger] row@[xx] == self.at(xx, y as int),
                decreases self.w() - x,
            {
                row.push(self.cells[y][x]);
                x = x + 1;
            }
            cells.push(row);
            y = y + 1;
        }
        Canvas { width: self.width, height: self.height, cells }
    }

    /// A freshly allocated sub-grid holding the cells of `r`: position
    /// `(x, y)` of the copy holds the cell at `(r.left + x, r.top + y)`,
    /// or the default cell where that position lies off the canvas. The
    /// copy is sized to `r`, its edges forced into the legal canvas range.
    pub fn capture(&self, r: Rect) -> (c: Canvas)
        requires
            self.wf(),
            r.well_formed(),
            -0x2000_0000_0000_0000 <= r.left <= 0x2000_0000_0000_0000,
            -0x2000_0000_0000_0000 <= r.top <= 0x2000_0000_0000_0000,
            -0x2000_0000_0000_0000 <= r.right <= 0x2000_0000_0000_0000,
            -0x2000_0000_0000_0000 <= r.bottom <= 0x2000_0000_0000_0000,
        ensures
            c.wf(),
            c.w() == spec_clamp_len(r.spec_width()),
            c.h() == spec_clamp_len(r.spec_height()),
            forall|x: int, y: int|
                c.in_bounds(x, y) ==> #[trigger] c.at(x, y) == (if self.in_bounds(
                    r.left + x,
                    r.top + y,
                ) {
                    self.at(r.left + x, r.top + y)
                } else {
                    default_cell()
                }),
    {
        let cw = clamp_len(r.right - r.left + 1);
        let ch = clamp_len(r.bottom - r.top + 1);
        let mut cells: Vec<Vec<Cell>> = Vec::new();
        let mut y: u32 = 0;
        while y < ch
            invariant
                self.wf(),
                r.well_formed(),
                -0x2000_0000_0000_0000 <= r.left <= 0x2000_0000_0000_0000,
                -0x2000_0000_0000_0000 <= r.top <= 0x2000_0000_0000_0000,
                1 <= cw <= MAX_CANVAS_DIM,
                1 <= ch <= MAX_CANVAS_DIM,
                cw == spec_clamp_len(r.spec_width()),
                ch == spec_clamp_len(r.spec_height()),
                y <= ch,
                cells@.len() == y,
                forall|yy: int| 0 <= yy < y ==> (#[trigger] cells@[yy])@.len() == cw,
                forall|yy: int, xx: int|
                    0 <= yy < y && 0 <= xx < cw ==> #[trigger] cells@[yy]@[xx] == (if self.in_bounds(
                        r.left + xx,
                        r.top + yy,
                    ) {
                        self.at(r.left + xx, r.top + yy)
                    } else {
                        default_cell()
                    }),
            decreases ch - y,
        {
            let mut row: Vec<Cell> = Vec::new();
            let mut x: u32 = 0;
            while x < cw
                invariant
                    self.wf(),
                    r.well_formed(),
                    -0x4000_0000_0000_0000 <= r.left <= 0x4000_0000_0000_0000,
                    -0x4000_0000_0000_0000 <= r.top <= 0x4000_0000_0000_0000,
                    1 <= cw <= MAX_CANVAS_DIM,
                    1 <= ch <= MAX_CANVAS_DIM,
                    0 <= y < ch,
                    x <= cw,
                    row@.len() == x,
                    forall|xx: int|
                        0 <= xx < x ==> #[trigger] row@[xx] == (if self.in_bounds(
                            r.left + xx,
                            r.top + y,
                        ) {
                            self.at(r.left + xx, r.top + y)
                        } else {
                            default_cell()
                        }),
                decreases cw - x,
            {
                let cell = match self.get(r.left + x as i64, r.top + y as i64) {
                    Some(cc) => cc,
                    None => Cell::blank(),
                };
                row.push(cell);
                x = x + 1;
            }
            cells.push(row);
            y = y + 1;
        }
        Canvas { width: cw, height: ch, cells }
    }

    /// Writes the whole of `src` onto this canvas with its top-left
    /// corner at `(x, y)`; cells that would land off the canvas are
    /// dropped.
    pub fn blit(&mut self, x: i64, y: i64, src: &Canvas)
        requires
            old(self).wf(),
            src.wf(),
            -0x4000_0000_0000_0000 <= x <= 0x4000_0000_0000_0000,
            -0x4000_0000_0000_0000 <= y <= 0x4000_0000_0000_0000,
        ensures
            final(self).wf(),
            final(self).w() == old(self).w(),
            final(self).h() == old(self).h(),
            forall|xx: int, yy: int|
                old(self).in_bounds(xx, yy) ==> #[trigger] final(self).at(xx, yy) == (if x <= xx
                    < x + src.w() && y <= yy < y + src.h() {
                    src.at(xx - x, yy - y)
                } else {
                    old(self).at(xx, yy)
                }),
    {
        let ghost orig = *self;
        let mut sy: u32 = 0;
        while sy < src.height
            invariant
                self.wf(),
                orig.wf(),
                src.wf(),
                self.w() == orig.w(),
                self.h() == orig.h(),
                -0x4000_0000_0000_0000 <= x <= 0x4000_0000_0000_0000,
                -0x4000_0000_0000_0000 <= y <= 0x4000_0000_0000_0000,
                sy <= src.h(),
                forall|xx: int, yy: int|
                    orig.in_bounds(xx, yy) ==> #[trigger] self.at(xx, yy) == (if x <= xx < x
                        + src.w() && y <= yy < y + sy {
                        src.at(xx - x, yy - y)
                    } else {
                        orig.at(xx, yy)
                    }),
            decreases src.h() - sy,
        {
            let mut sx: u32 = 0;
            while sx < src.width
                invariant
                    self.wf(),
                    orig.wf(),
                    src.wf(),
                    self.w() == orig.w(),
                    self.h() == orig.h(),
                    -0x4000_0000_0000_0000 <= x <= 0x4000_0000_0000_0000,
                    -0x4000_0000_0000_0000 <= y <= 0x4000_0000_0000_0000,
                    0 <= sy < src.h(),
                    sx <= src.w(),
                    forall|xx: int, yy: int|
                        orig.in_bounds(xx, yy) ==> #[trigger] self.at(xx, yy) == (if x <= xx < x
                            + src.w() && (y <= yy < y + sy || (yy == y + sy && x <= xx < x + sx)) {
                            src.at(xx - x, yy - y)
                        } else {
                            orig.at(xx, yy)
                        }),
                decreases src.w() - sx,
            {
                let cell = src.cells[sy as usize][sx as usize];
                self.put(x + sx as i64, y + sy as i64, cell);
                sx = sx + 1;
            }
            sy = sy + 1;
        }
    }
}

/// Whether `(x, y)` lies on the border of `r`.
pub open spec fn on_outline(r: Rect, x: int, y: int) -> bool {
    r.spec_contains(x, y) && (x == r.left || x == r.right || y == r.top || y == r.bottom)
}

/// The glyph the outline of `r` shows at border position `(x, y)`:
/// corners win over sides, and among coinciding writes the later one of
/// the drawing order (top side, bottom side, left side, right side, then
/// the four corners ending at the bottom-left) wins.
pub open spec fn outline_glyph(r: Rect, t: LineType, x: int, y: int) -> char {
    let g = spec_line_glyphs(t);
    if x == r.left && y == r.bottom {
        g.corner_bl
    } else if x == r.right && y == r.bottom {
        g.corner_br
    } else if x == r.right && y == r.top {
        g.corner_tr
    } else if x == r.left && y == r.top {
        g.corner_tl
    } else if x == r.right {
        g.v_right
    } else if x == r.left {
        g.v_left
    } else if y == r.bottom {
        g.h_bottom
    } else {
        g.h_top
    }
}

/// A length forced into the legal canvas range `1 ..= MAX_CANVAS_DIM`.
pub open spec fn spec_clamp_len(v: int) -> int {
    if v < 1 {
        1
    } else if v > MAX_CANVAS_DIM {
        MAX_CANVAS_DIM as int
    } else {
        v
    }
}

fn clamp_len(v: i64) -> (r: u32)
    ensures
        r == spec_clamp_len(v as int),
{
    if v < 1 {
        1
    } else if v > MAX_CANVAS_DIM as i64 {
        MAX_CANVAS_DIM
    } else {
        v as u32
    }
}

/// An edge length forced into the legal canvas range.
pub open spec fn clamp_dim(v: u32) -> int {
    if v < 1 {
        1
    } else if v > MAX_CANVAS_DIM {
        MAX_CANVAS_DIM as int
    } else {
        v as int
    }
}

/// Two canvases hold the same picture: equal dimensions and equal cells
/// everywhere in bounds.
pub open spec fn same_grid(a: Canvas, b: Canvas) -> bool {
    &&& a.w() == b.w()
    &&& a.h() == b.h()
    &&& forall|x: int, y: int| a.in_bounds(x, y) ==> #[trigger] a.at(x, y) == b.at(x, y)
}

impl Canvas {
    /// The canvas's picture as a mathematical value: the sequence of its
    /// rows, each row the sequence of its cells.
    pub open spec fn grid(&self) -> Seq<Seq<Cell>> {
        self.cells@.map_values(|r: Vec<Cell>| r@)
    }
}

/// Canvases with the same picture have equal grids.
pub proof fn lemma_same_grid_eq(a: Canvas, b: Canvas)
    requires
        a.wf(),
        b.wf(),
        same_grid(a, b),
    ensures
        a.grid() == b.grid(),
{
    assert forall|y: int| 0 <= y < a.grid().len() implies a.grid()[y] == b.grid()[y] by {
        assert forall|x: int| 0 <= x < a.cells@[y]@.len() implies a.cells@[y]@[x]
            == b.cells@[y]@[x] by {
            assert(a.at(x, y) == b.at(x, y));
        }
        assert(a.cells@[y]@ =~= b.cells@[y]@);
    }
    assert(a.grid() =~= b.grid());
}

} // verus!
