//! The drawing-object model: the closed set of tools that paint into a
//! canvas region, each variant carrying only its own parameters.
//!
//! Every variant obeys one contract: `paint` renders the variant's
//! effect into the given rectangle of a canvas and touches nothing
//! outside it; `clear` discards the variant's transient state (the
//! captured image of the capture tool, the text buffer of the text tool)
//! while keeping its styling parameters; `on_finish_selection` is the
//! capture tool's hook that copies the freshly selected region out of
//! the canvas so a floating preview can follow later drags.

use vstd::prelude::*;

use crate::canvas::{on_outline, outline_glyph, Canvas};
use crate::cell::{merged, spec_line_glyphs, Cell, CharFlags, Color, LineType};
use crate::geometry::{Point, Rect, WORK_LIMIT};
use crate::wrap::{to_chars, wrap_layout, wrap_placed, lemma_wrap_placed_distinct,
    lemma_wrap_placed_in_line, TEXT_LIMIT};

verus! {

/// The outline-rectangle tool: colors and a border line style.
pub struct RectangleObject {
    pub fore: Color,
    pub back: Color,
    pub line_type: LineType,
}

impl Default for RectangleObject {
    fn default() -> (d: Self)
        ensures
            d == (RectangleObject {
                fore: Color::White,
                back: Color::Black,
                line_type: LineType::Single,
            }),
    {
        RectangleObject { fore: Color::White, back: Color::Black, line_type: LineType::Single }
    }
}

/// The filled-rectangle tool: colors, a fill glyph and style flags.
pub struct FillRectangleObject {
    pub fore: Color,
    pub back: Color,
    pub ch: char,
    pub flags: CharFlags,
}

impl Default for FillRectangleObject {
    fn default() -> (d: Self)
        ensures
            d == (FillRectangleObject {
                fore: Color::White,
                back: Color::Black,
                ch: ' ',
                flags: CharFlags { bits: 0 },
            }),
    {
        FillRectangleObject {
            fore: Color::White,
            back: Color::Black,
            ch: ' ',
            flags: CharFlags { bits: 0 },
        }
    }
}

/// The line tool: colors, a line style and an orientation flag.
pub struct LineObject {
    pub fore: Color,
    pub back: Color,
    pub line_type: LineType,
    pub vertical: bool,
}

impl Default for LineObject {
    fn default() -> (d: Self)
        ensures
            d == (LineObject {
                fore: Color::White,
                back: Color::Black,
                line_type: LineType::Single,
                vertical: false,
            }),
    {
        LineObject {
            fore: Color::White,
            back: Color::Black,
            line_type: LineType::Single,
            vertical: false,
        }
    }
}

/// The text tool: a text buffer, colors and style flags; painted with
/// word-wrap to the target rectangle's width.
pub struct TextObject {
    pub txt: String,
    pub fore: Color,
    pub back: Color,
    pub flags: CharFlags,
}

impl Default for TextObject {
    fn default() -> (d: Self)
        ensures
            d.txt@ == Seq::<char>::empty(),
            d.fore == Color::White,
            d.back == Color::Black,
            d.flags == (CharFlags { bits: 0 }),
    {
        TextObject {
            txt: String::new(),
            fore: Color::White,
            back: Color::Black,
            flags: CharFlags { bits: 0 },
        }
    }
}

/// The capture tool: an optionally captured sub-grid and the anchor it
/// was captured at; paints a floating preview of the captured region.
pub struct SelectionObject {
    pub img: Option<Canvas>,
    pub start_point: Point,
}

impl Default for SelectionObject {
    fn default() -> (d: Self)
        ensures
            d.img is None,
            d.start_point == (Point { x: 0, y: 0 }),
    {
        SelectionObject { img: None, start_point: Point { x: 0, y: 0 } }
    }
}

/// The pan tool: no paintable state; it signals the widget to scroll
/// the viewport instead of editing the canvas.
pub struct MoveObject {}

impl Default for MoveObject {
    fn default() -> (d: Self)
        ensures
            d == (MoveObject {  }),
    {
        MoveObject {  }
    }
}

/// The active tool: exactly one variant is installed at a time.
pub enum DrawingObject {
    Selection(SelectionObject),
    Move(MoveObject),
    Rectangle(RectangleObject),
    FillRectangle(FillRectangleObject),
    Line(LineObject),
    Text(TextObject),
}

/// A rectangle the drawing tools accept: anywhere inside the selection
/// working window, with the two-cell slack an expanded border rect can
/// carry.
pub open spec fn in_paint_window(r: Rect) -> bool {
    &&& -(WORK_LIMIT + 2) <= r.left <= WORK_LIMIT + 2
    &&& -(WORK_LIMIT + 2) <= r.top <= WORK_LIMIT + 2
    &&& -(WORK_LIMIT + 2) <= r.right <= WORK_LIMIT + 2
    &&& -(WORK_LIMIT + 2) <= r.bottom <= WORK_LIMIT + 2
}

/// The cell the capture tool erases its source region with: a blank
/// glyph that keeps the colors already on the canvas and resets flags.
pub open spec fn erase_cell() -> Cell {
    Cell { code: ' ', fore: Color::Transparent, back: Color::Transparent, flags: CharFlags {
        bits: 0,
    } }
}

/// The region the capture tool erases: a rectangle of the current
/// selection's extent anchored at the captured region's origin.
pub open spec fn erase_rect(anchor: Point, rect: Rect) -> Rect {
    Rect {
        left: anchor.x,
        top: anchor.y,
        right: (anchor.x + (rect.right - rect.left)) as i64,
        bottom: (anchor.y + (rect.bottom - rect.top)) as i64,
    }
}

/// `after` is `before` with its transient state discarded: the capture
/// tool's image and anchor gone, the text tool's buffer empty, all
/// styling parameters kept, every other variant untouched.
pub open spec fn object_cleared(before: DrawingObject, after: DrawingObject) -> bool {
    match before {
        DrawingObject::Selection(_) => after matches DrawingObject::Selection(u) && u.img is None
            && u.start_point == (Point { x: 0, y: 0 }),
        DrawingObject::Text(t) => after matches DrawingObject::Text(u) && u.txt@
            == Seq::<char>::empty() && u.fore == t.fore && u.back == t.back && u.flags == t.flags,
        _ => after == before,
    }
}

impl DrawingObject {

    /// Transient-state invariant: a captured image is a well-formed
    /// canvas and its anchor lies in the working window; a text buffer
    /// respects the layout's length bound.
    pub open spec fn wf(&self) -> bool {
        match self {
            DrawingObject::Selection(s) => match s.img {
                Option::Some(img) => {
                    &&& img.wf()
                    &&& -(WORK_LIMIT + 2) <= s.start_point.x <= WORK_LIMIT + 2
                    &&& -(WORK_LIMIT + 2) <= s.start_point.y <= WORK_LIMIT + 2
                },
                Option::None => true,
            },
            DrawingObject::Text(t) => t.txt@.len() <= TEXT_LIMIT,
            _ => true,
        }
    }

    /// Resets the variant's transient state: the capture tool forgets
    /// its captured image and anchor, the text tool empties its buffer;
    /// every styling parameter (colors, line style, fill glyph, flags)
    /// survives, and the variant kind never changes.
    pub fn clear(&mut self)
        ensures
            final(self).wf(),
            object_cleared(*old(self), *final(self)),
    {
        match self {
            DrawingObject::Selection(sel) => {
                sel.img = None;
                sel.start_point = Point { x: 0, y: 0 };
            },
            DrawingObject::Text(text) => {
                text.txt = String::new();
            },
            DrawingObject::Move(_) => {},
            DrawingObject::Rectangle(_) => {},
            DrawingObject::FillRectangle(_) => {},
            DrawingObject::Line(_) => {},
        }
    }

    /// The capture tool's hook, called right after a new region has been
    /// created: copies every cell of `rect` out of `canvas` into a fresh
    /// sub-grid sized to `rect` and records `rect`'s top-left corner as
    /// the anchor. Every other variant ignores the call.
    pub fn on_finish_selection(&mut self, canvas: &Canvas, rect: Rect)
        requires
            old(self).wf(),
            canvas.wf(),
            rect.well_formed(),
            in_paint_window(rect),
        ensures
            final(self).wf(),
            (*old(self)) matches DrawingObject::Selection(_) ==> ((*final(self))
                matches DrawingObject::Selection(u) && u.start_point == (Point {
                x: rect.left,
                y: rect.top,
            }) && (u.img matches Some(img) && img.wf() && img.w()
                == crate::canvas::spec_clamp_len(rect.spec_width()) && img.h()
                == crate::canvas::spec_clamp_len(rect.spec_height()) && (forall|x: int, y: int|
                img.in_bounds(x, y) ==> #[trigger] img.at(x, y) == (if canvas.in_bounds(
                    rect.left + x,
                    rect.top + y,
                ) {
                    canvas.at(rect.left + x, rect.top + y)
                } else {
                    crate::cell::default_cell()
                })))),
            !((*old(self)) matches DrawingObject::Selection(_)) ==> *final(self) == *old(self),
    {
        match self {
            DrawingObject::Selection(sel) => {
                let img = canvas.capture(rect);
                sel.img = Some(img);
                sel.start_point = Point { x: rect.left, y: rect.top };
            },
            DrawingObject::Move(_) => {},
            DrawingObject::Rectangle(_) => {},
            DrawingObject::FillRectangle(_) => {},
            DrawingObject::Line(_) => {},
            DrawingObject::Text(_) => {},
        }
    }
}

/// Where character `k` of a text lands on the canvas when painted into
/// `rect`, if it is drawn at all: its wrapped cell offset by the
/// rectangle's top-left corner, dropped when its row falls below the
/// rectangle.
pub open spec fn text_target(text: Seq<char>, rect: Rect, k: int) -> Option<(int, int)> {
    match wrap_placed(text, rect.spec_width(), k) {
        Option::Some(rc) => if rc.0 < rect.spec_height() {
            Option::Some((rect.left + rc.1, rect.top + rc.0))
        } else {
            Option::None
        },
        Option::None => Option::None,
    }
}

/// The cell at `(xx, yy)` after the first `upto` characters of the text
/// have been painted over `orig` with the given colors and flags.
pub open spec fn text_overlay_cell(
    orig: Canvas,
    text: Seq<char>,
    rect: Rect,
    fore: Color,
    back: Color,
    flags: CharFlags,
    upto: int,
    xx: int,
    yy: int,
) -> Cell
    decreases upto,
{
    if upto <= 0 {
        orig.at(xx, yy)
    } else {
        let prev = text_overlay_cell(orig, text, rect, fore, back, flags, upto - 1, xx, yy);
        if text_target(text, rect, upto - 1) == Option::Some((xx, yy)) {
            merged(prev, Cell { code: text[upto - 1], fore, back, flags })
        } else {
            prev
        }
    }
}

/// Two different drawn characters never land on the same canvas cell.
pub proof fn lemma_text_targets_distinct(text: Seq<char>, rect: Rect, i: int, j: int)
    requires
        rect.well_formed(),
        0 <= i < j < text.len(),
        text_target(text, rect, i) is Some,
        text_target(text, rect, j) is Some,
    ensures
        text_target(text, rect, i) != text_target(text, rect, j),
{
    lemma_wrap_placed_distinct(text, rect.spec_width(), i, j);
}

/// A cell no character lands on keeps its original content through the
/// whole overlay.
pub proof fn lemma_text_overlay_untouched(
    orig: Canvas,
    text: Seq<char>,
    rect: Rect,
    fore: Color,
    back: Color,
    flags: CharFlags,
    upto: int,
    xx: int,
    yy: int,
)
    requires
        forall|k: int| 0 <= k < upto ==> text_target(text, rect, k) != Option::Some((xx, yy)),
    ensures
        text_overlay_cell(orig, text, rect, fore, back, flags, upto, xx, yy) == orig.at(xx, yy),
    decreases upto,
{
    if upto > 0 {
        lemma_text_overlay_untouched(orig, text, rect, fore, back, flags, upto - 1, xx, yy);
    }
}

/// The cell a character lands on holds exactly that character written
/// over the original cell, whatever came before or after it.
pub proof fn lemma_text_overlay_written(
    orig: Canvas,
    text: Seq<char>,
    rect: Rect,
    fore: Color,
    back: Color,
    flags: CharFlags,
    n: int,
    k: int,
    xx: int,
    yy: int,
)
    requires
        rect.well_formed(),
        0 <= k < n <= text.len(),
        text_target(text, rect, k) == Option::Some((xx, yy)),
    ensures
        text_overlay_cell(orig, text, rect, fore, back, flags, n, xx, yy) == merged(
            orig.at(xx, yy),
            Cell { code: text[k], fore, back, flags },
        ),
    decreases n,
{
    if n == k + 1 {
        assert forall|j: int| 0 <= j < k implies text_target(text, rect, j) != Option::Some(
            (xx, yy),
        ) by {
            if text_target(text, rect, j) is Some {
                lemma_text_targets_distinct(text, rect, j, k);
            }
        }
        lemma_text_overlay_untouched(orig, text, rect, fore, back, flags, k, xx, yy);
    } else {
        lemma_text_overlay_written(orig, text, rect, fore, back, flags, n - 1, k, xx, yy);
        if text_target(text, rect, n - 1) is Some {
            lemma_text_targets_distinct(text, rect, k, n - 1);
        }
    }
}

/// The cell at `(xx, yy)` after `obj` has painted itself into `rect`
/// over the canvas `orig`: the single pointwise description of every
/// variant's visual effect.
pub open spec fn painted_cell(
    obj: DrawingObject,
    orig: Canvas,
    rect: Rect,
    xx: int,
    yy: int,
) -> Cell {
    match obj {
        DrawingObject::Move(_) => orig.at(xx, yy),
        DrawingObject::Selection(s) => match s.img {
            Option::Some(img) => {
                if rect.left <= xx < rect.left + img.w() && rect.top <= yy < rect.top + img.h() {
                    img.at(xx - rect.left, yy - rect.top)
                } else if erase_rect(s.start_point, rect).spec_contains(xx, yy) {
                    merged(orig.at(xx, yy), erase_cell())
                } else {
                    orig.at(xx, yy)
                }
            },
            Option::None => orig.at(xx, yy),
        },
        DrawingObject::Rectangle(o) => {
            if on_outline(rect, xx, yy) {
                merged(
                    orig.at(xx, yy),
                    Cell {
                        code: outline_glyph(rect, o.line_type, xx, yy),
                        fore: o.fore,
                        back: o.back,
                        flags: CharFlags { bits: 0 },
                    },
                )
            } else {
                orig.at(xx, yy)
            }
        },
        DrawingObject::FillRectangle(o) => {
            if rect.spec_contains(xx, yy) {
                merged(
                    orig.at(xx, yy),
                    Cell { code: o.ch, fore: o.fore, back: o.back, flags: o.flags },
                )
            } else {
                orig.at(xx, yy)
            }
        },
        DrawingObject::Line(o) => {
            if o.vertical {
                if xx == rect.spec_center_x() && rect.top <= yy <= rect.bottom {
                    merged(
                        orig.at(xx, yy),
                        Cell {
                            code: spec_line_glyphs(o.line_type).vertical,
                            fore: o.fore,
                            back: o.back,
                            flags: CharFlags { bits: 0 },
                        },
                    )
                } else {
                    orig.at(xx, yy)
                }
            } else {
                if yy == rect.spec_center_y() && rect.left <= xx <= rect.right {
                    merged(
                        orig.at(xx, yy),
                        Cell {
                            code: spec_line_glyphs(o.line_type).horizontal,
                            fore: o.fore,
                            back: o.back,
                            flags: CharFlags { bits: 0 },
                        },
                    )
                } else {
                    orig.at(xx, yy)
                }
            }
        },
        DrawingObject::Text(t) => text_overlay_cell(
            orig,
            t.txt@,
            rect,
            t.fore,
            t.back,
            t.flags,
            t.txt@.len() as int,
            xx,
            yy,
        ),
    }
}

/// The text overlay at a position reads the underlying canvas only at
/// that very position.
pub proof fn lemma_text_overlay_local(
    a: Canvas,
    b: Canvas,
    text: Seq<char>,
    rect: Rect,
    fore: Color,
    back: Color,
    flags: CharFlags,
    upto: int,
    xx: int,
    yy: int,
)
    requires
        a.at(xx, yy) == b.at(xx, yy),
    ensures
        text_overlay_cell(a, text, rect, fore, back, flags, upto, xx, yy) == text_overlay_cell(
            b,
            text,
            rect,
            fore,
            back,
            flags,
            upto,
            xx,
            yy,
        ),
    decreases upto,
{
    if upto > 0 {
        lemma_text_overlay_local(a, b, text, rect, fore, back, flags, upto - 1, xx, yy);
    }
}

/// A tool's painted cell at a position reads the underlying canvas only
/// at that very position.
pub proof fn lemma_painted_cell_local(
    obj: DrawingObject,
    a: Canvas,
    b: Canvas,
    rect: Rect,
    xx: int,
    yy: int,
)
    requires
        a.at(xx, yy) == b.at(xx, yy),
    ensures
        painted_cell(obj, a, rect, xx, yy) == painted_cell(obj, b, rect, xx, yy),
{
    match obj {
        DrawingObject::Text(t) => {
            lemma_text_overlay_local(
                a,
                b,
                t.txt@,
                rect,
                t.fore,
                t.back,
                t.flags,
                t.txt@.len() as int,
                xx,
                yy,
            );
        },
        _ => {},
    }
}

impl DrawingObject {
    /// Renders the variant's visual effect into `rect` on `canvas`:
    /// every cell of the canvas afterwards holds exactly
    /// [`painted_cell`] of the cell it held before. Only cells inside
    /// `rect` are touched (the capture tool additionally erases the
    /// region it was captured from); the pan tool and a capture tool
    /// without a captured image render nothing.
    pub fn paint(&self, canvas: &mut Canvas, rect: Rect)
        requires
            self.wf(),
            old(canvas).wf(),
            rect.well_formed(),
            in_paint_window(rect),
        ensures
            final(canvas).wf(),
            final(canvas).w() == old(canvas).w(),
            final(canvas).h() == old(canvas).h(),
            forall|xx: int, yy: int|
                old(canvas).in_bounds(xx, yy) ==> #[trigger] final(canvas).at(xx, yy)
                    == painted_cell(*self, *old(canvas), rect, xx, yy),
    {
        match self {
            DrawingObject::Selection(sel) => {
                match &sel.img {
                    Some(img) => {
                        let ghost orig = *canvas;
                        let er = Rect::with_extent(
                            sel.start_point.x,
                            sel.start_point.y,
                            rect.right - rect.left,
                            rect.bottom - rect.top,
                        );
                        canvas.fill_rect(
                            er,
                            Cell {
                                code: ' ',
                                fore: Color::Transparent,
                                back: Color::Transparent,
                                flags: CharFlags { bits: 0 },
                            },
                        );
                        let ghost mid = *canvas;
                        canvas.blit(rect.left, rect.top, img);
                        proof {
                            assert forall|xx: int, yy: int|
                                orig.in_bounds(xx, yy) implies #[trigger] canvas.at(xx, yy)
                                == (if rect.left <= xx < rect.left + img.w() && rect.top <= yy
                                < rect.top + img.h() {
                                img.at(xx - rect.left, yy - rect.top)
                            } else if erase_rect(sel.start_point, rect).spec_contains(xx, yy) {
                                merged(orig.at(xx, yy), erase_cell())
                            } else {
                                orig.at(xx, yy)
                            }) by {
                                assert(mid.at(xx, yy) == (if er.spec_contains(xx, yy) {
                                    merged(orig.at(xx, yy), erase_cell())
                                } else {
                                    orig.at(xx, yy)
                                }));
                            }
                        }
                    },
                    None => {},
                }
            },
            DrawingObject::Move(_) => {},
            DrawingObject::Rectangle(o) => {
                canvas.draw_rect(rect, o.line_type, o.fore, o.back, CharFlags { bits: 0 });
            },
            DrawingObject::FillRectangle(o) => {
                canvas.fill_rect(
                    rect,
                    Cell { code: o.ch, fore: o.fore, back: o.back, flags: o.flags },
                );
            },
            DrawingObject::Line(o) => {
                if o.vertical {
                    let cx = rect.center_x();
                    canvas.draw_v_line(
                        cx,
                        rect.top,
                        rect.bottom,
                        o.line_type,
                        o.fore,
                        o.back,
                        CharFlags { bits: 0 },
                    );
                } else {
                    let cy = rect.center_y();
                    canvas.draw_h_line(
                        rect.left,
                        cy,
                        rect.right,
                        o.line_type,
                        o.fore,
                        o.back,
                        CharFlags { bits: 0 },
                    );
                }
            },
            DrawingObject::Text(t) => {
                let chars = to_chars(t.txt.as_str());
                let ghost text = chars@;
                let w = rect.right - rect.left + 1;
                let h = rect.bottom - rect.top + 1;
                let pos = wrap_layout(&chars, w);
                let ghost orig = *canvas;
                let n = chars.len();
                let mut i: usize = 0;
                while i < n
                    invariant
                        canvas.wf(),
                        orig.wf(),
                        canvas.w() == orig.w(),
                        canvas.h() == orig.h(),
                        text == t.txt@,
                        chars@ == text,
                        text.len() <= TEXT_LIMIT,
                        n == text.len(),
                        pos@.len() == n,
                        rect.well_formed(),
                        in_paint_window(rect),
                        w == rect.spec_width(),
                        h == rect.spec_height(),
                        i <= n,
                        forall|k: int|
                            0 <= k < n ==> #[trigger] pos@[k] == match wrap_placed(
                                text,
                                w as int,
                                k,
                            ) {
                                Option::Some(rc) => Option::Some((rc.0 as i64, rc.1 as i64)),
                                Option::None => Option::<(i64, i64)>::None,
                            },
                        forall|xx: int, yy: int|
                            orig.in_bounds(xx, yy) ==> #[trigger] canvas.at(xx, yy)
                                == text_overlay_cell(
                                orig,
                                text,
                                rect,
                                t.fore,
                                t.back,
                                t.flags,
                                i as int,
                                xx,
                                yy,
                            ),
                    decreases n - i,
                {
                    let ghost prev_canvas = *canvas;
                    match pos[i] {
                        Some(rc) => {
                            proof {
                                lemma_wrap_placed_in_line(text, w as int, i as int);
                            }
                            let row = rc.0;
                            let col = rc.1;
                            if row < h {
                                canvas.put(
                                    rect.left + col,
                                    rect.top + row,
                                    Cell { code: chars[i], fore: t.fore, back: t.back, flags: t.flags },
                                );
                                proof {
                                    assert(text_target(text, rect, i as int) == Option::Some(
                                        ((rect.left + col) as int, (rect.top + row) as int),
                                    ));
                                    assert forall|xx: int, yy: int|
                                        orig.in_bounds(xx, yy) implies #[trigger] canvas.at(xx, yy)
                                        == text_overlay_cell(
                                        orig,
                                        text,
                                        rect,
                                        t.fore,
                                        t.back,
                                        t.flags,
                                        i + 1,
                                        xx,
                                        yy,
                                    ) by {
                                        assert(prev_canvas.at(xx, yy) == text_overlay_cell(
                                            orig,
                                            text,
                                            rect,
                                            t.fore,
                                            t.back,
                                            t.flags,
                                            i as int,
                                            xx,
                                            yy,
                                        ));
                                    }
                                }
                            } else {
                                proof {
                                    assert(text_target(text, rect, i as int) is None);
                                    assert forall|xx: int, yy: int|
                                        orig.in_bounds(xx, yy) implies #[trigger] canvas.at(xx, yy)
                                        == text_overlay_cell(
                                        orig,
                                        text,
                                        rect,
                                        t.fore,
                                        t.back,
                                        t.flags,
                                        i + 1,
                                        xx,
                                        yy,
                                    ) by {
                                        assert(prev_canvas.at(xx, yy) == text_overlay_cell(
                                            orig,
                                            text,
                                            rect,
                                            t.fore,
                                            t.back,
                                            t.flags,
                                            i as int,
                                            xx,
                                            yy,
                                        ));
                                    }
                                }
                            }
                        },
                        None => {
                            proof {
                                assert(text_target(text, rect, i as int) is None);
                                assert forall|xx: int, yy: int|
                                    orig.in_bounds(xx, yy) implies #[trigger] canvas.at(xx, yy)
                                    == text_overlay_cell(
                                    orig,
                                    text,
                                    rect,
                                    t.fore,
                                    t.back,
                                    t.flags,
                                    i + 1,
                                    xx,
                                    yy,
                                ) by {
                                    assert(prev_canvas.at(xx, yy) == text_overlay_cell(
                                        orig,
                                        text,
                                        rect,
                                        t.fore,
                                        t.back,
                                        t.flags,
                                        i as int,
                                        xx,
                                        yy,
                                    ));
                                }
                            }
                        },
                    }
                    i = i + 1;
                }
            },
        }
    }
}

} // verus!
